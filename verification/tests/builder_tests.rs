use agent_supervisor::builder::build_agent_new_args;
use agent_supervisor::builder::build_bootstrap_args;
use agent_supervisor::builder::build_start_args;
use agent_supervisor::builder::build_team_new_args;
use agent_supervisor::builder::onboard_plan;
use agent_supervisor::builder::validate_bootstrap;
use agent_supervisor::builder::validate_onboard;
use agent_supervisor::builder::validate_start;
use agent_supervisor::builder::with_team;
use agent_supervisor::builder::BootstrapWorkspaceArgs;
use agent_supervisor::builder::OnboardAgentArgs;
use agent_supervisor::builder::OnboardPlan;
use agent_supervisor::builder::StartManagerWebArgs;
use agent_supervisor::builder::TriState;
use agent_supervisor::errors::FieldName;
use agent_supervisor::errors::ValidationError;

fn start_args_basic() -> StartManagerWebArgs {
    StartManagerWebArgs {
        workspace_dir: "/ws".to_string(),
        project_id: "p1".to_string(),
        actor_id: None,
        actor_role: None,
        actor_team_id: None,
        host: None,
        port: None,
        monitor_limit: None,
        pending_limit: None,
        decisions_limit: None,
        refresh_index: TriState::Unset,
        sync_index: TriState::Unset,
        node_bin: None,
        cli_path: None,
    }
}

#[test]
fn tri_state_keeps_the_three_cases_apart() {
    assert_eq!(TriState::from_option(None), TriState::Unset);
    assert_eq!(TriState::from_option(Some(true)), TriState::ExplicitTrue);
    assert_eq!(TriState::from_option(Some(false)), TriState::ExplicitFalse);
}

#[test]
fn validate_start_applies_defaults() {
    let req = validate_start(&start_args_basic()).expect("valid request");
    assert_eq!(req.workspace_dir, "/ws");
    assert_eq!(req.project_id, "p1");
    assert_eq!(req.actor_id, "human");
    assert_eq!(req.actor_role, "manager");
    assert_eq!(req.host, "127.0.0.1");
    assert_eq!(req.port, 8787);
    assert_eq!(req.monitor_limit, 200);
    assert_eq!(req.pending_limit, 200);
    assert_eq!(req.decisions_limit, 200);
    assert_eq!(req.actor_team_id, None);
}

#[test]
fn validate_start_rejects_bad_fields() {
    let mut a = start_args_basic();
    a.workspace_dir = "   ".to_string();
    assert_eq!(
        validate_start(&a).unwrap_err(),
        ValidationError::EmptyField(FieldName::WorkspaceDir)
    );

    let mut a = start_args_basic();
    a.project_id = "".to_string();
    assert_eq!(
        validate_start(&a).unwrap_err(),
        ValidationError::EmptyField(FieldName::ProjectId)
    );

    let mut a = start_args_basic();
    a.actor_id = Some("  ".to_string());
    assert_eq!(
        validate_start(&a).unwrap_err(),
        ValidationError::EmptyField(FieldName::ActorId)
    );

    let mut a = start_args_basic();
    a.actor_role = Some("admin".to_string());
    assert_eq!(validate_start(&a).unwrap_err(), ValidationError::InvalidActorRole);

    let mut a = start_args_basic();
    a.host = Some(" \t".to_string());
    assert_eq!(
        validate_start(&a).unwrap_err(),
        ValidationError::EmptyField(FieldName::Host)
    );

    let mut a = start_args_basic();
    a.port = Some(0);
    assert_eq!(validate_start(&a).unwrap_err(), ValidationError::PortZero);
}

#[test]
fn validate_start_folds_role_case() {
    let mut a = start_args_basic();
    a.actor_role = Some("  CEO ".to_string());
    let req = validate_start(&a).expect("valid request");
    assert_eq!(req.actor_role, "ceo");
}

#[test]
fn start_vector_is_canonical() {
    let mut a = start_args_basic();
    a.actor_team_id = Some(" t1 ".to_string());
    a.refresh_index = TriState::ExplicitTrue;
    a.sync_index = TriState::ExplicitFalse;
    let req = validate_start(&a).expect("valid request");
    let args = build_start_args(&req, "/cli.js");
    let expected: Vec<String> = [
        "/cli.js",
        "ui:web",
        "/ws",
        "--project",
        "p1",
        "--actor",
        "human",
        "--role",
        "manager",
        "--host",
        "127.0.0.1",
        "--port",
        "8787",
        "--monitor-limit",
        "200",
        "--pending-limit",
        "200",
        "--decisions-limit",
        "200",
        "--team",
        "t1",
        "--refresh-index",
        "--no-sync-index",
    ]
    .iter()
    .map(|s| s.to_string())
    .collect();
    assert_eq!(args, expected);
}

#[test]
fn start_vector_omits_flags_at_defaults() {
    let req = validate_start(&start_args_basic()).expect("valid request");
    let args = build_start_args(&req, "/cli.js");
    assert!(!args.contains(&"--team".to_string()));
    assert!(!args.contains(&"--refresh-index".to_string()));
    assert!(!args.contains(&"--no-sync-index".to_string()));
}

#[test]
fn building_twice_is_byte_identical() {
    let mut a = start_args_basic();
    a.actor_team_id = Some("t9".to_string());
    let req = validate_start(&a).expect("valid request");
    let first = build_start_args(&req, "/cli.js");
    let second = build_start_args(&req, "/cli.js");
    assert_eq!(first, second);

    let breq = validate_bootstrap(&bootstrap_args_basic()).expect("valid request");
    assert_eq!(
        build_bootstrap_args(&breq, "/cli.js"),
        build_bootstrap_args(&breq, "/cli.js")
    );
}

fn bootstrap_args_basic() -> BootstrapWorkspaceArgs {
    BootstrapWorkspaceArgs {
        workspace_dir: "/ws".to_string(),
        company_name: None,
        project_name: None,
        departments: None,
        include_ceo: TriState::Unset,
        include_director: TriState::Unset,
        force: TriState::Unset,
        node_bin: None,
        cli_path: None,
    }
}

#[test]
fn bootstrap_rejects_blank_workspace() {
    let mut a = bootstrap_args_basic();
    a.workspace_dir = "  ".to_string();
    assert_eq!(
        validate_bootstrap(&a).unwrap_err(),
        ValidationError::EmptyField(FieldName::WorkspaceDir)
    );
}

#[test]
fn bootstrap_vector_is_canonical() {
    let mut a = bootstrap_args_basic();
    a.company_name = Some(" ACME ".to_string());
    a.departments = Some(vec![" eng ".to_string(), "  ".to_string(), "ops".to_string()]);
    a.include_ceo = TriState::ExplicitFalse;
    a.force = TriState::ExplicitTrue;
    let req = validate_bootstrap(&a).expect("valid request");
    let args = build_bootstrap_args(&req, "/cli.js");
    let expected: Vec<String> = [
        "/cli.js",
        "workspace:bootstrap",
        "/ws",
        "--name",
        "ACME",
        "--departments",
        "eng",
        "ops",
        "--no-ceo",
        "--force",
    ]
    .iter()
    .map(|s| s.to_string())
    .collect();
    assert_eq!(args, expected);
}

#[test]
fn blank_department_list_emits_no_flag() {
    let mut a = bootstrap_args_basic();
    a.departments = Some(vec!["  ".to_string(), "\t".to_string(), "".to_string()]);
    let req = validate_bootstrap(&a).expect("valid request");
    assert!(req.departments.is_empty());
    let args = build_bootstrap_args(&req, "/cli.js");
    assert!(!args.contains(&"--departments".to_string()));
}

fn onboard_args_basic() -> OnboardAgentArgs {
    OnboardAgentArgs {
        workspace_dir: "/ws".to_string(),
        name: "Ada".to_string(),
        role: "worker".to_string(),
        provider: "acme".to_string(),
        team_id: None,
        team_name: None,
        node_bin: None,
        cli_path: None,
    }
}

#[test]
fn onboard_validation_is_exact() {
    let mut a = onboard_args_basic();
    a.workspace_dir = " ".to_string();
    assert_eq!(
        validate_onboard(&a).unwrap_err(),
        ValidationError::EmptyField(FieldName::WorkspaceDir)
    );

    let mut a = onboard_args_basic();
    a.name = "".to_string();
    assert_eq!(
        validate_onboard(&a).unwrap_err(),
        ValidationError::EmptyField(FieldName::AgentName)
    );

    let mut a = onboard_args_basic();
    a.role = "human".to_string();
    assert_eq!(validate_onboard(&a).unwrap_err(), ValidationError::InvalidAgentRole);

    let mut a = onboard_args_basic();
    a.provider = "  ".to_string();
    assert_eq!(
        validate_onboard(&a).unwrap_err(),
        ValidationError::EmptyField(FieldName::Provider)
    );

    let mut a = onboard_args_basic();
    a.role = " Manager ".to_string();
    let req = validate_onboard(&a).expect("valid request");
    assert_eq!(req.role, "manager");
}

#[test]
fn onboard_plan_mints_team_first() {
    let mut a = onboard_args_basic();
    a.team_name = Some("Eng".to_string());
    let req = validate_onboard(&a).expect("valid request");
    assert!(matches!(
        onboard_plan(&req),
        OnboardPlan::CreateTeamFirst { ref team_name } if team_name == "Eng"
    ));

    let mut a = onboard_args_basic();
    a.team_name = Some("Eng".to_string());
    a.team_id = Some("t1".to_string());
    let req = validate_onboard(&a).expect("valid request");
    assert!(matches!(onboard_plan(&req), OnboardPlan::Direct));

    let mut a = onboard_args_basic();
    a.role = "ceo".to_string();
    a.team_name = Some("Eng".to_string());
    let req = validate_onboard(&a).expect("valid request");
    assert!(matches!(onboard_plan(&req), OnboardPlan::Direct));

    let req = validate_onboard(&onboard_args_basic()).expect("valid request");
    assert!(matches!(onboard_plan(&req), OnboardPlan::Direct));
}

#[test]
fn team_and_agent_vectors_are_canonical() {
    let team_args = build_team_new_args("/ws", "Eng", "/cli.js");
    let expected: Vec<String> = ["/cli.js", "team:new", "/ws", "--name", "Eng"]
        .iter()
        .map(|s| s.to_string())
        .collect();
    assert_eq!(team_args, expected);

    let req = validate_onboard(&onboard_args_basic()).expect("valid request");
    let req = with_team(req, "team-1".to_string());
    let args = build_agent_new_args(&req, "/cli.js");
    let expected: Vec<String> = [
        "/cli.js",
        "agent:new",
        "/ws",
        "--name",
        "Ada",
        "--role",
        "worker",
        "--provider",
        "acme",
        "--team",
        "team-1",
    ]
    .iter()
    .map(|s| s.to_string())
    .collect();
    assert_eq!(args, expected);
}
