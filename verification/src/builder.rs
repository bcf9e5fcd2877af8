//! Command Builder: validates and normalizes the structured request
//! parameters for each invocation mode and maps a validated request into its
//! canonical argument vector. Normalization happens exactly once, here, so
//! the same validated request always yields the identical vector.

use vstd::prelude::*;

verus! {

use crate::errors::FieldName;
use crate::errors::ValidationError;
use crate::roles::is_actor_role;
use crate::roles::is_agent_role;
use crate::roles::lower_seq;
use crate::roles::normalize_actor_role;
use crate::roles::normalize_agent_role;
use crate::text::dec_str;
use crate::text::trim_str;
use crate::text::trimmed;
use crate::text::u32_to_string;
use vstd::string::StrSliceExecFns;
use vstd::string::StringExecFns;

/// An optional boolean as the caller sent it: explicitly true, explicitly
/// false, or not given at all. Flags are emitted only when the value deviates
/// from the mode's default, so the three states must stay distinguishable.
#[derive(Clone, Copy, Debug, PartialEq, Eq, Structural)]
pub enum TriState {
    Unset,
    ExplicitTrue,
    ExplicitFalse,
}

impl TriState {
    /// The tri-state of a nullable boolean at the request-parsing boundary:
    /// a missing value is `Unset`, never conflated with either explicit one.
    pub fn from_option(o: Option<bool>) -> (r: TriState)
        ensures
            o is None <==> r is Unset,
            o == Some(true) <==> r is ExplicitTrue,
            o == Some(false) <==> r is ExplicitFalse,
    {
        match o {
            None => TriState::Unset,
            Some(true) => TriState::ExplicitTrue,
            Some(false) => TriState::ExplicitFalse,
        }
    }
}

/// Default network port of the long-running worker.
pub const DEFAULT_PORT: u16 = 8787;

/// Default listing limit for each of the three list panes.
pub const DEFAULT_LIMIT: u32 = 200;

/// The string the caller sent, or the default where none was sent.
pub open spec fn defaulted(o: Option<Seq<char>>, def: Seq<char>) -> Seq<char> {
    match o {
        Option::Some(s) => s,
        Option::None => def,
    }
}

/// An optional field normalized: trimmed, and treated as absent when empty
/// after trimming.
pub open spec fn norm_opt(o: Option<Seq<char>>) -> Option<Seq<char>> {
    match o {
        Option::Some(s) => if trimmed(s).len() == 0 {
            Option::None
        } else {
            Option::Some(trimmed(s))
        },
        Option::None => Option::None,
    }
}

/// A list-valued field normalized: each entry trimmed, empties dropped,
/// order kept.
pub open spec fn norm_list(deps: Seq<Seq<char>>) -> Seq<Seq<char>>
    decreases deps.len(),
{
    if deps.len() == 0 {
        Seq::empty()
    } else {
        let rest = norm_list(deps.drop_first());
        if trimmed(deps[0]).len() == 0 {
            rest
        } else {
            seq![trimmed(deps[0])] + rest
        }
    }
}

/// The port the caller sent, or the default.
pub open spec fn port_or_default(o: Option<u16>) -> u16 {
    match o {
        Option::Some(p) => p,
        Option::None => DEFAULT_PORT,
    }
}

/// The limit the caller sent, or the default.
pub open spec fn limit_or_default(o: Option<u32>) -> u32 {
    match o {
        Option::Some(n) => n,
        Option::None => DEFAULT_LIMIT,
    }
}

/// Normalize an optional string field (see `norm_opt`).
pub fn normalize_optional(o: &Option<String>) -> (r: Option<String>)
    ensures
        r.deep_view() == norm_opt(o.deep_view()),
{
    match o {
        Some(s) => {
            let t = trim_str(s.as_str());
            if t.unicode_len() == 0 {
                None
            } else {
                Some(t)
            }
        },
        None => None,
    }
}

/// Normalize a list-valued field (see `norm_list`).
pub fn normalize_list(deps: &Vec<String>) -> (r: Vec<String>)
    ensures
        r.deep_view() == norm_list(deps.deep_view()),
{
    let mut out: Vec<String> = Vec::new();
    proof {
        assert(out.deep_view() =~= Seq::<Seq<char>>::empty());
        assert(deps.deep_view().skip(0) =~= deps.deep_view());
    }
    let mut i: usize = 0;
    while i < deps.len()
        invariant
            i <= deps.len(),
            deps.deep_view().len() == deps@.len(),
            norm_list(deps.deep_view()) == out.deep_view() + norm_list(
                deps.deep_view().skip(i as int),
            ),
        decreases deps.len() - i,
    {
        let ghost rem = deps.deep_view().skip(i as int);
        proof {
            assert(rem[0] == deps.deep_view()[i as int]);
            assert(rem.drop_first() =~= deps.deep_view().skip(i as int + 1));
            assert(deps.deep_view()[i as int] == deps@[i as int]@);
        }
        let ghost out0 = out.deep_view();
        let t = trim_str(deps[i].as_str());
        if t.unicode_len() > 0 {
            out.push(t);
            proof {
                assert(out.deep_view() =~= out0.push(trimmed(rem[0])));
                assert(out.deep_view() + norm_list(rem.drop_first()) =~= out0 + (seq![
                    trimmed(rem[0]),
                ] + norm_list(rem.drop_first())));
            }
        }
        i += 1;
    }
    proof {
        assert(deps.deep_view().skip(deps@.len() as int) =~= Seq::<Seq<char>>::empty());
        assert(out.deep_view() + Seq::<Seq<char>>::empty() =~= out.deep_view());
    }
    out
}

/// All entries of a normalized-away list were blank: a list whose every entry
/// trims to empty normalizes to the empty list, so its flag is omitted
/// entirely.
pub proof fn lemma_all_blank_list_dropped(deps: Seq<Seq<char>>)
    requires
        forall|i: int| 0 <= i < deps.len() ==> trimmed(#[trigger] deps[i]).len() == 0,
    ensures
        norm_list(deps) == Seq::<Seq<char>>::empty(),
    decreases deps.len(),
{
    if deps.len() > 0 {
        lemma_all_blank_list_dropped(deps.drop_first());
    }
}

/// Caller-facing parameters of the long-running worker start request.
pub struct StartManagerWebArgs {
    pub workspace_dir: String,
    pub project_id: String,
    pub actor_id: Option<String>,
    pub actor_role: Option<String>,
    pub actor_team_id: Option<String>,
    pub host: Option<String>,
    pub port: Option<u16>,
    pub monitor_limit: Option<u32>,
    pub pending_limit: Option<u32>,
    pub decisions_limit: Option<u32>,
    pub refresh_index: TriState,
    pub sync_index: TriState,
    pub node_bin: Option<String>,
    pub cli_path: Option<String>,
}

/// A validated, normalized start request. Normalization happened exactly
/// once, in `validate_start`.
#[derive(Debug)]
pub struct StartRequest {
    pub workspace_dir: String,
    pub project_id: String,
    pub actor_id: String,
    pub actor_role: String,
    pub actor_team_id: Option<String>,
    pub host: String,
    pub port: u16,
    pub monitor_limit: u32,
    pub pending_limit: u32,
    pub decisions_limit: u32,
    pub refresh_index: TriState,
    pub sync_index: TriState,
}

/// The first validation failure of a start request, if any: required fields
/// non-empty after trimming, the actor role in its closed set after trimming
/// and case folding, the port nonzero.
pub open spec fn start_validation(args: StartManagerWebArgs) -> Result<(), ValidationError> {
    if trimmed(args.workspace_dir@).len() == 0 {
        Err(ValidationError::EmptyField(FieldName::WorkspaceDir))
    } else if trimmed(args.project_id@).len() == 0 {
        Err(ValidationError::EmptyField(FieldName::ProjectId))
    } else if trimmed(defaulted(args.actor_id.deep_view(), "human"@)).len() == 0 {
        Err(ValidationError::EmptyField(FieldName::ActorId))
    } else if !is_actor_role(
        lower_seq(trimmed(defaulted(args.actor_role.deep_view(), "manager"@))),
    ) {
        Err(ValidationError::InvalidActorRole)
    } else if trimmed(defaulted(args.host.deep_view(), "127.0.0.1"@)).len() == 0 {
        Err(ValidationError::EmptyField(FieldName::Host))
    } else if port_or_default(args.port) == 0 {
        Err(ValidationError::PortZero)
    } else {
        Ok(())
    }
}

/// Validate and normalize a start request. Succeeds exactly when
/// `start_validation` accepts, and then every field of the result is the
/// normalized form of the caller's input.
pub fn validate_start(args: &StartManagerWebArgs) -> (r: Result<StartRequest, ValidationError>)
    ensures
        r is Ok <==> start_validation(*args) is Ok,
        r matches Err(e) ==> start_validation(*args) == Err::<(), ValidationError>(e),
        r matches Ok(req) ==> {
            &&& req.workspace_dir@ == trimmed(args.workspace_dir@)
            &&& req.project_id@ == trimmed(args.project_id@)
            &&& req.actor_id@ == trimmed(defaulted(args.actor_id.deep_view(), "human"@))
            &&& req.actor_role@ == lower_seq(
                trimmed(defaulted(args.actor_role.deep_view(), "manager"@)),
            )
            &&& req.actor_team_id.deep_view() == norm_opt(args.actor_team_id.deep_view())
            &&& req.host@ == trimmed(defaulted(args.host.deep_view(), "127.0.0.1"@))
            &&& req.port == port_or_default(args.port)
            &&& req.monitor_limit == limit_or_default(args.monitor_limit)
            &&& req.pending_limit == limit_or_default(args.pending_limit)
            &&& req.decisions_limit == limit_or_default(args.decisions_limit)
            &&& req.refresh_index == args.refresh_index
            &&& req.sync_index == args.sync_index
        },
{
    let workspace_dir = trim_str(args.workspace_dir.as_str());
    if workspace_dir.unicode_len() == 0 {
        return Err(ValidationError::EmptyField(FieldName::WorkspaceDir));
    }
    let project_id = trim_str(args.project_id.as_str());
    if project_id.unicode_len() == 0 {
        return Err(ValidationError::EmptyField(FieldName::ProjectId));
    }
    let actor_id = match &args.actor_id {
        Some(s) => trim_str(s.as_str()),
        None => trim_str("human"),
    };
    if actor_id.unicode_len() == 0 {
        return Err(ValidationError::EmptyField(FieldName::ActorId));
    }
    let role_input = match &args.actor_role {
        Some(s) => trim_str(s.as_str()),
        None => trim_str("manager"),
    };
    let actor_role = match normalize_actor_role(role_input.as_str()) {
        Some(role) => role,
        None => {
            return Err(ValidationError::InvalidActorRole);
        },
    };
    let host = match &args.host {
        Some(s) => trim_str(s.as_str()),
        None => trim_str("127.0.0.1"),
    };
    if host.unicode_len() == 0 {
        return Err(ValidationError::EmptyField(FieldName::Host));
    }
    let port = match args.port {
        Some(p) => p,
        None => DEFAULT_PORT,
    };
    if port == 0 {
        return Err(ValidationError::PortZero);
    }
    Ok(
        StartRequest {
            workspace_dir,
            project_id,
            actor_id,
            actor_role,
            actor_team_id: normalize_optional(&args.actor_team_id),
            host,
            port,
            monitor_limit: match args.monitor_limit {
                Some(n) => n,
                None => DEFAULT_LIMIT,
            },
            pending_limit: match args.pending_limit {
                Some(n) => n,
                None => DEFAULT_LIMIT,
            },
            decisions_limit: match args.decisions_limit {
                Some(n) => n,
                None => DEFAULT_LIMIT,
            },
            refresh_index: args.refresh_index,
            sync_index: args.sync_index,
        },
    )
}

/// A flag with its value, or nothing where the value is absent.
pub open spec fn opt_flag(flag: Seq<char>, v: Option<Seq<char>>) -> Seq<Seq<char>> {
    match v {
        Option::Some(s) => seq![flag, s],
        Option::None => Seq::empty(),
    }
}

/// The canonical argument vector of the long-running worker invocation:
/// entrypoint, subcommand, workspace path, then every identity and limit
/// flag in fixed order, then the optional team flag and the two opt-out
/// index flags, each emitted only when deviating from the default.
pub open spec fn start_args_spec(req: StartRequest, cli_path: Seq<char>) -> Seq<Seq<char>> {
    seq![
        cli_path,
        "ui:web"@,
        req.workspace_dir@,
        "--project"@,
        req.project_id@,
        "--actor"@,
        req.actor_id@,
        "--role"@,
        req.actor_role@,
        "--host"@,
        req.host@,
        "--port"@,
        dec_str(req.port as nat),
        "--monitor-limit"@,
        dec_str(req.monitor_limit as nat),
        "--pending-limit"@,
        dec_str(req.pending_limit as nat),
        "--decisions-limit"@,
        dec_str(req.decisions_limit as nat),
    ] + opt_flag("--team"@, req.actor_team_id.deep_view()) + (if req.refresh_index
        is ExplicitTrue {
        seq!["--refresh-index"@]
    } else {
        Seq::empty()
    }) + (if req.sync_index is ExplicitFalse {
        seq!["--no-sync-index"@]
    } else {
        Seq::empty()
    })
}

/// Build the long-running worker's argument vector.
pub fn build_start_args(req: &StartRequest, cli_path: &str) -> (r: Vec<String>)
    ensures
        r.deep_view() == start_args_spec(*req, cli_path@),
{
    let mut out: Vec<String> = Vec::new();
    out.push(cli_path.to_owned());
    out.push(String::from_str("ui:web"));
    out.push(req.workspace_dir.clone());
    out.push(String::from_str("--project"));
    out.push(req.project_id.clone());
    out.push(String::from_str("--actor"));
    out.push(req.actor_id.clone());
    out.push(String::from_str("--role"));
    out.push(req.actor_role.clone());
    out.push(String::from_str("--host"));
    out.push(req.host.clone());
    out.push(String::from_str("--port"));
    out.push(u32_to_string(req.port as u32));
    out.push(String::from_str("--monitor-limit"));
    out.push(u32_to_string(req.monitor_limit));
    out.push(String::from_str("--pending-limit"));
    out.push(u32_to_string(req.pending_limit));
    out.push(String::from_str("--decisions-limit"));
    out.push(u32_to_string(req.decisions_limit));
    if let Some(team) = &req.actor_team_id {
        out.push(String::from_str("--team"));
        out.push(team.clone());
    }
    if matches!(req.refresh_index, TriState::ExplicitTrue) {
        out.push(String::from_str("--refresh-index"));
    }
    if matches!(req.sync_index, TriState::ExplicitFalse) {
        out.push(String::from_str("--no-sync-index"));
    }
    proof {
        assert(out.deep_view() =~~= start_args_spec(*req, cli_path@));
    }
    out
}

/// Caller-facing parameters of the workspace bootstrap request.
pub struct BootstrapWorkspaceArgs {
    pub workspace_dir: String,
    pub company_name: Option<String>,
    pub project_name: Option<String>,
    pub departments: Option<Vec<String>>,
    pub include_ceo: TriState,
    pub include_director: TriState,
    pub force: TriState,
    pub node_bin: Option<String>,
    pub cli_path: Option<String>,
}

/// A validated, normalized workspace bootstrap request.
#[derive(Debug)]
pub struct BootstrapRequest {
    pub workspace_dir: String,
    pub company_name: Option<String>,
    pub project_name: Option<String>,
    pub departments: Vec<String>,
    pub include_ceo: TriState,
    pub include_director: TriState,
    pub force: TriState,
}

/// The department list the caller sent, or the empty list.
pub open spec fn departments_or_empty(o: Option<Seq<Seq<char>>>) -> Seq<Seq<char>> {
    match o {
        Option::Some(d) => d,
        Option::None => Seq::empty(),
    }
}

/// Validate and normalize a bootstrap request: the workspace path must be
/// non-empty after trimming; names are dropped when blank; department
/// entries are trimmed and blanks removed.
pub fn validate_bootstrap(args: &BootstrapWorkspaceArgs) -> (r: Result<
    BootstrapRequest,
    ValidationError,
>)
    ensures
        r is Ok <==> trimmed(args.workspace_dir@).len() > 0,
        r matches Err(e) ==> e == ValidationError::EmptyField(FieldName::WorkspaceDir),
        r matches Ok(req) ==> {
            &&& req.workspace_dir@ == trimmed(args.workspace_dir@)
            &&& req.company_name.deep_view() == norm_opt(args.company_name.deep_view())
            &&& req.project_name.deep_view() == norm_opt(args.project_name.deep_view())
            &&& req.departments.deep_view() == norm_list(
                departments_or_empty(args.departments.deep_view()),
            )
            &&& req.include_ceo == args.include_ceo
            &&& req.include_director == args.include_director
            &&& req.force == args.force
        },
{
    let workspace_dir = trim_str(args.workspace_dir.as_str());
    if workspace_dir.unicode_len() == 0 {
        return Err(ValidationError::EmptyField(FieldName::WorkspaceDir));
    }
    let departments = match &args.departments {
        Some(d) => normalize_list(d),
        None => {
            let empty_in: Vec<String> = Vec::new();
            proof {
                assert(empty_in.deep_view() =~= Seq::<Seq<char>>::empty());
            }
            normalize_list(&empty_in)
        },
    };
    Ok(
        BootstrapRequest {
            workspace_dir,
            company_name: normalize_optional(&args.company_name),
            project_name: normalize_optional(&args.project_name),
            departments,
            include_ceo: args.include_ceo,
            include_director: args.include_director,
            force: args.force,
        },
    )
}

/// The department section of the bootstrap vector: the flag followed by each
/// department, or nothing when the normalized list is empty.
pub open spec fn departments_section(deps: Seq<Seq<char>>) -> Seq<Seq<char>> {
    if deps.len() > 0 {
        seq!["--departments"@] + deps
    } else {
        Seq::empty()
    }
}

/// The canonical argument vector of the workspace bootstrap invocation.
pub open spec fn bootstrap_args_spec(req: BootstrapRequest, cli_path: Seq<char>) -> Seq<
    Seq<char>,
> {
    seq![cli_path, "workspace:bootstrap"@, req.workspace_dir@] + opt_flag(
        "--name"@,
        req.company_name.deep_view(),
    ) + opt_flag("--project-name"@, req.project_name.deep_view()) + departments_section(
        req.departments.deep_view(),
    ) + (if req.include_ceo is ExplicitFalse {
        seq!["--no-ceo"@]
    } else {
        Seq::empty()
    }) + (if req.include_director is ExplicitFalse {
        seq!["--no-director"@]
    } else {
        Seq::empty()
    }) + (if req.force is ExplicitTrue {
        seq!["--force"@]
    } else {
        Seq::empty()
    })
}

/// Build the workspace bootstrap argument vector.
#[verifier::rlimit(100)]
pub fn build_bootstrap_args(req: &BootstrapRequest, cli_path: &str) -> (r: Vec<String>)
    ensures
        r.deep_view() == bootstrap_args_spec(*req, cli_path@),
{
    let mut out: Vec<String> = Vec::new();
    out.push(cli_path.to_owned());
    out.push(String::from_str("workspace:bootstrap"));
    out.push(req.workspace_dir.clone());
    if let Some(name) = &req.company_name {
        out.push(String::from_str("--name"));
        out.push(name.clone());
    }
    if let Some(name) = &req.project_name {
        out.push(String::from_str("--project-name"));
        out.push(name.clone());
    }
    let ghost before_deps = out.deep_view();
    if req.departments.len() > 0 {
        out.push(String::from_str("--departments"));
        let mut i: usize = 0;
        while i < req.departments.len()
            invariant
                i <= req.departments.len(),
                req.departments.deep_view().len() == req.departments@.len(),
                out.deep_view() == before_deps + seq!["--departments"@]
                    + req.departments.deep_view().take(i as int),
            decreases req.departments.len() - i,
        {
            let ghost out0 = out.deep_view();
            out.push(req.departments[i].clone());
            proof {
                assert(req.departments.deep_view()[i as int] == req.departments@[i as int]@);
                assert(out.deep_view() =~= out0.push(req.departments.deep_view()[i as int]));
                assert(req.departments.deep_view().take(i as int + 1) =~= req.departments.deep_view().take(i as int).push(req.departments.deep_view()[i as int]));
                assert(out.deep_view() =~= before_deps + seq!["--departments"@]
                    + req.departments.deep_view().take(i as int + 1));
            }
            i += 1;
        }
        proof {
            assert(req.departments.deep_view().take(req.departments@.len() as int)
                =~= req.departments.deep_view());
        }
    }
    proof {
        assert(out.deep_view() =~~= seq![cli_path@, "workspace:bootstrap"@, req.workspace_dir@]
            + opt_flag("--name"@, req.company_name.deep_view()) + opt_flag(
            "--project-name"@,
            req.project_name.deep_view(),
        ) + departments_section(req.departments.deep_view()));
    }
    if matches!(req.include_ceo, TriState::ExplicitFalse) {
        out.push(String::from_str("--no-ceo"));
    }
    if matches!(req.include_director, TriState::ExplicitFalse) {
        out.push(String::from_str("--no-director"));
    }
    if matches!(req.force, TriState::ExplicitTrue) {
        out.push(String::from_str("--force"));
    }
    proof {
        assert(out.deep_view() =~~= bootstrap_args_spec(*req, cli_path@));
    }
    out
}

/// Caller-facing parameters of the agent onboarding request.
pub struct OnboardAgentArgs {
    pub workspace_dir: String,
    pub name: String,
    pub role: String,
    pub provider: String,
    pub team_id: Option<String>,
    pub team_name: Option<String>,
    pub node_bin: Option<String>,
    pub cli_path: Option<String>,
}

/// A validated, normalized agent onboarding request.
#[derive(Debug)]
pub struct OnboardRequest {
    pub workspace_dir: String,
    pub name: String,
    pub role: String,
    pub provider: String,
    pub team_id: Option<String>,
    pub team_name: Option<String>,
}

/// The first validation failure of an onboarding request, if any.
pub open spec fn onboard_validation(args: OnboardAgentArgs) -> Result<(), ValidationError> {
    if trimmed(args.workspace_dir@).len() == 0 {
        Err(ValidationError::EmptyField(FieldName::WorkspaceDir))
    } else if trimmed(args.name@).len() == 0 {
        Err(ValidationError::EmptyField(FieldName::AgentName))
    } else if !is_agent_role(lower_seq(trimmed(args.role@))) {
        Err(ValidationError::InvalidAgentRole)
    } else if trimmed(args.provider@).len() == 0 {
        Err(ValidationError::EmptyField(FieldName::Provider))
    } else {
        Ok(())
    }
}

/// Validate and normalize an onboarding request. The role is trimmed and
/// case-folded and must be an agent role; the optional team fields are
/// treated as absent when blank.
pub fn validate_onboard(args: &OnboardAgentArgs) -> (r: Result<OnboardRequest, ValidationError>)
    ensures
        r is Ok <==> onboard_validation(*args) is Ok,
        r matches Err(e) ==> onboard_validation(*args) == Err::<(), ValidationError>(e),
        r matches Ok(req) ==> {
            &&& req.workspace_dir@ == trimmed(args.workspace_dir@)
            &&& req.name@ == trimmed(args.name@)
            &&& req.role@ == lower_seq(trimmed(args.role@))
            &&& req.provider@ == trimmed(args.provider@)
            &&& req.team_id.deep_view() == norm_opt(args.team_id.deep_view())
            &&& req.team_name.deep_view() == norm_opt(args.team_name.deep_view())
        },
{
    let workspace_dir = trim_str(args.workspace_dir.as_str());
    if workspace_dir.unicode_len() == 0 {
        return Err(ValidationError::EmptyField(FieldName::WorkspaceDir));
    }
    let name = trim_str(args.name.as_str());
    if name.unicode_len() == 0 {
        return Err(ValidationError::EmptyField(FieldName::AgentName));
    }
    let role_input = trim_str(args.role.as_str());
    let role = match normalize_agent_role(role_input.as_str()) {
        Some(role) => role,
        None => {
            return Err(ValidationError::InvalidAgentRole);
        },
    };
    let provider = trim_str(args.provider.as_str());
    if provider.unicode_len() == 0 {
        return Err(ValidationError::EmptyField(FieldName::Provider));
    }
    Ok(
        OnboardRequest {
            workspace_dir,
            name,
            role,
            provider,
            team_id: normalize_optional(&args.team_id),
            team_name: normalize_optional(&args.team_name),
        },
    )
}

/// Whether onboarding must first mint a team: a non-ceo role, no team
/// identifier supplied, but a team name to create one from.
pub open spec fn needs_team_creation(req: OnboardRequest) -> bool {
    req.role@ != "ceo"@ && req.team_id is None && req.team_name is Some
}

/// The dependent two-step plan of an onboarding request: either a team must
/// be created first (by a synchronous sub-invocation whose failure aborts the
/// whole operation) or the agent can be created directly.
pub enum OnboardPlan {
    CreateTeamFirst { team_name: String },
    Direct,
}

/// Decide the onboarding plan.
pub fn onboard_plan(req: &OnboardRequest) -> (r: OnboardPlan)
    ensures
        needs_team_creation(*req) ==> (r matches OnboardPlan::CreateTeamFirst { team_name }
            && team_name@ == req.team_name.unwrap()@),
        !needs_team_creation(*req) ==> r is Direct,
{
    if let Some(team_name) = &req.team_name {
        if req.team_id.is_none() && !crate::text::str_eq(req.role.as_str(), "ceo") {
            return OnboardPlan::CreateTeamFirst { team_name: team_name.clone() };
        }
    }
    OnboardPlan::Direct
}

/// Fold a freshly minted team identifier into the request.
pub fn with_team(req: OnboardRequest, team_id: String) -> (r: OnboardRequest)
    ensures
        r.workspace_dir@ == req.workspace_dir@,
        r.name@ == req.name@,
        r.role@ == req.role@,
        r.provider@ == req.provider@,
        r.team_id matches Some(t) && t@ == team_id@,
        r.team_name.deep_view() == req.team_name.deep_view(),
{
    OnboardRequest { team_id: Some(team_id), ..req }
}

/// The canonical argument vector of the team creation sub-invocation.
pub open spec fn team_new_args_spec(
    workspace_dir: Seq<char>,
    team_name: Seq<char>,
    cli_path: Seq<char>,
) -> Seq<Seq<char>> {
    seq![cli_path, "team:new"@, workspace_dir, "--name"@, team_name]
}

/// Build the team creation argument vector.
pub fn build_team_new_args(workspace_dir: &str, team_name: &str, cli_path: &str) -> (r: Vec<
    String,
>)
    ensures
        r.deep_view() == team_new_args_spec(workspace_dir@, team_name@, cli_path@),
{
    let mut out: Vec<String> = Vec::new();
    out.push(cli_path.to_owned());
    out.push(String::from_str("team:new"));
    out.push(workspace_dir.to_owned());
    out.push(String::from_str("--name"));
    out.push(team_name.to_owned());
    proof {
        assert(out.deep_view() =~~= team_new_args_spec(workspace_dir@, team_name@, cli_path@));
    }
    out
}

/// The canonical argument vector of the agent creation invocation.
pub open spec fn agent_new_args_spec(req: OnboardRequest, cli_path: Seq<char>) -> Seq<Seq<char>> {
    seq![
        cli_path,
        "agent:new"@,
        req.workspace_dir@,
        "--name"@,
        req.name@,
        "--role"@,
        req.role@,
        "--provider"@,
        req.provider@,
    ] + opt_flag("--team"@, req.team_id.deep_view())
}

/// Build the agent creation argument vector.
pub fn build_agent_new_args(req: &OnboardRequest, cli_path: &str) -> (r: Vec<String>)
    ensures
        r.deep_view() == agent_new_args_spec(*req, cli_path@),
{
    let mut out: Vec<String> = Vec::new();
    out.push(cli_path.to_owned());
    out.push(String::from_str("agent:new"));
    out.push(req.workspace_dir.clone());
    out.push(String::from_str("--name"));
    out.push(req.name.clone());
    out.push(String::from_str("--role"));
    out.push(req.role.clone());
    out.push(String::from_str("--provider"));
    out.push(req.provider.clone());
    if let Some(team) = &req.team_id {
        out.push(String::from_str("--team"));
        out.push(team.clone());
    }
    proof {
        assert(out.deep_view() =~~= agent_new_args_spec(*req, cli_path@));
    }
    out
}

/// Determinism of the Command Builder: the argument vector is a function of
/// the validated request's normalized fields alone, so two requests whose
/// fields agree build byte-identical vectors.
pub proof fn lemma_start_args_deterministic(a: StartRequest, b: StartRequest, cli: Seq<char>)
    requires
        a.workspace_dir@ == b.workspace_dir@,
        a.project_id@ == b.project_id@,
        a.actor_id@ == b.actor_id@,
        a.actor_role@ == b.actor_role@,
        a.actor_team_id.deep_view() == b.actor_team_id.deep_view(),
        a.host@ == b.host@,
        a.port == b.port,
        a.monitor_limit == b.monitor_limit,
        a.pending_limit == b.pending_limit,
        a.decisions_limit == b.decisions_limit,
        a.refresh_index == b.refresh_index,
        a.sync_index == b.sync_index,
    ensures
        start_args_spec(a, cli) == start_args_spec(b, cli),
{
    assert(start_args_spec(a, cli) =~~= start_args_spec(b, cli));
}

} // verus!
