use agent_supervisor::errors::ResolutionError;
use agent_supervisor::resolver::cli_path_query;
use agent_supervisor::resolver::discover_cli_candidates;
use agent_supervisor::resolver::push_candidates;
use agent_supervisor::resolver::resolve_cli_path;
use agent_supervisor::resolver::resolve_node_bin;
use agent_supervisor::resolver::CliPathQuery;

#[test]
fn node_bin_resolution_chain() {
    assert_eq!(resolve_node_bin(Some(" nodejs ".to_string()), None), "nodejs");
    assert_eq!(
        resolve_node_bin(Some("  ".to_string()), Some(" /opt/node ".to_string())),
        "/opt/node"
    );
    assert_eq!(resolve_node_bin(None, Some("n2".to_string())), "n2");
    assert_eq!(resolve_node_bin(None, Some("   ".to_string())), "node");
    assert_eq!(resolve_node_bin(None, None), "node");
}

#[test]
fn candidates_walk_ancestors() {
    let mut out: Vec<String> = Vec::new();
    let mut seen: Vec<String> = Vec::new();
    push_candidates("/a/b", &mut out, &mut seen);
    assert_eq!(
        out,
        vec![
            "/a/b/dist/cli.js".to_string(),
            "/a/dist/cli.js".to_string(),
            "/dist/cli.js".to_string(),
        ]
    );
}

#[test]
fn candidates_for_relative_base() {
    let mut out: Vec<String> = Vec::new();
    let mut seen: Vec<String> = Vec::new();
    push_candidates("a", &mut out, &mut seen);
    assert_eq!(out, vec!["a/dist/cli.js".to_string(), "dist/cli.js".to_string()]);
}

#[test]
fn discovery_deduplicates_across_start_points() {
    let c = discover_cli_candidates(Some("/x".to_string()), Some("/x".to_string()));
    assert_eq!(c, vec!["/x/dist/cli.js".to_string(), "/dist/cli.js".to_string()]);

    let c = discover_cli_candidates(Some("/x/y".to_string()), Some("/x".to_string()));
    assert_eq!(
        c,
        vec![
            "/x/y/dist/cli.js".to_string(),
            "/x/dist/cli.js".to_string(),
            "/dist/cli.js".to_string(),
        ]
    );
}

#[test]
fn explicit_existing_path_is_returned_unchanged() {
    let q = cli_path_query(Some(" /tmp/dist/cli.js ".to_string()), None, None, None);
    match &q {
        CliPathQuery::Explicit(p) => assert_eq!(p, "/tmp/dist/cli.js"),
        _ => panic!("expected the explicit branch"),
    }
    let r = resolve_cli_path(&q, &vec![true]).expect("file exists");
    assert_eq!(r, "/tmp/dist/cli.js");
}

#[test]
fn explicit_missing_path_fails_naming_it() {
    let q = cli_path_query(Some("/nope/cli.js".to_string()), None, None, None);
    match resolve_cli_path(&q, &vec![false]) {
        Err(ResolutionError::ExplicitMissing { path }) => assert_eq!(path, "/nope/cli.js"),
        _ => panic!("expected the explicit-missing error"),
    }
}

#[test]
fn env_override_is_second_in_line() {
    let q = cli_path_query(
        Some("   ".to_string()),
        Some(" /env/cli.js ".to_string()),
        None,
        None,
    );
    match &q {
        CliPathQuery::FromEnv(p) => assert_eq!(p, "/env/cli.js"),
        _ => panic!("expected the environment branch"),
    }
    match resolve_cli_path(&q, &vec![false]) {
        Err(ResolutionError::EnvMissing { path }) => assert_eq!(path, "/env/cli.js"),
        _ => panic!("expected the environment-missing error"),
    }
}

#[test]
fn discovery_takes_first_existing_candidate() {
    let q = cli_path_query(None, None, Some("/a/b".to_string()), None);
    let paths = match &q {
        CliPathQuery::Discover(c) => c.clone(),
        _ => panic!("expected the discovery branch"),
    };
    assert_eq!(paths.len(), 3);
    let r = resolve_cli_path(&q, &vec![false, true, true]).expect("a candidate exists");
    assert_eq!(r, "/a/dist/cli.js");
}

#[test]
fn discovery_with_nothing_found_gives_guidance_error() {
    let q = cli_path_query(None, None, Some("/a".to_string()), None);
    let n = match &q {
        CliPathQuery::Discover(c) => c.len(),
        _ => panic!("expected the discovery branch"),
    };
    match resolve_cli_path(&q, &vec![false; n]) {
        Err(ResolutionError::NotFound) => {},
        _ => panic!("expected the not-found error"),
    }
}

#[test]
fn resolution_errors_describe_themselves() {
    let e = ResolutionError::ExplicitMissing { path: "/nope/cli.js".to_string() };
    assert_eq!(e.describe(), "entrypoint path does not exist: /nope/cli.js");
    let e = ResolutionError::EnvMissing { path: "/env/cli.js".to_string() };
    assert_eq!(
        e.describe(),
        "AGENTCOMPANY_CLI_PATH is set but does not exist: /env/cli.js"
    );
    assert_eq!(
        ResolutionError::NotFound.describe(),
        "unable to find dist/cli.js; set AGENTCOMPANY_CLI_PATH to its absolute path"
    );
}
