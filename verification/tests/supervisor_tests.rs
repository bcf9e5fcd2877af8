use agent_supervisor::builder::validate_start;
use agent_supervisor::builder::StartManagerWebArgs;
use agent_supervisor::builder::TriState;
use agent_supervisor::errors::SupervisorError;
use agent_supervisor::supervisor::format_url;
use agent_supervisor::supervisor::manager_web_status;
use agent_supervisor::supervisor::record_spawn;
use agent_supervisor::supervisor::start_after_terminate;
use agent_supervisor::supervisor::start_prepare;
use agent_supervisor::supervisor::status_from_managed;
use agent_supervisor::supervisor::stop_manager_web;
use agent_supervisor::supervisor::terminate_child;
use agent_supervisor::supervisor::KillResult;
use agent_supervisor::supervisor::ManagedProcess;
use agent_supervisor::supervisor::ManagerWebStatus;
use agent_supervisor::supervisor::PollOutcome;
use agent_supervisor::supervisor::StartDecision;
use agent_supervisor::supervisor::UiProcessState;
use agent_supervisor::supervisor::WaitResult;

fn start_args(ws: &str, project: &str) -> StartManagerWebArgs {
    StartManagerWebArgs {
        workspace_dir: ws.to_string(),
        project_id: project.to_string(),
        actor_id: None,
        actor_role: None,
        actor_team_id: None,
        host: None,
        port: None,
        monitor_limit: None,
        pending_limit: None,
        decisions_limit: None,
        refresh_index: TriState::Unset,
        sync_index: TriState::Unset,
        node_bin: None,
        cli_path: None,
    }
}

fn assert_idle(s: &ManagerWebStatus) {
    assert!(!s.running);
    assert_eq!(s.url, None);
    assert_eq!(s.pid, None);
    assert_eq!(s.workspace_dir, None);
    assert_eq!(s.project_id, None);
}

#[test]
fn url_is_constructed_from_host_and_port() {
    assert_eq!(format_url("127.0.0.1", 8787), "http://127.0.0.1:8787");
    assert_eq!(format_url("localhost", 80), "http://localhost:80");
}

#[test]
fn start_then_restart_same_target_then_stop() {
    let mut state = UiProcessState::new();

    let req = validate_start(&start_args("/ws", "p1")).expect("valid request");
    match start_prepare(&mut state, None, "/ws", "p1") {
        StartDecision::ReadyToSpawn => {},
        _ => panic!("an empty slot must be ready to spawn"),
    }
    let status = record_spawn(&mut state, &req, 4242);
    assert!(status.running);
    assert_eq!(status.url.as_deref(), Some("http://127.0.0.1:8787"));
    assert_eq!(status.pid, Some(4242));
    assert_eq!(status.workspace_dir.as_deref(), Some("/ws"));
    assert_eq!(status.project_id.as_deref(), Some("p1"));

    // A second start for the same target while the worker is alive is a
    // no-op returning the identical status.
    match start_prepare(&mut state, Some(PollOutcome::Alive), "/ws", "p1") {
        StartDecision::Reuse(again) => {
            assert!(again.running);
            assert_eq!(again.url, status.url);
            assert_eq!(again.pid, status.pid);
            assert_eq!(again.workspace_dir, status.workspace_dir);
            assert_eq!(again.project_id, status.project_id);
        },
        _ => panic!("same live target must be reused"),
    }
    assert!(state.process.is_some());

    let idle = stop_manager_web(&mut state, Some(Ok(()))).expect("stop succeeds");
    assert_idle(&idle);
    assert!(state.process.is_none());
}

#[test]
fn switching_target_terminates_old_worker_first() {
    let mut state = UiProcessState::new();
    let req = validate_start(&start_args("/ws", "p1")).expect("valid request");
    record_spawn(&mut state, &req, 1);

    match start_prepare(&mut state, Some(PollOutcome::Alive), "/ws", "p2") {
        StartDecision::MustTerminate => {},
        _ => panic!("a different live target must be terminated first"),
    }
    // The old record stays until termination is confirmed.
    assert_eq!(state.process.as_ref().map(|p| p.pid), Some(1));

    // A failed termination aborts the start with the old worker recorded.
    let r = start_after_terminate(&mut state, Err(SupervisorError::KillFailed));
    assert_eq!(r, Err(SupervisorError::KillFailed));
    assert!(state.process.is_some());

    // A confirmed termination clears the slot; only then is the new worker
    // recorded, so at most one is ever live.
    start_after_terminate(&mut state, Ok(())).expect("termination confirmed");
    assert!(state.process.is_none());
    let req2 = validate_start(&start_args("/ws", "p2")).expect("valid request");
    let status = record_spawn(&mut state, &req2, 2);
    assert_eq!(status.pid, Some(2));
    assert_eq!(state.process.as_ref().map(|p| p.pid), Some(2));
}

#[test]
fn status_observes_exit_exactly_once() {
    let mut state = UiProcessState::new();
    let req = validate_start(&start_args("/ws", "p1")).expect("valid request");
    record_spawn(&mut state, &req, 7);

    let s1 = manager_web_status(&mut state, PollOutcome::Exited).expect("status succeeds");
    assert_idle(&s1);
    assert!(state.process.is_none());

    let s2 = manager_web_status(&mut state, PollOutcome::Alive).expect("status succeeds");
    assert_idle(&s2);
}

#[test]
fn status_reports_running_worker_and_failed_polls() {
    let mut state = UiProcessState::new();
    let req = validate_start(&start_args("/ws", "p1")).expect("valid request");
    record_spawn(&mut state, &req, 7);

    let s = manager_web_status(&mut state, PollOutcome::Alive).expect("status succeeds");
    assert!(s.running);
    assert_eq!(s.pid, Some(7));

    let e = manager_web_status(&mut state, PollOutcome::Failed).unwrap_err();
    assert_eq!(e, SupervisorError::PollFailed);
    assert!(state.process.is_some());
}

#[test]
fn stop_is_idempotent() {
    let mut state = UiProcessState::new();
    let req = validate_start(&start_args("/ws", "p1")).expect("valid request");
    record_spawn(&mut state, &req, 9);

    let first = stop_manager_web(&mut state, Some(Ok(()))).expect("stop succeeds");
    assert_idle(&first);
    let second = stop_manager_web(&mut state, None).expect("second stop never errors");
    assert_idle(&second);

    let mut empty = UiProcessState::new();
    let s = stop_manager_web(&mut empty, None).expect("stop with nothing running succeeds");
    assert_idle(&s);
}

#[test]
fn stop_clears_slot_even_when_termination_fails() {
    let mut state = UiProcessState::new();
    let req = validate_start(&start_args("/ws", "p1")).expect("valid request");
    record_spawn(&mut state, &req, 9);

    let e = stop_manager_web(&mut state, Some(Err(SupervisorError::WaitFailed))).unwrap_err();
    assert_eq!(e, SupervisorError::WaitFailed);
    assert!(state.process.is_none());
}

#[test]
fn termination_decision_follows_protocol() {
    assert_eq!(terminate_child(true, None, None), Ok(()));
    assert_eq!(
        terminate_child(false, Some(KillResult::Delivered), Some(WaitResult::Exited)),
        Ok(())
    );
    assert_eq!(
        terminate_child(false, Some(KillResult::NoSuchProcess), Some(WaitResult::Exited)),
        Ok(())
    );
    assert_eq!(
        terminate_child(false, Some(KillResult::Failed), None),
        Err(SupervisorError::KillFailed)
    );
    assert_eq!(
        terminate_child(false, Some(KillResult::Delivered), Some(WaitResult::Failed)),
        Err(SupervisorError::WaitFailed)
    );
}

#[test]
fn running_status_reports_all_fields() {
    let p = ManagedProcess {
        pid: 5,
        url: "http://h:1".to_string(),
        workspace_dir: "/w".to_string(),
        project_id: "p".to_string(),
    };
    let s = status_from_managed(&p);
    assert!(s.running);
    assert_eq!(s.url.as_deref(), Some("http://h:1"));
    assert_eq!(s.pid, Some(5));
    assert_eq!(s.workspace_dir.as_deref(), Some("/w"));
    assert_eq!(s.project_id.as_deref(), Some("p"));
    assert_idle(&ManagerWebStatus::idle());
}
