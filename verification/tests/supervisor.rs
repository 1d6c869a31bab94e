use lunatix_supervisor::supervisor::{standalone_requested, SpawnOutcome, SupervisorState};

const LOCAL_URL: &str = "http://localhost:8080";

#[test]
fn starts_with_canonical_local_url() {
    let state = SupervisorState::new();
    assert_eq!(state.get_api_url(), LOCAL_URL);
    assert_eq!(state.active_pid(), None);
    assert!(state.standalone_needs_spawn());
}

#[test]
fn standalone_entry_is_idempotent() {
    let mut state = SupervisorState::new();
    assert!(state.standalone_needs_spawn());
    let first = state.set_standalone_mode(SpawnOutcome::Launched { pid: 41 });
    assert_eq!(first, Ok(()));
    assert_eq!(state.active_pid(), Some(41));
    // A second entry needs no spawn and succeeds without touching the handle.
    assert!(!state.standalone_needs_spawn());
    let second = state.set_standalone_mode(SpawnOutcome::Launched { pid: 99 });
    assert_eq!(second, Ok(()));
    assert_eq!(state.active_pid(), Some(41));
    assert_eq!(state.get_api_url(), LOCAL_URL);
}

#[test]
fn remote_cleanup_kills_and_installs_url() {
    let mut state = SupervisorState::new();
    state
        .set_standalone_mode(SpawnOutcome::Launched { pid: 7 })
        .unwrap();
    let to_kill = state.set_remote_mode("http://example:9".to_string());
    assert_eq!(to_kill, Some(7));
    assert_eq!(state.active_pid(), None);
    assert_eq!(state.get_api_url(), "http://example:9");
}

#[test]
fn remote_mode_without_process_kills_nothing() {
    let mut state = SupervisorState::new();
    let to_kill = state.set_remote_mode("http://example:9".to_string());
    assert_eq!(to_kill, None);
    assert_eq!(state.get_api_url(), "http://example:9");
}

#[test]
fn failed_spawn_leaves_state_unchanged() {
    let mut state = SupervisorState::new();
    state.set_remote_mode("http://example:9".to_string());
    let result = state.set_standalone_mode(SpawnOutcome::Failed {
        message: "sidecar binary not found".to_string(),
    });
    assert_eq!(result, Err("sidecar binary not found".to_string()));
    assert_eq!(state.active_pid(), None);
    assert_eq!(state.get_api_url(), "http://example:9");
}

#[test]
fn serialized_transitions_keep_invariant() {
    let mut state = SupervisorState::new();
    let mut pid: u64 = 1;
    for round in 0..32 {
        if round % 2 == 0 {
            state.set_remote_mode(format!("http://remote:{}", round));
        } else if state.standalone_needs_spawn() {
            let outcome = if round % 3 == 0 {
                SpawnOutcome::Failed {
                    message: "launch failed".to_string(),
                }
            } else {
                pid += 1;
                SpawnOutcome::Launched { pid }
            };
            let _ = state.set_standalone_mode(outcome);
        }
        // The invariant: a process is owned only while the URL is the
        // canonical local one.
        if state.active_pid().is_some() {
            assert_eq!(state.get_api_url(), LOCAL_URL);
        }
    }
}

#[test]
fn shutdown_kills_exactly_once() {
    let mut state = SupervisorState::new();
    state
        .set_standalone_mode(SpawnOutcome::Launched { pid: 3 })
        .unwrap();
    assert_eq!(state.shutdown(), Some(3));
    assert_eq!(state.active_pid(), None);
    assert_eq!(state.shutdown(), None);
    assert_eq!(state.get_api_url(), LOCAL_URL);
}

#[test]
fn standalone_flag_only_accepts_one() {
    assert!(standalone_requested(&Some("1".to_string())));
    assert!(!standalone_requested(&Some("0".to_string())));
    assert!(!standalone_requested(&Some("".to_string())));
    assert!(!standalone_requested(&Some("true".to_string())));
    assert!(!standalone_requested(&None));
}
