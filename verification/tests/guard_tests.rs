use log_relay::guard::{
    start_log_server, start_log_server_impl, ListenerState, StartAction, StartupGuard,
};

#[test]
fn fresh_guard_is_not_started() {
    let guard = StartupGuard::new();
    assert!(!guard.started());
    assert_eq!(guard.listener_state(), ListenerState::NotStarted);
}

#[test]
fn try_start_is_granted_once() {
    let mut guard = StartupGuard::new();
    assert!(guard.try_start());
    assert!(guard.started());
    assert!(!guard.try_start());
    assert!(!guard.try_start());
    assert!(guard.started());
    assert_eq!(guard.listener_state(), ListenerState::Running);
}

#[test]
fn starting_twice_launches_one_listener() {
    let mut guard = StartupGuard::new();
    let mut launches = 0;
    for _ in 0..5 {
        if start_log_server_impl(&mut guard) == StartAction::Launch {
            launches += 1;
        }
    }
    assert_eq!(launches, 1);
}

#[test]
fn first_attempt_is_the_one_that_launches() {
    let mut guard = StartupGuard::new();
    assert_eq!(start_log_server_impl(&mut guard), StartAction::Launch);
    assert_eq!(start_log_server_impl(&mut guard), StartAction::Skip);
}

#[test]
fn start_command_always_succeeds() {
    let mut guard = StartupGuard::new();
    let (first, first_result) = start_log_server(&mut guard);
    let (second, second_result) = start_log_server(&mut guard);
    assert_eq!(first, StartAction::Launch);
    assert_eq!(first_result, Ok(()));
    assert_eq!(second, StartAction::Skip);
    assert_eq!(second_result, Ok(()));
}

#[test]
fn setup_and_command_share_one_guard() {
    let mut guard = StartupGuard::new();
    assert_eq!(start_log_server_impl(&mut guard), StartAction::Launch);
    let (action, result) = start_log_server(&mut guard);
    assert_eq!(action, StartAction::Skip);
    assert!(result.is_ok());
}
