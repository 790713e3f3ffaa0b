use imapnotify::{
    backoff_delay, select_connected, Detector, StartupError, Supervisor, SupervisorAction,
    SupervisorEvent, SupervisorState, Account, MAX_ATTEMPTS,
};

fn reconnect(logout: bool, delay_secs: u64) -> SupervisorAction {
    SupervisorAction::Reconnect { logout, delay_secs }
}

#[test]
fn backoff_doubles_from_one_second() {
    let delays: Vec<u64> = (1..=MAX_ATTEMPTS).map(backoff_delay).collect();
    assert_eq!(delays, vec![1, 2, 4, 8, 16]);
}

#[test]
fn reconnection_makes_five_attempts_then_stops() {
    let mut s = Supervisor::new();
    assert_eq!(s.step(SupervisorEvent::Failed), reconnect(true, 1));
    assert_eq!(s.step(SupervisorEvent::Failed), reconnect(false, 2));
    assert_eq!(s.step(SupervisorEvent::Failed), reconnect(false, 4));
    assert_eq!(s.step(SupervisorEvent::Failed), reconnect(false, 8));
    assert_eq!(s.step(SupervisorEvent::Failed), reconnect(false, 16));
    assert_eq!(s.state(), SupervisorState::Reconnecting(5));
    assert_eq!(s.step(SupervisorEvent::Failed), SupervisorAction::Stop);
    assert_eq!(s.state(), SupervisorState::Dead);
    assert_eq!(s.step(SupervisorEvent::Succeeded), SupervisorAction::Stop);
    assert_eq!(s.state(), SupervisorState::Dead);
}

#[test]
fn dead_worker_leaves_others_alone() {
    let mut dead = Supervisor::new();
    let mut alive = Supervisor::new();
    for _ in 0..6 {
        dead.step(SupervisorEvent::Failed);
    }
    assert_eq!(dead.state(), SupervisorState::Dead);
    assert_eq!(alive.state(), SupervisorState::Detecting);
    assert_eq!(alive.step(SupervisorEvent::Succeeded), SupervisorAction::Detect);
}

#[test]
fn scenario_reconnect_succeeds_on_second_attempt() {
    let mut s = Supervisor::new();
    assert_eq!(s.step(SupervisorEvent::Failed), reconnect(true, 1));
    assert_eq!(s.step(SupervisorEvent::Failed), reconnect(false, 2));
    assert_eq!(s.step(SupervisorEvent::Succeeded), SupervisorAction::Install);
    assert_eq!(s.state(), SupervisorState::Detecting);
    let account = Account {
        host: "imap.example.org".to_string(),
        port: 143,
        starttls: true,
        username: "bob".to_string(),
        password: "secret".to_string(),
        on_new_mail: "true".to_string(),
        on_new_mail_post: None,
        boxes: vec!["INBOX".to_string()],
    };
    assert_eq!(Detector::new(account).mark(), 0);
    assert_eq!(s.step(SupervisorEvent::Failed), reconnect(true, 1));
}

#[test]
fn scenario_capability_failure_is_retried_on_schedule() {
    let (mut s, first) = Supervisor::connecting();
    assert_eq!(first, reconnect(false, 1));
    assert_eq!(s.step(SupervisorEvent::Failed), reconnect(false, 2));
    assert_eq!(s.step(SupervisorEvent::Failed), reconnect(false, 4));
}

#[test]
fn initial_establishment_gives_up_after_five_attempts() {
    let (mut s, _) = Supervisor::connecting();
    let mut actions = Vec::new();
    for _ in 0..5 {
        actions.push(s.step(SupervisorEvent::Failed));
    }
    assert_eq!(
        actions,
        vec![
            reconnect(false, 2),
            reconnect(false, 4),
            reconnect(false, 8),
            reconnect(false, 16),
            SupervisorAction::Stop
        ]
    );
}

#[test]
fn unreachable_accounts_are_dropped() {
    let r = select_connected(vec![None, Some("b"), None, Some("d")]);
    assert_eq!(r, Ok(vec!["b", "d"]));
}

#[test]
fn no_reachable_account_is_fatal() {
    assert_eq!(select_connected::<u8>(vec![None, None]), Err(StartupError::NoConnections));
    assert_eq!(select_connected::<u8>(vec![]), Err(StartupError::NoConnections));
    assert_eq!(select_connected(vec![Some(1)]), Ok(vec![1]));
}
