use imapnotify::{decide, Account, DetectAction, DetectEvent, DetectPhase, Detector};

fn account(boxes: &[&str], post: Option<&str>) -> Account {
    Account {
        host: "imap.example.org".to_string(),
        port: 143,
        starttls: true,
        username: "bob".to_string(),
        password: "secret".to_string(),
        on_new_mail: "notify-send mail".to_string(),
        on_new_mail_post: post.map(|p| p.to_string()),
        boxes: boxes.iter().map(|b| b.to_string()).collect(),
    }
}

fn is_examine(a: &DetectAction, name: &str) -> bool {
    matches!(a, DetectAction::Examine(n) if n == name)
}

fn is_launch(a: &DetectAction, command: &str) -> bool {
    matches!(a, DetectAction::Launch(c) if c == command)
}

/// Runs one detection iteration from the idle phase with these search results.
fn iterate(d: &mut Detector, results: &[Vec<u32>]) -> DetectAction {
    let mut action = d.step(DetectEvent::Done);
    for ids in results {
        assert!(matches!(action, DetectAction::Examine(_)));
        action = d.step(DetectEvent::Done);
        assert!(matches!(action, DetectAction::Search(ref q) if q == "NEW 1:*"));
        action = d.step(DetectEvent::Found(ids.clone()));
    }
    action
}

#[test]
fn decide_fresh_batch_raises_mark() {
    assert_eq!(decide(0, &vec![5, 6, 7]), (true, 7));
}

#[test]
fn decide_old_identifier_discards_batch() {
    assert_eq!(decide(7, &vec![3, 5, 6, 7]), (false, 7));
}

#[test]
fn decide_empty_batch_fires_and_keeps_mark() {
    assert_eq!(decide(4, &vec![]), (true, 4));
    assert_eq!(decide(0, &vec![]), (true, 0));
}

#[test]
fn decide_identifier_equal_to_mark_is_old() {
    assert_eq!(decide(7, &vec![7, 9]), (false, 7));
    assert_eq!(decide(7, &vec![8, 9]), (true, 9));
}

#[test]
fn decide_duplicates_and_order_do_not_matter() {
    assert_eq!(decide(2, &vec![9, 3, 9, 4]), (true, 9));
}

#[test]
fn decide_largest_identifier() {
    assert_eq!(decide(0, &vec![u32::MAX, 1]), (true, u32::MAX));
    assert_eq!(decide(u32::MAX, &vec![u32::MAX]), (false, u32::MAX));
}

#[test]
fn new_detector_starts_at_mark_zero() {
    let d = Detector::new(account(&["INBOX"], None));
    assert_eq!(d.mark(), 0);
    assert_eq!(d.phase(), DetectPhase::Idling);
}

#[test]
fn scenario_new_mail_fires_once_and_raises_mark() {
    let mut d = Detector::new(account(&["INBOX"], None));
    let first = d.step(DetectEvent::Done);
    assert!(is_examine(&first, "INBOX"));
    let action = d.step(DetectEvent::Done);
    assert!(matches!(action, DetectAction::Search(_)));
    let action = d.step(DetectEvent::Found(vec![5, 6, 7]));
    assert!(is_launch(&action, "notify-send mail"));
    assert_eq!(d.mark(), 7);
    let action = d.step(DetectEvent::Launched(true));
    assert!(matches!(action, DetectAction::Idle));
}

#[test]
fn scenario_resurfaced_mail_is_discarded() {
    let mut d = Detector::new(account(&["INBOX"], None));
    let action = iterate(&mut d, &[vec![5, 6, 7]]);
    assert!(is_launch(&action, "notify-send mail"));
    assert!(matches!(d.step(DetectEvent::Launched(true)), DetectAction::Idle));
    let action = iterate(&mut d, &[vec![3, 5, 6, 7]]);
    assert!(matches!(action, DetectAction::Idle));
    assert_eq!(d.mark(), 7);
}

#[test]
fn mailboxes_are_searched_in_order_and_unioned() {
    let mut d = Detector::new(account(&["INBOX", "Lists", "Work"], None));
    let a = d.step(DetectEvent::Done);
    assert!(is_examine(&a, "INBOX"));
    d.step(DetectEvent::Done);
    let a = d.step(DetectEvent::Found(vec![4]));
    assert!(is_examine(&a, "Lists"));
    d.step(DetectEvent::Done);
    let a = d.step(DetectEvent::Found(vec![2, 4]));
    assert!(is_examine(&a, "Work"));
    d.step(DetectEvent::Done);
    let a = d.step(DetectEvent::Found(vec![]));
    assert!(is_launch(&a, "notify-send mail"));
    assert_eq!(d.mark(), 4);
}

#[test]
fn old_identifier_in_any_mailbox_discards_all() {
    let mut d = Detector::new(account(&["INBOX", "Lists"], None));
    iterate(&mut d, &[vec![10], vec![]]);
    d.step(DetectEvent::Launched(true));
    let a = iterate(&mut d, &[vec![20, 30], vec![10]]);
    assert!(matches!(a, DetectAction::Idle));
    assert_eq!(d.mark(), 10);
}

#[test]
fn empty_search_fires_without_moving_mark() {
    let mut d = Detector::new(account(&["INBOX"], None));
    let a = iterate(&mut d, &[vec![]]);
    assert!(is_launch(&a, "notify-send mail"));
    assert_eq!(d.mark(), 0);
}

#[test]
fn post_command_follows_a_launched_primary() {
    let mut d = Detector::new(account(&["INBOX"], Some("mbsync -a")));
    iterate(&mut d, &[vec![1]]);
    let a = d.step(DetectEvent::Launched(true));
    assert!(is_launch(&a, "mbsync -a"));
    assert_eq!(d.phase(), DetectPhase::LaunchingPost);
    let a = d.step(DetectEvent::Launched(false));
    assert!(matches!(a, DetectAction::Idle));
}

#[test]
fn scenario_launch_failure_keeps_the_loop_running() {
    let mut d = Detector::new(account(&["INBOX"], Some("mbsync -a")));
    iterate(&mut d, &[vec![1]]);
    let a = d.step(DetectEvent::Launched(false));
    assert!(matches!(a, DetectAction::Idle));
    assert_eq!(d.phase(), DetectPhase::Idling);
    let a = d.step(DetectEvent::Done);
    assert!(is_examine(&a, "INBOX"));
}

#[test]
fn failure_stops_the_loop() {
    let mut d = Detector::new(account(&["INBOX"], None));
    d.step(DetectEvent::Done);
    d.step(DetectEvent::Done);
    let a = d.step(DetectEvent::Failed);
    assert!(matches!(a, DetectAction::Stop));
    assert_eq!(d.phase(), DetectPhase::Stopped);
    assert!(matches!(d.step(DetectEvent::Done), DetectAction::Stop));
}

#[test]
fn unexpected_event_stops_the_loop() {
    let mut d = Detector::new(account(&["INBOX"], None));
    d.step(DetectEvent::Done);
    let a = d.step(DetectEvent::Found(vec![1]));
    assert!(matches!(a, DetectAction::Stop));
    assert_eq!(d.mark(), 0);
}
