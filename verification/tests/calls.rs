use blockwork::calls::{reply_outcome, PendingCalls, MAX_PENDING_CALLS};
use blockwork::protocol::{DaemonMessage, MAX_MESSAGE_BYTES};

#[test]
fn calls_wait_until_their_reply() {
    let mut calls = PendingCalls::new();
    let id = calls.take_id();
    assert_eq!(id, 1);
    assert_eq!(calls.next_id, 2);
    assert!(calls.register(id, 100));
    assert_eq!(calls.waiting, vec![1]);
    assert!(calls.finish(id));
    assert!(!calls.finish(id));
    assert!(calls.waiting.is_empty());
}

#[test]
fn oversized_calls_are_refused() {
    let mut calls = PendingCalls::new();
    let id = calls.take_id();
    assert!(!calls.register(id, MAX_MESSAGE_BYTES + 1));
    assert!(calls.register(id, MAX_MESSAGE_BYTES));
}

#[test]
fn no_more_than_the_limit_wait() {
    let mut calls = PendingCalls::new();
    for _ in 0..MAX_PENDING_CALLS {
        let id = calls.take_id();
        assert!(calls.register(id, 10));
    }
    let id = calls.take_id();
    assert!(!calls.register(id, 10));
    assert_eq!(calls.waiting.len(), MAX_PENDING_CALLS);
    calls.clear();
    assert!(calls.waiting.is_empty());
    assert!(calls.register(id, 10));
}

#[test]
fn ids_wrap_around() {
    let mut calls = PendingCalls { next_id: u64::MAX, waiting: vec![] };
    assert_eq!(calls.take_id(), u64::MAX);
    assert_eq!(calls.take_id(), 0);
}

#[test]
fn reply_outcomes_name_their_call() {
    assert_eq!(reply_outcome(DaemonMessage::reply(7, Ok("[1]".into()))), Some((7, Ok("[1]".to_string()))));
    assert_eq!(reply_outcome(DaemonMessage::reply(8, Err("nope".into()))), Some((8, Err("nope".to_string()))));
    let mut empty = DaemonMessage::reply(9, Ok(String::new()));
    empty.data = None;
    assert_eq!(reply_outcome(empty), Some((9, Ok("null".to_string()))));
    assert_eq!(reply_outcome(DaemonMessage::focus()), None);
}
