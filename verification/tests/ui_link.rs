use blockwork::protocol::DaemonMessage;
use blockwork::ui_link::{
    after_failed_connect, call_fits, check_handshake, daemon_launch, event_for, hello_outcome, next_call_id, ConnectFailure,
    ConnectStep,
    Event, HelloOutcome, WindowState,
};

#[test]
fn only_an_accepting_hello_keeps_the_window() {
    assert!(check_handshake(&DaemonMessage::hello(true)).is_ok());
    assert_eq!(
        check_handshake(&DaemonMessage::hello(false)),
        Err("another Blockwork window is already open".to_string())
    );
    assert!(check_handshake(&DaemonMessage::focus()).is_err());
}

#[test]
fn daemon_messages_become_window_events() {
    assert!(matches!(event_for(DaemonMessage::state("{}".into())), (Some(Event::State(s)), false) if s == "{}"));
    assert!(matches!(event_for(DaemonMessage::reply(1, Err("bad".into()))), (Some(Event::Error(e)), false) if e == "bad"));
    assert!(matches!(event_for(DaemonMessage::reply(1, Ok("1".into()))), (None, false)));
    assert!(matches!(event_for(DaemonMessage::focus()), (Some(Event::Focus), false)));
    assert!(matches!(event_for(DaemonMessage::quit()), (Some(Event::Quit), true)));
    assert!(matches!(event_for(DaemonMessage::hello(true)), (None, false)));
}

#[test]
fn call_ids_wrap_and_size_is_checked() {
    assert_eq!(next_call_id(1), 2);
    assert_eq!(next_call_id(u64::MAX), 0);
    assert!(call_fits(10).is_ok());
    assert!(call_fits(8 * 1024 * 1024).is_ok());
    assert_eq!(call_fits(8 * 1024 * 1024 + 1), Err("command is too large".to_string()));
}

#[test]
fn polled_events_update_the_window_in_order() {
    let mut w = WindowState::new();
    assert_eq!(w.state_json, "{}");
    w.poll(vec![
        Event::Connected,
        Event::State("{\"a\":1}".into()),
        Event::Focus,
        Event::State("{\"a\":2}".into()),
        Event::Error("boom".into()),
        Event::Focus,
    ]);
    assert!(w.connected);
    assert_eq!(w.state_json, "{\"a\":2}");
    assert_eq!(w.last_error, "boom");
    assert_eq!(w.focus_serial, 2);
    assert!(!w.should_quit);
    w.poll(vec![Event::Quit]);
    assert!(w.should_quit);
}

#[test]
fn the_focus_counter_stops_at_its_top() {
    let mut w = WindowState::new();
    w.focus_serial = i32::MAX;
    w.apply(Event::Focus);
    assert_eq!(w.focus_serial, i32::MAX);
}

#[test]
fn an_absent_daemon_is_started_then_waited_for_until_the_deadline() {
    assert_eq!(after_failed_connect(false, ConnectFailure::NotFound, false), ConnectStep::SpawnThenRetry);
    assert_eq!(after_failed_connect(false, ConnectFailure::Refused, true), ConnectStep::SpawnThenRetry);
    assert_eq!(after_failed_connect(false, ConnectFailure::Other, false), ConnectStep::GiveUp);
    assert_eq!(after_failed_connect(true, ConnectFailure::Refused, false), ConnectStep::RetryLater);
    assert_eq!(after_failed_connect(true, ConnectFailure::NotFound, true), ConnectStep::GiveUp);
    assert_eq!(after_failed_connect(true, ConnectFailure::Other, false), ConnectStep::GiveUp);
}

#[test]
fn the_first_message_must_be_a_hello() {
    assert_eq!(hello_outcome(&DaemonMessage::hello(true)), Ok(HelloOutcome::Accepted));
    assert_eq!(hello_outcome(&DaemonMessage::hello(false)), Ok(HelloOutcome::AlreadyOpen));
    assert_eq!(hello_outcome(&DaemonMessage::quit()), Err("expected hello from daemon".to_string()));
}

#[test]
fn the_daemon_is_started_from_the_appimage_when_there_is_one() {
    let l = daemon_launch(
        Some("/tmp/Blockwork.AppImage".into()),
        "/opt/blockwork/blockwork-daemon".into(),
        None,
        "/opt/blockwork/blockwork".into(),
        Some("wayland".into()),
    );
    assert_eq!(l.program, "/tmp/Blockwork.AppImage");
    assert_eq!(l.args, vec!["--daemon".to_string(), "--ozone-platform=wayland".to_string()]);
    assert_eq!(l.ui_exe, "/tmp/Blockwork.AppImage");
}

#[test]
fn without_an_appimage_the_daemon_executable_runs_directly() {
    let l = daemon_launch(None, "/opt/b/blockwork-daemon".into(), None, "/opt/b/blockwork".into(), None);
    assert_eq!(l.program, "/opt/b/blockwork-daemon");
    assert!(l.args.is_empty());
    assert_eq!(l.ui_exe, "/opt/b/blockwork");
    let wrapped = daemon_launch(None, "d".into(), Some("/app/bin/wrapper".into()), "/opt/b/blockwork".into(), None);
    assert_eq!(wrapped.ui_exe, "/app/bin/wrapper");
}
