use blockwork::protocol::{ClientMessage, DaemonMessageKind};
use blockwork::session::{focused_key_args, forward_event, ClientAction, Clients, Event};

#[test]
fn only_one_ui_is_accepted() {
    let mut clients = Clients::new(None);
    assert!(!clients.has_ui());
    assert!(clients.claim_ui(1));
    assert!(!clients.claim_ui(2));
    assert_eq!(clients.ui, Some(1));
    clients.release_ui(2);
    assert_eq!(clients.ui, Some(1));
    clients.release_ui(1);
    assert!(!clients.has_ui());
    assert!(clients.claim_ui(2));
}

#[test]
fn ozone_choice_is_kept_until_a_new_one_arrives() {
    let mut clients = Clients::new(Some("x11".into()));
    clients.set_ozone_platform(None);
    assert_eq!(clients.ozone_platform(), Some("x11".to_string()));
    clients.set_ozone_platform(Some("wayland".into()));
    assert_eq!(clients.ozone_platform(), Some("wayland".to_string()));
}

#[test]
fn client_messages_are_routed_by_command_name() {
    let mut clients = Clients::new(None);
    match clients.on_client_message(ClientMessage::Call { id: 9, cmd: "focused_key_event".into(), args: "{}".into() }) {
        ClientAction::FocusedKey { id, args } => assert_eq!((id, args.as_str()), (9, "{}")),
        _ => panic!("expected the focused-key hook"),
    }
    match clients.on_client_message(ClientMessage::Call { id: 10, cmd: "undo".into(), args: "null".into() }) {
        ClientAction::Dispatch { id, cmd, .. } => assert_eq!((id, cmd.as_str()), (10, "undo")),
        _ => panic!("expected a backend call"),
    }
    assert!(matches!(
        clients.on_client_message(ClientMessage::Hello { ozone_platform: Some("x11".into()) }),
        ClientAction::Nothing
    ));
    assert_eq!(clients.ozone_platform(), Some("x11".to_string()));
}

#[test]
fn backend_events_are_forwarded_as_messages() {
    let m = forward_event(Event::State("{\"a\":1}".into())).unwrap();
    assert_eq!(m.kind, DaemonMessageKind::State);
    assert_eq!(m.payload.as_deref(), Some("{\"a\":1}"));
    assert_eq!(forward_event(Event::Quit).unwrap().kind, DaemonMessageKind::Quit);
    assert!(forward_event(Event::CloseToTray(true)).is_none());
}

#[test]
fn focused_key_arguments_are_checked() {
    assert_eq!(focused_key_args(Some(65), Some(true)), Ok((65, true)));
    assert_eq!(focused_key_args(None, Some(true)), Err("missing vk".to_string()));
    assert_eq!(focused_key_args(Some(1), None), Err("missing pressed".to_string()));
    assert_eq!(
        focused_key_args(Some(70_000), Some(false)),
        Err("out of range integral type conversion attempted".to_string())
    );
}
