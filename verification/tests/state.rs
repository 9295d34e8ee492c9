use blockwork::hotkeys::refresh_macro_list;
use blockwork::instruction::PathStep;
use blockwork::state::{binding_macro_name, combo_capture_to_dto, key_capture_to_dto, named_hotkey_actions, ComboCapture, KeyCaptureTarget};
use blockwork::state::{
    axis_to_str, coordinate_to_str, direction_to_str, dto_to_hotkey_action, hotkey_action_to_dto,
    page_name, recording_phase_to_dto, str_to_axis, str_to_coordinate, str_to_direction,
    update_check_state_to_dto, Axis, Coordinate, Direction, HotkeyAction, HotkeyActionDto, Page,
    RecordingPhase, UpdateCheckState,
};

#[test]
fn names_read_back_and_unknown_names_fall_back() {
    for d in [Direction::Click, Direction::Press, Direction::Release] {
        assert_eq!(str_to_direction(direction_to_str(&d)), d);
    }
    for c in [Coordinate::Abs, Coordinate::Rel] {
        assert_eq!(str_to_coordinate(coordinate_to_str(&c)), c);
    }
    for a in [Axis::Vertical, Axis::Horizontal] {
        assert_eq!(str_to_axis(axis_to_str(&a)), a);
    }
    assert_eq!(str_to_direction("sideways"), Direction::Click);
    assert_eq!(str_to_coordinate("Absolute"), Coordinate::Abs);
    assert_eq!(str_to_coordinate("whatever"), Coordinate::Abs);
    assert_eq!(str_to_axis("diagonal"), Axis::Vertical);
    assert_eq!(coordinate_to_str(&Coordinate::Rel), "Relative");
}

#[test]
fn hotkey_actions_round_trip_through_their_wire_form() {
    let actions = vec![
        HotkeyAction::RunMacro,
        HotkeyAction::StopLoop,
        HotkeyAction::NextMacro,
        HotkeyAction::PrevMacro,
        HotkeyAction::ToggleLoop,
        HotkeyAction::StartRecordingImmediate,
        HotkeyAction::StopRecording,
        HotkeyAction::Undo,
        HotkeyAction::Redo,
        HotkeyAction::RunSpecificMacro("m7".into()),
    ];
    for a in actions {
        assert_eq!(dto_to_hotkey_action(&hotkey_action_to_dto(&a)), a);
    }
    assert_eq!(
        hotkey_action_to_dto(&HotkeyAction::RunSpecificMacro("x".into())),
        HotkeyActionDto::RunSpecificMacro { macro_id: "x".into() }
    );
}

#[test]
fn status_strings_match_the_frontend() {
    let d = recording_phase_to_dto(&RecordingPhase::Countdown(3));
    assert_eq!((d.phase.as_str(), d.countdown), ("Countdown", Some(3)));
    let d = recording_phase_to_dto(&RecordingPhase::Idle);
    assert_eq!((d.phase.as_str(), d.countdown), ("Idle", None));
    let d = update_check_state_to_dto(&UpdateCheckState::UpdateAvailable("1.2.3".into()));
    assert_eq!((d.state.as_str(), d.version.as_deref(), d.error), ("UpdateAvailable", Some("1.2.3"), None));
    let d = update_check_state_to_dto(&UpdateCheckState::Error("offline".into()));
    assert_eq!((d.state.as_str(), d.version, d.error.as_deref()), ("Error", None, Some("offline")));
    assert_eq!(page_name(&Page::Settings), "Settings");
}

#[test]
fn capture_targets_and_combo_captures_have_wire_kinds() {
    let d = key_capture_to_dto(&KeyCaptureTarget::Strand("s1".into(), vec![PathStep { index: 2, slot: None }]));
    assert_eq!((d.kind.as_str(), d.strand_id.as_deref()), ("Strand", Some("s1")));
    assert_eq!(d.index, Some(vec![PathStep { index: 2, slot: None }]));
    let d = key_capture_to_dto(&KeyCaptureTarget::Standalone);
    assert_eq!((d.kind.as_str(), d.strand_id, d.index), ("Standalone", None, None));
    let c = combo_capture_to_dto(&ComboCapture::Named(HotkeyAction::Undo));
    assert_eq!((c.kind.as_str(), c.action), ("Named", Some(HotkeyActionDto::Undo)));
    let c = combo_capture_to_dto(&ComboCapture::Pending);
    assert_eq!((c.kind.as_str(), c.action), ("Pending", None));
}

#[test]
fn bindings_show_the_name_of_their_macro() {
    let macros = vec![("m1".to_string(), "Morning".to_string()), ("m2".to_string(), "Evening".to_string())];
    assert_eq!(binding_macro_name(&HotkeyAction::RunSpecificMacro("m2".into()), &macros), Some("Evening".to_string()));
    assert_eq!(binding_macro_name(&HotkeyAction::RunSpecificMacro("gone".into()), &macros), Some("(deleted)".to_string()));
    assert_eq!(binding_macro_name(&HotkeyAction::Undo, &macros), None);
    let named = named_hotkey_actions();
    assert_eq!(named.len(), 9);
    assert_eq!(named[0], HotkeyAction::RunMacro);
    assert_eq!(named[8], HotkeyAction::Redo);
}

#[test]
fn refreshing_the_macro_list_follows_the_open_macro() {
    let macros = vec![("m1".to_string(), "A".to_string()), ("m2".to_string(), "B".to_string())];
    assert_eq!(refresh_macro_list(&macros, Some("m2"), Some(0)), (vec!["A".to_string(), "B".to_string()], Some(1)));
    assert_eq!(refresh_macro_list(&macros, Some("gone"), Some(0)).1, None);
    assert_eq!(refresh_macro_list(&macros, None, Some(5)).1, Some(5));
}
