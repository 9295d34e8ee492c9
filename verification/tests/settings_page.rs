use blockwork::bindings::{actions_equal, assign_combo, clear_action, HotkeyBinding, KeyCombo, SettingsPage};
use blockwork::settings::{parse_port, startup_state, IpcSettings, SavedSettings, DEFAULT_IPC_PORT};
use blockwork::state::{ComboCapture, HotkeyAction, Page};

fn combo(modifiers: u8, key: &str) -> KeyCombo {
    KeyCombo { modifiers, key: key.to_string() }
}

fn binding(action: HotkeyAction, modifiers: u8, key: &str) -> HotkeyBinding {
    HotkeyBinding { action, combo: combo(modifiers, key) }
}

fn page(bindings: Vec<HotkeyBinding>) -> SettingsPage {
    SettingsPage { page: Page::Settings, combo_capture: None, bindings, pending_macro_hotkey: None }
}

fn summary(bindings: &[HotkeyBinding]) -> Vec<(HotkeyAction, u8, String)> {
    bindings.iter().map(|b| (b.action.clone(), b.combo.modifiers, b.combo.key.clone())).collect()
}

#[test]
fn capturing_a_named_combo_replaces_the_existing_binding() {
    let mut p = page(vec![binding(HotkeyAction::RunMacro, 1, "F5"), binding(HotkeyAction::StopLoop, 0, "F6")]);
    p.start_combo_capture(HotkeyAction::RunMacro);
    assert!(p.combo_capture_event(Some("F9".into()), 3));
    assert_eq!(p.combo_capture, None);
    assert_eq!(
        summary(&p.bindings),
        vec![(HotkeyAction::RunMacro, 3, "F9".into()), (HotkeyAction::StopLoop, 0, "F6".into())]
    );
}

#[test]
fn capturing_a_combo_for_an_unbound_action_appends_it() {
    let mut p = page(vec![binding(HotkeyAction::RunMacro, 1, "F5")]);
    p.start_combo_capture(HotkeyAction::Undo);
    assert!(p.combo_capture_event(Some("Z".into()), 2));
    assert_eq!(summary(&p.bindings)[1], (HotkeyAction::Undo, 2, "Z".into()));
}

#[test]
fn stop_recording_hotkey_never_keeps_modifiers() {
    let mut p = page(vec![]);
    p.start_combo_capture(HotkeyAction::StopRecording);
    assert!(p.combo_capture_event(Some("Escape".into()), 7));
    assert_eq!(summary(&p.bindings), vec![(HotkeyAction::StopRecording, 0, "Escape".into())]);
}

#[test]
fn an_unmapped_key_leaves_the_capture_running() {
    let mut p = page(vec![]);
    p.start_combo_capture(HotkeyAction::RunMacro);
    assert!(!p.combo_capture_event(None, 1));
    assert_eq!(p.combo_capture, Some(ComboCapture::Named(HotkeyAction::RunMacro)));
    assert!(p.bindings.is_empty());
}

#[test]
fn pending_capture_feeds_the_per_macro_hotkey() {
    let mut p = page(vec![]);
    p.set_pending_macro_idx(Some(1));
    p.start_pending_combo_capture();
    assert!(!p.combo_capture_event(Some("K".into()), 4));
    match &p.pending_macro_hotkey {
        Some((Some(1), Some(c))) => assert_eq!((c.modifiers, c.key.as_str()), (4, "K")),
        other => panic!("unexpected pending hotkey {other:?}"),
    }
    let ids = vec!["m0".to_string(), "m1".to_string()];
    assert!(p.add_macro_hotkey(&ids));
    assert_eq!(p.pending_macro_hotkey.is_none(), true);
    assert_eq!(summary(&p.bindings), vec![(HotkeyAction::RunSpecificMacro("m1".into()), 4, "K".into())]);
}

#[test]
fn per_macro_hotkey_for_a_missing_macro_is_dropped() {
    let mut p = page(vec![]);
    p.pending_macro_hotkey = Some((Some(5), Some(combo(0, "K"))));
    assert!(!p.add_macro_hotkey(&vec!["m0".to_string()]));
    assert!(p.pending_macro_hotkey.is_none());
    assert!(p.bindings.is_empty());
}

#[test]
fn clearing_a_named_hotkey_removes_every_binding_of_it() {
    let mut p = page(vec![
        binding(HotkeyAction::RunMacro, 0, "F5"),
        binding(HotkeyAction::Undo, 0, "Z"),
        binding(HotkeyAction::RunMacro, 1, "F7"),
    ]);
    p.clear_named_hotkey(&HotkeyAction::RunMacro);
    assert_eq!(summary(&p.bindings), vec![(HotkeyAction::Undo, 0, "Z".into())]);
}

#[test]
fn removing_a_binding_by_index() {
    let mut p = page(vec![binding(HotkeyAction::RunMacro, 0, "F5"), binding(HotkeyAction::Undo, 0, "Z")]);
    assert!(!p.remove_hotkey_binding(2));
    assert!(p.remove_hotkey_binding(0));
    assert_eq!(summary(&p.bindings), vec![(HotkeyAction::Undo, 0, "Z".into())]);
}

#[test]
fn resetting_uses_the_default_combo_when_there_is_one() {
    let mut p = page(vec![binding(HotkeyAction::Redo, 5, "Y")]);
    assert!(!p.reset_hotkey_to_default(HotkeyAction::Redo, None));
    assert!(p.reset_hotkey_to_default(HotkeyAction::Redo, Some(combo(2, "R"))));
    assert_eq!(summary(&p.bindings), vec![(HotkeyAction::Redo, 2, "R".into())]);
}

#[test]
fn opening_and_closing_settings_drop_captures() {
    let mut p = page(vec![]);
    p.start_pending_combo_capture();
    p.set_pending_macro_idx(Some(0));
    p.close_settings();
    assert_eq!(p.page, Page::Main);
    assert!(p.combo_capture.is_none() && p.pending_macro_hotkey.is_none());
    p.open_settings(vec![binding(HotkeyAction::Undo, 0, "Z")]);
    assert_eq!(p.page, Page::Settings);
    assert_eq!(p.bindings.len(), 1);
}

#[test]
fn actions_compare_by_variant_and_macro_id() {
    assert!(actions_equal(&HotkeyAction::RunSpecificMacro("a".into()), &HotkeyAction::RunSpecificMacro("a".into())));
    assert!(!actions_equal(&HotkeyAction::RunSpecificMacro("a".into()), &HotkeyAction::RunSpecificMacro("b".into())));
    assert!(!actions_equal(&HotkeyAction::RunMacro, &HotkeyAction::StopLoop));
}

#[test]
fn clearing_right_after_assigning_leaves_the_rest() {
    let mut v = vec![binding(HotkeyAction::Undo, 0, "Z"), binding(HotkeyAction::Redo, 0, "Y")];
    assign_combo(&mut v, HotkeyAction::RunMacro, combo(0, "F5"));
    clear_action(&mut v, &HotkeyAction::RunMacro);
    assert_eq!(summary(&v), vec![(HotkeyAction::Undo, 0, "Z".into()), (HotkeyAction::Redo, 0, "Y".into())]);
}

#[test]
fn port_text_is_trimmed_and_range_checked() {
    assert_eq!(parse_port(" 8080 "), Some(8080));
    assert_eq!(parse_port("+80"), Some(80));
    assert_eq!(parse_port("65535"), Some(65535));
    assert_eq!(parse_port("65536"), None);
    assert_eq!(parse_port("-1"), None);
    assert_eq!(parse_port(""), None);
    assert_eq!(parse_port("80a"), None);
}

#[test]
fn typed_port_is_saved_and_starts_the_server() {
    let mut ipc = IpcSettings { port_text: "1".into(), port_invalid: false, active_port: None };
    assert_eq!(ipc.set_ipc_port_text("abc".into()), None);
    assert!(ipc.port_invalid);
    assert_eq!(ipc.start_ipc_server(), None);
    assert_eq!(ipc.set_ipc_port_text(" 9000".into()), Some(9000));
    assert!(!ipc.port_invalid);
    assert_eq!(ipc.port_text, " 9000");
    assert_eq!(ipc.start_ipc_server(), Some(9000));
    assert_eq!(ipc.active_port, Some(9000));
    // Already running: nothing new starts.
    assert_eq!(ipc.start_ipc_server(), None);
    ipc.stop_ipc_server();
    assert_eq!(ipc.active_port, None);
}

#[test]
fn startup_defaults_and_selection_restore() {
    let saved = SavedSettings {
        loop_mode_enabled: None,
        ipc_auto_start: None,
        close_to_tray: None,
        record_mouse_relative: None,
        record_mouse_movement: None,
        ipc_port: None,
        selected_macro_id: Some("b".into()),
    };
    let ids = vec!["a".to_string(), "b".to_string()];
    let s = startup_state(&saved, &ids);
    assert!(!s.loop_mode_enabled && !s.ipc_auto_start && !s.close_to_tray && !s.record_mouse_movement);
    assert!(s.record_mouse_relative);
    assert_eq!(s.ipc.port_text, DEFAULT_IPC_PORT.to_string());
    assert_eq!(s.ipc.port_text, "47821");
    assert_eq!(s.ipc.active_port, None);
    assert_eq!(s.macro_selected, Some(1));
}

#[test]
fn startup_auto_starts_the_server_on_the_saved_port() {
    let saved = SavedSettings {
        loop_mode_enabled: Some(true),
        ipc_auto_start: Some(true),
        close_to_tray: Some(true),
        record_mouse_relative: Some(false),
        record_mouse_movement: Some(true),
        ipc_port: Some(1234),
        selected_macro_id: Some("gone".into()),
    };
    let s = startup_state(&saved, &vec!["a".to_string()]);
    assert!(s.loop_mode_enabled && s.ipc_auto_start && s.close_to_tray && s.record_mouse_movement);
    assert!(!s.record_mouse_relative);
    assert_eq!(s.ipc.port_text, "1234");
    assert_eq!(s.ipc.active_port, Some(1234));
    assert_eq!(s.macro_selected, None);
}
