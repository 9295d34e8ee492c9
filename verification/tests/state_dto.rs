use blockwork::instruction::{Instruction, InstructionKind, Strand};
use blockwork::macros::{Comment, Macro};
use blockwork::state::{ComboCapture, KeyCaptureTarget, Page, RecordingPhase, UpdateCheckState};
use blockwork::state_dto::{macro_to_dto, state_to_dto, StateSnapshot};

fn snapshot(current: Option<Macro>, macros: Vec<Macro>) -> StateSnapshot {
    StateSnapshot {
        macro_names: macros.iter().map(|m| m.name.clone()).collect(),
        macro_selected: Some(0),
        current_macro: current,
        macros,
        loop_mode_enabled: true,
        is_looping: false,
        ipc_active_port: Some(47821),
        ipc_auto_start: false,
        close_to_tray: true,
        confirm_clear_instructions: false,
        clear_confirm_remaining_secs: 0,
        key_capture: Some(KeyCaptureTarget::Standalone),
        standalone_key: Some("F5".into()),
        can_undo: true,
        can_redo: false,
        recording_phase: RecordingPhase::Countdown(2),
        record_mouse_relative: true,
        record_mouse_movement: false,
        absolute_mouse_position_available: false,
        wayland_session: true,
        page: Page::Settings,
        combo_capture: Some(ComboCapture::Pending),
        ipc_port_text: "47821".into(),
        ipc_port_invalid: false,
        emulator_available: true,
        grab_available: true,
        razer_permission_warning: false,
        update_check_state: UpdateCheckState::UpdateAvailable("1.2.3".into()),
    }
}

fn sample_macro() -> Macro {
    let mut mac = Macro::new("First".into(), "d".into(), vec![]);
    mac.comments.push(Comment { id: "c".into(), x: 1, y: 2, text: "note".into(), attached_to: None, collapsed: true });
    mac
}

#[test]
fn the_snapshot_carries_every_macro_and_switch() {
    let mac = sample_macro();
    let id = mac.id.clone();
    let dto = state_to_dto(&snapshot(Some(sample_macro()), vec![mac])).unwrap();
    assert_eq!(dto.macro_names, vec!["First".to_string()]);
    assert_eq!(dto.macros_data.len(), 1);
    assert_eq!(dto.macros_data[0].id, id);
    assert_eq!(dto.macros_data[0].comments[0].text, "note");
    assert_eq!(dto.macros_data[0].strands.len(), 1);
    assert_eq!(dto.macros_data[0].recording_target_strand_id, Some(dto.macros_data[0].strands[0].id.clone()));
    assert!(dto.current_macro.is_some());
    assert_eq!(dto.page, "Settings");
    assert_eq!(dto.recording_phase.phase, "Countdown");
    assert_eq!(dto.recording_phase.countdown, Some(2));
    assert_eq!(dto.update_check_state.state, "UpdateAvailable");
    assert_eq!(dto.update_check_state.version.as_deref(), Some("1.2.3"));
    assert_eq!(dto.key_capture.unwrap().kind, "Standalone");
    assert_eq!(dto.combo_capture.unwrap().kind, "Pending");
    assert_eq!(dto.ipc_active_port, Some(47821));
    assert_eq!(dto.standalone_key.as_deref(), Some("F5"));
    assert!(dto.loop_mode_enabled && dto.close_to_tray && dto.can_undo && dto.wayland_session);
}

#[test]
fn a_macro_with_a_block_the_ui_cannot_show_fails_the_snapshot() {
    let mut mac = sample_macro();
    mac.strands.push(Strand {
        id: "s".into(),
        x: 0,
        y: 0,
        instructions: vec![Instruction { id: "l".into(), kind: InstructionKind::ReverseList { name: "q".into() } }],
    });
    assert!(macro_to_dto(&mac).is_none());
    assert!(state_to_dto(&snapshot(None, vec![mac])).is_none());
}
