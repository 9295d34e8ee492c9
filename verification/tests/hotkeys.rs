use blockwork::hotkeys::{find_index, HotkeyEffect, HotkeyState, RunTarget};
use blockwork::state::{HotkeyAction, RecordingPhase};

fn state() -> HotkeyState {
    HotkeyState {
        has_emulator: true,
        has_current_macro: true,
        macro_selected: Some(0),
        loop_mode_enabled: false,
        is_looping: false,
        recording_phase: RecordingPhase::Idle,
        recording_generation: 7,
    }
}

fn ids(list: &[&str]) -> Vec<String> {
    list.iter().map(|s| s.to_string()).collect()
}

#[test]
fn next_and_previous_macro_wrap_around() {
    let saved = ids(&["a", "b", "c"]);
    let mut s = state();
    assert_eq!(s.handle(&HotkeyAction::NextMacro, &saved, Some("c")), HotkeyEffect::Selected(0));
    assert_eq!(s.macro_selected, Some(0));
    assert_eq!(s.handle(&HotkeyAction::PrevMacro, &saved, Some("a")), HotkeyEffect::Selected(2));
    assert_eq!(s.handle(&HotkeyAction::NextMacro, &saved, Some("a")), HotkeyEffect::Selected(1));
    assert_eq!(s.handle(&HotkeyAction::NextMacro, &saved, Some("missing")), HotkeyEffect::Selected(1));
    assert_eq!(s.handle(&HotkeyAction::NextMacro, &saved, None), HotkeyEffect::Selected(1));
    let before = s.clone();
    assert_eq!(s.handle(&HotkeyAction::PrevMacro, &vec![], Some("a")), HotkeyEffect::Nothing);
    assert_eq!(s, before);
}

#[test]
fn previous_undoes_next() {
    let saved = ids(&["x", "y", "z", "w"]);
    for start in ["x", "y", "z", "w"] {
        let mut s = state();
        let HotkeyEffect::Selected(n) = s.handle(&HotkeyAction::NextMacro, &saved, Some(start)) else { panic!() };
        let HotkeyEffect::Selected(back) = s.handle(&HotkeyAction::PrevMacro, &saved, Some(&saved[n])) else { panic!() };
        assert_eq!(saved[back], start);
    }
}

#[test]
fn run_hotkeys_need_a_backend_and_a_macro() {
    let saved = ids(&["a", "b"]);
    let mut s = state();
    assert_eq!(s.handle(&HotkeyAction::RunMacro, &saved, None), HotkeyEffect::Run(RunTarget::Current));
    assert!(s.is_looping);
    assert_eq!(
        s.handle(&HotkeyAction::RunSpecificMacro("b".into()), &saved, None),
        HotkeyEffect::Run(RunTarget::Saved(1))
    );
    assert_eq!(s.handle(&HotkeyAction::RunSpecificMacro("zz".into()), &saved, None), HotkeyEffect::Nothing);
    let mut no_backend = HotkeyState { has_emulator: false, ..state() };
    assert_eq!(no_backend.handle(&HotkeyAction::RunMacro, &saved, None), HotkeyEffect::Nothing);
    assert!(!no_backend.is_looping);
}

#[test]
fn stop_toggle_and_recording_hotkeys() {
    let saved = ids(&["a"]);
    let mut s = state();
    s.is_looping = true;
    assert_eq!(s.handle(&HotkeyAction::StopLoop, &saved, None), HotkeyEffect::StopAllRuns);
    assert!(!s.is_looping);
    assert_eq!(s.handle(&HotkeyAction::ToggleLoop, &saved, None), HotkeyEffect::LoopModeSaved(true));
    assert_eq!(s.handle(&HotkeyAction::ToggleLoop, &saved, None), HotkeyEffect::LoopModeSaved(false));
    assert_eq!(s.handle(&HotkeyAction::StartRecordingImmediate, &saved, None), HotkeyEffect::RecordingStarted);
    assert_eq!((s.recording_phase.clone(), s.recording_generation), (RecordingPhase::Active, 8));
    let mut wrap = HotkeyState { recording_generation: u64::MAX, ..state() };
    wrap.handle(&HotkeyAction::StartRecordingImmediate, &saved, None);
    assert_eq!(wrap.recording_generation, 0);
    let mut none = HotkeyState { has_current_macro: false, ..state() };
    assert_eq!(none.handle(&HotkeyAction::StartRecordingImmediate, &saved, None), HotkeyEffect::Nothing);
    assert_eq!(s.handle(&HotkeyAction::StopRecording, &saved, None), HotkeyEffect::Nothing);
    assert_eq!(s.handle(&HotkeyAction::Undo, &saved, None), HotkeyEffect::Undo);
    assert_eq!(s.handle(&HotkeyAction::Redo, &saved, None), HotkeyEffect::Redo);
}

#[test]
fn the_first_matching_id_is_found() {
    let saved = ids(&["a", "b", "a"]);
    assert_eq!(find_index(&saved, "a"), Some(0));
    assert_eq!(find_index(&saved, "b"), Some(1));
    assert_eq!(find_index(&saved, "c"), None);
}
