use blockwork::capture::{
    heartbeat_step, key_event, usable_device, Captured, FrameAccumulator, HeartbeatStep, EV_KEY, EV_REL, EV_SYN,
    REL_HWHEEL, REL_WHEEL, REL_X, REL_Y,
};
use blockwork::instruction::{Instruction, InstructionKind, Strand};
use blockwork::macros::Macro;
use blockwork::recording::{
    append_recording, mouse_mode_step, ClearConfirm, ClearPress, MouseModeStep, RecordingClock, TickOutcome,
};
use blockwork::state::RecordingPhase;

#[test]
fn recording_counts_down_then_goes_live() {
    let mut c = RecordingClock { phase: RecordingPhase::Idle, generation: 7 };
    assert_eq!(c.start_recording(false), None);
    let g = c.start_recording(true).unwrap();
    assert_eq!(g, 8);
    assert_eq!(c.phase, RecordingPhase::Countdown(3));
    assert_eq!(c.countdown_tick(g, 2), TickOutcome::Counting);
    assert_eq!(c.phase, RecordingPhase::Countdown(2));
    assert_eq!(c.countdown_tick(g, 1), TickOutcome::Counting);
    assert_eq!(c.countdown_tick(g, 0), TickOutcome::Started);
    assert_eq!(c.phase, RecordingPhase::Active);
}

#[test]
fn stopping_cancels_a_running_countdown() {
    let mut c = RecordingClock { phase: RecordingPhase::Idle, generation: u64::MAX };
    let g = c.start_recording(true).unwrap();
    assert_eq!(g, 0);
    c.stop_recording();
    assert_eq!(c.phase, RecordingPhase::Idle);
    assert_eq!(c.countdown_tick(g, 0), TickOutcome::Superseded);
    assert_eq!(c.phase, RecordingPhase::Idle);
}

#[test]
fn clear_needs_a_second_press_within_the_window() {
    let mut c = ClearConfirm { armed: false, remaining_secs: 0, generation: 0 };
    assert_eq!(c.press(true), ClearPress::Armed(1));
    assert!(c.armed);
    assert_eq!(c.remaining_secs, 3);
    assert!(c.tick(1, 3));
    assert_eq!(c.remaining_secs, 2);
    assert_eq!(c.press(true), ClearPress::Cleared);
    assert!(!c.armed);
    assert_eq!(c.remaining_secs, 0);
    // The old timer is stale now.
    assert_eq!(c.press(true), ClearPress::Armed(2));
    assert!(!c.tick(1, 2));
}

#[test]
fn clear_confirmation_expires() {
    let mut c = ClearConfirm { armed: false, remaining_secs: 0, generation: 4 };
    let ClearPress::Armed(g) = c.press(true) else { panic!("not armed") };
    assert!(c.tick(g, 3) && c.tick(g, 2) && c.tick(g, 1));
    assert!(!c.armed);
    assert_eq!(c.press(true), ClearPress::Armed(g + 1));
    assert_eq!(c.press(false), ClearPress::NothingOpen);
    assert!(c.armed);
}

fn ins(id: &str, kind: InstructionKind) -> Instruction {
    Instruction { id: id.into(), kind }
}

#[test]
fn recorded_steps_go_to_the_recording_target() {
    let mut mac = Macro::new("R".into(), String::new(), vec![]);
    mac.strands.push(Strand { id: "side".into(), x: 5, y: 5, instructions: vec![] });
    mac.recording_target = Some("side".into());
    assert!(!append_recording(&mut mac, vec![]));
    assert!(mac.strands[1].instructions.is_empty());
    assert!(append_recording(&mut mac, vec![ins("a", InstructionKind::EscapeLoop), ins("b", InstructionKind::ContinueLoop)]));
    let ids: Vec<&str> = mac.strands[1].instructions.iter().map(|i| i.id.as_str()).collect();
    assert_eq!(ids, vec!["a", "b"]);
    assert_eq!(mac.strands[0].instructions.len(), 1);
}

#[test]
fn recording_into_an_empty_macro_creates_a_strand() {
    let mut mac = Macro::new("R".into(), String::new(), vec![]);
    mac.strands.clear();
    assert!(append_recording(&mut mac, vec![ins("a", InstructionKind::EscapeLoop)]));
    assert_eq!(mac.strands.len(), 1);
    assert_eq!((mac.strands[0].x, mac.strands[0].y), (0, 0));
    assert_eq!(mac.strands[0].instructions.len(), 1);
}

#[test]
fn devices_are_filtered() {
    assert!(usable_device("Keyboard", false, false, true, false));
    assert!(usable_device("Mouse", false, false, false, true));
    assert!(!usable_device("macros-input", false, false, true, true));
    assert!(!usable_device("Touchpad", true, false, true, true));
    assert!(!usable_device("Tablet", false, true, true, true));
    assert!(!usable_device("Power button", false, false, false, false));
}

#[test]
fn key_events_become_edges() {
    assert_eq!(key_event(30, 1), Some(Captured::KeyPress(30)));
    assert_eq!(key_event(30, 0), Some(Captured::KeyRelease(30)));
    assert_eq!(key_event(30, 2), None);
    assert_eq!(key_event(0x110, 1), Some(Captured::ButtonPress(0x110)));
    assert_eq!(key_event(0x110, 0), Some(Captured::ButtonRelease(0x110)));
}

#[test]
fn motion_and_wheel_are_summed_per_frame() {
    let mut a = FrameAccumulator::new();
    assert!(a.handle(EV_REL, REL_X, 3).is_empty());
    assert!(a.handle(EV_REL, REL_X, 4).is_empty());
    assert!(a.handle(EV_REL, REL_Y, -2).is_empty());
    assert!(a.handle(EV_REL, REL_WHEEL, 1).is_empty());
    assert!(a.handle(EV_REL, REL_HWHEEL, -1).is_empty());
    assert!(a.handle(EV_REL, 99, 5).is_empty());
    assert_eq!(
        a.handle(EV_SYN, 0, 0),
        vec![Captured::MouseMoveRel(7, -2), Captured::Scroll(0, 1), Captured::Scroll(-1, 0)]
    );
    assert!(a.handle(EV_SYN, 0, 0).is_empty());
    assert_eq!(a.handle(EV_KEY, 30, 1), vec![Captured::KeyPress(30)]);
    assert!(a.handle(4, 0, 0).is_empty());
}

#[test]
fn accumulation_that_would_overflow_is_reported() {
    let mut a = FrameAccumulator::new();
    a.relative_event(REL_X, i32::MAX);
    assert!(!a.fits(REL_X, 1));
    assert!(a.fits(REL_Y, 1));
    assert!(a.fits(99, i32::MAX));
}

#[test]
fn heartbeat_watchdog_gives_up_after_the_timeout() {
    assert_eq!(heartbeat_step(1, 2, 10_000), HeartbeatStep::Changed(2));
    assert_eq!(heartbeat_step(2, 2, 4_999), HeartbeatStep::Waiting);
    assert_eq!(heartbeat_step(2, 2, 5_000), HeartbeatStep::Stale);
}

#[test]
fn switching_to_absolute_moves_needs_a_source_and_permission() {
    assert_eq!(mouse_mode_step(true, false, false), MouseModeStep::Apply);
    assert_eq!(
        mouse_mode_step(false, false, false),
        MouseModeStep::Refused("Absolute mouse recording isn't available in this session.".into())
    );
    assert_eq!(mouse_mode_step(false, true, false), MouseModeStep::NeedsPermission);
    assert_eq!(mouse_mode_step(false, true, true), MouseModeStep::Apply);
}
