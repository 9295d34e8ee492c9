use blockwork::instruction::{Instruction, InstructionKind};
use blockwork::macros::Macro;
use blockwork::time_watch::{listens, time_tick, FiredOn, TimeCandidate};

fn cand(m: &str, s: &str, listening: bool, due: bool) -> TimeCandidate {
    TimeCandidate { macro_id: m.into(), strand_id: s.into(), listening, due }
}

fn keys(fired: &[FiredOn]) -> Vec<(String, String, i64)> {
    fired.iter().map(|f| (f.macro_id.clone(), f.strand_id.clone(), f.day)).collect()
}

#[test]
fn a_due_strand_fires_once_per_day() {
    let first = time_tick(&vec![], &vec![cand("m", "s", true, true)], 100);
    assert_eq!(first.fire, vec![true]);
    assert_eq!(keys(&first.fired), vec![("m".to_string(), "s".to_string(), 100)]);
    let second = time_tick(&first.fired, &vec![cand("m", "s", true, true)], 100);
    assert_eq!(second.fire, vec![false]);
    assert_eq!(keys(&second.fired), vec![("m".to_string(), "s".to_string(), 100)]);
}

#[test]
fn the_next_day_fires_again() {
    let first = time_tick(&vec![], &vec![cand("m", "s", true, true)], 100);
    let next_day = time_tick(&first.fired, &vec![cand("m", "s", true, true)], 101);
    assert_eq!(next_day.fire, vec![true]);
    assert_eq!(keys(&next_day.fired), vec![("m".to_string(), "s".to_string(), 101)]);
}

#[test]
fn strands_of_unlistened_macros_never_fire_and_are_forgotten() {
    let first = time_tick(&vec![], &vec![cand("m", "s", true, true)], 100);
    let quiet = time_tick(&first.fired, &vec![cand("m", "s", false, true)], 100);
    assert_eq!(quiet.fire, vec![false]);
    assert!(quiet.fired.is_empty());
}

#[test]
fn a_strand_that_is_not_due_is_not_remembered() {
    let tick = time_tick(&vec![], &vec![cand("m", "a", true, false), cand("m", "b", true, true)], 7);
    assert_eq!(tick.fire, vec![false, true]);
    assert_eq!(keys(&tick.fired), vec![("m".to_string(), "b".to_string(), 7)]);
}

#[test]
fn the_selected_or_always_listening_macro_is_watched() {
    let mut mac = Macro::new("Test".into(), "".into(), vec![Instruction { id: "w".into(), kind: InstructionKind::Wait(blockwork::value::Value::Bool) }]);
    let id = mac.id.clone();
    assert!(listens(&mac, Some(id.as_str())));
    assert!(!listens(&mac, Some("other")));
    assert!(!listens(&mac, None));
    mac.settings.always_listen = true;
    assert!(listens(&mac, None));
}
