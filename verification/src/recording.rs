//! The timed switches of the editor: the three-second countdown before
//! recording starts, stopping a recording (and appending what it captured
//! to the macro), and the clear-all button that only clears when pressed a
//! second time within three seconds. The host runs the one-second timers
//! and hands each tick back with the generation it was started for; a tick
//! from a timer that was superseded changes nothing.

use vstd::prelude::*;
use crate::instruction::{Instruction, Strand};
use crate::macros::{Macro, target_index};
use crate::state::RecordingPhase;

verus! {

/// The generation after `g`, wrapping at the top of the range.
pub open spec fn next_generation(g: u64) -> u64 {
    if g == u64::MAX {
        0
    } else {
        (g + 1) as u64
    }
}

/// How many seconds the recording countdown and the clear confirmation last.
pub const COUNTDOWN_SECS: u8 = 3;

/// Where recording is, and the generation of the countdown timer that may
/// still act on it.
#[derive(Debug, Clone, PartialEq, Eq, Structural)]
pub struct RecordingClock {
    pub phase: RecordingPhase,
    pub generation: u64,
}

/// The clock once a countdown starts.
pub open spec fn started(c: RecordingClock) -> RecordingClock {
    RecordingClock { phase: RecordingPhase::Countdown(COUNTDOWN_SECS), generation: next_generation(c.generation) }
}

/// The clock after a countdown tick for `generation` with `n` seconds left.
pub open spec fn ticked(c: RecordingClock, generation: u64, n: u8) -> RecordingClock {
    if generation != c.generation {
        c
    } else if n == 0 {
        RecordingClock { phase: RecordingPhase::Active, ..c }
    } else {
        RecordingClock { phase: RecordingPhase::Countdown(n), ..c }
    }
}

/// The clock once recording stops.
pub open spec fn stopped(c: RecordingClock) -> RecordingClock {
    RecordingClock { phase: RecordingPhase::Idle, generation: next_generation(c.generation) }
}

/// What a countdown tick did.
#[derive(Debug, Clone, Copy, PartialEq, Eq, Structural)]
pub enum TickOutcome {
    /// The countdown was superseded: the timer stops.
    Superseded,
    /// One second less to go.
    Counting,
    /// Recording is live: reset its timing, seed the mouse position and
    /// raise the recording flag. The timer stops.
    Started,
}

impl RecordingClock {
    /// Starts the countdown, when a macro is open. Returns the generation
    /// the countdown timer is to hand back with its ticks.
    pub fn start_recording(&mut self, has_macro: bool) -> (r: Option<u64>)
        ensures
            has_macro ==> *final(self) == started(*old(self)) && r == Some(final(self).generation),
            !has_macro ==> *final(self) == *old(self) && r is None,
    {
        if !has_macro {
            return None;
        }
        self.generation = self.generation.wrapping_add(1);
        self.phase = RecordingPhase::Countdown(COUNTDOWN_SECS);
        Some(self.generation)
    }

    /// A countdown timer of `generation` ticked with `n` seconds left.
    pub fn countdown_tick(&mut self, generation: u64, n: u8) -> (r: TickOutcome)
        ensures
            *final(self) == ticked(*old(self), generation, n),
            r == if generation != old(self).generation {
                TickOutcome::Superseded
            } else if n == 0 {
                TickOutcome::Started
            } else {
                TickOutcome::Counting
            },
    {
        if generation != self.generation {
            return TickOutcome::Superseded;
        }
        if n == 0 {
            self.phase = RecordingPhase::Active;
            TickOutcome::Started
        } else {
            self.phase = RecordingPhase::Countdown(n);
            TickOutcome::Counting
        }
    }

    /// Stops recording, cancelling any countdown still running.
    pub fn stop_recording(&mut self)
        ensures
            *final(self) == stopped(*old(self)),
    {
        self.phase = RecordingPhase::Idle;
        self.generation = self.generation.wrapping_add(1);
    }
}

/// A countdown runs to the end: ticking with the generation it returned,
/// at two, one and no seconds left, makes recording live.
pub proof fn lemma_countdown_goes_live(c: RecordingClock)
    ensures
        ticked(ticked(ticked(started(c), started(c).generation, 2), started(c).generation, 1), started(c).generation, 0).phase
            == RecordingPhase::Active,
{
}

/// Stopping cancels a countdown: a later tick of the timer running before
/// the stop changes nothing.
pub proof fn lemma_stop_cancels_countdown(c: RecordingClock, n: u8)
    ensures
        ticked(stopped(c), c.generation, n) == stopped(c),
{
}

/// Appends freshly recorded `recorded` instructions to the macro's
/// recording target (see [`target_index`]); a macro with no strand gets one
/// at the origin first. Nothing changes when nothing was recorded. Returns
/// whether anything was appended, so that the macro is to be saved.
pub fn append_recording(mac: &mut Macro, recorded: Vec<Instruction>) -> (appended: bool)
    ensures
        appended == (recorded@.len() > 0),
        !appended ==> *final(mac) == *old(mac),
        appended && old(mac).strands@.len() > 0 ==> {
            let k = target_index(old(mac).strands@, old(mac).recording_target);
            &&& final(mac).strands@.len() == old(mac).strands@.len()
            &&& 0 <= k < old(mac).strands@.len()
            &&& final(mac).strands@[k].instructions@ == old(mac).strands@[k].instructions@ + recorded@
            &&& final(mac).strands@[k].id == old(mac).strands@[k].id
            &&& final(mac).strands@[k].x == old(mac).strands@[k].x
            &&& final(mac).strands@[k].y == old(mac).strands@[k].y
            &&& forall|j: int| 0 <= j < old(mac).strands@.len() && j != k ==> #[trigger] final(mac).strands@[j]
                == old(mac).strands@[j]
        },
        appended && old(mac).strands@.len() == 0 ==> final(mac).strands@.len() == 1 && final(mac).strands@[0].x == 0
            && final(mac).strands@[0].y == 0 && final(mac).strands@[0].instructions@ == recorded@,
        final(mac).id == old(mac).id,
        final(mac).name == old(mac).name,
        final(mac).recording_target == old(mac).recording_target,
        final(mac).lists == old(mac).lists,
{
    if recorded.len() == 0 {
        return false;
    }
    let mut recorded = recorded;
    let target: &mut Strand = mac.recording_target_mut();
    target.instructions.append(&mut recorded);
    true
}

/// The clear-all button's confirmation: armed after a first press until
/// its three seconds run out, with the seconds left and the generation of
/// the timer counting them.
#[derive(Debug, Clone, Copy, PartialEq, Eq, Structural)]
pub struct ClearConfirm {
    pub armed: bool,
    pub remaining_secs: u8,
    pub generation: u64,
}

/// What a press of the clear-all button did.
#[derive(Debug, Clone, Copy, PartialEq, Eq, Structural)]
pub enum ClearPress {
    /// The confirmation is armed: start its timer with this generation.
    Armed(u64),
    /// Clear every strand of the open macro (checkpointing for undo first).
    Cleared,
    /// Armed, but no macro is open: nothing to clear.
    NothingOpen,
}

/// The confirmation after a press, and what the press did.
pub open spec fn pressed(c: ClearConfirm, has_macro: bool) -> (ClearConfirm, ClearPress) {
    if !c.armed {
        let g = next_generation(c.generation);
        (ClearConfirm { armed: true, remaining_secs: COUNTDOWN_SECS, generation: g }, ClearPress::Armed(g))
    } else if has_macro {
        (ClearConfirm { armed: false, remaining_secs: 0, ..c }, ClearPress::Cleared)
    } else {
        (c, ClearPress::NothingOpen)
    }
}

/// The confirmation after its timer of `generation` ticked with
/// `remaining` seconds left before the tick.
pub open spec fn confirm_ticked(c: ClearConfirm, generation: u64, remaining: u8) -> ClearConfirm
    recommends
        remaining >= 1,
{
    if generation != c.generation {
        c
    } else {
        ClearConfirm {
            armed: if remaining == 1 {
                false
            } else {
                c.armed
            },
            remaining_secs: (remaining - 1) as u8,
            ..c
        }
    }
}

impl ClearConfirm {
    /// The clear-all button was pressed.
    pub fn press(&mut self, has_macro: bool) -> (r: ClearPress)
        ensures
            (*final(self), r) == pressed(*old(self), has_macro),
    {
        if !self.armed {
            self.armed = true;
            self.remaining_secs = COUNTDOWN_SECS;
            self.generation = self.generation.wrapping_add(1);
            ClearPress::Armed(self.generation)
        } else if has_macro {
            self.armed = false;
            self.remaining_secs = 0;
            ClearPress::Cleared
        } else {
            ClearPress::NothingOpen
        }
    }

    /// The confirmation timer of `generation` ticked, `remaining` seconds
    /// having been left before the tick. Returns whether the timer is still
    /// the current one; a superseded timer stops.
    pub fn tick(&mut self, generation: u64, remaining: u8) -> (current: bool)
        requires
            remaining >= 1,
        ensures
            *final(self) == confirm_ticked(*old(self), generation, remaining),
            current == (generation == old(self).generation),
    {
        if generation != self.generation {
            return false;
        }
        self.remaining_secs = remaining - 1;
        if remaining == 1 {
            self.armed = false;
        }
        true
    }
}

/// A second press while the confirmation is armed clears the open macro.
pub proof fn lemma_second_press_clears(c: ClearConfirm)
    ensures
        pressed(pressed(c, true).0, true).1 == (if c.armed {
            ClearPress::Armed(next_generation(c.generation))
        } else {
            ClearPress::Cleared
        }),
{
}

/// Once the confirmation's three seconds have run out, a press arms it
/// again instead of clearing.
pub proof fn lemma_expired_confirmation_rearms(c: ClearConfirm)
    requires
        !c.armed,
    ensures
        ({
            let armed = pressed(c, true).0;
            let g = armed.generation;
            let expired = confirm_ticked(confirm_ticked(confirm_ticked(armed, g, 3), g, 2), g, 1);
            &&& !expired.armed
            &&& expired.remaining_secs == 0
            &&& pressed(expired, true).1 == ClearPress::Armed(next_generation(g))
        }),
{
}

/// What switching mouse recording between relative and absolute moves
/// takes.
#[derive(Debug, PartialEq, Eq)]
pub enum MouseModeStep {
    /// Absolute moves cannot be recorded in this session: the error to
    /// answer with, nothing changes.
    Refused(String),
    /// Absolute positions need the input backend's permission first; the
    /// switch is applied once it is granted.
    NeedsPermission,
    /// The switch can be applied right away.
    Apply,
}

/// The message a switch to absolute recording is refused with.
pub open spec fn absolute_unavailable_message() -> Seq<char> {
    "Absolute mouse recording isn't available in this session."@
}

/// Decides a switch of mouse recording to relative (`relative`) or to
/// absolute moves, given whether the session has a source of absolute
/// positions at all and whether reading them is already allowed.
pub fn mouse_mode_step(relative: bool, absolute_source_available: bool, absolute_position_available: bool) -> (r: MouseModeStep)
    ensures
        r matches MouseModeStep::Refused(m) <==> !relative && !absolute_source_available,
        r matches MouseModeStep::Refused(m) ==> m@ == absolute_unavailable_message(),
        r is NeedsPermission <==> !relative && absolute_source_available && !absolute_position_available,
        r is Apply <==> relative || (absolute_source_available && absolute_position_available),
{
    if !relative && !absolute_source_available {
        return MouseModeStep::Refused(crate::text::string_of("Absolute mouse recording isn't available in this session."));
    }
    if !relative && !absolute_position_available {
        return MouseModeStep::NeedsPermission;
    }
    MouseModeStep::Apply
}

} // verus!
