//! What the Linux helper captures from `/dev/input/event*` devices: which
//! devices it reads, how a device's raw events become capture events (key
//! and button edges, relative motion and wheel turns summed over each
//! synchronised frame), and when it gives up on the Windows side.

use vstd::prelude::*;
use crate::text::str_eq;

verus! {

/// The event type of a synchronisation marker.
pub const EV_SYN: u16 = 0;
/// The event type of a key or button edge.
pub const EV_KEY: u16 = 1;
/// The event type of relative motion.
pub const EV_REL: u16 = 2;
/// Relative axes.
pub const REL_X: u16 = 0;
pub const REL_Y: u16 = 1;
pub const REL_HWHEEL: u16 = 6;
pub const REL_WHEEL: u16 = 8;
/// Key codes from here up are buttons.
pub const BTN_MISC: u16 = 0x100;
/// The value of a key event that repeats a held key.
pub const KEY_AUTOREPEAT: i32 = 2;
/// How long the Windows side may leave its heartbeat unchanged.
pub const HEARTBEAT_TIMEOUT_MS: u64 = 5000;

/// Whether a device is read: not the helper's own virtual output device
/// (reading it back would loop), not a touchpad's button pad or a device
/// with an absolute X axis, and one with letter keys, a left button or
/// relative X motion.
pub open spec fn usable_device_spec(name: Seq<char>, is_buttonpad: bool, has_abs_x: bool, has_keys: bool, has_rel_x: bool) -> bool {
    name != "macros-input"@ && !is_buttonpad && !has_abs_x && (has_keys || has_rel_x)
}

/// Whether a device is read (see [`usable_device_spec`]).
pub fn usable_device(name: &str, is_buttonpad: bool, has_abs_x: bool, has_keys: bool, has_rel_x: bool) -> (r: bool)
    ensures
        r == usable_device_spec(name@, is_buttonpad, has_abs_x, has_keys, has_rel_x),
{
    if str_eq(name, "macros-input") {
        return false;
    }
    !is_buttonpad && !has_abs_x && (has_keys || has_rel_x)
}

/// A captured input event. Keys and buttons are given by their raw code,
/// which the host maps to a key or button name (dropping codes with none).
#[derive(Debug, Clone, Copy, PartialEq, Eq, Structural)]
pub enum Captured {
    KeyPress(u16),
    KeyRelease(u16),
    ButtonPress(u16),
    ButtonRelease(u16),
    /// Relative pointer motion.
    MouseMoveRel(i32, i32),
    /// Wheel turns: horizontal, vertical.
    Scroll(i32, i32),
}

/// What a key event with `code` and `value` captures: nothing for an
/// autorepeat, otherwise a press for value 1 and a release for any other
/// value, of a button from [`BTN_MISC`] up and of a key below it.
pub open spec fn key_event_spec(code: u16, value: i32) -> Option<Captured> {
    if value == KEY_AUTOREPEAT {
        None
    } else if code >= BTN_MISC {
        Some(if value == 1 { Captured::ButtonPress(code) } else { Captured::ButtonRelease(code) })
    } else {
        Some(if value == 1 { Captured::KeyPress(code) } else { Captured::KeyRelease(code) })
    }
}

/// What a key event captures (see [`key_event_spec`]).
pub fn key_event(code: u16, value: i32) -> (r: Option<Captured>)
    ensures
        r == key_event_spec(code, value),
{
    if value == KEY_AUTOREPEAT {
        return None;
    }
    let pressed = value == 1;
    if code >= BTN_MISC {
        Some(if pressed { Captured::ButtonPress(code) } else { Captured::ButtonRelease(code) })
    } else {
        Some(if pressed { Captured::KeyPress(code) } else { Captured::KeyRelease(code) })
    }
}

/// Relative motion and wheel turns of the current frame, not yet reported.
#[derive(Debug, Clone, Copy, PartialEq, Eq, Structural)]
pub struct FrameAccumulator {
    pub dx: i32,
    pub dy: i32,
    pub wheel_v: i32,
    pub wheel_h: i32,
}

/// The pending amount that a relative event on `code` adds to, if any.
pub open spec fn axis_total(a: FrameAccumulator, code: u16) -> Option<int> {
    if code == REL_X {
        Some(a.dx as int)
    } else if code == REL_Y {
        Some(a.dy as int)
    } else if code == REL_WHEEL {
        Some(a.wheel_v as int)
    } else if code == REL_HWHEEL {
        Some(a.wheel_h as int)
    } else {
        None
    }
}

/// Whether adding `value` on `code` keeps the pending amount in range.
pub open spec fn fits_spec(a: FrameAccumulator, code: u16, value: i32) -> bool {
    match axis_total(a, code) {
        Some(t) => i32::MIN <= t + value <= i32::MAX,
        None => true,
    }
}

/// The frame after a relative event of `value` on `code`: the matching
/// pending amount grows by `value`; events on other axes change nothing.
pub open spec fn with_relative(a: FrameAccumulator, code: u16, value: i32) -> FrameAccumulator {
    if code == REL_X {
        FrameAccumulator { dx: (a.dx + value) as i32, ..a }
    } else if code == REL_Y {
        FrameAccumulator { dy: (a.dy + value) as i32, ..a }
    } else if code == REL_WHEEL {
        FrameAccumulator { wheel_v: (a.wheel_v + value) as i32, ..a }
    } else if code == REL_HWHEEL {
        FrameAccumulator { wheel_h: (a.wheel_h + value) as i32, ..a }
    } else {
        a
    }
}

/// The events a frame's end reports: the summed motion when either axis
/// moved, then the vertical and the horizontal wheel turns when nonzero.
pub open spec fn frame_events(a: FrameAccumulator) -> Seq<Captured> {
    let m = if a.dx != 0 || a.dy != 0 {
        seq![Captured::MouseMoveRel(a.dx, a.dy)]
    } else {
        Seq::empty()
    };
    let v = if a.wheel_v != 0 {
        seq![Captured::Scroll(0, a.wheel_v)]
    } else {
        Seq::empty()
    };
    let h = if a.wheel_h != 0 {
        seq![Captured::Scroll(a.wheel_h, 0)]
    } else {
        Seq::empty()
    };
    m + v + h
}

impl FrameAccumulator {
    /// Nothing pending.
    pub fn new() -> (r: FrameAccumulator)
        ensures
            r == (FrameAccumulator { dx: 0, dy: 0, wheel_v: 0, wheel_h: 0 }),
    {
        FrameAccumulator { dx: 0, dy: 0, wheel_v: 0, wheel_h: 0 }
    }

    /// Whether a relative event of `value` on `code` can be added.
    pub fn fits(&self, code: u16, value: i32) -> (r: bool)
        ensures
            r == fits_spec(*self, code, value),
    {
        let v = value as i64;
        if code == REL_X {
            i32::MIN as i64 <= self.dx as i64 + v && self.dx as i64 + v <= i32::MAX as i64
        } else if code == REL_Y {
            i32::MIN as i64 <= self.dy as i64 + v && self.dy as i64 + v <= i32::MAX as i64
        } else if code == REL_WHEEL {
            i32::MIN as i64 <= self.wheel_v as i64 + v && self.wheel_v as i64 + v <= i32::MAX as i64
        } else if code == REL_HWHEEL {
            i32::MIN as i64 <= self.wheel_h as i64 + v && self.wheel_h as i64 + v <= i32::MAX as i64
        } else {
            true
        }
    }

    /// Adds a relative event of `value` on `code` to the frame; other axes
    /// are ignored.
    pub fn relative_event(&mut self, code: u16, value: i32)
        requires
            fits_spec(*old(self), code, value),
        ensures
            *final(self) == with_relative(*old(self), code, value),
    {
        if code == REL_X {
            self.dx = self.dx + value;
        } else if code == REL_Y {
            self.dy = self.dy + value;
        } else if code == REL_WHEEL {
            self.wheel_v = self.wheel_v + value;
        } else if code == REL_HWHEEL {
            self.wheel_h = self.wheel_h + value;
        }
    }

    /// The frame ended: reports what it summed (see [`frame_events`]) and
    /// leaves nothing pending.
    pub fn sync(&mut self) -> (r: Vec<Captured>)
        ensures
            r@ == frame_events(*old(self)),
            *final(self) == (FrameAccumulator { dx: 0, dy: 0, wheel_v: 0, wheel_h: 0 }),
    {
        let mut r: Vec<Captured> = Vec::new();
        if self.dx != 0 || self.dy != 0 {
            r.push(Captured::MouseMoveRel(self.dx, self.dy));
        }
        if self.wheel_v != 0 {
            r.push(Captured::Scroll(0, self.wheel_v));
        }
        if self.wheel_h != 0 {
            r.push(Captured::Scroll(self.wheel_h, 0));
        }
        assert(r@ =~= frame_events(*self));
        self.dx = 0;
        self.dy = 0;
        self.wheel_v = 0;
        self.wheel_h = 0;
        r
    }

    /// One raw event of type `event_type`, `code` and `value` from a device:
    /// a key edge is reported at once, relative motion joins the frame, and
    /// a synchronisation marker reports the frame. Other event types are
    /// ignored.
    pub fn handle(&mut self, event_type: u16, code: u16, value: i32) -> (r: Vec<Captured>)
        requires
            event_type == EV_REL ==> fits_spec(*old(self), code, value),
        ensures
            event_type == EV_KEY ==> *final(self) == *old(self) && r@ == match key_event_spec(code, value) {
                Some(e) => seq![e],
                None => Seq::empty(),
            },
            event_type == EV_SYN ==> r@ == frame_events(*old(self)) && *final(self) == (FrameAccumulator {
                dx: 0,
                dy: 0,
                wheel_v: 0,
                wheel_h: 0,
            }),
            event_type == EV_REL ==> r@.len() == 0 && *final(self) == with_relative(*old(self), code, value),
            event_type != EV_KEY && event_type != EV_SYN && event_type != EV_REL ==> r@.len() == 0
                && *final(self) == *old(self),
    {
        if event_type == EV_KEY {
            let mut r: Vec<Captured> = Vec::new();
            match key_event(code, value) {
                Some(e) => r.push(e),
                None => {},
            }
            r
        } else if event_type == EV_REL {
            self.relative_event(code, value);
            Vec::new()
        } else if event_type == EV_SYN {
            self.sync()
        } else {
            Vec::new()
        }
    }
}

/// Motion is reported once per frame, as the sum of the frame's deltas:
/// two horizontal steps and a vertical one in a frame give one move of
/// their sums, and no wheel turn.
pub proof fn lemma_frame_sums_motion(a: i32, b: i32, c: i32)
    requires
        i32::MIN <= a + b <= i32::MAX,
        a + b != 0 || c != 0,
    ensures
        ({
            let zero = FrameAccumulator { dx: 0, dy: 0, wheel_v: 0, wheel_h: 0 };
            let f = with_relative(with_relative(with_relative(zero, REL_X, a), REL_Y, c), REL_X, b);
            frame_events(f) == seq![Captured::MouseMoveRel((a + b) as i32, c)]
        }),
{
    let zero = FrameAccumulator { dx: 0, dy: 0, wheel_v: 0, wheel_h: 0 };
    let f = with_relative(with_relative(with_relative(zero, REL_X, a), REL_Y, c), REL_X, b);
    assert(frame_events(f) =~= seq![Captured::MouseMoveRel((a + b) as i32, c)]);
}

/// What the watchdog concludes from one look at the Windows side's
/// heartbeat counter.
#[derive(Debug, Clone, Copy, PartialEq, Eq, Structural)]
pub enum HeartbeatStep {
    /// The counter moved to this value: restart the stale timer.
    Changed(u32),
    /// Unchanged, but not for long enough to give up.
    Waiting,
    /// Unchanged for the whole timeout: the Windows side is gone, exit.
    Stale,
}

/// One look at the heartbeat: `last_seen` is the value seen before,
/// `current` the value now, and `unchanged_ms` how long ago it last moved.
pub fn heartbeat_step(last_seen: u32, current: u32, unchanged_ms: u64) -> (r: HeartbeatStep)
    ensures
        r == if current != last_seen {
            HeartbeatStep::Changed(current)
        } else if unchanged_ms >= HEARTBEAT_TIMEOUT_MS {
            HeartbeatStep::Stale
        } else {
            HeartbeatStep::Waiting
        },
{
    if current != last_seen {
        HeartbeatStep::Changed(current)
    } else if unchanged_ms >= HEARTBEAT_TIMEOUT_MS {
        HeartbeatStep::Stale
    } else {
        HeartbeatStep::Waiting
    }
}

} // verus!
