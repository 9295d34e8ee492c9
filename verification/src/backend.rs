//! Platform questions the input backend answers from what the session
//! environment shows, the shapes its capture callback deals in, and the
//! host-side command line used from inside a Flatpak sandbox.

use vstd::prelude::*;
use std::time::SystemTime;
use crate::state::{Axis, Direction};
use crate::text::string_of;

verus! {

/// What the capture callback decides for one input event.
#[derive(Debug, Clone, Copy, PartialEq, Eq, Structural)]
pub enum CaptureDecision {
    Passthrough,
    Suppress,
}

/// When a captured event happened.
#[derive(Clone, Copy)]
pub enum CaptureTimestamp {
    /// No better timestamp than "right now".
    Now,
    /// A kernel- or OS-supplied hardware timestamp; only meaningful as a
    /// delta against another one from the same backend and session.
    Hardware(SystemTime),
}

/// A session talks to a Wayland compositor when either `WAYLAND_DISPLAY`
/// or `WAYLAND_SOCKET` is set.
pub fn is_wayland_session(wayland_display_set: bool, wayland_socket_set: bool) -> (r: bool)
    ensures
        r == (wayland_display_set || wayland_socket_set),
{
    wayland_display_set || wayland_socket_set
}

/// An absolute cursor position can be had on Wayland, where it is tracked,
/// or where an X server answers cursor queries.
pub fn absolute_mouse_position_source_available(wayland_session: bool, x11_available: bool) -> (r: bool)
    ensures
        r == (wayland_session || x11_available),
{
    wayland_session || x11_available
}

/// The command line that runs `program`: through `flatpak-spawn --host`
/// when sandboxed, so it runs on the host, or directly otherwise.
pub fn host_command_line(program: &str, sandboxed: bool) -> (r: Vec<String>)
    ensures
        sandboxed ==> r@.len() == 3 && r@[0]@ == "flatpak-spawn"@ && r@[1]@ == "--host"@ && r@[2]@ == program@,
        !sandboxed ==> r@.len() == 1 && r@[0]@ == program@,
{
    let mut r: Vec<String> = Vec::new();
    if sandboxed {
        r.push(string_of("flatpak-spawn"));
        r.push(string_of("--host"));
    }
    r.push(string_of(program));
    r
}

/// What a platform's input backend does for playback. Keys and buttons are
/// named as the editor names them.
pub trait InputBackend {
    fn key(&mut self, key: &str, dir: Direction) -> Result<(), String>;

    fn raw_keycode(&mut self, keycode: u16, dir: Direction) -> Result<(), String>;

    fn button(&mut self, button: &str, dir: Direction) -> Result<(), String>;

    fn move_mouse_rel(&mut self, dx: i32, dy: i32) -> Result<(), String>;

    fn move_mouse_abs(&mut self, x: i32, y: i32) -> Result<(), String>;

    fn scroll(&mut self, amount: i32, axis: Axis) -> Result<(), String>;

    fn text(&mut self, s: &str) -> Result<(), String>;

    fn cursor_pos(&self) -> Option<(i32, i32)>;

    /// Called when absolute recording starts, so `cursor_pos` is exact for
    /// it; only Wayland has work to do here.
    fn anchor_cursor(&mut self) -> (r: Option<(i32, i32)>)
        default_ensures
            call_ensures(Self::cursor_pos, (&*old(self),), r),
    {
        self.cursor_pos()
    }

    /// Requests any platform permission absolute movement needs.
    fn ensure_absolute_mouse_support(&mut self) -> (r: Result<(), String>)
        default_ensures
            r == Ok::<(), String>(()),
    {
        Ok(())
    }
}


/// Called the instant a hotkey combo matches, before its action runs. Only
/// the Windows backend snapshots state at that moment (the foreground
/// window to type into); on this platform there is nothing to do.
pub fn note_hotkey_matched() {
}

/// Feeds a key event seen by the app's own focused window into the hotkey
/// pipeline. Only Windows needs this (its low-level hook is starved while
/// the app's window has focus); elsewhere the key is never suppressed.
pub fn dispatch_from_focused_window(vk: u16, pressed: bool) -> (suppress: bool)
    ensures
        !suppress,
{
    false
}

} // verus!
