//! The daemon's bookkeeping of connected UIs: one editor window at a time,
//! the UI's remembered `--ozone-platform` choice, and the arguments of a key
//! event forwarded from the UI's focused window.

use vstd::prelude::*;
use vstd::string::*;
use crate::protocol::{ClientMessage, DaemonMessage, DaemonMessageKind, FOCUSED_KEY_EVENT};
use crate::text::{str_eq, string_of};

verus! {

/// Who is connected: the id of the accepted UI connection, if any, and the
/// `--ozone-platform` value to replay when relaunching the UI.
pub struct Clients {
    pub ui: Option<u64>,
    pub ozone_platform: Option<String>,
}

/// The outcome of a UI's `Hello` on connection `id`: whether it is accepted,
/// and who holds the UI slot afterwards. Only one UI may be connected; a
/// later one is turned away while the first stays.
pub open spec fn claim_spec(ui: Option<u64>, id: u64) -> (bool, Option<u64>) {
    match ui {
        Some(existing) => (false, Some(existing)),
        None => (true, Some(id)),
    }
}

/// Who holds the UI slot after connection `id` goes away.
pub open spec fn release_spec(ui: Option<u64>, id: u64) -> Option<u64> {
    if ui == Some(id) {
        None
    } else {
        ui
    }
}

impl Clients {
    /// No UI yet; `ozone_platform` is the daemon's own launch choice.
    pub fn new(ozone_platform: Option<String>) -> (c: Clients)
        ensures
            c.ui is None,
            c.ozone_platform == ozone_platform,
    {
        Clients { ui: None, ozone_platform }
    }

    /// Connection `id` said `Hello`. Returns whether it becomes the UI;
    /// when another UI is already connected the slot is left to it (which
    /// is asked to come to the front) and this one is told to exit.
    pub fn claim_ui(&mut self, id: u64) -> (accepted: bool)
        ensures
            (accepted, final(self).ui) == claim_spec(old(self).ui, id),
            final(self).ozone_platform == old(self).ozone_platform,
    {
        match self.ui {
            Some(_) => false,
            None => {
                self.ui = Some(id);
                true
            },
        }
    }

    /// Connection `id` closed; frees the UI slot if it held it.
    pub fn release_ui(&mut self, id: u64)
        ensures
            final(self).ui == release_spec(old(self).ui, id),
            final(self).ozone_platform == old(self).ozone_platform,
    {
        if self.ui == Some(id) {
            self.ui = None;
        }
    }

    /// Whether a UI is connected (and can be asked to come to the front).
    pub fn has_ui(&self) -> (r: bool)
        ensures
            r == self.ui is Some,
    {
        self.ui.is_some()
    }

    /// Remembers a UI's `--ozone-platform` choice; a UI that made none
    /// leaves the previous choice in place.
    pub fn set_ozone_platform(&mut self, ozone: Option<String>)
        ensures
            final(self).ui == old(self).ui,
            final(self).ozone_platform == (if ozone is Some { ozone } else { old(self).ozone_platform }),
    {
        if ozone.is_some() {
            self.ozone_platform = ozone;
        }
    }

    /// The `--ozone-platform` value to pass to a relaunched UI.
    pub fn ozone_platform(&self) -> (r: Option<String>)
        ensures
            r == self.ozone_platform,
    {
        self.ozone_platform.clone()
    }
}

/// While a UI is connected, no other connection can take its place.
pub proof fn lemma_single_ui(ui: Option<u64>, id: u64)
    requires
        ui is Some,
    ensures
        claim_spec(ui, id) == (false, ui),
{
}

/// Once the connected UI goes away, the next UI to say `Hello` is accepted.
pub proof fn lemma_released_slot_is_reclaimable(owner: u64, next: u64)
    ensures
        claim_spec(release_spec(Some(owner), owner), next) == (true, Some(next)),
{
}

/// A connection that never held the slot cannot free it by closing.
pub proof fn lemma_release_by_other_keeps_ui(owner: u64, other: u64)
    requires
        owner != other,
    ensures
        release_spec(Some(owner), other) == Some(owner),
{
}

/// The message `u16::try_from` fails with when a value does not fit.
pub open spec fn out_of_range_message() -> Seq<char> {
    "out of range integral type conversion attempted"@
}

/// Reads a forwarded focused-window key event's `vk` and `pressed`
/// arguments, as found in the call's JSON object.
pub fn focused_key_args(vk: Option<u64>, pressed: Option<bool>) -> (r: Result<(u16, bool), String>)
    ensures
        vk is None ==> (r matches Err(e) && e@ == "missing vk"@),
        vk is Some && pressed is None ==> (r matches Err(e) && e@ == "missing pressed"@),
        match (vk, pressed) {
            (Some(v), Some(p)) => if v <= u16::MAX {
                r == Ok::<(u16, bool), String>((v as u16, p))
            } else {
                r matches Err(e) && e@ == out_of_range_message()
            },
            _ => true,
        },
{
    let v = match vk {
        Some(v) => v,
        None => return Err(string_of("missing vk")),
    };
    let p = match pressed {
        Some(p) => p,
        None => return Err(string_of("missing pressed")),
    };
    if v <= 0xFFFF {
        Ok((v as u16, p))
    } else {
        Err(string_of("out of range integral type conversion attempted"))
    }
}


/// Something the backend tells whoever hosts it.
pub enum Event {
    /// The full state snapshot, already serialized to JSON, after any change.
    State(String),
    /// "Close to tray" was toggled: the host shows or hides its tray icon.
    CloseToTray(bool),
    /// The app should shut down entirely.
    Quit,
}

/// What the daemon forwards to the connected UI for a backend event: the
/// snapshot as a state message, a quit as a quit message, and nothing for a
/// tray toggle, which only concerns the daemon itself.
pub fn forward_event(event: Event) -> (r: Option<DaemonMessage>)
    ensures
        match event {
            Event::State(json) => r matches Some(m) && m.kind == DaemonMessageKind::State
                && m.payload == Some(json) && m.id is None && m.accepted is None && m.data is None
                && m.error is None,
            Event::Quit => r matches Some(m) && m.kind == DaemonMessageKind::Quit && m.id is None
                && m.accepted is None && m.payload is None && m.data is None && m.error is None,
            Event::CloseToTray(_) => r is None,
        },
{
    match event {
        Event::State(json) => Some(DaemonMessage::state(json)),
        Event::Quit => Some(DaemonMessage::quit()),
        Event::CloseToTray(_) => None,
    }
}

/// What the daemon does with one message from a connected UI.
pub enum ClientAction {
    /// Answer call `id` from the focused-window key hook with `args`.
    FocusedKey { id: u64, args: String },
    /// Run backend command `cmd` with `args` and answer call `id`.
    Dispatch { id: u64, cmd: String, args: String },
    /// Nothing to answer.
    Nothing,
}

impl Clients {
    /// Handles one message from the connected UI: a repeated `Hello` only
    /// updates the remembered `--ozone-platform` choice; a call is routed to
    /// the focused-window key hook or to the backend by its command name.
    pub fn on_client_message(&mut self, msg: ClientMessage) -> (r: ClientAction)
        ensures
            final(self).ui == old(self).ui,
            match msg {
                ClientMessage::Hello { ozone_platform } => r is Nothing
                    && final(self).ozone_platform == (if ozone_platform is Some {
                        ozone_platform
                    } else {
                        old(self).ozone_platform
                    }),
                ClientMessage::Call { id, cmd, args } => final(self).ozone_platform == old(self).ozone_platform
                    && if cmd@ == FOCUSED_KEY_EVENT@ {
                        r == (ClientAction::FocusedKey { id, args })
                    } else {
                        r == (ClientAction::Dispatch { id, cmd, args })
                    },
            },
    {
        match msg {
            ClientMessage::Hello { ozone_platform } => {
                self.set_ozone_platform(ozone_platform);
                ClientAction::Nothing
            },
            ClientMessage::Call { id, cmd, args } => {
                if str_eq(cmd.as_str(), FOCUSED_KEY_EVENT) {
                    ClientAction::FocusedKey { id, args }
                } else {
                    ClientAction::Dispatch { id, cmd, args }
                }
            },
        }
    }
}

} // verus!
