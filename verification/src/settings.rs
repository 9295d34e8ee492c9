//! The editor's saved switches: what a session starts with, given the
//! settings saved by the last one, and the local control server's port as
//! typed into the settings page.

use vstd::prelude::*;
use crate::hotkeys::{find_index, index_of};
use crate::protocol::strings_view;
use crate::text::{
    chars_of, decimal, is_whitespace, lemma_decimal_digits, lemma_parse_decimal, parse_usize, parse_usize_spec,
    push_decimal, string_of_range, trim, trim_end, trim_range, trim_start,
};

verus! {

/// The port the local control server listens on until another is set.
pub const DEFAULT_IPC_PORT: u16 = 47821;

/// The port a typed text names, as `str::trim` then `u16::from_str` read
/// it: `None` when the trimmed text is not a number from 0 to 65535.
pub open spec fn port_of_text(t: Seq<char>) -> Option<u16> {
    match parse_usize_spec(trim(t)) {
        Some(n) => if n <= u16::MAX {
            Some(n as u16)
        } else {
            None
        },
        None => None,
    }
}

/// Reads the port a typed text names (see [`port_of_text`]).
pub fn parse_port(text: &str) -> (r: Option<u16>)
    ensures
        r == port_of_text(text@),
{
    let cs = chars_of(text);
    let (lo, hi) = trim_range(&cs, 0, cs.len());
    assert(cs@.subrange(0, cs@.len() as int) =~= text@);
    let trimmed = string_of_range(&cs, lo, hi);
    match parse_usize(trimmed.as_str()) {
        Some(n) => if n <= 65535 {
            Some(n as u16)
        } else {
            None
        },
        None => None,
    }
}

/// A decimal spelling has nothing for `str::trim` to remove.
proof fn lemma_trim_decimal(n: nat)
    ensures
        trim(decimal(n)) == decimal(n),
{
    lemma_decimal_digits(n);
    let d = decimal(n);
    assert(!is_whitespace(d[0]));
    assert(trim_start(d) == d);
    assert(!is_whitespace(d.last()));
    assert(trim_end(d) == d);
}

/// The decimal spelling of a port names that port.
pub proof fn lemma_port_text_round_trip(port: u16)
    ensures
        port_of_text(decimal(port as nat)) == Some(port),
{
    lemma_trim_decimal(port as nat);
    lemma_parse_decimal(port as usize);
}

/// The local control server's settings-page state: the port as typed,
/// whether that text is not a port, and the port the server listens on
/// while it runs.
pub struct IpcSettings {
    pub port_text: String,
    pub port_invalid: bool,
    pub active_port: Option<u16>,
}

/// The state after the port text `text` was typed.
pub open spec fn with_port_text(s: IpcSettings, text: String) -> IpcSettings {
    IpcSettings { port_text: text, port_invalid: port_of_text(text@) is None, active_port: s.active_port }
}

/// The state after the server was asked to start: it starts on the typed
/// port when it is not running and the text names a port.
pub open spec fn server_started(s: IpcSettings) -> IpcSettings {
    if s.active_port is None && port_of_text(s.port_text@) is Some {
        IpcSettings { active_port: port_of_text(s.port_text@), ..s }
    } else {
        s
    }
}

impl IpcSettings {
    /// The port text was edited. Returns the port to save, when the text
    /// names one.
    pub fn set_ipc_port_text(&mut self, text: String) -> (save: Option<u16>)
        ensures
            save == port_of_text(text@),
            *final(self) == with_port_text(*old(self), text),
    {
        let port = parse_port(text.as_str());
        self.port_invalid = port.is_none();
        self.port_text = text;
        port
    }

    /// The server was asked to start. Returns the port to start it on, when
    /// it is not running yet and the typed text names a port.
    pub fn start_ipc_server(&mut self) -> (r: Option<u16>)
        ensures
            *final(self) == server_started(*old(self)),
            r == (if old(self).active_port is None {
                port_of_text(old(self).port_text@)
            } else {
                None
            }),
    {
        if self.active_port.is_some() {
            return None;
        }
        match parse_port(self.port_text.as_str()) {
            Some(port) => {
                self.active_port = Some(port);
                Some(port)
            },
            None => None,
        }
    }

    /// The server was stopped.
    pub fn stop_ipc_server(&mut self)
        ensures
            final(self).active_port is None,
            final(self).port_text == old(self).port_text,
            final(self).port_invalid == old(self).port_invalid,
    {
        self.active_port = None;
    }
}

/// A port typed in while the server is stopped is the port the server then
/// starts on.
pub proof fn lemma_typed_port_starts_server(s: IpcSettings, text: String, port: u16)
    requires
        s.active_port is None,
        port_of_text(text@) == Some(port),
    ensures
        server_started(with_port_text(s, text)).active_port == Some(port),
        !with_port_text(s, text).port_invalid,
{
}

/// The settings the last session saved, each absent until first set.
pub struct SavedSettings {
    pub loop_mode_enabled: Option<bool>,
    pub ipc_auto_start: Option<bool>,
    pub close_to_tray: Option<bool>,
    pub record_mouse_relative: Option<bool>,
    pub record_mouse_movement: Option<bool>,
    pub ipc_port: Option<u16>,
    pub selected_macro_id: Option<String>,
}

/// The switches a session starts with.
pub struct StartupState {
    pub loop_mode_enabled: bool,
    pub ipc_auto_start: bool,
    pub close_to_tray: bool,
    pub record_mouse_relative: bool,
    pub record_mouse_movement: bool,
    /// The selected macro: the first saved one with the remembered id.
    pub macro_selected: Option<usize>,
    /// The control server's state; it runs from the start when auto-start
    /// is on.
    pub ipc: IpcSettings,
}

pub open spec fn or_default(b: Option<bool>, d: bool) -> bool {
    match b {
        Some(x) => x,
        None => d,
    }
}

/// The port a session starts with.
pub open spec fn saved_port(s: SavedSettings) -> u16 {
    match s.ipc_port {
        Some(p) => p,
        None => DEFAULT_IPC_PORT,
    }
}

/// The switches a session starts with, given the saved settings and the
/// ids of the saved macros: loop mode, auto-start, close-to-tray and mouse
/// movement recording off and relative mouse recording on unless saved
/// otherwise, the saved port or the default one, and the remembered macro
/// selected when it is still there.
pub fn startup_state(saved: &SavedSettings, macro_ids: &Vec<String>) -> (r: StartupState)
    ensures
        r.loop_mode_enabled == or_default(saved.loop_mode_enabled, false),
        r.ipc_auto_start == or_default(saved.ipc_auto_start, false),
        r.close_to_tray == or_default(saved.close_to_tray, false),
        r.record_mouse_relative == or_default(saved.record_mouse_relative, true),
        r.record_mouse_movement == or_default(saved.record_mouse_movement, false),
        r.ipc.port_text@ == decimal(saved_port(*saved) as nat),
        !r.ipc.port_invalid,
        r.ipc.active_port == (if r.ipc_auto_start {
            Some(saved_port(*saved))
        } else {
            None
        }),
        match saved.selected_macro_id {
            Some(id) => match index_of(strings_view(macro_ids@), id@) {
                Some(i) => r.macro_selected == Some(i as usize),
                None => r.macro_selected is None,
            },
            None => r.macro_selected is None,
        },
{
    let port = match saved.ipc_port {
        Some(p) => p,
        None => DEFAULT_IPC_PORT,
    };
    let mut port_text = String::new();
    push_decimal(&mut port_text, port as usize);
    assert(port_text@ =~= decimal(port as nat));
    let auto_start = match saved.ipc_auto_start {
        Some(b) => b,
        None => false,
    };
    let mut ipc = IpcSettings { port_text, port_invalid: false, active_port: None };
    if auto_start {
        proof {
            lemma_port_text_round_trip(port);
        }
        let started = ipc.start_ipc_server();
        assert(started == Some(port));
    }
    let macro_selected = match &saved.selected_macro_id {
        Some(id) => find_index(macro_ids, id.as_str()),
        None => None,
    };
    StartupState {
        loop_mode_enabled: match saved.loop_mode_enabled {
            Some(b) => b,
            None => false,
        },
        ipc_auto_start: auto_start,
        close_to_tray: match saved.close_to_tray {
            Some(b) => b,
            None => false,
        },
        record_mouse_relative: match saved.record_mouse_relative {
            Some(b) => b,
            None => true,
        },
        record_mouse_movement: match saved.record_mouse_movement {
            Some(b) => b,
            None => false,
        },
        macro_selected,
        ipc,
    }
}

} // verus!
