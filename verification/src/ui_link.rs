//! The editor UI's side of the daemon connection: whether the daemon let
//! this window stay open, what each daemon message means for the window,
//! and the numbering and size check of outgoing calls.

use vstd::prelude::*;
use crate::protocol::{ozone_platform_arg, ozone_prefix, DaemonMessage, DaemonMessageKind, MAX_MESSAGE_BYTES};
use crate::text::string_of;

verus! {

/// What the connection tells the window.
pub enum Event {
    Connected,
    State(String),
    Error(String),
    Focus,
    Quit,
}

/// The error a rejected handshake ends the connection with.
pub open spec fn already_open_message() -> Seq<char> {
    "another Blockwork window is already open"@
}

/// Checks the daemon's answer to this window's `Hello`: the window may stay
/// only when the answer is a `Hello` that accepts it.
pub fn check_handshake(hello: &DaemonMessage) -> (r: Result<(), String>)
    ensures
        (hello.kind == DaemonMessageKind::Hello && hello.accepted == Some(true)) ==> r is Ok,
        !(hello.kind == DaemonMessageKind::Hello && hello.accepted == Some(true)) ==> (r matches Err(e)
            && e@ == already_open_message()),
{
    let accepted = match hello.accepted {
        Some(a) => a,
        None => false,
    };
    match hello.kind {
        DaemonMessageKind::Hello => if accepted {
            Ok(())
        } else {
            Err(string_of("another Blockwork window is already open"))
        },
        _ => Err(string_of("another Blockwork window is already open")),
    }
}

/// What a message from the daemon means for the window, and whether the
/// connection ends with it: a snapshot updates the window, a failed reply
/// shows its error, a successful reply and a repeated `Hello` change
/// nothing, and a quit closes the window.
pub fn event_for(message: DaemonMessage) -> (r: (Option<Event>, bool))
    ensures
        r.1 == (message.kind == DaemonMessageKind::Quit),
        match message.kind {
            DaemonMessageKind::State => match message.payload {
                Some(p) => r.0 == Some(Event::State(p)),
                None => r.0 is None,
            },
            DaemonMessageKind::Reply => match message.error {
                Some(e) => r.0 == Some(Event::Error(e)),
                None => r.0 is None,
            },
            DaemonMessageKind::Focus => r.0 == Some(Event::Focus),
            DaemonMessageKind::Quit => r.0 == Some(Event::Quit),
            DaemonMessageKind::Hello => r.0 is None,
        },
{
    let DaemonMessage { kind, id: _, accepted: _, payload, data: _, error } = message;
    match kind {
        DaemonMessageKind::State => match payload {
            Some(p) => (Some(Event::State(p)), false),
            None => (None, false),
        },
        DaemonMessageKind::Reply => match error {
            Some(e) => (Some(Event::Error(e)), false),
            None => (None, false),
        },
        DaemonMessageKind::Focus => (Some(Event::Focus), false),
        DaemonMessageKind::Quit => (Some(Event::Quit), true),
        DaemonMessageKind::Hello => (None, false),
    }
}

/// Call ids count up from one and wrap around.
pub fn next_call_id(id: u64) -> (r: u64)
    ensures
        r == (if id == u64::MAX { 0 } else { id + 1 }),
{
    id.wrapping_add(1)
}

/// Whether an encoded call line may be sent: the daemon refuses lines
/// longer than [`MAX_MESSAGE_BYTES`].
pub fn call_fits(line_len: usize) -> (r: Result<(), String>)
    ensures
        line_len <= MAX_MESSAGE_BYTES ==> r is Ok,
        line_len > MAX_MESSAGE_BYTES ==> (r matches Err(e) && e@ == "command is too large"@),
{
    if line_len > MAX_MESSAGE_BYTES {
        Err(string_of("command is too large"))
    } else {
        Ok(())
    }
}

/// What the window shows of its daemon connection: the latest state
/// snapshot, the latest error, whether it is connected, whether it is to
/// quit, and a counter bumped each time it is asked to come to the front.
pub struct WindowState {
    pub state_json: String,
    pub last_error: String,
    pub connected: bool,
    pub should_quit: bool,
    pub focus_serial: i32,
}

/// The counter after one more request to come to the front; it stays at
/// the top of its range.
pub open spec fn bumped(serial: i32) -> i32 {
    if serial == i32::MAX {
        serial
    } else {
        (serial + 1) as i32
    }
}

/// The window state after one event.
pub open spec fn after_event(w: WindowState, e: Event) -> WindowState {
    match e {
        Event::Connected => WindowState { connected: true, ..w },
        Event::State(json) => WindowState { state_json: json, ..w },
        Event::Error(error) => WindowState { last_error: error, ..w },
        Event::Focus => WindowState { focus_serial: bumped(w.focus_serial), ..w },
        Event::Quit => WindowState { should_quit: true, ..w },
    }
}

/// The window state after a run of events, applied in order.
pub open spec fn after_events(w: WindowState, events: Seq<Event>) -> WindowState
    decreases events.len(),
{
    if events.len() == 0 {
        w
    } else {
        after_event(after_events(w, events.drop_last()), events.last())
    }
}

impl WindowState {
    /// Before any event: an empty snapshot, no error, not connected.
    pub fn new() -> (w: WindowState)
        ensures
            w.state_json@ == "{}"@,
            w.last_error@.len() == 0,
            !w.connected,
            !w.should_quit,
            w.focus_serial == 0,
    {
        WindowState {
            state_json: string_of("{}"),
            last_error: String::new(),
            connected: false,
            should_quit: false,
            focus_serial: 0,
        }
    }

    /// Takes in one event from the connection.
    pub fn apply(&mut self, event: Event)
        ensures
            *final(self) == after_event(*old(self), event),
    {
        match event {
            Event::Connected => self.connected = true,
            Event::State(json) => self.state_json = json,
            Event::Error(error) => self.last_error = error,
            Event::Focus => {
                if self.focus_serial < i32::MAX {
                    self.focus_serial = self.focus_serial + 1;
                }
            },
            Event::Quit => self.should_quit = true,
        }
    }

    /// Takes in every event that arrived since the last poll, oldest first.
    pub fn poll(&mut self, events: Vec<Event>)
        ensures
            *final(self) == after_events(*old(self), events@),
    {
        let ghost start = *self;
        let ghost all = events@;
        let mut rest = events;
        let n = rest.len();
        let mut k: usize = 0;
        while k < n
            invariant
                n == all.len(),
                k <= n,
                rest@ == all.skip(k as int),
                *self == after_events(start, all.take(k as int)),
            decreases n - k,
        {
            let e = rest.remove(0);
            proof {
                assert(all.take(k as int + 1).drop_last() =~= all.take(k as int));
                assert(all.skip(k as int).remove(0) =~= all.skip(k as int + 1));
            }
            self.apply(e);
            k = k + 1;
        }
        proof {
            assert(all.take(n as int) =~= all);
        }
    }
}

/// Every request to come to the front is counted until the counter tops
/// out: from zero, the counter equals the number of `Focus` events seen.
pub open spec fn focus_count(events: Seq<Event>) -> nat
    decreases events.len(),
{
    if events.len() == 0 {
        0
    } else {
        focus_count(events.drop_last()) + if events.last() is Focus { 1nat } else { 0nat }
    }
}

/// Starting from zero, the focus counter counts the `Focus` events, as long
/// as there are fewer than `i32::MAX` of them.
pub proof fn lemma_focus_counts_requests(w: WindowState, events: Seq<Event>)
    requires
        w.focus_serial == 0,
        focus_count(events) <= i32::MAX,
    ensures
        after_events(w, events).focus_serial == focus_count(events),
    decreases events.len(),
{
    if events.len() > 0 {
        lemma_focus_count_monotone(events.drop_last(), events);
        lemma_focus_counts_requests(w, events.drop_last());
    }
}

proof fn lemma_focus_count_monotone(a: Seq<Event>, b: Seq<Event>)
    requires
        b.len() > 0,
        a == b.drop_last(),
    ensures
        focus_count(a) <= focus_count(b),
{
}

/// Why an attempt to reach the daemon failed, as far as retrying goes:
/// no socket yet, nobody listening on it, or anything else.
#[derive(Debug, Clone, Copy, PartialEq, Eq, Structural)]
pub enum ConnectFailure {
    NotFound,
    Refused,
    Other,
}

/// What to do after a failed attempt to reach the daemon.
#[derive(Debug, Clone, Copy, PartialEq, Eq, Structural)]
pub enum ConnectStep {
    /// Start the daemon, then keep trying until the deadline.
    SpawnThenRetry,
    /// Wait a moment and try again.
    RetryLater,
    /// Give up with this failure.
    GiveUp,
}

/// Whether a failure means no daemon is running (yet).
pub open spec fn daemon_absent(f: ConnectFailure) -> bool {
    f is NotFound || f is Refused
}

/// The step after a failed attempt. Before the daemon was started, an
/// absent daemon is started and anything else is given up on; afterwards,
/// an absent daemon is waited for until the deadline passes.
pub fn after_failed_connect(spawned: bool, failure: ConnectFailure, past_deadline: bool) -> (r: ConnectStep)
    ensures
        !spawned ==> r == (if daemon_absent(failure) { ConnectStep::SpawnThenRetry } else { ConnectStep::GiveUp }),
        spawned ==> r == (if !past_deadline && daemon_absent(failure) {
            ConnectStep::RetryLater
        } else {
            ConnectStep::GiveUp
        }),
{
    let absent = match failure {
        ConnectFailure::NotFound | ConnectFailure::Refused => true,
        ConnectFailure::Other => false,
    };
    if !spawned {
        if absent {
            ConnectStep::SpawnThenRetry
        } else {
            ConnectStep::GiveUp
        }
    } else if past_deadline || !absent {
        ConnectStep::GiveUp
    } else {
        ConnectStep::RetryLater
    }
}

/// How the daemon answered a window's `Hello`.
#[derive(Debug, Clone, Copy, PartialEq, Eq, Structural)]
pub enum HelloOutcome {
    /// This window is the UI.
    Accepted,
    /// Another window is open and was brought to the front instead.
    AlreadyOpen,
}

/// The error an answer other than `Hello` ends the connection with.
pub open spec fn expected_hello_message() -> Seq<char> {
    "expected hello from daemon"@
}

/// Reads the daemon's first message on a connection: it must be a `Hello`,
/// which either accepts this window or tells it another one is open.
pub fn hello_outcome(hello: &DaemonMessage) -> (r: Result<HelloOutcome, String>)
    ensures
        hello.kind != DaemonMessageKind::Hello ==> (r matches Err(e) && e@ == expected_hello_message()),
        hello.kind == DaemonMessageKind::Hello ==> r == Ok::<HelloOutcome, String>(
            if hello.accepted == Some(true) { HelloOutcome::Accepted } else { HelloOutcome::AlreadyOpen },
        ),
{
    match hello.kind {
        DaemonMessageKind::Hello => match hello.accepted {
            Some(true) => Ok(HelloOutcome::Accepted),
            _ => Ok(HelloOutcome::AlreadyOpen),
        },
        _ => Err(string_of("expected hello from daemon")),
    }
}

/// The argument that makes the app's own executable run as the daemon.
pub const DAEMON_ARG: &'static str = "--daemon";

/// How to start the daemon: the program, its arguments, and the executable
/// the daemon is to relaunch the window with (handed over in
/// `BLOCKWORK_UI_EXE`).
pub struct DaemonLaunch {
    pub program: String,
    pub args: Vec<String>,
    pub ui_exe: String,
}

/// Decides how to start the daemon. Inside an AppImage the AppImage itself
/// is started with [`DAEMON_ARG`]; otherwise the daemon executable next to
/// the window's. The window's `--ozone-platform` choice is passed on. The
/// window to relaunch is the one named in the environment if any, else
/// the AppImage, else the running executable.
pub fn daemon_launch(
    appimage: Option<String>,
    daemon_exe: String,
    ui_exe_env: Option<String>,
    current_exe: String,
    ozone_platform: Option<String>,
) -> (r: DaemonLaunch)
    ensures
        r.program == (match appimage {
            Some(a) => a,
            None => daemon_exe,
        }),
        r.args@.len() == (if appimage is Some { 1int } else { 0int }) + (if ozone_platform is Some { 1int } else { 0int }),
        appimage is Some ==> r.args@[0]@ == "--daemon"@,
        ozone_platform matches Some(o) ==> r.args@.last()@ == ozone_prefix() + o@,
        r.ui_exe == (match ui_exe_env {
            Some(u) => u,
            None => match appimage {
                Some(a) => a,
                None => current_exe,
            },
        }),
{
    let mut args: Vec<String> = Vec::new();
    if appimage.is_some() {
        proof {
            reveal_strlit("--daemon");
        }
        args.push(string_of(DAEMON_ARG));
    }
    if let Some(o) = &ozone_platform {
        args.push(ozone_platform_arg(o.as_str()));
    }
    let ui_exe = match ui_exe_env {
        Some(u) => u,
        None => match &appimage {
            Some(a) => a.clone(),
            None => current_exe,
        },
    };
    let program = match appimage {
        Some(a) => a,
        None => daemon_exe,
    };
    DaemonLaunch { program, args, ui_exe }
}

} // verus!
