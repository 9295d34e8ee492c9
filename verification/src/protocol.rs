//! Messages between the daemon (which owns all state, hotkeys and playback)
//! and the editor UI, the `--ozone-platform` switch the UI passes along,
//! and the framing of newline-delimited messages on the local socket.

use vstd::prelude::*;
use vstd::string::*;
use crate::text::{push_all, starts_with, str_eq, string_of};

verus! {

/// Command the UI calls for each key event its focused window saw.
pub const FOCUSED_KEY_EVENT: &'static str = "focused_key_event";

#[verifier::external_type_specification]
#[verifier::external_body]
pub struct ExIoError(std::io::Error);

/// `std::io::Error::other(message)`: the error a client reports when the
/// daemon breaks the protocol, of kind `Other` and carrying `message`. An
/// `io::Error` is opaque here, so nothing is stated of it.
#[verifier::external_body]
pub fn protocol_error(message: impl Into<String>) -> std::io::Error {
    std::io::Error::other(message.into())
}

/// Largest protocol line, newline included.
pub const MAX_MESSAGE_BYTES: usize = 8 * 1024 * 1024;

/// A message from the UI to the daemon.
pub enum ClientMessage {
    /// First message on every connection, carrying the UI's
    /// `--ozone-platform` choice.
    Hello { ozone_platform: Option<String> },
    /// Runs a backend command; answered by a reply with the same `id`.
    /// `args` is the JSON text of the arguments object.
    Call { id: u64, cmd: String, args: String },
}

/// What a daemon message is.
#[derive(Debug, Clone, Copy, PartialEq, Eq, Structural)]
pub enum DaemonMessageKind {
    Hello,
    Reply,
    /// `payload` is the full state snapshot.
    State,
    /// Bring the window to the front.
    Focus,
    /// Close the UI; the whole app is shutting down.
    Quit,
}

/// A message from the daemon to the UI. `payload` is raw JSON text that is
/// forwarded to the UI as it is; `data` is the JSON text of a reply's result.
pub struct DaemonMessage {
    pub kind: DaemonMessageKind,
    pub id: Option<u64>,
    pub accepted: Option<bool>,
    pub payload: Option<String>,
    pub data: Option<String>,
    pub error: Option<String>,
}

impl DaemonMessage {
    fn new(kind: DaemonMessageKind) -> (m: DaemonMessage)
        ensures
            m.kind == kind,
            m.id is None,
            m.accepted is None,
            m.payload is None,
            m.data is None,
            m.error is None,
    {
        DaemonMessage { kind, id: None, accepted: None, payload: None, data: None, error: None }
    }

    /// The answer to a UI's `Hello`: whether this UI may stay open.
    pub fn hello(accepted: bool) -> (m: DaemonMessage)
        ensures
            m.kind == DaemonMessageKind::Hello,
            m.accepted == Some(accepted),
            m.id is None,
            m.payload is None,
            m.data is None,
            m.error is None,
    {
        let mut m = DaemonMessage::new(DaemonMessageKind::Hello);
        m.accepted = Some(accepted);
        m
    }

    /// The reply to call `id`: its data on success, its error otherwise.
    pub fn reply(id: u64, result: Result<String, String>) -> (m: DaemonMessage)
        ensures
            m.kind == DaemonMessageKind::Reply,
            m.id == Some(id),
            m.accepted is None,
            m.payload is None,
            match result {
                Ok(d) => m.data == Some(d) && m.error is None,
                Err(e) => m.data is None && m.error == Some(e),
            },
    {
        let mut m = DaemonMessage::new(DaemonMessageKind::Reply);
        m.id = Some(id);
        match result {
            Ok(data) => m.data = Some(data),
            Err(error) => m.error = Some(error),
        }
        m
    }

    /// A state snapshot, carried as raw JSON text.
    pub fn state(payload: String) -> (m: DaemonMessage)
        ensures
            m.kind == DaemonMessageKind::State,
            m.payload == Some(payload),
            m.id is None,
            m.accepted is None,
            m.data is None,
            m.error is None,
    {
        let mut m = DaemonMessage::new(DaemonMessageKind::State);
        m.payload = Some(payload);
        m
    }

    /// Asks the UI to come to the front.
    pub fn focus() -> (m: DaemonMessage)
        ensures
            m.kind == DaemonMessageKind::Focus,
            m.id is None,
            m.accepted is None,
            m.payload is None,
            m.data is None,
            m.error is None,
    {
        DaemonMessage::new(DaemonMessageKind::Focus)
    }

    /// Asks the UI to close.
    pub fn quit() -> (m: DaemonMessage)
        ensures
            m.kind == DaemonMessageKind::Quit,
            m.id is None,
            m.accepted is None,
            m.payload is None,
            m.data is None,
            m.error is None,
    {
        DaemonMessage::new(DaemonMessageKind::Quit)
    }
}

// ─── Framing ───────────────────────────────────────────────────────────────

/// What one look at the bytes buffered from the socket decides while a
/// protocol line is being read.
#[derive(Debug, Clone, Copy, PartialEq, Eq, Structural)]
pub enum LineStep {
    /// The stream ended cleanly between messages.
    End,
    /// The stream ended in the middle of a message.
    Incomplete,
    /// The message would grow past [`MAX_MESSAGE_BYTES`].
    TooLarge,
    /// `consumed` bytes joined the message, which continues.
    Partial { consumed: usize },
    /// `consumed` bytes joined the message and its newline ended it.
    Complete { consumed: usize },
}

/// The index of the first newline in `s`, if any.
pub open spec fn first_newline(s: Seq<u8>) -> Option<int>
    decreases s.len(),
{
    if s.len() == 0 {
        None
    } else if s[0] == 10u8 {
        Some(0)
    } else {
        match first_newline(s.drop_first()) {
            Some(i) => Some(i + 1),
            None => None,
        }
    }
}

/// How many of the `available` bytes belong to the current message: up to
/// and including the first newline, or all of them.
pub open spec fn chunk_len(available: Seq<u8>) -> int {
    match first_newline(available) {
        Some(i) => i + 1,
        None => available.len() as int,
    }
}

proof fn lemma_first_newline(s: Seq<u8>)
    ensures
        match first_newline(s) {
            Some(i) => 0 <= i < s.len() && s[i] == 10u8 && forall|j: int| 0 <= j < i ==> s[j] != 10u8,
            None => forall|j: int| 0 <= j < s.len() ==> s[j] != 10u8,
        },
    decreases s.len(),
{
    if s.len() > 0 {
        lemma_first_newline(s.drop_first());
        if s[0] != 10u8 {
            match first_newline(s.drop_first()) {
                Some(i) => {
                    assert forall|j: int| 0 <= j < i + 1 implies s[j] != 10u8 by {
                        if j > 0 {
                            assert(s[j] == s.drop_first()[j - 1]);
                        }
                    }
                },
                None => {
                    assert forall|j: int| 0 <= j < s.len() implies s[j] != 10u8 by {
                        if j > 0 {
                            assert(s[j] == s.drop_first()[j - 1]);
                        }
                    }
                },
            }
        }
    }
}

/// Takes the next chunk of a protocol line out of `available` (the bytes
/// the socket has buffered) into `line` (the message read so far). An empty
/// `available` means the stream ended.
pub fn line_step(line: &mut Vec<u8>, available: &[u8]) -> (r: LineStep)
    ensures
        available@.len() == 0 ==> final(line)@ == old(line)@ && r == (if old(line)@.len() == 0 {
            LineStep::End
        } else {
            LineStep::Incomplete
        }),
        available@.len() > 0 && old(line)@.len() + chunk_len(available@) > MAX_MESSAGE_BYTES
            ==> r == LineStep::TooLarge && final(line)@ == old(line)@,
        available@.len() > 0 && old(line)@.len() + chunk_len(available@) <= MAX_MESSAGE_BYTES ==> {
            &&& final(line)@ == old(line)@ + available@.take(chunk_len(available@))
            &&& r == (if first_newline(available@) is Some {
                LineStep::Complete { consumed: chunk_len(available@) as usize }
            } else {
                LineStep::Partial { consumed: chunk_len(available@) as usize }
            })
        },
{
    let n = available.len();
    if n == 0 {
        return if line.len() == 0 { LineStep::End } else { LineStep::Incomplete };
    }
    proof {
        lemma_first_newline(available@);
    }
    let mut i: usize = 0;
    while i < n && available[i] != 10u8
        invariant
            n == available@.len(),
            i <= n,
            forall|j: int| 0 <= j < i ==> available@[j] != 10u8,
        decreases n - i,
    {
        i = i + 1;
    }
    let found = i < n;
    let count = if found { i + 1 } else { n };
    proof {
        match first_newline(available@) {
            Some(k) => {
                if found {
                    assert(k == i);
                } else {
                    assert(available@[k] == 10u8);
                }
            },
            None => {
                if found {
                    assert(available@[i as int] == 10u8);
                }
            },
        }
    }
    if line.len() > MAX_MESSAGE_BYTES || count > MAX_MESSAGE_BYTES - line.len() {
        return LineStep::TooLarge;
    }
    let ghost before = line@;
    let mut j: usize = 0;
    while j < count
        invariant
            count <= n,
            n == available@.len(),
            j <= count,
            line@ == before + available@.take(j as int),
        decreases count - j,
    {
        line.push(available[j]);
        j = j + 1;
        assert(available@.take(j as int) =~= available@.take(j - 1).push(available@[j - 1]));
    }
    if found {
        LineStep::Complete { consumed: count }
    } else {
        LineStep::Partial { consumed: count }
    }
}

// ─── --ozone-platform ──────────────────────────────────────────────────────

/// The CLI switch the UI accepts to force an Ozone platform.
pub open spec fn ozone_switch() -> Seq<char> {
    "--ozone-platform"@
}

/// The `--ozone-platform=` prefix of the one-argument form.
pub open spec fn ozone_prefix() -> Seq<char> {
    "--ozone-platform="@
}

/// Whether `s` begins with `p`.
pub open spec fn has_prefix(s: Seq<char>, p: Seq<char>) -> bool {
    p.len() <= s.len() && s.subrange(0, p.len() as int) == p
}

/// The scan behind [`parse_ozone_platform`], from argument `i` on, with
/// `found` the value seen so far: `--ozone-platform=V` with a non-empty `V`
/// sets it; `--ozone-platform V` sets it when `V` is non-empty and does not
/// start with `-`, and consumes `V`.
pub open spec fn ozone_scan(args: Seq<Seq<char>>, i: int, found: Option<Seq<char>>) -> Option<Seq<char>>
    decreases args.len() - i,
{
    if i < 0 || i >= args.len() {
        found
    } else {
        let arg = args[i];
        if has_prefix(arg, ozone_prefix()) {
            let value = arg.subrange(ozone_prefix().len() as int, arg.len() as int);
            ozone_scan(args, i + 1, if value.len() > 0 { Some(value) } else { found })
        } else if arg == ozone_switch() && i + 1 < args.len() && args[i + 1].len() > 0
            && args[i + 1][0] != '-' {
            ozone_scan(args, i + 2, Some(args[i + 1]))
        } else {
            ozone_scan(args, i + 1, found)
        }
    }
}

/// The view of an optional string.
pub open spec fn opt_view(o: Option<String>) -> Option<Seq<char>> {
    match o {
        Some(s) => Some(s@),
        None => None,
    }
}

/// The views of a vector of strings.
pub open spec fn strings_view(args: Seq<String>) -> Seq<Seq<char>> {
    Seq::new(args.len(), |i: int| args[i]@)
}

/// Parses `--ozone-platform=x11` (or `--ozone-platform x11`) out of an
/// argument list. The last occurrence wins.
pub fn parse_ozone_platform(args: Vec<String>) -> (r: Option<String>)
    ensures
        match ozone_scan(strings_view(args@), 0, None) {
            Some(v) => r matches Some(s) && s@ == v,
            None => r is None,
        },
{
    let ghost sv = strings_view(args@);
    let mut result: Option<String> = None;
    let mut i: usize = 0;
    let n = args.len();
    proof {
        reveal_strlit("--ozone-platform=");
        reveal_strlit("--ozone-platform");
    }
    while i < n
        invariant
            n == args@.len(),
            sv == strings_view(args@),
            i <= n + 1,
            ozone_scan(sv, i as int, opt_view(result))
                == ozone_scan(sv, 0, None),
        decreases n + 1 - i,
    {
        proof {
            reveal_strlit("--ozone-platform=");
            reveal_strlit("--ozone-platform");
        }
        let arg = args[i].as_str();
        assert(arg@ == sv[i as int]);
        if starts_with(arg, "--ozone-platform=") {
            let len = arg.unicode_len();
            let value = arg.substring_char(17, len);
            assert(value@ == arg@.subrange(17, arg@.len() as int));
            if value.unicode_len() > 0 {
                result = Some(string_of(value));
            }
        } else if str_eq(arg, "--ozone-platform") {
            if i + 1 < n {
                let next = args[i + 1].as_str();
                assert(next@ == sv[i + 1]);
                if next.unicode_len() > 0 && next.get_char(0) != '-' {
                    result = Some(string_of(next));
                    i = i + 1;
                }
            }
        }
        i = i + 1;
    }
    result
}

/// Formats an `--ozone-platform` argument for a child process.
pub fn ozone_platform_arg(value: &str) -> (r: String)
    ensures
        r@ == ozone_prefix() + value@,
{
    let mut s = string_of("--ozone-platform=");
    push_all(&mut s, value);
    s
}

/// The last argument decides: ending the list with `--ozone-platform=V`
/// for a non-empty `V` makes `V` the result, whatever came before.
pub proof fn lemma_last_ozone_switch_wins(args: Seq<Seq<char>>, value: Seq<char>)
    requires
        value.len() > 0,
    ensures
        ozone_scan(args.push(ozone_prefix() + value), 0, None) == Some(value),
{
    reveal_strlit("--ozone-platform=");
    let all = args.push(ozone_prefix() + value);
    assert(all[args.len() as int] == ozone_prefix() + value);
    lemma_scan_reaches(all, args.len() as int, 0, None);
    let last = ozone_prefix() + value;
    assert(has_prefix(last, ozone_prefix())) by {
        assert(last.subrange(0, ozone_prefix().len() as int) =~= ozone_prefix());
    }
    assert(last.subrange(ozone_prefix().len() as int, last.len() as int) =~= value);
    let k = choose|f: Option<Seq<char>>| ozone_scan(all, 0, None) == ozone_scan(all, args.len() as int, f);
    assert(ozone_scan(all, args.len() as int + 1, Some(value)) == Some(value));
}

/// A scan over a list whose argument at `stop` starts with `-` passes
/// through position `stop` on its way from `i`.
proof fn lemma_scan_reaches(args: Seq<Seq<char>>, stop: int, i: int, found: Option<Seq<char>>)
    requires
        0 <= i <= stop < args.len(),
        args[stop].len() > 0,
        args[stop][0] == '-',
    ensures
        exists|f: Option<Seq<char>>| ozone_scan(args, i, found) == ozone_scan(args, stop, f),
    decreases stop - i,
{
    if i == stop {
        assert(ozone_scan(args, i, found) == ozone_scan(args, stop, found));
    } else {
        let arg = args[i];
        if has_prefix(arg, ozone_prefix()) {
            let value = arg.subrange(ozone_prefix().len() as int, arg.len() as int);
            lemma_scan_reaches(args, stop, i + 1, if value.len() > 0 { Some(value) } else { found });
        } else if arg == ozone_switch() && i + 1 < args.len() && args[i + 1].len() > 0
            && args[i + 1][0] != '-' {
            assert(i + 1 != stop);
            lemma_scan_reaches(args, stop, i + 2, Some(args[i + 1]));
        } else {
            lemma_scan_reaches(args, stop, i + 1, found);
        }
    }
}

} // verus!
