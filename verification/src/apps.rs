//! The installed-application listing behind the "Open App" picker: reading
//! freedesktop `.desktop` entries, cleaning their `Exec=` lines, turning
//! icon files into `data:` URIs, and unpacking the batched listings read on
//! the host from inside a Flatpak sandbox.

use vstd::prelude::*;
use crate::protocol::opt_view;
use crate::text::{
    chars_of, is_whitespace, range_eq, range_starts_with, string_of_range, string_push, trim,
    trim_range,
};

verus! {

/// An application the picker offers: its display name, the command that
/// launches it, and its icon as a `data:` URI.
pub struct AppEntry {
    pub name: String,
    pub command: String,
    pub icon: Option<String>,
}

/// A parsed `.desktop` entry whose `Icon=` value is still a lookup key.
pub struct DesktopEntry {
    pub name: String,
    pub command: String,
    pub icon: Option<String>,
}

// ---------------------------------------------------------------------------
// Lines

/// Where the first `c` in `s` is, or `s.len()` when it has none.
pub open spec fn first_index(s: Seq<char>, c: char) -> nat
    decreases s.len(),
{
    if s.len() == 0 || s[0] == c {
        0
    } else {
        1 + first_index(s.drop_first(), c)
    }
}

/// The pieces of `s` between separators `c`, as `str::split` gives them.
pub open spec fn split_on(s: Seq<char>, c: char) -> Seq<Seq<char>>
    decreases s.len(),
{
    let k = first_index(s, c);
    if k < s.len() {
        seq![s.subrange(0, k as int)] + split_on(s.subrange(k as int + 1, s.len() as int), c)
    } else {
        seq![s]
    }
}

/// The lines of `s`: its pieces between `'\n'` separators. A trailing
/// `'\r'` stays on its line, and a final empty piece is kept; both vanish
/// once a line is trimmed, which is all the parser below does with lines.
pub open spec fn split_lines(s: Seq<char>) -> Seq<Seq<char>> {
    split_on(s, '\n')
}

proof fn lemma_first_index(s: Seq<char>, c: char, i: int)
    requires
        0 <= i <= s.len(),
        forall|j: int| 0 <= j < i ==> s[j] != c,
        i == s.len() || s[i] == c,
    ensures
        first_index(s, c) == i,
    decreases i,
{
    if i > 0 {
        let t = s.drop_first();
        assert forall|j: int| 0 <= j < i - 1 implies t[j] != c by {
            assert(t[j] == s[j + 1]);
        }
        if i < s.len() {
            assert(t[i - 1] == s[i]);
        }
        lemma_first_index(t, c, i - 1);
    }
}

/// The first `c` at or after `from` in `s`, or `s.len()`.
fn find_char(s: &Vec<char>, from: usize, c: char) -> (q: usize)
    requires
        from <= s@.len(),
    ensures
        from <= q <= s@.len(),
        first_index(s@.subrange(from as int, s@.len() as int), c) == q - from,
{
    let n = s.len();
    let mut q: usize = from;
    while q < n && s[q] != c
        invariant
            from <= q <= n,
            n == s@.len(),
            forall|j: int| from <= j < q ==> s@[j] != c,
        decreases n - q,
    {
        q = q + 1;
    }
    proof {
        let rest = s@.subrange(from as int, n as int);
        assert forall|j: int| 0 <= j < q - from implies rest[j] != c by {
            assert(rest[j] == s@[from + j]);
        }
        if q < n {
            assert(rest[q - from] == s@[q as int]);
        }
        lemma_first_index(rest, c, q - from);
    }
    q
}

/// Splitting `s[pos..]` at its first separator, found at `q`.
proof fn lemma_split_step(s: Seq<char>, c: char, pos: int, q: int)
    requires
        0 <= pos <= q <= s.len(),
        first_index(s.subrange(pos, s.len() as int), c) == q - pos,
    ensures
        split_on(s.subrange(pos, s.len() as int), c)[0] == s.subrange(pos, q),
        q < s.len() ==> split_on(s.subrange(pos, s.len() as int), c).drop_first()
            == split_on(s.subrange(q + 1, s.len() as int), c),
        q == s.len() ==> split_on(s.subrange(pos, s.len() as int), c).len() == 1,
{
    let rest = s.subrange(pos, s.len() as int);
    assert(rest.subrange(0, q - pos) =~= s.subrange(pos, q));
    if q < s.len() {
        assert(rest.subrange(q - pos + 1, rest.len() as int) =~= s.subrange(q + 1, s.len() as int));
        assert((seq![s.subrange(pos, q)] + split_on(s.subrange(q + 1, s.len() as int), c)).drop_first()
            =~= split_on(s.subrange(q + 1, s.len() as int), c));
    }
}

// ---------------------------------------------------------------------------
// `.desktop` entries

/// What the scan of a `.desktop` file has gathered so far.
pub struct EntryScan {
    pub in_main: bool,
    pub name: Option<Seq<char>>,
    pub launch: Option<Seq<char>>,
    pub icon: Option<Seq<char>>,
    pub no_display: bool,
    pub hidden: bool,
    pub is_application: bool,
}

/// Nothing read yet: outside any section, and an application until a
/// `Type=` line says otherwise.
pub open spec fn scan_start() -> EntryScan {
    EntryScan {
        in_main: false,
        name: None,
        launch: None,
        icon: None,
        no_display: false,
        hidden: false,
        is_application: true,
    }
}

/// Whether `s` begins with `p`.
pub open spec fn has_prefix(s: Seq<char>, p: Seq<char>) -> bool {
    p.len() <= s.len() && s.subrange(0, p.len() as int) == p
}

/// What follows the prefix `p` in `s`.
pub open spec fn after(s: Seq<char>, p: Seq<char>) -> Seq<char> {
    s.subrange(p.len() as int, s.len() as int)
}

/// `v.eq_ignore_ascii_case("true")`.
pub open spec fn is_true_word(v: Seq<char>) -> bool {
    &&& v.len() == 4
    &&& (v[0] == 't' || v[0] == 'T')
    &&& (v[1] == 'r' || v[1] == 'R')
    &&& (v[2] == 'u' || v[2] == 'U')
    &&& (v[3] == 'e' || v[3] == 'E')
}

/// One line of the scan. A `[...]` line opens a section; inside
/// `[Desktop Entry]` the first `Name=` counts, and the last `Exec=`,
/// `Icon=`, `NoDisplay=`, `Hidden=` and `Type=` count.
pub open spec fn scan_line(st: EntryScan, raw: Seq<char>) -> EntryScan {
    let line = trim(raw);
    if line.len() > 0 && line[0] == '[' {
        EntryScan { in_main: line == "[Desktop Entry]"@, ..st }
    } else if !st.in_main {
        st
    } else if has_prefix(line, "Name="@) {
        EntryScan {
            name: if st.name is None { Some(after(line, "Name="@)) } else { st.name },
            ..st
        }
    } else if has_prefix(line, "Exec="@) {
        EntryScan { launch: Some(after(line, "Exec="@)), ..st }
    } else if has_prefix(line, "Icon="@) {
        EntryScan { icon: Some(after(line, "Icon="@)), ..st }
    } else if has_prefix(line, "NoDisplay="@) {
        EntryScan { no_display: is_true_word(after(line, "NoDisplay="@)), ..st }
    } else if has_prefix(line, "Hidden="@) {
        EntryScan { hidden: is_true_word(after(line, "Hidden="@)), ..st }
    } else if has_prefix(line, "Type="@) {
        EntryScan { is_application: after(line, "Type="@) == "Application"@, ..st }
    } else {
        st
    }
}

/// The scan of `lines`, in order.
pub open spec fn scan_lines(lines: Seq<Seq<char>>) -> EntryScan
    decreases lines.len(),
{
    if lines.len() == 0 {
        scan_start()
    } else {
        scan_line(scan_lines(lines.drop_last()), lines.last())
    }
}

/// freedesktop's field codes, which stand for files or URLs that a launch
/// from the picker never has.
pub open spec fn is_field_code(c: char) -> bool {
    c == 'f' || c == 'F' || c == 'u' || c == 'U' || c == 'd' || c == 'D' || c == 'n' || c == 'N'
        || c == 'i' || c == 'c' || c == 'k' || c == 'v' || c == 'm'
}

/// `s` with its field codes dropped: `%%` becomes `%`, a field code and a
/// lone trailing `%` vanish, and any other `%x` stays as it is.
pub open spec fn strip_field_codes(s: Seq<char>) -> Seq<char>
    decreases s.len(),
{
    if s.len() == 0 {
        Seq::empty()
    } else if s[0] != '%' {
        seq![s[0]] + strip_field_codes(s.drop_first())
    } else if s.len() == 1 {
        Seq::empty()
    } else if s[1] == '%' {
        seq!['%'] + strip_field_codes(s.subrange(2, s.len() as int))
    } else if is_field_code(s[1]) {
        strip_field_codes(s.subrange(2, s.len() as int))
    } else {
        seq!['%', s[1]] + strip_field_codes(s.subrange(2, s.len() as int))
    }
}

/// The command an `Exec=` value launches: field codes dropped, then
/// trimmed.
pub open spec fn clean_exec(line: Seq<char>) -> Seq<char> {
    trim(strip_field_codes(line))
}

/// The entry a `.desktop` file describes, as (name, command, icon key):
/// `None` when it is hidden, not shown in menus, not an application, or
/// lacks a name or a non-empty command.
pub open spec fn desktop_entry_spec(content: Seq<char>) -> Option<(Seq<char>, Seq<char>, Option<Seq<char>>)> {
    let st = scan_lines(split_lines(content));
    if st.no_display || st.hidden || !st.is_application {
        None
    } else {
        match (st.name, st.launch) {
            (Some(name), Some(launch)) => if clean_exec(launch).len() == 0 {
                None
            } else {
                Some((name, clean_exec(launch), st.icon))
            },
            _ => None,
        }
    }
}

/// The scan state while reading a `.desktop` file.
struct ScanState {
    in_main: bool,
    name: Option<String>,
    launch: Option<String>,
    icon: Option<String>,
    no_display: bool,
    hidden: bool,
    is_application: bool,
}

impl View for ScanState {
    type V = EntryScan;

    closed spec fn view(&self) -> EntryScan {
        EntryScan {
            in_main: self.in_main,
            name: opt_view(self.name),
            launch: opt_view(self.launch),
            icon: opt_view(self.icon),
            no_display: self.no_display,
            hidden: self.hidden,
            is_application: self.is_application,
        }
    }
}

/// Where the value after `prefix` starts in `s[lo..hi]`, if the range
/// begins with it.
fn range_strip_prefix(s: &Vec<char>, lo: usize, hi: usize, prefix: &str) -> (r: Option<usize>)
    requires
        lo <= hi <= s@.len(),
    ensures
        match r {
            Some(k) => has_prefix(s@.subrange(lo as int, hi as int), prefix@) && k == lo + prefix@.len()
                && s@.subrange(k as int, hi as int) == after(s@.subrange(lo as int, hi as int), prefix@),
            None => !has_prefix(s@.subrange(lo as int, hi as int), prefix@),
        },
{
    let ghost line = s@.subrange(lo as int, hi as int);
    if range_starts_with(s, lo, hi, prefix) {
        let k = lo + prefix.unicode_len();
        assert(line.subrange(0, prefix@.len() as int) =~= s@.subrange(lo as int, k as int));
        assert(s@.subrange(k as int, hi as int) =~= after(line, prefix@));
        Some(k)
    } else {
        proof {
            if prefix@.len() <= line.len() {
                assert(line.subrange(0, prefix@.len() as int) =~= s@.subrange(lo as int, lo + prefix@.len()));
            }
        }
        None
    }
}

/// Whether `s[lo..hi]` spells `true` in any ASCII case.
fn range_is_true(s: &Vec<char>, lo: usize, hi: usize) -> (r: bool)
    requires
        lo <= hi <= s@.len(),
    ensures
        r == is_true_word(s@.subrange(lo as int, hi as int)),
{
    if hi - lo != 4 {
        return false;
    }
    let a = s[lo];
    let b = s[lo + 1];
    let c = s[lo + 2];
    let d = s[lo + 3];
    (a == 't' || a == 'T') && (b == 'r' || b == 'R') && (c == 'u' || c == 'U') && (d == 'e' || d == 'E')
}

impl ScanState {
    fn new() -> (r: ScanState)
        ensures
            r@ == scan_start(),
    {
        ScanState {
            in_main: false,
            name: None,
            launch: None,
            icon: None,
            no_display: false,
            hidden: false,
            is_application: true,
        }
    }

    /// Takes in the line `s[lo..hi]`.
    fn line(&mut self, s: &Vec<char>, lo: usize, hi: usize)
        requires
            lo <= hi <= s@.len(),
        ensures
            final(self)@ == scan_line(old(self)@, s@.subrange(lo as int, hi as int)),
    {
        let ghost st = self@;
        let (a, b) = trim_range(s, lo, hi);
        let ghost line = s@.subrange(a as int, b as int);
        assert(line == trim(s@.subrange(lo as int, hi as int)));
        if b > a && s[a] == '[' {
            assert(line[0] == s@[a as int]);
            self.in_main = range_eq(s, a, b, "[Desktop Entry]");
            return;
        }
        proof {
            if line.len() > 0 {
                assert(line[0] == s@[a as int]);
            }
        }
        if !self.in_main {
            return;
        }
        if let Some(k) = range_strip_prefix(s, a, b, "Name=") {
            if self.name.is_none() {
                self.name = Some(string_of_range(s, k, b));
            }
            return;
        }
        if let Some(k) = range_strip_prefix(s, a, b, "Exec=") {
            self.launch = Some(string_of_range(s, k, b));
            return;
        }
        if let Some(k) = range_strip_prefix(s, a, b, "Icon=") {
            self.icon = Some(string_of_range(s, k, b));
            return;
        }
        if let Some(k) = range_strip_prefix(s, a, b, "NoDisplay=") {
            self.no_display = range_is_true(s, k, b);
            return;
        }
        if let Some(k) = range_strip_prefix(s, a, b, "Hidden=") {
            self.hidden = range_is_true(s, k, b);
            return;
        }
        if let Some(k) = range_strip_prefix(s, a, b, "Type=") {
            self.is_application = range_eq(s, k, b, "Application");
            return;
        }
    }
}

/// Strips freedesktop field codes (`%f`, `%U` and the like) from an `Exec=`
/// value and trims the result.
pub fn clean_exec_command(line: &str) -> (r: String)
    ensures
        r@ == clean_exec(line@),
{
    let e = chars_of(line);
    let n = e.len();
    let mut out: Vec<char> = Vec::new();
    let mut i: usize = 0;
    assert(e@.subrange(0, n as int) =~= e@);
    assert(out@ + strip_field_codes(e@) =~= strip_field_codes(e@));
    while i < n
        invariant
            n == e@.len(),
            i <= n,
            strip_field_codes(e@) == out@ + strip_field_codes(e@.subrange(i as int, n as int)),
        decreases n - i,
    {
        let ghost rest = e@.subrange(i as int, n as int);
        let c = e[i];
        assert(rest[0] == c);
        if c != '%' {
            assert(rest.drop_first() =~= e@.subrange(i + 1, n as int));
            out.push(c);
            i = i + 1;
            assert(strip_field_codes(rest) == seq![c] + strip_field_codes(e@.subrange(i as int, n as int)));
        } else if i + 1 == n {
            i = n;
            assert(strip_field_codes(e@.subrange(i as int, n as int)) =~= Seq::<char>::empty());
        } else {
            let d = e[i + 1];
            assert(rest[1] == d);
            assert(rest.subrange(2, rest.len() as int) =~= e@.subrange(i + 2, n as int));
            if d == '%' {
                out.push('%');
            } else if d == 'f' || d == 'F' || d == 'u' || d == 'U' || d == 'd' || d == 'D' || d == 'n'
                || d == 'N' || d == 'i' || d == 'c' || d == 'k' || d == 'v' || d == 'm' {
            } else {
                out.push('%');
                out.push(d);
            }
            i = i + 2;
        }
        assert(strip_field_codes(e@) =~= out@ + strip_field_codes(e@.subrange(i as int, n as int)));
    }
    assert(e@.subrange(n as int, n as int) =~= Seq::<char>::empty());
    assert(out@ =~= strip_field_codes(e@));
    let (a, b) = trim_range(&out, 0, out.len());
    assert(out@.subrange(0, out@.len() as int) =~= out@);
    string_of_range(&out, a, b)
}

/// Reads the keys the picker cares about from the `[Desktop Entry]`
/// section of a `.desktop` file (see [`desktop_entry_spec`]).
pub fn parse_desktop_entry(content: &str) -> (r: Option<DesktopEntry>)
    ensures
        match desktop_entry_spec(content@) {
            Some((name, command, icon)) => r matches Some(d) && d.name@ == name && d.command@ == command
                && opt_view(d.icon) == icon,
            None => r is None,
        },
{
    let s = chars_of(content);
    let n = s.len();
    let ghost lines = split_lines(s@);
    let mut st = ScanState::new();
    let mut pos: usize = 0;
    let ghost mut k: int = 0;
    assert(s@.subrange(0, n as int) =~= s@);
    assert(lines.skip(0) =~= lines);
    assert(lines.take(0) =~= Seq::<Seq<char>>::empty());
    loop
        invariant_except_break
            0 <= k < lines.len(),
            split_lines(s@.subrange(pos as int, n as int)) == lines.skip(k),
            st@ == scan_lines(lines.take(k)),
        invariant
            n == s@.len(),
            lines == split_lines(s@),
            pos <= n,
        ensures
            st@ == scan_lines(lines),
        decreases n - pos,
    {
        let q = find_char(&s, pos, '\n');
        proof {
            lemma_split_step(s@, '\n', pos as int, q as int);
            assert(lines.skip(k)[0] == lines[k]);
            assert(lines[k] == s@.subrange(pos as int, q as int));
            assert(lines.take(k + 1).drop_last() =~= lines.take(k));
            assert(lines.take(k + 1).last() == lines[k]);
        }
        st.line(&s, pos, q);
        if q == n {
            proof {
                assert(lines.skip(k).len() == 1);
                assert(lines.take(k + 1) =~= lines);
            }
            break;
        }
        proof {
            assert(split_lines(s@.subrange(q + 1, n as int)).len() >= 1);
            assert(lines.skip(k + 1) =~= lines.skip(k).drop_first());
            k = k + 1;
        }
        pos = q + 1;
    }
    let ScanState { in_main: _, name, launch, icon, no_display, hidden, is_application } = st;
    if no_display || hidden || !is_application {
        return None;
    }
    let name = match name {
        Some(v) => v,
        None => return None,
    };
    let launch = match launch {
        Some(v) => v,
        None => return None,
    };
    let command = clean_exec_command(launch.as_str());
    if command.unicode_len() == 0 {
        return None;
    }
    Some(DesktopEntry { name, command, icon })
}


// ---------------------------------------------------------------------------
// Icons

/// The character of the standard base64 alphabet for the six bits `v`:
/// `A`-`Z`, `a`-`z`, `0`-`9`, `+`, `/`.
pub open spec fn base64_char(v: int) -> char {
    if v < 26 {
        (65 + v) as char
    } else if v < 52 {
        (97 + v - 26) as char
    } else if v < 62 {
        (48 + v - 52) as char
    } else if v == 62 {
        '+'
    } else {
        '/'
    }
}

/// Standard padded base64 (RFC 4648): each three bytes become four
/// characters of six bits each; a last group of one or two bytes is padded
/// with `=` to four characters.
pub open spec fn base64_standard(b: Seq<u8>) -> Seq<char>
    decreases b.len(),
{
    let x = if b.len() > 0 { b[0] as int } else { 0 };
    let y = if b.len() > 1 { b[1] as int } else { 0 };
    let z = if b.len() > 2 { b[2] as int } else { 0 };
    if b.len() == 0 {
        Seq::empty()
    } else if b.len() == 1 {
        seq![base64_char(x / 4), base64_char((x % 4) * 16), '=', '=']
    } else if b.len() == 2 {
        seq![base64_char(x / 4), base64_char((x % 4) * 16 + y / 16), base64_char((y % 16) * 4), '=']
    } else {
        seq![
            base64_char(x / 4),
            base64_char((x % 4) * 16 + y / 16),
            base64_char((y % 16) * 4 + z / 64),
            base64_char(z % 64),
        ] + base64_standard(b.skip(3))
    }
}

/// `base64::engine::general_purpose::STANDARD.encode(bytes)`: the crate
/// documents this engine as the standard alphabet with padding, which
/// [`base64_standard`] spells out. The engine panics when the padded
/// length does not fit `usize`, which `requires` rules out.
#[verifier::external_body]
fn base64_encode(bytes: &[u8]) -> (r: String)
    requires
        (bytes@.len() / 3) * 4 + (if bytes@.len() % 3 == 0 { 0int } else { 4int }) <= usize::MAX,
    ensures
        r@ == base64_standard(bytes@),
{
    base64::Engine::encode(&base64::engine::general_purpose::STANDARD, bytes)
}

/// The MIME type an `<img>` tag can show for an icon file extension:
/// SVG and PNG only.
pub open spec fn mime_for(extension: Seq<char>) -> Option<Seq<char>> {
    if extension == "svg"@ {
        Some("image/svg+xml"@)
    } else if extension == "png"@ {
        Some("image/png"@)
    } else {
        None
    }
}

/// The MIME type for an icon file extension (see [`mime_for`]).
pub fn icon_mime(extension: &str) -> (r: Option<&'static str>)
    ensures
        match mime_for(extension@) {
            Some(m) => r matches Some(t) && t@ == m,
            None => r is None,
        },
{
    if crate::text::str_eq(extension, "svg") {
        Some("image/svg+xml")
    } else if crate::text::str_eq(extension, "png") {
        Some("image/png")
    } else {
        None
    }
}

/// `data:<mime>;base64,<data>`.
pub open spec fn data_uri_spec(mime: Seq<char>, data: Seq<char>) -> Seq<char> {
    "data:"@ + mime + ";base64,"@ + data
}

/// A `data:` URI for already base64-encoded `data` of type `mime`.
pub fn data_uri(mime: &str, data: &str) -> (r: String)
    ensures
        r@ == data_uri_spec(mime@, data@),
{
    let mut r = crate::text::string_of("data:");
    crate::text::push_all(&mut r, mime);
    crate::text::push_all(&mut r, ";base64,");
    crate::text::push_all(&mut r, data);
    r
}

/// The `data:` URI for the bytes of an icon file of type `mime`.
pub fn icon_bytes_to_data_uri(mime: &str, bytes: &[u8]) -> (r: String)
    requires
        (bytes@.len() / 3) * 4 + (if bytes@.len() % 3 == 0 { 0int } else { 4int }) <= usize::MAX,
    ensures
        r@ == data_uri_spec(mime@, base64_standard(bytes@)),
{
    let encoded = base64_encode(bytes);
    data_uri(mime, encoded.as_str())
}

// ---------------------------------------------------------------------------
// Listings read on the host

/// Separates the records of the host scripts' output: an ASCII record
/// separator, which neither a desktop file nor base64 can hold.
pub const RECORD: char = '\x1e';

/// A parsed entry as plain values: name, command, icon key.
pub open spec fn entry_view(d: DesktopEntry) -> (Seq<char>, Seq<char>, Option<Seq<char>>) {
    (d.name@, d.command@, opt_view(d.icon))
}

/// The ids seen and the entries kept from the records `rs` of a desktop
/// file listing, each record being `<file name>\n<contents>`. A record
/// without a newline is skipped; the first record of an id wins, even when
/// its contents describe no entry.
pub open spec fn listing_scan(rs: Seq<Seq<char>>) -> (Seq<Seq<char>>, Seq<(Seq<char>, Seq<char>, Option<Seq<char>>)>)
    decreases rs.len(),
{
    if rs.len() == 0 {
        (Seq::empty(), Seq::empty())
    } else {
        let (seen, out) = listing_scan(rs.drop_last());
        let r = rs.last();
        let k = first_index(r, '\n');
        if k >= r.len() {
            (seen, out)
        } else {
            let id = r.subrange(0, k as int);
            if seen.contains(id) {
                (seen, out)
            } else {
                match desktop_entry_spec(r.subrange(k as int + 1, r.len() as int)) {
                    Some(e) => (seen.push(id), out.push(e)),
                    None => (seen.push(id), out),
                }
            }
        }
    }
}

/// The records of a host script's output: what follows each separator.
pub open spec fn records(output: Seq<char>) -> Seq<Seq<char>> {
    split_on(output, RECORD).drop_first()
}

/// Whether `ids` holds a string equal to `id`.
fn contains_string(ids: &Vec<String>, id: &str) -> (r: bool)
    ensures
        r == crate::protocol::strings_view(ids@).contains(id@),
{
    let ghost v = crate::protocol::strings_view(ids@);
    let mut j: usize = 0;
    while j < ids.len()
        invariant
            j <= ids@.len(),
            v == crate::protocol::strings_view(ids@),
            forall|i: int| 0 <= i < j ==> v[i] != id@,
        decreases ids@.len() - j,
    {
        if crate::text::str_eq(ids[j].as_str(), id) {
            assert(v[j as int] == id@);
            return true;
        }
        j = j + 1;
    }
    false
}

/// The entries of a desktop file listing printed on the host (see
/// [`listing_scan`]), in the order the files were printed.
pub fn parse_desktop_listing(output: &str) -> (r: Vec<DesktopEntry>)
    ensures
        r@.map_values(|d: DesktopEntry| entry_view(d)) == listing_scan(records(output@)).1,
{
    let s = chars_of(output);
    let n = s.len();
    let ghost pieces = split_on(s@, RECORD);
    let mut seen: Vec<String> = Vec::new();
    let mut out: Vec<DesktopEntry> = Vec::new();
    let first = find_char(&s, 0, RECORD);
    proof {
        assert(s@.subrange(0, n as int) =~= s@);
        lemma_split_step(s@, RECORD, 0, first as int);
    }
    if first == n {
        proof {
            assert(records(s@) =~= Seq::<Seq<char>>::empty());
        }
        return out;
    }
    let mut pos: usize = first + 1;
    let ghost mut k: int = 1;
    proof {
        assert(pieces.skip(1) =~= pieces.drop_first());
        assert(records(s@).take(0) =~= Seq::<Seq<char>>::empty());
    }
    loop
        invariant_except_break
            1 <= k < pieces.len(),
            split_on(s@.subrange(pos as int, n as int), RECORD) == pieces.skip(k),
            crate::protocol::strings_view(seen@) == listing_scan(records(s@).take(k - 1)).0,
            out@.map_values(|d: DesktopEntry| entry_view(d)) == listing_scan(records(s@).take(k - 1)).1,
        invariant
            n == s@.len(),
            pieces == split_on(s@, RECORD),
            pos <= n,
        ensures
            out@.map_values(|d: DesktopEntry| entry_view(d)) == listing_scan(records(s@)).1,
        decreases n - pos,
    {
        let q = find_char(&s, pos, RECORD);
        let ghost rs = records(s@);
        proof {
            lemma_split_step(s@, RECORD, pos as int, q as int);
            assert(pieces.skip(k)[0] == pieces[k]);
            assert(rs[k - 1] == pieces[k]);
            assert(rs.take(k).drop_last() =~= rs.take(k - 1));
            assert(rs.take(k).last() == rs[k - 1]);
        }
        let ghost rec = s@.subrange(pos as int, q as int);
        let nl = find_char(&s, pos, '\n');
        let ghost old_seen = seen@;
        let ghost old_out = out@;
        if nl < q {
            proof {
                assert forall|j: int| 0 <= j < nl - pos implies rec[j] != '\n' by {
                    assert(rec[j] == s@[pos + j]);
                    let rest = s@.subrange(pos as int, n as int);
                    assert(rest[j] == s@[pos + j]);
                    if rest[j] == '\n' {
                        lemma_first_before(rest, '\n', j);
                    }
                }
                assert(rec[nl - pos] == s@[nl as int]);
                assert(s@[nl as int] == '\n') by {
                    lemma_first_found(s@.subrange(pos as int, n as int), '\n');
                    assert(s@.subrange(pos as int, n as int)[nl - pos] == s@[nl as int]);
                }
                lemma_first_index(rec, '\n', nl - pos);
                assert(rec.subrange(0, nl - pos) =~= s@.subrange(pos as int, nl as int));
                assert(rec.subrange(nl - pos + 1, rec.len() as int) =~= s@.subrange(nl + 1, q as int));
            }
            let id = string_of_range(&s, pos, nl);
            if !contains_string(&seen, id.as_str()) {
                let content = string_of_range(&s, nl + 1, q);
                seen.push(id);
                match parse_desktop_entry(content.as_str()) {
                    Some(e) => {
                        out.push(e);
                    },
                    None => {},
                }
            }
        } else {
            proof {
                let rest = s@.subrange(pos as int, n as int);
                assert forall|j: int| 0 <= j < rec.len() implies rec[j] != '\n' by {
                    assert(rec[j] == s@[pos + j]);
                    assert(rest[j] == s@[pos + j]);
                    if rest[j] == '\n' {
                        lemma_first_before(rest, '\n', j);
                    }
                }
                lemma_first_index(rec, '\n', rec.len() as int);
            }
        }
        proof {
            assert(crate::protocol::strings_view(seen@) =~= listing_scan(rs.take(k)).0);
            assert(out@.map_values(|d: DesktopEntry| entry_view(d)) =~= listing_scan(rs.take(k)).1);
        }
        if q == n {
            proof {
                assert(rs.take(k) =~= rs);
            }
            break;
        }
        proof {
            assert(split_on(s@.subrange(q + 1, n as int), RECORD).len() >= 1);
            assert(pieces.skip(k + 1) =~= pieces.skip(k).drop_first());
            k = k + 1;
        }
        pos = q + 1;
    }
    out
}

/// Every character before the first `c` differs from `c`.
proof fn lemma_first_before(s: Seq<char>, c: char, j: int)
    requires
        0 <= j < s.len(),
        s[j] == c,
    ensures
        first_index(s, c) <= j,
    decreases j,
{
    if j > 0 && s[0] != c {
        assert(s.drop_first()[j - 1] == s[j]);
        lemma_first_before(s.drop_first(), c, j - 1);
    }
}

/// The first `c`, when there is one, is a `c`.
proof fn lemma_first_found(s: Seq<char>, c: char)
    ensures
        first_index(s, c) <= s.len(),
        first_index(s, c) < s.len() ==> s[first_index(s, c) as int] == c,
    decreases s.len(),
{
    if s.len() > 0 && s[0] != c {
        lemma_first_found(s.drop_first(), c);
        if first_index(s, c) < s.len() {
            assert(s[first_index(s, c) as int] == s.drop_first()[first_index(s.drop_first(), c) as int]);
        }
    }
}


/// The bounds of every record in `s` (see [`records`]), in order.
fn record_ranges(s: &Vec<char>) -> (r: Vec<(usize, usize)>)
    ensures
        r@.len() == records(s@).len(),
        forall|i: int| 0 <= i < r@.len() ==> {
            &&& (#[trigger] r@[i]).0 <= r@[i].1 <= s@.len()
            &&& s@.subrange(r@[i].0 as int, r@[i].1 as int) == records(s@)[i]
        },
{
    let n = s.len();
    let ghost pieces = split_on(s@, RECORD);
    let mut out: Vec<(usize, usize)> = Vec::new();
    let first = find_char(s, 0, RECORD);
    proof {
        assert(s@.subrange(0, n as int) =~= s@);
        lemma_split_step(s@, RECORD, 0, first as int);
    }
    if first == n {
        return out;
    }
    let mut pos: usize = first + 1;
    let ghost mut k: int = 1;
    proof {
        assert(pieces.skip(1) =~= pieces.drop_first());
    }
    loop
        invariant_except_break
            1 <= k < pieces.len(),
            split_on(s@.subrange(pos as int, n as int), RECORD) == pieces.skip(k),
            out@.len() == k - 1,
        invariant
            n == s@.len(),
            pieces == split_on(s@, RECORD),
            pos <= n,
            forall|i: int| 0 <= i < out@.len() ==> {
                &&& (#[trigger] out@[i]).0 <= out@[i].1 <= s@.len()
                &&& s@.subrange(out@[i].0 as int, out@[i].1 as int) == pieces[i + 1]
            },
        ensures
            out@.len() == pieces.len() - 1,
        decreases n - pos,
    {
        let q = find_char(s, pos, RECORD);
        proof {
            lemma_split_step(s@, RECORD, pos as int, q as int);
            assert(pieces.skip(k)[0] == pieces[k]);
        }
        out.push((pos, q));
        if q == n {
            break;
        }
        proof {
            assert(split_on(s@.subrange(q + 1, n as int), RECORD).len() >= 1);
            assert(pieces.skip(k + 1) =~= pieces.skip(k).drop_first());
            k = k + 1;
        }
        pos = q + 1;
    }
    out
}

/// One record of the icon script's output, `<name>\n<ext>\n<base64>`, as
/// (name, `data:` URI); `None` when a part is missing or the extension is
/// not a displayable type.
pub open spec fn icon_record(r: Seq<char>) -> Option<(Seq<char>, Seq<char>)> {
    let k1 = first_index(r, '\n');
    if k1 >= r.len() {
        None
    } else {
        let rest = r.subrange(k1 as int + 1, r.len() as int);
        let k2 = first_index(rest, '\n');
        if k2 >= rest.len() {
            None
        } else {
            match mime_for(rest.subrange(0, k2 as int)) {
                Some(m) => Some((r.subrange(0, k1 as int), data_uri_spec(m, rest.subrange(k2 as int + 1, rest.len() as int)))),
                None => None,
            }
        }
    }
}

/// The usable icon records among `rs`, in order.
pub open spec fn icon_records(rs: Seq<Seq<char>>) -> Seq<(Seq<char>, Seq<char>)>
    decreases rs.len(),
{
    if rs.len() == 0 {
        Seq::empty()
    } else {
        match icon_record(rs.last()) {
            Some(p) => icon_records(rs.drop_last()).push(p),
            None => icon_records(rs.drop_last()),
        }
    }
}

/// A pair of strings as plain values.
pub open spec fn pair_view(p: (String, String)) -> (Seq<char>, Seq<char>) {
    (p.0@, p.1@)
}

/// Every (icon name, `data:` URI) pair the icon script printed, in order
/// (see [`icon_record`]).
pub fn parse_icon_records(output: &str) -> (r: Vec<(String, String)>)
    ensures
        r@.map_values(|p: (String, String)| pair_view(p)) == icon_records(records(output@)),
{
    let s = chars_of(output);
    let ranges = record_ranges(&s);
    let ghost rs = records(s@);
    let mut out: Vec<(String, String)> = Vec::new();
    let mut i: usize = 0;
    assert(rs.take(0) =~= Seq::<Seq<char>>::empty());
    while i < ranges.len()
        invariant
            ranges@.len() == rs.len(),
            rs == records(s@),
            i <= ranges@.len(),
            forall|j: int| 0 <= j < ranges@.len() ==> {
                &&& (#[trigger] ranges@[j]).0 <= ranges@[j].1 <= s@.len()
                &&& s@.subrange(ranges@[j].0 as int, ranges@[j].1 as int) == rs[j]
            },
            out@.map_values(|p: (String, String)| pair_view(p)) == icon_records(rs.take(i as int)),
        decreases ranges@.len() - i,
    {
        let (lo, hi) = ranges[i];
        let ghost r = s@.subrange(lo as int, hi as int);
        assert(r == rs[i as int]);
        assert(rs.take(i + 1).drop_last() =~= rs.take(i as int));
        assert(rs.take(i + 1).last() == r);
        let ghost before = out@;
        let k1 = find_char(&s, lo, '\n');
        proof { lemma_first_in_range(s@, '\n', lo as int, hi as int, k1 as int); }
        if k1 < hi {
            let ghost rest = r.subrange(k1 - lo + 1, r.len() as int);
            assert(rest =~= s@.subrange(k1 + 1, hi as int));
            let k2 = find_char(&s, k1 + 1, '\n');
            proof { lemma_first_in_range(s@, '\n', k1 + 1, hi as int, k2 as int); }
            if k2 < hi {
                assert(rest.subrange(0, k2 - k1 - 1) =~= s@.subrange(k1 + 1, k2 as int));
                assert(rest.subrange(k2 - k1, rest.len() as int) =~= s@.subrange(k2 + 1, hi as int));
                assert(r.subrange(0, k1 - lo) =~= s@.subrange(lo as int, k1 as int));
                let ext = string_of_range(&s, k1 + 1, k2);
                match icon_mime(ext.as_str()) {
                    Some(mime) => {
                        let name = string_of_range(&s, lo, k1);
                        let data = string_of_range(&s, k2 + 1, hi);
                        let uri = data_uri(mime, data.as_str());
                        out.push((name, uri));
                    },
                    None => {},
                }
            }
        }
        assert(out@.map_values(|p: (String, String)| pair_view(p)) =~= icon_records(rs.take(i + 1)));
        i = i + 1;
    }
    assert(rs.take(ranges@.len() as int) =~= rs);
    out
}

/// The first `c` at or after `lo`, searched up to the end of `s`, tells
/// where the first `c` of `s[lo..hi]` is.
proof fn lemma_first_in_range(s: Seq<char>, c: char, lo: int, hi: int, q: int)
    requires
        0 <= lo <= hi <= s.len(),
        lo <= q <= s.len(),
        first_index(s.subrange(lo, s.len() as int), c) == q - lo,
    ensures
        q < hi ==> first_index(s.subrange(lo, hi), c) == q - lo,
        q >= hi ==> first_index(s.subrange(lo, hi), c) == hi - lo,
{
    let whole = s.subrange(lo, s.len() as int);
    let part = s.subrange(lo, hi);
    lemma_first_found(whole, c);
    let m = if q < hi { q } else { hi };
    assert forall|j: int| 0 <= j < m - lo implies part[j] != c by {
        assert(part[j] == whole[j]);
        if whole[j] == c {
            lemma_first_before(whole, c, j);
        }
    }
    if q < hi {
        assert(part[q - lo] == whole[q - lo]);
    }
    lemma_first_index(part, c, m - lo);
}

/// The URI the last record for `name` gave, as a map filled in record
/// order keeps it.
pub open spec fn icon_lookup(icons: Seq<(Seq<char>, Seq<char>)>, name: Seq<char>) -> Option<Seq<char>>
    decreases icons.len(),
{
    if icons.len() == 0 {
        None
    } else if icons.last().0 == name {
        Some(icons.last().1)
    } else {
        icon_lookup(icons.drop_last(), name)
    }
}

/// The `data:` URI read for the icon `name`, if any.
pub fn icon_for(icons: &Vec<(String, String)>, name: &str) -> (r: Option<String>)
    ensures
        opt_view(r) == icon_lookup(icons@.map_values(|p: (String, String)| pair_view(p)), name@),
{
    let ghost v = icons@.map_values(|p: (String, String)| pair_view(p));
    let mut j: usize = icons.len();
    assert(v.take(j as int) =~= v);
    while j > 0
        invariant
            j <= icons@.len(),
            v == icons@.map_values(|p: (String, String)| pair_view(p)),
            icon_lookup(v, name@) == icon_lookup(v.take(j as int), name@),
        decreases j,
    {
        let ghost t = v.take(j as int);
        assert(t.drop_last() =~= v.take(j - 1));
        assert(t.last() == pair_view(icons@[j - 1]));
        if crate::text::str_eq(icons[j - 1].0.as_str(), name) {
            return Some(crate::text::string_of(icons[j - 1].1.as_str()));
        }
        j = j - 1;
    }
    None
}

/// The picker's entries: each parsed entry with its icon key resolved
/// through `icons`.
pub fn attach_icons(entries: Vec<DesktopEntry>, icons: &Vec<(String, String)>) -> (r: Vec<AppEntry>)
    ensures
        r@.len() == entries@.len(),
        forall|i: int| 0 <= i < r@.len() ==> {
            &&& (#[trigger] r@[i]).name@ == entries@[i].name@
            &&& r@[i].command@ == entries@[i].command@
            &&& opt_view(r@[i].icon) == match opt_view(entries@[i].icon) {
                Some(key) => icon_lookup(icons@.map_values(|p: (String, String)| pair_view(p)), key),
                None => None,
            }
        },
{
    let ghost orig = entries@;
    let mut out: Vec<AppEntry> = Vec::new();
    let mut rest = entries;
    let n = rest.len();
    let mut i: usize = 0;
    assert(rest@ =~= orig.subrange(0, n as int));
    while i < n
        invariant
            n == orig.len(),
            i <= n,
            rest@ == orig.subrange(i as int, n as int),
            out@.len() == i,
            forall|j: int| 0 <= j < i ==> {
                &&& (#[trigger] out@[j]).name@ == orig[j].name@
                &&& out@[j].command@ == orig[j].command@
                &&& opt_view(out@[j].icon) == match opt_view(orig[j].icon) {
                    Some(key) => icon_lookup(icons@.map_values(|p: (String, String)| pair_view(p)), key),
                    None => None,
                }
            },
        decreases n - i,
    {
        let e = rest.remove(0);
        assert(e == orig[i as int]);
        assert(rest@ =~= orig.subrange(i + 1, n as int));
        let DesktopEntry { name, command, icon } = e;
        let resolved = match icon {
            Some(key) => icon_for(icons, key.as_str()),
            None => None,
        };
        out.push(AppEntry { name, command, icon: resolved });
        i = i + 1;
    }
    out
}

/// The distinct icon keys of `entries`, each where it first occurs.
pub open spec fn icon_keys_spec(keys: Seq<Option<Seq<char>>>) -> Seq<Seq<char>>
    decreases keys.len(),
{
    if keys.len() == 0 {
        Seq::empty()
    } else {
        let prev = icon_keys_spec(keys.drop_last());
        match keys.last() {
            Some(k) => if prev.contains(k) { prev } else { prev.push(k) },
            None => prev,
        }
    }
}

/// The icon keys to look up on the host: each distinct key once.
pub fn icon_keys(entries: &Vec<DesktopEntry>) -> (r: Vec<String>)
    ensures
        crate::protocol::strings_view(r@) == icon_keys_spec(entries@.map_values(|d: DesktopEntry| opt_view(d.icon))),
{
    let ghost keys = entries@.map_values(|d: DesktopEntry| opt_view(d.icon));
    let mut out: Vec<String> = Vec::new();
    let mut i: usize = 0;
    assert(keys.take(0) =~= Seq::<Option<Seq<char>>>::empty());
    while i < entries.len()
        invariant
            i <= entries@.len(),
            keys == entries@.map_values(|d: DesktopEntry| opt_view(d.icon)),
            crate::protocol::strings_view(out@) == icon_keys_spec(keys.take(i as int)),
        decreases entries@.len() - i,
    {
        assert(keys.take(i + 1).drop_last() =~= keys.take(i as int));
        assert(keys.take(i + 1).last() == opt_view(entries@[i as int].icon));
        match &entries[i].icon {
            Some(k) => {
                if !contains_string(&out, k.as_str()) {
                    out.push(crate::text::string_of(k.as_str()));
                }
            },
            None => {},
        }
        assert(crate::protocol::strings_view(out@) =~= icon_keys_spec(keys.take(i + 1)));
        i = i + 1;
    }
    assert(keys.take(entries@.len() as int) =~= keys);
    out
}

/// For each id, whether it is the first occurrence of that id: the native
/// listing reads a desktop file only for the first file of each name.
pub fn keep_first(ids: &Vec<String>) -> (r: Vec<bool>)
    ensures
        r@.len() == ids@.len(),
        forall|i: int| 0 <= i < r@.len() ==> #[trigger] r@[i] == !crate::protocol::strings_view(ids@).take(i).contains(ids@[i]@),
{
    let ghost v = crate::protocol::strings_view(ids@);
    let mut seen: Vec<String> = Vec::new();
    let mut out: Vec<bool> = Vec::new();
    let mut i: usize = 0;
    while i < ids.len()
        invariant
            i <= ids@.len(),
            v == crate::protocol::strings_view(ids@),
            out@.len() == i,
            forall|j: int| 0 <= j < i ==> #[trigger] out@[j] == !v.take(j).contains(ids@[j]@),
            forall|x: Seq<char>| crate::protocol::strings_view(seen@).contains(x) <==> v.take(i as int).contains(x),
        decreases ids@.len() - i,
    {
        let ghost prev = crate::protocol::strings_view(seen@);
        let fresh = !contains_string(&seen, ids[i].as_str());
        if fresh {
            seen.push(crate::text::string_of(ids[i].as_str()));
            assert(crate::protocol::strings_view(seen@) =~= prev.push(ids@[i as int]@));
        } else {
            assert(crate::protocol::strings_view(seen@) =~= prev);
        }
        proof {
            let sv = crate::protocol::strings_view(seen@);
            assert(v[i as int] == ids@[i as int]@);
            assert forall|x: Seq<char>| sv.contains(x) <==> v.take(i + 1).contains(x) by {
                assert(prev.contains(x) <==> v.take(i as int).contains(x));
                if v.take(i + 1).contains(x) {
                    let w = choose|w: int| 0 <= w < i + 1 && #[trigger] v.take(i + 1)[w] == x;
                    if w < i {
                        assert(v.take(i as int)[w] == x);
                    }
                }
                if v.take(i as int).contains(x) {
                    let w = choose|w: int| 0 <= w < i && #[trigger] v.take(i as int)[w] == x;
                    assert(v.take(i + 1)[w] == x);
                }
                if x == v[i as int] {
                    assert(v.take(i + 1)[i as int] == x);
                }
                if sv.contains(x) {
                    let w = choose|w: int| 0 <= w < sv.len() && #[trigger] sv[w] == x;
                    if w < prev.len() {
                        assert(prev[w] == x);
                    }
                }
                if prev.contains(x) {
                    let w = choose|w: int| 0 <= w < prev.len() && #[trigger] prev[w] == x;
                    assert(sv[w] == x);
                }
                if fresh && x == v[i as int] {
                    assert(sv[prev.len() as int] == x);
                }
            }
        }
        out.push(fresh);
        i = i + 1;
    }
    out
}

} // verus!
