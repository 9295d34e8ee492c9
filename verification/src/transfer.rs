//! Moving macros in and out as files: the default export file name, the
//! review an import gets before it is committed (commands it could run,
//! settings it changes), resetting the settings the user declined, and the
//! color check custom blocks go through.

use vstd::prelude::*;
use crate::instruction::{
    any_runs_command, is_command_block, lemma_found_command_is_reached, lemma_reached_command_is_found,
    reached_along, Instruction,
};
use crate::macros::Macro;
use crate::state::MacroSettings;
use crate::text::{chars_of, push_all, str_eq, string_of, string_of_range, trim, trim_range};

verus! {

// ---------------------------------------------------------------------------
// Export

/// Characters illegal in file names on common platforms.
pub open spec fn is_illegal_in_filename(c: char) -> bool {
    c == '/' || c == '\\' || c == ':' || c == '*' || c == '?' || c == '"' || c == '<' || c == '>' || c == '|'
}

/// `name` with each illegal character replaced by `_`.
pub open spec fn replace_illegal(name: Seq<char>) -> Seq<char> {
    Seq::new(name.len(), |i: int| if is_illegal_in_filename(name[i]) { '_' } else { name[i] })
}

/// A macro name made safe as a file name: illegal characters become `_`,
/// surrounding whitespace goes, and an empty result becomes `macro`.
pub open spec fn sanitize_spec(name: Seq<char>) -> Seq<char> {
    let t = trim(replace_illegal(name));
    if t.len() == 0 {
        "macro"@
    } else {
        t
    }
}

/// Makes a macro's free-form name usable as a default export file name (see
/// [`sanitize_spec`]).
pub fn sanitize_filename(name: &str) -> (r: String)
    ensures
        r@ == sanitize_spec(name@),
{
    let s = chars_of(name);
    let n = s.len();
    let mut cleaned: Vec<char> = Vec::new();
    let mut i: usize = 0;
    while i < n
        invariant
            n == s@.len(),
            i <= n,
            cleaned@ == replace_illegal(s@).take(i as int),
        decreases n - i,
    {
        let c = s[i];
        let d = if c == '/' || c == '\\' || c == ':' || c == '*' || c == '?' || c == '"' || c == '<'
            || c == '>' || c == '|' {
            '_'
        } else {
            c
        };
        cleaned.push(d);
        i = i + 1;
        assert(cleaned@ =~= replace_illegal(s@).take(i as int));
    }
    assert(replace_illegal(s@).take(n as int) =~= replace_illegal(s@));
    let (a, b) = trim_range(&cleaned, 0, n);
    assert(cleaned@.subrange(0, n as int) =~= cleaned@);
    if a == b {
        string_of("macro")
    } else {
        string_of_range(&cleaned, a, b)
    }
}

/// The index of the first macro whose id is `id`.
pub open spec fn first_with_id(macros: Seq<Macro>, id: Seq<char>) -> Option<int> {
    if exists|i: int| 0 <= i < macros.len() && (#[trigger] macros[i]).id@ == id {
        Some(choose|i: int|
            0 <= i < macros.len() && (#[trigger] macros[i]).id@ == id && forall|j: int|
                0 <= j < i ==> macros[j].id@ != id)
    } else {
        None
    }
}

/// Finds the saved macro with id `macro_id`; `Macro not found` when there
/// is none.
pub fn find_macro(macros: &Vec<Macro>, macro_id: &str) -> (r: Result<usize, String>)
    ensures
        match r {
            Ok(i) => i < macros@.len() && first_with_id(macros@, macro_id@) == Some(i as int),
            Err(e) => first_with_id(macros@, macro_id@) is None && e@ == "Macro not found"@,
        },
{
    let mut i: usize = 0;
    while i < macros.len()
        invariant
            i <= macros@.len(),
            forall|j: int| 0 <= j < i ==> macros@[j].id@ != macro_id@,
        decreases macros@.len() - i,
    {
        if str_eq(macros[i].id.as_str(), macro_id) {
            proof {
                let k = first_with_id(macros@, macro_id@)->Some_0;
                assert(macros@[i as int].id@ == macro_id@);
                assert(first_with_id(macros@, macro_id@) is Some);
                if k < i {
                    assert(macros@[k].id@ != macro_id@);
                } else if k > i {
                    assert(macros@[i as int].id@ != macro_id@);
                }
            }
            return Ok(i);
        }
        i = i + 1;
    }
    Err(string_of("Macro not found"))
}

/// The file name the save dialog offers when exporting the macro with id
/// `macro_id`: its sanitized name with the `.macro` extension.
pub fn export_macro_file_name(macro_id: &str, macros: &Vec<Macro>) -> (r: Result<String, String>)
    ensures
        match first_with_id(macros@, macro_id@) {
            Some(i) => r matches Ok(name) && name@ == sanitize_spec(macros@[i].name@) + ".macro"@,
            None => r matches Err(e) && e@ == "Macro not found"@,
        },
{
    match find_macro(macros, macro_id) {
        Ok(i) => {
            let mut name = sanitize_filename(macros[i].name.as_str());
            push_all(&mut name, ".macro");
            Ok(name)
        },
        Err(e) => Err(e),
    }
}

// ---------------------------------------------------------------------------
// Import review

/// Whether some strand of `mac` runs arbitrary commands: a `Command` or an
/// `OpenApp` anywhere in its bodies.
pub open spec fn macro_runs_command(mac: Macro) -> bool {
    exists|i: int| 0 <= i < mac.strands@.len() && any_runs_command((#[trigger] mac.strands@[i]).instructions@)
}

/// Whether importing `mac` needs the "this macro can run commands" warning.
pub fn macro_contains_command(mac: &Macro) -> (r: bool)
    ensures
        r == macro_runs_command(*mac),
{
    let mut i: usize = 0;
    while i < mac.strands.len()
        invariant
            i <= mac.strands@.len(),
            forall|j: int| 0 <= j < i ==> !any_runs_command((#[trigger] mac.strands@[j]).instructions@),
        decreases mac.strands@.len() - i,
    {
        if crate::instruction::body_contains_command(mac.strands[i].instructions.as_slice()) {
            return true;
        }
        i = i + 1;
    }
    false
}

/// An imported macro gets the command warning exactly when one of its
/// strands reaches a `Command` or `OpenApp` through its nested bodies (both
/// branches of every `IfElse` included).
pub proof fn lemma_command_warning_iff_command_reached(mac: Macro)
    ensures
        macro_runs_command(mac) <==> exists|k: int, path: Seq<(int, int)>, t: Instruction|
            0 <= k < mac.strands@.len() && #[trigger] reached_along(mac.strands@[k].instructions@, path, t)
                && is_command_block(t),
{
    if macro_runs_command(mac) {
        let k = choose|k: int| 0 <= k < mac.strands@.len() && any_runs_command((#[trigger] mac.strands@[k]).instructions@);
        let (path, t) = lemma_found_command_is_reached(mac.strands@[k].instructions@);
        assert(reached_along(mac.strands@[k].instructions@, path, t));
    }
    if exists|k: int, path: Seq<(int, int)>, t: Instruction|
        0 <= k < mac.strands@.len() && #[trigger] reached_along(mac.strands@[k].instructions@, path, t)
            && is_command_block(t) {
        let (k, path, t) = choose|k: int, path: Seq<(int, int)>, t: Instruction|
            0 <= k < mac.strands@.len() && #[trigger] reached_along(mac.strands@[k].instructions@, path, t)
                && is_command_block(t);
        lemma_reached_command_is_found(mac.strands@[k].instructions@, path, t);
        assert(any_runs_command(mac.strands@[k].instructions@));
    }
}

/// One setting of an imported macro that differs from its default, as the
/// import review popup lists it.
pub struct CustomMacroSettingDto {
    pub key: String,
    pub label: String,
    pub enabled: bool,
}

/// What the import review popup asks about.
pub struct ImportPromptDto {
    pub needs_command_warning: bool,
    pub custom_settings: Vec<CustomMacroSettingDto>,
}

/// The wire key of the "always listen" setting.
pub const ALWAYS_LISTEN_KEY: &'static str = "always_listen";

/// The label of the "always listen" setting.
pub const ALWAYS_LISTEN_LABEL: &'static str = "Always listen for events, even when a different macro is selected";

/// The settings of `settings` that differ from the defaults, as (key,
/// label, value).
pub open spec fn non_default_spec(settings: MacroSettings) -> Seq<(Seq<char>, Seq<char>, bool)> {
    if settings.always_listen != MacroSettings::default_spec().always_listen {
        seq![(ALWAYS_LISTEN_KEY@, ALWAYS_LISTEN_LABEL@, settings.always_listen)]
    } else {
        Seq::empty()
    }
}

/// A listed setting as plain values.
pub open spec fn setting_view(d: CustomMacroSettingDto) -> (Seq<char>, Seq<char>, bool) {
    (d.key@, d.label@, d.enabled)
}

/// Every setting of `settings` that differs from its default, for the
/// import review popup (see [`non_default_spec`]).
pub fn non_default_macro_settings(settings: &MacroSettings) -> (r: Vec<CustomMacroSettingDto>)
    ensures
        r@.map_values(|d: CustomMacroSettingDto| setting_view(d)) == non_default_spec(*settings),
{
    let default = MacroSettings::default();
    let mut out: Vec<CustomMacroSettingDto> = Vec::new();
    if settings.always_listen != default.always_listen {
        out.push(CustomMacroSettingDto {
            key: string_of(ALWAYS_LISTEN_KEY),
            label: string_of(ALWAYS_LISTEN_LABEL),
            enabled: settings.always_listen,
        });
    }
    assert(out@.map_values(|d: CustomMacroSettingDto| setting_view(d)) =~= non_default_spec(*settings));
    out
}

/// The popup an import needs, as (command warning, listed settings): `None`
/// when the macro runs no command and keeps every default, so it is
/// imported at once.
pub open spec fn import_prompt_spec(mac: Macro) -> Option<(bool, Seq<(Seq<char>, Seq<char>, bool)>)> {
    if macro_runs_command(mac) || non_default_spec(mac.settings).len() > 0 {
        Some((macro_runs_command(mac), non_default_spec(mac.settings)))
    } else {
        None
    }
}

/// Decides whether an imported macro is committed at once or first shown
/// to the user (see [`import_prompt_spec`]).
pub fn import_prompt(mac: &Macro) -> (r: Option<ImportPromptDto>)
    ensures
        match import_prompt_spec(*mac) {
            Some((warn, settings)) => r matches Some(p) && p.needs_command_warning == warn
                && p.custom_settings@.map_values(|d: CustomMacroSettingDto| setting_view(d)) == settings,
            None => r is None,
        },
{
    let needs_command_warning = macro_contains_command(mac);
    let custom_settings = non_default_macro_settings(&mac.settings);
    if needs_command_warning || custom_settings.len() > 0 {
        Some(ImportPromptDto { needs_command_warning, custom_settings })
    } else {
        None
    }
}

/// The answer recorded for `key` in the user's choices: the last one given.
pub open spec fn choice_for(keep: Seq<(Seq<char>, bool)>, key: Seq<char>) -> Option<bool>
    decreases keep.len(),
{
    if keep.len() == 0 {
        None
    } else if keep.last().0 == key {
        Some(keep.last().1)
    } else {
        choice_for(keep.drop_last(), key)
    }
}

/// A choice as plain values.
pub open spec fn choice_view(c: (String, bool)) -> (Seq<char>, bool) {
    (c.0@, c.1)
}

/// The user's answer for `key`, if the popup recorded one.
fn choice(keep: &Vec<(String, bool)>, key: &str) -> (r: Option<bool>)
    ensures
        r == choice_for(keep@.map_values(|c: (String, bool)| choice_view(c)), key@),
{
    let ghost v = keep@.map_values(|c: (String, bool)| choice_view(c));
    let mut j: usize = keep.len();
    assert(v.take(j as int) =~= v);
    while j > 0
        invariant
            j <= keep@.len(),
            v == keep@.map_values(|c: (String, bool)| choice_view(c)),
            choice_for(v, key@) == choice_for(v.take(j as int), key@),
        decreases j,
    {
        let ghost t = v.take(j as int);
        assert(t.drop_last() =~= v.take(j - 1));
        assert(t.last() == choice_view(keep@[j - 1]));
        if str_eq(keep[j - 1].0.as_str(), key) {
            return Some(keep[j - 1].1);
        }
        j = j - 1;
    }
    None
}

/// Resets each setting the user unchecked on the import popup (answered
/// `false`) to its default; a setting with no answer, or answered `true`,
/// keeps its imported value.
pub fn apply_setting_overrides(settings: &mut MacroSettings, keep: &Vec<(String, bool)>)
    ensures
        final(settings).always_listen == if choice_for(
            keep@.map_values(|c: (String, bool)| choice_view(c)),
            ALWAYS_LISTEN_KEY@,
        ) == Some(false) {
            MacroSettings::default_spec().always_listen
        } else {
            old(settings).always_listen
        },
{
    let default = MacroSettings::default();
    let keep_it = match choice(keep, ALWAYS_LISTEN_KEY) {
        Some(b) => b,
        None => true,
    };
    if !keep_it {
        settings.always_listen = default.always_listen;
    }
}

// ---------------------------------------------------------------------------
// Block colors

/// An ASCII hexadecimal digit.
pub open spec fn is_hex_digit(c: char) -> bool {
    ('0' <= c && c <= '9') || ('a' <= c && c <= 'f') || ('A' <= c && c <= 'F')
}

/// A hexadecimal digit in upper case.
pub open spec fn hex_upper(c: char) -> char {
    if c == 'a' {
        'A'
    } else if c == 'b' {
        'B'
    } else if c == 'c' {
        'C'
    } else if c == 'd' {
        'D'
    } else if c == 'e' {
        'E'
    } else if c == 'f' {
        'F'
    } else {
        c
    }
}

/// A hexadecimal digit in upper case (see [`hex_upper`]).
fn to_hex_upper(c: char) -> (r: char)
    ensures
        r == hex_upper(c),
{
    match c {
        'a' => 'A',
        'b' => 'B',
        'c' => 'C',
        'd' => 'D',
        'e' => 'E',
        'f' => 'F',
        _ => c,
    }
}

/// The stored form of a block color: `#` and six hexadecimal digits, the
/// digits in upper case; `None` for anything else.
pub open spec fn normalized_color(color: Seq<char>) -> Option<Seq<char>> {
    if color.len() == 7 && color[0] == '#' && forall|i: int| 1 <= i < 7 ==> is_hex_digit(#[trigger] color[i]) {
        Some(Seq::new(7, |i: int| hex_upper(color[i])))
    } else {
        None
    }
}

/// The characters a hexadecimal digit is written with, lower case and upper
/// case, and beside them the upper-case form of each.
pub open spec fn hex_digit_chars() -> Seq<(char, char)> {
    seq![
        ('0', '0'), ('1', '1'), ('2', '2'), ('3', '3'), ('4', '4'), ('5', '5'), ('6', '6'), ('7', '7'),
        ('8', '8'), ('9', '9'), ('a', 'A'), ('b', 'B'), ('c', 'C'), ('d', 'D'), ('e', 'E'), ('f', 'F'),
        ('A', 'A'), ('B', 'B'), ('C', 'C'), ('D', 'D'), ('E', 'E'), ('F', 'F'),
    ]
}

/// Whether `c` is one of the hexadecimal digit characters of
/// [`hex_digit_chars`].
pub open spec fn in_hex_table(c: char) -> bool {
    exists|j: int| 0 <= j < hex_digit_chars().len() && (#[trigger] hex_digit_chars()[j]).0 == c
}

proof fn lemma_hex_digit_char(c: char)
    ensures
        is_hex_digit(c) <==> in_hex_table(c),
        forall|j: int|
            0 <= j < hex_digit_chars().len() && (#[trigger] hex_digit_chars()[j]).0 == c ==> hex_upper(c)
                == hex_digit_chars()[j].1,
{
    let t = hex_digit_chars();
    assert(t.len() == 22);
    assert(t[0] == ('0', '0') && t[1] == ('1', '1') && t[2] == ('2', '2') && t[3] == ('3', '3'));
    assert(t[4] == ('4', '4') && t[5] == ('5', '5') && t[6] == ('6', '6') && t[7] == ('7', '7'));
    assert(t[8] == ('8', '8') && t[9] == ('9', '9') && t[10] == ('a', 'A') && t[11] == ('b', 'B'));
    assert(t[12] == ('c', 'C') && t[13] == ('d', 'D') && t[14] == ('e', 'E') && t[15] == ('f', 'F'));
    assert(t[16] == ('A', 'A') && t[17] == ('B', 'B') && t[18] == ('C', 'C') && t[19] == ('D', 'D'));
    assert(t[20] == ('E', 'E') && t[21] == ('F', 'F'));
    if is_hex_digit(c) {
        let n = c as int;
        if '0' <= c && c <= '9' {
            let j = n - ('0' as int);
            assert(0 <= j < 10);
            assert(t[j].0 == c) by {
                assert(j == 0 || j == 1 || j == 2 || j == 3 || j == 4 || j == 5 || j == 6 || j == 7 || j == 8
                    || j == 9);
            }
            assert(in_hex_table(c));
        } else if 'a' <= c && c <= 'f' {
            let j = n - ('a' as int) + 10;
            assert(10 <= j < 16);
            assert(t[j].0 == c) by {
                assert(j == 10 || j == 11 || j == 12 || j == 13 || j == 14 || j == 15);
            }
            assert(in_hex_table(c));
        } else {
            let j = n - ('A' as int) + 16;
            assert(16 <= j < 22);
            assert(t[j].0 == c) by {
                assert(j == 16 || j == 17 || j == 18 || j == 19 || j == 20 || j == 21);
            }
            assert(in_hex_table(c));
        }
    }
    assert forall|j: int| 0 <= j < t.len() && (#[trigger] t[j]).0 == c implies is_hex_digit(c) && hex_upper(c)
        == t[j].1 by {
        assert(j == 0 || j == 1 || j == 2 || j == 3 || j == 4 || j == 5 || j == 6 || j == 7 || j == 8 || j == 9
            || j == 10 || j == 11 || j == 12 || j == 13 || j == 14 || j == 15 || j == 16 || j == 17 || j == 18
            || j == 19 || j == 20 || j == 21);
    }
}

/// A block color is accepted exactly when it is `#` and six characters each
/// a hexadecimal digit (`0`-`9`, `a`-`f`, `A`-`F`), and comes back as `#`
/// and the same six digits with their letters in upper case.
pub proof fn lemma_hex_colors_accepted_in_upper_case(color: Seq<char>)
    ensures
        normalized_color(color) is Some <==> (color.len() == 7 && color[0] == '#' && forall|i: int|
            1 <= i < 7 ==> in_hex_table(#[trigger] color[i])),
        normalized_color(color) matches Some(r) ==> r.len() == 7 && r[0] == '#' && forall|i: int, j: int|
            1 <= i < 7 && 0 <= j < hex_digit_chars().len() && (#[trigger] hex_digit_chars()[j]).0
                == #[trigger] color[i] ==> r[i] == hex_digit_chars()[j].1,
{
    assert forall|i: int| 1 <= i < 7 && i < color.len() implies (is_hex_digit(#[trigger] color[i]) <==> in_hex_table(
        color[i],
    )) by {
        lemma_hex_digit_char(color[i]);
    }
    assert forall|i: int, j: int|
        1 <= i < 7 && i < color.len() && 0 <= j < hex_digit_chars().len() && (#[trigger] hex_digit_chars()[j]).0
            == #[trigger] color[i] implies hex_upper(color[i]) == hex_digit_chars()[j].1 by {
        lemma_hex_digit_char(color[i]);
    }
}

/// Checks a block color picked in the editor and brings it to its stored
/// form (see [`normalized_color`]); `Choose a valid block color` otherwise.
/// A stored color can only ever be six hex digits, so an imported or
/// hand-edited macro cannot smuggle arbitrary CSS into the editor.
pub fn normalize_block_color(color: &str) -> (r: Result<String, String>)
    ensures
        match normalized_color(color@) {
            Some(c) => r matches Ok(s) && s@ == c,
            None => r matches Err(e) && e@ == "Choose a valid block color"@,
        },
{
    let s = chars_of(color);
    if s.len() != 7 || s[0] != '#' {
        return Err(string_of("Choose a valid block color"));
    }
    let mut out = String::new();
    crate::text::string_push(&mut out, '#');
    let mut i: usize = 1;
    while i < 7
        invariant
            s@.len() == 7,
            s@ == color@,
            s@[0] == '#',
            1 <= i <= 7,
            out@.len() == i,
            out@[0] == '#',
            forall|j: int| 1 <= j < i ==> is_hex_digit(#[trigger] s@[j]),
            forall|j: int| 1 <= j < i ==> #[trigger] out@[j] == hex_upper(s@[j]),
        decreases 7 - i,
    {
        let c = s[i];
        if !(('0' <= c && c <= '9') || ('a' <= c && c <= 'f') || ('A' <= c && c <= 'F')) {
            assert(!is_hex_digit(s@[i as int]));
            return Err(string_of("Choose a valid block color"));
        }
        let u = to_hex_upper(c);
        crate::text::string_push(&mut out, u);
        i = i + 1;
    }
    assert(out@ =~= Seq::new(7, |i: int| hex_upper(color@[i])));
    Ok(out)
}

/// The color a loaded block keeps: its stored form, or `fallback` when it
/// is not a color.
pub open spec fn loaded_color(color: Seq<char>, fallback: Seq<char>) -> Seq<char> {
    match normalized_color(color) {
        Some(c) => c,
        None => fallback,
    }
}

impl Macro {
    /// Brings every custom block's color to its stored form as a macro is
    /// loaded; a color that is not one becomes `fallback`.
    pub fn normalize_block_colors(&mut self, fallback: &str)
        ensures
            final(self).block_defs@.len() == old(self).block_defs@.len(),
            forall|i: int|
                0 <= i < old(self).block_defs@.len() ==> {
                    let (a, b) = (#[trigger] old(self).block_defs@[i], final(self).block_defs@[i]);
                    &&& b.id == a.id && b.shape == a.shape && b.inputs == a.inputs
                    &&& b.color@ == loaded_color(a.color@, fallback@)
                },
            final(self).id == old(self).id,
            final(self).name == old(self).name,
            final(self).description == old(self).description,
            final(self).strands == old(self).strands,
            final(self).floating_values == old(self).floating_values,
            final(self).comments == old(self).comments,
            final(self).recording_target == old(self).recording_target,
            final(self).settings == old(self).settings,
            final(self).lists == old(self).lists,
    {
        let n = self.block_defs.len();
        let mut i: usize = 0;
        while i < n
            invariant
                n == self.block_defs@.len(),
                n == old(self).block_defs@.len(),
                i <= n,
                self.id == old(self).id,
                self.name == old(self).name,
                self.description == old(self).description,
                self.strands == old(self).strands,
                self.floating_values == old(self).floating_values,
                self.comments == old(self).comments,
                self.recording_target == old(self).recording_target,
                self.settings == old(self).settings,
                self.lists == old(self).lists,
                forall|j: int| i <= j < n ==> #[trigger] self.block_defs@[j] == old(self).block_defs@[j],
                forall|j: int|
                    0 <= j < i ==> {
                        let (a, b) = (#[trigger] old(self).block_defs@[j], self.block_defs@[j]);
                        &&& b.id == a.id && b.shape == a.shape && b.inputs == a.inputs
                        &&& b.color@ == loaded_color(a.color@, fallback@)
                    },
            decreases n - i,
        {
            let color = match normalize_block_color(self.block_defs[i].color.as_str()) {
                Ok(c) => c,
                Err(_) => string_of(fallback),
            };
            self.block_defs[i].color = color;
            i = i + 1;
        }
    }
}

/// `c` is the macro `m` taken in under a fresh id, so that importing never
/// overwrites a saved macro.
pub open spec fn imported_as(m: Macro, c: Macro) -> bool {
    crate::ids::is_fresh_id(c.id@) && c == (Macro { id: c.id, ..m })
}

/// The macro `m` under a fresh id (see [`imported_as`]).
pub fn with_fresh_id(mac: Macro) -> (r: Macro)
    ensures
        imported_as(mac, r),
{
    let mut mac = mac;
    mac.id = crate::ids::new_id();
    mac
}

/// What importing a macro file leads to.
pub enum ImportStep {
    /// Show this popup; the macro waits for the user's answer.
    Prompt(ImportPromptDto),
    /// Save this macro and select it.
    Commit(Macro),
}

/// An imported macro waiting for the user's answer to its popup.
pub struct ImportStaging {
    pub pending: Option<Macro>,
}

impl ImportStaging {
    /// A macro was read from a file the user picked: it waits for the
    /// user's answer when it needs a popup (see [`import_prompt_spec`]), and
    /// is otherwise taken in at once under a fresh id.
    pub fn import_macro(&mut self, mac: Macro) -> (r: ImportStep)
        ensures
            match import_prompt_spec(mac) {
                Some((warn, settings)) => r matches ImportStep::Prompt(p) && p.needs_command_warning == warn
                    && p.custom_settings@.map_values(|d: CustomMacroSettingDto| setting_view(d)) == settings
                    && final(self).pending == Some(mac),
                None => r matches ImportStep::Commit(c) && imported_as(mac, c) && final(self).pending == old(
                    self,
                ).pending,
            },
    {
        match import_prompt(&mac) {
            Some(prompt) => {
                self.pending = Some(mac);
                ImportStep::Prompt(prompt)
            },
            None => ImportStep::Commit(with_fresh_id(mac)),
        }
    }

    /// The user answered the popup, keeping or resetting each listed
    /// setting (see [`apply_setting_overrides`]): the waiting macro is taken
    /// in under a fresh id. Nothing happens when no import waits.
    pub fn confirm_import_macro(&mut self, keep: &Vec<(String, bool)>) -> (r: Option<Macro>)
        ensures
            final(self).pending is None,
            match old(self).pending {
                Some(m) => r matches Some(c) && crate::ids::is_fresh_id(c.id@) && c == (Macro {
                    id: c.id,
                    settings: c.settings,
                    ..m
                }) && c.settings.always_listen == if choice_for(
                    keep@.map_values(|k: (String, bool)| choice_view(k)),
                    ALWAYS_LISTEN_KEY@,
                ) == Some(false) {
                    MacroSettings::default_spec().always_listen
                } else {
                    m.settings.always_listen
                },
                None => r is None,
            },
    {
        match self.pending.take() {
            Some(mac) => {
                let mut mac = mac;
                apply_setting_overrides(&mut mac.settings, keep);
                Some(with_fresh_id(mac))
            },
            None => None,
        }
    }

    /// The user declined the popup: the waiting macro is dropped.
    pub fn cancel_import_macro(&mut self)
        ensures
            final(self).pending is None,
    {
        self.pending = None;
    }
}

} // verus!
