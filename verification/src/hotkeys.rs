//! What a global hotkey does to the editor state: which macro a run hotkey
//! starts, how the next/previous-macro hotkeys cycle through the saved
//! macros, and the loop, recording, undo and redo switches. The outside
//! work (starting a run, saving a setting, stopping runs) is handed back as
//! an effect for the host to perform.

use vstd::prelude::*;
use crate::protocol::strings_view;
use crate::state::{HotkeyAction, RecordingPhase};
use crate::text::str_eq;

verus! {

/// The index of the first of `ids` equal to `id`.
pub open spec fn index_of(ids: Seq<Seq<char>>, id: Seq<char>) -> Option<int>
    decreases ids.len(),
{
    if ids.len() == 0 {
        None
    } else {
        match index_of(ids.drop_last(), id) {
            Some(i) => Some(i),
            None => if ids.last() == id {
                Some(ids.len() - 1)
            } else {
                None
            },
        }
    }
}

/// Where the selected macro stands in the saved list: the first entry with
/// its id, or the top of the list when it has none or is not there.
pub open spec fn current_index(ids: Seq<Seq<char>>, selected: Option<Seq<char>>) -> int {
    match selected {
        Some(id) => match index_of(ids, id) {
            Some(i) => i,
            None => 0,
        },
        None => 0,
    }
}

/// The macro after the selected one, wrapping to the first.
pub open spec fn next_index(ids: Seq<Seq<char>>, selected: Option<Seq<char>>) -> int {
    (current_index(ids, selected) + 1) % (ids.len() as int)
}

/// The macro before the selected one, wrapping to the last.
pub open spec fn prev_index(ids: Seq<Seq<char>>, selected: Option<Seq<char>>) -> int {
    let i = current_index(ids, selected);
    if i == 0 {
        ids.len() - 1
    } else {
        i - 1
    }
}

/// The first match [`index_of`] finds is in the list, holds `id`, and has
/// no match before it.
pub proof fn lemma_index_of_bounds(ids: Seq<Seq<char>>, id: Seq<char>)
    ensures
        index_of(ids, id) matches Some(k) ==> 0 <= k < ids.len() && ids[k] == id && forall|j: int|
            0 <= j < k ==> ids[j] != id,
        index_of(ids, id) is None ==> forall|j: int| 0 <= j < ids.len() ==> ids[j] != id,
    decreases ids.len(),
{
    if ids.len() > 0 {
        let p = ids.drop_last();
        lemma_index_of_bounds(p, id);
        assert forall|j: int| 0 <= j < p.len() implies p[j] == ids[j] by {}
    }
}

/// Finds the first of `ids` equal to `id`.
pub fn find_index(ids: &Vec<String>, id: &str) -> (r: Option<usize>)
    ensures
        match r {
            Some(i) => i < ids@.len() && index_of(strings_view(ids@), id@) == Some(i as int),
            None => index_of(strings_view(ids@), id@) is None,
        },
{
    let ghost v = strings_view(ids@);
    proof {
        lemma_index_of_bounds(v, id@);
    }
    let mut i: usize = 0;
    while i < ids.len()
        invariant
            i <= ids@.len(),
            v == strings_view(ids@),
            forall|j: int| 0 <= j < i ==> v[j] != id@,
        decreases ids@.len() - i,
    {
        if str_eq(ids[i].as_str(), id) {
            proof {
                lemma_index_of_bounds(v, id@);
                assert(v[i as int] == id@);
                let k = index_of(v, id@)->Some_0;
                if k < i {
                    assert(v[k] != id@);
                } else if k > i {
                    assert(v[i as int] != id@);
                }
            }
            return Some(i);
        }
        i = i + 1;
    }
    None
}

/// Where the selected macro stands in the saved list (see
/// [`current_index`]).
fn selected_index(ids: &Vec<String>, selected: Option<&str>) -> (r: usize)
    ensures
        r == current_index(strings_view(ids@), opt_str_view(selected)),
        ids@.len() > 0 ==> r < ids@.len(),
{
    match selected {
        Some(id) => {
            proof {
                lemma_index_of_bounds(strings_view(ids@), id@);
            }
            match find_index(ids, id) {
                Some(i) => i,
                None => 0,
            }
        },
        None => 0,
    }
}

/// The view of an optional string slice.
pub open spec fn opt_str_view(s: Option<&str>) -> Option<Seq<char>> {
    match s {
        Some(t) => Some(t@),
        None => None,
    }
}

/// Which macro a run hotkey starts.
#[derive(Debug, Clone, Copy, PartialEq, Eq, Structural)]
pub enum RunTarget {
    /// The macro open in the editor.
    Current,
    /// The saved macro at this index.
    Saved(usize),
}

/// The outside work a handled hotkey asks for.
#[derive(Debug, Clone, Copy, PartialEq, Eq, Structural)]
pub enum HotkeyEffect {
    Nothing,
    /// Start a run of this macro (looping when loop mode is on).
    Run(RunTarget),
    /// Stop every in-flight run.
    StopAllRuns,
    /// Open the saved macro at this index, remember it as selected, and
    /// reload its variables and lists.
    Selected(usize),
    /// Persist the new loop-mode setting.
    LoopModeSaved(bool),
    /// Recording began: reset its timing, seed the mouse position and raise
    /// the recording flag.
    RecordingStarted,
    Undo,
    Redo,
}

/// The part of the editor state hotkeys read and change.
#[derive(Debug, Clone, PartialEq, Eq, Structural)]
pub struct HotkeyState {
    /// Whether an input backend exists to play macros through.
    pub has_emulator: bool,
    /// Whether a macro is open in the editor.
    pub has_current_macro: bool,
    pub macro_selected: Option<usize>,
    pub loop_mode_enabled: bool,
    pub is_looping: bool,
    pub recording_phase: RecordingPhase,
    pub recording_generation: u64,
}

impl HotkeyState {
    /// Handles one hotkey action. `saved` holds the ids of the saved macros
    /// (the in-memory list for a specific-macro run, the list on disk for
    /// next/previous) and `selected` the id remembered as selected.
    pub fn handle(&mut self, action: &HotkeyAction, saved: &Vec<String>, selected: Option<&str>) -> (e: HotkeyEffect)
        ensures
            final(self).has_emulator == old(self).has_emulator,
            final(self).loop_mode_enabled == if action is ToggleLoop {
                !old(self).loop_mode_enabled
            } else {
                old(self).loop_mode_enabled
            },
            match *action {
                HotkeyAction::RunMacro => if old(self).has_emulator && old(self).has_current_macro {
                    e == HotkeyEffect::Run(RunTarget::Current) && *final(self) == HotkeyState {
                        is_looping: true,
                        ..*old(self)
                    }
                } else {
                    e == HotkeyEffect::Nothing && *final(self) == *old(self)
                },
                HotkeyAction::RunSpecificMacro(id) => match index_of(strings_view(saved@), id@) {
                    Some(i) => if old(self).has_emulator {
                        e == HotkeyEffect::Run(RunTarget::Saved(i as usize)) && *final(self) == HotkeyState {
                            is_looping: true,
                            ..*old(self)
                        }
                    } else {
                        e == HotkeyEffect::Nothing && *final(self) == *old(self)
                    },
                    None => e == HotkeyEffect::Nothing && *final(self) == *old(self),
                },
                HotkeyAction::StopLoop => e == HotkeyEffect::StopAllRuns && *final(self) == HotkeyState {
                    is_looping: false,
                    ..*old(self)
                },
                HotkeyAction::NextMacro => if saved@.len() == 0 {
                    e == HotkeyEffect::Nothing && *final(self) == *old(self)
                } else {
                    let n = next_index(strings_view(saved@), opt_str_view(selected));
                    e == HotkeyEffect::Selected(n as usize) && *final(self) == HotkeyState {
                        macro_selected: Some(n as usize),
                        has_current_macro: true,
                        ..*old(self)
                    }
                },
                HotkeyAction::PrevMacro => if saved@.len() == 0 {
                    e == HotkeyEffect::Nothing && *final(self) == *old(self)
                } else {
                    let p = prev_index(strings_view(saved@), opt_str_view(selected));
                    e == HotkeyEffect::Selected(p as usize) && *final(self) == HotkeyState {
                        macro_selected: Some(p as usize),
                        has_current_macro: true,
                        ..*old(self)
                    }
                },
                HotkeyAction::ToggleLoop => e == HotkeyEffect::LoopModeSaved(!old(self).loop_mode_enabled)
                    && *final(self) == HotkeyState { loop_mode_enabled: !old(self).loop_mode_enabled, ..*old(self) },
                HotkeyAction::StartRecordingImmediate => if old(self).has_current_macro {
                    e == HotkeyEffect::RecordingStarted && *final(self) == HotkeyState {
                        recording_phase: RecordingPhase::Active,
                        recording_generation: if old(self).recording_generation == u64::MAX {
                            0
                        } else {
                            (old(self).recording_generation + 1) as u64
                        },
                        ..*old(self)
                    }
                } else {
                    e == HotkeyEffect::Nothing && *final(self) == *old(self)
                },
                HotkeyAction::StopRecording => e == HotkeyEffect::Nothing && *final(self) == *old(self),
                HotkeyAction::Undo => e == HotkeyEffect::Undo && *final(self) == *old(self),
                HotkeyAction::Redo => e == HotkeyEffect::Redo && *final(self) == *old(self),
            },
    {
        match action {
            HotkeyAction::RunMacro => {
                if self.has_emulator && self.has_current_macro {
                    self.is_looping = true;
                    HotkeyEffect::Run(RunTarget::Current)
                } else {
                    HotkeyEffect::Nothing
                }
            },
            HotkeyAction::RunSpecificMacro(id) => {
                match find_index(saved, id.as_str()) {
                    Some(i) => if self.has_emulator {
                        self.is_looping = true;
                        HotkeyEffect::Run(RunTarget::Saved(i))
                    } else {
                        HotkeyEffect::Nothing
                    },
                    None => HotkeyEffect::Nothing,
                }
            },
            HotkeyAction::StopLoop => {
                self.is_looping = false;
                HotkeyEffect::StopAllRuns
            },
            HotkeyAction::NextMacro => {
                if saved.len() == 0 {
                    return HotkeyEffect::Nothing;
                }
                let i = selected_index(saved, selected);
                let next = (i + 1) % saved.len();
                self.macro_selected = Some(next);
                self.has_current_macro = true;
                HotkeyEffect::Selected(next)
            },
            HotkeyAction::PrevMacro => {
                if saved.len() == 0 {
                    return HotkeyEffect::Nothing;
                }
                let i = selected_index(saved, selected);
                let prev = if i == 0 {
                    saved.len() - 1
                } else {
                    i - 1
                };
                self.macro_selected = Some(prev);
                self.has_current_macro = true;
                HotkeyEffect::Selected(prev)
            },
            HotkeyAction::ToggleLoop => {
                self.loop_mode_enabled = !self.loop_mode_enabled;
                HotkeyEffect::LoopModeSaved(self.loop_mode_enabled)
            },
            HotkeyAction::StartRecordingImmediate => {
                if self.has_current_macro {
                    self.recording_generation = self.recording_generation.wrapping_add(1);
                    self.recording_phase = RecordingPhase::Active;
                    HotkeyEffect::RecordingStarted
                } else {
                    HotkeyEffect::Nothing
                }
            },
            HotkeyAction::StopRecording => HotkeyEffect::Nothing,
            HotkeyAction::Undo => HotkeyEffect::Undo,
            HotkeyAction::Redo => HotkeyEffect::Redo,
        }
    }
}

/// Cycling back undoes cycling forward: when the selected macro is in the
/// saved list and no id occurs twice, the previous macro of the next one
/// is the selected macro again, and the next macro of the previous one too.
pub proof fn lemma_next_prev_inverse(ids: Seq<Seq<char>>, selected: Seq<char>)
    requires
        ids.contains(selected),
        forall|a: int, b: int| 0 <= a < b < ids.len() ==> ids[a] != ids[b],
    ensures
        prev_index(ids, Some(ids[next_index(ids, Some(selected))])) == current_index(ids, Some(selected)),
        next_index(ids, Some(ids[prev_index(ids, Some(selected))])) == current_index(ids, Some(selected)),
{
    let k = choose|k: int| 0 <= k < ids.len() && ids[k] == selected;
    lemma_index_of_distinct(ids, k);
    let c = current_index(ids, Some(selected));
    assert(c == k);
    let len = ids.len() as int;
    if k + 1 < len {
        vstd::arithmetic::div_mod::lemma_small_mod((k + 1) as nat, len as nat);
    } else {
        vstd::arithmetic::div_mod::lemma_mod_self_0(len);
    }
    let n = next_index(ids, Some(selected));
    assert(n == if k + 1 < len { k + 1 } else { 0 });
    lemma_index_of_distinct(ids, n);
    let p = prev_index(ids, Some(selected));
    assert(p == if k == 0 { len - 1 } else { k - 1 });
    lemma_index_of_distinct(ids, p);
    if p + 1 < len {
        vstd::arithmetic::div_mod::lemma_small_mod((p + 1) as nat, len as nat);
    } else {
        vstd::arithmetic::div_mod::lemma_mod_self_0(len);
    }
}

/// In a list without repeats, an entry's id is found at its own index.
proof fn lemma_index_of_distinct(ids: Seq<Seq<char>>, k: int)
    requires
        0 <= k < ids.len(),
        forall|a: int, b: int| 0 <= a < b < ids.len() ==> ids[a] != ids[b],
    ensures
        index_of(ids, ids[k]) == Some(k),
{
    let id = ids[k];
    lemma_index_of_bounds(ids, id);
    match index_of(ids, id) {
        Some(w) => {
            if w < k {
                assert(ids[w] != ids[k]);
            } else if w > k {
                assert(ids[k] != id);
            }
        },
        None => {
            assert(ids[k] != id);
        },
    }
}


/// The ids of (id, name) pairs.
pub open spec fn ids_of(macros: Seq<(String, String)>) -> Seq<Seq<char>> {
    Seq::new(macros.len(), |i: int| macros[i].0@)
}

/// The names of (id, name) pairs.
pub open spec fn names_of(macros: Seq<(String, String)>) -> Seq<Seq<char>> {
    Seq::new(macros.len(), |i: int| macros[i].1@)
}

/// After the saved macros were reloaded, given as (id, name) pairs: their
/// names for the macro dropdown, and where the open macro (`current_id`)
/// now stands, `None` when it is gone. With no macro open the selection
/// stays as it was.
pub fn refresh_macro_list(macros: &Vec<(String, String)>, current_id: Option<&str>, selected: Option<usize>) -> (r: (Vec<String>, Option<usize>))
    ensures
        strings_view(r.0@) == names_of(macros@),
        match current_id {
            Some(id) => match index_of(ids_of(macros@), id@) {
                Some(k) => r.1 == Some(k as usize),
                None => r.1 is None,
            },
            None => r.1 == selected,
        },
{
    let mut names: Vec<String> = Vec::new();
    let mut ids: Vec<String> = Vec::new();
    let mut i: usize = 0;
    while i < macros.len()
        invariant
            i <= macros@.len(),
            strings_view(names@) == names_of(macros@).take(i as int),
            strings_view(ids@) == ids_of(macros@).take(i as int),
        decreases macros@.len() - i,
    {
        let ghost pn = strings_view(names@);
        let ghost pi = strings_view(ids@);
        names.push(crate::text::string_of(macros[i].1.as_str()));
        ids.push(crate::text::string_of(macros[i].0.as_str()));
        assert(strings_view(names@) =~= pn.push(macros@[i as int].1@));
        assert(strings_view(ids@) =~= pi.push(macros@[i as int].0@));
        assert(names_of(macros@).take(i + 1) =~= names_of(macros@).take(i as int).push(macros@[i as int].1@));
        assert(ids_of(macros@).take(i + 1) =~= ids_of(macros@).take(i as int).push(macros@[i as int].0@));
        i = i + 1;
    }
    assert(names_of(macros@).take(macros@.len() as int) =~= names_of(macros@));
    assert(ids_of(macros@).take(macros@.len() as int) =~= ids_of(macros@));
    let sel = match current_id {
        Some(id) => find_index(&ids, id),
        None => selected,
    };
    (names, sel)
}

} // verus!
