//! Hotkey bindings as the settings page edits them: capturing a combo for a
//! named action or for a new per-macro hotkey, resetting an action to its
//! default combo, and removing bindings. Loading and saving the bindings,
//! and mapping a browser key code to a key name, are the host's work.

use vstd::prelude::*;
use crate::state::{ComboCapture, HotkeyAction, Page};
use crate::text::str_eq;

verus! {

/// A key combination: the held modifier bits and the key's name.
#[derive(Debug)]
pub struct KeyCombo {
    pub modifiers: u8,
    pub key: String,
}

/// A hotkey: an action and the combo that fires it.
#[derive(Debug)]
pub struct HotkeyBinding {
    pub action: HotkeyAction,
    pub combo: KeyCombo,
}

/// What tells actions apart: the variant, and a specific-macro action's
/// macro id.
pub type ActionKey = (int, Seq<char>);

/// A combo as plain values: modifier bits and key name.
pub type ComboModel = (u8, Seq<char>);

/// A binding as plain values.
pub type BindingModel = (ActionKey, ComboModel);

pub open spec fn action_key(a: HotkeyAction) -> ActionKey {
    match a {
        HotkeyAction::RunMacro => (0, Seq::empty()),
        HotkeyAction::StopLoop => (1, Seq::empty()),
        HotkeyAction::NextMacro => (2, Seq::empty()),
        HotkeyAction::PrevMacro => (3, Seq::empty()),
        HotkeyAction::ToggleLoop => (4, Seq::empty()),
        HotkeyAction::StartRecordingImmediate => (5, Seq::empty()),
        HotkeyAction::StopRecording => (6, Seq::empty()),
        HotkeyAction::Undo => (7, Seq::empty()),
        HotkeyAction::Redo => (8, Seq::empty()),
        HotkeyAction::RunSpecificMacro(id) => (9, id@),
    }
}

pub open spec fn combo_view(c: KeyCombo) -> ComboModel {
    (c.modifiers, c.key@)
}

pub open spec fn binding_view(b: HotkeyBinding) -> BindingModel {
    (action_key(b.action), combo_view(b.combo))
}

pub open spec fn bindings_view(s: Seq<HotkeyBinding>) -> Seq<BindingModel> {
    s.map_values(|b: HotkeyBinding| binding_view(b))
}

/// The position of the first binding for the action `key`.
pub open spec fn binding_position(v: Seq<BindingModel>, key: ActionKey) -> Option<int>
    decreases v.len(),
{
    if v.len() == 0 {
        None
    } else {
        match binding_position(v.drop_last(), key) {
            Some(i) => Some(i),
            None => if v.last().0 == key {
                Some(v.len() - 1)
            } else {
                None
            },
        }
    }
}

/// The bindings after giving the action `key` the combo `combo`: its first
/// binding takes the combo, or a new binding is added at the end when the
/// action had none.
pub open spec fn assigned(v: Seq<BindingModel>, key: ActionKey, combo: ComboModel) -> Seq<BindingModel> {
    match binding_position(v, key) {
        Some(i) => v.update(i, (key, combo)),
        None => v.push((key, combo)),
    }
}

/// The bindings for every action but `key`, in their order.
pub open spec fn without_action(v: Seq<BindingModel>, key: ActionKey) -> Seq<BindingModel>
    decreases v.len(),
{
    if v.len() == 0 {
        v
    } else {
        let rest = without_action(v.drop_last(), key);
        if v.last().0 == key {
            rest
        } else {
            rest.push(v.last())
        }
    }
}

/// The first binding [`binding_position`] finds is in range, is for `key`,
/// and no binding before it is.
pub proof fn lemma_binding_position(v: Seq<BindingModel>, key: ActionKey)
    ensures
        binding_position(v, key) matches Some(k) ==> 0 <= k < v.len() && v[k].0 == key && forall|j: int|
            0 <= j < k ==> v[j].0 != key,
        binding_position(v, key) is None ==> forall|j: int| 0 <= j < v.len() ==> v[j].0 != key,
    decreases v.len(),
{
    if v.len() > 0 {
        let p = v.drop_last();
        lemma_binding_position(p, key);
        assert forall|j: int| 0 <= j < p.len() implies p[j] == v[j] by {}
    }
}

/// Whether `a` and `b` are the same action.
pub fn actions_equal(a: &HotkeyAction, b: &HotkeyAction) -> (r: bool)
    ensures
        r == (action_key(*a) == action_key(*b)),
{
    match (a, b) {
        (HotkeyAction::RunMacro, HotkeyAction::RunMacro) => true,
        (HotkeyAction::StopLoop, HotkeyAction::StopLoop) => true,
        (HotkeyAction::NextMacro, HotkeyAction::NextMacro) => true,
        (HotkeyAction::PrevMacro, HotkeyAction::PrevMacro) => true,
        (HotkeyAction::ToggleLoop, HotkeyAction::ToggleLoop) => true,
        (HotkeyAction::StartRecordingImmediate, HotkeyAction::StartRecordingImmediate) => true,
        (HotkeyAction::StopRecording, HotkeyAction::StopRecording) => true,
        (HotkeyAction::Undo, HotkeyAction::Undo) => true,
        (HotkeyAction::Redo, HotkeyAction::Redo) => true,
        (HotkeyAction::RunSpecificMacro(x), HotkeyAction::RunSpecificMacro(y)) => str_eq(x.as_str(), y.as_str()),
        _ => false,
    }
}

/// A copy of `a`.
pub fn copy_action(a: &HotkeyAction) -> (r: HotkeyAction)
    ensures
        r == *a,
{
    match a {
        HotkeyAction::RunMacro => HotkeyAction::RunMacro,
        HotkeyAction::StopLoop => HotkeyAction::StopLoop,
        HotkeyAction::NextMacro => HotkeyAction::NextMacro,
        HotkeyAction::PrevMacro => HotkeyAction::PrevMacro,
        HotkeyAction::ToggleLoop => HotkeyAction::ToggleLoop,
        HotkeyAction::StartRecordingImmediate => HotkeyAction::StartRecordingImmediate,
        HotkeyAction::StopRecording => HotkeyAction::StopRecording,
        HotkeyAction::Undo => HotkeyAction::Undo,
        HotkeyAction::Redo => HotkeyAction::Redo,
        HotkeyAction::RunSpecificMacro(id) => HotkeyAction::RunSpecificMacro(id.clone()),
    }
}

/// A copy of `c`.
pub fn copy_combo(c: &KeyCombo) -> (r: KeyCombo)
    ensures
        r == *c,
{
    KeyCombo { modifiers: c.modifiers, key: c.key.clone() }
}

/// A copy of `b`.
pub fn copy_binding(b: &HotkeyBinding) -> (r: HotkeyBinding)
    ensures
        r == *b,
{
    HotkeyBinding { action: copy_action(&b.action), combo: copy_combo(&b.combo) }
}

/// Gives `action` the combo `combo`: its first binding takes the combo, or
/// a new binding is added at the end when it had none.
pub fn assign_combo(bindings: &mut Vec<HotkeyBinding>, action: HotkeyAction, combo: KeyCombo)
    ensures
        bindings_view(final(bindings)@) == assigned(
            bindings_view(old(bindings)@),
            action_key(action),
            combo_view(combo),
        ),
{
    let ghost v = bindings_view(bindings@);
    let ghost key = action_key(action);
    proof {
        lemma_binding_position(v, key);
    }
    let mut i: usize = 0;
    while i < bindings.len()
        invariant
            i <= bindings@.len(),
            v == bindings_view(bindings@),
            v == bindings_view(old(bindings)@),
            key == action_key(action),
            forall|j: int| 0 <= j < i ==> v[j].0 != key,
        decreases bindings@.len() - i,
    {
        if actions_equal(&bindings[i].action, &action) {
            proof {
                lemma_binding_position(v, key);
                assert(v[i as int].0 == key);
                let k = binding_position(v, key)->Some_0;
                if k < i {
                    assert(v[k].0 != key);
                }
                assert(binding_position(v, key) == Some(i as int));
            }
            let ghost c = combo_view(combo);
            bindings.set(i, HotkeyBinding { action, combo });
            assert(bindings_view(bindings@) =~= v.update(i as int, (key, c)));
            return;
        }
        i = i + 1;
    }
    let ghost c = combo_view(combo);
    bindings.push(HotkeyBinding { action, combo });
    assert(bindings_view(bindings@) =~= v.push((key, c)));
}

/// Removes the binding at `index`, when there is one; says whether it did.
pub fn remove_binding(bindings: &mut Vec<HotkeyBinding>, index: usize) -> (removed: bool)
    ensures
        removed == (index < old(bindings)@.len()),
        removed ==> bindings_view(final(bindings)@) == bindings_view(old(bindings)@).remove(index as int),
        !removed ==> final(bindings)@ == old(bindings)@,
{
    if index < bindings.len() {
        let ghost v = bindings_view(bindings@);
        let _gone = bindings.remove(index);
        assert(bindings_view(bindings@) =~= v.remove(index as int));
        true
    } else {
        false
    }
}

/// Removes every binding for `action`, keeping the others in order.
pub fn clear_action(bindings: &mut Vec<HotkeyBinding>, action: &HotkeyAction)
    ensures
        bindings_view(final(bindings)@) == without_action(bindings_view(old(bindings)@), action_key(*action)),
{
    let ghost v = bindings_view(bindings@);
    let ghost key = action_key(*action);
    let mut kept: Vec<HotkeyBinding> = Vec::new();
    let mut i: usize = 0;
    assert(v.take(0) =~= Seq::<BindingModel>::empty());
    while i < bindings.len()
        invariant
            i <= bindings@.len(),
            v == bindings_view(bindings@),
            key == action_key(*action),
            bindings_view(kept@) == without_action(v.take(i as int), key),
        decreases bindings@.len() - i,
    {
        let ghost before = kept@;
        assert(v.take(i + 1).drop_last() =~= v.take(i as int));
        assert(v.take(i + 1).last() == v[i as int]);
        if !actions_equal(&bindings[i].action, action) {
            let b = copy_binding(&bindings[i]);
            kept.push(b);
            assert(bindings_view(kept@) =~= bindings_view(before).push(v[i as int]));
        }
        i = i + 1;
    }
    assert(v.take(i as int) =~= v);
    *bindings = kept;
}

/// The macro index chosen for a per-macro hotkey being set up, if any.
pub open spec fn pending_index(p: Option<(Option<usize>, Option<KeyCombo>)>) -> Option<usize> {
    match p {
        Some((i, _)) => i,
        None => None,
    }
}

/// A per-macro hotkey being set up, as plain values.
pub open spec fn pending_view(p: Option<(Option<usize>, Option<KeyCombo>)>) -> Option<(Option<usize>, Option<ComboModel>)> {
    match p {
        Some((i, Some(c))) => Some((i, Some(combo_view(c)))),
        Some((i, None)) => Some((i, None)),
        None => None,
    }
}

/// The modifier bits stored for `action`: none for the stop-recording
/// hotkey, whose held modifiers would already have been recorded as macro
/// steps before its key arrives.
pub open spec fn stored_modifiers(action: HotkeyAction, modifiers: u8) -> u8 {
    if action is StopRecording {
        0
    } else {
        modifiers
    }
}

/// The settings page's hotkey state.
pub struct SettingsPage {
    pub page: Page,
    /// The combo being captured, if any.
    pub combo_capture: Option<ComboCapture>,
    pub bindings: Vec<HotkeyBinding>,
    /// A per-macro hotkey being set up: the chosen macro's index and the
    /// captured combo, each once given.
    pub pending_macro_hotkey: Option<(Option<usize>, Option<KeyCombo>)>,
}

impl SettingsPage {
    /// Opens the settings page with the saved `bindings`, dropping any
    /// capture or per-macro hotkey in progress.
    pub fn open_settings(&mut self, bindings: Vec<HotkeyBinding>)
        ensures
            final(self).page == Page::Settings,
            final(self).bindings == bindings,
            final(self).combo_capture is None,
            final(self).pending_macro_hotkey is None,
    {
        self.page = Page::Settings;
        self.bindings = bindings;
        self.combo_capture = None;
        self.pending_macro_hotkey = None;
    }

    /// Goes back to the main page, dropping any capture or per-macro hotkey
    /// in progress.
    pub fn close_settings(&mut self)
        ensures
            final(self).page == Page::Main,
            final(self).bindings == old(self).bindings,
            final(self).combo_capture is None,
            final(self).pending_macro_hotkey is None,
    {
        self.page = Page::Main;
        self.combo_capture = None;
        self.pending_macro_hotkey = None;
    }

    /// Starts capturing a combo for the named `action`.
    pub fn start_combo_capture(&mut self, action: HotkeyAction)
        ensures
            final(self).combo_capture == Some(ComboCapture::Named(action)),
            final(self).page == old(self).page,
            final(self).bindings == old(self).bindings,
            final(self).pending_macro_hotkey == old(self).pending_macro_hotkey,
    {
        self.combo_capture = Some(ComboCapture::Named(action));
    }

    /// Starts capturing the combo of the per-macro hotkey being set up.
    pub fn start_pending_combo_capture(&mut self)
        ensures
            final(self).combo_capture == Some(ComboCapture::Pending),
            final(self).page == old(self).page,
            final(self).bindings == old(self).bindings,
            final(self).pending_macro_hotkey == old(self).pending_macro_hotkey,
    {
        self.combo_capture = Some(ComboCapture::Pending);
    }

    /// Stops capturing.
    pub fn cancel_combo_capture(&mut self)
        ensures
            final(self).combo_capture is None,
            final(self).page == old(self).page,
            final(self).bindings == old(self).bindings,
            final(self).pending_macro_hotkey == old(self).pending_macro_hotkey,
    {
        self.combo_capture = None;
    }

    /// A key was pressed while capturing. `key` is the pressed key's name,
    /// `None` when the key has none, which leaves everything as it was.
    /// Otherwise the capture ends: a named action takes the combo (see
    /// [`assign_combo`] and [`stored_modifiers`]), and the per-macro hotkey
    /// being set up takes it as its combo. Returns whether the bindings
    /// changed and are to be saved.
    pub fn combo_capture_event(&mut self, key: Option<String>, modifiers: u8) -> (saved: bool)
        ensures
            final(self).page == old(self).page,
            match key {
                None => !saved && final(self).combo_capture == old(self).combo_capture && final(self).bindings
                    == old(self).bindings && final(self).pending_macro_hotkey == old(self).pending_macro_hotkey,
                Some(k) => final(self).combo_capture is None && match old(self).combo_capture {
                    Some(ComboCapture::Named(a)) => saved && bindings_view(final(self).bindings@) == assigned(
                        bindings_view(old(self).bindings@),
                        action_key(a),
                        (stored_modifiers(a, modifiers), k@),
                    ) && final(self).pending_macro_hotkey == old(self).pending_macro_hotkey,
                    Some(ComboCapture::Pending) => !saved && final(self).bindings == old(self).bindings
                        && pending_view(final(self).pending_macro_hotkey) == Some(
                        (pending_index(old(self).pending_macro_hotkey), Some((modifiers, k@))),
                    ),
                    None => !saved && final(self).bindings == old(self).bindings && final(self).pending_macro_hotkey
                        == old(self).pending_macro_hotkey,
                },
            },
    {
        let key = match key {
            Some(k) => k,
            None => return false,
        };
        match self.combo_capture.take() {
            Some(ComboCapture::Named(action)) => {
                let m = if matches!(action, HotkeyAction::StopRecording) {
                    0
                } else {
                    modifiers
                };
                assign_combo(&mut self.bindings, action, KeyCombo { modifiers: m, key });
                true
            },
            Some(ComboCapture::Pending) => {
                let index = match &self.pending_macro_hotkey {
                    Some((i, _)) => *i,
                    None => None,
                };
                self.pending_macro_hotkey = Some((index, Some(KeyCombo { modifiers, key })));
                false
            },
            None => false,
        }
    }

    /// Chooses the macro for the per-macro hotkey being set up.
    pub fn set_pending_macro_idx(&mut self, index: Option<usize>)
        ensures
            final(self).page == old(self).page,
            final(self).bindings == old(self).bindings,
            final(self).combo_capture == old(self).combo_capture,
            final(self).pending_macro_hotkey matches Some((i, c)) && i == index && match old(
                self,
            ).pending_macro_hotkey {
                Some((_, oc)) => c == oc,
                None => c is None,
            },
    {
        let combo = match self.pending_macro_hotkey.take() {
            Some((_, c)) => c,
            None => None,
        };
        self.pending_macro_hotkey = Some((index, combo));
    }

    /// Adds the per-macro hotkey being set up, once both its macro and its
    /// combo are given and the macro is among the saved ones (`macro_ids`
    /// holds their ids); the setup ends either way. Returns whether a
    /// binding was added and the bindings are to be saved.
    pub fn add_macro_hotkey(&mut self, macro_ids: &Vec<String>) -> (saved: bool)
        ensures
            final(self).page == old(self).page,
            final(self).combo_capture == old(self).combo_capture,
            final(self).pending_macro_hotkey is None,
            match old(self).pending_macro_hotkey {
                Some((Some(i), Some(c))) => if i < macro_ids@.len() {
                    saved && bindings_view(final(self).bindings@) == bindings_view(old(self).bindings@).push(
                        ((9, macro_ids@[i as int]@), combo_view(c)),
                    )
                } else {
                    !saved && final(self).bindings == old(self).bindings
                },
                _ => !saved && final(self).bindings == old(self).bindings,
            },
    {
        match self.pending_macro_hotkey.take() {
            Some((Some(i), Some(combo))) => {
                if i < macro_ids.len() {
                    let ghost v = bindings_view(self.bindings@);
                    let ghost c = combo_view(combo);
                    let action = HotkeyAction::RunSpecificMacro(macro_ids[i].clone());
                    self.bindings.push(HotkeyBinding { action, combo });
                    assert(bindings_view(self.bindings@) =~= v.push(((9, macro_ids@[i as int]@), c)));
                    true
                } else {
                    false
                }
            },
            _ => false,
        }
    }

    /// Removes the binding at `index`, when there is one; says whether it did
    /// (see [`remove_binding`]).
    pub fn remove_hotkey_binding(&mut self, index: usize) -> (saved: bool)
        ensures
            final(self).page == old(self).page,
            final(self).combo_capture == old(self).combo_capture,
            final(self).pending_macro_hotkey == old(self).pending_macro_hotkey,
            saved == (index < old(self).bindings@.len()),
            saved ==> bindings_view(final(self).bindings@) == bindings_view(old(self).bindings@).remove(index as int),
            !saved ==> final(self).bindings@ == old(self).bindings@,
    {
        remove_binding(&mut self.bindings, index)
    }

    /// Removes every binding of the named `action`.
    pub fn clear_named_hotkey(&mut self, action: &HotkeyAction)
        ensures
            final(self).page == old(self).page,
            final(self).combo_capture == old(self).combo_capture,
            final(self).pending_macro_hotkey == old(self).pending_macro_hotkey,
            bindings_view(final(self).bindings@) == without_action(bindings_view(old(self).bindings@), action_key(*action)),
    {
        clear_action(&mut self.bindings, action);
    }

    /// Gives the named `action` its default combo, `default`, when it has
    /// one. Returns whether the bindings changed and are to be saved.
    pub fn reset_hotkey_to_default(&mut self, action: HotkeyAction, default: Option<KeyCombo>) -> (saved: bool)
        ensures
            final(self).page == old(self).page,
            final(self).combo_capture == old(self).combo_capture,
            final(self).pending_macro_hotkey == old(self).pending_macro_hotkey,
            match default {
                Some(c) => saved && bindings_view(final(self).bindings@) == assigned(
                    bindings_view(old(self).bindings@),
                    action_key(action),
                    combo_view(c),
                ),
                None => !saved && final(self).bindings == old(self).bindings,
            },
    {
        match default {
            Some(combo) => {
                assign_combo(&mut self.bindings, action, combo);
                true
            },
            None => false,
        }
    }
}

/// The bindings that [`assigned`] gives: the action's first binding holds
/// the new combo, the bindings before it and the others are as they were,
/// and a binding is added only when the action had none.
pub proof fn lemma_assigned_binds_combo(v: Seq<BindingModel>, key: ActionKey, combo: ComboModel)
    ensures
        binding_position(assigned(v, key, combo), key) matches Some(p) && assigned(v, key, combo)[p] == (
            key,
            combo,
        ) && forall|j: int| 0 <= j < v.len() && j != p ==> #[trigger] assigned(v, key, combo)[j] == v[j],
        assigned(v, key, combo).len() == if binding_position(v, key) is Some {
            v.len()
        } else {
            v.len() + 1
        },
{
    lemma_binding_position(v, key);
    let w = assigned(v, key, combo);
    lemma_binding_position(w, key);
    match binding_position(v, key) {
        Some(p) => {
            let q = binding_position(w, key);
            if q is None {
                assert(w[p].0 == key);
            } else {
                let k = q->Some_0;
                if k < p {
                    assert(w[k] == v[k]);
                } else if k > p {
                    assert(w[p].0 == key);
                }
            }
        },
        None => {
            let q = binding_position(w, key);
            if q is None {
                assert(w[v.len() as int].0 == key);
            } else {
                let k = q->Some_0;
                if k < v.len() {
                    assert(w[k] == v[k]);
                }
            }
        },
    }
}

/// Capturing a combo for an action again replaces the combo captured
/// before: the bindings are as if only the later combo had been captured.
pub proof fn lemma_assign_overrides(v: Seq<BindingModel>, key: ActionKey, first: ComboModel, second: ComboModel)
    ensures
        assigned(assigned(v, key, first), key, second) == assigned(v, key, second),
{
    lemma_binding_position(v, key);
    lemma_assigned_binds_combo(v, key, first);
    let w = assigned(v, key, first);
    let p = binding_position(w, key)->Some_0;
    lemma_binding_position(w, key);
    match binding_position(v, key) {
        Some(i) => {
            if p != i {
                assert(w[i] == (key, first));
                if p < i {
                    assert(w[p] == v[p]);
                }
            }
            assert(assigned(w, key, second) =~= assigned(v, key, second));
        },
        None => {
            if p < v.len() {
                assert(w[p] == v[p]);
            }
            assert(assigned(w, key, second) =~= assigned(v, key, second));
        },
    }
}

/// No binding for `key` is left once its action is cleared.
pub proof fn lemma_without_action_clears(v: Seq<BindingModel>, key: ActionKey)
    ensures
        forall|j: int| 0 <= j < without_action(v, key).len() ==> #[trigger] without_action(v, key)[j].0 != key,
        without_action(v, key).len() <= v.len(),
    decreases v.len(),
{
    if v.len() > 0 {
        lemma_without_action_clears(v.drop_last(), key);
    }
}

/// Two binding lists that agree on which bindings are for `key`, and on
/// every other binding, lose the same bindings when `key` is cleared.
proof fn lemma_without_action_agree(u: Seq<BindingModel>, v: Seq<BindingModel>, key: ActionKey)
    requires
        u.len() == v.len(),
        forall|j: int| 0 <= j < u.len() ==> (#[trigger] u[j].0 == key) == (v[j].0 == key),
        forall|j: int| 0 <= j < u.len() && u[j].0 != key ==> #[trigger] u[j] == v[j],
    ensures
        without_action(u, key) == without_action(v, key),
    decreases u.len(),
{
    if u.len() > 0 {
        let (pu, pv) = (u.drop_last(), v.drop_last());
        assert forall|j: int| 0 <= j < pu.len() implies (#[trigger] pu[j].0 == key) == (pv[j].0 == key) by {
            assert(pu[j] == u[j] && pv[j] == v[j]);
        }
        assert forall|j: int| 0 <= j < pu.len() && pu[j].0 != key implies #[trigger] pu[j] == pv[j] by {
            assert(pu[j] == u[j] && pv[j] == v[j]);
        }
        lemma_without_action_agree(pu, pv, key);
        assert(u.last() == u[u.len() - 1]);
        assert(v.last() == v[v.len() - 1]);
    }
}

/// Clearing an action's hotkey right after capturing one for it leaves
/// the other bindings exactly as clearing it before would have.
pub proof fn lemma_clear_after_assign(v: Seq<BindingModel>, key: ActionKey, combo: ComboModel)
    ensures
        without_action(assigned(v, key, combo), key) == without_action(v, key),
{
    lemma_binding_position(v, key);
    match binding_position(v, key) {
        Some(p) => {
            let w = v.update(p, (key, combo));
            assert forall|j: int| 0 <= j < w.len() implies (#[trigger] w[j].0 == key) == (v[j].0 == key) by {
                if j == p {
                    assert(v[p].0 == key);
                }
            }
            lemma_without_action_agree(w, v, key);
        },
        None => {
            let w = v.push((key, combo));
            assert(w.drop_last() =~= v);
        },
    }
}

} // verus!
