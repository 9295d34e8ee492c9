//! The snapshot of the editor state the UI is sent after every change: each
//! saved macro in its wire shape, and the editor's switches, pages and
//! captures by name.

use vstd::prelude::*;
use crate::dto::{all_have_dto, dtos_of, lemma_dtos_have, strand_to_dto, StrandDto};
use crate::instruction::Strand;
use crate::macros::{recording_target_spec, BlockDef, Comment, FloatingValue, Macro};
use crate::protocol::opt_view;
use crate::state::{
    action_matches_dto, combo_capture_to_dto, key_capture_to_dto, macro_settings_to_dto, page_name,
    recording_phase_to_dto, update_check_state_to_dto, ComboCapture, ComboCaptureDto, KeyCaptureDto,
    KeyCaptureTarget, MacroSettingsDto, Page, RecordingPhase, RecordingPhaseDto, UpdateCheckState,
    UpdateCheckStateDto,
};
use crate::text::string_of;
use crate::value::copy_value;

verus! {

/// One macro as the UI sees it.
pub struct MacroDto {
    pub id: String,
    pub name: String,
    pub description: String,
    pub strands: Vec<StrandDto>,
    pub recording_target_strand_id: Option<String>,
    pub floating_values: Vec<FloatingValue>,
    pub comments: Vec<Comment>,
    pub block_defs: Vec<BlockDef>,
    pub settings: MacroSettingsDto,
}

/// `d` is the wire shape of the strand `s`.
pub open spec fn strand_dto_of(s: Strand, d: StrandDto) -> bool {
    d.id@ == s.id@ && d.x == s.x && d.y == s.y && dtos_of(s.instructions@, d.instructions@)
}

/// Whether every strand of `m` has a wire shape.
pub open spec fn macro_has_dto(m: Macro) -> bool {
    forall|k: int| 0 <= k < m.strands@.len() ==> all_have_dto((#[trigger] m.strands@[k]).instructions@)
}

/// `b` is a copy of the floating value `a`.
pub open spec fn same_floating(a: FloatingValue, b: FloatingValue) -> bool {
    b.id@ == a.id@ && b.x == a.x && b.y == a.y && b.value@ == a.value@
}

/// `b` is a copy of the note `a`.
pub open spec fn same_comment(a: Comment, b: Comment) -> bool {
    b.id@ == a.id@ && b.x == a.x && b.y == a.y && b.text@ == a.text@ && opt_view(b.attached_to) == opt_view(
        a.attached_to,
    ) && b.collapsed == a.collapsed
}

/// `b` is a copy of the custom block definition `a`.
pub open spec fn same_block_def(a: BlockDef, b: BlockDef) -> bool {
    b.id@ == a.id@ && b.shape == a.shape && b.color@ == a.color@ && b.inputs@ == a.inputs@
}

/// `d` is the wire shape of the macro `m`: its id, name and description,
/// its strands in order, the strand recorded input goes to, copies of its
/// floating values, notes and custom blocks, and its settings.
#[verifier::opaque]
pub open spec fn macro_dto_of(m: Macro, d: MacroDto) -> bool {
    &&& d.id@ == m.id@
    &&& d.name@ == m.name@
    &&& d.description@ == m.description@
    &&& d.strands@.len() == m.strands@.len()
    &&& forall|k: int| 0 <= k < m.strands@.len() ==> strand_dto_of(#[trigger] m.strands@[k], d.strands@[k])
    &&& opt_view(d.recording_target_strand_id) == recording_target_spec(m)
    &&& d.floating_values@.len() == m.floating_values@.len()
    &&& forall|k: int|
        0 <= k < m.floating_values@.len() ==> same_floating(#[trigger] m.floating_values@[k], d.floating_values@[k])
    &&& d.comments@.len() == m.comments@.len()
    &&& forall|k: int| 0 <= k < m.comments@.len() ==> same_comment(#[trigger] m.comments@[k], d.comments@[k])
    &&& d.block_defs@.len() == m.block_defs@.len()
    &&& forall|k: int| 0 <= k < m.block_defs@.len() ==> same_block_def(#[trigger] m.block_defs@[k], d.block_defs@[k])
    &&& d.settings.always_listen == m.settings.always_listen
}

fn copy_floating(a: &FloatingValue) -> (b: FloatingValue)
    ensures
        same_floating(*a, b),
{
    FloatingValue { id: string_of(a.id.as_str()), x: a.x, y: a.y, value: copy_value(&a.value) }
}

fn copy_opt(s: &Option<String>) -> (r: Option<String>)
    ensures
        opt_view(r) == opt_view(*s),
{
    match s {
        Some(v) => Some(string_of(v.as_str())),
        None => None,
    }
}

fn copy_comment(a: &Comment) -> (b: Comment)
    ensures
        same_comment(*a, b),
{
    Comment {
        id: string_of(a.id.as_str()),
        x: a.x,
        y: a.y,
        text: string_of(a.text.as_str()),
        attached_to: copy_opt(&a.attached_to),
        collapsed: a.collapsed,
    }
}

fn copy_block_def(a: &BlockDef) -> (b: BlockDef)
    ensures
        same_block_def(*a, b),
{
    let mut inputs = Vec::new();
    let n = a.inputs.len();
    let mut i: usize = 0;
    while i < n
        invariant
            n == a.inputs@.len(),
            i <= n,
            inputs@ == a.inputs@.take(i as int),
        decreases n - i,
    {
        inputs.push(a.inputs[i]);
        i = i + 1;
    }
    assert(a.inputs@.take(n as int) =~= a.inputs@);
    BlockDef { id: string_of(a.id.as_str()), shape: a.shape, color: string_of(a.color.as_str()), inputs }
}

/// The wire shape of a macro (see [`macro_dto_of`]); `None` when one of its
/// strands holds an instruction with no wire shape.
pub fn macro_to_dto(m: &Macro) -> (r: Option<MacroDto>)
    ensures
        r is Some <==> macro_has_dto(*m),
        r matches Some(d) ==> macro_dto_of(*m, d),
{
    let ns = m.strands.len();
    let mut strands: Vec<StrandDto> = Vec::new();
    let mut k: usize = 0;
    while k < ns
        invariant
            ns == m.strands@.len(),
            k <= ns,
            strands@.len() == k,
            forall|j: int| 0 <= j < k ==> all_have_dto((#[trigger] m.strands@[j]).instructions@),
            forall|j: int| 0 <= j < k ==> strand_dto_of(#[trigger] m.strands@[j], strands@[j]),
        decreases ns - k,
    {
        match strand_to_dto(&m.strands[k]) {
            Some(d) => {
                proof {
                    lemma_dtos_have(m.strands@[k as int].instructions@, d.instructions@);
                }
                strands.push(d);
            },
            None => return None,
        }
        k = k + 1;
    }
    let nf = m.floating_values.len();
    let mut floating_values: Vec<FloatingValue> = Vec::new();
    let mut k: usize = 0;
    while k < nf
        invariant
            nf == m.floating_values@.len(),
            k <= nf,
            floating_values@.len() == k,
            forall|j: int| 0 <= j < k ==> same_floating(#[trigger] m.floating_values@[j], floating_values@[j]),
        decreases nf - k,
    {
        floating_values.push(copy_floating(&m.floating_values[k]));
        k = k + 1;
    }
    let nc = m.comments.len();
    let mut comments: Vec<Comment> = Vec::new();
    let mut k: usize = 0;
    while k < nc
        invariant
            nc == m.comments@.len(),
            k <= nc,
            comments@.len() == k,
            forall|j: int| 0 <= j < k ==> same_comment(#[trigger] m.comments@[j], comments@[j]),
        decreases nc - k,
    {
        comments.push(copy_comment(&m.comments[k]));
        k = k + 1;
    }
    let nb = m.block_defs.len();
    let mut block_defs: Vec<BlockDef> = Vec::new();
    let mut k: usize = 0;
    while k < nb
        invariant
            nb == m.block_defs@.len(),
            k <= nb,
            block_defs@.len() == k,
            forall|j: int| 0 <= j < k ==> same_block_def(#[trigger] m.block_defs@[j], block_defs@[j]),
        decreases nb - k,
    {
        block_defs.push(copy_block_def(&m.block_defs[k]));
        k = k + 1;
    }
    let target = m.recording_target_id();
    proof {
        reveal(macro_dto_of);
        match recording_target_spec(*m) {
            Some(id) => assert(opt_view(target) == Some(id)),
            None => assert(opt_view(target) is None),
        }
    }
    Some(MacroDto {
        id: string_of(m.id.as_str()),
        name: string_of(m.name.as_str()),
        description: string_of(m.description.as_str()),
        strands,
        recording_target_strand_id: target,
        floating_values,
        comments,
        block_defs,
        settings: macro_settings_to_dto(&m.settings),
    })
}

/// What the editor holds that the UI is shown.
pub struct StateSnapshot {
    pub macro_names: Vec<String>,
    pub macro_selected: Option<usize>,
    pub current_macro: Option<Macro>,
    pub macros: Vec<Macro>,
    pub loop_mode_enabled: bool,
    pub is_looping: bool,
    pub ipc_active_port: Option<u16>,
    pub ipc_auto_start: bool,
    pub close_to_tray: bool,
    pub confirm_clear_instructions: bool,
    pub clear_confirm_remaining_secs: u8,
    pub key_capture: Option<KeyCaptureTarget>,
    pub standalone_key: Option<String>,
    pub can_undo: bool,
    pub can_redo: bool,
    pub recording_phase: RecordingPhase,
    pub record_mouse_relative: bool,
    pub record_mouse_movement: bool,
    pub absolute_mouse_position_available: bool,
    pub wayland_session: bool,
    pub page: Page,
    pub combo_capture: Option<ComboCapture>,
    pub ipc_port_text: String,
    pub ipc_port_invalid: bool,
    pub emulator_available: bool,
    pub grab_available: bool,
    pub razer_permission_warning: bool,
    pub update_check_state: UpdateCheckState,
}

/// The snapshot as the UI receives it.
pub struct StateDto {
    pub macro_names: Vec<String>,
    pub macro_selected: Option<usize>,
    pub current_macro: Option<MacroDto>,
    pub macros_data: Vec<MacroDto>,
    pub loop_mode_enabled: bool,
    pub is_looping: bool,
    pub ipc_active_port: Option<u16>,
    pub ipc_auto_start: bool,
    pub close_to_tray: bool,
    pub confirm_clear_instructions: bool,
    pub confirm_clear_instructions_remaining_secs: u8,
    pub key_capture: Option<KeyCaptureDto>,
    pub standalone_key: Option<String>,
    pub can_undo: bool,
    pub can_redo: bool,
    pub recording_phase: RecordingPhaseDto,
    pub record_mouse_relative: bool,
    pub record_mouse_movement: bool,
    pub absolute_mouse_position_available: bool,
    pub wayland_session: bool,
    pub page: String,
    pub combo_capture: Option<ComboCaptureDto>,
    pub ipc_port_text: String,
    pub ipc_port_invalid: bool,
    pub emulator_available: bool,
    pub grab_available: bool,
    pub razer_permission_warning: bool,
    pub update_check_state: UpdateCheckStateDto,
}

/// Whether every macro the snapshot holds has a wire shape.
pub open spec fn snapshot_has_dto(s: StateSnapshot) -> bool {
    &&& (s.current_macro matches Some(m) ==> macro_has_dto(m))
    &&& forall|k: int| 0 <= k < s.macros@.len() ==> macro_has_dto(#[trigger] s.macros@[k])
}

/// The macro list, the selection and every macro in its wire shape.
#[verifier::opaque]
pub open spec fn macros_shown(s: StateSnapshot, d: StateDto) -> bool {
    &&& d.macro_names@.len() == s.macro_names@.len()
    &&& forall|k: int| 0 <= k < s.macro_names@.len() ==> (#[trigger] d.macro_names@[k])@ == s.macro_names@[k]@
    &&& d.macro_selected == s.macro_selected
    &&& match s.current_macro {
        Some(m) => d.current_macro matches Some(md) && macro_dto_of(m, md),
        None => d.current_macro is None,
    }
    &&& d.macros_data@.len() == s.macros@.len()
    &&& forall|k: int| 0 <= k < s.macros@.len() ==> macro_dto_of(#[trigger] s.macros@[k], d.macros_data@[k])
}

/// Every switch and counter as it is.
#[verifier::opaque]
pub open spec fn switches_shown(s: StateSnapshot, d: StateDto) -> bool {
    &&& d.loop_mode_enabled == s.loop_mode_enabled
    &&& d.is_looping == s.is_looping
    &&& d.ipc_active_port == s.ipc_active_port
    &&& d.ipc_auto_start == s.ipc_auto_start
    &&& d.close_to_tray == s.close_to_tray
    &&& d.confirm_clear_instructions == s.confirm_clear_instructions
    &&& d.confirm_clear_instructions_remaining_secs == s.clear_confirm_remaining_secs
    &&& d.can_undo == s.can_undo
    &&& d.can_redo == s.can_redo
    &&& d.record_mouse_relative == s.record_mouse_relative
    &&& d.record_mouse_movement == s.record_mouse_movement
    &&& d.absolute_mouse_position_available == s.absolute_mouse_position_available
    &&& d.wayland_session == s.wayland_session
    &&& d.ipc_port_text@ == s.ipc_port_text@
    &&& d.ipc_port_invalid == s.ipc_port_invalid
    &&& d.emulator_available == s.emulator_available
    &&& d.grab_available == s.grab_available
    &&& d.razer_permission_warning == s.razer_permission_warning
}

/// The captures, recording phase, page and update check by name.
#[verifier::opaque]
pub open spec fn captures_shown(s: StateSnapshot, d: StateDto) -> bool {
    &&& match s.key_capture {
        Some(t) => d.key_capture matches Some(kd) && match t {
            KeyCaptureTarget::Strand(id, path) => kd.kind@ == "Strand"@ && (kd.strand_id matches Some(x) && x@ == id@)
                && (kd.index matches Some(p) && p@ == path@),
            KeyCaptureTarget::Standalone => kd.kind@ == "Standalone"@ && kd.strand_id is None && kd.index is None,
        },
        None => d.key_capture is None,
    }
    &&& opt_view(d.standalone_key) == opt_view(s.standalone_key)
    &&& match s.recording_phase {
        RecordingPhase::Idle => d.recording_phase.phase@ == "Idle"@ && d.recording_phase.countdown is None,
        RecordingPhase::Countdown(n) => d.recording_phase.phase@ == "Countdown"@ && d.recording_phase.countdown
            == Some(n),
        RecordingPhase::Active => d.recording_phase.phase@ == "Active"@ && d.recording_phase.countdown is None,
    }
    &&& d.page@ == (match s.page {
        Page::Main => "Main"@,
        Page::Settings => "Settings"@,
    })
    &&& match s.combo_capture {
        Some(c) => d.combo_capture matches Some(cd) && match c {
            ComboCapture::Named(a) => cd.kind@ == "Named"@ && (cd.action matches Some(x) && action_matches_dto(a, x)),
            ComboCapture::Pending => cd.kind@ == "Pending"@ && cd.action is None,
        },
        None => d.combo_capture is None,
    }
    &&& match s.update_check_state {
        UpdateCheckState::Idle => d.update_check_state.state@ == "Idle"@ && d.update_check_state.version is None
            && d.update_check_state.error is None,
        UpdateCheckState::Checking => d.update_check_state.state@ == "Checking"@ && d.update_check_state.version is None
            && d.update_check_state.error is None,
        UpdateCheckState::UpToDate => d.update_check_state.state@ == "UpToDate"@ && d.update_check_state.version is None
            && d.update_check_state.error is None,
        UpdateCheckState::UpdateAvailable(v) => d.update_check_state.state@ == "UpdateAvailable"@
            && d.update_check_state.version == Some(v) && d.update_check_state.error is None,
        UpdateCheckState::Applying => d.update_check_state.state@ == "Applying"@ && d.update_check_state.version is None
            && d.update_check_state.error is None,
        UpdateCheckState::Error(e) => d.update_check_state.state@ == "Error"@ && d.update_check_state.version is None
            && d.update_check_state.error == Some(e),
    }

}

/// `d` is what the UI is sent for the snapshot `s`: every macro in its
/// wire shape, every switch as it is, and the recording phase, page,
/// captures and update check by name.
pub open spec fn state_dto_of(s: StateSnapshot, d: StateDto) -> bool {
    macros_shown(s, d) && switches_shown(s, d) && captures_shown(s, d)
}

/// The wire shapes of `macros`, in order; `None` when one has none.
fn macros_to_dto(macros: &Vec<Macro>) -> (r: Option<Vec<MacroDto>>)
    ensures
        r is Some <==> forall|k: int| 0 <= k < macros@.len() ==> macro_has_dto(#[trigger] macros@[k]),
        r matches Some(v) ==> v@.len() == macros@.len() && forall|k: int|
            0 <= k < macros@.len() ==> macro_dto_of(#[trigger] macros@[k], v@[k]),
{
    let n = macros.len();
    let mut out: Vec<MacroDto> = Vec::new();
    let mut k: usize = 0;
    while k < n
        invariant
            n == macros@.len(),
            k <= n,
            out@.len() == k,
            forall|j: int| 0 <= j < k ==> macro_has_dto(#[trigger] macros@[j]),
            forall|j: int| 0 <= j < k ==> macro_dto_of(#[trigger] macros@[j], out@[j]),
        decreases n - k,
    {
        match macro_to_dto(&macros[k]) {
            Some(d) => out.push(d),
            None => return None,
        }
        k = k + 1;
    }
    Some(out)
}

/// A copy of a list of names.
fn copy_names(names: &Vec<String>) -> (r: Vec<String>)
    ensures
        r@.len() == names@.len(),
        forall|k: int| 0 <= k < names@.len() ==> (#[trigger] r@[k])@ == names@[k]@,
{
    let n = names.len();
    let mut out: Vec<String> = Vec::new();
    let mut k: usize = 0;
    while k < n
        invariant
            n == names@.len(),
            k <= n,
            out@.len() == k,
            forall|j: int| 0 <= j < k ==> (#[trigger] out@[j])@ == names@[j]@,
        decreases n - k,
    {
        out.push(string_of(names[k].as_str()));
        k = k + 1;
    }
    out
}

/// The snapshot the UI is sent (see [`state_dto_of`]); `None` when one of
/// the macros holds an instruction with no wire shape.
#[verifier::spinoff_prover]
#[verifier::rlimit(100)]
pub fn state_to_dto(s: &StateSnapshot) -> (r: Option<StateDto>)
    ensures
        r is Some <==> snapshot_has_dto(*s),
        r is Some <==> snapshot_has_dto(*s),
        r matches Some(d) ==> state_dto_of(*s, d),
{
    let current_macro = match &s.current_macro {
        Some(m) => match macro_to_dto(m) {
            Some(d) => Some(d),
            None => return None,
        },
        None => None,
    };
    let macros_data = match macros_to_dto(&s.macros) {
        Some(v) => v,
        None => return None,
    };
    let macro_names = copy_names(&s.macro_names);
    let key_capture = match &s.key_capture {
        Some(t) => Some(key_capture_to_dto(t)),
        None => None,
    };
    let combo_capture = match &s.combo_capture {
        Some(c) => Some(combo_capture_to_dto(c)),
        None => None,
    };
    let dto = StateDto {
        macro_names,
        macro_selected: s.macro_selected,
        current_macro,
        macros_data,
        loop_mode_enabled: s.loop_mode_enabled,
        is_looping: s.is_looping,
        ipc_active_port: s.ipc_active_port,
        ipc_auto_start: s.ipc_auto_start,
        close_to_tray: s.close_to_tray,
        confirm_clear_instructions: s.confirm_clear_instructions,
        confirm_clear_instructions_remaining_secs: s.clear_confirm_remaining_secs,
        key_capture,
        standalone_key: copy_opt(&s.standalone_key),
        can_undo: s.can_undo,
        can_redo: s.can_redo,
        recording_phase: recording_phase_to_dto(&s.recording_phase),
        record_mouse_relative: s.record_mouse_relative,
        record_mouse_movement: s.record_mouse_movement,
        absolute_mouse_position_available: s.absolute_mouse_position_available,
        wayland_session: s.wayland_session,
        page: page_name(&s.page),
        combo_capture,
        ipc_port_text: string_of(s.ipc_port_text.as_str()),
        ipc_port_invalid: s.ipc_port_invalid,
        emulator_available: s.emulator_available,
        grab_available: s.grab_available,
        razer_permission_warning: s.razer_permission_warning,
        update_check_state: update_check_state_to_dto(&s.update_check_state),
    };
    assert(macros_shown(*s, dto)) by {
        reveal(macros_shown);
    }
    assert(switches_shown(*s, dto)) by {
        reveal(switches_shown);
    }
    assert(captures_shown(*s, dto)) by {
        reveal(captures_shown);
    }
    Some(dto)

}

} // verus!
