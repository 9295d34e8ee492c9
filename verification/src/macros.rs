//! One saved macro: its strands of instructions, floating values, custom
//! block definitions and lists, with the whole-macro walks and edits.

use vstd::prelude::*;
use vstd::string::*;
use crate::instruction::{
    body_renamed, check_loop_control_placement, inside_loop, is_loop_control, loop_control_message, renamed_name,
    rename_list_in_body, spec_is_header, value_renamed, Instruction, InputToken, InstructionKind, PathStep, Strand,
};
use crate::state::{Coordinate, MacroSettings};
use crate::text::{str_eq, string_of};
use crate::value::{rename_list_in_value, Value};

verus! {

/// A list item is a literal only: a number (held as its `f64` bit pattern)
/// or a text.
#[derive(Debug, PartialEq, Eq, Hash)]
pub enum ListItem {
    Number(u64),
    Text(String),
}

/// A named, macro-scoped list and where its editor sits on the canvas.
#[derive(Debug, PartialEq, Eq, Hash)]
pub struct ListDef {
    pub name: String,
    pub items: Vec<ListItem>,
    pub editor_visible: bool,
    pub editor_x: i32,
    pub editor_y: i32,
}

/// A value block parked on open canvas.
#[derive(Debug, PartialEq, Eq, Hash)]
pub struct FloatingValue {
    pub id: String,
    pub x: i32,
    pub y: i32,
    pub value: Value,
}

/// A note on the canvas: free-standing, or attached to the instruction with
/// the given id, and shown whole or collapsed.
#[derive(Debug, PartialEq, Eq, Hash)]
pub struct Comment {
    pub id: String,
    pub x: i32,
    pub y: i32,
    pub text: String,
    pub attached_to: Option<String>,
    pub collapsed: bool,
}

impl Comment {
    /// A new, expanded note at (`x`, `y`) with a fresh id.
    pub fn new(x: i32, y: i32, text: String, attached_to: Option<String>) -> (c: Comment)
        ensures
            c.x == x,
            c.y == y,
            c.text == text,
            c.attached_to == attached_to,
            !c.collapsed,
            crate::ids::is_fresh_id(c.id@),
    {
        Comment { id: crate::ids::new_id(), x, y, text, attached_to, collapsed: false }
    }
}

/// How a custom block is shaped, which decides whether it returns a value.
#[derive(Debug, Clone, Copy, PartialEq, Eq, Hash, Structural)]
pub enum BlockShape {
    Normal,
    Ending,
    ReturnsValue,
    ReturnsBool,
}

/// `ReturnsValue` and `ReturnsBool` blocks return a value.
pub open spec fn spec_returns_value(s: BlockShape) -> bool {
    s is ReturnsValue || s is ReturnsBool
}

impl BlockShape {
    pub fn returns_value(&self) -> (r: bool)
        ensures
            r == spec_returns_value(*self),
    {
        match self {
            BlockShape::ReturnsValue | BlockShape::ReturnsBool => true,
            _ => false,
        }
    }
}

/// The kind of value an input slot takes: any value, or a condition.
#[derive(Debug, Clone, Copy, PartialEq, Eq, Hash, Structural)]
pub enum InputValueType {
    Any,
    Bool,
}

/// A custom block definition: its id, shape and color, and the types of
/// its declared inputs in order.
#[derive(Debug, PartialEq, Eq, Hash)]
pub struct BlockDef {
    pub id: String,
    pub shape: BlockShape,
    pub color: String,
    pub inputs: Vec<InputValueType>,
}

/// One saved macro.
#[derive(Debug, PartialEq, Eq, Hash)]
pub struct Macro {
    pub id: String,
    pub name: String,
    pub description: String,
    pub strands: Vec<Strand>,
    pub floating_values: Vec<FloatingValue>,
    /// Notes on the canvas.
    pub comments: Vec<Comment>,
    pub block_defs: Vec<BlockDef>,
    /// Strand explicitly chosen to receive freshly recorded input.
    pub recording_target: Option<String>,
    pub settings: MacroSettings,
    pub lists: Vec<ListDef>,
}

/// Whether a strand's first instruction is a header block.
pub open spec fn spec_starts_with_header(s: Strand) -> bool {
    s.instructions@.len() > 0 && spec_is_header(s.instructions@[0].kind)
}

impl Strand {
    pub fn starts_with_header(&self) -> (r: bool)
        ensures
            r == spec_starts_with_header(*self),
    {
        self.instructions.len() > 0 && self.instructions[0].kind.is_header()
    }

    /// Whether this strand is an entry point: its first instruction is
    /// `When Ran`.
    pub fn starts_with_when_ran(&self) -> (r: bool)
        ensures
            r == spec_starts_with_when_ran(*self),
    {
        self.instructions.len() > 0 && match &self.instructions[0].kind {
            InstructionKind::WhenRan => true,
            _ => false,
        }
    }
}

/// Whether a strand's first instruction is `When Ran`.
pub open spec fn spec_starts_with_when_ran(s: Strand) -> bool {
    s.instructions@.len() > 0 && s.instructions@[0].kind is WhenRan
}

/// The index of the first strand satisfying `p`.
pub open spec fn first_index(strands: Seq<Strand>, p: spec_fn(Strand) -> bool) -> Option<int> {
    if exists|i: int| 0 <= i < strands.len() && p(#[trigger] strands[i]) {
        Some(choose|i: int| 0 <= i < strands.len() && p(#[trigger] strands[i]) && forall|j: int| 0 <= j < i ==> !p(strands[j]))
    } else {
        None
    }
}

/// Whether the explicit recording target names an existing strand.
pub open spec fn target_present(m: Macro) -> bool {
    m.recording_target matches Some(t) && exists|i: int|
        0 <= i < m.strands@.len() && (#[trigger] m.strands@[i]).id@ == t@
}

/// The strand freshly recorded input goes to: the explicit recording target
/// if a strand with that id still exists, else the first strand starting
/// with `When Ran`, else the first strand.
pub open spec fn recording_target_spec(m: Macro) -> Option<Seq<char>> {
    let strands = m.strands@;
    if target_present(m) {
        Some(m.recording_target->Some_0@)
    } else if exists|i: int| 0 <= i < strands.len() && spec_starts_with_when_ran(#[trigger] strands[i]) {
        let i = choose|i: int|
            0 <= i < strands.len() && spec_starts_with_when_ran(#[trigger] strands[i]) && forall|j: int|
                0 <= j < i ==> !spec_starts_with_when_ran(strands[j]);
        Some(strands[i].id@)
    } else if strands.len() > 0 {
        Some(strands[0].id@)
    } else {
        None
    }
}

impl Macro {
    /// The id of the strand recorded input goes to (see
    /// [`recording_target_spec`]); never creates a strand.
    pub fn recording_target_id(&self) -> (r: Option<String>)
        ensures
            match recording_target_spec(*self) {
                Some(id) => r matches Some(s) && s@ == id,
                None => r is None,
            },
    {
        let n = self.strands.len();
        if let Some(id) = &self.recording_target {
            let mut i: usize = 0;
            while i < n
                invariant
                    n == self.strands@.len(),
                    i <= n,
                    self.recording_target == Some(*id),
                    forall|j: int| 0 <= j < i ==> self.strands@[j].id@ != id@,
                decreases n - i,
            {
                if str_eq(self.strands[i].id.as_str(), id.as_str()) {
                    assert(self.strands@[i as int].id@ == id@);
                    assert(target_present(*self));
                    return Some(id.clone());
                }
                i = i + 1;
            }
        }
        assert(!target_present(*self));
        let mut i: usize = 0;
        while i < n
            invariant
                n == self.strands@.len(),
                i <= n,
                !target_present(*self),
                forall|j: int| 0 <= j < i ==> !spec_starts_with_when_ran(#[trigger] self.strands@[j]),
            decreases n - i,
        {
            if self.strands[i].starts_with_when_ran() {
                proof {
                    let ghost strands = self.strands@;
                    let k = choose|k: int|
                        0 <= k < strands.len() && spec_starts_with_when_ran(#[trigger] strands[k]) && forall|j: int|
                            0 <= j < k ==> !spec_starts_with_when_ran(strands[j]);
                    assert(spec_starts_with_when_ran(strands[i as int]));
                    if k < i {
                        assert(!spec_starts_with_when_ran(strands[k]));
                    } else if k > i {
                        assert(!spec_starts_with_when_ran(strands[i as int]));
                    }
                }
                return Some(self.strands[i].id.clone());
            }
            i = i + 1;
        }
        if n > 0 {
            Some(self.strands[0].id.clone())
        } else {
            None
        }
    }

    /// Chooses the strand `strand_id` to receive freshly recorded input.
    /// Returns whether it exists; when it does not, nothing changes.
    pub fn set_recording_target(&mut self, strand_id: String) -> (r: bool)
        ensures
            r == exists|i: int| 0 <= i < old(self).strands@.len() && (#[trigger] old(self).strands@[i]).id@ == strand_id@,
            final(self).recording_target == (if r { Some(strand_id) } else { old(self).recording_target }),
            final(self).id == old(self).id,
            final(self).name == old(self).name,
            final(self).description == old(self).description,
            final(self).strands == old(self).strands,
            final(self).floating_values == old(self).floating_values,
            final(self).comments == old(self).comments,
            final(self).block_defs == old(self).block_defs,
            final(self).settings == old(self).settings,
            final(self).lists == old(self).lists,
    {
        let n = self.strands.len();
        let mut i: usize = 0;
        while i < n
            invariant
                n == self.strands@.len(),
                i <= n,
                *self == *old(self),
                forall|j: int| 0 <= j < i ==> (#[trigger] self.strands@[j]).id@ != strand_id@,
            decreases n - i,
        {
            if str_eq(self.strands[i].id.as_str(), strand_id.as_str()) {
                assert(self.strands@[i as int].id@ == strand_id@);
                self.recording_target = Some(strand_id);
                return true;
            }
            i = i + 1;
        }
        false
    }
}

/// Recorded input goes to the strand chosen as the recording target, for as
/// long as that strand exists.
pub proof fn lemma_chosen_target_receives_recording(m: Macro, strand_id: Seq<char>)
    requires
        m.recording_target matches Some(t) && t@ == strand_id,
        exists|i: int| 0 <= i < m.strands@.len() && (#[trigger] m.strands@[i]).id@ == strand_id,
    ensures
        recording_target_spec(m) == Some(strand_id),
{
}

/// The message a misplaced `Return` block is rejected with.
pub open spec fn return_placement_message() -> Seq<char> {
    "A Return block can only be used inside a custom block that returns a value"@
}

/// Whether `strand` is the body of a custom block of `m` that returns a value.
pub open spec fn in_returning_block(m: Macro, strand: Strand) -> bool {
    &&& strand.instructions@.len() > 0
    &&& strand.instructions@[0].kind matches InstructionKind::BlockHeader(id)
    &&& exists|k: int|
        0 <= k < m.block_defs@.len() && (#[trigger] m.block_defs@[k]).id@ == id@ && spec_returns_value(
            m.block_defs@[k].shape,
        )
}

/// A `Return` block is allowed in the body of a custom block shaped
/// `ReturnsValue` or `ReturnsBool`, and not in one shaped `Normal` or
/// `Ending`: a strand headed by a custom block's header is a returning body
/// exactly when some definition with that id has one of the two returning
/// shapes.
pub proof fn lemma_returning_shapes(m: Macro, strand: Strand, id: String)
    requires
        strand.instructions@.len() > 0,
        strand.instructions@[0].kind == InstructionKind::BlockHeader(id),
    ensures
        in_returning_block(m, strand) <==> exists|k: int|
            0 <= k < m.block_defs@.len() && (#[trigger] m.block_defs@[k]).id@ == id@ && (m.block_defs@[k].shape
                == BlockShape::ReturnsValue || m.block_defs@[k].shape == BlockShape::ReturnsBool),
        (forall|k: int|
            0 <= k < m.block_defs@.len() && (#[trigger] m.block_defs@[k]).id@ == id@ ==> (m.block_defs@[k].shape
                == BlockShape::Normal || m.block_defs@[k].shape == BlockShape::Ending)) ==> !in_returning_block(m, strand),
{
}

/// A `Return` block only makes sense inside a value-returning custom
/// block's body.
pub fn check_return_placement(mac: &Macro, strand: &Strand, ins: &Instruction) -> (r: Result<(), String>)
    ensures
        r is Ok <==> (!(ins.kind is Return) || in_returning_block(*mac, *strand)),
        r matches Err(e) ==> e@ == return_placement_message(),
{
    match &ins.kind {
        InstructionKind::Return(_) => {},
        _ => return Ok(()),
    }
    if strand.instructions.len() > 0 {
        if let InstructionKind::BlockHeader(id) = &strand.instructions[0].kind {
            let n = mac.block_defs.len();
            let mut k: usize = 0;
            while k < n
                invariant
                    n == mac.block_defs@.len(),
                    k <= n,
                    strand.instructions@.len() > 0,
                    strand.instructions@[0].kind == InstructionKind::BlockHeader(*id),
                    forall|j: int|
                        0 <= j < k ==> !((#[trigger] mac.block_defs@[j]).id@ == id@ && spec_returns_value(
                            mac.block_defs@[j].shape,
                        )),
                decreases n - k,
            {
                let def = &mac.block_defs[k];
                if str_eq(def.id.as_str(), id.as_str()) && def.shape.returns_value() {
                    assert(mac.block_defs@[k as int].id@ == id@);
                    return Ok(());
                }
                k = k + 1;
            }
        }
    }
    Err(string_of("A Return block can only be used inside a custom block that returns a value"))
}

/// Whether dropping `ins` at `path` on strand `strand_id` of `mac` passes
/// the placement rules: a `Return` only inside a value-returning custom
/// block's body, an `Escape Loop`/`Continue Loop` only inside a loop. A
/// strand that does not exist is not checked here.
pub open spec fn drop_allowed(mac: Macro, strand_id: Seq<char>, path: Seq<PathStep>, ins: Instruction) -> bool {
    match strand_index(mac.strands@, strand_id) {
        Some(k) => (!(ins.kind is Return) || in_returning_block(mac, mac.strands@[k])) && (!is_loop_control(ins.kind)
            || inside_loop(mac.strands@[k].instructions@, path)),
        None => true,
    }
}

/// Checks a block about to be dropped at `path` on strand `strand_id` (see
/// [`drop_allowed`]), answering with the rule it breaks.
pub fn check_drop_placement(mac: &Macro, strand_id: &str, path: &[PathStep], ins: &Instruction) -> (r: Result<(), String>)
    ensures
        r is Ok <==> drop_allowed(*mac, strand_id@, path@, *ins),
        r matches Err(e) ==> e@ == (if ins.kind is Return { return_placement_message() } else { loop_control_message() }),
{
    proof {
        lemma_strand_index(mac.strands@, strand_id@);
    }
    let n = mac.strands.len();
    let mut k: usize = 0;
    while k < n
        invariant
            n == mac.strands@.len(),
            k <= n,
            forall|j: int| 0 <= j < k ==> (#[trigger] mac.strands@[j]).id@ != strand_id@,
            strand_index(mac.strands@, strand_id@) matches Some(m) ==> 0 <= m < mac.strands@.len()
                && mac.strands@[m].id@ == strand_id@ && forall|j: int|
                0 <= j < m ==> (#[trigger] mac.strands@[j]).id@ != strand_id@,
            strand_index(mac.strands@, strand_id@) is None ==> forall|j: int|
                0 <= j < mac.strands@.len() ==> (#[trigger] mac.strands@[j]).id@ != strand_id@,
        decreases n - k,
    {
        if str_eq(mac.strands[k].id.as_str(), strand_id) {
            proof {
                let m = strand_index(mac.strands@, strand_id@)->Some_0;
                if m < k {
                    assert(mac.strands@[m].id@ != strand_id@);
                }
                if k < m {
                    assert(mac.strands@[k as int].id@ != strand_id@);
                }
            }
            let strand = &mac.strands[k];
            match check_return_placement(mac, strand, ins) {
                Ok(()) => {},
                Err(e) => return Err(e),
            }
            return check_loop_control_placement(strand, path, ins);
        }
        k += 1;
    }
    Ok(())
}

/// Whether placing `ins` needs absolute mouse positions: an absolute move.
pub fn needs_absolute_mouse(ins: &Instruction) -> (r: bool)
    ensures
        r == (ins.kind matches InstructionKind::Token(InputToken::MoveMouse(_, _, c)) && c == Coordinate::Abs),
{
    match &ins.kind {
        InstructionKind::Token(InputToken::MoveMouse(_, _, Coordinate::Abs)) => true,
        _ => false,
    }
}

// ─── Absolute mouse moves ──────────────────────────────────────────────────

/// Whether an instruction, or anything in any of its bodies (branch
/// callbacks included), moves the mouse to an absolute position.
pub open spec fn moves_absolute(ins: Instruction) -> bool
    decreases ins, 1int,
{
    match ins.kind {
        InstructionKind::Token(InputToken::MoveMouse(_, _, c)) => c == Coordinate::Abs,
        InstructionKind::If { body, .. } => any_moves_absolute(body@),
        InstructionKind::Repeat { body, .. } => any_moves_absolute(body@),
        InstructionKind::Forever { body } => any_moves_absolute(body@),
        InstructionKind::While { body, .. } => any_moves_absolute(body@),
        InstructionKind::IfElse { then_body, else_body, .. } => any_moves_absolute(then_body@)
            || any_moves_absolute(else_body@),
        InstructionKind::CallBlock { branches, .. } => exists|k: int|
            0 <= k < branches@.len() && any_moves_absolute(#[trigger] branches@[k]@),
        _ => false,
    }
}

/// Whether some instruction of `body` moves absolutely (see [`moves_absolute`]).
pub open spec fn any_moves_absolute(body: Seq<Instruction>) -> bool
    decreases body, 0int,
{
    exists|i: int| 0 <= i < body.len() && moves_absolute(#[trigger] body[i])
}

fn body_moves_absolute(body: &Vec<Instruction>) -> (r: bool)
    ensures
        r == any_moves_absolute(body@),
    decreases body@, 0int,
{
    let n = body.len();
    let mut i: usize = 0;
    while i < n
        invariant
            n == body@.len(),
            i <= n,
            forall|j: int| 0 <= j < i ==> !moves_absolute(#[trigger] body@[j]),
        decreases n - i,
    {
        assert(decreases_to!(body@ => body@[i as int]));
        if instruction_moves_absolute(&body[i]) {
            return true;
        }
        i = i + 1;
    }
    false
}

fn instruction_moves_absolute(ins: &Instruction) -> (r: bool)
    ensures
        r == moves_absolute(*ins),
    decreases *ins, 1int,
{
    match &ins.kind {
        InstructionKind::Token(InputToken::MoveMouse(_, _, c)) => match c {
            Coordinate::Abs => true,
            Coordinate::Rel => false,
        },
        InstructionKind::If { body, .. } => body_moves_absolute(body),
        InstructionKind::Repeat { body, .. } => body_moves_absolute(body),
        InstructionKind::Forever { body } => body_moves_absolute(body),
        InstructionKind::While { body, .. } => body_moves_absolute(body),
        InstructionKind::IfElse { then_body, else_body, .. } => body_moves_absolute(then_body)
            || body_moves_absolute(else_body),
        InstructionKind::CallBlock { branches, .. } => {
            let n = branches.len();
            let mut k: usize = 0;
            assert forall|j: int| 0 <= j < n implies decreases_to!(*ins => (#[trigger] branches@[j])@) by {
                assert(decreases_to!(*ins => ins.kind));
                assert(decreases_to!(ins.kind => *branches));
                assert(decreases_to!(*branches => branches@));
                assert(decreases_to!(branches@ => branches@[j]));
                assert(decreases_to!(branches@[j] => branches@[j]@));
            }
            while k < n
                invariant
                    n == branches@.len(),
                    k <= n,
                    ins.kind is CallBlock,
                    ins.kind->CallBlock_branches == *branches,
                    forall|j: int| 0 <= j < n ==> decreases_to!(*ins => (#[trigger] branches@[j])@),
                    forall|j: int| 0 <= j < k ==> !any_moves_absolute(#[trigger] branches@[j]@),
                decreases n - k,
            {
                assert(decreases_to!(*ins => branches@[k as int]@));
                if body_moves_absolute(&branches[k]) {
                    assert(any_moves_absolute(branches@[k as int]@));
                    return true;
                }
                k = k + 1;
            }
            false
        },
        _ => false,
    }
}

/// Whether some strand of `m` moves the mouse to an absolute position.
pub open spec fn macro_moves_absolute(m: Macro) -> bool {
    exists|s: int| 0 <= s < m.strands@.len() && any_moves_absolute((#[trigger] m.strands@[s]).instructions@)
}

impl Macro {
    /// Whether any instruction, including nested bodies, moves to an
    /// absolute screen position.
    pub fn has_absolute_mouse_move(&self) -> (r: bool)
        ensures
            r == macro_moves_absolute(*self),
    {
        let n = self.strands.len();
        let mut s: usize = 0;
        while s < n
            invariant
                n == self.strands@.len(),
                s <= n,
                forall|j: int| 0 <= j < s ==> !any_moves_absolute((#[trigger] self.strands@[j]).instructions@),
            decreases n - s,
        {
            if body_moves_absolute(&self.strands[s].instructions) {
                return true;
            }
            s = s + 1;
        }
        false
    }
}

// ─── Renaming a list ───────────────────────────────────────────────────────

/// Whether the list at `k` is the first one named `name`.
pub open spec fn is_first_list_named(lists: Seq<ListDef>, name: Seq<char>, k: int) -> bool {
    0 <= k < lists.len() && lists[k].name@ == name && forall|j: int| 0 <= j < k ==> (#[trigger] lists[j]).name@ != name
}

/// Whether some list is named `name`.
pub open spec fn has_list_named(lists: Seq<ListDef>, name: Seq<char>) -> bool {
    exists|k: int| 0 <= k < lists.len() && (#[trigger] lists[k]).name@ == name
}

/// `b` is the macro `a` after renaming its list `old_name` to `new_name`:
/// the first list so named takes the new name, and every strand and
/// floating value has its list references renamed; nothing else changes.
pub open spec fn macro_list_renamed(a: Macro, b: Macro, old_name: Seq<char>, new_name: Seq<char>) -> bool {
    &&& b.id == a.id
    &&& b.name == a.name
    &&& b.description == a.description
    &&& b.block_defs == a.block_defs
    &&& b.comments == a.comments
    &&& b.recording_target == a.recording_target
    &&& b.settings == a.settings
    &&& b.lists@.len() == a.lists@.len()
    &&& forall|k: int|
        0 <= k < a.lists@.len() ==> {
            let (x, y) = (#[trigger] a.lists@[k], b.lists@[k]);
            &&& y.items == x.items
            &&& y.editor_visible == x.editor_visible
            &&& y.editor_x == x.editor_x
            &&& y.editor_y == x.editor_y
            &&& y.name@ == (if is_first_list_named(a.lists@, old_name, k) { new_name } else { x.name@ })
        }
    &&& b.strands@.len() == a.strands@.len()
    &&& forall|i: int|
        0 <= i < a.strands@.len() ==> {
            let (x, y) = (#[trigger] a.strands@[i], b.strands@[i]);
            &&& y.id == x.id
            &&& y.x == x.x
            &&& y.y == x.y
            &&& body_renamed(x.instructions@, y.instructions@, old_name, new_name)
        }
    &&& b.floating_values@.len() == a.floating_values@.len()
    &&& forall|i: int|
        0 <= i < a.floating_values@.len() ==> {
            let (x, y) = (#[trigger] a.floating_values@[i], b.floating_values@[i]);
            &&& y.id == x.id
            &&& y.x == x.x
            &&& y.y == x.y
            &&& value_renamed(x.value, y.value, old_name, new_name)
        }
}

impl Macro {
    /// Renames a declared list and every command and reporter reference to
    /// it. No-op if no list is named `old_name`.
    pub fn rename_list(&mut self, old_name: &str, new_name: &str)
        ensures
            !has_list_named(old(self).lists@, old_name@) ==> *final(self) == *old(self),
            has_list_named(old(self).lists@, old_name@) ==> macro_list_renamed(*old(self), *final(self), old_name@, new_name@),
    {
        let nl = self.lists.len();
        let mut k: usize = 0;
        while k < nl
            invariant
                nl == self.lists@.len(),
                k <= nl,
                forall|j: int| 0 <= j < k ==> (#[trigger] self.lists@[j]).name@ != old_name@,
            ensures
                k <= nl,
                forall|j: int| 0 <= j < k ==> (#[trigger] self.lists@[j]).name@ != old_name@,
                k < nl ==> self.lists@[k as int].name@ == old_name@,
            decreases nl - k,
        {
            if str_eq(self.lists[k].name.as_str(), old_name) {
                break;
            }
            k = k + 1;
        }
        if k == nl {
            return;
        }
        let ghost first = k as int;
        assert(is_first_list_named(self.lists@, old_name@, first));
        let mut list = ListDef { name: String::new(), items: Vec::new(), editor_visible: false, editor_x: 0, editor_y: 0 };
        self.lists.set_and_swap(k, &mut list);
        list.name = string_of(new_name);
        self.lists.set_and_swap(k, &mut list);
        proof {
            assert forall|j: int| 0 <= j < nl && j != first implies !is_first_list_named(old(self).lists@, old_name@, j) by {
                if j > first {
                    assert(old(self).lists@[first].name@ == old_name@);
                }
            }
        }
        let ghost renamed_lists = *self;
        let ns = self.strands.len();
        let mut i: usize = 0;
        while i < ns
            invariant
                self.id == renamed_lists.id,
                self.name == renamed_lists.name,
                self.description == renamed_lists.description,
                self.block_defs == renamed_lists.block_defs,
                self.comments == renamed_lists.comments,
                self.recording_target == renamed_lists.recording_target,
                self.settings == renamed_lists.settings,
                self.lists == renamed_lists.lists,
                self.floating_values == renamed_lists.floating_values,
                renamed_lists.strands == old(self).strands,
                renamed_lists.floating_values == old(self).floating_values,
                ns == self.strands@.len(),
                ns == old(self).strands@.len(),
                i <= ns,
                forall|j: int| i <= j < ns ==> #[trigger] self.strands@[j] == old(self).strands@[j],
                forall|j: int|
                    0 <= j < i ==> {
                        let (x, y) = (#[trigger] old(self).strands@[j], self.strands@[j]);
                        &&& y.id == x.id
                        &&& y.x == x.x
                        &&& y.y == x.y
                        &&& body_renamed(x.instructions@, y.instructions@, old_name@, new_name@)
                    },
            decreases ns - i,
        {
            let mut strand = Strand { id: String::new(), x: 0, y: 0, instructions: Vec::new() };
            self.strands.set_and_swap(i, &mut strand);
            rename_list_in_body(&mut strand.instructions, old_name, new_name);
            self.strands.set_and_swap(i, &mut strand);
            i = i + 1;
        }
        let ghost renamed_strands = *self;
        let nf = self.floating_values.len();
        let mut i: usize = 0;
        while i < nf
            invariant
                self.id == renamed_lists.id,
                self.name == renamed_lists.name,
                self.description == renamed_lists.description,
                self.block_defs == renamed_lists.block_defs,
                self.comments == renamed_lists.comments,
                self.recording_target == renamed_lists.recording_target,
                self.settings == renamed_lists.settings,
                self.lists == renamed_lists.lists,
                self.strands == renamed_strands.strands,
                renamed_lists.floating_values == old(self).floating_values,
                nf == self.floating_values@.len(),
                nf == old(self).floating_values@.len(),
                i <= nf,
                forall|j: int| i <= j < nf ==> #[trigger] self.floating_values@[j] == old(self).floating_values@[j],
                forall|j: int|
                    0 <= j < i ==> {
                        let (x, y) = (#[trigger] old(self).floating_values@[j], self.floating_values@[j]);
                        &&& y.id == x.id
                        &&& y.x == x.x
                        &&& y.y == x.y
                        &&& value_renamed(x.value, y.value, old_name@, new_name@)
                    },
            decreases nf - i,
        {
            let mut fv = FloatingValue { id: String::new(), x: 0, y: 0, value: Value::Bool };
            self.floating_values.set_and_swap(i, &mut fv);
            rename_list_in_value(&mut fv.value, old_name, new_name);
            self.floating_values.set_and_swap(i, &mut fv);
            i = i + 1;
        }
    }
}


// ─── Branch callbacks ──────────────────────────────────────────────────────

/// `b` is the instruction `a` with every branch callback `old_name` (a
/// `RunBranch` block, however deeply nested, call branches included)
/// renamed to `new_name`; nothing else changes.
pub open spec fn branch_kind_renamed(a: InstructionKind, b: InstructionKind, old_name: Seq<char>, new_name: Seq<char>) -> bool
    decreases a, 1int,
{
    match a {
        InstructionKind::RunBranch(n) => b matches InstructionKind::RunBranch(n2) && n2@ == renamed_name(
            n@,
            old_name,
            new_name,
        ),
        InstructionKind::CallBlock { block_id, args, branches } => b matches InstructionKind::CallBlock {
            block_id: id2,
            args: args2,
            branches: br2,
        } && id2 == block_id && args2 == args && br2@.len() == branches@.len() && (forall|i: int|
            0 <= i < branches@.len() ==> branch_body_renamed(#[trigger] branches@[i]@, br2@[i]@, old_name, new_name)),
        InstructionKind::If { condition, body } => b matches InstructionKind::If { condition: c2, body: b2 } && c2
            == condition && branch_body_renamed(body@, b2@, old_name, new_name),
        InstructionKind::IfElse { condition, then_body, else_body } => b matches InstructionKind::IfElse {
            condition: c2,
            then_body: t2,
            else_body: e2,
        } && c2 == condition && branch_body_renamed(then_body@, t2@, old_name, new_name) && branch_body_renamed(
            else_body@,
            e2@,
            old_name,
            new_name,
        ),
        InstructionKind::Repeat { count, body } => b matches InstructionKind::Repeat { count: c2, body: b2 } && c2
            == count && branch_body_renamed(body@, b2@, old_name, new_name),
        InstructionKind::Forever { body } => b matches InstructionKind::Forever { body: b2 } && branch_body_renamed(
            body@,
            b2@,
            old_name,
            new_name,
        ),
        InstructionKind::While { condition, body } => b matches InstructionKind::While { condition: c2, body: b2 }
            && c2 == condition && branch_body_renamed(body@, b2@, old_name, new_name),
        _ => b == a,
    }
}

/// [`branch_kind_renamed`] for each instruction of a body, ids kept.
pub open spec fn branch_body_renamed(a: Seq<Instruction>, b: Seq<Instruction>, old_name: Seq<char>, new_name: Seq<char>) -> bool
    decreases a, 0int,
{
    &&& a.len() == b.len()
    &&& forall|i: int| 0 <= i < a.len() ==> #[trigger] b[i].id == a[i].id && branch_kind_renamed(
        a[i].kind,
        b[i].kind,
        old_name,
        new_name,
    )
}

/// Renames branch callbacks throughout an instruction list.
#[verifier::spinoff_prover]
fn rename_branch_in_body(body: &mut Vec<Instruction>, old_name: &str, new_name: &str)
    ensures
        branch_body_renamed(old(body)@, final(body)@, old_name@, new_name@),
    decreases old(body)@, 0int,
{
    let n = body.len();
    let mut i: usize = 0;
    while i < n
        invariant
            n == body@.len(),
            n == old(body)@.len(),
            i <= n,
            forall|j: int| i <= j < n ==> #[trigger] body@[j] == old(body)@[j],
            forall|j: int|
                0 <= j < i ==> #[trigger] body@[j].id == old(body)@[j].id && branch_kind_renamed(
                    old(body)@[j].kind,
                    body@[j].kind,
                    old_name@,
                    new_name@,
                ),
        decreases n - i,
    {
        let mut item = Instruction { id: String::new(), kind: InstructionKind::WhenRan };
        body.set_and_swap(i, &mut item);
        let ghost before = item;
        assert(decreases_to!(old(body)@ => before));
        rename_branch_in_kind(&mut item.kind, old_name, new_name);
        body.set_and_swap(i, &mut item);
        i = i + 1;
    }
}

/// Renames branch callbacks in every branch body of a custom-block call.
fn rename_branch_in_branches(branches: &mut Vec<Vec<Instruction>>, old_name: &str, new_name: &str)
    ensures
        final(branches)@.len() == old(branches)@.len(),
        forall|i: int|
            0 <= i < old(branches)@.len() ==> branch_body_renamed(#[trigger] old(branches)@[i]@, final(branches)@[i]@, old_name@, new_name@),
    decreases old(branches)@, 0int,
{
    let n = branches.len();
    let mut i: usize = 0;
    while i < n
        invariant
            n == branches@.len(),
            n == old(branches)@.len(),
            i <= n,
            forall|j: int| i <= j < n ==> #[trigger] branches@[j] == old(branches)@[j],
            forall|j: int| 0 <= j < i ==> branch_body_renamed(#[trigger] old(branches)@[j]@, branches@[j]@, old_name@, new_name@),
        decreases n - i,
    {
        let mut item: Vec<Instruction> = Vec::new();
        branches.set_and_swap(i, &mut item);
        let ghost before = item;
        assert(decreases_to!(old(branches)@ => before));
        rename_branch_in_body(&mut item, old_name, new_name);
        branches.set_and_swap(i, &mut item);
        i = i + 1;
    }
}

/// Renames branch callbacks throughout one instruction.
fn rename_branch_in_kind(kind: &mut InstructionKind, old_name: &str, new_name: &str)
    ensures
        branch_kind_renamed(*old(kind), *final(kind), old_name@, new_name@),
    decreases *old(kind), 1int,
{
    match kind {
        InstructionKind::RunBranch(n) => {
            if str_eq(n.as_str(), old_name) {
                *n = string_of(new_name);
            }
        },
        InstructionKind::CallBlock { branches, .. } => rename_branch_in_branches(branches, old_name, new_name),
        InstructionKind::If { body, .. } => rename_branch_in_body(body, old_name, new_name),
        InstructionKind::IfElse { then_body, else_body, .. } => {
            rename_branch_in_body(then_body, old_name, new_name);
            rename_branch_in_body(else_body, old_name, new_name);
        },
        InstructionKind::Repeat { body, .. } => rename_branch_in_body(body, old_name, new_name),
        InstructionKind::Forever { body } => rename_branch_in_body(body, old_name, new_name),
        InstructionKind::While { body, .. } => rename_branch_in_body(body, old_name, new_name),
        _ => {},
    }
}

/// Whether `s` is the body strand of the custom block `block_id`: its first
/// instruction is that block's header.
pub open spec fn is_block_body(s: Strand, block_id: Seq<char>) -> bool {
    s.instructions@.len() > 0 && (s.instructions@[0].kind matches InstructionKind::BlockHeader(id) && id@ == block_id)
}

/// The index of the first body strand of `block_id` among `strands`.
pub open spec fn block_body_index(strands: Seq<Strand>, block_id: Seq<char>) -> Option<int>
    decreases strands.len(),
{
    if strands.len() == 0 {
        None
    } else {
        match block_body_index(strands.drop_last(), block_id) {
            Some(k) => Some(k),
            None => if is_block_body(strands.last(), block_id) {
                Some(strands.len() - 1)
            } else {
                None
            },
        }
    }
}

proof fn lemma_block_body_index(strands: Seq<Strand>, block_id: Seq<char>)
    ensures
        block_body_index(strands, block_id) matches Some(k) ==> 0 <= k < strands.len() && is_block_body(
            strands[k],
            block_id,
        ) && forall|j: int| 0 <= j < k ==> !is_block_body(#[trigger] strands[j], block_id),
        block_body_index(strands, block_id) is None ==> forall|j: int|
            0 <= j < strands.len() ==> !is_block_body(#[trigger] strands[j], block_id),
    decreases strands.len(),
{
    if strands.len() > 0 {
        let p = strands.drop_last();
        lemma_block_body_index(p, block_id);
        assert forall|j: int| 0 <= j < p.len() implies p[j] == strands[j] by {}
    }
}

impl Macro {
    /// Renames the branch callback `old_name` to `new_name` inside the body
    /// strand of custom block `block_id`, so it keeps working after the
    /// block's branch piece is renamed. Nothing changes when the block has
    /// no body strand.
    pub fn rename_block_branch_body(&mut self, block_id: &str, old_name: &str, new_name: &str)
        ensures
            final(self).id == old(self).id,
            final(self).name == old(self).name,
            final(self).description == old(self).description,
            final(self).floating_values == old(self).floating_values,
            final(self).comments == old(self).comments,
            final(self).block_defs == old(self).block_defs,
            final(self).recording_target == old(self).recording_target,
            final(self).settings == old(self).settings,
            final(self).lists == old(self).lists,
            final(self).strands@.len() == old(self).strands@.len(),
            match block_body_index(old(self).strands@, block_id@) {
                None => final(self).strands == old(self).strands,
                Some(k) => {
                    &&& forall|j: int| 0 <= j < old(self).strands@.len() && j != k ==> #[trigger] final(self).strands@[j]
                        == old(self).strands@[j]
                    &&& final(self).strands@[k].id == old(self).strands@[k].id
                    &&& final(self).strands@[k].x == old(self).strands@[k].x
                    &&& final(self).strands@[k].y == old(self).strands@[k].y
                    &&& branch_body_renamed(
                        old(self).strands@[k].instructions@,
                        final(self).strands@[k].instructions@,
                        old_name@,
                        new_name@,
                    )
                },
            },
    {
        proof {
            lemma_block_body_index(self.strands@, block_id@);
        }
        let n = self.strands.len();
        let mut k: usize = 0;
        while k < n
            invariant
                n == self.strands@.len(),
                k <= n,
                forall|j: int| 0 <= j < k ==> !is_block_body(#[trigger] self.strands@[j], block_id@),
            ensures
                k <= n,
                forall|j: int| 0 <= j < k ==> !is_block_body(#[trigger] self.strands@[j], block_id@),
                k < n ==> is_block_body(self.strands@[k as int], block_id@),
            decreases n - k,
        {
            let s = &self.strands[k];
            if s.instructions.len() > 0 {
                let found = match &s.instructions[0].kind {
                    InstructionKind::BlockHeader(id) => str_eq(id.as_str(), block_id),
                    _ => false,
                };
                if found {
                    break;
                }
            }
            k = k + 1;
        }
        if k == n {
            proof {
                let idx = block_body_index(self.strands@, block_id@);
                if let Some(w) = idx {
                    assert(!is_block_body(self.strands@[w], block_id@));
                }
            }
            return;
        }
        proof {
            let w = block_body_index(self.strands@, block_id@)->Some_0;
            if w < k {
                assert(!is_block_body(self.strands@[w], block_id@));
            } else if w > k {
                assert(!is_block_body(self.strands@[k as int], block_id@));
            }
        }
        let mut strand = Strand { id: String::new(), x: 0, y: 0, instructions: Vec::new() };
        self.strands.set_and_swap(k, &mut strand);
        rename_branch_in_body(&mut strand.instructions, old_name, new_name);
        self.strands.set_and_swap(k, &mut strand);
    }
}


// ─── Declaring, renaming and deleting lists ─────────────────────────────────

/// Whether some list is named `name` (see [`has_list_named`]).
pub fn has_list(lists: &Vec<ListDef>, name: &str) -> (r: bool)
    ensures
        r == has_list_named(lists@, name@),
{
    let n = lists.len();
    let mut k: usize = 0;
    while k < n
        invariant
            n == lists@.len(),
            k <= n,
            forall|j: int| 0 <= j < k ==> (#[trigger] lists@[j]).name@ != name@,
        decreases n - k,
    {
        if str_eq(lists[k].name.as_str(), name) {
            assert(lists@[k as int].name@ == name@);
            return true;
        }
        k = k + 1;
    }
    false
}

/// The error for a blank list name.
pub open spec fn empty_list_name_message() -> Seq<char> {
    "List name can't be empty"@
}

/// The error for a list name already taken.
pub open spec fn list_exists_message(name: Seq<char>) -> Seq<char> {
    "A list named \""@ + name + "\" already exists"@
}

/// The error for renaming a list that is not declared.
pub open spec fn list_not_found_message() -> Seq<char> {
    "List not found"@
}

/// The error for a list name already taken.
fn list_exists_error(name: &str) -> (r: String)
    ensures
        r@ == list_exists_message(name@),
{
    let mut r = string_of("A list named \"");
    crate::text::push_all(&mut r, name);
    crate::text::push_all(&mut r, "\" already exists");
    r
}

/// `name` without surrounding whitespace.
fn trimmed(name: &str) -> (r: String)
    ensures
        r@ == crate::text::trim(name@),
{
    let cs = crate::text::chars_of(name);
    let (lo, hi) = crate::text::trim_range(&cs, 0, cs.len());
    assert(cs@.subrange(0, cs@.len() as int) =~= name@);
    crate::text::string_of_range(&cs, lo, hi)
}

impl Macro {
    /// Declares a new, empty list under `name` without its surrounding
    /// whitespace, its editor hidden at (36, 36), after the other lists.
    /// Returns the name it got; a blank name or one already taken is
    /// refused, changing nothing.
    pub fn create_list(&mut self, name: &str) -> (r: Result<String, String>)
        ensures
            ({
                let t = crate::text::trim(name@);
                if t.len() == 0 {
                    r matches Err(e) && e@ == empty_list_name_message() && *final(self) == *old(self)
                } else if has_list_named(old(self).lists@, t) {
                    r matches Err(e) && e@ == list_exists_message(t) && *final(self) == *old(self)
                } else {
                    &&& r matches Ok(n) && n@ == t
                    &&& final(self).lists@.len() == old(self).lists@.len() + 1
                    &&& final(self).lists@.drop_last() == old(self).lists@
                    &&& final(self).lists@.last().name@ == t
                    &&& final(self).lists@.last().items@.len() == 0
                    &&& !final(self).lists@.last().editor_visible
                    &&& final(self).lists@.last().editor_x == 36
                    &&& final(self).lists@.last().editor_y == 36
                    &&& *final(self) == (Macro { lists: final(self).lists, ..*old(self) })
                }
            }),
    {
        let t = trimmed(name);
        if t.as_str().unicode_len() == 0 {
            proof {
                reveal_strlit("List name can't be empty");
            }
            return Err(string_of("List name can't be empty"));
        }
        if has_list(&self.lists, t.as_str()) {
            return Err(list_exists_error(t.as_str()));
        }
        let ghost before = self.lists@;
        let name_copy = t.clone();
        self.lists.push(ListDef { name: t, items: Vec::new(), editor_visible: false, editor_x: 36, editor_y: 36 });
        assert(self.lists@.drop_last() =~= before);
        Ok(name_copy)
    }

    /// Renames the list `old_name` to `new_name` without its surrounding
    /// whitespace, and every reference to it (see [`Macro::rename_list`]).
    /// A blank new name, one taken by another list, or an undeclared
    /// `old_name` is refused; renaming a list to its own name does nothing.
    /// Returns whether anything changed.
    pub fn try_rename_list(&mut self, old_name: &str, new_name: &str) -> (r: Result<bool, String>)
        ensures
            ({
                let t = crate::text::trim(new_name@);
                if t.len() == 0 {
                    r matches Err(e) && e@ == empty_list_name_message() && *final(self) == *old(self)
                } else if t != old_name@ && has_list_named(old(self).lists@, t) {
                    r matches Err(e) && e@ == list_exists_message(t) && *final(self) == *old(self)
                } else if !has_list_named(old(self).lists@, old_name@) {
                    r matches Err(e) && e@ == list_not_found_message() && *final(self) == *old(self)
                } else if t == old_name@ {
                    r == Ok::<bool, String>(false) && *final(self) == *old(self)
                } else {
                    r == Ok::<bool, String>(true) && macro_list_renamed(*old(self), *final(self), old_name@, t)
                }
            }),
    {
        let t = trimmed(new_name);
        if t.as_str().unicode_len() == 0 {
            proof {
                reveal_strlit("List name can't be empty");
            }
            return Err(string_of("List name can't be empty"));
        }
        let same = str_eq(t.as_str(), old_name);
        if !same && has_list(&self.lists, t.as_str()) {
            return Err(list_exists_error(t.as_str()));
        }
        if !has_list(&self.lists, old_name) {
            proof {
                reveal_strlit("List not found");
            }
            return Err(string_of("List not found"));
        }
        if same {
            return Ok(false);
        }
        self.rename_list(old_name, t.as_str());
        Ok(true)
    }

    /// Deletes the lists named `name`, keeping the others in order. Returns
    /// whether there was one.
    pub fn delete_list(&mut self, name: &str) -> (r: bool)
        ensures
            r == has_list_named(old(self).lists@, name@),
            final(self).lists@ == lists_without(old(self).lists@, name@),
            *final(self) == (Macro { lists: final(self).lists, ..*old(self) }),
    {
        let ghost v = self.lists@;
        let found = has_list(&self.lists, name);
        let mut kept: Vec<ListDef> = Vec::new();
        while self.lists.len() > 0
            invariant
                v == old(self).lists@,
                self.lists@.len() <= v.len(),
                self.lists@ == v.skip(v.len() - self.lists@.len()),
                kept@ == v.take(v.len() - self.lists@.len()).filter(|l: ListDef| l.name@ != name@),
                *self == (Macro { lists: self.lists, ..*old(self) }),
            decreases self.lists@.len(),
        {
            let ghost i = v.len() - self.lists@.len();
            let list = self.lists.remove(0);
            assert(list == v[i]);
            assert(self.lists@ =~= v.skip(i + 1));
            let ghost before = kept@;
            assert(v.take(i + 1).drop_last() =~= v.take(i));
            assert(v.take(i + 1).last() == v[i]);
            proof {
                reveal(Seq::filter);
            }
            if !str_eq(list.name.as_str(), name) {
                kept.push(list);
            }
        }
        assert(v.take(v.len() as int) =~= v);
        self.lists = kept;
        found
    }
}

/// No two lists share a name.
pub open spec fn list_names_unique(lists: Seq<ListDef>) -> bool {
    forall|i: int, j: int| 0 <= i < j < lists.len() ==> (#[trigger] lists[i]).name@ != (#[trigger] lists[j]).name@
}

/// Declaring a list keeps list names unique: the new name was not taken.
pub proof fn lemma_create_keeps_names_unique(before: Seq<ListDef>, after: Seq<ListDef>, name: Seq<char>)
    requires
        list_names_unique(before),
        !has_list_named(before, name),
        after.len() == before.len() + 1,
        after.drop_last() == before,
        after.last().name@ == name,
    ensures
        list_names_unique(after),
{
    assert forall|i: int, j: int| 0 <= i < j < after.len() implies (#[trigger] after[i]).name@ != (
    #[trigger] after[j]).name@ by {
        assert(after[i] == before[i]);
        if j < before.len() {
            assert(after[j] == before[j]);
        } else {
            assert(after[j] == after.last());
            assert(before[i].name@ != name);
        }
    }
}

/// Renaming a list to a name no list has keeps list names unique.
pub proof fn lemma_rename_keeps_names_unique(a: Macro, b: Macro, old_name: Seq<char>, new_name: Seq<char>)
    requires
        list_names_unique(a.lists@),
        !has_list_named(a.lists@, new_name),
        macro_list_renamed(a, b, old_name, new_name),
    ensures
        list_names_unique(b.lists@),
{
    assert forall|i: int, j: int| 0 <= i < j < b.lists@.len() implies (#[trigger] b.lists@[i]).name@ != (
    #[trigger] b.lists@[j]).name@ by {
        let (x, y) = (a.lists@[i], a.lists@[j]);
        assert(x.name@ != new_name && y.name@ != new_name);
        if is_first_list_named(a.lists@, old_name, i) {
            assert(!is_first_list_named(a.lists@, old_name, j));
        }
    }
}

/// The lists but those named `name`, in order.
pub open spec fn lists_without(lists: Seq<ListDef>, name: Seq<char>) -> Seq<ListDef> {
    lists.filter(|l: ListDef| l.name@ != name)
}

/// Deleting a list leaves no list of that name and keeps the other names
/// unique.
pub proof fn lemma_delete_removes_list(lists: Seq<ListDef>, name: Seq<char>)
    requires
        list_names_unique(lists),
    ensures
        !has_list_named(lists_without(lists, name), name),
        list_names_unique(lists_without(lists, name)),
        forall|k: int|
            0 <= k < lists_without(lists, name).len() ==> has_list_named(
                lists,
                (#[trigger] lists_without(lists, name)[k]).name@,
            ),
    decreases lists.len(),
{
    let f = lists_without(lists, name);
    reveal(Seq::filter);
    if lists.len() > 0 {
        let p = lists.drop_last();
        assert forall|i: int, j: int| 0 <= i < j < p.len() implies (#[trigger] p[i]).name@ != (#[trigger] p[j]).name@ by {
            assert(p[i] == lists[i] && p[j] == lists[j]);
        }
        lemma_delete_removes_list(p, name);
        let pf = lists_without(p, name);
        if lists.last().name@ != name {
            assert(f == pf.push(lists.last()));
            assert forall|k: int| 0 <= k < pf.len() implies (#[trigger] pf[k]).name@ != lists.last().name@ by {
                assert(has_list_named(p, pf[k].name@));
                let m = choose|m: int| 0 <= m < p.len() && (#[trigger] p[m]).name@ == pf[k].name@;
                assert(p[m] == lists[m]);
                assert(lists[m].name@ != lists[lists.len() - 1].name@);
            }
            assert forall|k: int| 0 <= k < f.len() implies has_list_named(lists, (#[trigger] f[k]).name@) by {
                if k < pf.len() {
                    assert(f[k] == pf[k]);
                    assert(has_list_named(p, pf[k].name@));
                    let m = choose|m: int| 0 <= m < p.len() && (#[trigger] p[m]).name@ == pf[k].name@;
                    assert(lists[m] == p[m]);
                } else {
                    assert(f[k] == lists[lists.len() - 1]);
                }
            }
            assert forall|i: int, j: int| 0 <= i < j < f.len() implies (#[trigger] f[i]).name@ != (#[trigger] f[j]).name@ by {
                if j < pf.len() {
                    assert(f[i] == pf[i] && f[j] == pf[j]);
                } else {
                    assert(f[i] == pf[i] && f[j] == lists.last());
                }
            }
            assert forall|k: int| 0 <= k < f.len() implies (#[trigger] f[k]).name@ != name by {
                if k < pf.len() {
                    assert(f[k] == pf[k]);
                }
            }
        } else {
            assert(f == pf);
            assert forall|k: int| 0 <= k < f.len() implies has_list_named(lists, (#[trigger] f[k]).name@) by {
                assert(has_list_named(p, pf[k].name@));
                let m = choose|m: int| 0 <= m < p.len() && (#[trigger] p[m]).name@ == pf[k].name@;
                assert(lists[m] == p[m]);
            }
        }
    }
}

// ─── New macros, ids and list contents ─────────────────────────────────────

impl Macro {
    /// A new macro named `name` whose single strand, at the canvas origin,
    /// starts with a `When Ran` header followed by `code`. The macro, its
    /// strand and the header get fresh ids.
    pub fn new(name: String, description: String, code: Vec<Instruction>) -> (m: Macro)
        ensures
            m.name == name,
            m.description == description,
            crate::ids::is_fresh_id(m.id@),
            m.strands@.len() == 1,
            crate::ids::is_fresh_id(m.strands@[0].id@),
            m.strands@[0].x == 0,
            m.strands@[0].y == 0,
            m.strands@[0].instructions@.len() == code@.len() + 1,
            m.strands@[0].instructions@[0].kind == InstructionKind::WhenRan,
            crate::ids::is_fresh_id(m.strands@[0].instructions@[0].id@),
            m.strands@[0].instructions@.drop_first() == code@,
            m.floating_values@.len() == 0,
            m.comments@.len() == 0,
            m.block_defs@.len() == 0,
            m.recording_target is None,
            m.settings == MacroSettings::default_spec(),
            m.lists@.len() == 0,
    {
        let mut code = code;
        let ghost given = code@;
        code.insert(0, Instruction { id: crate::ids::new_id(), kind: InstructionKind::WhenRan });
        assert(code@.drop_first() =~= given);
        let mut strands: Vec<Strand> = Vec::new();
        strands.push(Strand { id: crate::ids::new_id(), x: 0, y: 0, instructions: code });
        Macro {
            id: crate::ids::new_id(),
            name,
            description,
            strands,
            floating_values: Vec::new(),
            comments: Vec::new(),
            block_defs: Vec::new(),
            recording_target: None,
            settings: MacroSettings::default(),
            lists: Vec::new(),
        }
    }

    /// Gives the macro a fresh id when its id is blank (empty or only
    /// whitespace), as older save files may have it.
    pub fn ensure_id(&mut self)
        ensures
            crate::text::trim(old(self).id@).len() == 0 ==> crate::ids::is_fresh_id(final(self).id@),
            crate::text::trim(old(self).id@).len() != 0 ==> final(self).id == old(self).id,
            final(self).name == old(self).name,
            final(self).description == old(self).description,
            final(self).strands == old(self).strands,
            final(self).floating_values == old(self).floating_values,
            final(self).comments == old(self).comments,
            final(self).block_defs == old(self).block_defs,
            final(self).recording_target == old(self).recording_target,
            final(self).settings == old(self).settings,
            final(self).lists == old(self).lists,
    {
        let chars = crate::text::chars_of(self.id.as_str());
        let (a, b) = crate::text::trim_range(&chars, 0, chars.len());
        assert(chars@.subrange(0, chars@.len() as int) =~= chars@);
        if a == b {
            self.id = crate::ids::new_id();
        }
    }
}

/// What evaluating a value gives: a number (as the bit pattern of its
/// `f64`), a text, or a truth value.
#[derive(Debug, PartialEq)]
pub enum Evaluated {
    Number(u64),
    Text(String),
    Bool(bool),
}

impl ListItem {
    /// The list item an evaluated value becomes: lists hold numbers and
    /// texts only, so a truth value becomes none.
    pub fn from_evaluated(value: Evaluated) -> (r: Option<ListItem>)
        ensures
            match value {
                Evaluated::Number(bits) => r == Some(ListItem::Number(bits)),
                Evaluated::Text(t) => r == Some(ListItem::Text(t)),
                Evaluated::Bool(_) => r is None,
            },
    {
        match value {
            Evaluated::Number(bits) => Some(ListItem::Number(bits)),
            Evaluated::Text(t) => Some(ListItem::Text(t)),
            Evaluated::Bool(_) => None,
        }
    }

    /// The value a list item evaluates to.
    pub fn evaluated(&self) -> (r: Evaluated)
        ensures
            match *self {
                ListItem::Number(bits) => r == Evaluated::Number(bits),
                ListItem::Text(t) => r matches Evaluated::Text(u) && u@ == t@,
            },
    {
        match self {
            ListItem::Number(bits) => Evaluated::Number(*bits),
            ListItem::Text(t) => Evaluated::Text(string_of(t.as_str())),
        }
    }
}

/// A list item as a plain value.
pub open spec fn item_view(i: ListItem) -> (bool, u64, Seq<char>) {
    match i {
        ListItem::Number(bits) => (true, bits, Seq::empty()),
        ListItem::Text(t) => (false, 0, t@),
    }
}

/// The plain values of a sequence of list items.
pub open spec fn items_view(items: Seq<ListItem>) -> Seq<(bool, u64, Seq<char>)> {
    Seq::new(items.len(), |i: int| item_view(items[i]))
}

/// A copy of a list's items.
fn copy_items(items: &Vec<ListItem>) -> (r: Vec<ListItem>)
    ensures
        items_view(r@) == items_view(items@),
{
    let mut out: Vec<ListItem> = Vec::new();
    let mut i: usize = 0;
    while i < items.len()
        invariant
            i <= items@.len(),
            out@.len() == i,
            forall|j: int| 0 <= j < i ==> item_view(#[trigger] out@[j]) == item_view(items@[j]),
        decreases items@.len() - i,
    {
        let c = match &items[i] {
            ListItem::Number(bits) => ListItem::Number(*bits),
            ListItem::Text(t) => ListItem::Text(string_of(t.as_str())),
        };
        out.push(c);
        i = i + 1;
    }
    assert(items_view(out@) =~= items_view(items@));
    out
}

/// The contents recorded for the list `name` in a run's list store: the
/// last entry under that name.
pub open spec fn stored_items(values: Seq<(String, Vec<ListItem>)>, name: Seq<char>) -> Option<Seq<(bool, u64, Seq<char>)>>
    decreases values.len(),
{
    if values.len() == 0 {
        None
    } else if values.last().0@ == name {
        Some(items_view(values.last().1@))
    } else {
        stored_items(values.drop_last(), name)
    }
}

/// The entry of `values` for the list `name`, if any (the last one).
fn find_stored(values: &Vec<(String, Vec<ListItem>)>, name: &str) -> (r: Option<usize>)
    ensures
        match r {
            Some(i) => i < values@.len() && stored_items(values@, name@) == Some(items_view(values@[i as int].1@)),
            None => stored_items(values@, name@) is None,
        },
{
    let mut j: usize = values.len();
    assert(values@.take(j as int) =~= values@);
    while j > 0
        invariant
            j <= values@.len(),
            stored_items(values@, name@) == stored_items(values@.take(j as int), name@),
        decreases j,
    {
        let ghost t = values@.take(j as int);
        assert(t.drop_last() =~= values@.take(j - 1));
        assert(t.last() == values@[j - 1]);
        if str_eq(values[j - 1].0.as_str(), name) {
            return Some(j - 1);
        }
        j = j - 1;
    }
    None
}

impl Macro {
    /// Writes a run's live list contents back into the declared lists: a
    /// list with an entry in `values` takes that entry's items; the others
    /// keep theirs.
    pub fn sync_lists_from(&mut self, values: &Vec<(String, Vec<ListItem>)>)
        ensures
            final(self).id == old(self).id,
            final(self).name == old(self).name,
            final(self).strands == old(self).strands,
            final(self).floating_values == old(self).floating_values,
            final(self).comments == old(self).comments,
            final(self).block_defs == old(self).block_defs,
            final(self).settings == old(self).settings,
            final(self).lists@.len() == old(self).lists@.len(),
            forall|k: int| 0 <= k < old(self).lists@.len() ==> {
                let (x, y) = (#[trigger] old(self).lists@[k], final(self).lists@[k]);
                &&& y.name == x.name
                &&& y.editor_visible == x.editor_visible
                &&& y.editor_x == x.editor_x
                &&& y.editor_y == x.editor_y
                &&& items_view(y.items@) == match stored_items(values@, x.name@) {
                    Some(items) => items,
                    None => items_view(x.items@),
                }
            },
    {
        let n = self.lists.len();
        let mut k: usize = 0;
        while k < n
            invariant
                n == self.lists@.len(),
                n == old(self).lists@.len(),
                k <= n,
                self.id == old(self).id,
                self.name == old(self).name,
                self.strands == old(self).strands,
                self.floating_values == old(self).floating_values,
                self.comments == old(self).comments,
                self.block_defs == old(self).block_defs,
                self.settings == old(self).settings,
                forall|j: int| k <= j < n ==> #[trigger] self.lists@[j] == old(self).lists@[j],
                forall|j: int| 0 <= j < k ==> {
                    let (x, y) = (#[trigger] old(self).lists@[j], self.lists@[j]);
                    &&& y.name == x.name
                    &&& y.editor_visible == x.editor_visible
                    &&& y.editor_x == x.editor_x
                    &&& y.editor_y == x.editor_y
                    &&& items_view(y.items@) == match stored_items(values@, x.name@) {
                        Some(items) => items,
                        None => items_view(x.items@),
                    }
                },
            decreases n - k,
        {
            let found = find_stored(values, self.lists[k].name.as_str());
            match found {
                Some(i) => {
                    let items = copy_items(&values[i].1);
                    let mut list = ListDef { name: String::new(), items: Vec::new(), editor_visible: false, editor_x: 0, editor_y: 0 };
                    self.lists.set_and_swap(k, &mut list);
                    list.items = items;
                    self.lists.set_and_swap(k, &mut list);
                },
                None => {},
            }
            k = k + 1;
        }
    }
}


/// The index of the first strand whose id is `id`.
pub open spec fn strand_index(strands: Seq<Strand>, id: Seq<char>) -> Option<int>
    decreases strands.len(),
{
    if strands.len() == 0 {
        None
    } else {
        match strand_index(strands.drop_last(), id) {
            Some(k) => Some(k),
            None => if strands.last().id@ == id {
                Some(strands.len() - 1)
            } else {
                None
            },
        }
    }
}

/// The index of the first strand that starts with `When Ran`.
pub open spec fn when_ran_index(strands: Seq<Strand>) -> Option<int>
    decreases strands.len(),
{
    if strands.len() == 0 {
        None
    } else {
        match when_ran_index(strands.drop_last()) {
            Some(k) => Some(k),
            None => if spec_starts_with_when_ran(strands.last()) {
                Some(strands.len() - 1)
            } else {
                None
            },
        }
    }
}

pub proof fn lemma_strand_index(strands: Seq<Strand>, id: Seq<char>)
    ensures
        strand_index(strands, id) matches Some(k) ==> 0 <= k < strands.len() && strands[k].id@ == id && forall|j: int|
            0 <= j < k ==> (#[trigger] strands[j]).id@ != id,
        strand_index(strands, id) is None ==> forall|j: int| 0 <= j < strands.len() ==> (#[trigger] strands[j]).id@ != id,
    decreases strands.len(),
{
    if strands.len() > 0 {
        let p = strands.drop_last();
        lemma_strand_index(p, id);
        assert forall|j: int| 0 <= j < p.len() implies p[j] == strands[j] by {}
    }
}

proof fn lemma_when_ran_index(strands: Seq<Strand>)
    ensures
        when_ran_index(strands) matches Some(k) ==> 0 <= k < strands.len() && spec_starts_with_when_ran(strands[k])
            && forall|j: int| 0 <= j < k ==> !spec_starts_with_when_ran(#[trigger] strands[j]),
        when_ran_index(strands) is None ==> forall|j: int| 0 <= j < strands.len() ==> !spec_starts_with_when_ran(#[trigger] strands[j]),
    decreases strands.len(),
{
    if strands.len() > 0 {
        let p = strands.drop_last();
        lemma_when_ran_index(p);
        assert forall|j: int| 0 <= j < p.len() implies p[j] == strands[j] by {}
    }
}

/// Which strand recorded input goes to: the explicit recording target while
/// a strand has its id, else the first strand starting with `When Ran`, else
/// the first strand.
pub open spec fn target_index(strands: Seq<Strand>, target: Option<String>) -> int {
    match target {
        Some(t) => match strand_index(strands, t@) {
            Some(k) => k,
            None => match when_ran_index(strands) {
                Some(k) => k,
                None => 0,
            },
        },
        None => match when_ran_index(strands) {
            Some(k) => k,
            None => 0,
        },
    }
}

impl Macro {
    /// The strand freshly recorded input is appended to (see
    /// [`target_index`]), creating an empty strand at the origin first when
    /// the macro has none.
    pub fn recording_target_mut(&mut self) -> (r: &mut Strand)
        ensures
            old(self).strands@.len() > 0 ==> {
                let k = target_index(old(self).strands@, old(self).recording_target);
                &&& 0 <= k < old(self).strands@.len()
                &&& *r == old(self).strands@[k]
                &&& final(self).strands@ == old(self).strands@.update(k, *final(r))
            },
            old(self).strands@.len() == 0 ==> {
                &&& r.x == 0 && r.y == 0 && r.instructions@.len() == 0
                &&& crate::ids::is_fresh_id(r.id@)
                &&& final(self).strands@ == seq![*final(r)]
            },
            final(self).id == old(self).id,
            final(self).name == old(self).name,
            final(self).description == old(self).description,
            final(self).floating_values == old(self).floating_values,
            final(self).comments == old(self).comments,
            final(self).block_defs == old(self).block_defs,
            final(self).recording_target == old(self).recording_target,
            final(self).settings == old(self).settings,
            final(self).lists == old(self).lists,
    {
        proof {
            lemma_when_ran_index(self.strands@);
            if self.recording_target is Some {
                lemma_strand_index(self.strands@, self.recording_target->Some_0@);
            }
        }
        let n = self.strands.len();
        let mut pos: Option<usize> = None;
        if let Some(id) = &self.recording_target {
            let mut i: usize = 0;
            while i < n
                invariant
                    n == self.strands@.len(),
                    i <= n,
                    self.recording_target == Some(*id),
                    forall|j: int| 0 <= j < i ==> (#[trigger] self.strands@[j]).id@ != id@,
                ensures
                    i <= n,
                    forall|j: int| 0 <= j < i ==> (#[trigger] self.strands@[j]).id@ != id@,
                    i < n ==> self.strands@[i as int].id@ == id@,
                decreases n - i,
            {
                if str_eq(self.strands[i].id.as_str(), id.as_str()) {
                    break;
                }
                i = i + 1;
            }
            if i < n {
                proof {
                    let w = strand_index(self.strands@, id@)->Some_0;
                    if w < i {
                        assert(self.strands@[w].id@ != id@);
                    } else if w > i {
                        assert(self.strands@[i as int].id@ != id@);
                    }
                }
                pos = Some(i);
            } else {
                proof {
                    if let Some(w) = strand_index(self.strands@, id@) {
                        assert(self.strands@[w].id@ != id@);
                    }
                }
            }
        }
        if pos.is_none() {
            let mut i: usize = 0;
            while i < n
                invariant
                    n == self.strands@.len(),
                    i <= n,
                    forall|j: int| 0 <= j < i ==> !spec_starts_with_when_ran(#[trigger] self.strands@[j]),
                ensures
                    i <= n,
                    forall|j: int| 0 <= j < i ==> !spec_starts_with_when_ran(#[trigger] self.strands@[j]),
                    i < n ==> spec_starts_with_when_ran(self.strands@[i as int]),
                decreases n - i,
            {
                if self.strands[i].starts_with_when_ran() {
                    break;
                }
                i = i + 1;
            }
            if i < n {
                proof {
                    let w = when_ran_index(self.strands@)->Some_0;
                    if w < i {
                        assert(!spec_starts_with_when_ran(self.strands@[w]));
                    } else if w > i {
                        assert(!spec_starts_with_when_ran(self.strands@[i as int]));
                    }
                }
                pos = Some(i);
            } else {
                proof {
                    if let Some(w) = when_ran_index(self.strands@) {
                        assert(!spec_starts_with_when_ran(self.strands@[w]));
                    }
                }
            }
        }
        let k = match pos {
            Some(k) => k,
            None => 0,
        };
        assert(n > 0 ==> k == target_index(self.strands@, self.recording_target));
        if n == 0 {
            self.strands.push(Strand { id: crate::ids::new_id(), x: 0, y: 0, instructions: Vec::new() });
        }
        &mut self.strands[k]
    }
}

} // verus!
