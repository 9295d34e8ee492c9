//! Blockwork's block vocabulary: the instructions its canvas speaks, the
//! bodies nested inside control blocks, and the structural checks and walks
//! over them.

use vstd::prelude::*;
use vstd::string::*;
use crate::state::{Axis, Coordinate, Direction};
use crate::text::{str_eq, string_of};
use crate::value::{rename_list_in_value, rename_model, Value};

verus! {

/// One emitted input action. Keys and buttons carry their names as the
/// editor shows them.
#[derive(Debug, PartialEq, Eq, Hash)]
pub enum InputToken {
    Key(String, Direction),
    Button(String, Direction),
    MoveMouse(Value, Value, Coordinate),
    Scroll(Value, Axis),
    Text(Value),
}

/// One instruction on the canvas and the stable id it is tracked by.
#[derive(Debug, PartialEq, Eq, Hash)]
pub struct Instruction {
    pub id: String,
    pub kind: InstructionKind,
}

/// Every kind of instruction.
#[derive(Debug, PartialEq, Eq, Hash)]
pub enum InstructionKind {
    Token(InputToken),
    Wait(Value),
    Command(String),
    Comment(String),
    /// Marks a strand as an entry point.
    WhenRan,
    WhenBatteryDischargedTo(Value),
    WhenBatteryChargedTo(Value),
    WhenPowerPluggedIn,
    WhenPowerUnplugged,
    WhenClipboardChanged,
    OpenApp { command: String, name: String, icon: Option<String> },
    CloseApp { command: String, name: String, icon: Option<String> },
    SetVariable(String, Value),
    ChangeVariable(String, Value),
    SetClipboard(Value),
    AddToList { value: Value, name: String },
    DeleteOfList { index: Value, name: String },
    DeleteAllOfList { name: String },
    ShiftList { name: String, amount: Value },
    InsertIntoList { value: Value, index: Value, name: String },
    ReplaceItemOfList { index: Value, name: String, value: Value },
    ReverseList { name: String },
    /// Marks a strand as a custom block's body; holds the block id.
    BlockHeader(String),
    CallBlock { block_id: String, args: Vec<Value>, branches: Vec<Vec<Instruction>> },
    RunBranch(String),
    Return(Value),
    If { condition: Value, body: Vec<Instruction> },
    IfElse { condition: Value, then_body: Vec<Instruction>, else_body: Vec<Instruction> },
    Repeat { count: Value, body: Vec<Instruction> },
    Forever { body: Vec<Instruction> },
    While { condition: Value, body: Vec<Instruction> },
    EscapeLoop,
    ContinueLoop,
}

/// One step of a path into nested bodies: the instruction at `index`, then
/// (for all but the last step) its body `slot`.
#[derive(Debug, Clone, Copy, PartialEq, Eq, Structural)]
pub struct PathStep {
    pub index: usize,
    pub slot: Option<u8>,
}

/// One draggable stack of instructions.
#[derive(Debug, PartialEq, Eq, Hash)]
pub struct Strand {
    pub id: String,
    pub x: i32,
    pub y: i32,
    pub instructions: Vec<Instruction>,
}

/// Header blocks start a strand and render with a flat top.
pub open spec fn spec_is_header(k: InstructionKind) -> bool {
    match k {
        InstructionKind::WhenRan | InstructionKind::BlockHeader(_)
        | InstructionKind::WhenBatteryDischargedTo(_) | InstructionKind::WhenBatteryChargedTo(_)
        | InstructionKind::WhenPowerPluggedIn | InstructionKind::WhenPowerUnplugged
        | InstructionKind::WhenClipboardChanged => true,
        _ => false,
    }
}

/// The body in `slot` of an instruction, if it has one there.
pub open spec fn spec_body(k: InstructionKind, slot: int) -> Option<Vec<Instruction>> {
    match k {
        InstructionKind::If { body, .. } => if slot == 0 { Some(body) } else { None },
        InstructionKind::IfElse { then_body, else_body, .. } => if slot == 0 {
            Some(then_body)
        } else if slot == 1 {
            Some(else_body)
        } else {
            None
        },
        InstructionKind::Repeat { body, .. } => if slot == 0 { Some(body) } else { None },
        InstructionKind::Forever { body } => if slot == 0 { Some(body) } else { None },
        InstructionKind::While { body, .. } => if slot == 0 { Some(body) } else { None },
        InstructionKind::CallBlock { branches, .. } => if 0 <= slot < branches@.len() {
            Some(branches@[slot])
        } else {
            None
        },
        _ => None,
    }
}

/// `Repeat`, `Forever` and `While` are loops.
pub open spec fn is_loop(k: InstructionKind) -> bool {
    match k {
        InstructionKind::Repeat { .. } | InstructionKind::Forever { .. } | InstructionKind::While { .. } => true,
        _ => false,
    }
}

/// `EscapeLoop` and `ContinueLoop` only make sense inside a loop.
pub open spec fn is_loop_control(k: InstructionKind) -> bool {
    match k {
        InstructionKind::EscapeLoop | InstructionKind::ContinueLoop => true,
        _ => false,
    }
}

/// `b` is `a` with its body in `slot` (see [`spec_body`]) replaced by
/// `body`, everything else as it was.
pub open spec fn body_replaced(a: InstructionKind, b: InstructionKind, slot: int, body: Vec<Instruction>) -> bool {
    match a {
        InstructionKind::If { condition, .. } => slot == 0 && b == InstructionKind::If { condition, body },
        InstructionKind::IfElse { condition, then_body, else_body } => (slot == 0 && b == InstructionKind::IfElse {
            condition,
            then_body: body,
            else_body,
        }) || (slot == 1 && b == InstructionKind::IfElse { condition, then_body, else_body: body }),
        InstructionKind::Repeat { count, .. } => slot == 0 && b == InstructionKind::Repeat { count, body },
        InstructionKind::Forever { .. } => slot == 0 && b == InstructionKind::Forever { body },
        InstructionKind::While { condition, .. } => slot == 0 && b == InstructionKind::While { condition, body },
        InstructionKind::CallBlock { block_id, args, branches } => b matches InstructionKind::CallBlock {
            block_id: id2,
            args: args2,
            branches: br2,
        } && id2 == block_id && args2 == args && 0 <= slot < branches@.len() && br2@ == branches@.update(slot, body),
        _ => false,
    }
}

impl InstructionKind {
    /// Whether this is a header block.
    pub fn is_header(&self) -> (r: bool)
        ensures
            r == spec_is_header(*self),
    {
        match self {
            InstructionKind::WhenRan | InstructionKind::BlockHeader(_)
            | InstructionKind::WhenBatteryDischargedTo(_) | InstructionKind::WhenBatteryChargedTo(_)
            | InstructionKind::WhenPowerPluggedIn | InstructionKind::WhenPowerUnplugged
            | InstructionKind::WhenClipboardChanged => true,
            _ => false,
        }
    }

    /// The body in `slot`: `If`/`Repeat`/`Forever`/`While` have one (slot 0),
    /// `IfElse` two, and a custom-block call one per branch callback.
    pub fn body(&self, slot: u8) -> (r: Option<&Vec<Instruction>>)
        ensures
            match spec_body(*self, slot as int) {
                Some(b) => r matches Some(x) && *x == b,
                None => r is None,
            },
    {
        match self {
            InstructionKind::If { body, .. } => if slot == 0 { Some(body) } else { None },
            InstructionKind::IfElse { then_body, else_body, .. } => if slot == 0 {
                Some(then_body)
            } else if slot == 1 {
                Some(else_body)
            } else {
                None
            },
            InstructionKind::Repeat { body, .. } => if slot == 0 { Some(body) } else { None },
            InstructionKind::Forever { body } => if slot == 0 { Some(body) } else { None },
            InstructionKind::While { body, .. } => if slot == 0 { Some(body) } else { None },
            InstructionKind::CallBlock { branches, .. } => if (slot as usize) < branches.len() {
                Some(&branches[slot as usize])
            } else {
                None
            },
            _ => None,
        }
    }

    /// The body in `slot`, to edit in place (see [`InstructionKind::body`]).
    pub fn body_mut(&mut self, slot: u8) -> (r: Option<&mut Vec<Instruction>>)
        ensures
            match spec_body(*old(self), slot as int) {
                Some(b) => r matches Some(x) && *x == b && body_replaced(*old(self), *final(self), slot as int, *final(x)),
                None => r is None && *final(self) == *old(self),
            },
    {
        match self {
            InstructionKind::If { body, .. } => if slot == 0 { Some(body) } else { None },
            InstructionKind::IfElse { then_body, else_body, .. } => if slot == 0 {
                Some(then_body)
            } else if slot == 1 {
                Some(else_body)
            } else {
                None
            },
            InstructionKind::Repeat { body, .. } => if slot == 0 { Some(body) } else { None },
            InstructionKind::Forever { body } => if slot == 0 { Some(body) } else { None },
            InstructionKind::While { body, .. } => if slot == 0 { Some(body) } else { None },
            InstructionKind::CallBlock { branches, .. } => if (slot as usize) < branches.len() {
                Some(&mut branches[slot as usize])
            } else {
                None
            },
            _ => None,
        }
    }

    /// The variable name a `SetVariable` or `ChangeVariable` writes, to
    /// edit in place; every other instruction has none.
    pub fn variable_target_mut(&mut self) -> (r: Option<&mut String>)
        ensures
            match *old(self) {
                InstructionKind::SetVariable(name, v) => r matches Some(x) && *x == name
                    && *final(self) == InstructionKind::SetVariable(*final(x), v),
                InstructionKind::ChangeVariable(name, v) => r matches Some(x) && *x == name
                    && *final(self) == InstructionKind::ChangeVariable(*final(x), v),
                _ => r is None && *final(self) == *old(self),
            },
    {
        match self {
            InstructionKind::SetVariable(name, _) => Some(name),
            InstructionKind::ChangeVariable(name, _) => Some(name),
            _ => None,
        }
    }

    /// Whether this is a call of the custom block `block_id`.
    pub fn calls_block(&self, block_id: &str) -> (r: bool)
        ensures
            r == (*self matches InstructionKind::CallBlock { block_id: id, .. } && id@ == block_id@),
    {
        match self {
            InstructionKind::CallBlock { block_id: id, .. } => str_eq(id.as_str(), block_id),
            _ => false,
        }
    }

    /// The arguments of a call of the custom block `block_id`, to edit in
    /// place; `None` for anything else.
    pub fn call_args_mut(&mut self, block_id: &str) -> (r: Option<&mut Vec<Value>>)
        ensures
            match *old(self) {
                InstructionKind::CallBlock { block_id: id, args, branches } => if id@ == block_id@ {
                    r matches Some(x) && *x == args
                        && *final(self) == InstructionKind::CallBlock { block_id: id, args: *final(x), branches }
                } else {
                    r is None && *final(self) == *old(self)
                },
                _ => r is None && *final(self) == *old(self),
            },
    {
        match self {
            InstructionKind::CallBlock { block_id: id, args, .. } => if str_eq(id.as_str(), block_id) {
                Some(args)
            } else {
                None
            },
            _ => None,
        }
    }

    /// Puts a captured key into a key block, keeping its direction.
    /// Returns whether this is a key block; anything else is left alone.
    pub fn set_captured_key(&mut self, key: String) -> (r: bool)
        ensures
            r == (*old(self) matches InstructionKind::Token(InputToken::Key(_, _))),
            match *old(self) {
                InstructionKind::Token(InputToken::Key(_, d)) => *final(self) == InstructionKind::Token(
                    InputToken::Key(key, d),
                ),
                _ => *final(self) == *old(self),
            },
    {
        match self {
            InstructionKind::Token(InputToken::Key(k, _)) => {
                *k = key;
                true
            },
            _ => false,
        }
    }

    /// The custom block a `BlockHeader` starts the body of.
    pub fn block_header_id(&self) -> (r: Option<&str>)
        ensures
            match *self {
                InstructionKind::BlockHeader(id) => r matches Some(x) && x@ == id@,
                _ => r is None,
            },
    {
        match self {
            InstructionKind::BlockHeader(id) => Some(id.as_str()),
            _ => None,
        }
    }
}

/// Whether the ancestors that `path` walks through, starting from `list`,
/// include a loop. The walk stops (without finding one) at a step with no
/// slot, an index past the end, or a slot the ancestor does not have.
pub open spec fn inside_loop(list: Seq<Instruction>, path: Seq<PathStep>) -> bool
    decreases path.len(),
{
    if path.len() == 0 {
        false
    } else {
        let step = path[0];
        match step.slot {
            None => false,
            Some(slot) => if step.index >= list.len() {
                false
            } else {
                let ancestor = list[step.index as int];
                if is_loop(ancestor.kind) {
                    true
                } else {
                    match spec_body(ancestor.kind, slot as int) {
                        None => false,
                        Some(b) => inside_loop(b@, path.drop_first()),
                    }
                }
            },
        }
    }
}

/// The message a misplaced loop-control block is rejected with.
pub open spec fn loop_control_message() -> Seq<char> {
    "An Escape Loop/Continue Loop block can only be used inside a Repeat/Forever/While loop"@
}

/// `escape loop`/`continue loop` only make sense inside a loop: checks that
/// some ancestor bracket named by `path` is a `Repeat`/`Forever`/`While`.
pub fn check_loop_control_placement(strand: &Strand, path: &[PathStep], ins: &Instruction) -> (r: Result<(), String>)
    ensures
        r is Ok <==> (!is_loop_control(ins.kind) || inside_loop(strand.instructions@, path@)),
        r matches Err(e) ==> e@ == loop_control_message(),
{
    match &ins.kind {
        InstructionKind::EscapeLoop | InstructionKind::ContinueLoop => {},
        _ => return Ok(()),
    }
    let mut list: &Vec<Instruction> = &strand.instructions;
    let mut k: usize = 0;
    let n = path.len();
    assert(path@.skip(0) =~= path@);
    while k < n
        invariant
            n == path@.len(),
            k <= n,
            inside_loop(strand.instructions@, path@) == inside_loop(list@, path@.skip(k as int)),
        ensures
            inside_loop(strand.instructions@, path@) == inside_loop(list@, path@.skip(k as int)),
            !inside_loop(list@, path@.skip(k as int)),
        decreases n - k,
    {
        let step = path[k];
        assert(path@.skip(k as int)[0] == step);
        assert(path@.skip(k as int).drop_first() =~= path@.skip(k + 1));
        let slot = match step.slot {
            Some(s) => s,
            None => break,
        };
        if step.index >= list.len() {
            break;
        }
        let ancestor = &list[step.index];
        match &ancestor.kind {
            InstructionKind::Repeat { .. } | InstructionKind::Forever { .. } | InstructionKind::While { .. } => {
                return Ok(());
            },
            _ => {},
        }
        match ancestor.kind.body(slot) {
            Some(b) => {
                list = b;
            },
            None => break,
        }
        k = k + 1;
    }
    Err(string_of("An Escape Loop/Continue Loop block can only be used inside a Repeat/Forever/While loop"))
}

/// Whether an instruction, or anything nested in its `If`/`IfElse`/
/// `Repeat`/`Forever`/`While` bodies, runs arbitrary commands: a `Command`,
/// or an `OpenApp`, whose command string could hold anything.
pub open spec fn runs_command(ins: Instruction) -> bool
    decreases ins,
{
    match ins.kind {
        InstructionKind::Command(_) => true,
        InstructionKind::OpenApp { .. } => true,
        InstructionKind::If { body, .. } => any_runs_command(body@),
        InstructionKind::Repeat { body, .. } => any_runs_command(body@),
        InstructionKind::Forever { body } => any_runs_command(body@),
        InstructionKind::While { body, .. } => any_runs_command(body@),
        InstructionKind::IfElse { then_body, else_body, .. } => any_runs_command(then_body@)
            || any_runs_command(else_body@),
        _ => false,
    }
}

/// Whether some instruction of `body` runs a command (see [`runs_command`]).
pub open spec fn any_runs_command(body: Seq<Instruction>) -> bool
    decreases body,
{
    exists|i: int| 0 <= i < body.len() && runs_command(#[trigger] body[i])
}

/// Whether `body` (or anything nested inside its `If`/`IfElse`/`Repeat`/
/// `Forever`/`While` blocks) contains a `Command` or `OpenApp` instruction.
pub fn body_contains_command(body: &[Instruction]) -> (r: bool)
    ensures
        r == any_runs_command(body@),
    decreases body@,
{
    let n = body.len();
    let mut i: usize = 0;
    while i < n
        invariant
            n == body@.len(),
            i <= n,
            forall|j: int| 0 <= j < i ==> !runs_command(#[trigger] body@[j]),
        decreases n - i,
    {
        let ins = &body[i];
        assert(decreases_to!(body@ => body@[i as int]));
        let found = match &ins.kind {
            InstructionKind::Command(_) | InstructionKind::OpenApp { .. } => true,
            InstructionKind::If { body: b, .. } => {
                let r = body_contains_command(b.as_slice());
                assert(r == any_runs_command(b@));
                r
            },
            InstructionKind::Repeat { body: b, .. } => body_contains_command(b.as_slice()),
            InstructionKind::Forever { body: b } => body_contains_command(b.as_slice()),
            InstructionKind::While { body: b, .. } => body_contains_command(b.as_slice()),
            InstructionKind::IfElse { then_body, else_body, .. } => {
                body_contains_command(then_body.as_slice()) || body_contains_command(else_body.as_slice())
            },
            _ => false,
        };
        assert(found == runs_command(body@[i as int]));
        if found {
            return true;
        }
        i = i + 1;
    }
    false
}

/// The bodies an instruction runs as part of itself: the body of an `If`,
/// `Repeat`, `Forever` or `While` (slot 0), and both branches of an
/// `IfElse` (slot 0 the then-branch, slot 1 the else-branch).
pub open spec fn nested_body(k: InstructionKind, slot: int) -> Option<Seq<Instruction>> {
    match k {
        InstructionKind::If { body, .. } => if slot == 0 { Some(body@) } else { None },
        InstructionKind::Repeat { body, .. } => if slot == 0 { Some(body@) } else { None },
        InstructionKind::Forever { body } => if slot == 0 { Some(body@) } else { None },
        InstructionKind::While { body, .. } => if slot == 0 { Some(body@) } else { None },
        InstructionKind::IfElse { then_body, else_body, .. } => if slot == 0 {
            Some(then_body@)
        } else if slot == 1 {
            Some(else_body@)
        } else {
            None
        },
        _ => None,
    }
}

/// `target` is reached from `body` along `path`: each step but the last
/// picks an instruction by index and goes into one of its nested bodies
/// (see [`nested_body`]); the last step picks `target` itself.
pub open spec fn reached_along(body: Seq<Instruction>, path: Seq<(int, int)>, target: Instruction) -> bool
    decreases path.len(),
{
    if path.len() == 0 {
        false
    } else {
        let (i, slot) = path[0];
        &&& 0 <= i < body.len()
        &&& if path.len() == 1 {
            body[i] == target
        } else {
            match nested_body(body[i].kind, slot) {
                Some(inner) => reached_along(inner, path.drop_first(), target),
                None => false,
            }
        }
    }
}

/// A `Command` or an `OpenApp`.
pub open spec fn is_command_block(ins: Instruction) -> bool {
    ins.kind is Command || ins.kind is OpenApp
}

/// A `Command` or `OpenApp` anywhere in the tree of nested bodies, both
/// branches of every `IfElse` included, makes the body one that runs
/// commands.
pub proof fn lemma_reached_command_is_found(body: Seq<Instruction>, path: Seq<(int, int)>, target: Instruction)
    requires
        reached_along(body, path, target),
        is_command_block(target),
    ensures
        any_runs_command(body),
    decreases path.len(),
{
    let (i, slot) = path[0];
    if path.len() == 1 {
        assert(runs_command(body[i]));
    } else {
        let inner = nested_body(body[i].kind, slot)->Some_0;
        lemma_reached_command_is_found(inner, path.drop_first(), target);
        assert(runs_command(body[i]));
    }
}

/// And only then: a body that runs commands holds a `Command` or `OpenApp`
/// somewhere in its tree of nested bodies.
pub proof fn lemma_found_command_is_reached(body: Seq<Instruction>) -> (r: (Seq<(int, int)>, Instruction))
    requires
        any_runs_command(body),
    ensures
        reached_along(body, r.0, r.1),
        is_command_block(r.1),
    decreases body,
{
    let i = choose|i: int| 0 <= i < body.len() && runs_command(#[trigger] body[i]);
    let ins = body[i];
    assert(decreases_to!(body => body[i]));
    match ins.kind {
        InstructionKind::Command(_) | InstructionKind::OpenApp { .. } => {
            let p = seq![(i, 0int)];
            assert(p.len() == 1);
            (p, ins)
        },
        InstructionKind::If { body: b, .. } => {
            assert(decreases_to!(body => b@));
            let (q, t) = lemma_found_command_is_reached(b@);
            let p = seq![(i, 0int)] + q;
            assert(p.drop_first() =~= q);
            (p, t)
        },
        InstructionKind::Repeat { body: b, .. } => {
            assert(decreases_to!(body => b@));
            let (q, t) = lemma_found_command_is_reached(b@);
            let p = seq![(i, 0int)] + q;
            assert(p.drop_first() =~= q);
            (p, t)
        },
        InstructionKind::Forever { body: b } => {
            assert(decreases_to!(body => b@));
            let (q, t) = lemma_found_command_is_reached(b@);
            let p = seq![(i, 0int)] + q;
            assert(p.drop_first() =~= q);
            (p, t)
        },
        InstructionKind::While { body: b, .. } => {
            assert(decreases_to!(body => b@));
            let (q, t) = lemma_found_command_is_reached(b@);
            let p = seq![(i, 0int)] + q;
            assert(p.drop_first() =~= q);
            (p, t)
        },
        InstructionKind::IfElse { then_body, else_body, .. } => {
            if any_runs_command(then_body@) {
                assert(decreases_to!(body => then_body@));
                let (q, t) = lemma_found_command_is_reached(then_body@);
                let p = seq![(i, 0int)] + q;
                assert(p.drop_first() =~= q);
                (p, t)
            } else {
                assert(decreases_to!(body => else_body@));
                let (q, t) = lemma_found_command_is_reached(else_body@);
                let p = seq![(i, 1int)] + q;
                assert(p.drop_first() =~= q);
                (p, t)
            }
        },
        _ => {
            assert(false);
            (Seq::empty(), ins)
        },
    }
}

// ─── Renaming lists ────────────────────────────────────────────────────────

/// A list name after renaming `old_name` to `new_name`.
pub open spec fn renamed_name(x: Seq<char>, old_name: Seq<char>, new_name: Seq<char>) -> Seq<char> {
    if x == old_name {
        new_name
    } else {
        x
    }
}

/// `b` is `a` with its list references renamed.
pub open spec fn value_renamed(a: Value, b: Value, old_name: Seq<char>, new_name: Seq<char>) -> bool {
    b@ == rename_model(a@, old_name, new_name)
}

/// `b` is the input token `a` with the list references in its values renamed.
pub open spec fn token_renamed(a: InputToken, b: InputToken, old_name: Seq<char>, new_name: Seq<char>) -> bool {
    match (a, b) {
        (InputToken::MoveMouse(x, y, c), InputToken::MoveMouse(x2, y2, c2)) => value_renamed(x, x2, old_name, new_name)
            && value_renamed(y, y2, old_name, new_name) && c2 == c,
        (InputToken::Scroll(v, ax), InputToken::Scroll(v2, ax2)) => value_renamed(v, v2, old_name, new_name) && ax2 == ax,
        (InputToken::Text(v), InputToken::Text(v2)) => value_renamed(v, v2, old_name, new_name),
        (InputToken::Key(..), _) | (InputToken::Button(..), _) => b == a,
        _ => false,
    }
}

/// `b` is the instruction list `a`, each instruction keeping its id and
/// having its list references renamed.
pub open spec fn body_renamed(a: Seq<Instruction>, b: Seq<Instruction>, old_name: Seq<char>, new_name: Seq<char>) -> bool
    decreases a, 0int,
{
    &&& a.len() == b.len()
    &&& forall|i: int| 0 <= i < a.len() ==> #[trigger] b[i].id == a[i].id && kind_renamed(
        a[i].kind,
        b[i].kind,
        old_name,
        new_name,
    )
}

/// `b` is `a` after renaming the list `old_name` to `new_name`: list-command
/// targets named `old_name` are renamed, every value's list reporters are
/// renamed, and nested bodies and branch callbacks are renamed likewise;
/// nothing else changes.
pub open spec fn kind_renamed(a: InstructionKind, b: InstructionKind, old_name: Seq<char>, new_name: Seq<char>) -> bool
    decreases a, 1int,
{
    match a {
        InstructionKind::Token(t) => b matches InstructionKind::Token(t2) && token_renamed(t, t2, old_name, new_name),
        InstructionKind::Wait(v) => b matches InstructionKind::Wait(v2) && value_renamed(v, v2, old_name, new_name),
        InstructionKind::Return(v) => b matches InstructionKind::Return(v2) && value_renamed(v, v2, old_name, new_name),
        InstructionKind::WhenBatteryDischargedTo(v) => b matches InstructionKind::WhenBatteryDischargedTo(v2)
            && value_renamed(v, v2, old_name, new_name),
        InstructionKind::WhenBatteryChargedTo(v) => b matches InstructionKind::WhenBatteryChargedTo(v2)
            && value_renamed(v, v2, old_name, new_name),
        InstructionKind::SetClipboard(v) => b matches InstructionKind::SetClipboard(v2) && value_renamed(
            v,
            v2,
            old_name,
            new_name,
        ),
        InstructionKind::SetVariable(n, v) => b matches InstructionKind::SetVariable(n2, v2) && n2 == n
            && value_renamed(v, v2, old_name, new_name),
        InstructionKind::ChangeVariable(n, v) => b matches InstructionKind::ChangeVariable(n2, v2) && n2 == n
            && value_renamed(v, v2, old_name, new_name),
        InstructionKind::AddToList { value, name } => b matches InstructionKind::AddToList { value: v2, name: n2 }
            && n2@ == renamed_name(name@, old_name, new_name) && value_renamed(value, v2, old_name, new_name),
        InstructionKind::InsertIntoList { value, index, name } => b matches InstructionKind::InsertIntoList {
            value: v2,
            index: i2,
            name: n2,
        } && n2@ == renamed_name(name@, old_name, new_name) && value_renamed(value, v2, old_name, new_name)
            && i2 == index,
        InstructionKind::DeleteOfList { index, name } => b matches InstructionKind::DeleteOfList { index: i2, name: n2 }
            && n2@ == renamed_name(name@, old_name, new_name) && value_renamed(index, i2, old_name, new_name),
        InstructionKind::ShiftList { name, amount } => b matches InstructionKind::ShiftList { name: n2, amount: a2 }
            && n2@ == renamed_name(name@, old_name, new_name) && value_renamed(amount, a2, old_name, new_name),
        InstructionKind::ReplaceItemOfList { index, name, value } => b matches InstructionKind::ReplaceItemOfList {
            index: i2,
            name: n2,
            value: v2,
        } && n2@ == renamed_name(name@, old_name, new_name) && value_renamed(index, i2, old_name, new_name)
            && value_renamed(value, v2, old_name, new_name),
        InstructionKind::DeleteAllOfList { name } => b matches InstructionKind::DeleteAllOfList { name: n2 }
            && n2@ == renamed_name(name@, old_name, new_name),
        InstructionKind::ReverseList { name } => b matches InstructionKind::ReverseList { name: n2 } && n2@
            == renamed_name(name@, old_name, new_name),
        InstructionKind::CallBlock { block_id, args, branches } => b matches InstructionKind::CallBlock {
            block_id: id2,
            args: args2,
            branches: br2,
        } && id2 == block_id && args2@.len() == args@.len() && (forall|i: int|
            0 <= i < args@.len() ==> value_renamed(#[trigger] args@[i], args2@[i], old_name, new_name))
            && br2@.len() == branches@.len() && (forall|i: int|
            0 <= i < branches@.len() ==> body_renamed(#[trigger] branches@[i]@, br2@[i]@, old_name, new_name)),
        InstructionKind::If { condition, body } => b matches InstructionKind::If { condition: c2, body: b2 }
            && value_renamed(condition, c2, old_name, new_name) && body_renamed(body@, b2@, old_name, new_name),
        InstructionKind::IfElse { condition, then_body, else_body } => b matches InstructionKind::IfElse {
            condition: c2,
            then_body: t2,
            else_body: e2,
        } && value_renamed(condition, c2, old_name, new_name) && body_renamed(then_body@, t2@, old_name, new_name)
            && body_renamed(else_body@, e2@, old_name, new_name),
        InstructionKind::Repeat { count, body } => b matches InstructionKind::Repeat { count: c2, body: b2 }
            && value_renamed(count, c2, old_name, new_name) && body_renamed(body@, b2@, old_name, new_name),
        InstructionKind::Forever { body } => b matches InstructionKind::Forever { body: b2 } && body_renamed(
            body@,
            b2@,
            old_name,
            new_name,
        ),
        InstructionKind::While { condition, body } => b matches InstructionKind::While { condition: c2, body: b2 }
            && value_renamed(condition, c2, old_name, new_name) && body_renamed(body@, b2@, old_name, new_name),
        _ => b == a,
    }
}

/// Sets `name` to `new_name` when it equals `old_name`.
fn rename_target(name: &mut String, old_name: &str, new_name: &str)
    ensures
        final(name)@ == renamed_name(old(name)@, old_name@, new_name@),
{
    if str_eq(name.as_str(), old_name) {
        *name = string_of(new_name);
    }
}

/// Renames list references in every value of a vector.
fn rename_values(values: &mut Vec<Value>, old_name: &str, new_name: &str)
    ensures
        final(values)@.len() == old(values)@.len(),
        forall|i: int|
            0 <= i < old(values)@.len() ==> value_renamed(#[trigger] old(values)@[i], final(values)@[i], old_name@, new_name@),
{
    let n = values.len();
    let mut i: usize = 0;
    while i < n
        invariant
            n == values@.len(),
            n == old(values)@.len(),
            i <= n,
            forall|j: int| i <= j < n ==> #[trigger] values@[j] == old(values)@[j],
            forall|j: int| 0 <= j < i ==> value_renamed(#[trigger] old(values)@[j], values@[j], old_name@, new_name@),
        decreases n - i,
    {
        let mut item = Value::Bool;
        values.set_and_swap(i, &mut item);
        rename_list_in_value(&mut item, old_name, new_name);
        values.set_and_swap(i, &mut item);
        i = i + 1;
    }
}

impl InputToken {
    /// Renames list references inside this token's values.
    pub fn rename_list(&mut self, old_name: &str, new_name: &str)
        ensures
            token_renamed(*old(self), *final(self), old_name@, new_name@),
    {
        match self {
            InputToken::MoveMouse(x, y, _) => {
                rename_list_in_value(x, old_name, new_name);
                rename_list_in_value(y, old_name, new_name);
            },
            InputToken::Scroll(v, _) => rename_list_in_value(v, old_name, new_name),
            InputToken::Text(v) => rename_list_in_value(v, old_name, new_name),
            _ => {},
        }
    }
}

/// Renames list references throughout an instruction list.
pub fn rename_list_in_body(body: &mut Vec<Instruction>, old_name: &str, new_name: &str)
    ensures
        body_renamed(old(body)@, final(body)@, old_name@, new_name@),
    decreases old(body)@, 0int,
{
    let n = body.len();
    let mut i: usize = 0;
    while i < n
        invariant
            n == body@.len(),
            n == old(body)@.len(),
            i <= n,
            forall|j: int| i <= j < n ==> #[trigger] body@[j] == old(body)@[j],
            forall|j: int|
                0 <= j < i ==> #[trigger] body@[j].id == old(body)@[j].id && kind_renamed(
                    old(body)@[j].kind,
                    body@[j].kind,
                    old_name@,
                    new_name@,
                ),
        decreases n - i,
    {
        let mut item = Instruction { id: String::new(), kind: InstructionKind::WhenRan };
        body.set_and_swap(i, &mut item);
        let ghost before = item;
        assert(decreases_to!(old(body)@ => before));
        item.kind.rename_list(old_name, new_name);
        body.set_and_swap(i, &mut item);
        i = i + 1;
    }
}

/// Renames list references in every branch callback of a custom-block call.
fn rename_list_in_branches(branches: &mut Vec<Vec<Instruction>>, old_name: &str, new_name: &str)
    ensures
        final(branches)@.len() == old(branches)@.len(),
        forall|i: int|
            0 <= i < old(branches)@.len() ==> body_renamed(#[trigger] old(branches)@[i]@, final(branches)@[i]@, old_name@, new_name@),
    decreases old(branches)@, 0int,
{
    let n = branches.len();
    let mut i: usize = 0;
    while i < n
        invariant
            n == branches@.len(),
            n == old(branches)@.len(),
            i <= n,
            forall|j: int| i <= j < n ==> #[trigger] branches@[j] == old(branches)@[j],
            forall|j: int| 0 <= j < i ==> body_renamed(#[trigger] old(branches)@[j]@, branches@[j]@, old_name@, new_name@),
        decreases n - i,
    {
        let mut item: Vec<Instruction> = Vec::new();
        branches.set_and_swap(i, &mut item);
        let ghost before = item;
        assert(decreases_to!(old(branches)@ => before));
        rename_list_in_body(&mut item, old_name, new_name);
        branches.set_and_swap(i, &mut item);
        i = i + 1;
    }
}

impl InstructionKind {
    /// Renames list-command targets and list-reporter references throughout
    /// this instruction, including nested control-flow bodies.
    pub fn rename_list(&mut self, old_name: &str, new_name: &str)
        ensures
            kind_renamed(*old(self), *final(self), old_name@, new_name@),
        decreases *old(self), 1int,
    {
        match self {
            InstructionKind::Wait(v) => rename_list_in_value(v, old_name, new_name),
            InstructionKind::Return(v) => rename_list_in_value(v, old_name, new_name),
            InstructionKind::WhenBatteryDischargedTo(v) => rename_list_in_value(v, old_name, new_name),
            InstructionKind::WhenBatteryChargedTo(v) => rename_list_in_value(v, old_name, new_name),
            InstructionKind::SetClipboard(v) => rename_list_in_value(v, old_name, new_name),
            InstructionKind::Token(t) => t.rename_list(old_name, new_name),
            InstructionKind::SetVariable(_, v) => rename_list_in_value(v, old_name, new_name),
            InstructionKind::ChangeVariable(_, v) => rename_list_in_value(v, old_name, new_name),
            InstructionKind::AddToList { value, name } => {
                rename_target(name, old_name, new_name);
                rename_list_in_value(value, old_name, new_name);
            },
            InstructionKind::InsertIntoList { value, name, .. } => {
                rename_target(name, old_name, new_name);
                rename_list_in_value(value, old_name, new_name);
            },
            InstructionKind::DeleteOfList { name, index } => {
                rename_target(name, old_name, new_name);
                rename_list_in_value(index, old_name, new_name);
            },
            InstructionKind::ShiftList { name, amount } => {
                rename_target(name, old_name, new_name);
                rename_list_in_value(amount, old_name, new_name);
            },
            InstructionKind::ReplaceItemOfList { name, index, value } => {
                rename_target(name, old_name, new_name);
                rename_list_in_value(index, old_name, new_name);
                rename_list_in_value(value, old_name, new_name);
            },
            InstructionKind::DeleteAllOfList { name } => rename_target(name, old_name, new_name),
            InstructionKind::ReverseList { name } => rename_target(name, old_name, new_name),
            InstructionKind::CallBlock { args, branches, .. } => {
                rename_values(args, old_name, new_name);
                rename_list_in_branches(branches, old_name, new_name);
            },
            InstructionKind::If { condition, body } => {
                rename_list_in_value(condition, old_name, new_name);
                rename_list_in_body(body, old_name, new_name);
            },
            InstructionKind::IfElse { condition, then_body, else_body } => {
                rename_list_in_value(condition, old_name, new_name);
                rename_list_in_body(then_body, old_name, new_name);
                rename_list_in_body(else_body, old_name, new_name);
            },
            InstructionKind::Repeat { count, body } => {
                rename_list_in_value(count, old_name, new_name);
                rename_list_in_body(body, old_name, new_name);
            },
            InstructionKind::Forever { body } => rename_list_in_body(body, old_name, new_name),
            InstructionKind::While { condition, body } => {
                rename_list_in_value(condition, old_name, new_name);
                rename_list_in_body(body, old_name, new_name);
            },
            _ => {},
        }
    }
}

} // verus!
