//! The value trees held in instruction fields: literals, variable and
//! parameter reporters, operators (list reporters among them) and
//! custom-block calls, and the list-renaming walk over them.

use vstd::prelude::*;
use crate::text::{str_eq, string_of};

verus! {

/// An operator in a value tree. `Ext` operators are named extensions (list
/// reporters, battery and clipboard reporters); `Builtin` stands for every
/// other built-in operator, by its wire name.
#[derive(Debug, PartialEq, Eq, Hash)]
pub enum Op {
    Add,
    Sub,
    Random,
    Ext(String),
    Builtin(String),
}

/// A value tree. Numbers are held as the bit pattern of their `f64`.
#[derive(Debug, PartialEq, Eq, Hash)]
pub enum Value {
    Number { bits: u64 },
    Text { value: String },
    Bool,
    Var { name: String },
    Param { name: String },
    Op { op: Op, args: Vec<Value>, saved: Box<Value> },
    Call { block_id: String, args: Vec<Value>, saved: Box<Value> },
}

/// The mathematical form of an [`Op`].
pub enum OpModel {
    Add,
    Sub,
    Random,
    Ext(Seq<char>),
    Builtin(Seq<char>),
}

/// The mathematical form of a [`Value`].
pub enum ValueModel {
    Number { bits: u64 },
    Text { value: Seq<char> },
    Bool,
    Var { name: Seq<char> },
    Param { name: Seq<char> },
    Op { op: OpModel, args: Seq<ValueModel>, saved: Box<ValueModel> },
    Call { block_id: Seq<char>, args: Seq<ValueModel>, saved: Box<ValueModel> },
}

impl View for Op {
    type V = OpModel;

    open spec fn view(&self) -> OpModel {
        match self {
            Op::Add => OpModel::Add,
            Op::Sub => OpModel::Sub,
            Op::Random => OpModel::Random,
            Op::Ext(n) => OpModel::Ext(n@),
            Op::Builtin(n) => OpModel::Builtin(n@),
        }
    }
}

/// The models of a sequence of values.
pub open spec fn values_view(s: Seq<Value>) -> Seq<ValueModel>
    decreases s,
{
    Seq::new(s.len(), |i: int| if 0 <= i < s.len() { s[i].view_rec() } else { ValueModel::Bool })
}

impl Value {
    /// The model of this value, computed through its children.
    pub open spec fn view_rec(&self) -> ValueModel
        decreases self,
    {
        match self {
            Value::Number { bits } => ValueModel::Number { bits: *bits },
            Value::Text { value } => ValueModel::Text { value: value@ },
            Value::Bool => ValueModel::Bool,
            Value::Var { name } => ValueModel::Var { name: name@ },
            Value::Param { name } => ValueModel::Param { name: name@ },
            Value::Op { op, args, saved } => ValueModel::Op {
                op: op@,
                args: Seq::new(
                    args@.len(),
                    |i: int| if 0 <= i < args@.len() { args@[i].view_rec() } else { ValueModel::Bool },
                ),
                saved: Box::new((**saved).view_rec()),
            },
            Value::Call { block_id, args, saved } => ValueModel::Call {
                block_id: block_id@,
                args: Seq::new(
                    args@.len(),
                    |i: int| if 0 <= i < args@.len() { args@[i].view_rec() } else { ValueModel::Bool },
                ),
                saved: Box::new((**saved).view_rec()),
            },
        }
    }
}

impl View for Value {
    type V = ValueModel;

    open spec fn view(&self) -> ValueModel {
        self.view_rec()
    }
}

/// Arg index holding the list name for a list-reporter operator, by wire
/// name: the second arg, except for `ListLength`/`ListContains`/`ListIsEmpty`
/// where it is the first.
pub open spec fn list_reporter_index(name: Seq<char>) -> Option<int> {
    if name == "ListItem"@ || name == "ListItemNumber"@ || name == "ListAmount"@
        || name == "ListItemExists"@ {
        Some(1)
    } else if name == "ListLength"@ || name == "ListContains"@ || name == "ListIsEmpty"@ {
        Some(0)
    } else {
        None
    }
}

/// Whether an operator is a list reporter.
pub open spec fn spec_is_list_reporter(op: OpModel) -> bool {
    match op {
        OpModel::Ext(name) => list_reporter_index(name) is Some,
        _ => false,
    }
}

/// The list-name argument index an operator reads, if it is a list reporter.
pub open spec fn reporter_index(op: OpModel) -> Option<int> {
    match op {
        OpModel::Ext(name) => list_reporter_index(name),
        _ => None,
    }
}

/// Renames every list-reporter reference to `old_name` inside `v`: a reporter's
/// name argument that is a plain text leaf equal to `old_name` becomes `new_name`;
/// every argument and every shadowed value is searched too.
pub open spec fn rename_model(v: ValueModel, old_name: Seq<char>, new_name: Seq<char>) -> ValueModel
    decreases v,
{
    match v {
        ValueModel::Op { op, args, saved } => ValueModel::Op {
            op,
            args: Seq::new(
                args.len(),
                |i: int|
                    if 0 <= i < args.len() {
                        if reporter_index(op) == Some(i) && args[i] == (ValueModel::Text { value: old_name }) {
                            ValueModel::Text { value: new_name }
                        } else {
                            rename_model(args[i], old_name, new_name)
                        }
                    } else {
                        ValueModel::Bool
                    },
            ),
            saved: Box::new(rename_model(*saved, old_name, new_name)),
        },
        ValueModel::Call { block_id, args, saved } => ValueModel::Call {
            block_id,
            args: Seq::new(
                args.len(),
                |i: int| if 0 <= i < args.len() { rename_model(args[i], old_name, new_name) } else { ValueModel::Bool },
            ),
            saved: Box::new(rename_model(*saved, old_name, new_name)),
        },
        _ => v,
    }
}

/// Whether some list reporter inside `v` names the list `name` by a text leaf.
pub open spec fn references_list(v: ValueModel, name: Seq<char>) -> bool
    decreases v,
{
    match v {
        ValueModel::Op { op, args, saved } => {
            (exists|i: int|
                0 <= i < args.len() && reporter_index(op) == Some(i) && #[trigger] args[i]
                    == (ValueModel::Text { value: name }))
            || (exists|i: int| 0 <= i < args.len() && references_list(#[trigger] args[i], name))
            || references_list(*saved, name)
        },
        ValueModel::Call { args, saved, .. } => {
            (exists|i: int| 0 <= i < args.len() && references_list(#[trigger] args[i], name))
            || references_list(*saved, name)
        },
        _ => false,
    }
}

/// Arg index holding the list name for a list-reporter op, by wire name.
pub fn list_reporter_name_index(op_name: &str) -> (r: Option<usize>)
    ensures
        match list_reporter_index(op_name@) {
            Some(i) => r == Some(i as usize),
            None => r is None,
        },
{
    if str_eq(op_name, "ListItem") || str_eq(op_name, "ListItemNumber") || str_eq(
        op_name,
        "ListAmount",
    ) || str_eq(op_name, "ListItemExists") {
        Some(1)
    } else if str_eq(op_name, "ListLength") || str_eq(op_name, "ListContains") || str_eq(
        op_name,
        "ListIsEmpty",
    ) {
        Some(0)
    } else {
        None
    }
}

/// True for a value-position list reporter (an extension operator with a
/// list wire name), which the runner resolves against the live lists.
pub fn is_list_reporter(op: &Op) -> (r: bool)
    ensures
        r == spec_is_list_reporter(op@),
{
    match op {
        Op::Ext(name) => list_reporter_name_index(name.as_str()).is_some(),
        _ => false,
    }
}

/// Renames a whole vector of values in place.
fn rename_list_in_values(values: &mut Vec<Value>, reporter: Option<usize>, old_name: &str, new_name: &str)
    ensures
        final(values)@.len() == old(values)@.len(),
        forall|i: int|
            0 <= i < old(values)@.len() ==> (#[trigger] final(values)@[i])@ == (if reporter == Some(
                i as usize,
            ) && old(values)@[i]@ == (ValueModel::Text { value: old_name@ }) {
                ValueModel::Text { value: new_name@ }
            } else {
                rename_model(old(values)@[i]@, old_name@, new_name@)
            }),
    decreases old(values)@, 0int,
{
    let n = values.len();
    let mut i: usize = 0;
    while i < n
        invariant
            n == values@.len(),
            n == old(values)@.len(),
            i <= n,
            forall|j: int|
                i <= j < n ==> #[trigger] values@[j] == old(values)@[j],
            forall|j: int|
                0 <= j < i ==> (#[trigger] values@[j])@ == (if reporter == Some(j as usize)
                    && old(values)@[j]@ == (ValueModel::Text { value: old_name@ }) {
                    ValueModel::Text { value: new_name@ }
                } else {
                    rename_model(old(values)@[j]@, old_name@, new_name@)
                }),
        decreases n - i,
    {
        let mut item = Value::Bool;
        values.set_and_swap(i, &mut item);
        let ghost before = item;
        assert(before == old(values)@[i as int]);
        let is_name_arg = match reporter {
            Some(k) => k == i,
            None => false,
        };
        let mut replaced = false;
        if is_name_arg {
            if let Value::Text { value } = &item {
                if str_eq(value.as_str(), old_name) {
                    replaced = true;
                }
            }
        }
        if replaced {
            item = Value::Text { value: string_of(new_name) };
        } else {
            assert(decreases_to!(old(values)@ => before));
            rename_list_in_value(&mut item, old_name, new_name);
            proof {
                if is_name_arg {
                    if let Value::Text { value } = before {
                        assert(before@ != (ValueModel::Text { value: old_name@ }));
                    }
                }
            }
        }
        values.set_and_swap(i, &mut item);
        i = i + 1;
    }
}

/// Renames a list reference inside a value tree: a list reporter's name arg
/// (a plain text leaf) plus every nested arg. Call args are searched too,
/// since a reporter can sit inside a custom-block call.
pub fn rename_list_in_value(value: &mut Value, old_name: &str, new_name: &str)
    ensures
        final(value)@ == rename_model(old(value)@, old_name@, new_name@),
    decreases *old(value), 1int,
{
    let reporter = match &*value {
        Value::Op { op: Op::Ext(name), .. } => list_reporter_name_index(name.as_str()),
        _ => None,
    };
    match value {
        Value::Op { op: _, args, saved } => {
            let ghost old_args = args@;
            let n_args = args.len();
            proof {
                assert(match reporter {
                    Some(k) => reporter_index(old(value)@->Op_op) == Some(k as int),
                    None => reporter_index(old(value)@->Op_op) is None,
                });
            }
            rename_list_in_values(args, reporter, old_name, new_name);
            rename_list_in_value(saved, old_name, new_name);
        },
        Value::Call { block_id, args, saved } => {
            rename_list_in_values(args, None, old_name, new_name);
            rename_list_in_value(saved, old_name, new_name);
        },
        _ => {},
    }
    proof {
        let ov = old(value)@;
        if ov is Op {
            let ex = rename_model(ov, old_name@, new_name@);
            let oargs = ov->Op_args;
            let eargs = ex->Op_args;
            let nargs = value@->Op_args;
            assert forall|i: int| 0 <= i < oargs.len() implies #[trigger] nargs[i] == eargs[i] by {
                assert(reporter == Some(i as usize) <==> reporter_index(ov->Op_op) == Some(i));
            }
            assert(nargs =~= eargs);
            assert(value@ is Op);
            assert(value@->Op_op == ov->Op_op);
            assert(value@->Op_saved == ex->Op_saved);
            assert(value@ == ex);
        } else if ov is Call {
            let ex = rename_model(ov, old_name@, new_name@);
            assert(value@->Call_args =~= ex->Call_args);
            assert(value@ == ex);
        } else {
            assert(value@ == rename_model(ov, old_name@, new_name@));
        }
        assert(value@ == rename_model(ov, old_name@, new_name@));
    }
}

/// Copies every string of an operator.
pub fn copy_op(op: &Op) -> (r: Op)
    ensures
        r@ == op@,
{
    match op {
        Op::Add => Op::Add,
        Op::Sub => Op::Sub,
        Op::Random => Op::Random,
        Op::Ext(n) => Op::Ext(n.clone()),
        Op::Builtin(n) => Op::Builtin(n.clone()),
    }
}

/// Copies a sequence of values.
pub fn copy_values(values: &Vec<Value>) -> (r: Vec<Value>)
    ensures
        r@.len() == values@.len(),
        forall|i: int| 0 <= i < values@.len() ==> (#[trigger] r@[i])@ == values@[i]@,
    decreases values@, 0int,
{
    let mut out: Vec<Value> = Vec::new();
    let n = values.len();
    let mut i: usize = 0;
    while i < n
        invariant
            n == values@.len(),
            i <= n,
            out@.len() == i,
            forall|j: int| 0 <= j < i ==> (#[trigger] out@[j])@ == values@[j]@,
        decreases n - i,
    {
        assert(decreases_to!(values@ => values@[i as int]));
        let c = copy_value(&values[i]);
        out.push(c);
        i = i + 1;
    }
    out
}

/// A deep copy of a value tree.
pub fn copy_value(v: &Value) -> (r: Value)
    ensures
        r@ == v@,
    decreases *v, 1int,
{
    match v {
        Value::Number { bits } => Value::Number { bits: *bits },
        Value::Text { value } => Value::Text { value: value.clone() },
        Value::Bool => Value::Bool,
        Value::Var { name } => Value::Var { name: name.clone() },
        Value::Param { name } => Value::Param { name: name.clone() },
        Value::Op { op, args, saved } => {
            let a = copy_values(args);
            let s = copy_value(saved);
            let r = Value::Op { op: copy_op(op), args: a, saved: Box::new(s) };
            assert(r@->Op_args =~= v@->Op_args);
            r
        },
        Value::Call { block_id, args, saved } => {
            let a = copy_values(args);
            let s = copy_value(saved);
            let r = Value::Call { block_id: block_id.clone(), args: a, saved: Box::new(s) };
            assert(r@->Call_args =~= v@->Call_args);
            r
        },
    }
}

/// The bit patterns of `0.0` and `-0.0`, both equal to zero as numbers.
pub open spec fn is_zero_bits(bits: u64) -> bool {
    bits == 0 || bits == 0x8000_0000_0000_0000u64
}

/// A plain zero number leaf.
pub open spec fn zero_model() -> ValueModel {
    ValueModel::Number { bits: 0 }
}

/// An operator node with a zero shadowed value.
pub open spec fn op_model(op: OpModel, args: Seq<ValueModel>) -> ValueModel {
    ValueModel::Op { op, args, saved: Box::new(zero_model()) }
}

/// The single-value form of a legacy `[duration, randomness]` wait: the
/// duration alone when the randomness is zero, otherwise a random pick in
/// `[duration - randomness, duration + randomness]`.
pub open spec fn migrated_wait(duration: ValueModel, randomness: ValueModel) -> ValueModel {
    if randomness matches ValueModel::Number { bits } && is_zero_bits(bits) {
        duration
    } else {
        op_model(
            OpModel::Random,
            seq![
                op_model(OpModel::Sub, seq![duration, randomness]),
                op_model(OpModel::Add, seq![duration, randomness]),
            ],
        )
    }
}

fn zero_value() -> (r: Value)
    ensures
        r@ == zero_model(),
{
    Value::Number { bits: 0 }
}

/// Folds a legacy `[duration, randomness]` wait into today's single-value
/// shape (see [`migrated_wait`]).
pub fn migrate_wait_duration(duration: Value, randomness: Value) -> (r: Value)
    ensures
        r@ == migrated_wait(duration@, randomness@),
{
    if let Value::Number { bits } = &randomness {
        if *bits == 0 || *bits == 0x8000_0000_0000_0000u64 {
            return duration;
        }
    }
    let d2 = copy_value(&duration);
    let r2 = copy_value(&randomness);
    let sub = Value::Op { op: Op::Sub, args: vec![d2, r2], saved: Box::new(zero_value()) };
    let add = Value::Op { op: Op::Add, args: vec![duration, randomness], saved: Box::new(zero_value()) };
    let r = Value::Op { op: Op::Random, args: vec![sub, add], saved: Box::new(zero_value()) };
    proof {
        assert(sub@->Op_args =~= seq![duration@, randomness@]);
        assert(add@->Op_args =~= seq![duration@, randomness@]);
        assert(r@->Op_args =~= seq![sub@, add@]);
    }
    r
}

/// Renaming a list to its own name changes nothing.
pub proof fn lemma_rename_same_name(v: ValueModel, name: Seq<char>)
    ensures
        rename_model(v, name, name) == v,
    decreases v,
{
    match v {
        ValueModel::Op { op, args, saved } => {
            let r = rename_model(v, name, name);
            assert forall|i: int| 0 <= i < args.len() implies #[trigger] r->Op_args[i] == args[i] by {
                lemma_rename_same_name(args[i], name);
            }
            lemma_rename_same_name(*saved, name);
            assert(r->Op_args =~= args);
        },
        ValueModel::Call { block_id, args, saved } => {
            let r = rename_model(v, name, name);
            assert forall|i: int| 0 <= i < args.len() implies #[trigger] r->Call_args[i] == args[i] by {
                lemma_rename_same_name(args[i], name);
            }
            lemma_rename_same_name(*saved, name);
            assert(r->Call_args =~= args);
        },
        _ => {},
    }
}

/// After renaming a list to a different name, no list reporter in the
/// value refers to the old name any more.
pub proof fn lemma_rename_removes_old_name(v: ValueModel, old_name: Seq<char>, new_name: Seq<char>)
    requires
        old_name != new_name,
    ensures
        !references_list(rename_model(v, old_name, new_name), old_name),
    decreases v,
{
    match v {
        ValueModel::Op { op, args, saved } => {
            let r = rename_model(v, old_name, new_name);
            let rargs = r->Op_args;
            assert forall|i: int| 0 <= i < rargs.len() implies !references_list(#[trigger] rargs[i], old_name)
                && !(reporter_index(op) == Some(i) && rargs[i] == (ValueModel::Text { value: old_name })) by {
                lemma_rename_removes_old_name(args[i], old_name, new_name);
            }
            lemma_rename_removes_old_name(*saved, old_name, new_name);
        },
        ValueModel::Call { block_id, args, saved } => {
            let r = rename_model(v, old_name, new_name);
            let rargs = r->Call_args;
            assert forall|i: int| 0 <= i < rargs.len() implies !references_list(#[trigger] rargs[i], old_name) by {
                lemma_rename_removes_old_name(args[i], old_name, new_name);
            }
            lemma_rename_removes_old_name(*saved, old_name, new_name);
        },
        _ => {},
    }
}

/// Renaming a list and then renaming it back restores the value, provided
/// nothing referred to the new name beforehand.
pub proof fn lemma_rename_round_trip(v: ValueModel, old_name: Seq<char>, new_name: Seq<char>)
    requires
        !references_list(v, new_name),
    ensures
        rename_model(rename_model(v, old_name, new_name), new_name, old_name) == v,
    decreases v,
{
    if old_name == new_name {
        lemma_rename_same_name(v, old_name);
        lemma_rename_same_name(v, old_name);
        return;
    }
    match v {
        ValueModel::Op { op, args, saved } => {
            let r = rename_model(v, old_name, new_name);
            let rr = rename_model(r, new_name, old_name);
            assert forall|i: int| 0 <= i < args.len() implies #[trigger] rr->Op_args[i] == args[i] by {
                if reporter_index(op) == Some(i) && args[i] == (ValueModel::Text { value: old_name }) {
                } else {
                    assert(!references_list(args[i], new_name));
                    lemma_rename_round_trip(args[i], old_name, new_name);
                    if reporter_index(op) == Some(i) {
                        assert(args[i] != (ValueModel::Text { value: new_name }));
                    }
                }
            }
            lemma_rename_round_trip(*saved, old_name, new_name);
            assert(rr->Op_args =~= args);
        },
        ValueModel::Call { block_id, args, saved } => {
            let r = rename_model(v, old_name, new_name);
            let rr = rename_model(r, new_name, old_name);
            assert forall|i: int| 0 <= i < args.len() implies #[trigger] rr->Call_args[i] == args[i] by {
                assert(!references_list(args[i], new_name));
                lemma_rename_round_trip(args[i], old_name, new_name);
            }
            lemma_rename_round_trip(*saved, old_name, new_name);
            assert(rr->Call_args =~= args);
        },
        _ => {},
    }
}


/// The list reporters the editor offers, each with the argument that holds
/// its list's name: the second for `ListItem`, `ListItemNumber`,
/// `ListAmount` and `ListItemExists`, the first for `ListLength`,
/// `ListContains` and `ListIsEmpty`.
pub open spec fn editor_list_reporters() -> Seq<(Seq<char>, int)> {
    seq![
        ("ListItem"@, 1int),
        ("ListItemNumber"@, 1int),
        ("ListAmount"@, 1int),
        ("ListItemExists"@, 1int),
        ("ListLength"@, 0int),
        ("ListContains"@, 0int),
        ("ListIsEmpty"@, 0int),
    ]
}

proof fn lemma_reporter_names_distinct()
    ensures
        "ListLength"@ != "ListItem"@,
        "ListLength"@ != "ListItemNumber"@,
        "ListLength"@ != "ListAmount"@,
        "ListLength"@ != "ListItemExists"@,
        "ListContains"@ != "ListItem"@,
        "ListContains"@ != "ListItemNumber"@,
        "ListContains"@ != "ListAmount"@,
        "ListContains"@ != "ListItemExists"@,
        "ListIsEmpty"@ != "ListItem"@,
        "ListIsEmpty"@ != "ListItemNumber"@,
        "ListIsEmpty"@ != "ListAmount"@,
        "ListIsEmpty"@ != "ListItemExists"@,
{
    reveal_strlit("ListItem");
    reveal_strlit("ListItemNumber");
    reveal_strlit("ListAmount");
    reveal_strlit("ListItemExists");
    reveal_strlit("ListLength");
    reveal_strlit("ListContains");
    reveal_strlit("ListIsEmpty");
    assert("ListLength"@[4] != "ListItem"@[4]);
    assert("ListLength"@[4] != "ListItemNumber"@[4]);
    assert("ListLength"@[4] != "ListAmount"@[4]);
    assert("ListLength"@[4] != "ListItemExists"@[4]);
    assert("ListContains"@[4] != "ListItem"@[4]);
    assert("ListContains"@[4] != "ListItemNumber"@[4]);
    assert("ListContains"@[4] != "ListAmount"@[4]);
    assert("ListContains"@[4] != "ListItemExists"@[4]);
    assert("ListIsEmpty"@[5] != "ListItem"@[5]);
    assert("ListIsEmpty"@[5] != "ListItemNumber"@[5]);
    assert("ListIsEmpty"@[5] != "ListAmount"@[5]);
    assert("ListIsEmpty"@[5] != "ListItemExists"@[5]);
}

/// Renaming a list reaches every list reporter the editor offers: where the
/// reporter's name argument is a text leaf naming the old list, it names the
/// new one afterwards; and each of them counts as a list reporter.
pub proof fn lemma_rename_reaches_every_list_reporter(
    k: int,
    args: Seq<ValueModel>,
    saved: ValueModel,
    old_name: Seq<char>,
    new_name: Seq<char>,
)
    requires
        0 <= k < editor_list_reporters().len(),
        editor_list_reporters()[k].1 < args.len(),
        args[editor_list_reporters()[k].1] == (ValueModel::Text { value: old_name }),
    ensures
        spec_is_list_reporter(OpModel::Ext(editor_list_reporters()[k].0)),
        rename_model(
            ValueModel::Op { op: OpModel::Ext(editor_list_reporters()[k].0), args, saved: Box::new(saved) },
            old_name,
            new_name,
        )->Op_args[editor_list_reporters()[k].1] == (ValueModel::Text { value: new_name }),
{
    lemma_reporter_names_distinct();
    let name = editor_list_reporters()[k].0;
    let at = editor_list_reporters()[k].1;
    assert(list_reporter_index(name) == Some(at));
}

/// The editor's list reporters are the only list reporters: an extension
/// operator whose name is none of them has no list-name argument.
pub proof fn lemma_only_editor_list_reporters(name: Seq<char>)
    requires
        spec_is_list_reporter(OpModel::Ext(name)),
    ensures
        exists|k: int|
            0 <= k < editor_list_reporters().len() && (#[trigger] editor_list_reporters()[k]).0 == name
                && list_reporter_index(name) == Some(editor_list_reporters()[k].1),
{
    let t = editor_list_reporters();
    lemma_reporter_names_distinct();
    if name == "ListItem"@ {
        assert(t[0].0 == name);
    } else if name == "ListItemNumber"@ {
        assert(t[1].0 == name);
    } else if name == "ListAmount"@ {
        assert(t[2].0 == name);
    } else if name == "ListItemExists"@ {
        assert(t[3].0 == name);
    } else if name == "ListLength"@ {
        assert(t[4].0 == name);
    } else if name == "ListContains"@ {
        assert(t[5].0 == name);
    } else {
        assert(t[6].0 == name);
    }
}

} // verus!
