//! The value slots a field id names on an instruction: reading the value
//! tree in a slot, and swapping a new one in, which is how values are typed
//! into, dragged out of and dropped onto instructions.

use vstd::prelude::*;
use crate::fields::FieldId;
use crate::instruction::{InputToken, InstructionKind};
use crate::macros::{BlockDef, InputValueType};
use crate::text::str_eq;
use crate::value::Value;

verus! {

/// The value tree in the slot `field` names on `k`; `None` when `k` has no
/// such slot (a call argument past the call's arguments among them).
pub open spec fn slot_of(k: InstructionKind, field: FieldId) -> Option<Value> {
    match field {
        FieldId::WaitDuration => match k {
            InstructionKind::Wait(d) => Some(d),
            _ => None,
        },
        FieldId::MoveMouseX => match k {
            InstructionKind::Token(InputToken::MoveMouse(x, _, _)) => Some(x),
            _ => None,
        },
        FieldId::MoveMouseY => match k {
            InstructionKind::Token(InputToken::MoveMouse(_, y, _)) => Some(y),
            _ => None,
        },
        FieldId::ScrollAmount => match k {
            InstructionKind::Token(InputToken::Scroll(a, _)) => Some(a),
            _ => None,
        },
        FieldId::TextValue => match k {
            InstructionKind::Token(InputToken::Text(t)) => Some(t),
            _ => None,
        },
        FieldId::SetVariableValue => match k {
            InstructionKind::SetVariable(_, v) => Some(v),
            _ => None,
        },
        FieldId::ChangeVariableValue => match k {
            InstructionKind::ChangeVariable(_, v) => Some(v),
            _ => None,
        },
        FieldId::ReturnValue => match k {
            InstructionKind::Return(v) => Some(v),
            _ => None,
        },
        FieldId::CallArg(i) => match k {
            InstructionKind::CallBlock { args, .. } => if i < args@.len() {
                Some(args@[i as int])
            } else {
                None
            },
            _ => None,
        },
        FieldId::AddToListValue => match k {
            InstructionKind::AddToList { value, .. } => Some(value),
            _ => None,
        },
        FieldId::DeleteOfListIndex => match k {
            InstructionKind::DeleteOfList { index, .. } => Some(index),
            _ => None,
        },
        FieldId::ShiftListAmount => match k {
            InstructionKind::ShiftList { amount, .. } => Some(amount),
            _ => None,
        },
        FieldId::InsertIntoListValue => match k {
            InstructionKind::InsertIntoList { value, .. } => Some(value),
            _ => None,
        },
        FieldId::InsertIntoListIndex => match k {
            InstructionKind::InsertIntoList { index, .. } => Some(index),
            _ => None,
        },
        FieldId::ReplaceItemOfListIndex => match k {
            InstructionKind::ReplaceItemOfList { index, .. } => Some(index),
            _ => None,
        },
        FieldId::ReplaceItemOfListValue => match k {
            InstructionKind::ReplaceItemOfList { value, .. } => Some(value),
            _ => None,
        },
        FieldId::Condition => match k {
            InstructionKind::If { condition, .. } => Some(condition),
            InstructionKind::IfElse { condition, .. } => Some(condition),
            InstructionKind::While { condition, .. } => Some(condition),
            _ => None,
        },
        FieldId::RepeatCount => match k {
            InstructionKind::Repeat { count, .. } => Some(count),
            _ => None,
        },
        FieldId::BatteryDischargeThreshold => match k {
            InstructionKind::WhenBatteryDischargedTo(v) => Some(v),
            _ => None,
        },
        FieldId::BatteryChargeThreshold => match k {
            InstructionKind::WhenBatteryChargedTo(v) => Some(v),
            _ => None,
        },
    }
}

/// `a` and `b` are the same instruction but for what their value slots
/// hold: the same kind, the same names, modes and bodies, and a call with
/// the same number of arguments.
pub open spec fn same_frame(a: InstructionKind, b: InstructionKind) -> bool {
    match (a, b) {
        (InstructionKind::Token(InputToken::MoveMouse(_, _, c1)), InstructionKind::Token(InputToken::MoveMouse(_, _, c2))) => c1 == c2,
        (InstructionKind::Token(InputToken::Scroll(_, x1)), InstructionKind::Token(InputToken::Scroll(_, x2))) => x1 == x2,
        (InstructionKind::Token(InputToken::Text(_)), InstructionKind::Token(InputToken::Text(_))) => true,
        (InstructionKind::Wait(_), InstructionKind::Wait(_)) => true,
        (InstructionKind::SetVariable(n1, _), InstructionKind::SetVariable(n2, _)) => n1 == n2,
        (InstructionKind::ChangeVariable(n1, _), InstructionKind::ChangeVariable(n2, _)) => n1 == n2,
        (InstructionKind::Return(_), InstructionKind::Return(_)) => true,
        (
            InstructionKind::CallBlock { block_id: b1, args: a1, branches: r1 },
            InstructionKind::CallBlock { block_id: b2, args: a2, branches: r2 },
        ) => b1 == b2 && a1@.len() == a2@.len() && r1 == r2,
        (InstructionKind::AddToList { name: n1, .. }, InstructionKind::AddToList { name: n2, .. }) => n1 == n2,
        (InstructionKind::DeleteOfList { name: n1, .. }, InstructionKind::DeleteOfList { name: n2, .. }) => n1 == n2,
        (InstructionKind::ShiftList { name: n1, .. }, InstructionKind::ShiftList { name: n2, .. }) => n1 == n2,
        (InstructionKind::InsertIntoList { name: n1, .. }, InstructionKind::InsertIntoList { name: n2, .. }) => n1 == n2,
        (InstructionKind::ReplaceItemOfList { name: n1, .. }, InstructionKind::ReplaceItemOfList { name: n2, .. }) => n1 == n2,
        (InstructionKind::If { body: b1, .. }, InstructionKind::If { body: b2, .. }) => b1 == b2,
        (
            InstructionKind::IfElse { then_body: t1, else_body: e1, .. },
            InstructionKind::IfElse { then_body: t2, else_body: e2, .. },
        ) => t1 == t2 && e1 == e2,
        (InstructionKind::While { body: b1, .. }, InstructionKind::While { body: b2, .. }) => b1 == b2,
        (InstructionKind::Repeat { body: b1, .. }, InstructionKind::Repeat { body: b2, .. }) => b1 == b2,
        (InstructionKind::WhenBatteryDischargedTo(_), InstructionKind::WhenBatteryDischargedTo(_)) => true,
        (InstructionKind::WhenBatteryChargedTo(_), InstructionKind::WhenBatteryChargedTo(_)) => true,
        _ => a == b,
    }
}

/// `b` is `a` with `v` put into the slot `field` names: the slot exists,
/// now holds `v`, and nothing else changed.
pub open spec fn slot_replaced(a: InstructionKind, b: InstructionKind, field: FieldId, v: Value) -> bool {
    &&& slot_of(a, field) is Some
    &&& slot_of(b, field) == Some(v)
    &&& same_frame(a, b)
    &&& forall|g: FieldId| g != field ==> #[trigger] slot_of(b, g) == slot_of(a, g)
}

/// The value tree in the slot `field` names on `kind`, if it has one.
pub fn value_slot(kind: &InstructionKind, field: FieldId) -> (r: Option<&Value>)
    ensures
        match slot_of(*kind, field) {
            Some(v) => r matches Some(x) && *x == v,
            None => r is None,
        },
{
    match kind {
        InstructionKind::Wait(d) => match field {
            FieldId::WaitDuration => Some(d),
            _ => None,
        },
        InstructionKind::Token(InputToken::MoveMouse(x, y, _)) => match field {
            FieldId::MoveMouseX => Some(x),
            FieldId::MoveMouseY => Some(y),
            _ => None,
        },
        InstructionKind::Token(InputToken::Scroll(a, _)) => match field {
            FieldId::ScrollAmount => Some(a),
            _ => None,
        },
        InstructionKind::Token(InputToken::Text(t)) => match field {
            FieldId::TextValue => Some(t),
            _ => None,
        },
        InstructionKind::SetVariable(_, v) => match field {
            FieldId::SetVariableValue => Some(v),
            _ => None,
        },
        InstructionKind::ChangeVariable(_, v) => match field {
            FieldId::ChangeVariableValue => Some(v),
            _ => None,
        },
        InstructionKind::Return(v) => match field {
            FieldId::ReturnValue => Some(v),
            _ => None,
        },
        InstructionKind::CallBlock { args, .. } => match field {
            FieldId::CallArg(i) => if i < args.len() {
                Some(&args[i])
            } else {
                None
            },
            _ => None,
        },
        InstructionKind::AddToList { value, .. } => match field {
            FieldId::AddToListValue => Some(value),
            _ => None,
        },
        InstructionKind::DeleteOfList { index, .. } => match field {
            FieldId::DeleteOfListIndex => Some(index),
            _ => None,
        },
        InstructionKind::ShiftList { amount, .. } => match field {
            FieldId::ShiftListAmount => Some(amount),
            _ => None,
        },
        InstructionKind::InsertIntoList { value, index, .. } => match field {
            FieldId::InsertIntoListValue => Some(value),
            FieldId::InsertIntoListIndex => Some(index),
            _ => None,
        },
        InstructionKind::ReplaceItemOfList { index, value, .. } => match field {
            FieldId::ReplaceItemOfListIndex => Some(index),
            FieldId::ReplaceItemOfListValue => Some(value),
            _ => None,
        },
        InstructionKind::If { condition, .. } => match field {
            FieldId::Condition => Some(condition),
            _ => None,
        },
        InstructionKind::IfElse { condition, .. } => match field {
            FieldId::Condition => Some(condition),
            _ => None,
        },
        InstructionKind::While { condition, .. } => match field {
            FieldId::Condition => Some(condition),
            _ => None,
        },
        InstructionKind::Repeat { count, .. } => match field {
            FieldId::RepeatCount => Some(count),
            _ => None,
        },
        InstructionKind::WhenBatteryDischargedTo(v) => match field {
            FieldId::BatteryDischargeThreshold => Some(v),
            _ => None,
        },
        InstructionKind::WhenBatteryChargedTo(v) => match field {
            FieldId::BatteryChargeThreshold => Some(v),
            _ => None,
        },
        _ => None,
    }
}

/// The value tree in the slot `field` names on `kind`, to edit in place.
pub fn value_slot_mut(kind: &mut InstructionKind, field: FieldId) -> (r: Option<&mut Value>)
    ensures
        match slot_of(*old(kind), field) {
            Some(v) => r matches Some(x) && *x == v && slot_replaced(*old(kind), *final(kind), field, *final(x)),
            None => r is None && *final(kind) == *old(kind),
        },
{
    match kind {
        InstructionKind::Wait(d) => match field {
            FieldId::WaitDuration => Some(d),
            _ => None,
        },
        InstructionKind::Token(InputToken::MoveMouse(x, y, _)) => match field {
            FieldId::MoveMouseX => Some(x),
            FieldId::MoveMouseY => Some(y),
            _ => None,
        },
        InstructionKind::Token(InputToken::Scroll(a, _)) => match field {
            FieldId::ScrollAmount => Some(a),
            _ => None,
        },
        InstructionKind::Token(InputToken::Text(t)) => match field {
            FieldId::TextValue => Some(t),
            _ => None,
        },
        InstructionKind::SetVariable(_, v) => match field {
            FieldId::SetVariableValue => Some(v),
            _ => None,
        },
        InstructionKind::ChangeVariable(_, v) => match field {
            FieldId::ChangeVariableValue => Some(v),
            _ => None,
        },
        InstructionKind::Return(v) => match field {
            FieldId::ReturnValue => Some(v),
            _ => None,
        },
        InstructionKind::CallBlock { args, .. } => match field {
            FieldId::CallArg(i) => if i < args.len() {
                Some(&mut args[i])
            } else {
                None
            },
            _ => None,
        },
        InstructionKind::AddToList { value, .. } => match field {
            FieldId::AddToListValue => Some(value),
            _ => None,
        },
        InstructionKind::DeleteOfList { index, .. } => match field {
            FieldId::DeleteOfListIndex => Some(index),
            _ => None,
        },
        InstructionKind::ShiftList { amount, .. } => match field {
            FieldId::ShiftListAmount => Some(amount),
            _ => None,
        },
        InstructionKind::InsertIntoList { value, index, .. } => match field {
            FieldId::InsertIntoListValue => Some(value),
            FieldId::InsertIntoListIndex => Some(index),
            _ => None,
        },
        InstructionKind::ReplaceItemOfList { index, value, .. } => match field {
            FieldId::ReplaceItemOfListIndex => Some(index),
            FieldId::ReplaceItemOfListValue => Some(value),
            _ => None,
        },
        InstructionKind::If { condition, .. } => match field {
            FieldId::Condition => Some(condition),
            _ => None,
        },
        InstructionKind::IfElse { condition, .. } => match field {
            FieldId::Condition => Some(condition),
            _ => None,
        },
        InstructionKind::While { condition, .. } => match field {
            FieldId::Condition => Some(condition),
            _ => None,
        },
        InstructionKind::Repeat { count, .. } => match field {
            FieldId::RepeatCount => Some(count),
            _ => None,
        },
        InstructionKind::WhenBatteryDischargedTo(v) => match field {
            FieldId::BatteryDischargeThreshold => Some(v),
            _ => None,
        },
        InstructionKind::WhenBatteryChargedTo(v) => match field {
            FieldId::BatteryChargeThreshold => Some(v),
            _ => None,
        },
        _ => None,
    }
}

/// Puts `value` into the slot `field` names on `kind` and hands back what
/// the slot held; `None`, changing nothing, when `kind` has no such slot.
pub fn replace_slot(kind: &mut InstructionKind, field: FieldId, value: Value) -> (r: Option<Value>)
    ensures
        match slot_of(*old(kind), field) {
            Some(v) => r == Some(v) && slot_replaced(*old(kind), *final(kind), field, value),
            None => r is None && *final(kind) == *old(kind),
        },
{
    let mut value = value;
    let hit = match (&*kind, field) {
        (InstructionKind::Wait(_), FieldId::WaitDuration) => true,
        (InstructionKind::Token(InputToken::MoveMouse(_, _, _)), FieldId::MoveMouseX) => true,
        (InstructionKind::Token(InputToken::MoveMouse(_, _, _)), FieldId::MoveMouseY) => true,
        (InstructionKind::Token(InputToken::Scroll(_, _)), FieldId::ScrollAmount) => true,
        (InstructionKind::Token(InputToken::Text(_)), FieldId::TextValue) => true,
        (InstructionKind::SetVariable(_, _), FieldId::SetVariableValue) => true,
        (InstructionKind::ChangeVariable(_, _), FieldId::ChangeVariableValue) => true,
        (InstructionKind::Return(_), FieldId::ReturnValue) => true,
        (InstructionKind::CallBlock { args, .. }, FieldId::CallArg(i)) => i < args.len(),
        (InstructionKind::AddToList { .. }, FieldId::AddToListValue) => true,
        (InstructionKind::DeleteOfList { .. }, FieldId::DeleteOfListIndex) => true,
        (InstructionKind::ShiftList { .. }, FieldId::ShiftListAmount) => true,
        (InstructionKind::InsertIntoList { .. }, FieldId::InsertIntoListValue) => true,
        (InstructionKind::InsertIntoList { .. }, FieldId::InsertIntoListIndex) => true,
        (InstructionKind::ReplaceItemOfList { .. }, FieldId::ReplaceItemOfListIndex) => true,
        (InstructionKind::ReplaceItemOfList { .. }, FieldId::ReplaceItemOfListValue) => true,
        (InstructionKind::If { .. }, FieldId::Condition) => true,
        (InstructionKind::IfElse { .. }, FieldId::Condition) => true,
        (InstructionKind::While { .. }, FieldId::Condition) => true,
        (InstructionKind::Repeat { .. }, FieldId::RepeatCount) => true,
        (InstructionKind::WhenBatteryDischargedTo(_), FieldId::BatteryDischargeThreshold) => true,
        (InstructionKind::WhenBatteryChargedTo(_), FieldId::BatteryChargeThreshold) => true,
        _ => false,
    };
    if !hit {
        return None;
    }
    match kind {
        InstructionKind::Wait(d) => std::mem::swap(d, &mut value),
        InstructionKind::Token(InputToken::MoveMouse(x, y, _)) => match field {
            FieldId::MoveMouseX => std::mem::swap(x, &mut value),
            _ => std::mem::swap(y, &mut value),
        },
        InstructionKind::Token(InputToken::Scroll(a, _)) => std::mem::swap(a, &mut value),
        InstructionKind::Token(InputToken::Text(t)) => std::mem::swap(t, &mut value),
        InstructionKind::SetVariable(_, v) => std::mem::swap(v, &mut value),
        InstructionKind::ChangeVariable(_, v) => std::mem::swap(v, &mut value),
        InstructionKind::Return(v) => std::mem::swap(v, &mut value),
        InstructionKind::CallBlock { args, .. } => match field {
            FieldId::CallArg(i) => args.set_and_swap(i, &mut value),
            _ => {},
        },
        InstructionKind::AddToList { value: v, .. } => std::mem::swap(v, &mut value),
        InstructionKind::DeleteOfList { index, .. } => std::mem::swap(index, &mut value),
        InstructionKind::ShiftList { amount, .. } => std::mem::swap(amount, &mut value),
        InstructionKind::InsertIntoList { value: v, index, .. } => match field {
            FieldId::InsertIntoListValue => std::mem::swap(v, &mut value),
            _ => std::mem::swap(index, &mut value),
        },
        InstructionKind::ReplaceItemOfList { index, value: v, .. } => match field {
            FieldId::ReplaceItemOfListIndex => std::mem::swap(index, &mut value),
            _ => std::mem::swap(v, &mut value),
        },
        InstructionKind::If { condition, .. } => std::mem::swap(condition, &mut value),
        InstructionKind::IfElse { condition, .. } => std::mem::swap(condition, &mut value),
        InstructionKind::While { condition, .. } => std::mem::swap(condition, &mut value),
        InstructionKind::Repeat { count, .. } => std::mem::swap(count, &mut value),
        InstructionKind::WhenBatteryDischargedTo(v) => std::mem::swap(v, &mut value),
        InstructionKind::WhenBatteryChargedTo(v) => std::mem::swap(v, &mut value),
        _ => {},
    }
    Some(value)
}

/// Each field id names the instruction field its name says: the wait's
/// duration, the mouse move's x and y, the scroll amount, the typed text,
/// the value a variable is set or changed to, the returned value, the
/// call's argument at its position, the list blocks' values, indexes and
/// amounts each by name, the condition of `If`, `IfElse` and `While`, the
/// repeat count and the two battery thresholds.
pub proof fn lemma_field_ids_name_their_fields(k: InstructionKind, i: usize)
    ensures
        k matches InstructionKind::Wait(d) ==> slot_of(k, FieldId::WaitDuration) == Some(d),
        k matches InstructionKind::Token(InputToken::MoveMouse(x, y, _)) ==> slot_of(k, FieldId::MoveMouseX)
            == Some(x) && slot_of(k, FieldId::MoveMouseY) == Some(y),
        k matches InstructionKind::Token(InputToken::Scroll(a, _)) ==> slot_of(k, FieldId::ScrollAmount) == Some(a),
        k matches InstructionKind::Token(InputToken::Text(t)) ==> slot_of(k, FieldId::TextValue) == Some(t),
        k matches InstructionKind::SetVariable(_, v) ==> slot_of(k, FieldId::SetVariableValue) == Some(v),
        k matches InstructionKind::ChangeVariable(_, v) ==> slot_of(k, FieldId::ChangeVariableValue) == Some(v),
        k matches InstructionKind::Return(v) ==> slot_of(k, FieldId::ReturnValue) == Some(v),
        k matches InstructionKind::CallBlock { args, .. } ==> (i < args@.len() ==> slot_of(k, FieldId::CallArg(i))
            == Some(args@[i as int])) && (i >= args@.len() ==> slot_of(k, FieldId::CallArg(i)) is None),
        k matches InstructionKind::AddToList { value, .. } ==> slot_of(k, FieldId::AddToListValue) == Some(value),
        k matches InstructionKind::DeleteOfList { index, .. } ==> slot_of(k, FieldId::DeleteOfListIndex) == Some(index),
        k matches InstructionKind::ShiftList { amount, .. } ==> slot_of(k, FieldId::ShiftListAmount) == Some(amount),
        k matches InstructionKind::InsertIntoList { value, index, .. } ==> slot_of(k, FieldId::InsertIntoListValue)
            == Some(value) && slot_of(k, FieldId::InsertIntoListIndex) == Some(index),
        k matches InstructionKind::ReplaceItemOfList { index, value, .. } ==> slot_of(
            k,
            FieldId::ReplaceItemOfListIndex,
        ) == Some(index) && slot_of(k, FieldId::ReplaceItemOfListValue) == Some(value),
        k matches InstructionKind::If { condition, .. } ==> slot_of(k, FieldId::Condition) == Some(condition),
        k matches InstructionKind::IfElse { condition, .. } ==> slot_of(k, FieldId::Condition) == Some(condition),
        k matches InstructionKind::While { condition, .. } ==> slot_of(k, FieldId::Condition) == Some(condition),
        k matches InstructionKind::Repeat { count, .. } ==> slot_of(k, FieldId::RepeatCount) == Some(count),
        k matches InstructionKind::WhenBatteryDischargedTo(v) ==> slot_of(k, FieldId::BatteryDischargeThreshold)
            == Some(v),
        k matches InstructionKind::WhenBatteryChargedTo(v) ==> slot_of(k, FieldId::BatteryChargeThreshold) == Some(v),
{
}

/// Writing through a field id changes the instruction field its name says
/// and no other: on an `InsertIntoList`, writing the value leaves the index
/// and writing the index leaves the value; on a `ReplaceItemOfList` the
/// same; on a mouse move, writing x leaves y and the other way round.
pub proof fn lemma_write_changes_the_named_field(a: InstructionKind, b: InstructionKind, field: FieldId, v: Value)
    requires
        slot_replaced(a, b, field, v),
    ensures
        a matches InstructionKind::InsertIntoList { value, index, name } ==> (field == FieldId::InsertIntoListValue ==> b
            == InstructionKind::InsertIntoList { value: v, index, name }) && (field == FieldId::InsertIntoListIndex ==> b
            == InstructionKind::InsertIntoList { value, index: v, name }),
        a matches InstructionKind::ReplaceItemOfList { index, name, value } ==> (field == FieldId::ReplaceItemOfListIndex
            ==> b == InstructionKind::ReplaceItemOfList { index: v, name, value }) && (field
            == FieldId::ReplaceItemOfListValue ==> b == InstructionKind::ReplaceItemOfList { index, name, value: v }),
        a matches InstructionKind::Token(InputToken::MoveMouse(x, y, c)) ==> (field == FieldId::MoveMouseX ==> b
            == InstructionKind::Token(InputToken::MoveMouse(v, y, c))) && (field == FieldId::MoveMouseY ==> b
            == InstructionKind::Token(InputToken::MoveMouse(x, v, c))),
{
    lemma_field_ids_name_their_fields(a, 0);
    lemma_field_ids_name_their_fields(b, 0);
    match a {
        InstructionKind::InsertIntoList { .. } => {
            assert(slot_of(b, FieldId::InsertIntoListValue) == slot_of(a, FieldId::InsertIntoListValue)
                || field == FieldId::InsertIntoListValue);
            assert(slot_of(b, FieldId::InsertIntoListIndex) == slot_of(a, FieldId::InsertIntoListIndex)
                || field == FieldId::InsertIntoListIndex);
        },
        InstructionKind::ReplaceItemOfList { .. } => {
            assert(slot_of(b, FieldId::ReplaceItemOfListValue) == slot_of(a, FieldId::ReplaceItemOfListValue)
                || field == FieldId::ReplaceItemOfListValue);
            assert(slot_of(b, FieldId::ReplaceItemOfListIndex) == slot_of(a, FieldId::ReplaceItemOfListIndex)
                || field == FieldId::ReplaceItemOfListIndex);
        },
        InstructionKind::Token(InputToken::MoveMouse(..)) => {
            assert(slot_of(b, FieldId::MoveMouseX) == slot_of(a, FieldId::MoveMouseX) || field == FieldId::MoveMouseX);
            assert(slot_of(b, FieldId::MoveMouseY) == slot_of(a, FieldId::MoveMouseY) || field == FieldId::MoveMouseY);
        },
        _ => {},
    }
}

/// Writing back what a slot held undoes the write: putting `v` into a slot
/// and then the slot's old value back leaves every slot as it was, on the
/// same instruction.
pub proof fn lemma_write_back_restores(a: InstructionKind, b: InstructionKind, c: InstructionKind, field: FieldId, v: Value)
    requires
        slot_replaced(a, b, field, v),
        slot_replaced(b, c, field, slot_of(a, field)->Some_0),
    ensures
        same_frame(a, c),
        forall|g: FieldId| #[trigger] slot_of(c, g) == slot_of(a, g),
{
    assert forall|g: FieldId| #[trigger] slot_of(c, g) == slot_of(a, g) by {
        if g != field {
            assert(slot_of(c, g) == slot_of(b, g));
            assert(slot_of(b, g) == slot_of(a, g));
        }
    }
}

/// Whether `k` is the first position in `defs` of a definition with id `id`.
pub open spec fn is_first_def(defs: Seq<BlockDef>, id: Seq<char>, k: int) -> bool {
    &&& 0 <= k < defs.len()
    &&& defs[k].id@ == id
    &&& forall|j: int| 0 <= j < k ==> (#[trigger] defs[j]).id@ != id
}

/// The blank a field goes back to when its value is dragged out; `None`
/// stands for a plain zero. A condition always takes the blank condition;
/// a call argument does when the called block's first definition declares
/// that input as a condition.
pub open spec fn blank_of(kind: InstructionKind, field: FieldId, defs: Seq<BlockDef>) -> Option<Value> {
    match field {
        FieldId::Condition => Some(Value::Bool),
        FieldId::CallArg(i) => match kind {
            InstructionKind::CallBlock { block_id, .. } => if exists|k: int| is_first_def(defs, block_id@, k) {
                let k = choose|k: int| is_first_def(defs, block_id@, k);
                if i < defs[k].inputs@.len() && defs[k].inputs@[i as int] == InputValueType::Bool {
                    Some(Value::Bool)
                } else {
                    None
                }
            } else {
                None
            },
            _ => None,
        },
        _ => None,
    }
}

/// The first definition with a given id is the only one.
proof fn lemma_first_def_unique(defs: Seq<BlockDef>, id: Seq<char>, a: int, b: int)
    requires
        is_first_def(defs, id, a),
        is_first_def(defs, id, b),
    ensures
        a == b,
{
    if a < b {
        assert(defs[a].id@ != id);
    } else if b < a {
        assert(defs[b].id@ != id);
    }
}

/// The position of the first definition with id `id`, if any.
fn find_def(blocks: &[BlockDef], id: &str) -> (r: Option<usize>)
    ensures
        match r {
            Some(k) => is_first_def(blocks@, id@, k as int),
            None => forall|j: int| 0 <= j < blocks@.len() ==> (#[trigger] blocks@[j]).id@ != id@,
        },
{
    let n = blocks.len();
    let mut k: usize = 0;
    while k < n
        invariant
            n == blocks@.len(),
            k <= n,
            forall|j: int| 0 <= j < k ==> (#[trigger] blocks@[j]).id@ != id@,
        decreases n - k,
    {
        if str_eq(blocks[k].id.as_str(), id) {
            return Some(k);
        }
        k += 1;
    }
    None
}

/// The blank `field` of `kind` goes back to (see [`blank_of`]).
pub fn blank_field_value(kind: &InstructionKind, field: FieldId, blocks: &[BlockDef]) -> (r: Option<Value>)
    ensures
        r == blank_of(*kind, field, blocks@),
{
    match field {
        FieldId::Condition => Some(Value::Bool),
        FieldId::CallArg(index) => match kind {
            InstructionKind::CallBlock { block_id, .. } => match find_def(blocks, block_id.as_str()) {
                Some(k) => {
                    proof {
                        let c = choose|c: int| is_first_def(blocks@, block_id@, c);
                        lemma_first_def_unique(blocks@, block_id@, c, k as int);
                    }
                    let def = &blocks[k];
                    if index < def.inputs.len() && def.inputs[index] == InputValueType::Bool {
                        Some(Value::Bool)
                    } else {
                        None
                    }
                },
                None => None,
            },
            _ => None,
        },
        _ => None,
    }
}

} // verus!
