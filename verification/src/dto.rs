//! The wire shape of an instruction as the editor frontend sends and
//! receives it, and the conversions both ways. Directions, coordinate modes
//! and scroll axes travel by name; a custom-block call travels without its
//! branch bodies.

use vstd::prelude::*;
use crate::instruction::{InputToken, Instruction, InstructionKind};
use crate::protocol::opt_view;
use crate::state::{
    axis_name, axis_of, axis_to_str, coordinate_name, coordinate_of, coordinate_to_str, direction_name,
    direction_of, direction_to_str, lemma_names_round_trip, str_to_axis, str_to_coordinate, str_to_direction,
};
use crate::text::string_of;
use crate::value::{copy_value, copy_values, values_view, Value};

verus! {

/// One instruction as the frontend sees it.
pub enum InstructionDto {
    Wait { id: String, duration: Value },
    Text { id: String, text: Value },
    Key { id: String, key: String, direction: String },
    Button { id: String, button: String, direction: String },
    MoveMouse { id: String, x: Value, y: Value, coordinate: String },
    Scroll { id: String, amount: Value, axis: String },
    Command { id: String, command: String },
    Comment { id: String, comment: String },
    WhenRan { id: String },
    WhenBatteryDischargedTo { id: String, threshold: Value },
    WhenBatteryChargedTo { id: String, threshold: Value },
    WhenPowerPluggedIn { id: String },
    WhenPowerUnplugged { id: String },
    OpenApp { id: String, command: String, name: String, icon: Option<String> },
    CloseApp { id: String, command: String, name: String, icon: Option<String> },
    SetVariable { id: String, name: String, value: Value },
    ChangeVariable { id: String, name: String, value: Value },
    BlockHeader { id: String, block_id: String },
    CallBlock { id: String, block_id: String, args: Vec<Value> },
    Return { id: String, value: Value },
    If { id: String, condition: Value, body: Vec<InstructionDto> },
    IfElse { id: String, condition: Value, then_body: Vec<InstructionDto>, else_body: Vec<InstructionDto> },
    Repeat { id: String, count: Value, body: Vec<InstructionDto> },
    Forever { id: String, body: Vec<InstructionDto> },
    While { id: String, condition: Value, body: Vec<InstructionDto> },
    EscapeLoop { id: String },
    ContinueLoop { id: String },
}

/// The id a wire shape carries.
pub open spec fn dto_id(d: InstructionDto) -> Seq<char> {
    match d {
        InstructionDto::Wait { id, .. } => id@,
        InstructionDto::Text { id, .. } => id@,
        InstructionDto::Key { id, .. } => id@,
        InstructionDto::Button { id, .. } => id@,
        InstructionDto::MoveMouse { id, .. } => id@,
        InstructionDto::Scroll { id, .. } => id@,
        InstructionDto::Command { id, .. } => id@,
        InstructionDto::Comment { id, .. } => id@,
        InstructionDto::WhenRan { id } => id@,
        InstructionDto::WhenBatteryDischargedTo { id, .. } => id@,
        InstructionDto::WhenBatteryChargedTo { id, .. } => id@,
        InstructionDto::WhenPowerPluggedIn { id } => id@,
        InstructionDto::WhenPowerUnplugged { id } => id@,
        InstructionDto::OpenApp { id, .. } => id@,
        InstructionDto::CloseApp { id, .. } => id@,
        InstructionDto::SetVariable { id, .. } => id@,
        InstructionDto::ChangeVariable { id, .. } => id@,
        InstructionDto::BlockHeader { id, .. } => id@,
        InstructionDto::CallBlock { id, .. } => id@,
        InstructionDto::Return { id, .. } => id@,
        InstructionDto::If { id, .. } => id@,
        InstructionDto::IfElse { id, .. } => id@,
        InstructionDto::Repeat { id, .. } => id@,
        InstructionDto::Forever { id, .. } => id@,
        InstructionDto::While { id, .. } => id@,
        InstructionDto::EscapeLoop { id } => id@,
        InstructionDto::ContinueLoop { id } => id@,
    }
}

/// Whether an instruction, with everything nested in its bodies, has a
/// wire shape: clipboard, list and branch-callback blocks do not.
pub open spec fn has_dto(i: Instruction) -> bool
    decreases i,
{
    match i.kind {
        InstructionKind::WhenClipboardChanged => false,
        InstructionKind::SetClipboard(_) => false,
        InstructionKind::AddToList { .. } => false,
        InstructionKind::DeleteOfList { .. } => false,
        InstructionKind::DeleteAllOfList { .. } => false,
        InstructionKind::ShiftList { .. } => false,
        InstructionKind::InsertIntoList { .. } => false,
        InstructionKind::ReplaceItemOfList { .. } => false,
        InstructionKind::ReverseList { .. } => false,
        InstructionKind::RunBranch(_) => false,
        InstructionKind::If { body, .. } => all_have_dto(body@),
        InstructionKind::IfElse { then_body, else_body, .. } => all_have_dto(then_body@) && all_have_dto(
            else_body@,
        ),
        InstructionKind::Repeat { body, .. } => all_have_dto(body@),
        InstructionKind::Forever { body } => all_have_dto(body@),
        InstructionKind::While { body, .. } => all_have_dto(body@),
        _ => true,
    }
}

/// Whether every instruction of `b` has a wire shape.
pub open spec fn all_have_dto(b: Seq<Instruction>) -> bool
    decreases b,
{
    forall|k: int| 0 <= k < b.len() ==> has_dto(#[trigger] b[k])
}

/// `d` is the wire shape of `i`: the same id, every value and string
/// carried over, names for the direction, coordinate mode and axis, and
/// the bodies converted in order. A call's branch bodies are left out.
pub open spec fn dto_of(i: Instruction, d: InstructionDto) -> bool
    decreases i,
{
    &&& dto_id(d) == i.id@
    &&& match i.kind {
        InstructionKind::Token(t) => match t {
            InputToken::Text(v) => (d matches InstructionDto::Text { text, .. } && text@ == v@),
            InputToken::Key(k, dir) => (d matches InstructionDto::Key { key, direction, .. } && key@ == k@
                && direction@ == direction_name(dir)),
            InputToken::Button(b, dir) => (d matches InstructionDto::Button { button, direction, .. } && button@
                == b@ && direction@ == direction_name(dir)),
            InputToken::MoveMouse(x, y, c) => (d matches InstructionDto::MoveMouse { x: dx, y: dy, coordinate, .. }
                && dx@ == x@ && dy@ == y@ && coordinate@ == coordinate_name(c)),
            InputToken::Scroll(a, axis) => (d matches InstructionDto::Scroll { amount, axis: dax, .. } && amount@
                == a@ && dax@ == axis_name(axis)),
        },
        InstructionKind::Wait(v) => (d matches InstructionDto::Wait { duration, .. } && duration@ == v@),
        InstructionKind::Command(c) => (d matches InstructionDto::Command { command, .. } && command@ == c@),
        InstructionKind::Comment(c) => (d matches InstructionDto::Comment { comment, .. } && comment@ == c@),
        InstructionKind::WhenRan => d is WhenRan,
        InstructionKind::WhenBatteryDischargedTo(v) => (d matches InstructionDto::WhenBatteryDischargedTo {
            threshold,
            ..
        } && threshold@ == v@),
        InstructionKind::WhenBatteryChargedTo(v) => (d matches InstructionDto::WhenBatteryChargedTo {
            threshold,
            ..
        } && threshold@ == v@),
        InstructionKind::WhenPowerPluggedIn => d is WhenPowerPluggedIn,
        InstructionKind::WhenPowerUnplugged => d is WhenPowerUnplugged,
        InstructionKind::OpenApp { command, name, icon } => (d matches InstructionDto::OpenApp {
            command: c,
            name: n,
            icon: ic,
            ..
        } && c@ == command@ && n@ == name@ && opt_view(ic) == opt_view(icon)),
        InstructionKind::CloseApp { command, name, icon } => (d matches InstructionDto::CloseApp {
            command: c,
            name: n,
            icon: ic,
            ..
        } && c@ == command@ && n@ == name@ && opt_view(ic) == opt_view(icon)),
        InstructionKind::SetVariable(n, v) => (d matches InstructionDto::SetVariable { name, value, .. } && name@
            == n@ && value@ == v@),
        InstructionKind::ChangeVariable(n, v) => (d matches InstructionDto::ChangeVariable { name, value, .. }
            && name@ == n@ && value@ == v@),
        InstructionKind::BlockHeader(b) => (d matches InstructionDto::BlockHeader { block_id, .. } && block_id@
            == b@),
        InstructionKind::CallBlock { block_id, args, .. } => (d matches InstructionDto::CallBlock {
            block_id: b,
            args: a,
            ..
        } && b@ == block_id@ && values_view(a@) == values_view(args@)),
        InstructionKind::Return(v) => (d matches InstructionDto::Return { value, .. } && value@ == v@),
        InstructionKind::If { condition, body } => (d matches InstructionDto::If { condition: c, body: b, .. }
            && c@ == condition@ && dtos_of(body@, b@)),
        InstructionKind::IfElse { condition, then_body, else_body } => (d matches InstructionDto::IfElse {
            condition: c,
            then_body: t,
            else_body: e,
            ..
        } && c@ == condition@ && dtos_of(then_body@, t@) && dtos_of(else_body@, e@)),
        InstructionKind::Repeat { count, body } => (d matches InstructionDto::Repeat { count: c, body: b, .. }
            && c@ == count@ && dtos_of(body@, b@)),
        InstructionKind::Forever { body } => (d matches InstructionDto::Forever { body: b, .. } && dtos_of(
            body@,
            b@,
        )),
        InstructionKind::While { condition, body } => (d matches InstructionDto::While {
            condition: c,
            body: b,
            ..
        } && c@ == condition@ && dtos_of(body@, b@)),
        InstructionKind::EscapeLoop => d is EscapeLoop,
        InstructionKind::ContinueLoop => d is ContinueLoop,
        _ => false,
    }
}

/// `db` holds the wire shapes of `b`, in order.
pub open spec fn dtos_of(b: Seq<Instruction>, db: Seq<InstructionDto>) -> bool
    decreases b,
{
    &&& b.len() == db.len()
    &&& forall|k: int| 0 <= k < b.len() ==> dto_of(#[trigger] b[k], db[k])
}

/// `i` is what the wire shape `d` reads back as: the same id, every value
/// and string carried over, the direction, coordinate mode and axis read
/// from their names (unknown names give the defaults), the bodies read in
/// order, and a call without branch bodies.
pub open spec fn ins_of(d: InstructionDto, i: Instruction, buttons: Seq<String>) -> bool
    decreases d,
{
    &&& i.id@ == dto_id(d)
    &&& match d {
        InstructionDto::Wait { duration, .. } => (i.kind matches InstructionKind::Wait(v) && v@ == duration@),
        InstructionDto::Text { text, .. } => (i.kind matches InstructionKind::Token(InputToken::Text(v)) && v@
            == text@),
        InstructionDto::Key { key, direction, .. } => (i.kind matches InstructionKind::Token(
            InputToken::Key(k, dir),
        ) && k@ == key@ && dir == direction_of(direction@)),
        InstructionDto::Button { button, direction, .. } => (i.kind matches InstructionKind::Token(
            InputToken::Button(b, dir),
        ) && b@ == button_read(buttons, button@) && dir == direction_of(direction@)),
        InstructionDto::MoveMouse { x, y, coordinate, .. } => (i.kind matches InstructionKind::Token(
            InputToken::MoveMouse(ix, iy, c),
        ) && ix@ == x@ && iy@ == y@ && c == coordinate_of(coordinate@)),
        InstructionDto::Scroll { amount, axis, .. } => (i.kind matches InstructionKind::Token(
            InputToken::Scroll(a, ax),
        ) && a@ == amount@ && ax == axis_of(axis@)),
        InstructionDto::Command { command, .. } => (i.kind matches InstructionKind::Command(c) && c@ == command@),
        InstructionDto::Comment { comment, .. } => (i.kind matches InstructionKind::Comment(c) && c@ == comment@),
        InstructionDto::WhenRan { .. } => i.kind is WhenRan,
        InstructionDto::WhenBatteryDischargedTo { threshold, .. } => (i.kind matches InstructionKind::WhenBatteryDischargedTo(
            v,
        ) && v@ == threshold@),
        InstructionDto::WhenBatteryChargedTo { threshold, .. } => (i.kind matches InstructionKind::WhenBatteryChargedTo(
            v,
        ) && v@ == threshold@),
        InstructionDto::WhenPowerPluggedIn { .. } => i.kind is WhenPowerPluggedIn,
        InstructionDto::WhenPowerUnplugged { .. } => i.kind is WhenPowerUnplugged,
        InstructionDto::OpenApp { command, name, icon, .. } => (i.kind matches InstructionKind::OpenApp {
            command: c,
            name: n,
            icon: ic,
        } && c@ == command@ && n@ == name@ && opt_view(ic) == opt_view(icon)),
        InstructionDto::CloseApp { command, name, icon, .. } => (i.kind matches InstructionKind::CloseApp {
            command: c,
            name: n,
            icon: ic,
        } && c@ == command@ && n@ == name@ && opt_view(ic) == opt_view(icon)),
        InstructionDto::SetVariable { name, value, .. } => (i.kind matches InstructionKind::SetVariable(n, v)
            && n@ == name@ && v@ == value@),
        InstructionDto::ChangeVariable { name, value, .. } => (i.kind matches InstructionKind::ChangeVariable(
            n,
            v,
        ) && n@ == name@ && v@ == value@),
        InstructionDto::BlockHeader { block_id, .. } => (i.kind matches InstructionKind::BlockHeader(b) && b@
            == block_id@),
        InstructionDto::CallBlock { block_id, args, .. } => (i.kind matches InstructionKind::CallBlock {
            block_id: b,
            args: a,
            branches,
        } && b@ == block_id@ && values_view(a@) == values_view(args@) && branches@.len() == 0),
        InstructionDto::Return { value, .. } => (i.kind matches InstructionKind::Return(v) && v@ == value@),
        InstructionDto::If { condition, body, .. } => (i.kind matches InstructionKind::If { condition: c, body: b }
            && c@ == condition@ && inss_of(body@, b@, buttons)),
        InstructionDto::IfElse { condition, then_body, else_body, .. } => (i.kind matches InstructionKind::IfElse {
            condition: c,
            then_body: t,
            else_body: e,
        } && c@ == condition@ && inss_of(then_body@, t@, buttons) && inss_of(else_body@, e@, buttons)),
        InstructionDto::Repeat { count, body, .. } => (i.kind matches InstructionKind::Repeat { count: c, body: b }
            && c@ == count@ && inss_of(body@, b@, buttons)),
        InstructionDto::Forever { body, .. } => (i.kind matches InstructionKind::Forever { body: b } && inss_of(
            body@,
            b@,
            buttons,
        )),
        InstructionDto::While { condition, body, .. } => (i.kind matches InstructionKind::While {
            condition: c,
            body: b,
        } && c@ == condition@ && inss_of(body@, b@, buttons)),
        InstructionDto::EscapeLoop { .. } => i.kind is EscapeLoop,
        InstructionDto::ContinueLoop { .. } => i.kind is ContinueLoop,
    }
}

/// `b` is what the wire shapes `db` read back as, in order.
pub open spec fn inss_of(db: Seq<InstructionDto>, b: Seq<Instruction>, buttons: Seq<String>) -> bool
    decreases db,
{
    &&& db.len() == b.len()
    &&& forall|k: int| 0 <= k < db.len() ==> ins_of(#[trigger] db[k], b[k], buttons)
}

/// Whether `key` is one of the key names in `keys`.
pub open spec fn key_known(keys: Seq<String>, key: Seq<char>) -> bool {
    exists|j: int| 0 <= j < keys.len() && (#[trigger] keys[j])@ == key
}

/// The button a wire-shape button name reads as: the name itself when it
/// is one of `buttons`, else the first of them.
pub open spec fn button_read(buttons: Seq<String>, name: Seq<char>) -> Seq<char> {
    if key_known(buttons, name) {
        name
    } else {
        buttons[0]@
    }
}

/// Whether every key block in `d`, at any depth of its bodies, names a key
/// in `keys`.
pub open spec fn keys_known(d: InstructionDto, keys: Seq<String>) -> bool
    decreases d,
{
    match d {
        InstructionDto::Key { key, .. } => key_known(keys, key@),
        InstructionDto::If { body, .. } => bodies_keys_known(body@, keys),
        InstructionDto::IfElse { then_body, else_body, .. } => bodies_keys_known(then_body@, keys)
            && bodies_keys_known(else_body@, keys),
        InstructionDto::Repeat { body, .. } => bodies_keys_known(body@, keys),
        InstructionDto::Forever { body, .. } => bodies_keys_known(body@, keys),
        InstructionDto::While { body, .. } => bodies_keys_known(body@, keys),
        _ => true,
    }
}

/// Whether every wire shape of `db` passes [`keys_known`].
pub open spec fn bodies_keys_known(db: Seq<InstructionDto>, keys: Seq<String>) -> bool
    decreases db,
{
    forall|k: int| 0 <= k < db.len() ==> keys_known(#[trigger] db[k], keys)
}

/// Whether `i` comes back whole through its wire shape: no custom-block
/// call in it (outside call branches) has branch bodies, which the wire
/// shape cannot carry, every key block names one of `keys` and every
/// button block one of `buttons`.
pub open spec fn wire_safe(i: Instruction, keys: Seq<String>, buttons: Seq<String>) -> bool
    decreases i,
{
    match i.kind {
        InstructionKind::Token(InputToken::Key(k, _)) => key_known(keys, k@),
        InstructionKind::Token(InputToken::Button(b, _)) => key_known(buttons, b@),
        InstructionKind::CallBlock { branches, .. } => branches@.len() == 0,
        InstructionKind::If { body, .. } => all_wire_safe(body@, keys, buttons),
        InstructionKind::IfElse { then_body, else_body, .. } => all_wire_safe(then_body@, keys, buttons)
            && all_wire_safe(else_body@, keys, buttons),
        InstructionKind::Repeat { body, .. } => all_wire_safe(body@, keys, buttons),
        InstructionKind::Forever { body } => all_wire_safe(body@, keys, buttons),
        InstructionKind::While { body, .. } => all_wire_safe(body@, keys, buttons),
        _ => true,
    }
}

/// Whether every instruction of `b` is [`wire_safe`].
pub open spec fn all_wire_safe(b: Seq<Instruction>, keys: Seq<String>, buttons: Seq<String>) -> bool
    decreases b,
{
    forall|k: int| 0 <= k < b.len() ==> wire_safe(#[trigger] b[k], keys, buttons)
}

/// `a` and `b` are the same instruction, field by field at every depth:
/// the same id, the same kind, every string and value the same, and their
/// bodies the same instructions in the same order.
pub open spec fn same_ins(a: Instruction, b: Instruction) -> bool
    decreases a,
{
    &&& a.id@ == b.id@
    &&& match a.kind {
        InstructionKind::Token(t) => match t {
            InputToken::Key(k, d) => b.kind matches InstructionKind::Token(InputToken::Key(k2, d2)) && k2@ == k@ && d2 == d,
            InputToken::Button(k, d) => b.kind matches InstructionKind::Token(InputToken::Button(k2, d2)) && k2@ == k@
                && d2 == d,
            InputToken::MoveMouse(x, y, c) => b.kind matches InstructionKind::Token(InputToken::MoveMouse(x2, y2, c2))
                && x2@ == x@ && y2@ == y@ && c2 == c,
            InputToken::Scroll(v, ax) => b.kind matches InstructionKind::Token(InputToken::Scroll(v2, ax2)) && v2@ == v@
                && ax2 == ax,
            InputToken::Text(v) => b.kind matches InstructionKind::Token(InputToken::Text(v2)) && v2@ == v@,
        },
        InstructionKind::Wait(v) => b.kind matches InstructionKind::Wait(v2) && v2@ == v@,
        InstructionKind::Command(c) => b.kind matches InstructionKind::Command(c2) && c2@ == c@,
        InstructionKind::Comment(c) => b.kind matches InstructionKind::Comment(c2) && c2@ == c@,
        InstructionKind::WhenRan => b.kind is WhenRan,
        InstructionKind::WhenBatteryDischargedTo(v) => b.kind matches InstructionKind::WhenBatteryDischargedTo(v2)
            && v2@ == v@,
        InstructionKind::WhenBatteryChargedTo(v) => b.kind matches InstructionKind::WhenBatteryChargedTo(v2) && v2@
            == v@,
        InstructionKind::WhenPowerPluggedIn => b.kind is WhenPowerPluggedIn,
        InstructionKind::WhenPowerUnplugged => b.kind is WhenPowerUnplugged,
        InstructionKind::OpenApp { command, name, icon } => b.kind matches InstructionKind::OpenApp {
            command: c2,
            name: n2,
            icon: i2,
        } && c2@ == command@ && n2@ == name@ && opt_view(i2) == opt_view(icon),
        InstructionKind::CloseApp { command, name, icon } => b.kind matches InstructionKind::CloseApp {
            command: c2,
            name: n2,
            icon: i2,
        } && c2@ == command@ && n2@ == name@ && opt_view(i2) == opt_view(icon),
        InstructionKind::SetVariable(n, v) => b.kind matches InstructionKind::SetVariable(n2, v2) && n2@ == n@ && v2@
            == v@,
        InstructionKind::ChangeVariable(n, v) => b.kind matches InstructionKind::ChangeVariable(n2, v2) && n2@ == n@
            && v2@ == v@,
        InstructionKind::BlockHeader(x) => b.kind matches InstructionKind::BlockHeader(x2) && x2@ == x@,
        InstructionKind::CallBlock { block_id, args, branches } => b.kind matches InstructionKind::CallBlock {
            block_id: id2,
            args: a2,
            branches: br2,
        } && id2@ == block_id@ && values_view(a2@) == values_view(args@) && branches@.len() == 0 && br2@.len() == 0,
        InstructionKind::Return(v) => b.kind matches InstructionKind::Return(v2) && v2@ == v@,
        InstructionKind::If { condition, body } => b.kind matches InstructionKind::If { condition: c2, body: b2 }
            && c2@ == condition@ && all_same(body@, b2@),
        InstructionKind::IfElse { condition, then_body, else_body } => b.kind matches InstructionKind::IfElse {
            condition: c2,
            then_body: t2,
            else_body: e2,
        } && c2@ == condition@ && all_same(then_body@, t2@) && all_same(else_body@, e2@),
        InstructionKind::Repeat { count, body } => b.kind matches InstructionKind::Repeat { count: c2, body: b2 }
            && c2@ == count@ && all_same(body@, b2@),
        InstructionKind::Forever { body } => b.kind matches InstructionKind::Forever { body: b2 } && all_same(
            body@,
            b2@,
        ),
        InstructionKind::While { condition, body } => b.kind matches InstructionKind::While { condition: c2, body: b2 }
            && c2@ == condition@ && all_same(body@, b2@),
        InstructionKind::EscapeLoop => b.kind is EscapeLoop,
        InstructionKind::ContinueLoop => b.kind is ContinueLoop,
        _ => false,
    }
}

/// [`same_ins`] for two bodies, element by element.
pub open spec fn all_same(a: Seq<Instruction>, b: Seq<Instruction>) -> bool
    decreases a,
{
    &&& a.len() == b.len()
    &&& forall|k: int| 0 <= k < a.len() ==> same_ins(#[trigger] a[k], b[k])
}


// ---------------------------------------------------------------------------
// The round trip

/// Reading back the wire shape of an instruction gives that instruction:
/// when `d` is the wire shape of `i` and `i` comes back whole (see
/// [`wire_safe`]), `d` reads back (its keys are all known) and `i` is
/// exactly what it reads back as.
pub proof fn lemma_wire_round_trip(i: Instruction, d: InstructionDto, keys: Seq<String>, buttons: Seq<String>)
    requires
        dto_of(i, d),
        wire_safe(i, keys, buttons),
    ensures
        ins_of(d, i, buttons),
        keys_known(d, keys),
    decreases i,
{
    match i.kind {
        InstructionKind::Token(t) => match t {
            InputToken::Key(_, dir) => lemma_names_round_trip(dir, crate::state::Coordinate::Abs, crate::state::Axis::Vertical),
            InputToken::Button(_, dir) => lemma_names_round_trip(dir, crate::state::Coordinate::Abs, crate::state::Axis::Vertical),
            InputToken::MoveMouse(_, _, c) => lemma_names_round_trip(crate::state::Direction::Click, c, crate::state::Axis::Vertical),
            InputToken::Scroll(_, a) => lemma_names_round_trip(crate::state::Direction::Click, crate::state::Coordinate::Abs, a),
            InputToken::Text(_) => {},
        },
        InstructionKind::If { body, .. } => match d {
            InstructionDto::If { body: b, .. } => lemma_bodies_round_trip(body@, b@, keys, buttons),
            _ => {},
        },
        InstructionKind::IfElse { then_body, else_body, .. } => match d {
            InstructionDto::IfElse { then_body: t, else_body: e, .. } => {
                lemma_bodies_round_trip(then_body@, t@, keys, buttons);
                lemma_bodies_round_trip(else_body@, e@, keys, buttons);
            },
            _ => {},
        },
        InstructionKind::Repeat { body, .. } => match d {
            InstructionDto::Repeat { body: b, .. } => lemma_bodies_round_trip(body@, b@, keys, buttons),
            _ => {},
        },
        InstructionKind::Forever { body } => match d {
            InstructionDto::Forever { body: b, .. } => lemma_bodies_round_trip(body@, b@, keys, buttons),
            _ => {},
        },
        InstructionKind::While { body, .. } => match d {
            InstructionDto::While { body: b, .. } => lemma_bodies_round_trip(body@, b@, keys, buttons),
            _ => {},
        },
        _ => {},
    }
}

/// [`lemma_wire_round_trip`] for a whole body.
pub proof fn lemma_bodies_round_trip(b: Seq<Instruction>, db: Seq<InstructionDto>, keys: Seq<String>, buttons: Seq<String>)
    requires
        dtos_of(b, db),
        all_wire_safe(b, keys, buttons),
    ensures
        inss_of(db, b, buttons),
        bodies_keys_known(db, keys),
    decreases b,
{
    assert forall|k: int| 0 <= k < db.len() implies ins_of(#[trigger] db[k], b[k], buttons) && keys_known(db[k], keys) by {
        assert(dto_of(b[k], db[k]));
        assert(wire_safe(b[k], keys, buttons));
        lemma_wire_round_trip(b[k], db[k], keys, buttons);
    }
}

/// A wire shape reads back as one instruction only: any two readings of it
/// are the same instruction field by field.
pub proof fn lemma_read_back_unique(d: InstructionDto, a: Instruction, b: Instruction, buttons: Seq<String>)
    requires
        ins_of(d, a, buttons),
        ins_of(d, b, buttons),
    ensures
        same_ins(a, b),
    decreases d,
{
    match d {
        InstructionDto::If { body, .. } => lemma_bodies_read_back_unique(body@, a.kind->If_body@, b.kind->If_body@, buttons),
        InstructionDto::IfElse { then_body, else_body, .. } => {
            lemma_bodies_read_back_unique(then_body@, a.kind->IfElse_then_body@, b.kind->IfElse_then_body@, buttons);
            lemma_bodies_read_back_unique(else_body@, a.kind->IfElse_else_body@, b.kind->IfElse_else_body@, buttons);
        },
        InstructionDto::Repeat { body, .. } => lemma_bodies_read_back_unique(
            body@,
            a.kind->Repeat_body@,
            b.kind->Repeat_body@,
            buttons,
        ),
        InstructionDto::Forever { body, .. } => lemma_bodies_read_back_unique(
            body@,
            a.kind->Forever_body@,
            b.kind->Forever_body@,
            buttons,
        ),
        InstructionDto::While { body, .. } => lemma_bodies_read_back_unique(
            body@,
            a.kind->While_body@,
            b.kind->While_body@,
            buttons,
        ),
        _ => {},
    }
}

/// [`lemma_read_back_unique`] for a whole body.
pub proof fn lemma_bodies_read_back_unique(db: Seq<InstructionDto>, a: Seq<Instruction>, b: Seq<Instruction>, buttons: Seq<String>)
    requires
        inss_of(db, a, buttons),
        inss_of(db, b, buttons),
    ensures
        all_same(a, b),
    decreases db,
{
    assert forall|k: int| 0 <= k < a.len() implies same_ins(#[trigger] a[k], b[k]) by {
        assert(ins_of(db[k], a[k], buttons));
        assert(ins_of(db[k], b[k], buttons));
        lemma_read_back_unique(db[k], a[k], b[k], buttons);
    }
}

/// The round trip through the wire shape gives back the same instruction:
/// when `i` comes back whole (see [`wire_safe`]), reading back its wire
/// shape `d` succeeds, and whatever `d` reads back as is `i`, field by
/// field at every depth.
pub proof fn lemma_round_trip_gives_same(i: Instruction, d: InstructionDto, r: Instruction, keys: Seq<String>, buttons: Seq<String>)
    requires
        dto_of(i, d),
        wire_safe(i, keys, buttons),
        ins_of(d, r, buttons),
    ensures
        keys_known(d, keys),
        same_ins(i, r),
{
    lemma_wire_round_trip(i, d, keys, buttons);
    lemma_read_back_unique(d, i, r, buttons);
}

/// A wire shape whose body holds one that does not read back does not read
/// back either: the whole conversion fails, not just the bad child.
pub proof fn lemma_bad_child_fails_whole(d: InstructionDto, keys: Seq<String>, k: int)
    requires
        match d {
            InstructionDto::If { body, .. } => 0 <= k < body@.len() && !keys_known(body@[k], keys),
            InstructionDto::Repeat { body, .. } => 0 <= k < body@.len() && !keys_known(body@[k], keys),
            InstructionDto::Forever { body, .. } => 0 <= k < body@.len() && !keys_known(body@[k], keys),
            InstructionDto::While { body, .. } => 0 <= k < body@.len() && !keys_known(body@[k], keys),
            InstructionDto::IfElse { then_body, else_body, .. } => (0 <= k < then_body@.len() && !keys_known(
                then_body@[k],
                keys,
            )) || (0 <= k < else_body@.len() && !keys_known(else_body@[k], keys)),
            _ => false,
        },
    ensures
        !keys_known(d, keys),
{
}

/// Only an instruction with a wire shape has one.
pub proof fn lemma_dto_has(i: Instruction, d: InstructionDto)
    requires
        dto_of(i, d),
    ensures
        has_dto(i),
    decreases i,
{
    match i.kind {
        InstructionKind::If { body, .. } => match d {
            InstructionDto::If { body: b, .. } => lemma_dtos_have(body@, b@),
            _ => {},
        },
        InstructionKind::IfElse { then_body, else_body, .. } => match d {
            InstructionDto::IfElse { then_body: t, else_body: e, .. } => {
                lemma_dtos_have(then_body@, t@);
                lemma_dtos_have(else_body@, e@);
            },
            _ => {},
        },
        InstructionKind::Repeat { body, .. } => match d {
            InstructionDto::Repeat { body: b, .. } => lemma_dtos_have(body@, b@),
            _ => {},
        },
        InstructionKind::Forever { body } => match d {
            InstructionDto::Forever { body: b, .. } => lemma_dtos_have(body@, b@),
            _ => {},
        },
        InstructionKind::While { body, .. } => match d {
            InstructionDto::While { body: b, .. } => lemma_dtos_have(body@, b@),
            _ => {},
        },
        _ => {},
    }
}

/// [`lemma_dto_has`] for a whole body.
pub proof fn lemma_dtos_have(b: Seq<Instruction>, db: Seq<InstructionDto>)
    requires
        dtos_of(b, db),
    ensures
        all_have_dto(b),
    decreases b,
{
    assert forall|k: int| 0 <= k < b.len() implies has_dto(#[trigger] b[k]) by {
        assert(dto_of(b[k], db[k]));
        lemma_dto_has(b[k], db[k]);
    }
}

// ---------------------------------------------------------------------------
// Conversions

fn copy_opt_string(s: &Option<String>) -> (r: Option<String>)
    ensures
        opt_view(r) == opt_view(*s),
{
    match s {
        Some(v) => Some(string_of(v.as_str())),
        None => None,
    }
}

fn copy_args(args: &Vec<Value>) -> (r: Vec<Value>)
    ensures
        values_view(r@) == values_view(args@),
{
    let r = copy_values(args);
    assert(values_view(r@) =~= values_view(args@));
    r
}

/// The wire shape of an instruction (see [`dto_of`]); `None` when it, or
/// something nested in its bodies, has none (see [`has_dto`]).
pub fn instruction_to_dto(ins: &Instruction) -> (r: Option<InstructionDto>)
    ensures
        match r {
            Some(d) => dto_of(*ins, d),
            None => !has_dto(*ins),
        },
    decreases ins,
{
    let id = string_of(ins.id.as_str());
    match &ins.kind {
        InstructionKind::Token(t) => match t {
            InputToken::Text(v) => Some(InstructionDto::Text { id, text: copy_value(v) }),
            InputToken::Key(k, d) => Some(InstructionDto::Key {
                id,
                key: string_of(k.as_str()),
                direction: string_of(direction_to_str(d)),
            }),
            InputToken::Button(b, d) => Some(InstructionDto::Button {
                id,
                button: string_of(b.as_str()),
                direction: string_of(direction_to_str(d)),
            }),
            InputToken::MoveMouse(x, y, c) => Some(InstructionDto::MoveMouse {
                id,
                x: copy_value(x),
                y: copy_value(y),
                coordinate: string_of(coordinate_to_str(c)),
            }),
            InputToken::Scroll(a, axis) => Some(InstructionDto::Scroll {
                id,
                amount: copy_value(a),
                axis: string_of(axis_to_str(axis)),
            }),
        },
        InstructionKind::Wait(v) => Some(InstructionDto::Wait { id, duration: copy_value(v) }),
        InstructionKind::Command(c) => Some(InstructionDto::Command { id, command: string_of(c.as_str()) }),
        InstructionKind::Comment(c) => Some(InstructionDto::Comment { id, comment: string_of(c.as_str()) }),
        InstructionKind::WhenRan => Some(InstructionDto::WhenRan { id }),
        InstructionKind::WhenBatteryDischargedTo(v) => Some(InstructionDto::WhenBatteryDischargedTo {
            id,
            threshold: copy_value(v),
        }),
        InstructionKind::WhenBatteryChargedTo(v) => Some(InstructionDto::WhenBatteryChargedTo {
            id,
            threshold: copy_value(v),
        }),
        InstructionKind::WhenPowerPluggedIn => Some(InstructionDto::WhenPowerPluggedIn { id }),
        InstructionKind::WhenPowerUnplugged => Some(InstructionDto::WhenPowerUnplugged { id }),
        InstructionKind::OpenApp { command, name, icon } => Some(InstructionDto::OpenApp {
            id,
            command: string_of(command.as_str()),
            name: string_of(name.as_str()),
            icon: copy_opt_string(icon),
        }),
        InstructionKind::CloseApp { command, name, icon } => Some(InstructionDto::CloseApp {
            id,
            command: string_of(command.as_str()),
            name: string_of(name.as_str()),
            icon: copy_opt_string(icon),
        }),
        InstructionKind::SetVariable(n, v) => Some(InstructionDto::SetVariable {
            id,
            name: string_of(n.as_str()),
            value: copy_value(v),
        }),
        InstructionKind::ChangeVariable(n, v) => Some(InstructionDto::ChangeVariable {
            id,
            name: string_of(n.as_str()),
            value: copy_value(v),
        }),
        InstructionKind::BlockHeader(b) => Some(InstructionDto::BlockHeader { id, block_id: string_of(b.as_str()) }),
        InstructionKind::CallBlock { block_id, args, .. } => Some(InstructionDto::CallBlock {
            id,
            block_id: string_of(block_id.as_str()),
            args: copy_args(args),
        }),
        InstructionKind::Return(v) => Some(InstructionDto::Return { id, value: copy_value(v) }),
        InstructionKind::If { condition, body } => match bodies_to_dto(body) {
            Some(b) => Some(InstructionDto::If { id, condition: copy_value(condition), body: b }),
            None => None,
        },
        InstructionKind::IfElse { condition, then_body, else_body } => match bodies_to_dto(then_body) {
            Some(t) => match bodies_to_dto(else_body) {
                Some(e) => Some(InstructionDto::IfElse {
                    id,
                    condition: copy_value(condition),
                    then_body: t,
                    else_body: e,
                }),
                None => None,
            },
            None => None,
        },
        InstructionKind::Repeat { count, body } => match bodies_to_dto(body) {
            Some(b) => Some(InstructionDto::Repeat { id, count: copy_value(count), body: b }),
            None => None,
        },
        InstructionKind::Forever { body } => match bodies_to_dto(body) {
            Some(b) => Some(InstructionDto::Forever { id, body: b }),
            None => None,
        },
        InstructionKind::While { condition, body } => match bodies_to_dto(body) {
            Some(b) => Some(InstructionDto::While { id, condition: copy_value(condition), body: b }),
            None => None,
        },
        InstructionKind::EscapeLoop => Some(InstructionDto::EscapeLoop { id }),
        InstructionKind::ContinueLoop => Some(InstructionDto::ContinueLoop { id }),
        InstructionKind::WhenClipboardChanged => None,
        InstructionKind::SetClipboard(_) => None,
        InstructionKind::AddToList { .. } => None,
        InstructionKind::DeleteOfList { .. } => None,
        InstructionKind::DeleteAllOfList { .. } => None,
        InstructionKind::ShiftList { .. } => None,
        InstructionKind::InsertIntoList { .. } => None,
        InstructionKind::ReplaceItemOfList { .. } => None,
        InstructionKind::ReverseList { .. } => None,
        InstructionKind::RunBranch(_) => None,
    }
}

/// The wire shapes of a body, in order; `None` when one has none.
fn bodies_to_dto(body: &Vec<Instruction>) -> (r: Option<Vec<InstructionDto>>)
    ensures
        match r {
            Some(v) => dtos_of(body@, v@),
            None => !all_have_dto(body@),
        },
    decreases body@,
{
    let n = body.len();
    let mut out: Vec<InstructionDto> = Vec::new();
    let mut i: usize = 0;
    while i < n
        invariant
            n == body@.len(),
            i <= n,
            out@.len() == i,
            forall|k: int| 0 <= k < i ==> dto_of(#[trigger] body@[k], out@[k]),
        decreases n - i,
    {
        assert(decreases_to!(body@ => body@[i as int]));
        match instruction_to_dto(&body[i]) {
            Some(d) => out.push(d),
            None => {
                assert(!has_dto(body@[i as int]));
                return None;
            },
        }
        i = i + 1;
    }
    Some(out)
}

/// Whether `key` is one of the key names in `keys`.
fn is_known_key(keys: &Vec<String>, key: &str) -> (r: bool)
    ensures
        r == key_known(keys@, key@),
{
    let n = keys.len();
    let mut j: usize = 0;
    while j < n
        invariant
            n == keys@.len(),
            j <= n,
            forall|i: int| 0 <= i < j ==> (#[trigger] keys@[i])@ != key@,
        decreases n - j,
    {
        if crate::text::str_eq(keys[j].as_str(), key) {
            return true;
        }
        j = j + 1;
    }
    false
}

/// What a wire shape reads back as (see [`ins_of`]), given the key names
/// the editor knows. The whole conversion fails when a key block, at any
/// depth, names a key outside `known_keys`; a button name outside
/// `button_names` reads as the first of them, and an unknown direction,
/// coordinate mode or axis name reads as the default.
pub fn dto_to_instruction(dto: &InstructionDto, known_keys: &Vec<String>, button_names: &Vec<String>) -> (r: Option<Instruction>)
    requires
        button_names@.len() > 0,
    ensures
        r is Some <==> keys_known(*dto, known_keys@),
        r matches Some(i) ==> ins_of(*dto, i, button_names@),
    decreases dto,
{
    let kind = match dto {
        InstructionDto::Wait { duration, .. } => InstructionKind::Wait(copy_value(duration)),
        InstructionDto::Text { text, .. } => InstructionKind::Token(InputToken::Text(copy_value(text))),
        InstructionDto::Key { key, direction, .. } => {
            if !is_known_key(known_keys, key.as_str()) {
                return None;
            }
            InstructionKind::Token(InputToken::Key(string_of(key.as_str()), str_to_direction(direction.as_str())))
        },
        InstructionDto::Button { button, direction, .. } => {
            let name = if is_known_key(button_names, button.as_str()) {
                string_of(button.as_str())
            } else {
                string_of(button_names[0].as_str())
            };
            InstructionKind::Token(InputToken::Button(name, str_to_direction(direction.as_str())))
        },
        InstructionDto::MoveMouse { x, y, coordinate, .. } => InstructionKind::Token(
            InputToken::MoveMouse(copy_value(x), copy_value(y), str_to_coordinate(coordinate.as_str())),
        ),
        InstructionDto::Scroll { amount, axis, .. } => InstructionKind::Token(
            InputToken::Scroll(copy_value(amount), str_to_axis(axis.as_str())),
        ),
        InstructionDto::Command { command, .. } => InstructionKind::Command(string_of(command.as_str())),
        InstructionDto::Comment { comment, .. } => InstructionKind::Comment(string_of(comment.as_str())),
        InstructionDto::WhenRan { .. } => InstructionKind::WhenRan,
        InstructionDto::WhenBatteryDischargedTo { threshold, .. } => InstructionKind::WhenBatteryDischargedTo(
            copy_value(threshold),
        ),
        InstructionDto::WhenBatteryChargedTo { threshold, .. } => InstructionKind::WhenBatteryChargedTo(
            copy_value(threshold),
        ),
        InstructionDto::WhenPowerPluggedIn { .. } => InstructionKind::WhenPowerPluggedIn,
        InstructionDto::WhenPowerUnplugged { .. } => InstructionKind::WhenPowerUnplugged,
        InstructionDto::OpenApp { command, name, icon, .. } => InstructionKind::OpenApp {
            command: string_of(command.as_str()),
            name: string_of(name.as_str()),
            icon: copy_opt_string(icon),
        },
        InstructionDto::CloseApp { command, name, icon, .. } => InstructionKind::CloseApp {
            command: string_of(command.as_str()),
            name: string_of(name.as_str()),
            icon: copy_opt_string(icon),
        },
        InstructionDto::SetVariable { name, value, .. } => InstructionKind::SetVariable(
            string_of(name.as_str()),
            copy_value(value),
        ),
        InstructionDto::ChangeVariable { name, value, .. } => InstructionKind::ChangeVariable(
            string_of(name.as_str()),
            copy_value(value),
        ),
        InstructionDto::BlockHeader { block_id, .. } => InstructionKind::BlockHeader(string_of(block_id.as_str())),
        InstructionDto::CallBlock { block_id, args, .. } => InstructionKind::CallBlock {
            block_id: string_of(block_id.as_str()),
            args: copy_args(args),
            branches: Vec::new(),
        },
        InstructionDto::Return { value, .. } => InstructionKind::Return(copy_value(value)),
        InstructionDto::If { condition, body, .. } => {
            let b = match dtos_to_instructions(body, known_keys, button_names) {
                Some(b) => b,
                None => return None,
            };
            InstructionKind::If { condition: copy_value(condition), body: b }
        },
        InstructionDto::IfElse { condition, then_body, else_body, .. } => {
            let t = match dtos_to_instructions(then_body, known_keys, button_names) {
                Some(t) => t,
                None => return None,
            };
            let e = match dtos_to_instructions(else_body, known_keys, button_names) {
                Some(e) => e,
                None => return None,
            };
            InstructionKind::IfElse { condition: copy_value(condition), then_body: t, else_body: e }
        },
        InstructionDto::Repeat { count, body, .. } => {
            let b = match dtos_to_instructions(body, known_keys, button_names) {
                Some(b) => b,
                None => return None,
            };
            InstructionKind::Repeat { count: copy_value(count), body: b }
        },
        InstructionDto::Forever { body, .. } => {
            let b = match dtos_to_instructions(body, known_keys, button_names) {
                Some(b) => b,
                None => return None,
            };
            InstructionKind::Forever { body: b }
        },
        InstructionDto::While { condition, body, .. } => {
            let b = match dtos_to_instructions(body, known_keys, button_names) {
                Some(b) => b,
                None => return None,
            };
            InstructionKind::While { condition: copy_value(condition), body: b }
        },
        InstructionDto::EscapeLoop { .. } => InstructionKind::EscapeLoop,
        InstructionDto::ContinueLoop { .. } => InstructionKind::ContinueLoop,
    };
    let id = match dto {
        InstructionDto::Wait { id, .. } => id,
        InstructionDto::Text { id, .. } => id,
        InstructionDto::Key { id, .. } => id,
        InstructionDto::Button { id, .. } => id,
        InstructionDto::MoveMouse { id, .. } => id,
        InstructionDto::Scroll { id, .. } => id,
        InstructionDto::Command { id, .. } => id,
        InstructionDto::Comment { id, .. } => id,
        InstructionDto::WhenRan { id } => id,
        InstructionDto::WhenBatteryDischargedTo { id, .. } => id,
        InstructionDto::WhenBatteryChargedTo { id, .. } => id,
        InstructionDto::WhenPowerPluggedIn { id } => id,
        InstructionDto::WhenPowerUnplugged { id } => id,
        InstructionDto::OpenApp { id, .. } => id,
        InstructionDto::CloseApp { id, .. } => id,
        InstructionDto::SetVariable { id, .. } => id,
        InstructionDto::ChangeVariable { id, .. } => id,
        InstructionDto::BlockHeader { id, .. } => id,
        InstructionDto::CallBlock { id, .. } => id,
        InstructionDto::Return { id, .. } => id,
        InstructionDto::If { id, .. } => id,
        InstructionDto::IfElse { id, .. } => id,
        InstructionDto::Repeat { id, .. } => id,
        InstructionDto::Forever { id, .. } => id,
        InstructionDto::While { id, .. } => id,
        InstructionDto::EscapeLoop { id } => id,
        InstructionDto::ContinueLoop { id } => id,
    };
    Some(Instruction { id: string_of(id.as_str()), kind })
}

/// What a body of wire shapes reads back as, in order; `None` when one of
/// them does not read back.
fn dtos_to_instructions(body: &Vec<InstructionDto>, known_keys: &Vec<String>, button_names: &Vec<String>) -> (r: Option<Vec<Instruction>>)
    requires
        button_names@.len() > 0,
    ensures
        r is Some <==> bodies_keys_known(body@, known_keys@),
        r matches Some(v) ==> inss_of(body@, v@, button_names@),
    decreases body@,
{
    let n = body.len();
    let mut out: Vec<Instruction> = Vec::new();
    let mut i: usize = 0;
    while i < n
        invariant
            n == body@.len(),
            i <= n,
            out@.len() == i,
            forall|k: int| 0 <= k < i ==> keys_known(#[trigger] body@[k], known_keys@),
            forall|k: int| 0 <= k < i ==> ins_of(#[trigger] body@[k], out@[k], button_names@),
            button_names@.len() > 0,
        decreases n - i,
    {
        assert(decreases_to!(body@ => body@[i as int]));
        match dto_to_instruction(&body[i], known_keys, button_names) {
            Some(x) => out.push(x),
            None => {
                assert(!keys_known(body@[i as int], known_keys@));
                return None;
            },
        }
        i = i + 1;
    }
    Some(out)
}


/// One strand as the frontend sees it.
pub struct StrandDto {
    pub id: String,
    pub x: i32,
    pub y: i32,
    pub instructions: Vec<InstructionDto>,
}

/// The wire shape of a strand: its id and position, and its instructions
/// converted in order; `None` when one of them has no wire shape.
pub fn strand_to_dto(strand: &crate::instruction::Strand) -> (r: Option<StrandDto>)
    ensures
        match r {
            Some(d) => d.id@ == strand.id@ && d.x == strand.x && d.y == strand.y && dtos_of(
                strand.instructions@,
                d.instructions@,
            ),
            None => !all_have_dto(strand.instructions@),
        },
{
    match bodies_to_dto(&strand.instructions) {
        Some(instructions) => Some(StrandDto {
            id: string_of(strand.id.as_str()),
            x: strand.x,
            y: strand.y,
            instructions,
        }),
        None => None,
    }
}

} // verus!
