//! Field ids: what the frontend calls each value slot on an instruction.
//! A field id travels as its string form, which is what the frontend sends.

use vstd::prelude::*;
use vstd::string::*;
use crate::text::{
    decimal, lemma_parse_decimal, parse_usize, parse_usize_spec, push_all, push_decimal,
    starts_with, str_eq, string_of,
};

verus! {

/// One addressable value slot on an instruction.
#[derive(Debug, Clone, Copy, PartialEq, Eq, Hash, Structural)]
pub enum FieldId {
    WaitDuration,
    MoveMouseX,
    MoveMouseY,
    ScrollAmount,
    TextValue,
    SetVariableValue,
    ChangeVariableValue,
    AddToListValue,
    DeleteOfListIndex,
    ShiftListAmount,
    InsertIntoListValue,
    InsertIntoListIndex,
    ReplaceItemOfListIndex,
    ReplaceItemOfListValue,
    ReturnValue,
    CallArg(usize),
    Condition,
    RepeatCount,
    BatteryDischargeThreshold,
    BatteryChargeThreshold,
}

/// Mouse coordinates, scroll amounts and the battery-percentage thresholds
/// are integer-only; everything else allows decimals.
pub open spec fn spec_requires_integer(f: FieldId) -> bool {
    match f {
        FieldId::MoveMouseX | FieldId::MoveMouseY | FieldId::ScrollAmount
        | FieldId::BatteryDischargeThreshold | FieldId::BatteryChargeThreshold => true,
        _ => false,
    }
}

/// The prefix of a call-argument field id's string form.
pub open spec fn call_arg_prefix() -> Seq<char> {
    "CallArg:"@
}

/// The string form of a field id.
pub open spec fn field_text(f: FieldId) -> Seq<char> {
    match f {
        FieldId::WaitDuration => "WaitDuration"@,
        FieldId::MoveMouseX => "MoveMouseX"@,
        FieldId::MoveMouseY => "MoveMouseY"@,
        FieldId::ScrollAmount => "ScrollAmount"@,
        FieldId::TextValue => "TextValue"@,
        FieldId::SetVariableValue => "SetVariableValue"@,
        FieldId::ChangeVariableValue => "ChangeVariableValue"@,
        FieldId::AddToListValue => "AddToListValue"@,
        FieldId::DeleteOfListIndex => "DeleteOfListIndex"@,
        FieldId::ShiftListAmount => "ShiftListAmount"@,
        FieldId::InsertIntoListValue => "InsertIntoListValue"@,
        FieldId::InsertIntoListIndex => "InsertIntoListIndex"@,
        FieldId::ReplaceItemOfListIndex => "ReplaceItemOfListIndex"@,
        FieldId::ReplaceItemOfListValue => "ReplaceItemOfListValue"@,
        FieldId::ReturnValue => "ReturnValue"@,
        FieldId::CallArg(i) => call_arg_prefix() + decimal(i as nat),
        FieldId::Condition => "Condition"@,
        FieldId::RepeatCount => "RepeatCount"@,
        FieldId::BatteryDischargeThreshold => "BatteryDischargeThreshold"@,
        FieldId::BatteryChargeThreshold => "BatteryChargeThreshold"@,
    }
}

/// The field id a string names, if any: an exact name, or `CallArg:`
/// followed by an unsigned integer as `usize::from_str` reads it.
pub open spec fn parse_field(s: Seq<char>) -> Option<FieldId> {
    if s == "WaitDuration"@ {
        Some(FieldId::WaitDuration)
    } else if s == "MoveMouseX"@ {
        Some(FieldId::MoveMouseX)
    } else if s == "MoveMouseY"@ {
        Some(FieldId::MoveMouseY)
    } else if s == "ScrollAmount"@ {
        Some(FieldId::ScrollAmount)
    } else if s == "TextValue"@ {
        Some(FieldId::TextValue)
    } else if s == "SetVariableValue"@ {
        Some(FieldId::SetVariableValue)
    } else if s == "ChangeVariableValue"@ {
        Some(FieldId::ChangeVariableValue)
    } else if s == "AddToListValue"@ {
        Some(FieldId::AddToListValue)
    } else if s == "DeleteOfListIndex"@ {
        Some(FieldId::DeleteOfListIndex)
    } else if s == "ShiftListAmount"@ {
        Some(FieldId::ShiftListAmount)
    } else if s == "InsertIntoListValue"@ {
        Some(FieldId::InsertIntoListValue)
    } else if s == "InsertIntoListIndex"@ {
        Some(FieldId::InsertIntoListIndex)
    } else if s == "ReplaceItemOfListIndex"@ {
        Some(FieldId::ReplaceItemOfListIndex)
    } else if s == "ReplaceItemOfListValue"@ {
        Some(FieldId::ReplaceItemOfListValue)
    } else if s == "ReturnValue"@ {
        Some(FieldId::ReturnValue)
    } else if s == "Condition"@ {
        Some(FieldId::Condition)
    } else if s == "RepeatCount"@ {
        Some(FieldId::RepeatCount)
    } else if s == "BatteryDischargeThreshold"@ {
        Some(FieldId::BatteryDischargeThreshold)
    } else if s == "BatteryChargeThreshold"@ {
        Some(FieldId::BatteryChargeThreshold)
    } else if s.len() >= 8 && s.subrange(0, 8) == call_arg_prefix() {
        match parse_usize_spec(s.subrange(8, s.len() as int)) {
            Some(i) => Some(FieldId::CallArg(i)),
            None => None,
        }
    } else {
        None
    }
}

/// The message a string that names no field id is rejected with.
pub open spec fn unknown_field_message(s: Seq<char>) -> Seq<char> {
    "Unknown FieldId: "@ + s
}

impl FieldId {
    /// Whether values typed into this field must be whole numbers.
    pub fn requires_integer(self) -> (b: bool)
        ensures
            b == spec_requires_integer(self),
    {
        match self {
            FieldId::MoveMouseX | FieldId::MoveMouseY | FieldId::ScrollAmount
            | FieldId::BatteryDischargeThreshold | FieldId::BatteryChargeThreshold => true,
            _ => false,
        }
    }

    /// The string form the frontend uses for this field.
    pub fn to_string(&self) -> (s: String)
        ensures
            s@ == field_text(*self),
    {
        match self {
            FieldId::WaitDuration => string_of("WaitDuration"),
            FieldId::MoveMouseX => string_of("MoveMouseX"),
            FieldId::MoveMouseY => string_of("MoveMouseY"),
            FieldId::ScrollAmount => string_of("ScrollAmount"),
            FieldId::TextValue => string_of("TextValue"),
            FieldId::SetVariableValue => string_of("SetVariableValue"),
            FieldId::ChangeVariableValue => string_of("ChangeVariableValue"),
            FieldId::AddToListValue => string_of("AddToListValue"),
            FieldId::DeleteOfListIndex => string_of("DeleteOfListIndex"),
            FieldId::ShiftListAmount => string_of("ShiftListAmount"),
            FieldId::InsertIntoListValue => string_of("InsertIntoListValue"),
            FieldId::InsertIntoListIndex => string_of("InsertIntoListIndex"),
            FieldId::ReplaceItemOfListIndex => string_of("ReplaceItemOfListIndex"),
            FieldId::ReplaceItemOfListValue => string_of("ReplaceItemOfListValue"),
            FieldId::ReturnValue => string_of("ReturnValue"),
            FieldId::CallArg(i) => {
                let mut s = string_of("CallArg:");
                push_decimal(&mut s, *i);
                s
            },
            FieldId::Condition => string_of("Condition"),
            FieldId::RepeatCount => string_of("RepeatCount"),
            FieldId::BatteryDischargeThreshold => string_of("BatteryDischargeThreshold"),
            FieldId::BatteryChargeThreshold => string_of("BatteryChargeThreshold"),
        }
    }

    /// Reads a field id from its string form.
    pub fn from_text(s: &str) -> (r: Result<FieldId, String>)
        ensures
            match parse_field(s@) {
                Some(f) => r == Ok::<FieldId, String>(f),
                None => r matches Err(e) && e@ == unknown_field_message(s@),
            },
    {
        if str_eq(s, "WaitDuration") {
            return Ok(FieldId::WaitDuration);
        }
        if str_eq(s, "MoveMouseX") {
            return Ok(FieldId::MoveMouseX);
        }
        if str_eq(s, "MoveMouseY") {
            return Ok(FieldId::MoveMouseY);
        }
        if str_eq(s, "ScrollAmount") {
            return Ok(FieldId::ScrollAmount);
        }
        if str_eq(s, "TextValue") {
            return Ok(FieldId::TextValue);
        }
        if str_eq(s, "SetVariableValue") {
            return Ok(FieldId::SetVariableValue);
        }
        if str_eq(s, "ChangeVariableValue") {
            return Ok(FieldId::ChangeVariableValue);
        }
        if str_eq(s, "AddToListValue") {
            return Ok(FieldId::AddToListValue);
        }
        if str_eq(s, "DeleteOfListIndex") {
            return Ok(FieldId::DeleteOfListIndex);
        }
        if str_eq(s, "ShiftListAmount") {
            return Ok(FieldId::ShiftListAmount);
        }
        if str_eq(s, "InsertIntoListValue") {
            return Ok(FieldId::InsertIntoListValue);
        }
        if str_eq(s, "InsertIntoListIndex") {
            return Ok(FieldId::InsertIntoListIndex);
        }
        if str_eq(s, "ReplaceItemOfListIndex") {
            return Ok(FieldId::ReplaceItemOfListIndex);
        }
        if str_eq(s, "ReplaceItemOfListValue") {
            return Ok(FieldId::ReplaceItemOfListValue);
        }
        if str_eq(s, "ReturnValue") {
            return Ok(FieldId::ReturnValue);
        }
        if str_eq(s, "Condition") {
            return Ok(FieldId::Condition);
        }
        if str_eq(s, "RepeatCount") {
            return Ok(FieldId::RepeatCount);
        }
        if str_eq(s, "BatteryDischargeThreshold") {
            return Ok(FieldId::BatteryDischargeThreshold);
        }
        if str_eq(s, "BatteryChargeThreshold") {
            return Ok(FieldId::BatteryChargeThreshold);
        }
        if starts_with(s, "CallArg:") {
            proof {
                reveal_strlit("CallArg:");
            }
            let n = s.unicode_len();
            let rest = s.substring_char(8, n);
            match parse_usize(rest) {
                Some(i) => {
                    return Ok(FieldId::CallArg(i));
                },
                None => {},
            }
        }
        proof {
            reveal_strlit("CallArg:");
        }
        let mut e = string_of("Unknown FieldId: ");
        push_all(&mut e, s);
        Err(e)
    }
}

impl std::str::FromStr for FieldId {
    type Err = String;

    fn from_str(s: &str) -> (r: Result<FieldId, String>)
        ensures
            match parse_field(s@) {
                Some(f) => r == Ok::<FieldId, String>(f),
                None => r matches Err(e) && e@ == unknown_field_message(s@),
            },
    {
        FieldId::from_text(s)
    }
}

/// A field id's string form reads back as the same field id, so the string
/// form names each field id unambiguously.
pub proof fn lemma_field_text_round_trip(f: FieldId)
    ensures
        parse_field(field_text(f)) == Some(f),
{
    reveal_strlit("WaitDuration");
    reveal_strlit("MoveMouseX");
    reveal_strlit("MoveMouseY");
    reveal_strlit("ScrollAmount");
    reveal_strlit("TextValue");
    reveal_strlit("SetVariableValue");
    reveal_strlit("ChangeVariableValue");
    reveal_strlit("AddToListValue");
    reveal_strlit("DeleteOfListIndex");
    reveal_strlit("ShiftListAmount");
    reveal_strlit("InsertIntoListValue");
    reveal_strlit("InsertIntoListIndex");
    reveal_strlit("ReplaceItemOfListIndex");
    reveal_strlit("ReplaceItemOfListValue");
    reveal_strlit("ReturnValue");
    reveal_strlit("Condition");
    reveal_strlit("RepeatCount");
    reveal_strlit("BatteryDischargeThreshold");
    reveal_strlit("BatteryChargeThreshold");
    reveal_strlit("CallArg:");
    match f {
        FieldId::CallArg(i) => {
            let s = field_text(f);
            crate::text::lemma_decimal_digits(i as nat);
            assert(s.subrange(0, 8) =~= call_arg_prefix());
            assert(s.subrange(8, s.len() as int) =~= decimal(i as nat));
            lemma_parse_decimal(i);
            assert(s != "WaitDuration"@) by { if s.len() == "WaitDuration"@.len() { assert(s[1] != "WaitDuration"@[1] || s[7] != "WaitDuration"@[7]); } }
            assert(s != "MoveMouseX"@) by { if s.len() == "MoveMouseX"@.len() { assert(s[1] != "MoveMouseX"@[1] || s[7] != "MoveMouseX"@[7]); } }
            assert(s != "MoveMouseY"@) by { if s.len() == "MoveMouseY"@.len() { assert(s[1] != "MoveMouseY"@[1] || s[7] != "MoveMouseY"@[7]); } }
            assert(s != "ScrollAmount"@) by { if s.len() == "ScrollAmount"@.len() { assert(s[1] != "ScrollAmount"@[1] || s[7] != "ScrollAmount"@[7]); } }
            assert(s != "TextValue"@) by { if s.len() == "TextValue"@.len() { assert(s[1] != "TextValue"@[1] || s[7] != "TextValue"@[7]); } }
            assert(s != "SetVariableValue"@) by { if s.len() == "SetVariableValue"@.len() { assert(s[1] != "SetVariableValue"@[1] || s[7] != "SetVariableValue"@[7]); } }
            assert(s != "ChangeVariableValue"@) by { if s.len() == "ChangeVariableValue"@.len() { assert(s[1] != "ChangeVariableValue"@[1] || s[7] != "ChangeVariableValue"@[7]); } }
            assert(s != "AddToListValue"@) by { if s.len() == "AddToListValue"@.len() { assert(s[1] != "AddToListValue"@[1] || s[7] != "AddToListValue"@[7]); } }
            assert(s != "DeleteOfListIndex"@) by { if s.len() == "DeleteOfListIndex"@.len() { assert(s[1] != "DeleteOfListIndex"@[1] || s[7] != "DeleteOfListIndex"@[7]); } }
            assert(s != "ShiftListAmount"@) by { if s.len() == "ShiftListAmount"@.len() { assert(s[1] != "ShiftListAmount"@[1] || s[7] != "ShiftListAmount"@[7]); } }
            assert(s != "InsertIntoListValue"@) by { if s.len() == "InsertIntoListValue"@.len() { assert(s[1] != "InsertIntoListValue"@[1] || s[7] != "InsertIntoListValue"@[7]); } }
            assert(s != "InsertIntoListIndex"@) by { if s.len() == "InsertIntoListIndex"@.len() { assert(s[1] != "InsertIntoListIndex"@[1] || s[7] != "InsertIntoListIndex"@[7]); } }
            assert(s != "ReplaceItemOfListIndex"@) by { if s.len() == "ReplaceItemOfListIndex"@.len() { assert(s[1] != "ReplaceItemOfListIndex"@[1] || s[7] != "ReplaceItemOfListIndex"@[7]); } }
            assert(s != "ReplaceItemOfListValue"@) by { if s.len() == "ReplaceItemOfListValue"@.len() { assert(s[1] != "ReplaceItemOfListValue"@[1] || s[7] != "ReplaceItemOfListValue"@[7]); } }
            assert(s != "ReturnValue"@) by { if s.len() == "ReturnValue"@.len() { assert(s[1] != "ReturnValue"@[1] || s[7] != "ReturnValue"@[7]); } }
            assert(s != "Condition"@) by { if s.len() == "Condition"@.len() { assert(s[1] != "Condition"@[1] || s[7] != "Condition"@[7]); } }
            assert(s != "RepeatCount"@) by { if s.len() == "RepeatCount"@.len() { assert(s[1] != "RepeatCount"@[1] || s[7] != "RepeatCount"@[7]); } }
            assert(s != "BatteryDischargeThreshold"@) by { if s.len() == "BatteryDischargeThreshold"@.len() { assert(s[1] != "BatteryDischargeThreshold"@[1] || s[7] != "BatteryDischargeThreshold"@[7]); } }
            assert(s != "BatteryChargeThreshold"@) by { if s.len() == "BatteryChargeThreshold"@.len() { assert(s[1] != "BatteryChargeThreshold"@[1] || s[7] != "BatteryChargeThreshold"@[7]); } }
        },
        _ => {},
    }
}

} // verus!
