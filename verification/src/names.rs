//! The names under which modes, key sides and method operations are shown
//! and parsed: the variant names.

use vstd::prelude::*;

use crate::fw::{BatteryMode, FanMode, KeyDirection, ShiftMode};
use crate::models::MethodOp;
use crate::text::str_eq;

verus! {

/// The name of a ShiftMode.
pub open spec fn spec_shift_mode_name(m: ShiftMode) -> &'static str {
    match m {
        ShiftMode::ExtremePerformance => "ExtremePerformance",
        ShiftMode::Balanced => "Balanced",
        ShiftMode::SuperBattery => "SuperBattery",
        ShiftMode::Turbo => "Turbo",
        ShiftMode::Null => "Null",
    }
}

pub fn shift_mode_name(m: ShiftMode) -> (r: &'static str)
    ensures
        r == spec_shift_mode_name(m),
{
    match m {
        ShiftMode::ExtremePerformance => "ExtremePerformance",
        ShiftMode::Balanced => "Balanced",
        ShiftMode::SuperBattery => "SuperBattery",
        ShiftMode::Turbo => "Turbo",
        ShiftMode::Null => "Null",
    }
}

/// The ShiftMode named `name`, if any.
pub open spec fn spec_parse_shift_mode(name: Seq<char>) -> Option<ShiftMode> {
    if name == "ExtremePerformance"@ {
        Some(ShiftMode::ExtremePerformance)
    } else if name == "Balanced"@ {
        Some(ShiftMode::Balanced)
    } else if name == "SuperBattery"@ {
        Some(ShiftMode::SuperBattery)
    } else if name == "Turbo"@ {
        Some(ShiftMode::Turbo)
    } else if name == "Null"@ {
        Some(ShiftMode::Null)
    } else {
        None
    }
}

pub fn parse_shift_mode(name: &str) -> (r: Option<ShiftMode>)
    ensures
        r == spec_parse_shift_mode(name@),
{
    if str_eq(name, "ExtremePerformance") {
        Some(ShiftMode::ExtremePerformance)
    } else if str_eq(name, "Balanced") {
        Some(ShiftMode::Balanced)
    } else if str_eq(name, "SuperBattery") {
        Some(ShiftMode::SuperBattery)
    } else if str_eq(name, "Turbo") {
        Some(ShiftMode::Turbo)
    } else if str_eq(name, "Null") {
        Some(ShiftMode::Null)
    } else {
        None
    }
}

/// The name of a FanMode.
pub open spec fn spec_fan_mode_name(m: FanMode) -> &'static str {
    match m {
        FanMode::Auto => "Auto",
        FanMode::Silent => "Silent",
        FanMode::Advanced => "Advanced",
        FanMode::Null => "Null",
    }
}

pub fn fan_mode_name(m: FanMode) -> (r: &'static str)
    ensures
        r == spec_fan_mode_name(m),
{
    match m {
        FanMode::Auto => "Auto",
        FanMode::Silent => "Silent",
        FanMode::Advanced => "Advanced",
        FanMode::Null => "Null",
    }
}

/// The FanMode named `name`, if any.
pub open spec fn spec_parse_fan_mode(name: Seq<char>) -> Option<FanMode> {
    if name == "Auto"@ {
        Some(FanMode::Auto)
    } else if name == "Silent"@ {
        Some(FanMode::Silent)
    } else if name == "Advanced"@ {
        Some(FanMode::Advanced)
    } else if name == "Null"@ {
        Some(FanMode::Null)
    } else {
        None
    }
}

pub fn parse_fan_mode(name: &str) -> (r: Option<FanMode>)
    ensures
        r == spec_parse_fan_mode(name@),
{
    if str_eq(name, "Auto") {
        Some(FanMode::Auto)
    } else if str_eq(name, "Silent") {
        Some(FanMode::Silent)
    } else if str_eq(name, "Advanced") {
        Some(FanMode::Advanced)
    } else if str_eq(name, "Null") {
        Some(FanMode::Null)
    } else {
        None
    }
}

/// The name of a KeyDirection.
pub open spec fn spec_key_direction_name(m: KeyDirection) -> &'static str {
    match m {
        KeyDirection::Left => "Left",
        KeyDirection::Right => "Right",
    }
}

pub fn key_direction_name(m: KeyDirection) -> (r: &'static str)
    ensures
        r == spec_key_direction_name(m),
{
    match m {
        KeyDirection::Left => "Left",
        KeyDirection::Right => "Right",
    }
}

/// The KeyDirection named `name`, if any.
pub open spec fn spec_parse_key_direction(name: Seq<char>) -> Option<KeyDirection> {
    if name == "Left"@ {
        Some(KeyDirection::Left)
    } else if name == "Right"@ {
        Some(KeyDirection::Right)
    } else {
        None
    }
}

pub fn parse_key_direction(name: &str) -> (r: Option<KeyDirection>)
    ensures
        r == spec_parse_key_direction(name@),
{
    if str_eq(name, "Left") {
        Some(KeyDirection::Left)
    } else if str_eq(name, "Right") {
        Some(KeyDirection::Right)
    } else {
        None
    }
}

/// The name of a MethodOp.
pub open spec fn spec_method_op_name(m: MethodOp) -> &'static str {
    match m {
        MethodOp::ReadBit => "ReadBit",
        MethodOp::WriteBit => "WriteBit",
        MethodOp::Read => "Read",
        MethodOp::Write => "Write",
        MethodOp::ReadRange => "ReadRange",
        MethodOp::WriteRange => "WriteRange",
    }
}

pub fn method_op_name(m: MethodOp) -> (r: &'static str)
    ensures
        r == spec_method_op_name(m),
{
    match m {
        MethodOp::ReadBit => "ReadBit",
        MethodOp::WriteBit => "WriteBit",
        MethodOp::Read => "Read",
        MethodOp::Write => "Write",
        MethodOp::ReadRange => "ReadRange",
        MethodOp::WriteRange => "WriteRange",
    }
}

/// The MethodOp named `name`, if any.
pub open spec fn spec_parse_method_op(name: Seq<char>) -> Option<MethodOp> {
    if name == "ReadBit"@ {
        Some(MethodOp::ReadBit)
    } else if name == "WriteBit"@ {
        Some(MethodOp::WriteBit)
    } else if name == "Read"@ {
        Some(MethodOp::Read)
    } else if name == "Write"@ {
        Some(MethodOp::Write)
    } else if name == "ReadRange"@ {
        Some(MethodOp::ReadRange)
    } else if name == "WriteRange"@ {
        Some(MethodOp::WriteRange)
    } else {
        None
    }
}

pub fn parse_method_op(name: &str) -> (r: Option<MethodOp>)
    ensures
        r == spec_parse_method_op(name@),
{
    if str_eq(name, "ReadBit") {
        Some(MethodOp::ReadBit)
    } else if str_eq(name, "WriteBit") {
        Some(MethodOp::WriteBit)
    } else if str_eq(name, "Read") {
        Some(MethodOp::Read)
    } else if str_eq(name, "Write") {
        Some(MethodOp::Write)
    } else if str_eq(name, "ReadRange") {
        Some(MethodOp::ReadRange)
    } else if str_eq(name, "WriteRange") {
        Some(MethodOp::WriteRange)
    } else {
        None
    }
}

/// The name of a charge mode; a custom mode is shown as `Custom`.
pub open spec fn spec_battery_mode_name(m: BatteryMode) -> &'static str {
    match m {
        BatteryMode::Healthy => "Healthy",
        BatteryMode::Balanced => "Balanced",
        BatteryMode::Mobility => "Mobility",
        BatteryMode::Custom(_) => "Custom",
    }
}

pub fn battery_mode_name(m: BatteryMode) -> (r: &'static str)
    ensures
        r == spec_battery_mode_name(m),
{
    match m {
        BatteryMode::Healthy => "Healthy",
        BatteryMode::Balanced => "Balanced",
        BatteryMode::Mobility => "Mobility",
        BatteryMode::Custom(_) => "Custom",
    }
}

/// The named charge mode called `name`, if any; a custom mode is given by
/// its threshold, not by name.
pub open spec fn spec_parse_battery_mode(name: Seq<char>) -> Option<BatteryMode> {
    if name == "Healthy"@ {
        Some(BatteryMode::Healthy)
    } else if name == "Balanced"@ {
        Some(BatteryMode::Balanced)
    } else if name == "Mobility"@ {
        Some(BatteryMode::Mobility)
    } else {
        None
    }
}

pub fn parse_battery_mode(name: &str) -> (r: Option<BatteryMode>)
    ensures
        r == spec_parse_battery_mode(name@),
{
    if str_eq(name, "Healthy") {
        Some(BatteryMode::Healthy)
    } else if str_eq(name, "Balanced") {
        Some(BatteryMode::Balanced)
    } else if str_eq(name, "Mobility") {
        Some(BatteryMode::Mobility)
    } else {
        None
    }
}

/// A name parses back to what it names: for every mode and side, and for
/// the named charge modes.
pub proof fn lemma_names_roundtrip(s: ShiftMode, f: FanMode, k: KeyDirection, o: MethodOp, b: BatteryMode)
    ensures
        spec_parse_shift_mode(spec_shift_mode_name(s)@) == Some(s),
        spec_parse_fan_mode(spec_fan_mode_name(f)@) == Some(f),
        spec_parse_key_direction(spec_key_direction_name(k)@) == Some(k),
        spec_parse_method_op(spec_method_op_name(o)@) == Some(o),
        !(b is Custom) ==> spec_parse_battery_mode(spec_battery_mode_name(b)@) == Some(b),
{
    reveal_strlit("ExtremePerformance");
    reveal_strlit("Balanced");
    reveal_strlit("SuperBattery");
    reveal_strlit("Turbo");
    reveal_strlit("Null");
    reveal_strlit("Auto");
    reveal_strlit("Silent");
    reveal_strlit("Advanced");
    reveal_strlit("Left");
    reveal_strlit("Right");
    reveal_strlit("ReadBit");
    reveal_strlit("WriteBit");
    reveal_strlit("Read");
    reveal_strlit("Write");
    reveal_strlit("ReadRange");
    reveal_strlit("WriteRange");
    reveal_strlit("Healthy");
    reveal_strlit("Mobility");
    assert("ExtremePerformance"@.len() != "Balanced"@.len());
    assert("ExtremePerformance"@.len() != "SuperBattery"@.len());
    assert("ExtremePerformance"@.len() != "Turbo"@.len());
    assert("ExtremePerformance"@.len() != "Null"@.len());
    assert("Balanced"@.len() != "SuperBattery"@.len());
    assert("Balanced"@.len() != "Turbo"@.len());
    assert("Balanced"@.len() != "Null"@.len());
    assert("SuperBattery"@.len() != "Turbo"@.len());
    assert("SuperBattery"@.len() != "Null"@.len());
    assert("Turbo"@.len() != "Null"@.len());
    assert("Auto"@.len() != "Silent"@.len());
    assert("Auto"@.len() != "Advanced"@.len());
    assert("Auto"@[0] != "Null"@[0]);
    assert("Silent"@.len() != "Advanced"@.len());
    assert("Silent"@.len() != "Null"@.len());
    assert("Advanced"@.len() != "Null"@.len());
    assert("Left"@.len() != "Right"@.len());
    assert("ReadBit"@.len() != "WriteBit"@.len());
    assert("ReadBit"@.len() != "Read"@.len());
    assert("ReadBit"@.len() != "Write"@.len());
    assert("ReadBit"@.len() != "ReadRange"@.len());
    assert("ReadBit"@.len() != "WriteRange"@.len());
    assert("WriteBit"@.len() != "Read"@.len());
    assert("WriteBit"@.len() != "Write"@.len());
    assert("WriteBit"@.len() != "ReadRange"@.len());
    assert("WriteBit"@.len() != "WriteRange"@.len());
    assert("Read"@.len() != "Write"@.len());
    assert("Read"@.len() != "ReadRange"@.len());
    assert("Read"@.len() != "WriteRange"@.len());
    assert("Write"@.len() != "ReadRange"@.len());
    assert("Write"@.len() != "WriteRange"@.len());
    assert("ReadRange"@.len() != "WriteRange"@.len());
    assert("Healthy"@.len() != "Balanced"@.len());
    assert("Healthy"@.len() != "Mobility"@.len());
    assert("Balanced"@[0] != "Mobility"@[0]);
}

} // verus!
