//! The text of each fault, as the controller reports it.

use vstd::prelude::*;
use vstd::string::*;

use super::{Fault, FwField};
use crate::dump::{append_str, hex_char, hex_digit};
use crate::names::{
    fan_mode_name, method_op_name, shift_mode_name, spec_fan_mode_name, spec_method_op_name,
    spec_shift_mode_name,
};
use crate::text::push_char;

verus! {

/// The decimal digit of `n` (below 10).
pub open spec fn digit(n: int) -> char {
    (48 + n) as char
}

/// `v` in decimal, without leading zeros.
pub open spec fn decimal(v: u8) -> Seq<char> {
    if v >= 100 {
        seq![digit((v / 100) as int), digit(((v / 10) % 10) as int), digit((v % 10) as int)]
    } else if v >= 10 {
        seq![digit((v / 10) as int), digit((v % 10) as int)]
    } else {
        seq![digit(v as int)]
    }
}

/// `v` as `0x` and two upper-case hex digits.
pub open spec fn hex_byte(v: u8) -> Seq<char> {
    "0x"@ + seq![hex_digit((v / 16) as int), hex_digit((v % 16) as int)]
}

/// The name of the read that a firmware text field comes from.
pub open spec fn field_reader(f: FwField) -> Seq<char> {
    match f {
        FwField::Version => "fw_version"@,
        FwField::Date => "fw_date"@,
        FwField::Time => "fw_time"@,
    }
}

impl Fault {
    /// The text of the fault.
    pub open spec fn spec_message(&self) -> Seq<char> {
        match self {
            Fault::NonUtf8 { field } => field_reader(*field) + "() received non utf8 data"@,
            Fault::InvalidShiftMode { val } => "got "@ + hex_byte(*val) + ", but it does not represent valid shift mode"@,
            Fault::NullShiftMode => "shift mode cannot be null"@,
            Fault::ShiftModeNotSupported { mode } => spec_shift_mode_name(*mode)@ + " mode is not supported"@,
            Fault::InvalidBatteryMode { val } => "got invalid value: "@ + hex_byte(*val) + " ("@ + decimal(*val) + ")"@,
            Fault::InvalidFanMode { val } => "got invalid value: "@ + hex_byte(*val) + " ("@ + decimal(*val) + ")"@,
            Fault::NullFanMode => "fan mode cannot be null"@,
            Fault::FanModeNotSupported { mode } => spec_fan_mode_name(*mode)@ + " mode is not supported"@,
            Fault::OnlyWmi2 => "only wmi2 is supported"@,
            Fault::NoDgpu => "no dgpu available"@,
            Fault::SeqAccess { op, call } => op@ + "() failed to "@ + call@ + "()"@,
            Fault::NotARead { op } => spec_method_op_name(*op)@ + " is not a kind of read"@,
            Fault::NotAWrite { op } => spec_method_op_name(*op)@ + " is not a kind of write"@,
            Fault::NoModel => "model config does not exist"@,
            Fault::MethodNotFound { method } => "method "@ + method@ + "() not found"@,
            Fault::MissingCapability { method, op } => method@ + "() does not expose "@ + spec_method_op_name(*op)@ + " capability"@,
            Fault::DataMismatch { op } => spec_method_op_name(*op)@ + " does not take this data"@,
        }
    }

    /// The text of the fault.
    pub fn message(&self) -> (r: String)
        ensures
            r@ == self.spec_message(),
    {
        let mut s = String::new();
        match self {
            Fault::NonUtf8 { field } => {
                match field {
                    FwField::Version => append_str(&mut s, "fw_version"),
                    FwField::Date => append_str(&mut s, "fw_date"),
                    FwField::Time => append_str(&mut s, "fw_time"),
                }
                append_str(&mut s, "() received non utf8 data");
            },
            Fault::InvalidShiftMode { val } => {
                append_str(&mut s, "got ");
                append_hex(&mut s, *val);
                append_str(&mut s, ", but it does not represent valid shift mode");
            },
            Fault::NullShiftMode => append_str(&mut s, "shift mode cannot be null"),
            Fault::ShiftModeNotSupported { mode } => {
                append_str(&mut s, shift_mode_name(*mode));
                append_str(&mut s, " mode is not supported");
            },
            Fault::InvalidBatteryMode { val } | Fault::InvalidFanMode { val } => {
                append_str(&mut s, "got invalid value: ");
                append_hex(&mut s, *val);
                append_str(&mut s, " (");
                append_decimal(&mut s, *val);
                append_str(&mut s, ")");
            },
            Fault::NullFanMode => append_str(&mut s, "fan mode cannot be null"),
            Fault::FanModeNotSupported { mode } => {
                append_str(&mut s, fan_mode_name(*mode));
                append_str(&mut s, " mode is not supported");
            },
            Fault::OnlyWmi2 => append_str(&mut s, "only wmi2 is supported"),
            Fault::NoDgpu => append_str(&mut s, "no dgpu available"),
            Fault::SeqAccess { op, call } => {
                append_str(&mut s, op);
                append_str(&mut s, "() failed to ");
                append_str(&mut s, call);
                append_str(&mut s, "()");
            },
            Fault::NotARead { op } => {
                append_str(&mut s, method_op_name(*op));
                append_str(&mut s, " is not a kind of read");
            },
            Fault::NotAWrite { op } => {
                append_str(&mut s, method_op_name(*op));
                append_str(&mut s, " is not a kind of write");
            },
            Fault::NoModel => append_str(&mut s, "model config does not exist"),
            Fault::MethodNotFound { method } => {
                append_str(&mut s, "method ");
                append_str(&mut s, method.as_str());
                append_str(&mut s, "() not found");
            },
            Fault::MissingCapability { method, op } => {
                append_str(&mut s, method.as_str());
                append_str(&mut s, "() does not expose ");
                append_str(&mut s, method_op_name(*op));
                append_str(&mut s, " capability");
            },
            Fault::DataMismatch { op } => {
                append_str(&mut s, method_op_name(*op));
                append_str(&mut s, " does not take this data");
            },
        }
        assert(s@ =~= self.spec_message());
        s
    }
}

fn digit_char(n: u8) -> (c: char)
    requires
        n < 10,
    ensures
        c == digit(n as int),
{
    (48 + n) as char
}

fn append_decimal(s: &mut String, v: u8)
    ensures
        final(s)@ == old(s)@ + decimal(v),
{
    if v >= 100 {
        push_char(s, digit_char(v / 100));
        push_char(s, digit_char((v / 10) % 10));
        push_char(s, digit_char(v % 10));
    } else if v >= 10 {
        push_char(s, digit_char(v / 10));
        push_char(s, digit_char(v % 10));
    } else {
        push_char(s, digit_char(v));
    }
    assert(final(s)@ =~= old(s)@ + decimal(v));
}

fn append_hex(s: &mut String, v: u8)
    ensures
        final(s)@ == old(s)@ + hex_byte(v),
{
    append_str(s, "0x");
    push_char(s, hex_char(v / 16));
    push_char(s, hex_char(v % 16));
    assert(final(s)@ =~= old(s)@ + hex_byte(v));
}

} // verus!
