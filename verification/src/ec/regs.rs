//! What each feature reads from the registers, and which write each setting
//! makes, as functions of the firmware layout and the register values.

use vstd::prelude::*;

use super::{fault, mode_of_value, spec_addr, value_of_mode, EcError, Fault, FwField, MethodData};
use crate::fw::Addr;
use crate::models::MethodTy;
use crate::ec_sys::{span_fits, EcSysError};
use crate::fw::{Curve, WmiVer};
use crate::models::Fans;
use vstd::utf8::{decode_utf8, valid_utf8};
use crate::fw::{
    spec_bit_set, spec_set_bit_state, BatteryMode, CoolerBoost, FanMode, FwConfig, KeyDirection,
    Led, ShiftMode, SuperBattery, Webcam,
};

verus! {

/// A write of `data` from register `addr` on.
pub type Write = (u8, Seq<u8>);

/// The write that sets `bit` of register `a` to `state`.
pub open spec fn bit_write(mem: Seq<u8>, a: u8, bit: crate::fw::Bit, state: bool) -> Write {
    (a, seq![spec_set_bit_state(mem[a as int], bit, state)])
}

//
// Shift mode
//

pub open spec fn shift_mode_in(fw: FwConfig, mem: Seq<u8>) -> Result<ShiftMode, EcError> {
    match spec_addr(fw.shift_mode.addr, "shift_mode") {
        Err(e) => Err(e),
        Ok(a) => match mode_of_value(fw.shift_mode.modes@, mem[a as int]) {
            Some(m) => Ok(m),
            None => Err(fault(Fault::InvalidShiftMode { val: mem[a as int] })),
        },
    }
}

pub open spec fn set_shift_mode_in(fw: FwConfig, mode: ShiftMode) -> Result<Write, EcError> {
    match spec_addr(fw.shift_mode.addr, "set_shift_mode") {
        Err(e) => Err(e),
        Ok(a) => match value_of_mode(fw.shift_mode.modes@, mode) {
            Some(v) => Ok((a, seq![v])),
            None => Err(fault(Fault::ShiftModeNotSupported { mode })),
        },
    }
}

//
// Battery
//

/// The charge mode that a charge control register value encodes: the end
/// threshold with bit 7 set.
pub open spec fn battery_mode_of(val: u8) -> Result<BatteryMode, EcError> {
    if 0x8A <= val <= 0xE4 {
        Ok(BatteryMode::spec_from_end(val - 0x80).unwrap())
    } else {
        Err(fault(Fault::InvalidBatteryMode { val }))
    }
}

pub open spec fn battery_mode_in(fw: FwConfig, mem: Seq<u8>) -> Result<BatteryMode, EcError> {
    match spec_addr(fw.charge_control_addr, "battery_mode") {
        Err(e) => Err(e),
        Ok(a) => battery_mode_of(mem[a as int]),
    }
}

pub open spec fn set_battery_mode_in(fw: FwConfig, mode: BatteryMode) -> Result<Write, EcError> {
    match spec_addr(fw.charge_control_addr, "set_battery_mode") {
        Err(e) => Err(e),
        Ok(a) => Ok((a, seq![(mode.spec_end() + 0x80) as u8])),
    }
}

pub open spec fn super_battery_in(fw: FwConfig, mem: Seq<u8>) -> Result<SuperBattery, EcError> {
    match spec_addr(fw.super_battery.addr, "super_battery") {
        Err(e) => Err(e),
        Ok(a) => Ok(
            if mem[a as int] & fw.super_battery.mask == fw.super_battery.mask {
                SuperBattery::On
            } else {
                SuperBattery::Off
            },
        ),
    }
}

pub open spec fn set_super_battery_in(fw: FwConfig, mem: Seq<u8>, kind: SuperBattery) -> Result<
    Write,
    EcError,
> {
    match spec_addr(fw.super_battery.addr, "set_super_battery") {
        Err(e) => Err(e),
        Ok(a) => Ok(
            (
                a,
                seq![
                    match kind {
                        SuperBattery::Off => mem[a as int] & !fw.super_battery.mask,
                        SuperBattery::On => mem[a as int] | fw.super_battery.mask,
                    },
                ],
            ),
        ),
    }
}

//
// Fan mode
//

pub open spec fn fan_mode_in(fw: FwConfig, mem: Seq<u8>) -> Result<FanMode, EcError> {
    match spec_addr(fw.fan_mode.addr, "fan_mode") {
        Err(e) => Err(e),
        Ok(a) => match mode_of_value(fw.fan_mode.modes@, mem[a as int]) {
            Some(m) => Ok(m),
            None => Err(fault(Fault::InvalidFanMode { val: mem[a as int] })),
        },
    }
}

pub open spec fn set_fan_mode_in(fw: FwConfig, mode: FanMode) -> Result<Write, EcError> {
    match spec_addr(fw.fan_mode.addr, "set_fan_mode") {
        Err(e) => Err(e),
        Ok(a) => match value_of_mode(fw.fan_mode.modes@, mode) {
            Some(v) => Ok((a, seq![v])),
            None => Err(fault(Fault::FanModeNotSupported { mode })),
        },
    }
}

//
// Webcam
//

pub open spec fn webcam_of(on: bool) -> Webcam {
    if on {
        Webcam::On
    } else {
        Webcam::Off
    }
}

pub open spec fn webcam_in(fw: FwConfig, mem: Seq<u8>) -> Result<Webcam, EcError> {
    match spec_addr(fw.webcam.addr, "webcam") {
        Err(e) => Err(e),
        Ok(a) => Ok(webcam_of(spec_bit_set(mem[a as int], fw.webcam.bit))),
    }
}

/// The block register holds the opposite of the webcam state.
pub open spec fn webcam_block_in(fw: FwConfig, mem: Seq<u8>) -> Result<Webcam, EcError> {
    match spec_addr(fw.webcam.block_addr, "webcam_block") {
        Err(e) => Err(e),
        Ok(a) => Ok(webcam_of(!spec_bit_set(mem[a as int], fw.webcam.bit))),
    }
}

pub open spec fn set_webcam_in(fw: FwConfig, mem: Seq<u8>, state: Webcam) -> Result<
    Write,
    EcError,
> {
    match spec_addr(fw.webcam.addr, "set_webcam") {
        Err(e) => Err(e),
        Ok(a) => Ok(bit_write(mem, a, fw.webcam.bit, state is On)),
    }
}

pub open spec fn set_webcam_block_in(fw: FwConfig, mem: Seq<u8>, state: Webcam) -> Result<
    Write,
    EcError,
> {
    match spec_addr(fw.webcam.block_addr, "set_webcam_block") {
        Err(e) => Err(e),
        Ok(a) => Ok(bit_write(mem, a, fw.webcam.bit, !(state is On))),
    }
}

//
// Cooler boost
//

pub open spec fn cooler_boost_in(fw: FwConfig, mem: Seq<u8>) -> Result<CoolerBoost, EcError> {
    match spec_addr(fw.cooler_boost.addr, "cooler_boost") {
        Err(e) => Err(e),
        Ok(a) => Ok(
            if spec_bit_set(mem[a as int], fw.cooler_boost.bit) {
                CoolerBoost::On
            } else {
                CoolerBoost::Off
            },
        ),
    }
}

pub open spec fn set_cooler_boost_in(fw: FwConfig, mem: Seq<u8>, state: CoolerBoost) -> Result<
    Write,
    EcError,
> {
    match spec_addr(fw.cooler_boost.addr, "set_cooler_boost") {
        Err(e) => Err(e),
        Ok(a) => Ok(bit_write(mem, a, fw.cooler_boost.bit, state is On)),
    }
}

//
// Fn / Win key swap
//

pub open spec fn key_of(left: bool) -> KeyDirection {
    if left {
        KeyDirection::Left
    } else {
        KeyDirection::Right
    }
}

/// The swap bit, corrected for laptops that store it inverted, tells where
/// the win key is; the fn key is on the other side.
pub open spec fn fn_key_in(fw: FwConfig, mem: Seq<u8>) -> Result<KeyDirection, EcError> {
    match spec_addr(fw.fn_win_swap.addr, "fn_key") {
        Err(e) => Err(e),
        Ok(a) => Ok(key_of(!(spec_bit_set(mem[a as int], fw.fn_win_swap.bit) ^ fw.fn_win_swap.invert))),
    }
}

pub open spec fn win_key_in(fw: FwConfig, mem: Seq<u8>) -> Result<KeyDirection, EcError> {
    match spec_addr(fw.fn_win_swap.addr, "win_key") {
        Err(e) => Err(e),
        Ok(a) => Ok(key_of(spec_bit_set(mem[a as int], fw.fn_win_swap.bit) ^ fw.fn_win_swap.invert)),
    }
}

pub open spec fn set_fn_key_in(fw: FwConfig, mem: Seq<u8>, dir: KeyDirection) -> Result<
    Write,
    EcError,
> {
    match spec_addr(fw.fn_win_swap.addr, "set_fn_key") {
        Err(e) => Err(e),
        Ok(a) => Ok(
            bit_write(mem, a, fw.fn_win_swap.bit, !((dir is Left) ^ fw.fn_win_swap.invert)),
        ),
    }
}

pub open spec fn set_win_key_in(fw: FwConfig, mem: Seq<u8>, dir: KeyDirection) -> Result<
    Write,
    EcError,
> {
    match spec_addr(fw.fn_win_swap.addr, "set_win_key") {
        Err(e) => Err(e),
        Ok(a) => Ok(bit_write(mem, a, fw.fn_win_swap.bit, (dir is Left) ^ fw.fn_win_swap.invert)),
    }
}

//
// LEDs
//

pub open spec fn led_of(on: bool) -> Led {
    if on {
        Led::On
    } else {
        Led::Off
    }
}

pub open spec fn mic_mute_led_in(fw: FwConfig, mem: Seq<u8>) -> Result<Led, EcError> {
    match spec_addr(fw.leds.mic_mute_led_addr, "mic_mute_led") {
        Err(e) => Err(e),
        Ok(a) => Ok(led_of(spec_bit_set(mem[a as int], fw.leds.bit))),
    }
}

pub open spec fn mute_led_in(fw: FwConfig, mem: Seq<u8>) -> Result<Led, EcError> {
    match spec_addr(fw.leds.mute_led_addr, "mute_led") {
        Err(e) => Err(e),
        Ok(a) => Ok(led_of(spec_bit_set(mem[a as int], fw.leds.bit))),
    }
}

pub open spec fn set_mic_mute_led_in(fw: FwConfig, mem: Seq<u8>, state: Led) -> Result<
    Write,
    EcError,
> {
    match spec_addr(fw.leds.mic_mute_led_addr, "set_mic_mute_led") {
        Err(e) => Err(e),
        Ok(a) => Ok(bit_write(mem, a, fw.leds.bit, state is On)),
    }
}

pub open spec fn set_mute_led_in(fw: FwConfig, mem: Seq<u8>, state: Led) -> Result<
    Write,
    EcError,
> {
    match spec_addr(fw.leds.mute_led_addr, "set_mute_led") {
        Err(e) => Err(e),
        Ok(a) => Ok(bit_write(mem, a, fw.leds.bit, state is On)),
    }
}

//
// Realtime sensors
//

/// The value of the register at `addr`, or the error naming `name`.
pub open spec fn byte_in(mem: Seq<u8>, addr: crate::fw::Addr, name: &'static str) -> Result<
    u8,
    EcError,
> {
    match spec_addr(addr, name) {
        Err(e) => Err(e),
        Ok(a) => Ok(mem[a as int]),
    }
}


//
// Firmware text
//

/// The text of `len` registers from `addr` on, if they are valid UTF-8.
pub open spec fn fw_text_in(mem: Seq<u8>, addr: u8, len: usize, field: FwField) -> Result<
    Seq<char>,
    EcError,
> {
    let b = mem.subrange(addr as int, addr + len);
    if valid_utf8(b) {
        Ok(decode_utf8(b))
    } else {
        Err(fault(Fault::NonUtf8 { field }))
    }
}

//
// Fans
//

/// The fan's name, as the error for a missing fan gives it.
pub open spec fn fan_name(fan: Fans) -> &'static str {
    match fan {
        Fans::One => "One",
        Fans::Two => "Two",
        Fans::Three => "Three",
        Fans::Four => "Four",
    }
}

/// The first of the two registers of the fan's speed.
pub open spec fn fan_addr(fw: FwConfig, fan: Fans) -> u8 {
    match fan {
        Fans::One => fw.fan_rpm.fan1_addr,
        Fans::Two => fw.fan_rpm.fan2_addr,
        Fans::Three => fw.fan_rpm.fan3_addr,
        Fans::Four => fw.fan_rpm.fan4_addr,
    }
}

/// The speed that a big-endian raw value `hi`, `lo` stands for:
/// 480000 / raw, or 0 where raw is 0, taken modulo 2^16.
pub open spec fn rpm_of(hi: u8, lo: u8) -> u16 {
    let raw: int = hi * 256 + lo;
    if raw == 0 {
        0
    } else {
        (480000int / raw) as u16
    }
}

/// The error for a span of registers that does not fit.
pub open spec fn seq_fault(op: &'static str, call: &'static str, addr: u8, len: usize) -> EcError {
    EcError::Whatever {
        message: Fault::SeqAccess { op, call },
        source: Some(EcSysError::Overflow { addr, len }),
    }
}

pub open spec fn fan_rpm_in(fw: FwConfig, mem: Seq<u8>, fan: Fans) -> Result<u16, EcError> {
    let a = fan_addr(fw, fan);
    if span_fits(a, 2) {
        Ok(rpm_of(mem[a as int], mem[a + 1]))
    } else {
        Err(seq_fault("fan_rpm", "ec_read", a, 2))
    }
}


//
// Curves (WMI2 only)
//

/// The `len` bytes of a curve, read from the registers.
pub open spec fn curve_in(fw: FwConfig, mem: Seq<u8>, curve: Curve, name: &'static str, len: usize) -> Result<
    Seq<u8>,
    EcError,
> {
    if fw.ver != WmiVer::Wmi2 {
        Err(fault(Fault::OnlyWmi2))
    } else {
        match spec_addr(curve.addr, name) {
            Err(e) => Err(e),
            Ok(a) => if span_fits(a, len as nat) {
                Ok(mem.subrange(a as int, a + len))
            } else {
                Err(seq_fault("read_curve", "ec_read_seq", a, len))
            },
        }
    }
}

/// The write that stores the curve bytes `bytes`.
pub open spec fn set_curve_in(fw: FwConfig, curve: Curve, name: &'static str, bytes: Seq<u8>) -> Result<
    Write,
    EcError,
> {
    if fw.ver != WmiVer::Wmi2 {
        Err(fault(Fault::OnlyWmi2))
    } else {
        match spec_addr(curve.addr, name) {
            Err(e) => Err(e),
            Ok(a) => if span_fits(a, bytes.len()) {
                Ok((a, bytes))
            } else {
                Err(seq_fault("set_curve", "ec_write_seq", a, bytes.len() as usize))
            },
        }
    }
}

pub open spec fn curve6_in(fw: FwConfig, mem: Seq<u8>, curve: Curve, name: &'static str) -> Result<
    crate::fw::Curve6,
    EcError,
> {
    match curve_in(fw, mem, curve, name, 6) {
        Ok(b) => Ok(crate::fw::Curve6::spec_from_bytes(b)),
        Err(e) => Err(e),
    }
}

pub open spec fn curve7_in(fw: FwConfig, mem: Seq<u8>, curve: Curve, name: &'static str) -> Result<
    crate::fw::Curve7,
    EcError,
> {
    match curve_in(fw, mem, curve, name, 7) {
        Ok(b) => Ok(crate::fw::Curve7::spec_from_bytes(b)),
        Err(e) => Err(e),
    }
}

//
// Model methods
//

/// `d` is what capability `t` reads at `addr`: the bit (flipped where the
/// capability inverts it), the byte, or the span of bytes.
pub open spec fn method_data_in(mem: Seq<u8>, addr: Addr, t: MethodTy, d: MethodData) -> bool {
    match t {
        MethodTy::ReadBit { bit, invert } => addr matches Addr::Single(a) && d == MethodData::Bit(
            spec_bit_set(mem[a as int], bit) != invert,
        ),
        MethodTy::Read => addr matches Addr::Single(a) && d == MethodData::Byte(mem[a as int]),
        MethodTy::ReadRange => addr matches Addr::Range(s, e) && d matches MethodData::Range(v)
            && v@ == mem.subrange(s as int, e + 1),
        _ => false,
    }
}

/// The write that capability `t` makes of `d` at `addr`, or `None` where the
/// data does not suit the capability (a span must be filled exactly).
pub open spec fn method_write_in(mem: Seq<u8>, addr: Addr, t: MethodTy, d: MethodData) -> Option<Write> {
    match (t, addr, d) {
        (MethodTy::WriteBit { bit, invert }, Addr::Single(a), MethodData::Bit(b)) => Some(
            bit_write(mem, a, bit, b != invert),
        ),
        (MethodTy::Write, Addr::Single(a), MethodData::Byte(v)) => Some((a, seq![v])),
        (MethodTy::WriteRange, Addr::Range(s, e), MethodData::Range(v)) => if v@.len() == e - s + 1 {
            Some((s, v@))
        } else {
            None
        },
        _ => None,
    }
}

} // verus!
