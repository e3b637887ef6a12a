//! The controller: each laptop feature read from and written to the
//! registers that the firmware layout names.

use vstd::prelude::*;
use vstd::utf8::*;

use crate::ec_sys::{span_fits, write_block, EcSys, EcSysError, EC_SIZE};
use crate::fw::{
    spec_bit_set, spec_set_bit_state, Addr, BatteryMode, Bit, BitSet, CoolerBoost, Curve6, Curve7,
    FanMode, FwConfig, FwRegistry, KeyDirection, Led, ShiftMode, SuperBattery, Webcam, WmiVer,
    FW_DATE_ADDR, FW_DATE_LEN, FW_TIME_ADDR, FW_TIME_LEN, FW_VERSION_ADDR, FW_VERSION_LEN,
};
use crate::models::{
    capability_index, find_capability, find_method, method_index, Fans, Method as ModelMethod,
    MethodOp, MethodTy, ModelConfig,
};
use crate::text::{str_eq, utf8_to_string};

use regs::{
    battery_mode_in, battery_mode_of, bit_write, byte_in, cooler_boost_in, fan_addr, fan_mode_in,
    fan_name, fan_rpm_in, fn_key_in, fw_text_in, key_of, led_of, mic_mute_led_in, mute_led_in,
    rpm_of, seq_fault, set_battery_mode_in, set_cooler_boost_in, set_fan_mode_in, set_fn_key_in,
    set_mic_mute_led_in, set_mute_led_in, set_shift_mode_in, set_super_battery_in,
    set_webcam_block_in, set_webcam_in, set_win_key_in, shift_mode_in, super_battery_in,
    webcam_block_in, webcam_in, webcam_of, win_key_in, Write, curve_in, set_curve_in, curve6_in,
    curve7_in, method_data_in, method_write_in,
};

pub mod regs;
pub mod laws;
pub mod messages;

verus! {

/// A firmware text field.
#[derive(Debug, Copy, Clone, PartialEq, Eq, Structural)]
pub enum FwField {
    Version,
    Date,
    Time,
}

/// Why an operation was refused, beyond a missing feature.
#[derive(Debug, Clone)]
pub enum Fault {
    /// The firmware text field is not valid UTF-8.
    NonUtf8 { field: FwField },
    /// The shift mode register holds a value that no mode has.
    InvalidShiftMode { val: u8 },
    /// The `Null` shift mode cannot be set.
    NullShiftMode,
    /// The layout has no value for this shift mode.
    ShiftModeNotSupported { mode: ShiftMode },
    /// The charge control register holds a value outside `0x8A..=0xE4`.
    InvalidBatteryMode { val: u8 },
    /// The fan mode register holds a value that no mode has.
    InvalidFanMode { val: u8 },
    /// The `Null` fan mode cannot be set.
    NullFanMode,
    /// The layout has no value for this fan mode.
    FanModeNotSupported { mode: FanMode },
    /// Curves are only known for WMI2 layouts.
    OnlyWmi2,
    /// The model has no discrete GPU.
    NoDgpu,
    /// A span of registers could not be read or written by `op`, through the
    /// register access `call`.
    SeqAccess { op: &'static str, call: &'static str },
    /// The operation is not a read.
    NotARead { op: MethodOp },
    /// The operation is not a write.
    NotAWrite { op: MethodOp },
    /// No model config is known.
    NoModel,
    /// The model has no method of this name.
    MethodNotFound { method: String },
    /// The method does not offer this operation.
    MissingCapability { method: String, op: MethodOp },
    /// The data does not fit the operation.
    DataMismatch { op: MethodOp },
}

#[derive(Debug)]
pub enum EcError {
    /// The controller is only reachable by root.
    RootRequired,
    /// The feature `name` is not available here.
    Unsupported { name: &'static str },
    EcSys { source: EcSysError },
    Whatever { message: Fault, source: Option<EcSysError> },
}

/// The error for a feature that is not available.
pub open spec fn unsupported(name: &'static str) -> EcError {
    EcError::Unsupported { name }
}

/// The error that carries `fault` and no source.
pub open spec fn fault(message: Fault) -> EcError {
    EcError::Whatever { message, source: None }
}

/// Data read from or written to a model method.
#[derive(Debug, Clone)]
pub enum MethodData {
    Bit(bool),
    Byte(u8),
    Range(Vec<u8>),
}

/// The controller. Without `sys` the driver was not loaded or the firmware
/// is unknown, and only model facts are available.
pub struct Ec {
    pub sys: Option<(EcSys, FwConfig)>,
    pub model: Option<ModelConfig>,
}

/// The register address of `addr`, or the error naming `name`.
pub open spec fn spec_addr(addr: Addr, name: &'static str) -> Result<u8, EcError> {
    match addr.spec_get() {
        Some(a) => Ok(a),
        None => Err(unsupported(name)),
    }
}

fn config_addr(addr: Addr, name: &'static str) -> (r: Result<u8, EcError>)
    ensures
        r == spec_addr(addr, name),
{
    match addr.get() {
        Some(a) => Ok(a),
        None => Err(EcError::Unsupported { name }),
    }
}

/// The mode of the first table entry whose value is `val`.
pub open spec fn mode_of_value<M>(table: Seq<(M, u8)>, val: u8) -> Option<M>
    decreases table.len(),
{
    if table.len() == 0 {
        None
    } else if table[0].1 == val {
        Some(table[0].0)
    } else {
        mode_of_value(table.subrange(1, table.len() as int), val)
    }
}

/// The value of the first table entry whose mode is `mode`.
pub open spec fn value_of_mode<M>(table: Seq<(M, u8)>, mode: M) -> Option<u8>
    decreases table.len(),
{
    if table.len() == 0 {
        None
    } else if table[0].0 == mode {
        Some(table[0].1)
    } else {
        value_of_mode(table.subrange(1, table.len() as int), mode)
    }
}

/// No two entries of the table share a value.
pub open spec fn distinct_values<M>(table: Seq<(M, u8)>) -> bool {
    forall|i: int, j: int| 0 <= i < j < table.len() ==> table[i].1 != table[j].1
}

/// Reads a firmware text field.
fn read_fw_text(io: &EcSys, addr: u8, len: usize, field: FwField) -> (r: Result<String, EcError>)
    requires
        span_fits(addr, len as nat),
    ensures
        match fw_text_in(io.mem(), addr, len, field) {
            Ok(t) => r matches Ok(s) && s@ == t,
            Err(e) => r matches Err(e2) && e2 == e,
        },
{
    let bytes = match io.ec_read_seq(addr, len) {
        Ok(b) => b,
        Err(e) => return Err(EcError::EcSys { source: e }),
    };
    match utf8_to_string(bytes.as_slice()) {
        Some(s) => Ok(s),
        None => Err(EcError::Whatever { message: Fault::NonUtf8 { field }, source: None }),
    }
}

/// Reads the `len` bytes of a curve.
fn read_curve(io: &EcSys, fw: &FwConfig, curve: crate::fw::Curve, name: &'static str, len: usize) -> (r: Result<
    Vec<u8>,
    EcError,
>)
    ensures
        match curve_in(*fw, io.mem(), curve, name, len) {
            Ok(b) => r matches Ok(v) && v@ == b,
            Err(e) => r matches Err(e2) && e2 == e,
        },
        r matches Ok(v) ==> v@.len() == len,
{
    if fw.ver != WmiVer::Wmi2 {
        return Err(EcError::Whatever { message: Fault::OnlyWmi2, source: None });
    }
    let addr = match config_addr(curve.addr, name) {
        Ok(a) => a,
        Err(e) => return Err(e),
    };
    match io.ec_read_seq(addr, len) {
        Ok(b) => Ok(b),
        Err(e) => Err(EcError::Whatever { message: Fault::SeqAccess { op: "read_curve", call: "ec_read_seq" }, source: Some(e) }),
    }
}

/// Stores the bytes of a curve.
fn write_curve(io: &mut EcSys, fw: &FwConfig, curve: crate::fw::Curve, name: &'static str, bytes: &[u8]) -> (r: Result<(), EcError>)
    ensures
        match set_curve_in(*fw, curve, name, bytes@) {
            Ok((a, d)) => r == Ok::<(), EcError>(()) && final(io).mem() == write_block(old(io).mem(), a as int, d)
                && final(io).log() == old(io).log().push((a, d)),
            Err(e) => r matches Err(e2) && e2 == e && *final(io) == *old(io),
        },
{
    if fw.ver != WmiVer::Wmi2 {
        return Err(EcError::Whatever { message: Fault::OnlyWmi2, source: None });
    }
    let addr = match config_addr(curve.addr, name) {
        Ok(a) => a,
        Err(e) => return Err(e),
    };
    match io.ec_write_seq(addr, bytes) {
        Ok(()) => Ok(()),
        Err(e) => Err(EcError::Whatever { message: Fault::SeqAccess { op: "set_curve", call: "ec_write_seq" }, source: Some(e) }),
    }
}

fn find_shift_mode(table: &Vec<(ShiftMode, u8)>, val: u8) -> (r: Option<ShiftMode>)
    ensures
        r == mode_of_value(table@, val),
{
    let mut i: usize = 0;
    assert(table@.subrange(0, table@.len() as int) =~= table@);
    while i < table.len()
        invariant
            i <= table@.len(),
            mode_of_value(table@, val) == mode_of_value(table@.subrange(i as int, table@.len() as int), val),
        decreases table@.len() - i,
    {
        let ghost rest = table@.subrange(i as int, table@.len() as int);
        assert(rest.subrange(1, rest.len() as int) =~= table@.subrange(i + 1, table@.len() as int));
        if table[i].1 == val {
            return Some(table[i].0);
        }
        i = i + 1;
    }
    None
}

fn find_shift_value(table: &Vec<(ShiftMode, u8)>, mode: ShiftMode) -> (r: Option<u8>)
    ensures
        r == value_of_mode(table@, mode),
{
    let mut i: usize = 0;
    assert(table@.subrange(0, table@.len() as int) =~= table@);
    while i < table.len()
        invariant
            i <= table@.len(),
            value_of_mode(table@, mode) == value_of_mode(table@.subrange(i as int, table@.len() as int), mode),
        decreases table@.len() - i,
    {
        let ghost rest = table@.subrange(i as int, table@.len() as int);
        assert(rest.subrange(1, rest.len() as int) =~= table@.subrange(i + 1, table@.len() as int));
        if table[i].0 == mode {
            return Some(table[i].1);
        }
        i = i + 1;
    }
    None
}

fn find_fan_mode(table: &Vec<(FanMode, u8)>, val: u8) -> (r: Option<FanMode>)
    ensures
        r == mode_of_value(table@, val),
{
    let mut i: usize = 0;
    assert(table@.subrange(0, table@.len() as int) =~= table@);
    while i < table.len()
        invariant
            i <= table@.len(),
            mode_of_value(table@, val) == mode_of_value(table@.subrange(i as int, table@.len() as int), val),
        decreases table@.len() - i,
    {
        let ghost rest = table@.subrange(i as int, table@.len() as int);
        assert(rest.subrange(1, rest.len() as int) =~= table@.subrange(i + 1, table@.len() as int));
        if table[i].1 == val {
            return Some(table[i].0);
        }
        i = i + 1;
    }
    None
}

fn find_fan_value(table: &Vec<(FanMode, u8)>, mode: FanMode) -> (r: Option<u8>)
    ensures
        r == value_of_mode(table@, mode),
{
    let mut i: usize = 0;
    assert(table@.subrange(0, table@.len() as int) =~= table@);
    while i < table.len()
        invariant
            i <= table@.len(),
            value_of_mode(table@, mode) == value_of_mode(table@.subrange(i as int, table@.len() as int), mode),
        decreases table@.len() - i,
    {
        let ghost rest = table@.subrange(i as int, table@.len() as int);
        assert(rest.subrange(1, rest.len() as int) =~= table@.subrange(i + 1, table@.len() as int));
        if table[i].0 == mode {
            return Some(table[i].1);
        }
        i = i + 1;
    }
    None
}


impl Ec {
    /// What a read of a feature gives: `pre` is an error found before the
    /// registers are consulted, `f` what the registers give under the layout.
    pub open spec fn read<T>(
        self,
        pre: Option<EcError>,
        name: &'static str,
        f: spec_fn(FwConfig, Seq<u8>) -> Result<T, EcError>,
    ) -> Result<T, EcError> {
        match pre {
            Some(e) => Err(e),
            None => match self.sys {
                None => Err(unsupported(name)),
                Some((io, fw)) => f(fw, io.mem()),
            },
        }
    }

    /// `after` is `self` with the write that `w` chooses carried out on the
    /// registers and logged, and `r` reports it; where `pre` or `w` gives an
    /// error, or the driver is missing, nothing changes and `r` is that error.
    pub open spec fn wrote(
        self,
        after: Ec,
        r: Result<(), EcError>,
        pre: Option<EcError>,
        name: &'static str,
        w: spec_fn(FwConfig, Seq<u8>) -> Result<Write, EcError>,
    ) -> bool {
        &&& after.model == self.model
        &&& match pre {
            Some(e) => r == Err::<(), EcError>(e) && after.sys == self.sys,
            None => match self.sys {
                None => r == Err::<(), EcError>(unsupported(name)) && after.sys == self.sys,
                Some((io, fw)) => match w(fw, io.mem()) {
                    Ok((a, d)) => {
                        &&& r == Ok::<(), EcError>(())
                        &&& after.sys matches Some((io2, fw2))
                        &&& fw2 == fw
                        &&& io2.mem() == write_block(io.mem(), a as int, d)
                        &&& io2.log() == io.log().push((a, d))
                    },
                    Err(e) => r == Err::<(), EcError>(e) && after.sys == self.sys,
                },
            },
        }
    }

    /// The number of fans of the model (one if the model is unknown).
    pub open spec fn spec_fan_count(self) -> Fans {
        match self.model {
            Some(m) => m.fans.count,
            None => Fans::One,
        }
    }

    pub open spec fn spec_has_dgpu(self) -> bool {
        match self.model {
            Some(m) => m.has_dgpu,
            None => false,
        }
    }

    pub fn fan_count(&self) -> (r: Fans)
        ensures
            r == self.spec_fan_count(),
    {
        match &self.model {
            Some(m) => m.fans.count,
            None => Fans::One,
        }
    }

    pub fn has_dgpu(&self) -> (r: bool)
        ensures
            r == self.spec_has_dgpu(),
    {
        match &self.model {
            Some(m) => m.has_dgpu,
            None => false,
        }
    }

    pub fn wmi_ver(&self) -> (r: Option<WmiVer>)
        ensures
            r == match self.sys {
                Some((_, fw)) => Some(fw.ver),
                None => None,
            },
    {
        match &self.sys {
            Some((_, fw)) => Some(fw.ver),
            None => None,
        }
    }

    //
    // Shift Mode
    //

    /// Supported shift modes
    pub fn shift_modes(&self) -> (r: Result<Vec<ShiftMode>, EcError>)
        ensures
            match self.sys {
                None => r == Err::<Vec<ShiftMode>, EcError>(unsupported("shift_modes")),
                Some((_, fw)) => r matches Ok(v) && v@ == crate::fw::settable_modes(
                    fw.shift_mode.modes@,
                    ShiftMode::Null,
                ),
            },
    {
        match &self.sys {
            Some((_, fw)) => Ok(fw.shift_mode.get_modes()),
            None => Err(EcError::Unsupported { name: "shift_modes" }),
        }
    }

    /// The current shift mode
    pub fn shift_mode(&self) -> (r: Result<ShiftMode, EcError>)
        ensures
            r == self.read(None, "shift_mode", |fw: FwConfig, mem: Seq<u8>| shift_mode_in(fw, mem)),
    {
        match &self.sys {
            Some((io, fw)) => {
                let addr = match config_addr(fw.shift_mode.addr, "shift_mode") {
                    Ok(a) => a,
                    Err(e) => return Err(e),
                };
                let val = io.ec_read(addr);
                match find_shift_mode(&fw.shift_mode.modes, val) {
                    Some(m) => Ok(m),
                    None => Err(EcError::Whatever { message: Fault::InvalidShiftMode { val }, source: None }),
                }
            },
            None => Err(EcError::Unsupported { name: "shift_mode" }),
        }
    }

    /// Set shift mode
    ///
    /// Make sure you are setting a supported shift mode according to shift_modes()
    /// Null is not a valid mode
    pub fn set_shift_mode(&mut self, mode: ShiftMode) -> (r: Result<(), EcError>)
        ensures
            old(self).wrote(
                *final(self),
                r,
                if mode is Null { Some(fault(Fault::NullShiftMode)) } else { None },
                "set_shift_mode",
                |fw: FwConfig, mem: Seq<u8>| set_shift_mode_in(fw, mode),
            ),
    {
        if mode == ShiftMode::Null {
            return Err(EcError::Whatever { message: Fault::NullShiftMode, source: None });
        }
        match &mut self.sys {
            Some((io, fw)) => {
                let addr = match config_addr(fw.shift_mode.addr, "set_shift_mode") {
                    Ok(a) => a,
                    Err(e) => return Err(e),
                };
                let val = match find_shift_value(&fw.shift_mode.modes, mode) {
                    Some(v) => v,
                    None => return Err(EcError::Whatever { message: Fault::ShiftModeNotSupported { mode }, source: None }),
                };
                io.ec_write(addr, val);
                Ok(())
            },
            None => Err(EcError::Unsupported { name: "set_shift_mode" }),
        }
    }

    //
    // Firmware
    //

    pub fn fw_version(&self) -> (r: Result<String, EcError>)
        ensures
            match self.read(
                None,
                "fw_version",
                |fw: FwConfig, mem: Seq<u8>| fw_text_in(mem, FW_VERSION_ADDR, FW_VERSION_LEN, FwField::Version),
            ) {
                Ok(t) => r matches Ok(s) && s@ == t,
                Err(e) => r matches Err(e2) && e2 == e,
            },
    {
        match &self.sys {
            Some((io, _)) => read_fw_text(io, FW_VERSION_ADDR, FW_VERSION_LEN, FwField::Version),
            None => Err(EcError::Unsupported { name: "fw_version" }),
        }
    }

    pub fn fw_date(&self) -> (r: Result<String, EcError>)
        ensures
            match self.read(
                None,
                "fw_date",
                |fw: FwConfig, mem: Seq<u8>| fw_text_in(mem, FW_DATE_ADDR, FW_DATE_LEN, FwField::Date),
            ) {
                Ok(t) => r matches Ok(s) && s@ == t,
                Err(e) => r matches Err(e2) && e2 == e,
            },
    {
        match &self.sys {
            Some((io, _)) => read_fw_text(io, FW_DATE_ADDR, FW_DATE_LEN, FwField::Date),
            None => Err(EcError::Unsupported { name: "fw_date" }),
        }
    }

    pub fn fw_time(&self) -> (r: Result<String, EcError>)
        ensures
            match self.read(
                None,
                "fw_time",
                |fw: FwConfig, mem: Seq<u8>| fw_text_in(mem, FW_TIME_ADDR, FW_TIME_LEN, FwField::Time),
            ) {
                Ok(t) => r matches Ok(s) && s@ == t,
                Err(e) => r matches Err(e2) && e2 == e,
            },
    {
        match &self.sys {
            Some((io, _)) => read_fw_text(io, FW_TIME_ADDR, FW_TIME_LEN, FwField::Time),
            None => Err(EcError::Unsupported { name: "fw_time" }),
        }
    }

    //
    // Battery
    //

    /// The battery end threshold. Is set in 10% increments, with the returned mode
    /// being the high end. For example, if this returns 60%, the threshold
    /// is 50-60%. 80% means the threshold is 70-80%. 10% means
    /// 0-10% charge. However, when 100%, it's 100% always.
    pub fn battery_mode(&self) -> (r: Result<BatteryMode, EcError>)
        ensures
            r == self.read(None, "battery_mode", |fw: FwConfig, mem: Seq<u8>| battery_mode_in(fw, mem)),
            r matches Ok(m) ==> m.wf(),
    {
        match &self.sys {
            Some((io, fw)) => {
                let addr = match config_addr(fw.charge_control_addr, "battery_mode") {
                    Ok(a) => a,
                    Err(e) => return Err(e),
                };
                let raw = io.ec_read(addr);
                // pre-validate before doing bit ops
                if !(0x8A <= raw && raw <= 0xE4) {
                    return Err(EcError::Whatever { message: Fault::InvalidBatteryMode { val: raw }, source: None });
                }
                let mut val = raw;
                val.unset_bit(Bit::_7);
                assert(val == raw - 0x80) by (bit_vector)
                    requires
                        val == raw & !0x80u8,
                        0x8A <= raw <= 0xE4,
                ;
                match BatteryMode::from_end(val) {
                    Some(m) => {
                        proof {
                            if m is Custom {
                                crate::fw::Threshold::lemma_value(m->0, val);
                            }
                        }
                        Ok(m)
                    },
                    None => Err(EcError::Whatever { message: Fault::InvalidBatteryMode { val: raw }, source: None }),
                }
            },
            None => Err(EcError::Unsupported { name: "battery_mode" }),
        }
    }

    pub fn set_battery_mode(&mut self, mode: BatteryMode) -> (r: Result<(), EcError>)
        ensures
            old(self).wrote(
                *final(self),
                r,
                None,
                "set_battery_mode",
                |fw: FwConfig, mem: Seq<u8>| set_battery_mode_in(fw, mode),
            ),
    {
        match &mut self.sys {
            Some((io, fw)) => {
                let addr = match config_addr(fw.charge_control_addr, "set_battery_mode") {
                    Ok(a) => a,
                    Err(e) => return Err(e),
                };
                let mut val = mode.as_end();
                let ghost end = val;
                val.set_bit(Bit::_7);
                assert(val == end + 0x80) by (bit_vector)
                    requires
                        val == end | 0x80u8,
                        10 <= end <= 100,
                ;
                // only values the controller accepts are written
                assert(0x8A <= val && val <= 0xE4);
                io.ec_write(addr, val);
                Ok(())
            },
            None => Err(EcError::Unsupported { name: "set_battery_mode" }),
        }
    }

    pub fn battery_mode_supported(&self) -> (r: bool)
        ensures
            r == match self.sys {
                Some((_, fw)) => fw.charge_control_addr.spec_is_supported(),
                None => false,
            },
    {
        match &self.sys {
            Some((_, fw)) => fw.charge_control_addr.is_supported(),
            None => false,
        }
    }

    pub fn super_battery(&self) -> (r: Result<SuperBattery, EcError>)
        ensures
            r == self.read(None, "super_battery", |fw: FwConfig, mem: Seq<u8>| super_battery_in(fw, mem)),
    {
        match &self.sys {
            Some((io, fw)) => {
                let addr = match config_addr(fw.super_battery.addr, "super_battery") {
                    Ok(a) => a,
                    Err(e) => return Err(e),
                };
                let val = io.ec_read(addr);
                if (val & fw.super_battery.mask) == fw.super_battery.mask {
                    Ok(SuperBattery::On)
                } else {
                    Ok(SuperBattery::Off)
                }
            },
            None => Err(EcError::Unsupported { name: "super_battery" }),
        }
    }

    pub fn set_super_battery(&mut self, kind: SuperBattery) -> (r: Result<(), EcError>)
        ensures
            old(self).wrote(
                *final(self),
                r,
                None,
                "set_super_battery",
                |fw: FwConfig, mem: Seq<u8>| set_super_battery_in(fw, mem, kind),
            ),
    {
        match &mut self.sys {
            Some((io, fw)) => {
                let addr = match config_addr(fw.super_battery.addr, "set_super_battery") {
                    Ok(a) => a,
                    Err(e) => return Err(e),
                };
                let raw = io.ec_read(addr);
                let val = match kind {
                    SuperBattery::Off => raw & !fw.super_battery.mask,
                    SuperBattery::On => raw | fw.super_battery.mask,
                };
                io.ec_write(addr, val);
                Ok(())
            },
            None => Err(EcError::Unsupported { name: "set_super_battery" }),
        }
    }

    pub fn super_battery_supported(&self) -> (r: bool)
        ensures
            r == match self.sys {
                Some((_, fw)) => fw.super_battery.addr.spec_is_supported(),
                None => false,
            },
    {
        match &self.sys {
            Some((_, fw)) => fw.super_battery.addr.is_supported(),
            None => false,
        }
    }

    //
    // Fan RPM
    //

    /// Whether the model has the fan `fan`.
    pub open spec fn spec_fan_supported(self, fan: Fans) -> bool {
        self.spec_fan_count().spec_count() >= fan.spec_count()
    }

    /// The speed of fan `fan`.
    pub open spec fn spec_fan_rpm(self, fan: Fans) -> Result<u16, EcError> {
        self.read(
            if self.spec_fan_supported(fan) { None } else { Some(unsupported(fan_name(fan))) },
            fan_name(fan),
            |fw: FwConfig, mem: Seq<u8>| fan_rpm_in(fw, mem, fan),
        )
    }

    fn fan_name(fan: Fans) -> (r: &'static str)
        ensures
            r == fan_name(fan),
    {
        match fan {
            Fans::One => "One",
            Fans::Two => "Two",
            Fans::Three => "Three",
            Fans::Four => "Four",
        }
    }

    fn fan_rpm(&self, fan: Fans) -> (r: Result<u16, EcError>)
        ensures
            r == self.spec_fan_rpm(fan),
    {
        if !self.fan_supported(fan) {
            return Err(EcError::Unsupported { name: Self::fan_name(fan) });
        }
        match &self.sys {
            Some((io, fw)) => {
                let addr = match fan {
                    Fans::One => fw.fan_rpm.fan1_addr,
                    Fans::Two => fw.fan_rpm.fan2_addr,
                    Fans::Three => fw.fan_rpm.fan3_addr,
                    Fans::Four => fw.fan_rpm.fan4_addr,
                };
                let rpm = match io.ec_read_seq(addr, 2) {
                    Ok(b) => b,
                    Err(e) => return Err(EcError::Whatever { message: Fault::SeqAccess { op: "fan_rpm", call: "ec_read" }, source: Some(e) }),
                };
                let raw: u32 = (rpm[0] as u32) * 256 + (rpm[1] as u32);
                let speed: u32 = if raw == 0 { 0 } else { 480000u32 / raw };
                Ok(speed as u16)
            },
            None => Err(EcError::Unsupported { name: Self::fan_name(fan) }),
        }
    }

    pub fn fan1_rpm(&self) -> (r: Result<u16, EcError>)
        ensures
            r == self.spec_fan_rpm(Fans::One),
    {
        self.fan_rpm(Fans::One)
    }

    pub fn fan2_rpm(&self) -> (r: Result<u16, EcError>)
        ensures
            r == self.spec_fan_rpm(Fans::Two),
    {
        self.fan_rpm(Fans::Two)
    }

    pub fn fan3_rpm(&self) -> (r: Result<u16, EcError>)
        ensures
            r == self.spec_fan_rpm(Fans::Three),
    {
        self.fan_rpm(Fans::Three)
    }

    pub fn fan4_rpm(&self) -> (r: Result<u16, EcError>)
        ensures
            r == self.spec_fan_rpm(Fans::Four),
    {
        self.fan_rpm(Fans::Four)
    }

    fn fan_supported(&self, fan: Fans) -> (r: bool)
        ensures
            r == self.spec_fan_supported(fan),
    {
        self.fan_count().count() >= fan.count()
    }

    pub fn fan1_supported(&self) -> (r: bool)
        ensures
            r == self.spec_fan_supported(Fans::One),
    {
        self.fan_supported(Fans::One)
    }

    pub fn fan2_supported(&self) -> (r: bool)
        ensures
            r == self.spec_fan_supported(Fans::Two),
    {
        self.fan_supported(Fans::Two)
    }

    pub fn fan3_supported(&self) -> (r: bool)
        ensures
            r == self.spec_fan_supported(Fans::Three),
    {
        self.fan_supported(Fans::Three)
    }

    pub fn fan4_supported(&self) -> (r: bool)
        ensures
            r == self.spec_fan_supported(Fans::Four),
    {
        self.fan_supported(Fans::Four)
    }

    //
    // Fan Modes
    //

    /// Supported fan modes
    pub fn fan_modes(&self) -> (r: Result<Vec<FanMode>, EcError>)
        ensures
            match self.sys {
                None => r == Err::<Vec<FanMode>, EcError>(unsupported("fan_modes")),
                Some((_, fw)) => r matches Ok(v) && v@ == crate::fw::settable_modes(
                    fw.fan_mode.modes@,
                    FanMode::Null,
                ),
            },
    {
        match &self.sys {
            Some((_, fw)) => Ok(fw.fan_mode.get_modes()),
            None => Err(EcError::Unsupported { name: "fan_modes" }),
        }
    }

    pub fn fan_mode(&self) -> (r: Result<FanMode, EcError>)
        ensures
            r == self.read(None, "fan_mode", |fw: FwConfig, mem: Seq<u8>| fan_mode_in(fw, mem)),
    {
        match &self.sys {
            Some((io, fw)) => {
                let addr = match config_addr(fw.fan_mode.addr, "fan_mode") {
                    Ok(a) => a,
                    Err(e) => return Err(e),
                };
                let val = io.ec_read(addr);
                match find_fan_mode(&fw.fan_mode.modes, val) {
                    Some(m) => Ok(m),
                    None => Err(EcError::Whatever { message: Fault::InvalidFanMode { val }, source: None }),
                }
            },
            None => Err(EcError::Unsupported { name: "fan_mode" }),
        }
    }

    pub fn set_fan_mode(&mut self, mode: FanMode) -> (r: Result<(), EcError>)
        ensures
            old(self).wrote(
                *final(self),
                r,
                if mode is Null { Some(fault(Fault::NullFanMode)) } else { None },
                "set_fan_mode",
                |fw: FwConfig, mem: Seq<u8>| set_fan_mode_in(fw, mode),
            ),
    {
        if mode == FanMode::Null {
            return Err(EcError::Whatever { message: Fault::NullFanMode, source: None });
        }
        match &mut self.sys {
            Some((io, fw)) => {
                let addr = match config_addr(fw.fan_mode.addr, "set_fan_mode") {
                    Ok(a) => a,
                    Err(e) => return Err(e),
                };
                let val = match find_fan_value(&fw.fan_mode.modes, mode) {
                    Some(v) => v,
                    None => return Err(EcError::Whatever { message: Fault::FanModeNotSupported { mode }, source: None }),
                };
                io.ec_write(addr, val);
                Ok(())
            },
            None => Err(EcError::Unsupported { name: "set_fan_mode" }),
        }
    }

    pub fn fan_mode_supported(&self) -> (r: bool)
        ensures
            r == match self.sys {
                Some((_, fw)) => fw.fan_mode.addr.spec_is_supported(),
                None => false,
            },
    {
        match &self.sys {
            Some((_, fw)) => fw.fan_mode.addr.is_supported(),
            None => false,
        }
    }

    //
    // Webcam
    //

    pub fn webcam(&self) -> (r: Result<Webcam, EcError>)
        ensures
            r == self.read(None, "webcam", |fw: FwConfig, mem: Seq<u8>| webcam_in(fw, mem)),
    {
        match &self.sys {
            Some((io, fw)) => {
                let addr = match config_addr(fw.webcam.addr, "webcam") {
                    Ok(a) => a,
                    Err(e) => return Err(e),
                };
                let set = io.ec_read_bit(addr, fw.webcam.bit) ^ false;
                if set {
                    Ok(Webcam::On)
                } else {
                    Ok(Webcam::Off)
                }
            },
            None => Err(EcError::Unsupported { name: "webcam" }),
        }
    }

    pub fn webcam_block(&self) -> (r: Result<Webcam, EcError>)
        ensures
            r == self.read(None, "webcam_block", |fw: FwConfig, mem: Seq<u8>| webcam_block_in(fw, mem)),
    {
        match &self.sys {
            Some((io, fw)) => {
                let addr = match config_addr(fw.webcam.block_addr, "webcam_block") {
                    Ok(a) => a,
                    Err(e) => return Err(e),
                };
                let set = io.ec_read_bit(addr, fw.webcam.bit) ^ true;
                if set {
                    Ok(Webcam::On)
                } else {
                    Ok(Webcam::Off)
                }
            },
            None => Err(EcError::Unsupported { name: "webcam_block" }),
        }
    }

    pub fn set_webcam(&mut self, state: Webcam) -> (r: Result<(), EcError>)
        ensures
            old(self).wrote(
                *final(self),
                r,
                None,
                "set_webcam",
                |fw: FwConfig, mem: Seq<u8>| set_webcam_in(fw, mem, state),
            ),
    {
        match &mut self.sys {
            Some((io, fw)) => {
                let addr = match config_addr(fw.webcam.addr, "set_webcam") {
                    Ok(a) => a,
                    Err(e) => return Err(e),
                };
                let val = state.enabled() ^ false;
                io.ec_write_bit(addr, fw.webcam.bit, val);
                Ok(())
            },
            None => Err(EcError::Unsupported { name: "set_webcam" }),
        }
    }

    pub fn set_webcam_block(&mut self, state: Webcam) -> (r: Result<(), EcError>)
        ensures
            old(self).wrote(
                *final(self),
                r,
                None,
                "set_webcam_block",
                |fw: FwConfig, mem: Seq<u8>| set_webcam_block_in(fw, mem, state),
            ),
    {
        match &mut self.sys {
            Some((io, fw)) => {
                let addr = match config_addr(fw.webcam.block_addr, "set_webcam_block") {
                    Ok(a) => a,
                    Err(e) => return Err(e),
                };
                let val = state.enabled() ^ true;
                io.ec_write_bit(addr, fw.webcam.bit, val);
                Ok(())
            },
            None => Err(EcError::Unsupported { name: "set_webcam_block" }),
        }
    }

    pub fn webcam_supported(&self) -> (r: bool)
        ensures
            r == match self.sys {
                Some((_, fw)) => fw.webcam.addr.spec_is_supported(),
                None => false,
            },
    {
        match &self.sys {
            Some((_, fw)) => fw.webcam.addr.is_supported(),
            None => false,
        }
    }

    pub fn webcam_block_supported(&self) -> (r: bool)
        ensures
            r == match self.sys {
                Some((_, fw)) => fw.webcam.block_addr.spec_is_supported(),
                None => false,
            },
    {
        match &self.sys {
            Some((_, fw)) => fw.webcam.block_addr.is_supported(),
            None => false,
        }
    }

    //
    // Cooler Boost
    //

    pub fn cooler_boost(&self) -> (r: Result<CoolerBoost, EcError>)
        ensures
            r == self.read(None, "cooler_boost", |fw: FwConfig, mem: Seq<u8>| cooler_boost_in(fw, mem)),
    {
        match &self.sys {
            Some((io, fw)) => {
                let addr = match config_addr(fw.cooler_boost.addr, "cooler_boost") {
                    Ok(a) => a,
                    Err(e) => return Err(e),
                };
                if io.ec_read_bit(addr, fw.cooler_boost.bit) {
                    Ok(CoolerBoost::On)
                } else {
                    Ok(CoolerBoost::Off)
                }
            },
            None => Err(EcError::Unsupported { name: "cooler_boost" }),
        }
    }

    pub fn set_cooler_boost(&mut self, state: CoolerBoost) -> (r: Result<(), EcError>)
        ensures
            old(self).wrote(
                *final(self),
                r,
                None,
                "set_cooler_boost",
                |fw: FwConfig, mem: Seq<u8>| set_cooler_boost_in(fw, mem, state),
            ),
    {
        match &mut self.sys {
            Some((io, fw)) => {
                let addr = match config_addr(fw.cooler_boost.addr, "set_cooler_boost") {
                    Ok(a) => a,
                    Err(e) => return Err(e),
                };
                io.ec_write_bit(addr, fw.cooler_boost.bit, state.enabled());
                Ok(())
            },
            None => Err(EcError::Unsupported { name: "set_cooler_boost" }),
        }
    }

    pub fn cooler_boost_supported(&self) -> (r: bool)
        ensures
            r == match self.sys {
                Some((_, fw)) => fw.cooler_boost.addr.spec_is_supported(),
                None => false,
            },
    {
        match &self.sys {
            Some((_, fw)) => fw.cooler_boost.addr.is_supported(),
            None => false,
        }
    }

    //
    // Fn Win Key Swap
    //

    pub fn fn_key(&self) -> (r: Result<KeyDirection, EcError>)
        ensures
            r == self.read(None, "fn_key", |fw: FwConfig, mem: Seq<u8>| fn_key_in(fw, mem)),
    {
        match &self.sys {
            Some((io, fw)) => {
                let addr = match config_addr(fw.fn_win_swap.addr, "fn_key") {
                    Ok(a) => a,
                    Err(e) => return Err(e),
                };
                let mut set = io.ec_read_bit(addr, fw.fn_win_swap.bit);
                set = set ^ fw.fn_win_swap.invert;  // invert the direction for some laptops
                set = !set;  // fn key position is the opposite of win key
                if set {
                    Ok(KeyDirection::Left)
                } else {
                    Ok(KeyDirection::Right)
                }
            },
            None => Err(EcError::Unsupported { name: "fn_key" }),
        }
    }

    pub fn set_fn_key(&mut self, dir: KeyDirection) -> (r: Result<(), EcError>)
        ensures
            old(self).wrote(
                *final(self),
                r,
                None,
                "set_fn_key",
                |fw: FwConfig, mem: Seq<u8>| set_fn_key_in(fw, mem, dir),
            ),
    {
        match &mut self.sys {
            Some((io, fw)) => {
                let addr = match config_addr(fw.fn_win_swap.addr, "set_fn_key") {
                    Ok(a) => a,
                    Err(e) => return Err(e),
                };
                let mut val = dir == KeyDirection::Left;
                val = val ^ fw.fn_win_swap.invert;  // invert the direction for some laptops
                val = !val;  // fn key position is the opposite of win key
                io.ec_write_bit(addr, fw.fn_win_swap.bit, val);
                Ok(())
            },
            None => Err(EcError::Unsupported { name: "set_fn_key" }),
        }
    }

    pub fn fn_win_swap_supported(&self) -> (r: bool)
        ensures
            r == match self.sys {
                Some((_, fw)) => fw.fn_win_swap.addr.spec_is_supported(),
                None => false,
            },
    {
        match &self.sys {
            Some((_, fw)) => fw.fn_win_swap.addr.is_supported(),
            None => false,
        }
    }

    pub fn win_key(&self) -> (r: Result<KeyDirection, EcError>)
        ensures
            r == self.read(None, "win_key", |fw: FwConfig, mem: Seq<u8>| win_key_in(fw, mem)),
    {
        match &self.sys {
            Some((io, fw)) => {
                let addr = match config_addr(fw.fn_win_swap.addr, "win_key") {
                    Ok(a) => a,
                    Err(e) => return Err(e),
                };
                let val = io.ec_read_bit(addr, fw.fn_win_swap.bit) ^ fw.fn_win_swap.invert;
                if val {
                    Ok(KeyDirection::Left)
                } else {
                    Ok(KeyDirection::Right)
                }
            },
            None => Err(EcError::Unsupported { name: "win_key" }),
        }
    }

    pub fn set_win_key(&mut self, dir: KeyDirection) -> (r: Result<(), EcError>)
        ensures
            old(self).wrote(
                *final(self),
                r,
                None,
                "set_win_key",
                |fw: FwConfig, mem: Seq<u8>| set_win_key_in(fw, mem, dir),
            ),
    {
        match &mut self.sys {
            Some((io, fw)) => {
                let addr = match config_addr(fw.fn_win_swap.addr, "set_win_key") {
                    Ok(a) => a,
                    Err(e) => return Err(e),
                };
                let val = (dir == KeyDirection::Left) ^ fw.fn_win_swap.invert;
                io.ec_write_bit(addr, fw.fn_win_swap.bit, val);
                Ok(())
            },
            None => Err(EcError::Unsupported { name: "set_win_key" }),
        }
    }

    //
    // LEDs
    //

    pub fn mic_mute_led(&self) -> (r: Result<Led, EcError>)
        ensures
            r == self.read(None, "mic_mute_led", |fw: FwConfig, mem: Seq<u8>| mic_mute_led_in(fw, mem)),
    {
        match &self.sys {
            Some((io, fw)) => {
                let addr = match config_addr(fw.leds.mic_mute_led_addr, "mic_mute_led") {
                    Ok(a) => a,
                    Err(e) => return Err(e),
                };
                if io.ec_read_bit(addr, fw.leds.bit) {
                    Ok(Led::On)
                } else {
                    Ok(Led::Off)
                }
            },
            None => Err(EcError::Unsupported { name: "mic_mute_led" }),
        }
    }

    pub fn mute_led(&self) -> (r: Result<Led, EcError>)
        ensures
            r == self.read(None, "mute_led", |fw: FwConfig, mem: Seq<u8>| mute_led_in(fw, mem)),
    {
        match &self.sys {
            Some((io, fw)) => {
                let addr = match config_addr(fw.leds.mute_led_addr, "mute_led") {
                    Ok(a) => a,
                    Err(e) => return Err(e),
                };
                if io.ec_read_bit(addr, fw.leds.bit) {
                    Ok(Led::On)
                } else {
                    Ok(Led::Off)
                }
            },
            None => Err(EcError::Unsupported { name: "mute_led" }),
        }
    }

    pub fn set_mic_mute_led(&mut self, state: Led) -> (r: Result<(), EcError>)
        ensures
            old(self).wrote(
                *final(self),
                r,
                None,
                "set_mic_mute_led",
                |fw: FwConfig, mem: Seq<u8>| set_mic_mute_led_in(fw, mem, state),
            ),
    {
        match &mut self.sys {
            Some((io, fw)) => {
                let addr = match config_addr(fw.leds.mic_mute_led_addr, "set_mic_mute_led") {
                    Ok(a) => a,
                    Err(e) => return Err(e),
                };
                let on = match state {
                    Led::On => true,
                    Led::Off => false,
                };
                io.ec_write_bit(addr, fw.leds.bit, on);
                Ok(())
            },
            None => Err(EcError::Unsupported { name: "set_mic_mute_led" }),
        }
    }

    pub fn set_mute_led(&mut self, state: Led) -> (r: Result<(), EcError>)
        ensures
            old(self).wrote(
                *final(self),
                r,
                None,
                "set_mute_led",
                |fw: FwConfig, mem: Seq<u8>| set_mute_led_in(fw, mem, state),
            ),
    {
        match &mut self.sys {
            Some((io, fw)) => {
                let addr = match config_addr(fw.leds.mute_led_addr, "set_mute_led") {
                    Ok(a) => a,
                    Err(e) => return Err(e),
                };
                let on = match state {
                    Led::On => true,
                    Led::Off => false,
                };
                io.ec_write_bit(addr, fw.leds.bit, on);
                Ok(())
            },
            None => Err(EcError::Unsupported { name: "set_mute_led" }),
        }
    }

    pub fn mic_mute_led_supported(&self) -> (r: bool)
        ensures
            r == match self.sys {
                Some((_, fw)) => fw.leds.mic_mute_led_addr.spec_is_supported(),
                None => false,
            },
    {
        match &self.sys {
            Some((_, fw)) => fw.leds.mic_mute_led_addr.is_supported(),
            None => false,
        }
    }

    pub fn mute_led_supported(&self) -> (r: bool)
        ensures
            r == match self.sys {
                Some((_, fw)) => fw.leds.mute_led_addr.spec_is_supported(),
                None => false,
            },
    {
        match &self.sys {
            Some((_, fw)) => fw.leds.mute_led_addr.is_supported(),
            None => false,
        }
    }

    //
    // Thermal
    //

    pub fn cpu_rt_fan_speed(&self) -> (r: Result<u8, EcError>)
        ensures
            r == self.read(
                None,
                "cpu_rt_fan_speed",
                |fw: FwConfig, mem: Seq<u8>| byte_in(mem, fw.cpu.rt_fan_speed_addr, "cpu_rt_fan_speed"),
            ),
    {
        match &self.sys {
            Some((io, fw)) => {
                let addr = match config_addr(fw.cpu.rt_fan_speed_addr, "cpu_rt_fan_speed") {
                    Ok(a) => a,
                    Err(e) => return Err(e),
                };
                Ok(io.ec_read(addr))
            },
            None => Err(EcError::Unsupported { name: "cpu_rt_fan_speed" }),
        }
    }

    pub fn cpu_rt_temp(&self) -> (r: Result<u8, EcError>)
        ensures
            r == self.read(
                None,
                "cpu_rt_temp",
                |fw: FwConfig, mem: Seq<u8>| byte_in(mem, fw.cpu.rt_temp_addr, "cpu_rt_temp"),
            ),
    {
        match &self.sys {
            Some((io, fw)) => {
                let addr = match config_addr(fw.cpu.rt_temp_addr, "cpu_rt_temp") {
                    Ok(a) => a,
                    Err(e) => return Err(e),
                };
                Ok(io.ec_read(addr))
            },
            None => Err(EcError::Unsupported { name: "cpu_rt_temp" }),
        }
    }

    /// The GPU fan speed; the layout decides whether the GPU has one.
    pub fn gpu_rt_fan_speed(&self) -> (r: Result<u8, EcError>)
        ensures
            r == self.read(
                None,
                "gpu_rt_fan_speed",
                |fw: FwConfig, mem: Seq<u8>| byte_in(mem, fw.gpu.rt_fan_speed_addr, "gpu_rt_fan_speed"),
            ),
    {
        match &self.sys {
            Some((io, fw)) => {
                let addr = match config_addr(fw.gpu.rt_fan_speed_addr, "gpu_rt_fan_speed") {
                    Ok(a) => a,
                    Err(e) => return Err(e),
                };
                Ok(io.ec_read(addr))
            },
            None => Err(EcError::Unsupported { name: "gpu_rt_fan_speed" }),
        }
    }

    /// The GPU temperature; the layout decides whether the GPU has one.
    pub fn gpu_rt_temp(&self) -> (r: Result<u8, EcError>)
        ensures
            r == self.read(
                None,
                "gpu_rt_temp",
                |fw: FwConfig, mem: Seq<u8>| byte_in(mem, fw.gpu.rt_temp_addr, "gpu_rt_temp"),
            ),
    {
        match &self.sys {
            Some((io, fw)) => {
                let addr = match config_addr(fw.gpu.rt_temp_addr, "gpu_rt_temp") {
                    Ok(a) => a,
                    Err(e) => return Err(e),
                };
                Ok(io.ec_read(addr))
            },
            None => Err(EcError::Unsupported { name: "gpu_rt_temp" }),
        }
    }

    //
    // Fan curves; only for WMI2
    //

    pub fn cpu_fan_curve(&self) -> (r: Result<Curve7, EcError>)
        ensures
            r == self.read(None, "cpu_fan_curve", |fw: FwConfig, mem: Seq<u8>| curve7_in(fw, mem, fw.cpu_fan_curve, "cpu_fan_curve")),
    {
        match &self.sys {
            Some((io, fw)) => match read_curve(io, fw, fw.cpu_fan_curve, "cpu_fan_curve", 7) {
                Ok(b) => Ok(Curve7::from_bytes(b.as_slice())),
                Err(e) => Err(e),
            },
            None => Err(EcError::Unsupported { name: "cpu_fan_curve" }),
        }
    }

    pub fn cpu_temp_curve(&self) -> (r: Result<Curve7, EcError>)
        ensures
            r == self.read(None, "cpu_temp_curve", |fw: FwConfig, mem: Seq<u8>| curve7_in(fw, mem, fw.cpu_temp_curve, "cpu_temp_curve")),
    {
        match &self.sys {
            Some((io, fw)) => match read_curve(io, fw, fw.cpu_temp_curve, "cpu_temp_curve", 7) {
                Ok(b) => Ok(Curve7::from_bytes(b.as_slice())),
                Err(e) => Err(e),
            },
            None => Err(EcError::Unsupported { name: "cpu_temp_curve" }),
        }
    }

    pub fn cpu_hysteresis_curve(&self) -> (r: Result<Curve6, EcError>)
        ensures
            r == self.read(None, "cpu_hysteresis_curve", |fw: FwConfig, mem: Seq<u8>| curve6_in(fw, mem, fw.cpu_hysteresis_curve, "cpu_hysteresis_curve")),
    {
        match &self.sys {
            Some((io, fw)) => match read_curve(io, fw, fw.cpu_hysteresis_curve, "cpu_hysteresis_curve", 6) {
                Ok(b) => Ok(Curve6::from_bytes(b.as_slice())),
                Err(e) => Err(e),
            },
            None => Err(EcError::Unsupported { name: "cpu_hysteresis_curve" }),
        }
    }

    /// The error for a GPU feature on a model without a discrete GPU.
    pub open spec fn dgpu_check(self) -> Option<EcError> {
        if self.spec_has_dgpu() {
            None
        } else {
            Some(fault(Fault::NoDgpu))
        }
    }

    pub fn gpu_fan_curve(&self) -> (r: Result<Curve7, EcError>)
        ensures
            r == self.read(self.dgpu_check(), "gpu_fan_curve", |fw: FwConfig, mem: Seq<u8>| curve7_in(fw, mem, fw.gpu_fan_curve, "gpu_fan_curve")),
    {
        if !self.has_dgpu() {
            return Err(EcError::Whatever { message: Fault::NoDgpu, source: None });
        }
        match &self.sys {
            Some((io, fw)) => match read_curve(io, fw, fw.gpu_fan_curve, "gpu_fan_curve", 7) {
                Ok(b) => Ok(Curve7::from_bytes(b.as_slice())),
                Err(e) => Err(e),
            },
            None => Err(EcError::Unsupported { name: "gpu_fan_curve" }),
        }
    }

    pub fn gpu_temp_curve(&self) -> (r: Result<Curve7, EcError>)
        ensures
            r == self.read(self.dgpu_check(), "gpu_temp_curve", |fw: FwConfig, mem: Seq<u8>| curve7_in(fw, mem, fw.gpu_temp_curve, "gpu_temp_curve")),
    {
        if !self.has_dgpu() {
            return Err(EcError::Whatever { message: Fault::NoDgpu, source: None });
        }
        match &self.sys {
            Some((io, fw)) => match read_curve(io, fw, fw.gpu_temp_curve, "gpu_temp_curve", 7) {
                Ok(b) => Ok(Curve7::from_bytes(b.as_slice())),
                Err(e) => Err(e),
            },
            None => Err(EcError::Unsupported { name: "gpu_temp_curve" }),
        }
    }

    pub fn gpu_hysteresis_curve(&self) -> (r: Result<Curve6, EcError>)
        ensures
            r == self.read(self.dgpu_check(), "gpu_hysteresis_curve", |fw: FwConfig, mem: Seq<u8>| curve6_in(fw, mem, fw.gpu_hysteresis_curve, "gpu_hysteresis_curve")),
    {
        if !self.has_dgpu() {
            return Err(EcError::Whatever { message: Fault::NoDgpu, source: None });
        }
        match &self.sys {
            Some((io, fw)) => match read_curve(io, fw, fw.gpu_hysteresis_curve, "gpu_hysteresis_curve", 6) {
                Ok(b) => Ok(Curve6::from_bytes(b.as_slice())),
                Err(e) => Err(e),
            },
            None => Err(EcError::Unsupported { name: "gpu_hysteresis_curve" }),
        }
    }

    pub fn set_cpu_fan_curve(&mut self, curve: Curve7) -> (r: Result<(), EcError>)
        ensures
            old(self).wrote(*final(self), r, None, "cpu_fan_curve", |cfg: FwConfig, mem: Seq<u8>| set_curve_in(cfg, cfg.cpu_fan_curve, "cpu_fan_curve", curve.spec_bytes())),
    {
        match &mut self.sys {
            Some((io, fw)) => write_curve(io, fw, fw.cpu_fan_curve, "cpu_fan_curve", curve.to_bytes().as_slice()),
            None => Err(EcError::Unsupported { name: "cpu_fan_curve" }),
        }
    }

    pub fn set_cpu_temp_curve(&mut self, curve: Curve7) -> (r: Result<(), EcError>)
        ensures
            old(self).wrote(*final(self), r, None, "cpu_temp_curve", |cfg: FwConfig, mem: Seq<u8>| set_curve_in(cfg, cfg.cpu_temp_curve, "cpu_temp_curve", curve.spec_bytes())),
    {
        match &mut self.sys {
            Some((io, fw)) => write_curve(io, fw, fw.cpu_temp_curve, "cpu_temp_curve", curve.to_bytes().as_slice()),
            None => Err(EcError::Unsupported { name: "cpu_temp_curve" }),
        }
    }

    pub fn set_cpu_hysteresis_curve(&mut self, curve: Curve6) -> (r: Result<(), EcError>)
        ensures
            old(self).wrote(*final(self), r, None, "cpu_hysteresis_curve", |cfg: FwConfig, mem: Seq<u8>| set_curve_in(cfg, cfg.cpu_hysteresis_curve, "cpu_hysteresis_curve", curve.spec_bytes())),
    {
        match &mut self.sys {
            Some((io, fw)) => write_curve(io, fw, fw.cpu_hysteresis_curve, "cpu_hysteresis_curve", curve.to_bytes().as_slice()),
            None => Err(EcError::Unsupported { name: "cpu_hysteresis_curve" }),
        }
    }

    pub fn set_gpu_fan_curve(&mut self, curve: Curve7) -> (r: Result<(), EcError>)
        ensures
            old(self).wrote(*final(self), r, old(self).dgpu_check(), "gpu_fan_curve", |cfg: FwConfig, mem: Seq<u8>| set_curve_in(cfg, cfg.gpu_fan_curve, "gpu_fan_curve", curve.spec_bytes())),
    {
        if !self.has_dgpu() {
            return Err(EcError::Whatever { message: Fault::NoDgpu, source: None });
        }
        match &mut self.sys {
            Some((io, fw)) => write_curve(io, fw, fw.gpu_fan_curve, "gpu_fan_curve", curve.to_bytes().as_slice()),
            None => Err(EcError::Unsupported { name: "gpu_fan_curve" }),
        }
    }

    pub fn set_gpu_temp_curve(&mut self, curve: Curve7) -> (r: Result<(), EcError>)
        ensures
            old(self).wrote(*final(self), r, old(self).dgpu_check(), "gpu_temp_curve", |cfg: FwConfig, mem: Seq<u8>| set_curve_in(cfg, cfg.gpu_temp_curve, "gpu_temp_curve", curve.spec_bytes())),
    {
        if !self.has_dgpu() {
            return Err(EcError::Whatever { message: Fault::NoDgpu, source: None });
        }
        match &mut self.sys {
            Some((io, fw)) => write_curve(io, fw, fw.gpu_temp_curve, "gpu_temp_curve", curve.to_bytes().as_slice()),
            None => Err(EcError::Unsupported { name: "gpu_temp_curve" }),
        }
    }

    pub fn set_gpu_hysteresis_curve(&mut self, curve: Curve6) -> (r: Result<(), EcError>)
        ensures
            old(self).wrote(*final(self), r, old(self).dgpu_check(), "gpu_hysteresis_curve", |cfg: FwConfig, mem: Seq<u8>| set_curve_in(cfg, cfg.gpu_hysteresis_curve, "gpu_hysteresis_curve", curve.spec_bytes())),
    {
        if !self.has_dgpu() {
            return Err(EcError::Whatever { message: Fault::NoDgpu, source: None });
        }
        match &mut self.sys {
            Some((io, fw)) => write_curve(io, fw, fw.gpu_hysteresis_curve, "gpu_hysteresis_curve", curve.to_bytes().as_slice()),
            None => Err(EcError::Unsupported { name: "gpu_hysteresis_curve" }),
        }
    }

    //
    // Utils
    //

    /// Raw ec dump: all 256 registers.
    pub fn ec_dump_raw(&self) -> (r: Result<[u8; 256], EcError>)
        ensures
            match self.sys {
                None => r == Err::<[u8; 256], EcError>(unsupported("ec_dump_raw")),
                Some((io, _)) => r matches Ok(d) && d@ == io.mem(),
            },
    {
        match &self.sys {
            Some((io, _)) => Ok(io.image_array()),
            None => Err(EcError::Unsupported { name: "ec_dump_raw" }),
        }
    }

    pub fn shift_mode_supported(&self) -> (r: bool)
        ensures
            r == match self.sys {
                Some((_, fw)) => fw.shift_mode.addr.spec_is_supported(),
                None => false,
            },
    {
        match &self.sys {
            Some((_, fw)) => fw.shift_mode.addr.is_supported(),
            None => false,
        }
    }
}

impl Ec {
    /// What `method_read` and `method_write` do before touching a register:
    /// `Ok((i, j))` names the method and its capability for `op`.
    pub open spec fn method_lookup(self, method: Seq<char>, op: MethodOp, read: bool, name: &'static str) -> Result<(int, int), EcError> {
        if self.sys is None {
            Err(unsupported(name))
        } else if read && !op.spec_is_read() {
            Err(fault(Fault::NotARead { op }))
        } else if !read && !op.spec_is_write() {
            Err(fault(Fault::NotAWrite { op }))
        } else {
            match self.model {
                None => Err(fault(Fault::NoModel)),
                Some(m) => match find_method(m.methods@, method) {
                    None => Err(fault(Fault::MethodNotFound { method: arbitrary() })),
                    Some(i) => match find_capability(m.methods@[i].ty@, op) {
                        None => Err(fault(Fault::MissingCapability { method: arbitrary(), op })),
                        Some(j) => Ok((i, j)),
                    },
                },
            }
        }
    }

    /// `r` is the error that `method_lookup` gives; the method's name, where
    /// the error carries one, is `method`.
    pub open spec fn lookup_error<T>(self, r: Result<T, EcError>, method: Seq<char>, op: MethodOp, read: bool, name: &'static str) -> bool {
        match self.method_lookup(method, op, read, name) {
            Ok(_) => true,
            Err(EcError::Whatever { message: Fault::MethodNotFound { .. }, .. }) => r matches Err(
                EcError::Whatever { message: Fault::MethodNotFound { method: n }, source: None },
            ) && n@ == method,
            Err(EcError::Whatever { message: Fault::MissingCapability { op: o, .. }, .. }) => r matches Err(
                EcError::Whatever { message: Fault::MissingCapability { method: n, op: o2 }, source: None },
            ) && n@ == method && o2 == o,
            Err(e) => r == Err::<T, EcError>(e),
        }
    }

    /// Reads model method `method` with the read operation `op`.
    pub fn method_read(&self, method: &str, op: MethodOp) -> (r: Result<MethodData, EcError>)
        requires
            self.model matches Some(m) ==> m.wf(),
        ensures
            self.lookup_error(r, method@, op, true, "method_read"),
            self.method_lookup(method@, op, true, "method_read") matches Ok((i, j)) ==> (
            self.sys matches Some((io, _)) && self.model matches Some(m) && r matches Ok(d)
                && method_data_in(io.mem(), m.methods@[i].addr, m.methods@[i].ty@[j], d)),
    {
        let io = match &self.sys {
            Some((io, _)) => io,
            None => return Err(EcError::Unsupported { name: "method_read" }),
        };
        if !op.is_read() {
            return Err(EcError::Whatever { message: Fault::NotARead { op }, source: None });
        }
        let model = match &self.model {
            Some(m) => m,
            None => return Err(EcError::Whatever { message: Fault::NoModel, source: None }),
        };
        let i = match method_index(&model.methods, method) {
            Some(i) => i,
            None => return Err(EcError::Whatever { message: Fault::MethodNotFound { method: method.to_owned() }, source: None }),
        };
        let m = &model.methods[i];
        let j = match capability_index(&m.ty, op) {
            Some(j) => j,
            None => return Err(EcError::Whatever { message: Fault::MissingCapability { method: method.to_owned(), op }, source: None }),
        };
        proof {
            assert(model.methods@[i as int].wf());
        }
        let t = m.ty[j];
        match (t, m.addr) {
            (MethodTy::ReadBit { bit, invert }, Addr::Single(a)) => Ok(MethodData::Bit(io.ec_read_bit(a, bit) != invert)),
            (MethodTy::Read, Addr::Single(a)) => Ok(MethodData::Byte(io.ec_read(a))),
            (MethodTy::ReadRange, Addr::Range(start, end)) => {
                let len: usize = (end - start) as usize + 1;
                match io.ec_read_seq(start, len) {
                    Ok(v) => Ok(MethodData::Range(v)),
                    Err(e) => Err(EcError::EcSys { source: e }),
                }
            },
            _ => {
                assert(false);
                Err(EcError::Whatever { message: Fault::NotARead { op }, source: None })
            },
        }
    }

    /// Writes `data` to model method `method` with the write operation `op`.
    pub fn method_write(&mut self, method: &str, op: MethodOp, data: MethodData) -> (r: Result<(), EcError>)
        requires
            old(self).model matches Some(m) ==> m.wf(),
        ensures
            old(self).lookup_error(r, method@, op, false, "method_write"),
            old(self).method_lookup(method@, op, false, "method_write") is Err ==> *final(self) == *old(self),
            old(self).method_lookup(method@, op, false, "method_write") matches Ok((i, j)) ==> (
            old(self).sys matches Some((io, fw)) && old(self).model matches Some(m) && match method_write_in(io.mem(), m.methods@[i].addr, m.methods@[i].ty@[j], data) {
                Some((a, d)) => {
                    &&& r == Ok::<(), EcError>(())
                    &&& final(self).model == old(self).model
                    &&& final(self).sys matches Some((io2, fw2))
                    &&& fw2 == fw
                    &&& io2.mem() == write_block(io.mem(), a as int, d)
                    &&& io2.log() == io.log().push((a, d))
                },
                None => r == Err::<(), EcError>(fault(Fault::DataMismatch { op })) && *final(self) == *old(self),
            }),
    {
        if self.sys.is_none() {
            return Err(EcError::Unsupported { name: "method_write" });
        }
        if !op.is_write() {
            return Err(EcError::Whatever { message: Fault::NotAWrite { op }, source: None });
        }
        let model = match &self.model {
            Some(m) => m,
            None => return Err(EcError::Whatever { message: Fault::NoModel, source: None }),
        };
        let i = match method_index(&model.methods, method) {
            Some(i) => i,
            None => return Err(EcError::Whatever { message: Fault::MethodNotFound { method: method.to_owned() }, source: None }),
        };
        let m = &model.methods[i];
        let j = match capability_index(&m.ty, op) {
            Some(j) => j,
            None => return Err(EcError::Whatever { message: Fault::MissingCapability { method: method.to_owned(), op }, source: None }),
        };
        proof {
            assert(model.methods@[i as int].wf());
        }
        let t = m.ty[j];
        let addr = m.addr;
        match &mut self.sys {
            Some((io, _)) => match (t, addr, data) {
                (MethodTy::WriteBit { bit, invert }, Addr::Single(a), MethodData::Bit(b)) => {
                    io.ec_write_bit(a, bit, b != invert);
                    Ok(())
                },
                (MethodTy::Write, Addr::Single(a), MethodData::Byte(v)) => {
                    io.ec_write(a, v);
                    Ok(())
                },
                (MethodTy::WriteRange, Addr::Range(start, end), MethodData::Range(v)) => {
                    if v.len() != (end - start) as usize + 1 {
                        return Err(EcError::Whatever { message: Fault::DataMismatch { op }, source: None });
                    }
                    match io.ec_write_seq(start, v.as_slice()) {
                        Ok(()) => Ok(()),
                        Err(e) => Err(EcError::EcSys { source: e }),
                    }
                },
                _ => Err(EcError::Whatever { message: Fault::DataMismatch { op }, source: None }),
            },
            None => Err(EcError::Unsupported { name: "method_write" }),
        }
    }
}

/// The effective user id of this process.
///
/// Trusted: calls `nix::unistd::geteuid` and takes the raw id. The id depends
/// on how the process was started, so nothing is stated of it.
#[verifier::external_body]
fn effective_uid() -> (r: u32) {
    nix::unistd::geteuid().as_raw()
}

impl Ec {
    /// `r` is the controller built from the register file `sys` (as opened)
    /// and the model config `model`, for a process running as root: the
    /// firmware layout is chosen by the version text in the registers; an
    /// unloaded driver or an unknown firmware leaves only the model facts, and
    /// any other failure to open the registers is the error.
    pub open spec fn built(r: Result<Ec, EcError>, sys: Result<EcSys, EcSysError>, model: Option<ModelConfig>) -> bool {
        match sys {
            Err(EcSysError::NotLoaded) => r matches Ok(ec) && ec.sys is None && ec.model == model,
            Err(e) => r == Err::<Ec, EcError>(EcError::EcSys { source: e }),
            Ok(io) => r matches Ok(ec) && ec.model == model && match fw_text_in(io.mem(), FW_VERSION_ADDR, FW_VERSION_LEN, FwField::Version) {
                Ok(t) => if crate::fw::g2_10::spec_firmwares().contains(t) {
                    ec.sys matches Some((io2, cfg)) && io2 == io && crate::fw::g2_10::is_g2_10(cfg)
                } else {
                    ec.sys is None
                },
                Err(_) => ec.sys is None,
            },
        }
    }

    /// Builds the controller for a process with effective user id `euid`;
    /// only root may use it.
    pub fn from_parts(euid: u32, sys: Result<EcSys, EcSysError>, model: Option<ModelConfig>) -> (r: Result<Ec, EcError>)
        ensures
            euid != 0 ==> r == Err::<Ec, EcError>(EcError::RootRequired),
            euid == 0 ==> Ec::built(r, sys, model),
    {
        if euid != 0 {
            return Err(EcError::RootRequired);
        }
        let sys = match sys {
            Ok(io) => {
                match read_fw_text(&io, FW_VERSION_ADDR, FW_VERSION_LEN, FwField::Version) {
                    Ok(version) => match FwRegistry::from_name(version.as_str()) {
                        Some(cfg) => Some((io, cfg)),
                        None => None,
                    },
                    Err(_) => None,
                }
            },
            Err(EcSysError::NotLoaded) => None,
            Err(e) => return Err(EcError::EcSys { source: e }),
        };
        Ok(Ec { sys, model })
    }

    /// Builds the controller for this process from the register file `sys`
    /// (as opened) and the model config `model`.
    pub fn new(sys: Result<EcSys, EcSysError>, model: Option<ModelConfig>) -> (r: Result<Ec, EcError>)
        ensures
            r == Err::<Ec, EcError>(EcError::RootRequired) || Ec::built(r, sys, model),
    {
        Ec::from_parts(effective_uid(), sys, model)
    }

    /// The registers as a table of hex bytes and printable characters.
    pub fn ec_dump_pretty(&self) -> (r: Result<String, EcError>)
        ensures
            match self.sys {
                None => r == Err::<String, EcError>(unsupported("ec_dump_raw")),
                Some((io, _)) => r matches Ok(s) && s@ == crate::dump::pretty(io.mem()),
            },
    {
        match self.ec_dump_raw() {
            Ok(d) => Ok(crate::dump::pretty_dump(&d)),
            Err(e) => Err(e),
        }
    }
}

} // verus!
