//! Firmware layouts of the embedded controller: which register holds what,
//! and the small value types that the registers encode.

use vstd::prelude::*;

use crate::text::str_eq;

pub mod g2_10;

verus! {

/// One bit of a register byte.
#[derive(Debug, Copy, Clone, PartialEq, Eq, Structural)]
pub enum Bit {
    _0,
    _1,
    _2,
    _3,
    _4,
    _5,
    _6,
    _7,
}

impl Bit {
    /// The byte in which exactly this bit is set.
    pub open spec fn spec_mask(self) -> u8 {
        match self {
            Bit::_0 => 0x01,
            Bit::_1 => 0x02,
            Bit::_2 => 0x04,
            Bit::_3 => 0x08,
            Bit::_4 => 0x10,
            Bit::_5 => 0x20,
            Bit::_6 => 0x40,
            Bit::_7 => 0x80,
        }
    }

    pub fn mask(self) -> (m: u8)
        ensures
            m == self.spec_mask(),
    {
        match self {
            Bit::_0 => 0x01,
            Bit::_1 => 0x02,
            Bit::_2 => 0x04,
            Bit::_3 => 0x08,
            Bit::_4 => 0x10,
            Bit::_5 => 0x20,
            Bit::_6 => 0x40,
            Bit::_7 => 0x80,
        }
    }
}

/// Whether `bit` is set in `val`.
pub open spec fn spec_bit_set(val: u8, bit: Bit) -> bool {
    val & bit.spec_mask() != 0
}

/// `val` with `bit` set to `state`, all other bits kept.
pub open spec fn spec_set_bit_state(val: u8, bit: Bit, state: bool) -> u8 {
    if state {
        val | bit.spec_mask()
    } else {
        val & !bit.spec_mask()
    }
}


/// Laws of single-bit updates: the updated bit reads back as written and
/// every other bit keeps its value.
pub proof fn lemma_set_bit_state(val: u8, bit: Bit, other: Bit, state: bool)
    ensures
        spec_bit_set(spec_set_bit_state(val, bit, state), bit) == state,
        other != bit ==> spec_bit_set(spec_set_bit_state(val, bit, state), other)
            == spec_bit_set(val, other),
{
    let m = bit.spec_mask();
    let o = other.spec_mask();
    assert(m == 1 || m == 2 || m == 4 || m == 8 || m == 16 || m == 32 || m == 64 || m == 128);
    assert(o == 1 || o == 2 || o == 4 || o == 8 || o == 16 || o == 32 || o == 64 || o == 128);
    assert(((val | m) & m != 0) && ((val & !m) & m == 0)) by (bit_vector)
        requires
            m == 1 || m == 2 || m == 4 || m == 8 || m == 16 || m == 32 || m == 64 || m == 128,
    ;
    if other != bit {
        assert(m != o);
        assert(((val | m) & o != 0) == (val & o != 0) && ((val & !m) & o != 0) == (val & o != 0))
            by (bit_vector)
            requires
                m == 1 || m == 2 || m == 4 || m == 8 || m == 16 || m == 32 || m == 64 || m == 128,
                o == 1 || o == 2 || o == 4 || o == 8 || o == 16 || o == 32 || o == 64 || o == 128,
                m != o,
        ;
    }
}

/// Bit-level access to a register byte.
pub trait BitSet: Sized {
    fn set_bit_state(&mut self, bit: Bit, state: bool);

    fn set_bit(&mut self, bit: Bit);

    fn unset_bit(&mut self, bit: Bit);

    fn bit_set(self, bit: Bit) -> bool;
}

impl BitSet for u8 {
    fn set_bit_state(&mut self, bit: Bit, state: bool)
        ensures
            *final(self) == spec_set_bit_state(*old(self), bit, state),
    {
        let m = bit.mask();
        if state {
            *self = *self | m;
        } else {
            *self = *self & !m;
        }
    }

    fn set_bit(&mut self, bit: Bit)
        ensures
            *final(self) == spec_set_bit_state(*old(self), bit, true),
    {
        self.set_bit_state(bit, true);
    }

    fn unset_bit(&mut self, bit: Bit)
        ensures
            *final(self) == spec_set_bit_state(*old(self), bit, false),
    {
        self.set_bit_state(bit, false);
    }

    fn bit_set(self, bit: Bit) -> (r: bool)
        ensures
            r == spec_bit_set(self, bit),
    {
        (self & bit.mask()) != 0
    }
}


/// Where a feature lives in the register file, if the firmware has it.
#[derive(Debug, Copy, Clone, PartialEq, Eq, Structural)]
pub enum Addr {
    Unsupported,
    /// One register.
    Single(u8),
    /// An inclusive span of registers `start..=end`.
    Range(u8, u8),
}

impl Addr {
    pub open spec fn spec_is_supported(self) -> bool {
        !(self is Unsupported)
    }

    /// The (first) register of the feature.
    pub open spec fn spec_get(self) -> Option<u8> {
        match self {
            Addr::Unsupported => None,
            Addr::Single(a) => Some(a),
            Addr::Range(start, _) => Some(start),
        }
    }

    pub fn is_supported(&self) -> (r: bool)
        ensures
            r == self.spec_is_supported(),
    {
        match self {
            Addr::Unsupported => false,
            _ => true,
        }
    }

    pub fn get(&self) -> (r: Option<u8>)
        ensures
            r == self.spec_get(),
    {
        match self {
            Addr::Unsupported => None,
            Addr::Single(a) => Some(*a),
            Addr::Range(start, _) => Some(*start),
        }
    }
}

#[derive(Debug, Copy, Clone)]
pub struct WebcamConfig {
    pub addr: Addr,
    pub block_addr: Addr,
    pub bit: Bit,
}

#[derive(Debug, Copy, Clone)]
pub struct FnWinSwap {
    pub addr: Addr,
    pub bit: Bit,
    pub invert: bool,
}

#[derive(Debug, Copy, Clone)]
pub struct CoolerBoostConfig {
    pub addr: Addr,
    pub bit: Bit,
}

#[derive(Debug, Copy, Clone, PartialEq, Eq, Structural)]
pub enum ShiftMode {
    /// User High / Extreme Performance (old: Sport Mode)
    ExtremePerformance,
    /// User Medium / Balance / Silent (old: Comfort Mode)
    Balanced,
    /// User_Low / Super Battery (old: ECO Mode)
    SuperBattery,
    /// Turbo Mode
    Turbo,
    /// Unspecified; this mode cannot be set
    Null,
}

/// The modes of a mode table, in table order, without `Null`.
pub open spec fn settable_modes<M>(table: Seq<(M, u8)>, null: M) -> Seq<M>
    decreases table.len(),
{
    if table.len() == 0 {
        Seq::empty()
    } else {
        let rest = settable_modes(table.drop_last(), null);
        if table.last().0 != null {
            rest.push(table.last().0)
        } else {
            rest
        }
    }
}

#[derive(Debug, Clone)]
pub struct ShiftModeConfig {
    pub addr: Addr,
    /// Each mode with the register value that selects it.
    pub modes: Vec<(ShiftMode, u8)>,
}

impl ShiftModeConfig {
    /// The settable modes, in table order.
    pub fn get_modes(&self) -> (r: Vec<ShiftMode>)
        ensures
            r@ == settable_modes(self.modes@, ShiftMode::Null),
    {
        let mut r: Vec<ShiftMode> = Vec::new();
        let mut i: usize = 0;
        while i < self.modes.len()
            invariant
                i <= self.modes@.len(),
                r@ == settable_modes(self.modes@.take(i as int), ShiftMode::Null),
            decreases self.modes@.len() - i,
        {
            let m = self.modes[i].0;
            proof {
                let t = self.modes@.take(i as int + 1);
                assert(t.drop_last() =~= self.modes@.take(i as int));
                assert(t.last() == self.modes@[i as int]);
            }
            if m != ShiftMode::Null {
                r.push(m);
            }
            i = i + 1;
        }
        assert(self.modes@.take(self.modes@.len() as int) =~= self.modes@);
        r
    }
}

#[derive(Debug, Copy, Clone)]
pub struct SuperBatteryConfig {
    pub addr: Addr,
    pub mask: u8,
}

#[derive(Debug, Clone)]
pub struct FanModeConfig {
    pub addr: Addr,
    /// Each mode with the register value that selects it.
    pub modes: Vec<(FanMode, u8)>,
}

impl FanModeConfig {
    /// The settable modes, in table order.
    pub fn get_modes(&self) -> (r: Vec<FanMode>)
        ensures
            r@ == settable_modes(self.modes@, FanMode::Null),
    {
        let mut r: Vec<FanMode> = Vec::new();
        let mut i: usize = 0;
        while i < self.modes.len()
            invariant
                i <= self.modes@.len(),
                r@ == settable_modes(self.modes@.take(i as int), FanMode::Null),
            decreases self.modes@.len() - i,
        {
            let m = self.modes[i].0;
            proof {
                let t = self.modes@.take(i as int + 1);
                assert(t.drop_last() =~= self.modes@.take(i as int));
                assert(t.last() == self.modes@[i as int]);
            }
            if m != FanMode::Null {
                r.push(m);
            }
            i = i + 1;
        }
        assert(self.modes@.take(self.modes@.len() as int) =~= self.modes@);
        r
    }
}

#[derive(Debug, Copy, Clone, PartialEq, Eq, Structural)]
pub enum FanMode {
    Auto,
    Silent,
    Advanced,
    /// Unspecified; this mode cannot be set
    Null,
}


#[derive(Debug, Copy, Clone)]
pub struct Thermal {
    pub rt_temp_addr: Addr,
    pub rt_fan_speed_addr: Addr,
}

#[derive(Debug, Copy, Clone)]
pub struct Leds {
    pub mic_mute_led_addr: Addr,
    pub mute_led_addr: Addr,
    pub bit: Bit,
}

#[derive(Debug, Clone)]
pub struct KbdBl {
    pub bl_mode_addr: Addr,
    pub bl_modes: Vec<u8>,
    pub max_mode: u8,
    pub bl_state_addr: Addr,
    pub state_base_value: u8,
    pub max_state: u8,
}

/// The register layout of one firmware family.
#[derive(Debug, Clone)]
pub struct FwConfig {
    /// The firmware version strings that use this layout.
    pub allowed_fw: Vec<&'static str>,
    pub ver: WmiVer,
    pub charge_control_addr: Addr,
    pub webcam: WebcamConfig,
    pub fn_win_swap: FnWinSwap,
    pub cooler_boost: CoolerBoostConfig,
    pub shift_mode: ShiftModeConfig,
    pub super_battery: SuperBatteryConfig,
    pub fan_mode: FanModeConfig,
    pub cpu: Thermal,
    pub gpu: Thermal,
    pub leds: Leds,
    pub kbd_bl: KbdBl,
    pub fan_rpm: FanRpm,
    pub cpu_fan_curve: Curve,
    pub cpu_temp_curve: Curve,
    pub cpu_hysteresis_curve: Curve,
    pub gpu_fan_curve: Curve,
    pub gpu_temp_curve: Curve,
    pub gpu_hysteresis_curve: Curve,
}

//
// Firmware info addresses are universal
//

/// A fixed-length text field of the register file.
#[derive(Debug, Copy, Clone)]
pub struct FwStr {
    pub addr: u8,
    pub len: usize,
}

#[derive(Debug, Copy, Clone)]
pub struct FwInfo {
    pub version: FwStr,
    pub date: FwStr,
    pub time: FwStr,
}

pub const FW_VERSION_ADDR: u8 = 0xA0;

pub const FW_VERSION_LEN: usize = 12;

pub const FW_DATE_ADDR: u8 = 0xAC;

pub const FW_DATE_LEN: usize = 8;

pub const FW_TIME_ADDR: u8 = 0xB4;

pub const FW_TIME_LEN: usize = 8;

/// The firmware text fields, which sit at the same place in every layout.
pub fn fw_info() -> (r: FwInfo)
    ensures
        r.version.addr == FW_VERSION_ADDR && r.version.len == FW_VERSION_LEN,
        r.date.addr == FW_DATE_ADDR && r.date.len == FW_DATE_LEN,
        r.time.addr == FW_TIME_ADDR && r.time.len == FW_TIME_LEN,
{
    FwInfo {
        version: FwStr { addr: FW_VERSION_ADDR, len: FW_VERSION_LEN },
        date: FwStr { addr: FW_DATE_ADDR, len: FW_DATE_LEN },
        time: FwStr { addr: FW_TIME_ADDR, len: FW_TIME_LEN },
    }
}

//
// Fan addresses are universal
//

/// Each fan speed spans two registers, read big endian.
///
/// Formula (where the raw value is not 0): 480000 / raw = rpm
#[derive(Debug, Copy, Clone)]
pub struct FanRpm {
    pub fan1_addr: u8,
    pub fan2_addr: u8,
    pub fan3_addr: u8,
    pub fan4_addr: u8,
}

//
// Curves
//

#[derive(Debug, Copy, Clone)]
pub struct Curve {
    pub addr: Addr,
}

#[derive(Debug, Copy, Clone, PartialEq, Eq, Structural)]
pub struct Curve6 {
    pub n1: u8,
    pub n2: u8,
    pub n3: u8,
    pub n4: u8,
    pub n5: u8,
    pub n6: u8,
}

impl Curve6 {
    /// The six points in register order.
    pub open spec fn spec_bytes(self) -> Seq<u8> {
        seq![self.n1, self.n2, self.n3, self.n4, self.n5, self.n6]
    }

    /// The curve held by six registers, in order.
    pub open spec fn spec_from_bytes(b: Seq<u8>) -> Curve6 {
        Curve6 { n1: b[0], n2: b[1], n3: b[2], n4: b[3], n5: b[4], n6: b[5] }
    }

    pub fn from_bytes(b: &[u8]) -> (r: Curve6)
        requires
            b@.len() == 6,
        ensures
            r == Curve6::spec_from_bytes(b@),
    {
        Curve6 { n1: b[0], n2: b[1], n3: b[2], n4: b[3], n5: b[4], n6: b[5] }
    }

    pub fn to_bytes(&self) -> (r: Vec<u8>)
        ensures
            r@ == self.spec_bytes(),
    {
        let r = vec![self.n1, self.n2, self.n3, self.n4, self.n5, self.n6];
        assert(r@ =~= self.spec_bytes());
        r
    }
}

impl Default for Curve6 {
    fn default() -> (r: Curve6)
        ensures
            r == (Curve6 { n1: 0, n2: 0, n3: 0, n4: 0, n5: 0, n6: 0 }),
    {
        Curve6 { n1: 0, n2: 0, n3: 0, n4: 0, n5: 0, n6: 0 }
    }
}

#[derive(Debug, Copy, Clone, PartialEq, Eq, Structural)]
pub struct Curve7 {
    pub n1: u8,
    pub n2: u8,
    pub n3: u8,
    pub n4: u8,
    pub n5: u8,
    pub n6: u8,
    pub n7: u8,
}

impl Curve7 {
    /// The seven points in register order.
    pub open spec fn spec_bytes(self) -> Seq<u8> {
        seq![self.n1, self.n2, self.n3, self.n4, self.n5, self.n6, self.n7]
    }

    /// The curve held by seven registers, in order.
    pub open spec fn spec_from_bytes(b: Seq<u8>) -> Curve7 {
        Curve7 { n1: b[0], n2: b[1], n3: b[2], n4: b[3], n5: b[4], n6: b[5], n7: b[6] }
    }

    pub fn from_bytes(b: &[u8]) -> (r: Curve7)
        requires
            b@.len() == 7,
        ensures
            r == Curve7::spec_from_bytes(b@),
    {
        Curve7 { n1: b[0], n2: b[1], n3: b[2], n4: b[3], n5: b[4], n6: b[5], n7: b[6] }
    }

    pub fn to_bytes(&self) -> (r: Vec<u8>)
        ensures
            r@ == self.spec_bytes(),
    {
        let r = vec![self.n1, self.n2, self.n3, self.n4, self.n5, self.n6, self.n7];
        assert(r@ =~= self.spec_bytes());
        r
    }
}

impl Default for Curve7 {
    fn default() -> (r: Curve7)
        ensures
            r == (Curve7 { n1: 0, n2: 0, n3: 0, n4: 0, n5: 0, n6: 0, n7: 0 }),
    {
        Curve7 { n1: 0, n2: 0, n3: 0, n4: 0, n5: 0, n6: 0, n7: 0 }
    }
}

/// A curve is its bytes and back: converting either way and back again
/// gives the value one started with.
pub proof fn lemma_curve_bytes_roundtrip(c6: Curve6, c7: Curve7, b6: Seq<u8>, b7: Seq<u8>)
    requires
        b6.len() == 6,
        b7.len() == 7,
    ensures
        Curve6::spec_from_bytes(c6.spec_bytes()) == c6,
        Curve6::spec_from_bytes(b6).spec_bytes() == b6,
        Curve7::spec_from_bytes(c7.spec_bytes()) == c7,
        Curve7::spec_from_bytes(b7).spec_bytes() == b7,
{
    assert(Curve6::spec_from_bytes(b6).spec_bytes() =~= b6);
    assert(Curve7::spec_from_bytes(b7).spec_bytes() =~= b7);
}

//
// Battery
//

#[derive(Debug, Copy, Clone, PartialEq, Eq, Structural)]
pub enum SuperBattery {
    Off,
    On,
}

impl SuperBattery {
    pub fn enabled(&self) -> (r: bool)
        ensures
            r == (*self is On),
    {
        match self {
            SuperBattery::On => true,
            SuperBattery::Off => false,
        }
    }
}

/// A custom charge end threshold in percent, always within `10..=100`.
#[derive(Debug, Copy, Clone, PartialEq, Eq, Structural)]
pub struct Threshold(u8);

impl Threshold {
    #[verifier::type_invariant]
    spec fn in_range(self) -> bool {
        10 <= self.0 <= 100
    }

    /// The end threshold in percent.
    pub closed spec fn value(self) -> u8 {
        self.0
    }

    /// The threshold whose end is `v`.
    pub closed spec fn spec_new(v: u8) -> Threshold {
        Threshold(v)
    }

    /// A threshold is determined by its value.
    pub broadcast proof fn lemma_value(t: Threshold, v: u8)
        ensures
            #[trigger] Threshold::spec_new(v).value() == v,
            Threshold::spec_new(#[trigger] t.value()) == t,
    {
    }

    pub fn end(&self) -> (r: u8)
        ensures
            r == self.value(),
            10 <= r <= 100,
    {
        proof {
            use_type_invariant(self);
        }
        self.0
    }
}

#[derive(Debug, Copy, Clone, PartialEq, Eq, Structural)]
pub enum BatteryMode {
    /// 50-60
    Healthy,
    /// 70-80
    Balanced,
    /// 100
    Mobility,
    /// Custom end threshold. Charges between N-10..=N
    /// Valid values: 10..=100.
    ///
    /// The threshold can only be made by from_start and from_end.
    ///
    /// Note: 100 means 100..=100
    Custom(Threshold),
}

impl BatteryMode {
    /// The mode's threshold lies within its range.
    pub open spec fn wf(self) -> bool {
        match self {
            BatteryMode::Custom(t) => 10 <= t.value() <= 100,
            _ => true,
        }
    }

    /// The end threshold in percent.
    pub open spec fn spec_end(self) -> int {
        match self {
            BatteryMode::Healthy => 60,
            BatteryMode::Balanced => 80,
            BatteryMode::Mobility => 100,
            BatteryMode::Custom(t) => t.value() as int,
        }
    }

    /// The mode of an end threshold, if it is within `10..=100`.
    pub open spec fn spec_from_end(val: int) -> Option<BatteryMode> {
        if val == 60 {
            Some(BatteryMode::Healthy)
        } else if val == 80 {
            Some(BatteryMode::Balanced)
        } else if val == 100 {
            Some(BatteryMode::Mobility)
        } else if 10 <= val <= 100 {
            Some(BatteryMode::Custom(Threshold::spec_new(val as u8)))
        } else {
            None
        }
    }

    /// The start threshold. Charges between N..=N+10
    /// Valid values: 0..=90
    ///
    /// Note: 90 means total charge of 100..=100
    pub fn from_start(val: u8) -> (r: Option<Self>)
        ensures
            r == BatteryMode::spec_from_end(val + 10),
            r is Some <==> val <= 90,
    {
        match val {
            50 => Some(Self::Healthy),
            70 => Some(Self::Balanced),
            90 => Some(Self::Mobility),
            0..=90 => {
                proof {
                    Threshold::lemma_value(Threshold((val + 10) as u8), (val + 10) as u8);
                }
                Some(Self::Custom(Threshold(val + 10)))
            },
            _ => None,
        }
    }

    /// The end threshold. Charges between N-10..=N
    /// Valid values: 10..=100
    ///
    /// Note: 100 means 100..=100
    pub fn from_end(val: u8) -> (r: Option<Self>)
        ensures
            r == BatteryMode::spec_from_end(val as int),
            r is Some <==> 10 <= val <= 100,
    {
        match val {
            60 => Some(Self::Healthy),
            80 => Some(Self::Balanced),
            100 => Some(Self::Mobility),
            10..=100 => {
                proof {
                    Threshold::lemma_value(Threshold(val), val);
                }
                Some(Self::Custom(Threshold(val)))
            },
            _ => None,
        }
    }

    /// Note: 90 means total charge of 100..=100
    pub fn as_start(&self) -> (r: u8)
        ensures
            r == self.spec_end() - 10,
    {
        match *self {
            Self::Healthy => 50,
            Self::Balanced => 70,
            Self::Mobility => 90,
            Self::Custom(t) => t.end() - 10,
        }
    }

    /// Note: 100 means 100..=100
    pub fn as_end(&self) -> (r: u8)
        ensures
            r == self.spec_end(),
            10 <= r <= 100,
    {
        match *self {
            Self::Healthy => 60,
            Self::Balanced => 80,
            Self::Mobility => 100,
            Self::Custom(t) => t.end(),
        }
    }
}

/// Every mode is found again from its end threshold, and from its start
/// threshold, and the start threshold is ten below the end.
pub proof fn lemma_battery_mode_thresholds(m: BatteryMode)
    requires
        m.wf(),
        m is Custom ==> m->0.value() != 60 && m->0.value() != 80 && m->0.value() != 100,
    ensures
        BatteryMode::spec_from_end(m.spec_end()) == Some(m),
        BatteryMode::spec_from_end((m.spec_end() - 10) + 10) == Some(m),
        10 <= m.spec_end() <= 100,
{
    match m {
        BatteryMode::Custom(t) => {
            Threshold::lemma_value(t, t.value());
        },
        _ => {},
    }
}

//
// Webcam
//

#[derive(Debug, Copy, Clone, PartialEq, Eq, Structural)]
pub enum Webcam {
    On,
    Off,
}

impl Webcam {
    pub fn enabled(&self) -> (r: bool)
        ensures
            r == (*self is On),
    {
        match self {
            Webcam::On => true,
            Webcam::Off => false,
        }
    }
}

//
// Cooler Boost
//

#[derive(Debug, Copy, Clone, PartialEq, Eq, Structural)]
pub enum CoolerBoost {
    On,
    Off,
}

impl CoolerBoost {
    pub fn enabled(&self) -> (r: bool)
        ensures
            r == (*self is On),
    {
        match self {
            CoolerBoost::On => true,
            CoolerBoost::Off => false,
        }
    }
}

//
// Fn Win Swap
//

#[derive(Debug, Copy, Clone, PartialEq, Eq, Structural)]
pub enum KeyDirection {
    Left,
    Right,
}

//
// LEDs
//

#[derive(Debug, Copy, Clone, PartialEq, Eq, Structural)]
pub enum Led {
    On,
    Off,
}

impl Led {
    pub fn enabled(&self) -> (r: bool)
        ensures
            r == (*self is On),
    {
        match self {
            Led::On => true,
            Led::Off => false,
        }
    }
}

//
// Format
//

#[derive(Debug, Copy, Clone, PartialEq, Eq, Structural)]
pub enum WmiVer {
    Wmi1,
    Wmi2,
}


/// The registry of supported firmware layouts.
pub struct FwRegistry;

/// Whether `name` is one of the firmware versions that `cfg` lists.
pub open spec fn fw_allowed(cfg: FwConfig, name: Seq<char>) -> bool {
    exists|i: int| 0 <= i < cfg.allowed_fw@.len() && #[trigger] cfg.allowed_fw@[i]@ == name
}

impl FwRegistry {
    /// The layout of the firmware called `ec_version`, if it is supported.
    pub fn from_name(ec_version: &str) -> (r: Option<FwConfig>)
        ensures
            r is Some <==> g2_10::spec_firmwares().contains(ec_version@),
            r matches Some(cfg) ==> g2_10::is_g2_10(cfg) && fw_allowed(cfg, ec_version@),
    {
        let cfg = g2_10::config();
        let mut i: usize = 0;
        while i < cfg.allowed_fw.len()
            invariant
                g2_10::is_g2_10(cfg),
                i <= cfg.allowed_fw@.len(),
                forall|j: int| 0 <= j < i ==> cfg.allowed_fw@[j]@ != ec_version@,
            decreases cfg.allowed_fw@.len() - i,
        {
            if str_eq(cfg.allowed_fw[i], ec_version) {
                proof {
                    let f = |s: &str| s@;
                    assert(cfg.allowed_fw@.map_values(f)[i as int] == ec_version@);
                }
                return Some(cfg);
            }
            i = i + 1;
        }
        proof {
            let f = |s: &str| s@;
            let names = cfg.allowed_fw@.map_values(f);
            assert forall|k: int| 0 <= k < names.len() implies names[k] != ec_version@ by {
                assert(names[k] == cfg.allowed_fw@[k]@);
            }
        }
        None
    }
}


/// The firmware versions that `from_name` finds a layout for are exactly
/// these, in this order; each of them gets the G2_10 layout.
pub proof fn lemma_g2_10_firmwares()
    ensures
        g2_10::spec_firmwares() == seq![
            "1562EMS1.117"@,
            "1563EMS1.106"@,
            "1563EMS1.111"@,
            "1563EMS1.115"@,
            "1571EMS1.106"@,
            "1572EMS1.106"@,
            "1572EMS1.107"@,
            "1587EMS1.102"@,
            "15F2EMS1.109"@,
            "15F4EMS1.105"@,
            "15F4EMS1.106"@,
            "15FKIMS1.106"@,
            "15FKIMS1.109"@,
            "15FKIMS1.110"@,
            "15FLIMS1.107"@,
            "15K2EMS1.106"@,
            "15M1IMS1.109"@,
            "15M1IMS1.110"@,
            "15M1IMS1.113"@,
            "15M1IMS2.104"@,
            "15M1IMS2.105"@,
            "15M1IMS2.111"@,
            "15M1IMS2.112"@,
            "15M2IMS2.112"@,
            "15M2IMS1.110"@,
            "15M2IMS1.112"@,
            "15M2IMS1.113"@,
            "15M2IMS1.114"@,
            "15M3EMS1.105"@,
            "15M3EMS1.106"@,
            "15M3EMS1.107"@,
            "15M3EMS1.109"@,
            "15M3EMS1.110"@,
            "15M3EMS1.112"@,
            "15M3EMS1.113"@,
            "15P2EMS1.108"@,
            "15P2EMS1.110"@,
            "15P3EMS1.103"@,
            "15P3EMS1.106"@,
            "15P3EMS1.107"@,
            "15P4EMS1.105"@,
            "15P4EMS1.107"@,
            "17L5EMS1.111"@,
            "17L5EMS1.113"@,
            "17L5EMS1.115"@,
            "17L5EMS2.115"@,
            "17L7EMS1.102"@,
            "17N1EMS1.109"@,
            "17P1EMS1.104"@,
            "17P1EMS1.106"@,
            "17P2EMS1.111"@,
            "17Q1IMS1.10C"@,
            "17Q2IMS1.107"@,
            "17Q2IMS1.10D"@,
            "17S1IMS1.105"@,
            "17S1IMS1.113"@,
            "17S1IMS1.114"@,
            "17S1IMS2.104"@,
            "17S1IMS2.107"@,
            "17S1IMS2.111"@,
            "17S1IMS2.112"@,
            "17S2IMS1.113"@,
            "17S3EMS1.104"@,
            "17T2EMS1.110"@,
            "1822EMS1.105"@,
            "1822EMS1.109"@,
            "1822EMS1.111"@,
            "1822EMS1.112"@,
            "1822EMS1.114"@,
            "1822EMS1.115"@,
            "1824EMS1.107"@,
            "182LIMS1.108"@,
            "182LIMS1.111"@,
            "182KIMS1.113"@,
        ],
{
}

} // verus!
