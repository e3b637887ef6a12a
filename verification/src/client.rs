//! The client's picture of the daemon: the values last read, which call
//! refreshes each of them, what a reply or an accepted setting changes, and
//! which properties it reports as changed.

use vstd::prelude::*;

use crate::dump::{pretty, pretty_dump};
use crate::ec::MethodData;
use crate::fw::{
    BatteryMode, CoolerBoost, Curve6, Curve7, FanMode, KeyDirection, Led, ShiftMode, SuperBattery,
    Webcam, WmiVer,
};
use crate::ipc::{Bin, Method, MethodTy, RetVal};
use crate::models::{Fans, MethodOp};
use crate::text::str_eq;

pub mod access;
pub mod profile;
pub mod writes;
pub mod methods;
pub mod laws;

verus! {

/// Where the fn key sits; the win key is on the other side.
#[derive(Debug, Copy, Clone, PartialEq, Eq, Structural)]
pub struct SwapKey {
    pub fn_key: KeyDirection,
}

/// The other side.
pub open spec fn other_side(dir: KeyDirection) -> KeyDirection {
    match dir {
        KeyDirection::Left => KeyDirection::Right,
        KeyDirection::Right => KeyDirection::Left,
    }
}

impl SwapKey {
    pub open spec fn from_fn_spec(dir: KeyDirection) -> SwapKey {
        SwapKey { fn_key: dir }
    }

    pub open spec fn from_win_spec(dir: KeyDirection) -> SwapKey {
        SwapKey { fn_key: other_side(dir) }
    }

    pub open spec fn fn_spec(self) -> KeyDirection {
        self.fn_key
    }

    pub open spec fn win_spec(self) -> KeyDirection {
        other_side(self.fn_key)
    }

    /// The keys with the fn key on side `dir`.
    pub fn from_fn(dir: KeyDirection) -> (r: SwapKey)
        ensures
            r == SwapKey::from_fn_spec(dir),
    {
        SwapKey { fn_key: dir }
    }

    /// The keys with the win key on side `dir`.
    pub fn from_win(dir: KeyDirection) -> (r: SwapKey)
        ensures
            r == SwapKey::from_win_spec(dir),
    {
        let dir = match dir {
            KeyDirection::Left => KeyDirection::Right,
            KeyDirection::Right => KeyDirection::Left,
        };
        SwapKey { fn_key: dir }
    }

    pub fn get_fn(&self) -> (r: KeyDirection)
        ensures
            r == self.fn_spec(),
    {
        self.fn_key
    }

    pub fn get_win(&self) -> (r: KeyDirection)
        ensures
            r == self.win_spec(),
    {
        match self.fn_key {
            KeyDirection::Left => KeyDirection::Right,
            KeyDirection::Right => KeyDirection::Left,
        }
    }
}

/// Placing one key places the other: the keys built from a side give that
/// side back for the key named and the other side for the other key, and the
/// two ways of building agree.
pub proof fn lemma_swap_key(dir: KeyDirection)
    ensures
        SwapKey::from_fn_spec(dir).fn_spec() == dir,
        SwapKey::from_fn_spec(dir).win_spec() == other_side(dir),
        SwapKey::from_win_spec(dir).win_spec() == dir,
        SwapKey::from_win_spec(dir).fn_spec() == other_side(dir),
        SwapKey::from_win_spec(dir) == SwapKey::from_fn_spec(other_side(dir)),
{
}

/// A model method as the client keeps it: its names, the data last read,
/// and the operations used to read and write it.
#[derive(Debug, Clone)]
pub struct MethodPayload {
    pub name: String,
    pub method: String,
    pub data: MethodData,
    pub read_op: MethodOp,
    pub write_op: MethodOp,
}

/// The way a socket failed.
#[derive(Debug, Copy, Clone, PartialEq, Eq, Structural)]
pub enum IoKind {
    /// There is no connection to call over.
    NotConnected,
    /// The daemon closed its end.
    BrokenPipe,
    /// Any other failure.
    Other,
}

/// Why a call failed.
#[derive(Debug)]
pub enum ClientError {
    /// The daemon answered with an error.
    Call { msg: String },
    /// The reply could not be parsed.
    Json { msg: String },
    /// The socket failed, in the way `kind` says.
    Io { kind: IoKind, msg: String },
    /// The socket was closed.
    Eof,
}

impl ClientError {
    /// A socket failure ends the connection; an answered error does not.
    pub open spec fn spec_disconnects(&self) -> bool {
        self is Io || self is Eof
    }

    pub fn disconnects(&self) -> (r: bool)
        ensures
            r == self.spec_disconnects(),
    {
        match self {
            ClientError::Io { .. } | ClientError::Eof => true,
            _ => false,
        }
    }
}

/// A property of the client whose change is reported.
#[derive(Debug, Copy, Clone, PartialEq, Eq, Structural)]
pub enum Prop {
    FanCount,
    FanMax,
    HasDgpu,
    WmiVer,
    FwVersion,
    FwDate,
    Fwtime,
    ShiftModes,
    ShiftMode,
    ShiftModeSupported,
    BatteryChargeMode,
    BatteryChargeModeSupported,
    SuperBattery,
    SuperBatterySupported,
    Fan1Rpm,
    Fan2Rpm,
    Fan3Rpm,
    Fan4Rpm,
    Fan1Supported,
    Fan2Supported,
    Fan3Supported,
    Fan4Supported,
    FanModes,
    FanMode,
    FanModeSupported,
    Webcam,
    WebcamBlock,
    WebcamSupported,
    WebcamBlockSupported,
    CoolerBoost,
    CoolerBoostSupported,
    FnKey,
    WinKey,
    FnWinSwapSupported,
    MicMuteLed,
    MuteLed,
    MicMuteLedSupported,
    MuteLedSupported,
    CpuRtFanSpeed,
    CpuRtTemp,
    GpuRtFanSpeed,
    GpuRtTemp,
    CpuFanCurveWmi2,
    CpuTempCurveWmi2,
    CpuHysteresisCurveWmi2,
    GpuFanCurveWmi2,
    GpuTempCurveWmi2,
    GpuHysteresisCurveWmi2,
    EcDump,
    EcDumpPretty,
    Methods,
    Connected,
}

impl Prop {
    /// The name under which the change is reported.
    pub open spec fn spec_name(self) -> &'static str {
        match self {
            Prop::FanCount => "fanCount",
            Prop::FanMax => "fanMax",
            Prop::HasDgpu => "hasDgpu",
            Prop::WmiVer => "wmiVer",
            Prop::FwVersion => "fwVersion",
            Prop::FwDate => "fwDate",
            Prop::Fwtime => "fwtime",
            Prop::ShiftModes => "shiftModes",
            Prop::ShiftMode => "shiftMode",
            Prop::ShiftModeSupported => "shiftModeSupported",
            Prop::BatteryChargeMode => "batteryChargeMode",
            Prop::BatteryChargeModeSupported => "batteryChargeModeSupported",
            Prop::SuperBattery => "superBattery",
            Prop::SuperBatterySupported => "superBatterySupported",
            Prop::Fan1Rpm => "fan1Rpm",
            Prop::Fan2Rpm => "fan2Rpm",
            Prop::Fan3Rpm => "fan3Rpm",
            Prop::Fan4Rpm => "fan4Rpm",
            Prop::Fan1Supported => "fan1Supported",
            Prop::Fan2Supported => "fan2Supported",
            Prop::Fan3Supported => "fan3Supported",
            Prop::Fan4Supported => "fan4Supported",
            Prop::FanModes => "fanModes",
            Prop::FanMode => "fanMode",
            Prop::FanModeSupported => "fanModeSupported",
            Prop::Webcam => "webcam",
            Prop::WebcamBlock => "webcamBlock",
            Prop::WebcamSupported => "webcamSupported",
            Prop::WebcamBlockSupported => "webcamBlockSupported",
            Prop::CoolerBoost => "coolerBoost",
            Prop::CoolerBoostSupported => "coolerBoostSupported",
            Prop::FnKey => "fnKey",
            Prop::WinKey => "winKey",
            Prop::FnWinSwapSupported => "fnWinSwapSupported",
            Prop::MicMuteLed => "micMuteLed",
            Prop::MuteLed => "muteLed",
            Prop::MicMuteLedSupported => "micMuteLedSupported",
            Prop::MuteLedSupported => "muteLedSupported",
            Prop::CpuRtFanSpeed => "cpuRtFanSpeed",
            Prop::CpuRtTemp => "cpuRtTemp",
            Prop::GpuRtFanSpeed => "gpuRtFanSpeed",
            Prop::GpuRtTemp => "gpuRtTemp",
            Prop::CpuFanCurveWmi2 => "cpuFanCurveWmi2",
            Prop::CpuTempCurveWmi2 => "cpuTempCurveWmi2",
            Prop::CpuHysteresisCurveWmi2 => "cpuHysteresisCurveWmi2",
            Prop::GpuFanCurveWmi2 => "gpuFanCurveWmi2",
            Prop::GpuTempCurveWmi2 => "gpuTempCurveWmi2",
            Prop::GpuHysteresisCurveWmi2 => "gpuHysteresisCurveWmi2",
            Prop::EcDump => "ecDump",
            Prop::EcDumpPretty => "ecDumpPretty",
            Prop::Methods => "methods",
            Prop::Connected => "connected",
        }
    }

    pub fn name(&self) -> (r: &'static str)
        ensures
            r == self.spec_name(),
    {
        match self {
            Prop::FanCount => "fanCount",
            Prop::FanMax => "fanMax",
            Prop::HasDgpu => "hasDgpu",
            Prop::WmiVer => "wmiVer",
            Prop::FwVersion => "fwVersion",
            Prop::FwDate => "fwDate",
            Prop::Fwtime => "fwtime",
            Prop::ShiftModes => "shiftModes",
            Prop::ShiftMode => "shiftMode",
            Prop::ShiftModeSupported => "shiftModeSupported",
            Prop::BatteryChargeMode => "batteryChargeMode",
            Prop::BatteryChargeModeSupported => "batteryChargeModeSupported",
            Prop::SuperBattery => "superBattery",
            Prop::SuperBatterySupported => "superBatterySupported",
            Prop::Fan1Rpm => "fan1Rpm",
            Prop::Fan2Rpm => "fan2Rpm",
            Prop::Fan3Rpm => "fan3Rpm",
            Prop::Fan4Rpm => "fan4Rpm",
            Prop::Fan1Supported => "fan1Supported",
            Prop::Fan2Supported => "fan2Supported",
            Prop::Fan3Supported => "fan3Supported",
            Prop::Fan4Supported => "fan4Supported",
            Prop::FanModes => "fanModes",
            Prop::FanMode => "fanMode",
            Prop::FanModeSupported => "fanModeSupported",
            Prop::Webcam => "webcam",
            Prop::WebcamBlock => "webcamBlock",
            Prop::WebcamSupported => "webcamSupported",
            Prop::WebcamBlockSupported => "webcamBlockSupported",
            Prop::CoolerBoost => "coolerBoost",
            Prop::CoolerBoostSupported => "coolerBoostSupported",
            Prop::FnKey => "fnKey",
            Prop::WinKey => "winKey",
            Prop::FnWinSwapSupported => "fnWinSwapSupported",
            Prop::MicMuteLed => "micMuteLed",
            Prop::MuteLed => "muteLed",
            Prop::MicMuteLedSupported => "micMuteLedSupported",
            Prop::MuteLedSupported => "muteLedSupported",
            Prop::CpuRtFanSpeed => "cpuRtFanSpeed",
            Prop::CpuRtTemp => "cpuRtTemp",
            Prop::GpuRtFanSpeed => "gpuRtFanSpeed",
            Prop::GpuRtTemp => "gpuRtTemp",
            Prop::CpuFanCurveWmi2 => "cpuFanCurveWmi2",
            Prop::CpuTempCurveWmi2 => "cpuTempCurveWmi2",
            Prop::CpuHysteresisCurveWmi2 => "cpuHysteresisCurveWmi2",
            Prop::GpuFanCurveWmi2 => "gpuFanCurveWmi2",
            Prop::GpuTempCurveWmi2 => "gpuTempCurveWmi2",
            Prop::GpuHysteresisCurveWmi2 => "gpuHysteresisCurveWmi2",
            Prop::EcDump => "ecDump",
            Prop::EcDumpPretty => "ecDumpPretty",
            Prop::Methods => "methods",
            Prop::Connected => "connected",
        }
    }
}

/// The client's copy of the daemon's state.
pub struct ClientState {
    pub connected: bool,
    pub fan_count: Fans,
    pub fan_max: u8,
    pub has_dgpu: bool,
    pub wmi_ver: WmiVer,
    pub fw_version: String,
    pub fw_date: String,
    pub fw_time: String,
    pub shift_modes: Vec<ShiftMode>,
    pub shift_mode: ShiftMode,
    pub shift_mode_supported: bool,
    pub battery_charge_mode: BatteryMode,
    pub battery_charge_mode_supported: bool,
    pub super_battery: SuperBattery,
    pub super_battery_supported: bool,
    pub fan1_rpm: u16,
    pub fan2_rpm: u16,
    pub fan3_rpm: u16,
    pub fan4_rpm: u16,
    pub fan1_supported: bool,
    pub fan2_supported: bool,
    pub fan3_supported: bool,
    pub fan4_supported: bool,
    pub fan_modes: Vec<FanMode>,
    pub fan_mode: FanMode,
    pub fan_mode_supported: bool,
    pub webcam: Webcam,
    pub webcam_block: Webcam,
    pub webcam_supported: bool,
    pub webcam_block_supported: bool,
    pub cooler_boost: CoolerBoost,
    pub cooler_boost_supported: bool,
    pub swap_key: SwapKey,
    pub fn_win_swap_supported: bool,
    pub mic_mute_led: Led,
    pub mute_led: Led,
    pub mic_mute_led_supported: bool,
    pub mute_led_supported: bool,
    pub cpu_rt_fan_speed: u8,
    pub cpu_rt_temp: u8,
    pub gpu_rt_fan_speed: u8,
    pub gpu_rt_temp: u8,
    pub cpu_fan_curve_wmi2: Curve7,
    pub cpu_temp_curve_wmi2: Curve7,
    pub cpu_hysteresis_curve_wmi2: Curve6,
    pub gpu_fan_curve_wmi2: Curve7,
    pub gpu_temp_curve_wmi2: Curve7,
    pub gpu_hysteresis_curve_wmi2: Curve6,
    pub methods: Vec<MethodPayload>,
    pub ec_dump: Box<Bin>,
    pub ec_dump_pretty: String,
}

fn same_shift_modes(a: &Vec<ShiftMode>, b: &Vec<ShiftMode>) -> (r: bool)
    ensures
        r == (a@ == b@),
{
    if a.len() != b.len() {
        return false;
    }
    let mut i: usize = 0;
    while i < a.len()
        invariant
            a@.len() == b@.len(),
            i <= a@.len(),
            forall|j: int| 0 <= j < i ==> a@[j] == b@[j],
        decreases a@.len() - i,
    {
        if a[i] != b[i] {
            return false;
        }
        i = i + 1;
    }
    assert(a@ =~= b@);
    true
}

fn same_fan_modes(a: &Vec<FanMode>, b: &Vec<FanMode>) -> (r: bool)
    ensures
        r == (a@ == b@),
{
    if a.len() != b.len() {
        return false;
    }
    let mut i: usize = 0;
    while i < a.len()
        invariant
            a@.len() == b@.len(),
            i <= a@.len(),
            forall|j: int| 0 <= j < i ==> a@[j] == b@[j],
        decreases a@.len() - i,
    {
        if a[i] != b[i] {
            return false;
        }
        i = i + 1;
    }
    assert(a@ =~= b@);
    true
}

fn same_dump(a: &[u8; 256], b: &[u8; 256]) -> (r: bool)
    ensures
        r == (a@ == b@),
{
    let mut i: usize = 0;
    while i < 256
        invariant
            a@.len() == 256,
            b@.len() == 256,
            i <= 256,
            forall|j: int| 0 <= j < i ==> a@[j] == b@[j],
        decreases 256 - i,
    {
        if a[i] != b[i] {
            return false;
        }
        i = i + 1;
    }
    assert(a@ =~= b@);
    true
}

/// The kind of call that the QML enum value `repr` stands for; the last value
/// stands for the method list.
pub open spec fn spec_method_ty_of_repr(repr: i32) -> MethodTy {
    if repr == 0 {
        MethodTy::FanCount
    } else if repr == 1 {
        MethodTy::FanMax
    } else if repr == 2 {
        MethodTy::HasDGpu
    } else if repr == 3 {
        MethodTy::WmiVer
    } else if repr == 4 {
        MethodTy::FwVersion
    } else if repr == 5 {
        MethodTy::FwDate
    } else if repr == 6 {
        MethodTy::FwTime
    } else if repr == 7 {
        MethodTy::ShiftModes
    } else if repr == 8 {
        MethodTy::ShiftMode
    } else if repr == 9 {
        MethodTy::ShiftModeSupported
    } else if repr == 10 {
        MethodTy::BatteryChargeMode
    } else if repr == 11 {
        MethodTy::BatteryChargeModeSupported
    } else if repr == 12 {
        MethodTy::SuperBattery
    } else if repr == 13 {
        MethodTy::SuperBatterySupported
    } else if repr == 14 {
        MethodTy::Fan1Rpm
    } else if repr == 15 {
        MethodTy::Fan2Rpm
    } else if repr == 16 {
        MethodTy::Fan3Rpm
    } else if repr == 17 {
        MethodTy::Fan4Rpm
    } else if repr == 18 {
        MethodTy::Fan1Supported
    } else if repr == 19 {
        MethodTy::Fan2Supported
    } else if repr == 20 {
        MethodTy::Fan3Supported
    } else if repr == 21 {
        MethodTy::Fan4Supported
    } else if repr == 22 {
        MethodTy::FanModes
    } else if repr == 23 {
        MethodTy::FanMode
    } else if repr == 24 {
        MethodTy::FanModeSupported
    } else if repr == 25 {
        MethodTy::Webcam
    } else if repr == 26 {
        MethodTy::WebcamBlock
    } else if repr == 27 {
        MethodTy::WebcamSupported
    } else if repr == 28 {
        MethodTy::WebcamBlockSupported
    } else if repr == 29 {
        MethodTy::CoolerBoost
    } else if repr == 30 {
        MethodTy::CoolerBoostSupported
    } else if repr == 31 {
        MethodTy::FnKey
    } else if repr == 32 {
        MethodTy::WinKey
    } else if repr == 33 {
        MethodTy::FnWinSwapSupported
    } else if repr == 34 {
        MethodTy::MicMuteLed
    } else if repr == 35 {
        MethodTy::MuteLed
    } else if repr == 36 {
        MethodTy::MicMuteLedSupported
    } else if repr == 37 {
        MethodTy::MuteLedSupported
    } else if repr == 38 {
        MethodTy::CpuRtFanSpeed
    } else if repr == 39 {
        MethodTy::CpuRtTemp
    } else if repr == 40 {
        MethodTy::GpuRtFanSpeed
    } else if repr == 41 {
        MethodTy::GpuRtTemp
    } else if repr == 42 {
        MethodTy::CpuFanCurveWmi2
    } else if repr == 43 {
        MethodTy::CpuTempCurveWmi2
    } else if repr == 44 {
        MethodTy::CpuHysteresisCurveWmi2
    } else if repr == 45 {
        MethodTy::GpuFanCurveWmi2
    } else if repr == 46 {
        MethodTy::GpuTempCurveWmi2
    } else if repr == 47 {
        MethodTy::GpuHysteresisCurveWmi2
    } else if repr == 48 {
        MethodTy::EcDumpRaw
    } else if repr == 49 {
        MethodTy::EcDumpPretty
    } else {
        MethodTy::MethodRead
    }
}

/// The kind of call for the QML enum value `repr` (`0..=50`).
pub fn method_ty_from_repr(repr: i32) -> (r: MethodTy)
    requires
        0 <= repr <= 50,
    ensures
        r == spec_method_ty_of_repr(repr),
{
    match repr {
        0 => MethodTy::FanCount,
        1 => MethodTy::FanMax,
        2 => MethodTy::HasDGpu,
        3 => MethodTy::WmiVer,
        4 => MethodTy::FwVersion,
        5 => MethodTy::FwDate,
        6 => MethodTy::FwTime,
        7 => MethodTy::ShiftModes,
        8 => MethodTy::ShiftMode,
        9 => MethodTy::ShiftModeSupported,
        10 => MethodTy::BatteryChargeMode,
        11 => MethodTy::BatteryChargeModeSupported,
        12 => MethodTy::SuperBattery,
        13 => MethodTy::SuperBatterySupported,
        14 => MethodTy::Fan1Rpm,
        15 => MethodTy::Fan2Rpm,
        16 => MethodTy::Fan3Rpm,
        17 => MethodTy::Fan4Rpm,
        18 => MethodTy::Fan1Supported,
        19 => MethodTy::Fan2Supported,
        20 => MethodTy::Fan3Supported,
        21 => MethodTy::Fan4Supported,
        22 => MethodTy::FanModes,
        23 => MethodTy::FanMode,
        24 => MethodTy::FanModeSupported,
        25 => MethodTy::Webcam,
        26 => MethodTy::WebcamBlock,
        27 => MethodTy::WebcamSupported,
        28 => MethodTy::WebcamBlockSupported,
        29 => MethodTy::CoolerBoost,
        30 => MethodTy::CoolerBoostSupported,
        31 => MethodTy::FnKey,
        32 => MethodTy::WinKey,
        33 => MethodTy::FnWinSwapSupported,
        34 => MethodTy::MicMuteLed,
        35 => MethodTy::MuteLed,
        36 => MethodTy::MicMuteLedSupported,
        37 => MethodTy::MuteLedSupported,
        38 => MethodTy::CpuRtFanSpeed,
        39 => MethodTy::CpuRtTemp,
        40 => MethodTy::GpuRtFanSpeed,
        41 => MethodTy::GpuRtTemp,
        42 => MethodTy::CpuFanCurveWmi2,
        43 => MethodTy::CpuTempCurveWmi2,
        44 => MethodTy::CpuHysteresisCurveWmi2,
        45 => MethodTy::GpuFanCurveWmi2,
        46 => MethodTy::GpuTempCurveWmi2,
        47 => MethodTy::GpuHysteresisCurveWmi2,
        48 => MethodTy::EcDumpRaw,
        49 => MethodTy::EcDumpPretty,
        50 => MethodTy::MethodRead,
        _ => MethodTy::MethodRead,
    }
}

/// The call that refreshes the values of kind `ty`: the method list for the
/// method-read kind, none for a kind that is not refreshed.
pub open spec fn spec_request(ty: MethodTy) -> Option<Method<'static>> {
    match ty {
        MethodTy::FanCount => Some(Method::FanCount),
        MethodTy::FanMax => Some(Method::FanMax),
        MethodTy::HasDGpu => Some(Method::HasDGpu),
        MethodTy::WmiVer => Some(Method::WmiVer),
        MethodTy::FwVersion => Some(Method::FwVersion),
        MethodTy::FwDate => Some(Method::FwDate),
        MethodTy::FwTime => Some(Method::FwTime),
        MethodTy::ShiftModes => Some(Method::ShiftModes),
        MethodTy::ShiftMode => Some(Method::ShiftMode),
        MethodTy::ShiftModeSupported => Some(Method::ShiftModeSupported),
        MethodTy::BatteryChargeMode => Some(Method::BatteryChargeMode),
        MethodTy::BatteryChargeModeSupported => Some(Method::BatteryChargeModeSupported),
        MethodTy::SuperBattery => Some(Method::SuperBattery),
        MethodTy::SuperBatterySupported => Some(Method::SuperBatterySupported),
        MethodTy::Fan1Rpm => Some(Method::Fan1Rpm),
        MethodTy::Fan2Rpm => Some(Method::Fan2Rpm),
        MethodTy::Fan3Rpm => Some(Method::Fan3Rpm),
        MethodTy::Fan4Rpm => Some(Method::Fan4Rpm),
        MethodTy::Fan1Supported => Some(Method::Fan1Supported),
        MethodTy::Fan2Supported => Some(Method::Fan2Supported),
        MethodTy::Fan3Supported => Some(Method::Fan3Supported),
        MethodTy::Fan4Supported => Some(Method::Fan4Supported),
        MethodTy::FanModes => Some(Method::FanModes),
        MethodTy::FanMode => Some(Method::FanMode),
        MethodTy::FanModeSupported => Some(Method::FanModeSupported),
        MethodTy::Webcam => Some(Method::Webcam),
        MethodTy::WebcamBlock => Some(Method::WebcamBlock),
        MethodTy::WebcamSupported => Some(Method::WebcamSupported),
        MethodTy::WebcamBlockSupported => Some(Method::WebcamBlockSupported),
        MethodTy::CoolerBoost => Some(Method::CoolerBoost),
        MethodTy::CoolerBoostSupported => Some(Method::CoolerBoostSupported),
        MethodTy::FnKey => Some(Method::FnKey),
        MethodTy::WinKey => Some(Method::WinKey),
        MethodTy::FnWinSwapSupported => Some(Method::FnWinSwapSupported),
        MethodTy::MicMuteLed => Some(Method::MicMuteLed),
        MethodTy::MuteLed => Some(Method::MuteLed),
        MethodTy::MicMuteLedSupported => Some(Method::MicMuteLedSupported),
        MethodTy::MuteLedSupported => Some(Method::MuteLedSupported),
        MethodTy::CpuRtFanSpeed => Some(Method::CpuRtFanSpeed),
        MethodTy::CpuRtTemp => Some(Method::CpuRtTemp),
        MethodTy::GpuRtFanSpeed => Some(Method::GpuRtFanSpeed),
        MethodTy::GpuRtTemp => Some(Method::GpuRtTemp),
        MethodTy::CpuFanCurveWmi2 => Some(Method::CpuFanCurveWmi2),
        MethodTy::CpuTempCurveWmi2 => Some(Method::CpuTempCurveWmi2),
        MethodTy::CpuHysteresisCurveWmi2 => Some(Method::CpuHysteresisCurveWmi2),
        MethodTy::GpuFanCurveWmi2 => Some(Method::GpuFanCurveWmi2),
        MethodTy::GpuTempCurveWmi2 => Some(Method::GpuTempCurveWmi2),
        MethodTy::GpuHysteresisCurveWmi2 => Some(Method::GpuHysteresisCurveWmi2),
        MethodTy::EcDumpRaw => Some(Method::EcDumpRaw),
        MethodTy::EcDumpPretty => Some(Method::EcDumpPretty),
        MethodTy::MethodRead => Some(Method::MethodList),
        _ => None,
    }
}

pub fn request(ty: MethodTy) -> (r: Option<Method<'static>>)
    ensures
        r == spec_request(ty),
{
    match ty {
        MethodTy::FanCount => Some(Method::FanCount),
        MethodTy::FanMax => Some(Method::FanMax),
        MethodTy::HasDGpu => Some(Method::HasDGpu),
        MethodTy::WmiVer => Some(Method::WmiVer),
        MethodTy::FwVersion => Some(Method::FwVersion),
        MethodTy::FwDate => Some(Method::FwDate),
        MethodTy::FwTime => Some(Method::FwTime),
        MethodTy::ShiftModes => Some(Method::ShiftModes),
        MethodTy::ShiftMode => Some(Method::ShiftMode),
        MethodTy::ShiftModeSupported => Some(Method::ShiftModeSupported),
        MethodTy::BatteryChargeMode => Some(Method::BatteryChargeMode),
        MethodTy::BatteryChargeModeSupported => Some(Method::BatteryChargeModeSupported),
        MethodTy::SuperBattery => Some(Method::SuperBattery),
        MethodTy::SuperBatterySupported => Some(Method::SuperBatterySupported),
        MethodTy::Fan1Rpm => Some(Method::Fan1Rpm),
        MethodTy::Fan2Rpm => Some(Method::Fan2Rpm),
        MethodTy::Fan3Rpm => Some(Method::Fan3Rpm),
        MethodTy::Fan4Rpm => Some(Method::Fan4Rpm),
        MethodTy::Fan1Supported => Some(Method::Fan1Supported),
        MethodTy::Fan2Supported => Some(Method::Fan2Supported),
        MethodTy::Fan3Supported => Some(Method::Fan3Supported),
        MethodTy::Fan4Supported => Some(Method::Fan4Supported),
        MethodTy::FanModes => Some(Method::FanModes),
        MethodTy::FanMode => Some(Method::FanMode),
        MethodTy::FanModeSupported => Some(Method::FanModeSupported),
        MethodTy::Webcam => Some(Method::Webcam),
        MethodTy::WebcamBlock => Some(Method::WebcamBlock),
        MethodTy::WebcamSupported => Some(Method::WebcamSupported),
        MethodTy::WebcamBlockSupported => Some(Method::WebcamBlockSupported),
        MethodTy::CoolerBoost => Some(Method::CoolerBoost),
        MethodTy::CoolerBoostSupported => Some(Method::CoolerBoostSupported),
        MethodTy::FnKey => Some(Method::FnKey),
        MethodTy::WinKey => Some(Method::WinKey),
        MethodTy::FnWinSwapSupported => Some(Method::FnWinSwapSupported),
        MethodTy::MicMuteLed => Some(Method::MicMuteLed),
        MethodTy::MuteLed => Some(Method::MuteLed),
        MethodTy::MicMuteLedSupported => Some(Method::MicMuteLedSupported),
        MethodTy::MuteLedSupported => Some(Method::MuteLedSupported),
        MethodTy::CpuRtFanSpeed => Some(Method::CpuRtFanSpeed),
        MethodTy::CpuRtTemp => Some(Method::CpuRtTemp),
        MethodTy::GpuRtFanSpeed => Some(Method::GpuRtFanSpeed),
        MethodTy::GpuRtTemp => Some(Method::GpuRtTemp),
        MethodTy::CpuFanCurveWmi2 => Some(Method::CpuFanCurveWmi2),
        MethodTy::CpuTempCurveWmi2 => Some(Method::CpuTempCurveWmi2),
        MethodTy::CpuHysteresisCurveWmi2 => Some(Method::CpuHysteresisCurveWmi2),
        MethodTy::GpuFanCurveWmi2 => Some(Method::GpuFanCurveWmi2),
        MethodTy::GpuTempCurveWmi2 => Some(Method::GpuTempCurveWmi2),
        MethodTy::GpuHysteresisCurveWmi2 => Some(Method::GpuHysteresisCurveWmi2),
        MethodTy::EcDumpRaw => Some(Method::EcDumpRaw),
        MethodTy::EcDumpPretty => Some(Method::EcDumpPretty),
        MethodTy::MethodRead => Some(Method::MethodList),
        _ => None,
    }
}

/// The kinds refreshed when the state is first loaded: every kind in order,
/// but the two dumps and the method list.
pub open spec fn spec_init_state() -> Seq<MethodTy> {
    seq![MethodTy::Ping, MethodTy::FanCount, MethodTy::FanMax, MethodTy::HasDGpu, MethodTy::WmiVer, MethodTy::FwVersion, MethodTy::FwDate, MethodTy::FwTime, MethodTy::ShiftModes, MethodTy::ShiftMode, MethodTy::SetShiftMode, MethodTy::ShiftModeSupported, MethodTy::BatteryChargeMode, MethodTy::SetBatteryChargeMode, MethodTy::BatteryChargeModeSupported, MethodTy::SuperBattery, MethodTy::SetSuperBattery, MethodTy::SuperBatterySupported, MethodTy::Fan1Rpm, MethodTy::Fan2Rpm, MethodTy::Fan3Rpm, MethodTy::Fan4Rpm, MethodTy::Fan1Supported, MethodTy::Fan2Supported, MethodTy::Fan3Supported, MethodTy::Fan4Supported, MethodTy::FanModes, MethodTy::FanMode, MethodTy::SetFanMode, MethodTy::FanModeSupported, MethodTy::Webcam, MethodTy::WebcamBlock, MethodTy::SetWebcam, MethodTy::SetWebcamBlock, MethodTy::WebcamSupported, MethodTy::WebcamBlockSupported, MethodTy::CoolerBoost, MethodTy::SetCoolerBoost, MethodTy::CoolerBoostSupported, MethodTy::FnKey, MethodTy::WinKey, MethodTy::SetFnKey, MethodTy::SetWinKey, MethodTy::FnWinSwapSupported, MethodTy::MicMuteLed, MethodTy::MuteLed, MethodTy::SetMicMuteLed, MethodTy::SetMuteLed, MethodTy::MicMuteLedSupported, MethodTy::MuteLedSupported, MethodTy::CpuRtFanSpeed, MethodTy::CpuRtTemp, MethodTy::GpuRtFanSpeed, MethodTy::GpuRtTemp, MethodTy::CpuFanCurveWmi2, MethodTy::CpuTempCurveWmi2, MethodTy::CpuHysteresisCurveWmi2, MethodTy::GpuFanCurveWmi2, MethodTy::GpuTempCurveWmi2, MethodTy::GpuHysteresisCurveWmi2, MethodTy::SetCpuFanCurveWmi2, MethodTy::SetCpuTempCurveWmi2, MethodTy::SetCpuHysteresisCurveWmi2, MethodTy::SetGpuFanCurveWmi2, MethodTy::SetGpuTempCurveWmi2, MethodTy::SetGpuHysteresisCurveWmi2, MethodTy::MethodRead, MethodTy::MethodWrite]
}

pub fn init_state() -> (r: Vec<MethodTy>)
    ensures
        r@ == spec_init_state(),
{
    let r = vec![MethodTy::Ping, MethodTy::FanCount, MethodTy::FanMax, MethodTy::HasDGpu, MethodTy::WmiVer, MethodTy::FwVersion, MethodTy::FwDate, MethodTy::FwTime, MethodTy::ShiftModes, MethodTy::ShiftMode, MethodTy::SetShiftMode, MethodTy::ShiftModeSupported, MethodTy::BatteryChargeMode, MethodTy::SetBatteryChargeMode, MethodTy::BatteryChargeModeSupported, MethodTy::SuperBattery, MethodTy::SetSuperBattery, MethodTy::SuperBatterySupported, MethodTy::Fan1Rpm, MethodTy::Fan2Rpm, MethodTy::Fan3Rpm, MethodTy::Fan4Rpm, MethodTy::Fan1Supported, MethodTy::Fan2Supported, MethodTy::Fan3Supported, MethodTy::Fan4Supported, MethodTy::FanModes, MethodTy::FanMode, MethodTy::SetFanMode, MethodTy::FanModeSupported, MethodTy::Webcam, MethodTy::WebcamBlock, MethodTy::SetWebcam, MethodTy::SetWebcamBlock, MethodTy::WebcamSupported, MethodTy::WebcamBlockSupported, MethodTy::CoolerBoost, MethodTy::SetCoolerBoost, MethodTy::CoolerBoostSupported, MethodTy::FnKey, MethodTy::WinKey, MethodTy::SetFnKey, MethodTy::SetWinKey, MethodTy::FnWinSwapSupported, MethodTy::MicMuteLed, MethodTy::MuteLed, MethodTy::SetMicMuteLed, MethodTy::SetMuteLed, MethodTy::MicMuteLedSupported, MethodTy::MuteLedSupported, MethodTy::CpuRtFanSpeed, MethodTy::CpuRtTemp, MethodTy::GpuRtFanSpeed, MethodTy::GpuRtTemp, MethodTy::CpuFanCurveWmi2, MethodTy::CpuTempCurveWmi2, MethodTy::CpuHysteresisCurveWmi2, MethodTy::GpuFanCurveWmi2, MethodTy::GpuTempCurveWmi2, MethodTy::GpuHysteresisCurveWmi2, MethodTy::SetCpuFanCurveWmi2, MethodTy::SetCpuTempCurveWmi2, MethodTy::SetCpuHysteresisCurveWmi2, MethodTy::SetGpuFanCurveWmi2, MethodTy::SetGpuTempCurveWmi2, MethodTy::SetGpuHysteresisCurveWmi2, MethodTy::MethodRead, MethodTy::MethodWrite];
    assert(r@ =~= spec_init_state());
    r
}

/// A reply to a refresh of kind `ty` has the kind of value that `ty` asks for.
pub open spec fn spec_reply_fits(ty: MethodTy, ret: RetVal) -> bool {
    match (ty, ret) {
        (MethodTy::FanCount, RetVal::Fans(_)) => true,
        (MethodTy::FanMax, RetVal::Byte(_)) => true,
        (MethodTy::HasDGpu, RetVal::State(_)) => true,
        (MethodTy::WmiVer, RetVal::WmiVer(_)) => true,
        (MethodTy::FwVersion, RetVal::Str(_)) => true,
        (MethodTy::FwDate, RetVal::Str(_)) => true,
        (MethodTy::FwTime, RetVal::Str(_)) => true,
        (MethodTy::ShiftModes, RetVal::ShiftModes(_)) => true,
        (MethodTy::ShiftMode, RetVal::ShiftMode(_)) => true,
        (MethodTy::ShiftModeSupported, RetVal::State(_)) => true,
        (MethodTy::BatteryChargeMode, RetVal::BatteryChargeMode(_)) => true,
        (MethodTy::BatteryChargeModeSupported, RetVal::State(_)) => true,
        (MethodTy::SuperBattery, RetVal::SuperBattery(_)) => true,
        (MethodTy::SuperBatterySupported, RetVal::State(_)) => true,
        (MethodTy::Fan1Rpm, RetVal::Word(_)) => true,
        (MethodTy::Fan2Rpm, RetVal::Word(_)) => true,
        (MethodTy::Fan3Rpm, RetVal::Word(_)) => true,
        (MethodTy::Fan4Rpm, RetVal::Word(_)) => true,
        (MethodTy::Fan1Supported, RetVal::State(_)) => true,
        (MethodTy::Fan2Supported, RetVal::State(_)) => true,
        (MethodTy::Fan3Supported, RetVal::State(_)) => true,
        (MethodTy::Fan4Supported, RetVal::State(_)) => true,
        (MethodTy::FanModes, RetVal::FanModes(_)) => true,
        (MethodTy::FanMode, RetVal::FanMode(_)) => true,
        (MethodTy::FanModeSupported, RetVal::State(_)) => true,
        (MethodTy::Webcam, RetVal::Webcam(_)) => true,
        (MethodTy::WebcamBlock, RetVal::Webcam(_)) => true,
        (MethodTy::WebcamSupported, RetVal::State(_)) => true,
        (MethodTy::WebcamBlockSupported, RetVal::State(_)) => true,
        (MethodTy::CoolerBoost, RetVal::CoolerBoost(_)) => true,
        (MethodTy::CoolerBoostSupported, RetVal::State(_)) => true,
        (MethodTy::FnKey, RetVal::KeyDirection(_)) => true,
        (MethodTy::WinKey, RetVal::KeyDirection(_)) => true,
        (MethodTy::FnWinSwapSupported, RetVal::State(_)) => true,
        (MethodTy::MicMuteLed, RetVal::Led(_)) => true,
        (MethodTy::MuteLed, RetVal::Led(_)) => true,
        (MethodTy::MicMuteLedSupported, RetVal::State(_)) => true,
        (MethodTy::MuteLedSupported, RetVal::State(_)) => true,
        (MethodTy::CpuRtFanSpeed, RetVal::Byte(_)) => true,
        (MethodTy::CpuRtTemp, RetVal::Byte(_)) => true,
        (MethodTy::GpuRtFanSpeed, RetVal::Byte(_)) => true,
        (MethodTy::GpuRtTemp, RetVal::Byte(_)) => true,
        (MethodTy::CpuFanCurveWmi2, RetVal::Curve7(_)) => true,
        (MethodTy::CpuTempCurveWmi2, RetVal::Curve7(_)) => true,
        (MethodTy::CpuHysteresisCurveWmi2, RetVal::Curve6(_)) => true,
        (MethodTy::GpuFanCurveWmi2, RetVal::Curve7(_)) => true,
        (MethodTy::GpuTempCurveWmi2, RetVal::Curve7(_)) => true,
        (MethodTy::GpuHysteresisCurveWmi2, RetVal::Curve6(_)) => true,
        (MethodTy::EcDumpRaw, RetVal::EcDump(_)) => true,
        (MethodTy::EcDumpPretty, RetVal::Str(_)) => true,
        _ => false,
    }
}

pub fn reply_fits(ty: MethodTy, ret: &RetVal) -> (r: bool)
    ensures
        r == spec_reply_fits(ty, *ret),
{
    match (ty, ret) {
        (MethodTy::FanCount, RetVal::Fans(_)) => true,
        (MethodTy::FanMax, RetVal::Byte(_)) => true,
        (MethodTy::HasDGpu, RetVal::State(_)) => true,
        (MethodTy::WmiVer, RetVal::WmiVer(_)) => true,
        (MethodTy::FwVersion, RetVal::Str(_)) => true,
        (MethodTy::FwDate, RetVal::Str(_)) => true,
        (MethodTy::FwTime, RetVal::Str(_)) => true,
        (MethodTy::ShiftModes, RetVal::ShiftModes(_)) => true,
        (MethodTy::ShiftMode, RetVal::ShiftMode(_)) => true,
        (MethodTy::ShiftModeSupported, RetVal::State(_)) => true,
        (MethodTy::BatteryChargeMode, RetVal::BatteryChargeMode(_)) => true,
        (MethodTy::BatteryChargeModeSupported, RetVal::State(_)) => true,
        (MethodTy::SuperBattery, RetVal::SuperBattery(_)) => true,
        (MethodTy::SuperBatterySupported, RetVal::State(_)) => true,
        (MethodTy::Fan1Rpm, RetVal::Word(_)) => true,
        (MethodTy::Fan2Rpm, RetVal::Word(_)) => true,
        (MethodTy::Fan3Rpm, RetVal::Word(_)) => true,
        (MethodTy::Fan4Rpm, RetVal::Word(_)) => true,
        (MethodTy::Fan1Supported, RetVal::State(_)) => true,
        (MethodTy::Fan2Supported, RetVal::State(_)) => true,
        (MethodTy::Fan3Supported, RetVal::State(_)) => true,
        (MethodTy::Fan4Supported, RetVal::State(_)) => true,
        (MethodTy::FanModes, RetVal::FanModes(_)) => true,
        (MethodTy::FanMode, RetVal::FanMode(_)) => true,
        (MethodTy::FanModeSupported, RetVal::State(_)) => true,
        (MethodTy::Webcam, RetVal::Webcam(_)) => true,
        (MethodTy::WebcamBlock, RetVal::Webcam(_)) => true,
        (MethodTy::WebcamSupported, RetVal::State(_)) => true,
        (MethodTy::WebcamBlockSupported, RetVal::State(_)) => true,
        (MethodTy::CoolerBoost, RetVal::CoolerBoost(_)) => true,
        (MethodTy::CoolerBoostSupported, RetVal::State(_)) => true,
        (MethodTy::FnKey, RetVal::KeyDirection(_)) => true,
        (MethodTy::WinKey, RetVal::KeyDirection(_)) => true,
        (MethodTy::FnWinSwapSupported, RetVal::State(_)) => true,
        (MethodTy::MicMuteLed, RetVal::Led(_)) => true,
        (MethodTy::MuteLed, RetVal::Led(_)) => true,
        (MethodTy::MicMuteLedSupported, RetVal::State(_)) => true,
        (MethodTy::MuteLedSupported, RetVal::State(_)) => true,
        (MethodTy::CpuRtFanSpeed, RetVal::Byte(_)) => true,
        (MethodTy::CpuRtTemp, RetVal::Byte(_)) => true,
        (MethodTy::GpuRtFanSpeed, RetVal::Byte(_)) => true,
        (MethodTy::GpuRtTemp, RetVal::Byte(_)) => true,
        (MethodTy::CpuFanCurveWmi2, RetVal::Curve7(_)) => true,
        (MethodTy::CpuTempCurveWmi2, RetVal::Curve7(_)) => true,
        (MethodTy::CpuHysteresisCurveWmi2, RetVal::Curve6(_)) => true,
        (MethodTy::GpuFanCurveWmi2, RetVal::Curve7(_)) => true,
        (MethodTy::GpuTempCurveWmi2, RetVal::Curve7(_)) => true,
        (MethodTy::GpuHysteresisCurveWmi2, RetVal::Curve6(_)) => true,
        (MethodTy::EcDumpRaw, RetVal::EcDump(_)) => true,
        (MethodTy::EcDumpPretty, RetVal::Str(_)) => true,
        _ => false,
    }
}

impl ClientState {
    /// The state after the reply `ret` to a refresh of kind `ty`: the value is
    /// stored where it differs from the one held.
    pub open spec fn after_reply(self, ty: MethodTy, ret: RetVal) -> ClientState {
        match ty {
            MethodTy::FanCount => self.after_fan_count(ret),
            MethodTy::FanMax => self.after_fan_max(ret),
            MethodTy::HasDGpu => self.after_has_d_gpu(ret),
            MethodTy::WmiVer => self.after_wmi_ver(ret),
            MethodTy::FwVersion => self.after_fw_version(ret),
            MethodTy::FwDate => self.after_fw_date(ret),
            MethodTy::FwTime => self.after_fw_time(ret),
            MethodTy::ShiftModes => self.after_shift_modes(ret),
            MethodTy::ShiftMode => self.after_shift_mode(ret),
            MethodTy::ShiftModeSupported => self.after_shift_mode_supported(ret),
            MethodTy::BatteryChargeMode => self.after_battery_charge_mode(ret),
            MethodTy::BatteryChargeModeSupported => self.after_battery_charge_mode_supported(ret),
            MethodTy::SuperBattery => self.after_super_battery(ret),
            MethodTy::SuperBatterySupported => self.after_super_battery_supported(ret),
            MethodTy::Fan1Rpm => self.after_fan1_rpm(ret),
            MethodTy::Fan2Rpm => self.after_fan2_rpm(ret),
            MethodTy::Fan3Rpm => self.after_fan3_rpm(ret),
            MethodTy::Fan4Rpm => self.after_fan4_rpm(ret),
            MethodTy::Fan1Supported => self.after_fan1_supported(ret),
            MethodTy::Fan2Supported => self.after_fan2_supported(ret),
            MethodTy::Fan3Supported => self.after_fan3_supported(ret),
            MethodTy::Fan4Supported => self.after_fan4_supported(ret),
            MethodTy::FanModes => self.after_fan_modes(ret),
            MethodTy::FanMode => self.after_fan_mode(ret),
            MethodTy::FanModeSupported => self.after_fan_mode_supported(ret),
            MethodTy::Webcam => self.after_webcam(ret),
            MethodTy::WebcamBlock => self.after_webcam_block(ret),
            MethodTy::WebcamSupported => self.after_webcam_supported(ret),
            MethodTy::WebcamBlockSupported => self.after_webcam_block_supported(ret),
            MethodTy::CoolerBoost => self.after_cooler_boost(ret),
            MethodTy::CoolerBoostSupported => self.after_cooler_boost_supported(ret),
            MethodTy::FnKey => self.after_fn_key(ret),
            MethodTy::WinKey => self.after_win_key(ret),
            MethodTy::FnWinSwapSupported => self.after_fn_win_swap_supported(ret),
            MethodTy::MicMuteLed => self.after_mic_mute_led(ret),
            MethodTy::MuteLed => self.after_mute_led(ret),
            MethodTy::MicMuteLedSupported => self.after_mic_mute_led_supported(ret),
            MethodTy::MuteLedSupported => self.after_mute_led_supported(ret),
            MethodTy::CpuRtFanSpeed => self.after_cpu_rt_fan_speed(ret),
            MethodTy::CpuRtTemp => self.after_cpu_rt_temp(ret),
            MethodTy::GpuRtFanSpeed => self.after_gpu_rt_fan_speed(ret),
            MethodTy::GpuRtTemp => self.after_gpu_rt_temp(ret),
            MethodTy::CpuFanCurveWmi2 => self.after_cpu_fan_curve_wmi2(ret),
            MethodTy::CpuTempCurveWmi2 => self.after_cpu_temp_curve_wmi2(ret),
            MethodTy::CpuHysteresisCurveWmi2 => self.after_cpu_hysteresis_curve_wmi2(ret),
            MethodTy::GpuFanCurveWmi2 => self.after_gpu_fan_curve_wmi2(ret),
            MethodTy::GpuTempCurveWmi2 => self.after_gpu_temp_curve_wmi2(ret),
            MethodTy::GpuHysteresisCurveWmi2 => self.after_gpu_hysteresis_curve_wmi2(ret),
            MethodTy::EcDumpRaw => self.after_ec_dump_raw(ret),
            MethodTy::EcDumpPretty => self.after_ec_dump_pretty(ret),
            _ => self,
        }
    }

    /// The properties reported as changed by that reply.
    pub open spec fn reply_changes(self, ty: MethodTy, ret: RetVal) -> Seq<Prop> {
        match ty {
            MethodTy::FanCount => self.changes_fan_count(ret),
            MethodTy::FanMax => self.changes_fan_max(ret),
            MethodTy::HasDGpu => self.changes_has_d_gpu(ret),
            MethodTy::WmiVer => self.changes_wmi_ver(ret),
            MethodTy::FwVersion => self.changes_fw_version(ret),
            MethodTy::FwDate => self.changes_fw_date(ret),
            MethodTy::FwTime => self.changes_fw_time(ret),
            MethodTy::ShiftModes => self.changes_shift_modes(ret),
            MethodTy::ShiftMode => self.changes_shift_mode(ret),
            MethodTy::ShiftModeSupported => self.changes_shift_mode_supported(ret),
            MethodTy::BatteryChargeMode => self.changes_battery_charge_mode(ret),
            MethodTy::BatteryChargeModeSupported => self.changes_battery_charge_mode_supported(ret),
            MethodTy::SuperBattery => self.changes_super_battery(ret),
            MethodTy::SuperBatterySupported => self.changes_super_battery_supported(ret),
            MethodTy::Fan1Rpm => self.changes_fan1_rpm(ret),
            MethodTy::Fan2Rpm => self.changes_fan2_rpm(ret),
            MethodTy::Fan3Rpm => self.changes_fan3_rpm(ret),
            MethodTy::Fan4Rpm => self.changes_fan4_rpm(ret),
            MethodTy::Fan1Supported => self.changes_fan1_supported(ret),
            MethodTy::Fan2Supported => self.changes_fan2_supported(ret),
            MethodTy::Fan3Supported => self.changes_fan3_supported(ret),
            MethodTy::Fan4Supported => self.changes_fan4_supported(ret),
            MethodTy::FanModes => self.changes_fan_modes(ret),
            MethodTy::FanMode => self.changes_fan_mode(ret),
            MethodTy::FanModeSupported => self.changes_fan_mode_supported(ret),
            MethodTy::Webcam => self.changes_webcam(ret),
            MethodTy::WebcamBlock => self.changes_webcam_block(ret),
            MethodTy::WebcamSupported => self.changes_webcam_supported(ret),
            MethodTy::WebcamBlockSupported => self.changes_webcam_block_supported(ret),
            MethodTy::CoolerBoost => self.changes_cooler_boost(ret),
            MethodTy::CoolerBoostSupported => self.changes_cooler_boost_supported(ret),
            MethodTy::FnKey => self.changes_fn_key(ret),
            MethodTy::WinKey => self.changes_win_key(ret),
            MethodTy::FnWinSwapSupported => self.changes_fn_win_swap_supported(ret),
            MethodTy::MicMuteLed => self.changes_mic_mute_led(ret),
            MethodTy::MuteLed => self.changes_mute_led(ret),
            MethodTy::MicMuteLedSupported => self.changes_mic_mute_led_supported(ret),
            MethodTy::MuteLedSupported => self.changes_mute_led_supported(ret),
            MethodTy::CpuRtFanSpeed => self.changes_cpu_rt_fan_speed(ret),
            MethodTy::CpuRtTemp => self.changes_cpu_rt_temp(ret),
            MethodTy::GpuRtFanSpeed => self.changes_gpu_rt_fan_speed(ret),
            MethodTy::GpuRtTemp => self.changes_gpu_rt_temp(ret),
            MethodTy::CpuFanCurveWmi2 => self.changes_cpu_fan_curve_wmi2(ret),
            MethodTy::CpuTempCurveWmi2 => self.changes_cpu_temp_curve_wmi2(ret),
            MethodTy::CpuHysteresisCurveWmi2 => self.changes_cpu_hysteresis_curve_wmi2(ret),
            MethodTy::GpuFanCurveWmi2 => self.changes_gpu_fan_curve_wmi2(ret),
            MethodTy::GpuTempCurveWmi2 => self.changes_gpu_temp_curve_wmi2(ret),
            MethodTy::GpuHysteresisCurveWmi2 => self.changes_gpu_hysteresis_curve_wmi2(ret),
            MethodTy::EcDumpRaw => self.changes_ec_dump_raw(ret),
            MethodTy::EcDumpPretty => self.changes_ec_dump_pretty(ret),
            _ => Seq::empty(),
        }
    }

    pub open spec fn after_fan_count(self, ret: RetVal) -> ClientState {
        let s = self;
        match ret {
            RetVal::Fans(v) => if v == s.fan_count { s } else { ClientState { fan_count: v, ..s } },
            _ => s,
        }
    }

    pub open spec fn changes_fan_count(self, ret: RetVal) -> Seq<Prop> {
        let s = self;
        match ret {
            RetVal::Fans(v) => if v == s.fan_count { Seq::empty() } else { seq![Prop::FanCount] },
            _ => Seq::empty(),
        }
    }

    pub open spec fn after_fan_max(self, ret: RetVal) -> ClientState {
        let s = self;
        match ret {
            RetVal::Byte(v) => if v == s.fan_max { s } else { ClientState { fan_max: v, ..s } },
            _ => s,
        }
    }

    pub open spec fn changes_fan_max(self, ret: RetVal) -> Seq<Prop> {
        let s = self;
        match ret {
            RetVal::Byte(v) => if v == s.fan_max { Seq::empty() } else { seq![Prop::FanMax] },
            _ => Seq::empty(),
        }
    }

    pub open spec fn after_has_d_gpu(self, ret: RetVal) -> ClientState {
        let s = self;
        match ret {
            RetVal::State(v) => if v == s.has_dgpu { s } else { ClientState { has_dgpu: v, ..s } },
            _ => s,
        }
    }

    pub open spec fn changes_has_d_gpu(self, ret: RetVal) -> Seq<Prop> {
        let s = self;
        match ret {
            RetVal::State(v) => if v == s.has_dgpu { Seq::empty() } else { seq![Prop::HasDgpu] },
            _ => Seq::empty(),
        }
    }

    pub open spec fn after_wmi_ver(self, ret: RetVal) -> ClientState {
        let s = self;
        match ret {
            RetVal::WmiVer(v) => if v == s.wmi_ver { s } else { ClientState { wmi_ver: v, ..s } },
            _ => s,
        }
    }

    pub open spec fn changes_wmi_ver(self, ret: RetVal) -> Seq<Prop> {
        let s = self;
        match ret {
            RetVal::WmiVer(v) => if v == s.wmi_ver { Seq::empty() } else { seq![Prop::WmiVer] },
            _ => Seq::empty(),
        }
    }

    pub open spec fn after_fw_version(self, ret: RetVal) -> ClientState {
        let s = self;
        match ret {
            RetVal::Str(v) => if v@ == s.fw_version@ { s } else { ClientState { fw_version: v, ..s } },
            _ => s,
        }
    }

    pub open spec fn changes_fw_version(self, ret: RetVal) -> Seq<Prop> {
        let s = self;
        match ret {
            RetVal::Str(v) => if v@ == s.fw_version@ { Seq::empty() } else { seq![Prop::FwVersion] },
            _ => Seq::empty(),
        }
    }

    pub open spec fn after_fw_date(self, ret: RetVal) -> ClientState {
        let s = self;
        match ret {
            RetVal::Str(v) => if v@ == s.fw_date@ { s } else { ClientState { fw_date: v, ..s } },
            _ => s,
        }
    }

    pub open spec fn changes_fw_date(self, ret: RetVal) -> Seq<Prop> {
        let s = self;
        match ret {
            RetVal::Str(v) => if v@ == s.fw_date@ { Seq::empty() } else { seq![Prop::FwDate] },
            _ => Seq::empty(),
        }
    }

    pub open spec fn after_fw_time(self, ret: RetVal) -> ClientState {
        let s = self;
        match ret {
            RetVal::Str(v) => if v@ == s.fw_time@ { s } else { ClientState { fw_time: v, ..s } },
            _ => s,
        }
    }

    pub open spec fn changes_fw_time(self, ret: RetVal) -> Seq<Prop> {
        let s = self;
        match ret {
            RetVal::Str(v) => if v@ == s.fw_time@ { Seq::empty() } else { seq![Prop::Fwtime] },
            _ => Seq::empty(),
        }
    }

    pub open spec fn after_shift_modes(self, ret: RetVal) -> ClientState {
        let s = self;
        match ret {
            RetVal::ShiftModes(v) => if v@ == s.shift_modes@ { s } else { ClientState { shift_modes: v, ..s } },
            _ => s,
        }
    }

    pub open spec fn changes_shift_modes(self, ret: RetVal) -> Seq<Prop> {
        let s = self;
        match ret {
            RetVal::ShiftModes(v) => if v@ == s.shift_modes@ { Seq::empty() } else { seq![Prop::ShiftModes] },
            _ => Seq::empty(),
        }
    }

    pub open spec fn after_shift_mode(self, ret: RetVal) -> ClientState {
        let s = self;
        match ret {
            RetVal::ShiftMode(v) => if v == s.shift_mode { s } else { ClientState { shift_mode: v, ..s } },
            _ => s,
        }
    }

    pub open spec fn changes_shift_mode(self, ret: RetVal) -> Seq<Prop> {
        let s = self;
        match ret {
            RetVal::ShiftMode(v) => if v == s.shift_mode { Seq::empty() } else { seq![Prop::ShiftMode] },
            _ => Seq::empty(),
        }
    }

    pub open spec fn after_shift_mode_supported(self, ret: RetVal) -> ClientState {
        let s = self;
        match ret {
            RetVal::State(v) => if v == s.shift_mode_supported { s } else { ClientState { shift_mode_supported: v, ..s } },
            _ => s,
        }
    }

    pub open spec fn changes_shift_mode_supported(self, ret: RetVal) -> Seq<Prop> {
        let s = self;
        match ret {
            RetVal::State(v) => if v == s.shift_mode_supported { Seq::empty() } else { seq![Prop::ShiftModeSupported] },
            _ => Seq::empty(),
        }
    }

    pub open spec fn after_battery_charge_mode(self, ret: RetVal) -> ClientState {
        let s = self;
        match ret {
            RetVal::BatteryChargeMode(v) => if v == s.battery_charge_mode { s } else { ClientState { battery_charge_mode: v, ..s } },
            _ => s,
        }
    }

    pub open spec fn changes_battery_charge_mode(self, ret: RetVal) -> Seq<Prop> {
        let s = self;
        match ret {
            RetVal::BatteryChargeMode(v) => if v == s.battery_charge_mode { Seq::empty() } else { seq![Prop::BatteryChargeMode] },
            _ => Seq::empty(),
        }
    }

    pub open spec fn after_battery_charge_mode_supported(self, ret: RetVal) -> ClientState {
        let s = self;
        match ret {
            RetVal::State(v) => if v == s.battery_charge_mode_supported { s } else { ClientState { battery_charge_mode_supported: v, ..s } },
            _ => s,
        }
    }

    pub open spec fn changes_battery_charge_mode_supported(self, ret: RetVal) -> Seq<Prop> {
        let s = self;
        match ret {
            RetVal::State(v) => if v == s.battery_charge_mode_supported { Seq::empty() } else { seq![Prop::BatteryChargeModeSupported] },
            _ => Seq::empty(),
        }
    }

    pub open spec fn after_super_battery(self, ret: RetVal) -> ClientState {
        let s = self;
        match ret {
            RetVal::SuperBattery(v) => if v == s.super_battery { s } else { ClientState { super_battery: v, ..s } },
            _ => s,
        }
    }

    pub open spec fn changes_super_battery(self, ret: RetVal) -> Seq<Prop> {
        let s = self;
        match ret {
            RetVal::SuperBattery(v) => if v == s.super_battery { Seq::empty() } else { seq![Prop::SuperBattery] },
            _ => Seq::empty(),
        }
    }

    pub open spec fn after_super_battery_supported(self, ret: RetVal) -> ClientState {
        let s = self;
        match ret {
            RetVal::State(v) => if v == s.super_battery_supported { s } else { ClientState { super_battery_supported: v, ..s } },
            _ => s,
        }
    }

    pub open spec fn changes_super_battery_supported(self, ret: RetVal) -> Seq<Prop> {
        let s = self;
        match ret {
            RetVal::State(v) => if v == s.super_battery_supported { Seq::empty() } else { seq![Prop::SuperBatterySupported] },
            _ => Seq::empty(),
        }
    }

    pub open spec fn after_fan1_rpm(self, ret: RetVal) -> ClientState {
        let s = self;
        match ret {
            RetVal::Word(v) => if v == s.fan1_rpm { s } else { ClientState { fan1_rpm: v, ..s } },
            _ => s,
        }
    }

    pub open spec fn changes_fan1_rpm(self, ret: RetVal) -> Seq<Prop> {
        let s = self;
        match ret {
            RetVal::Word(v) => if v == s.fan1_rpm { Seq::empty() } else { seq![Prop::Fan1Rpm] },
            _ => Seq::empty(),
        }
    }

    pub open spec fn after_fan2_rpm(self, ret: RetVal) -> ClientState {
        let s = self;
        match ret {
            RetVal::Word(v) => if v == s.fan2_rpm { s } else { ClientState { fan2_rpm: v, ..s } },
            _ => s,
        }
    }

    pub open spec fn changes_fan2_rpm(self, ret: RetVal) -> Seq<Prop> {
        let s = self;
        match ret {
            RetVal::Word(v) => if v == s.fan2_rpm { Seq::empty() } else { seq![Prop::Fan2Rpm] },
            _ => Seq::empty(),
        }
    }

    pub open spec fn after_fan3_rpm(self, ret: RetVal) -> ClientState {
        let s = self;
        match ret {
            RetVal::Word(v) => if v == s.fan3_rpm { s } else { ClientState { fan3_rpm: v, ..s } },
            _ => s,
        }
    }

    pub open spec fn changes_fan3_rpm(self, ret: RetVal) -> Seq<Prop> {
        let s = self;
        match ret {
            RetVal::Word(v) => if v == s.fan3_rpm { Seq::empty() } else { seq![Prop::Fan3Rpm] },
            _ => Seq::empty(),
        }
    }

    pub open spec fn after_fan4_rpm(self, ret: RetVal) -> ClientState {
        let s = self;
        match ret {
            RetVal::Word(v) => if v == s.fan4_rpm { s } else { ClientState { fan4_rpm: v, ..s } },
            _ => s,
        }
    }

    pub open spec fn changes_fan4_rpm(self, ret: RetVal) -> Seq<Prop> {
        let s = self;
        match ret {
            RetVal::Word(v) => if v == s.fan4_rpm { Seq::empty() } else { seq![Prop::Fan4Rpm] },
            _ => Seq::empty(),
        }
    }

    pub open spec fn after_fan1_supported(self, ret: RetVal) -> ClientState {
        let s = self;
        match ret {
            RetVal::State(v) => if v == s.fan1_supported { s } else { ClientState { fan1_supported: v, ..s } },
            _ => s,
        }
    }

    pub open spec fn changes_fan1_supported(self, ret: RetVal) -> Seq<Prop> {
        let s = self;
        match ret {
            RetVal::State(v) => if v == s.fan1_supported { Seq::empty() } else { seq![Prop::Fan1Supported] },
            _ => Seq::empty(),
        }
    }

    pub open spec fn after_fan2_supported(self, ret: RetVal) -> ClientState {
        let s = self;
        match ret {
            RetVal::State(v) => if v == s.fan2_supported { s } else { ClientState { fan2_supported: v, ..s } },
            _ => s,
        }
    }

    pub open spec fn changes_fan2_supported(self, ret: RetVal) -> Seq<Prop> {
        let s = self;
        match ret {
            RetVal::State(v) => if v == s.fan2_supported { Seq::empty() } else { seq![Prop::Fan2Supported] },
            _ => Seq::empty(),
        }
    }

    pub open spec fn after_fan3_supported(self, ret: RetVal) -> ClientState {
        let s = self;
        match ret {
            RetVal::State(v) => if v == s.fan3_supported { s } else { ClientState { fan3_supported: v, ..s } },
            _ => s,
        }
    }

    pub open spec fn changes_fan3_supported(self, ret: RetVal) -> Seq<Prop> {
        let s = self;
        match ret {
            RetVal::State(v) => if v == s.fan3_supported { Seq::empty() } else { seq![Prop::Fan3Supported] },
            _ => Seq::empty(),
        }
    }

    pub open spec fn after_fan4_supported(self, ret: RetVal) -> ClientState {
        let s = self;
        match ret {
            RetVal::State(v) => if v == s.fan4_supported { s } else { ClientState { fan4_supported: v, ..s } },
            _ => s,
        }
    }

    pub open spec fn changes_fan4_supported(self, ret: RetVal) -> Seq<Prop> {
        let s = self;
        match ret {
            RetVal::State(v) => if v == s.fan4_supported { Seq::empty() } else { seq![Prop::Fan4Supported] },
            _ => Seq::empty(),
        }
    }

    pub open spec fn after_fan_modes(self, ret: RetVal) -> ClientState {
        let s = self;
        match ret {
            RetVal::FanModes(v) => if v@ == s.fan_modes@ { s } else { ClientState { fan_modes: v, ..s } },
            _ => s,
        }
    }

    pub open spec fn changes_fan_modes(self, ret: RetVal) -> Seq<Prop> {
        let s = self;
        match ret {
            RetVal::FanModes(v) => if v@ == s.fan_modes@ { Seq::empty() } else { seq![Prop::FanModes] },
            _ => Seq::empty(),
        }
    }

    pub open spec fn after_fan_mode(self, ret: RetVal) -> ClientState {
        let s = self;
        match ret {
            RetVal::FanMode(v) => if v == s.fan_mode { s } else { ClientState { fan_mode: v, ..s } },
            _ => s,
        }
    }

    pub open spec fn changes_fan_mode(self, ret: RetVal) -> Seq<Prop> {
        let s = self;
        match ret {
            RetVal::FanMode(v) => if v == s.fan_mode { Seq::empty() } else { seq![Prop::FanMode] },
            _ => Seq::empty(),
        }
    }

    pub open spec fn after_fan_mode_supported(self, ret: RetVal) -> ClientState {
        let s = self;
        match ret {
            RetVal::State(v) => if v == s.fan_mode_supported { s } else { ClientState { fan_mode_supported: v, ..s } },
            _ => s,
        }
    }

    pub open spec fn changes_fan_mode_supported(self, ret: RetVal) -> Seq<Prop> {
        let s = self;
        match ret {
            RetVal::State(v) => if v == s.fan_mode_supported { Seq::empty() } else { seq![Prop::FanModeSupported] },
            _ => Seq::empty(),
        }
    }

    pub open spec fn after_webcam(self, ret: RetVal) -> ClientState {
        let s = self;
        match ret {
            RetVal::Webcam(v) => if v == s.webcam { s } else { ClientState { webcam: v, ..s } },
            _ => s,
        }
    }

    pub open spec fn changes_webcam(self, ret: RetVal) -> Seq<Prop> {
        let s = self;
        match ret {
            RetVal::Webcam(v) => if v == s.webcam { Seq::empty() } else { seq![Prop::Webcam] },
            _ => Seq::empty(),
        }
    }

    pub open spec fn after_webcam_block(self, ret: RetVal) -> ClientState {
        let s = self;
        match ret {
            RetVal::Webcam(v) => if v == s.webcam_block { s } else { ClientState { webcam_block: v, ..s } },
            _ => s,
        }
    }

    pub open spec fn changes_webcam_block(self, ret: RetVal) -> Seq<Prop> {
        let s = self;
        match ret {
            RetVal::Webcam(v) => if v == s.webcam_block { Seq::empty() } else { seq![Prop::WebcamBlock] },
            _ => Seq::empty(),
        }
    }

    pub open spec fn after_webcam_supported(self, ret: RetVal) -> ClientState {
        let s = self;
        match ret {
            RetVal::State(v) => if v == s.webcam_supported { s } else { ClientState { webcam_supported: v, ..s } },
            _ => s,
        }
    }

    pub open spec fn changes_webcam_supported(self, ret: RetVal) -> Seq<Prop> {
        let s = self;
        match ret {
            RetVal::State(v) => if v == s.webcam_supported { Seq::empty() } else { seq![Prop::WebcamSupported] },
            _ => Seq::empty(),
        }
    }

    pub open spec fn after_webcam_block_supported(self, ret: RetVal) -> ClientState {
        let s = self;
        match ret {
            RetVal::State(v) => if v == s.webcam_block_supported { s } else { ClientState { webcam_block_supported: v, ..s } },
            _ => s,
        }
    }

    pub open spec fn changes_webcam_block_supported(self, ret: RetVal) -> Seq<Prop> {
        let s = self;
        match ret {
            RetVal::State(v) => if v == s.webcam_block_supported { Seq::empty() } else { seq![Prop::WebcamBlockSupported] },
            _ => Seq::empty(),
        }
    }

    pub open spec fn after_cooler_boost(self, ret: RetVal) -> ClientState {
        let s = self;
        match ret {
            RetVal::CoolerBoost(v) => if v == s.cooler_boost { s } else { ClientState { cooler_boost: v, ..s } },
            _ => s,
        }
    }

    pub open spec fn changes_cooler_boost(self, ret: RetVal) -> Seq<Prop> {
        let s = self;
        match ret {
            RetVal::CoolerBoost(v) => if v == s.cooler_boost { Seq::empty() } else { seq![Prop::CoolerBoost] },
            _ => Seq::empty(),
        }
    }

    pub open spec fn after_cooler_boost_supported(self, ret: RetVal) -> ClientState {
        let s = self;
        match ret {
            RetVal::State(v) => if v == s.cooler_boost_supported { s } else { ClientState { cooler_boost_supported: v, ..s } },
            _ => s,
        }
    }

    pub open spec fn changes_cooler_boost_supported(self, ret: RetVal) -> Seq<Prop> {
        let s = self;
        match ret {
            RetVal::State(v) => if v == s.cooler_boost_supported { Seq::empty() } else { seq![Prop::CoolerBoostSupported] },
            _ => Seq::empty(),
        }
    }

    pub open spec fn after_fn_key(self, ret: RetVal) -> ClientState {
        let s = self;
        match ret {
            RetVal::KeyDirection(v) => if SwapKey::from_fn_spec(v) == s.swap_key { s } else { ClientState { swap_key: SwapKey::from_fn_spec(v), ..s } },
            _ => s,
        }
    }

    pub open spec fn changes_fn_key(self, ret: RetVal) -> Seq<Prop> {
        let s = self;
        match ret {
            RetVal::KeyDirection(v) => if SwapKey::from_fn_spec(v) == s.swap_key { Seq::empty() } else { seq![Prop::FnKey, Prop::WinKey] },
            _ => Seq::empty(),
        }
    }

    pub open spec fn after_win_key(self, ret: RetVal) -> ClientState {
        let s = self;
        match ret {
            RetVal::KeyDirection(v) => if SwapKey::from_win_spec(v) == s.swap_key { s } else { ClientState { swap_key: SwapKey::from_win_spec(v), ..s } },
            _ => s,
        }
    }

    pub open spec fn changes_win_key(self, ret: RetVal) -> Seq<Prop> {
        let s = self;
        match ret {
            RetVal::KeyDirection(v) => if SwapKey::from_win_spec(v) == s.swap_key { Seq::empty() } else { seq![Prop::FnKey, Prop::WinKey] },
            _ => Seq::empty(),
        }
    }

    pub open spec fn after_fn_win_swap_supported(self, ret: RetVal) -> ClientState {
        let s = self;
        match ret {
            RetVal::State(v) => if v == s.fn_win_swap_supported { s } else { ClientState { fn_win_swap_supported: v, ..s } },
            _ => s,
        }
    }

    pub open spec fn changes_fn_win_swap_supported(self, ret: RetVal) -> Seq<Prop> {
        let s = self;
        match ret {
            RetVal::State(v) => if v == s.fn_win_swap_supported { Seq::empty() } else { seq![Prop::FnWinSwapSupported] },
            _ => Seq::empty(),
        }
    }

    pub open spec fn after_mic_mute_led(self, ret: RetVal) -> ClientState {
        let s = self;
        match ret {
            RetVal::Led(v) => if v == s.mic_mute_led { s } else { ClientState { mic_mute_led: v, ..s } },
            _ => s,
        }
    }

    pub open spec fn changes_mic_mute_led(self, ret: RetVal) -> Seq<Prop> {
        let s = self;
        match ret {
            RetVal::Led(v) => if v == s.mic_mute_led { Seq::empty() } else { seq![Prop::MicMuteLed] },
            _ => Seq::empty(),
        }
    }

    pub open spec fn after_mute_led(self, ret: RetVal) -> ClientState {
        let s = self;
        match ret {
            RetVal::Led(v) => if v == s.mute_led { s } else { ClientState { mute_led: v, ..s } },
            _ => s,
        }
    }

    pub open spec fn changes_mute_led(self, ret: RetVal) -> Seq<Prop> {
        let s = self;
        match ret {
            RetVal::Led(v) => if v == s.mute_led { Seq::empty() } else { seq![Prop::MuteLed] },
            _ => Seq::empty(),
        }
    }

    pub open spec fn after_mic_mute_led_supported(self, ret: RetVal) -> ClientState {
        let s = self;
        match ret {
            RetVal::State(v) => if v == s.mic_mute_led_supported { s } else { ClientState { mic_mute_led_supported: v, ..s } },
            _ => s,
        }
    }

    pub open spec fn changes_mic_mute_led_supported(self, ret: RetVal) -> Seq<Prop> {
        let s = self;
        match ret {
            RetVal::State(v) => if v == s.mic_mute_led_supported { Seq::empty() } else { seq![Prop::MicMuteLedSupported] },
            _ => Seq::empty(),
        }
    }

    pub open spec fn after_mute_led_supported(self, ret: RetVal) -> ClientState {
        let s = self;
        match ret {
            RetVal::State(v) => if v == s.mute_led_supported { s } else { ClientState { mute_led_supported: v, ..s } },
            _ => s,
        }
    }

    pub open spec fn changes_mute_led_supported(self, ret: RetVal) -> Seq<Prop> {
        let s = self;
        match ret {
            RetVal::State(v) => if v == s.mute_led_supported { Seq::empty() } else { seq![Prop::MuteLedSupported] },
            _ => Seq::empty(),
        }
    }

    pub open spec fn after_cpu_rt_fan_speed(self, ret: RetVal) -> ClientState {
        let s = self;
        match ret {
            RetVal::Byte(v) => if v == s.cpu_rt_fan_speed { s } else { ClientState { cpu_rt_fan_speed: v, ..s } },
            _ => s,
        }
    }

    pub open spec fn changes_cpu_rt_fan_speed(self, ret: RetVal) -> Seq<Prop> {
        let s = self;
        match ret {
            RetVal::Byte(v) => if v == s.cpu_rt_fan_speed { Seq::empty() } else { seq![Prop::CpuRtFanSpeed] },
            _ => Seq::empty(),
        }
    }

    pub open spec fn after_cpu_rt_temp(self, ret: RetVal) -> ClientState {
        let s = self;
        match ret {
            RetVal::Byte(v) => if v == s.cpu_rt_temp { s } else { ClientState { cpu_rt_temp: v, ..s } },
            _ => s,
        }
    }

    pub open spec fn changes_cpu_rt_temp(self, ret: RetVal) -> Seq<Prop> {
        let s = self;
        match ret {
            RetVal::Byte(v) => if v == s.cpu_rt_temp { Seq::empty() } else { seq![Prop::CpuRtTemp] },
            _ => Seq::empty(),
        }
    }

    pub open spec fn after_gpu_rt_fan_speed(self, ret: RetVal) -> ClientState {
        let s = self;
        match ret {
            RetVal::Byte(v) => if v == s.gpu_rt_fan_speed { s } else { ClientState { gpu_rt_fan_speed: v, ..s } },
            _ => s,
        }
    }

    pub open spec fn changes_gpu_rt_fan_speed(self, ret: RetVal) -> Seq<Prop> {
        let s = self;
        match ret {
            RetVal::Byte(v) => if v == s.gpu_rt_fan_speed { Seq::empty() } else { seq![Prop::GpuRtFanSpeed] },
            _ => Seq::empty(),
        }
    }

    pub open spec fn after_gpu_rt_temp(self, ret: RetVal) -> ClientState {
        let s = self;
        match ret {
            RetVal::Byte(v) => if v == s.gpu_rt_temp { s } else { ClientState { gpu_rt_temp: v, ..s } },
            _ => s,
        }
    }

    pub open spec fn changes_gpu_rt_temp(self, ret: RetVal) -> Seq<Prop> {
        let s = self;
        match ret {
            RetVal::Byte(v) => if v == s.gpu_rt_temp { Seq::empty() } else { seq![Prop::GpuRtTemp] },
            _ => Seq::empty(),
        }
    }

    pub open spec fn after_cpu_fan_curve_wmi2(self, ret: RetVal) -> ClientState {
        let s = self;
        match ret {
            RetVal::Curve7(v) => if v == s.cpu_fan_curve_wmi2 { s } else { ClientState { cpu_fan_curve_wmi2: v, ..s } },
            _ => s,
        }
    }

    pub open spec fn changes_cpu_fan_curve_wmi2(self, ret: RetVal) -> Seq<Prop> {
        let s = self;
        match ret {
            RetVal::Curve7(v) => if v == s.cpu_fan_curve_wmi2 { Seq::empty() } else { seq![Prop::CpuFanCurveWmi2] },
            _ => Seq::empty(),
        }
    }

    pub open spec fn after_cpu_temp_curve_wmi2(self, ret: RetVal) -> ClientState {
        let s = self;
        match ret {
            RetVal::Curve7(v) => if v == s.cpu_temp_curve_wmi2 { s } else { ClientState { cpu_temp_curve_wmi2: v, ..s } },
            _ => s,
        }
    }

    pub open spec fn changes_cpu_temp_curve_wmi2(self, ret: RetVal) -> Seq<Prop> {
        let s = self;
        match ret {
            RetVal::Curve7(v) => if v == s.cpu_temp_curve_wmi2 { Seq::empty() } else { seq![Prop::CpuTempCurveWmi2] },
            _ => Seq::empty(),
        }
    }

    pub open spec fn after_cpu_hysteresis_curve_wmi2(self, ret: RetVal) -> ClientState {
        let s = self;
        match ret {
            RetVal::Curve6(v) => if v == s.cpu_hysteresis_curve_wmi2 { s } else { ClientState { cpu_hysteresis_curve_wmi2: v, ..s } },
            _ => s,
        }
    }

    pub open spec fn changes_cpu_hysteresis_curve_wmi2(self, ret: RetVal) -> Seq<Prop> {
        let s = self;
        match ret {
            RetVal::Curve6(v) => if v == s.cpu_hysteresis_curve_wmi2 { Seq::empty() } else { seq![Prop::CpuHysteresisCurveWmi2] },
            _ => Seq::empty(),
        }
    }

    pub open spec fn after_gpu_fan_curve_wmi2(self, ret: RetVal) -> ClientState {
        let s = self;
        match ret {
            RetVal::Curve7(v) => if v == s.gpu_fan_curve_wmi2 { s } else { ClientState { gpu_fan_curve_wmi2: v, ..s } },
            _ => s,
        }
    }

    pub open spec fn changes_gpu_fan_curve_wmi2(self, ret: RetVal) -> Seq<Prop> {
        let s = self;
        match ret {
            RetVal::Curve7(v) => if v == s.gpu_fan_curve_wmi2 { Seq::empty() } else { seq![Prop::GpuFanCurveWmi2] },
            _ => Seq::empty(),
        }
    }

    pub open spec fn after_gpu_temp_curve_wmi2(self, ret: RetVal) -> ClientState {
        let s = self;
        match ret {
            RetVal::Curve7(v) => if v == s.gpu_temp_curve_wmi2 { s } else { ClientState { gpu_temp_curve_wmi2: v, ..s } },
            _ => s,
        }
    }

    pub open spec fn changes_gpu_temp_curve_wmi2(self, ret: RetVal) -> Seq<Prop> {
        let s = self;
        match ret {
            RetVal::Curve7(v) => if v == s.gpu_temp_curve_wmi2 { Seq::empty() } else { seq![Prop::GpuTempCurveWmi2] },
            _ => Seq::empty(),
        }
    }

    pub open spec fn after_gpu_hysteresis_curve_wmi2(self, ret: RetVal) -> ClientState {
        let s = self;
        match ret {
            RetVal::Curve6(v) => if v == s.gpu_hysteresis_curve_wmi2 { s } else { ClientState { gpu_hysteresis_curve_wmi2: v, ..s } },
            _ => s,
        }
    }

    pub open spec fn changes_gpu_hysteresis_curve_wmi2(self, ret: RetVal) -> Seq<Prop> {
        let s = self;
        match ret {
            RetVal::Curve6(v) => if v == s.gpu_hysteresis_curve_wmi2 { Seq::empty() } else { seq![Prop::GpuHysteresisCurveWmi2] },
            _ => Seq::empty(),
        }
    }

    pub open spec fn after_ec_dump_raw(self, ret: RetVal) -> ClientState {
        let s = self;
        match ret {
            RetVal::EcDump(v) => if v.0@ == s.ec_dump.0@ { s } else { ClientState { ec_dump: v, ..s } },
            _ => s,
        }
    }

    pub open spec fn changes_ec_dump_raw(self, ret: RetVal) -> Seq<Prop> {
        let s = self;
        match ret {
            RetVal::EcDump(v) => if v.0@ == s.ec_dump.0@ { Seq::empty() } else { seq![Prop::EcDump] },
            _ => Seq::empty(),
        }
    }

    pub open spec fn after_ec_dump_pretty(self, ret: RetVal) -> ClientState {
        let s = self;
        match ret {
            RetVal::Str(v) => if v@ == s.ec_dump_pretty@ { s } else { ClientState { ec_dump_pretty: v, ..s } },
            _ => s,
        }
    }

    pub open spec fn changes_ec_dump_pretty(self, ret: RetVal) -> Seq<Prop> {
        let s = self;
        match ret {
            RetVal::Str(v) => if v@ == s.ec_dump_pretty@ { Seq::empty() } else { seq![Prop::EcDumpPretty] },
            _ => Seq::empty(),
        }
    }

    /// Takes in the reply `ret` to a refresh of kind `ty`, and gives the
    /// properties that changed.
    pub fn apply_reply(&mut self, ty: MethodTy, ret: RetVal) -> (changed: Vec<Prop>)
        requires
            spec_reply_fits(ty, ret),
        ensures
            *final(self) == old(self).after_reply(ty, ret),
            changed@ == old(self).reply_changes(ty, ret),
    {
        match ty {
            MethodTy::FanCount => self.reply_fan_count(ret),
            MethodTy::FanMax => self.reply_fan_max(ret),
            MethodTy::HasDGpu => self.reply_has_d_gpu(ret),
            MethodTy::WmiVer => self.reply_wmi_ver(ret),
            MethodTy::FwVersion => self.reply_fw_version(ret),
            MethodTy::FwDate => self.reply_fw_date(ret),
            MethodTy::FwTime => self.reply_fw_time(ret),
            MethodTy::ShiftModes => self.reply_shift_modes(ret),
            MethodTy::ShiftMode => self.reply_shift_mode(ret),
            MethodTy::ShiftModeSupported => self.reply_shift_mode_supported(ret),
            MethodTy::BatteryChargeMode => self.reply_battery_charge_mode(ret),
            MethodTy::BatteryChargeModeSupported => self.reply_battery_charge_mode_supported(ret),
            MethodTy::SuperBattery => self.reply_super_battery(ret),
            MethodTy::SuperBatterySupported => self.reply_super_battery_supported(ret),
            MethodTy::Fan1Rpm => self.reply_fan1_rpm(ret),
            MethodTy::Fan2Rpm => self.reply_fan2_rpm(ret),
            MethodTy::Fan3Rpm => self.reply_fan3_rpm(ret),
            MethodTy::Fan4Rpm => self.reply_fan4_rpm(ret),
            MethodTy::Fan1Supported => self.reply_fan1_supported(ret),
            MethodTy::Fan2Supported => self.reply_fan2_supported(ret),
            MethodTy::Fan3Supported => self.reply_fan3_supported(ret),
            MethodTy::Fan4Supported => self.reply_fan4_supported(ret),
            MethodTy::FanModes => self.reply_fan_modes(ret),
            MethodTy::FanMode => self.reply_fan_mode(ret),
            MethodTy::FanModeSupported => self.reply_fan_mode_supported(ret),
            MethodTy::Webcam => self.reply_webcam(ret),
            MethodTy::WebcamBlock => self.reply_webcam_block(ret),
            MethodTy::WebcamSupported => self.reply_webcam_supported(ret),
            MethodTy::WebcamBlockSupported => self.reply_webcam_block_supported(ret),
            MethodTy::CoolerBoost => self.reply_cooler_boost(ret),
            MethodTy::CoolerBoostSupported => self.reply_cooler_boost_supported(ret),
            MethodTy::FnKey => self.reply_fn_key(ret),
            MethodTy::WinKey => self.reply_win_key(ret),
            MethodTy::FnWinSwapSupported => self.reply_fn_win_swap_supported(ret),
            MethodTy::MicMuteLed => self.reply_mic_mute_led(ret),
            MethodTy::MuteLed => self.reply_mute_led(ret),
            MethodTy::MicMuteLedSupported => self.reply_mic_mute_led_supported(ret),
            MethodTy::MuteLedSupported => self.reply_mute_led_supported(ret),
            MethodTy::CpuRtFanSpeed => self.reply_cpu_rt_fan_speed(ret),
            MethodTy::CpuRtTemp => self.reply_cpu_rt_temp(ret),
            MethodTy::GpuRtFanSpeed => self.reply_gpu_rt_fan_speed(ret),
            MethodTy::GpuRtTemp => self.reply_gpu_rt_temp(ret),
            MethodTy::CpuFanCurveWmi2 => self.reply_cpu_fan_curve_wmi2(ret),
            MethodTy::CpuTempCurveWmi2 => self.reply_cpu_temp_curve_wmi2(ret),
            MethodTy::CpuHysteresisCurveWmi2 => self.reply_cpu_hysteresis_curve_wmi2(ret),
            MethodTy::GpuFanCurveWmi2 => self.reply_gpu_fan_curve_wmi2(ret),
            MethodTy::GpuTempCurveWmi2 => self.reply_gpu_temp_curve_wmi2(ret),
            MethodTy::GpuHysteresisCurveWmi2 => self.reply_gpu_hysteresis_curve_wmi2(ret),
            MethodTy::EcDumpRaw => self.reply_ec_dump_raw(ret),
            MethodTy::EcDumpPretty => self.reply_ec_dump_pretty(ret),
            _ => Vec::new(),
        }
    }

    fn reply_fan_count(&mut self, ret: RetVal) -> (changed: Vec<Prop>)
        requires
            ret is Fans,
        ensures
            *final(self) == old(self).after_fan_count(ret),
            changed@ == old(self).changes_fan_count(ret),
    {
        let v = match ret {
            RetVal::Fans(v) => v,
            _ => Fans::One,
        };
        if v == self.fan_count {
            Vec::new()
        } else {
            self.fan_count = v;
            let r = vec![Prop::FanCount];
            r
        }
    }

    fn reply_fan_max(&mut self, ret: RetVal) -> (changed: Vec<Prop>)
        requires
            ret is Byte,
        ensures
            *final(self) == old(self).after_fan_max(ret),
            changed@ == old(self).changes_fan_max(ret),
    {
        let v = match ret {
            RetVal::Byte(v) => v,
            _ => 0,
        };
        if v == self.fan_max {
            Vec::new()
        } else {
            self.fan_max = v;
            let r = vec![Prop::FanMax];
            r
        }
    }

    fn reply_has_d_gpu(&mut self, ret: RetVal) -> (changed: Vec<Prop>)
        requires
            ret is State,
        ensures
            *final(self) == old(self).after_has_d_gpu(ret),
            changed@ == old(self).changes_has_d_gpu(ret),
    {
        let v = match ret {
            RetVal::State(v) => v,
            _ => false,
        };
        if v == self.has_dgpu {
            Vec::new()
        } else {
            self.has_dgpu = v;
            let r = vec![Prop::HasDgpu];
            r
        }
    }

    fn reply_wmi_ver(&mut self, ret: RetVal) -> (changed: Vec<Prop>)
        requires
            ret is WmiVer,
        ensures
            *final(self) == old(self).after_wmi_ver(ret),
            changed@ == old(self).changes_wmi_ver(ret),
    {
        let v = match ret {
            RetVal::WmiVer(v) => v,
            _ => WmiVer::Wmi1,
        };
        if v == self.wmi_ver {
            Vec::new()
        } else {
            self.wmi_ver = v;
            let r = vec![Prop::WmiVer];
            r
        }
    }

    fn reply_fw_version(&mut self, ret: RetVal) -> (changed: Vec<Prop>)
        requires
            ret is Str,
        ensures
            *final(self) == old(self).after_fw_version(ret),
            changed@ == old(self).changes_fw_version(ret),
    {
        let v = match ret {
            RetVal::Str(v) => v,
            _ => String::new(),
        };
        if str_eq(v.as_str(), self.fw_version.as_str()) {
            Vec::new()
        } else {
            self.fw_version = v;
            let r = vec![Prop::FwVersion];
            r
        }
    }

    fn reply_fw_date(&mut self, ret: RetVal) -> (changed: Vec<Prop>)
        requires
            ret is Str,
        ensures
            *final(self) == old(self).after_fw_date(ret),
            changed@ == old(self).changes_fw_date(ret),
    {
        let v = match ret {
            RetVal::Str(v) => v,
            _ => String::new(),
        };
        if str_eq(v.as_str(), self.fw_date.as_str()) {
            Vec::new()
        } else {
            self.fw_date = v;
            let r = vec![Prop::FwDate];
            r
        }
    }

    fn reply_fw_time(&mut self, ret: RetVal) -> (changed: Vec<Prop>)
        requires
            ret is Str,
        ensures
            *final(self) == old(self).after_fw_time(ret),
            changed@ == old(self).changes_fw_time(ret),
    {
        let v = match ret {
            RetVal::Str(v) => v,
            _ => String::new(),
        };
        if str_eq(v.as_str(), self.fw_time.as_str()) {
            Vec::new()
        } else {
            self.fw_time = v;
            let r = vec![Prop::Fwtime];
            r
        }
    }

    fn reply_shift_modes(&mut self, ret: RetVal) -> (changed: Vec<Prop>)
        requires
            ret is ShiftModes,
        ensures
            *final(self) == old(self).after_shift_modes(ret),
            changed@ == old(self).changes_shift_modes(ret),
    {
        let v = match ret {
            RetVal::ShiftModes(v) => v,
            _ => Vec::new(),
        };
        if same_shift_modes(&v, &self.shift_modes) {
            Vec::new()
        } else {
            self.shift_modes = v;
            let r = vec![Prop::ShiftModes];
            r
        }
    }

    fn reply_shift_mode(&mut self, ret: RetVal) -> (changed: Vec<Prop>)
        requires
            ret is ShiftMode,
        ensures
            *final(self) == old(self).after_shift_mode(ret),
            changed@ == old(self).changes_shift_mode(ret),
    {
        let v = match ret {
            RetVal::ShiftMode(v) => v,
            _ => ShiftMode::Null,
        };
        if v == self.shift_mode {
            Vec::new()
        } else {
            self.shift_mode = v;
            let r = vec![Prop::ShiftMode];
            r
        }
    }

    fn reply_shift_mode_supported(&mut self, ret: RetVal) -> (changed: Vec<Prop>)
        requires
            ret is State,
        ensures
            *final(self) == old(self).after_shift_mode_supported(ret),
            changed@ == old(self).changes_shift_mode_supported(ret),
    {
        let v = match ret {
            RetVal::State(v) => v,
            _ => false,
        };
        if v == self.shift_mode_supported {
            Vec::new()
        } else {
            self.shift_mode_supported = v;
            let r = vec![Prop::ShiftModeSupported];
            r
        }
    }

    fn reply_battery_charge_mode(&mut self, ret: RetVal) -> (changed: Vec<Prop>)
        requires
            ret is BatteryChargeMode,
        ensures
            *final(self) == old(self).after_battery_charge_mode(ret),
            changed@ == old(self).changes_battery_charge_mode(ret),
    {
        let v = match ret {
            RetVal::BatteryChargeMode(v) => v,
            _ => BatteryMode::Mobility,
        };
        if v == self.battery_charge_mode {
            Vec::new()
        } else {
            self.battery_charge_mode = v;
            let r = vec![Prop::BatteryChargeMode];
            r
        }
    }

    fn reply_battery_charge_mode_supported(&mut self, ret: RetVal) -> (changed: Vec<Prop>)
        requires
            ret is State,
        ensures
            *final(self) == old(self).after_battery_charge_mode_supported(ret),
            changed@ == old(self).changes_battery_charge_mode_supported(ret),
    {
        let v = match ret {
            RetVal::State(v) => v,
            _ => false,
        };
        if v == self.battery_charge_mode_supported {
            Vec::new()
        } else {
            self.battery_charge_mode_supported = v;
            let r = vec![Prop::BatteryChargeModeSupported];
            r
        }
    }

    fn reply_super_battery(&mut self, ret: RetVal) -> (changed: Vec<Prop>)
        requires
            ret is SuperBattery,
        ensures
            *final(self) == old(self).after_super_battery(ret),
            changed@ == old(self).changes_super_battery(ret),
    {
        let v = match ret {
            RetVal::SuperBattery(v) => v,
            _ => SuperBattery::Off,
        };
        if v == self.super_battery {
            Vec::new()
        } else {
            self.super_battery = v;
            let r = vec![Prop::SuperBattery];
            r
        }
    }

    fn reply_super_battery_supported(&mut self, ret: RetVal) -> (changed: Vec<Prop>)
        requires
            ret is State,
        ensures
            *final(self) == old(self).after_super_battery_supported(ret),
            changed@ == old(self).changes_super_battery_supported(ret),
    {
        let v = match ret {
            RetVal::State(v) => v,
            _ => false,
        };
        if v == self.super_battery_supported {
            Vec::new()
        } else {
            self.super_battery_supported = v;
            let r = vec![Prop::SuperBatterySupported];
            r
        }
    }

    fn reply_fan1_rpm(&mut self, ret: RetVal) -> (changed: Vec<Prop>)
        requires
            ret is Word,
        ensures
            *final(self) == old(self).after_fan1_rpm(ret),
            changed@ == old(self).changes_fan1_rpm(ret),
    {
        let v = match ret {
            RetVal::Word(v) => v,
            _ => 0,
        };
        if v == self.fan1_rpm {
            Vec::new()
        } else {
            self.fan1_rpm = v;
            let r = vec![Prop::Fan1Rpm];
            r
        }
    }

    fn reply_fan2_rpm(&mut self, ret: RetVal) -> (changed: Vec<Prop>)
        requires
            ret is Word,
        ensures
            *final(self) == old(self).after_fan2_rpm(ret),
            changed@ == old(self).changes_fan2_rpm(ret),
    {
        let v = match ret {
            RetVal::Word(v) => v,
            _ => 0,
        };
        if v == self.fan2_rpm {
            Vec::new()
        } else {
            self.fan2_rpm = v;
            let r = vec![Prop::Fan2Rpm];
            r
        }
    }

    fn reply_fan3_rpm(&mut self, ret: RetVal) -> (changed: Vec<Prop>)
        requires
            ret is Word,
        ensures
            *final(self) == old(self).after_fan3_rpm(ret),
            changed@ == old(self).changes_fan3_rpm(ret),
    {
        let v = match ret {
            RetVal::Word(v) => v,
            _ => 0,
        };
        if v == self.fan3_rpm {
            Vec::new()
        } else {
            self.fan3_rpm = v;
            let r = vec![Prop::Fan3Rpm];
            r
        }
    }

    fn reply_fan4_rpm(&mut self, ret: RetVal) -> (changed: Vec<Prop>)
        requires
            ret is Word,
        ensures
            *final(self) == old(self).after_fan4_rpm(ret),
            changed@ == old(self).changes_fan4_rpm(ret),
    {
        let v = match ret {
            RetVal::Word(v) => v,
            _ => 0,
        };
        if v == self.fan4_rpm {
            Vec::new()
        } else {
            self.fan4_rpm = v;
            let r = vec![Prop::Fan4Rpm];
            r
        }
    }

    fn reply_fan1_supported(&mut self, ret: RetVal) -> (changed: Vec<Prop>)
        requires
            ret is State,
        ensures
            *final(self) == old(self).after_fan1_supported(ret),
            changed@ == old(self).changes_fan1_supported(ret),
    {
        let v = match ret {
            RetVal::State(v) => v,
            _ => false,
        };
        if v == self.fan1_supported {
            Vec::new()
        } else {
            self.fan1_supported = v;
            let r = vec![Prop::Fan1Supported];
            r
        }
    }

    fn reply_fan2_supported(&mut self, ret: RetVal) -> (changed: Vec<Prop>)
        requires
            ret is State,
        ensures
            *final(self) == old(self).after_fan2_supported(ret),
            changed@ == old(self).changes_fan2_supported(ret),
    {
        let v = match ret {
            RetVal::State(v) => v,
            _ => false,
        };
        if v == self.fan2_supported {
            Vec::new()
        } else {
            self.fan2_supported = v;
            let r = vec![Prop::Fan2Supported];
            r
        }
    }

    fn reply_fan3_supported(&mut self, ret: RetVal) -> (changed: Vec<Prop>)
        requires
            ret is State,
        ensures
            *final(self) == old(self).after_fan3_supported(ret),
            changed@ == old(self).changes_fan3_supported(ret),
    {
        let v = match ret {
            RetVal::State(v) => v,
            _ => false,
        };
        if v == self.fan3_supported {
            Vec::new()
        } else {
            self.fan3_supported = v;
            let r = vec![Prop::Fan3Supported];
            r
        }
    }

    fn reply_fan4_supported(&mut self, ret: RetVal) -> (changed: Vec<Prop>)
        requires
            ret is State,
        ensures
            *final(self) == old(self).after_fan4_supported(ret),
            changed@ == old(self).changes_fan4_supported(ret),
    {
        let v = match ret {
            RetVal::State(v) => v,
            _ => false,
        };
        if v == self.fan4_supported {
            Vec::new()
        } else {
            self.fan4_supported = v;
            let r = vec![Prop::Fan4Supported];
            r
        }
    }

    fn reply_fan_modes(&mut self, ret: RetVal) -> (changed: Vec<Prop>)
        requires
            ret is FanModes,
        ensures
            *final(self) == old(self).after_fan_modes(ret),
            changed@ == old(self).changes_fan_modes(ret),
    {
        let v = match ret {
            RetVal::FanModes(v) => v,
            _ => Vec::new(),
        };
        if same_fan_modes(&v, &self.fan_modes) {
            Vec::new()
        } else {
            self.fan_modes = v;
            let r = vec![Prop::FanModes];
            r
        }
    }

    fn reply_fan_mode(&mut self, ret: RetVal) -> (changed: Vec<Prop>)
        requires
            ret is FanMode,
        ensures
            *final(self) == old(self).after_fan_mode(ret),
            changed@ == old(self).changes_fan_mode(ret),
    {
        let v = match ret {
            RetVal::FanMode(v) => v,
            _ => FanMode::Null,
        };
        if v == self.fan_mode {
            Vec::new()
        } else {
            self.fan_mode = v;
            let r = vec![Prop::FanMode];
            r
        }
    }

    fn reply_fan_mode_supported(&mut self, ret: RetVal) -> (changed: Vec<Prop>)
        requires
            ret is State,
        ensures
            *final(self) == old(self).after_fan_mode_supported(ret),
            changed@ == old(self).changes_fan_mode_supported(ret),
    {
        let v = match ret {
            RetVal::State(v) => v,
            _ => false,
        };
        if v == self.fan_mode_supported {
            Vec::new()
        } else {
            self.fan_mode_supported = v;
            let r = vec![Prop::FanModeSupported];
            r
        }
    }

    fn reply_webcam(&mut self, ret: RetVal) -> (changed: Vec<Prop>)
        requires
            ret is Webcam,
        ensures
            *final(self) == old(self).after_webcam(ret),
            changed@ == old(self).changes_webcam(ret),
    {
        let v = match ret {
            RetVal::Webcam(v) => v,
            _ => Webcam::Off,
        };
        if v == self.webcam {
            Vec::new()
        } else {
            self.webcam = v;
            let r = vec![Prop::Webcam];
            r
        }
    }

    fn reply_webcam_block(&mut self, ret: RetVal) -> (changed: Vec<Prop>)
        requires
            ret is Webcam,
        ensures
            *final(self) == old(self).after_webcam_block(ret),
            changed@ == old(self).changes_webcam_block(ret),
    {
        let v = match ret {
            RetVal::Webcam(v) => v,
            _ => Webcam::Off,
        };
        if v == self.webcam_block {
            Vec::new()
        } else {
            self.webcam_block = v;
            let r = vec![Prop::WebcamBlock];
            r
        }
    }

    fn reply_webcam_supported(&mut self, ret: RetVal) -> (changed: Vec<Prop>)
        requires
            ret is State,
        ensures
            *final(self) == old(self).after_webcam_supported(ret),
            changed@ == old(self).changes_webcam_supported(ret),
    {
        let v = match ret {
            RetVal::State(v) => v,
            _ => false,
        };
        if v == self.webcam_supported {
            Vec::new()
        } else {
            self.webcam_supported = v;
            let r = vec![Prop::WebcamSupported];
            r
        }
    }

    fn reply_webcam_block_supported(&mut self, ret: RetVal) -> (changed: Vec<Prop>)
        requires
            ret is State,
        ensures
            *final(self) == old(self).after_webcam_block_supported(ret),
            changed@ == old(self).changes_webcam_block_supported(ret),
    {
        let v = match ret {
            RetVal::State(v) => v,
            _ => false,
        };
        if v == self.webcam_block_supported {
            Vec::new()
        } else {
            self.webcam_block_supported = v;
            let r = vec![Prop::WebcamBlockSupported];
            r
        }
    }

    fn reply_cooler_boost(&mut self, ret: RetVal) -> (changed: Vec<Prop>)
        requires
            ret is CoolerBoost,
        ensures
            *final(self) == old(self).after_cooler_boost(ret),
            changed@ == old(self).changes_cooler_boost(ret),
    {
        let v = match ret {
            RetVal::CoolerBoost(v) => v,
            _ => CoolerBoost::Off,
        };
        if v == self.cooler_boost {
            Vec::new()
        } else {
            self.cooler_boost = v;
            let r = vec![Prop::CoolerBoost];
            r
        }
    }

    fn reply_cooler_boost_supported(&mut self, ret: RetVal) -> (changed: Vec<Prop>)
        requires
            ret is State,
        ensures
            *final(self) == old(self).after_cooler_boost_supported(ret),
            changed@ == old(self).changes_cooler_boost_supported(ret),
    {
        let v = match ret {
            RetVal::State(v) => v,
            _ => false,
        };
        if v == self.cooler_boost_supported {
            Vec::new()
        } else {
            self.cooler_boost_supported = v;
            let r = vec![Prop::CoolerBoostSupported];
            r
        }
    }

    fn reply_fn_key(&mut self, ret: RetVal) -> (changed: Vec<Prop>)
        requires
            ret is KeyDirection,
        ensures
            *final(self) == old(self).after_fn_key(ret),
            changed@ == old(self).changes_fn_key(ret),
    {
        let v = match ret {
            RetVal::KeyDirection(v) => v,
            _ => KeyDirection::Left,
        };
        if SwapKey::from_fn(v) == self.swap_key {
            Vec::new()
        } else {
            self.swap_key = SwapKey::from_fn(v);
            let r = vec![Prop::FnKey, Prop::WinKey];
            r
        }
    }

    fn reply_win_key(&mut self, ret: RetVal) -> (changed: Vec<Prop>)
        requires
            ret is KeyDirection,
        ensures
            *final(self) == old(self).after_win_key(ret),
            changed@ == old(self).changes_win_key(ret),
    {
        let v = match ret {
            RetVal::KeyDirection(v) => v,
            _ => KeyDirection::Left,
        };
        if SwapKey::from_win(v) == self.swap_key {
            Vec::new()
        } else {
            self.swap_key = SwapKey::from_win(v);
            let r = vec![Prop::FnKey, Prop::WinKey];
            r
        }
    }

    fn reply_fn_win_swap_supported(&mut self, ret: RetVal) -> (changed: Vec<Prop>)
        requires
            ret is State,
        ensures
            *final(self) == old(self).after_fn_win_swap_supported(ret),
            changed@ == old(self).changes_fn_win_swap_supported(ret),
    {
        let v = match ret {
            RetVal::State(v) => v,
            _ => false,
        };
        if v == self.fn_win_swap_supported {
            Vec::new()
        } else {
            self.fn_win_swap_supported = v;
            let r = vec![Prop::FnWinSwapSupported];
            r
        }
    }

    fn reply_mic_mute_led(&mut self, ret: RetVal) -> (changed: Vec<Prop>)
        requires
            ret is Led,
        ensures
            *final(self) == old(self).after_mic_mute_led(ret),
            changed@ == old(self).changes_mic_mute_led(ret),
    {
        let v = match ret {
            RetVal::Led(v) => v,
            _ => Led::Off,
        };
        if v == self.mic_mute_led {
            Vec::new()
        } else {
            self.mic_mute_led = v;
            let r = vec![Prop::MicMuteLed];
            r
        }
    }

    fn reply_mute_led(&mut self, ret: RetVal) -> (changed: Vec<Prop>)
        requires
            ret is Led,
        ensures
            *final(self) == old(self).after_mute_led(ret),
            changed@ == old(self).changes_mute_led(ret),
    {
        let v = match ret {
            RetVal::Led(v) => v,
            _ => Led::Off,
        };
        if v == self.mute_led {
            Vec::new()
        } else {
            self.mute_led = v;
            let r = vec![Prop::MuteLed];
            r
        }
    }

    fn reply_mic_mute_led_supported(&mut self, ret: RetVal) -> (changed: Vec<Prop>)
        requires
            ret is State,
        ensures
            *final(self) == old(self).after_mic_mute_led_supported(ret),
            changed@ == old(self).changes_mic_mute_led_supported(ret),
    {
        let v = match ret {
            RetVal::State(v) => v,
            _ => false,
        };
        if v == self.mic_mute_led_supported {
            Vec::new()
        } else {
            self.mic_mute_led_supported = v;
            let r = vec![Prop::MicMuteLedSupported];
            r
        }
    }

    fn reply_mute_led_supported(&mut self, ret: RetVal) -> (changed: Vec<Prop>)
        requires
            ret is State,
        ensures
            *final(self) == old(self).after_mute_led_supported(ret),
            changed@ == old(self).changes_mute_led_supported(ret),
    {
        let v = match ret {
            RetVal::State(v) => v,
            _ => false,
        };
        if v == self.mute_led_supported {
            Vec::new()
        } else {
            self.mute_led_supported = v;
            let r = vec![Prop::MuteLedSupported];
            r
        }
    }

    fn reply_cpu_rt_fan_speed(&mut self, ret: RetVal) -> (changed: Vec<Prop>)
        requires
            ret is Byte,
        ensures
            *final(self) == old(self).after_cpu_rt_fan_speed(ret),
            changed@ == old(self).changes_cpu_rt_fan_speed(ret),
    {
        let v = match ret {
            RetVal::Byte(v) => v,
            _ => 0,
        };
        if v == self.cpu_rt_fan_speed {
            Vec::new()
        } else {
            self.cpu_rt_fan_speed = v;
            let r = vec![Prop::CpuRtFanSpeed];
            r
        }
    }

    fn reply_cpu_rt_temp(&mut self, ret: RetVal) -> (changed: Vec<Prop>)
        requires
            ret is Byte,
        ensures
            *final(self) == old(self).after_cpu_rt_temp(ret),
            changed@ == old(self).changes_cpu_rt_temp(ret),
    {
        let v = match ret {
            RetVal::Byte(v) => v,
            _ => 0,
        };
        if v == self.cpu_rt_temp {
            Vec::new()
        } else {
            self.cpu_rt_temp = v;
            let r = vec![Prop::CpuRtTemp];
            r
        }
    }

    fn reply_gpu_rt_fan_speed(&mut self, ret: RetVal) -> (changed: Vec<Prop>)
        requires
            ret is Byte,
        ensures
            *final(self) == old(self).after_gpu_rt_fan_speed(ret),
            changed@ == old(self).changes_gpu_rt_fan_speed(ret),
    {
        let v = match ret {
            RetVal::Byte(v) => v,
            _ => 0,
        };
        if v == self.gpu_rt_fan_speed {
            Vec::new()
        } else {
            self.gpu_rt_fan_speed = v;
            let r = vec![Prop::GpuRtFanSpeed];
            r
        }
    }

    fn reply_gpu_rt_temp(&mut self, ret: RetVal) -> (changed: Vec<Prop>)
        requires
            ret is Byte,
        ensures
            *final(self) == old(self).after_gpu_rt_temp(ret),
            changed@ == old(self).changes_gpu_rt_temp(ret),
    {
        let v = match ret {
            RetVal::Byte(v) => v,
            _ => 0,
        };
        if v == self.gpu_rt_temp {
            Vec::new()
        } else {
            self.gpu_rt_temp = v;
            let r = vec![Prop::GpuRtTemp];
            r
        }
    }

    fn reply_cpu_fan_curve_wmi2(&mut self, ret: RetVal) -> (changed: Vec<Prop>)
        requires
            ret is Curve7,
        ensures
            *final(self) == old(self).after_cpu_fan_curve_wmi2(ret),
            changed@ == old(self).changes_cpu_fan_curve_wmi2(ret),
    {
        let v = match ret {
            RetVal::Curve7(v) => v,
            _ => Curve7::default(),
        };
        if v == self.cpu_fan_curve_wmi2 {
            Vec::new()
        } else {
            self.cpu_fan_curve_wmi2 = v;
            let r = vec![Prop::CpuFanCurveWmi2];
            r
        }
    }

    fn reply_cpu_temp_curve_wmi2(&mut self, ret: RetVal) -> (changed: Vec<Prop>)
        requires
            ret is Curve7,
        ensures
            *final(self) == old(self).after_cpu_temp_curve_wmi2(ret),
            changed@ == old(self).changes_cpu_temp_curve_wmi2(ret),
    {
        let v = match ret {
            RetVal::Curve7(v) => v,
            _ => Curve7::default(),
        };
        if v == self.cpu_temp_curve_wmi2 {
            Vec::new()
        } else {
            self.cpu_temp_curve_wmi2 = v;
            let r = vec![Prop::CpuTempCurveWmi2];
            r
        }
    }

    fn reply_cpu_hysteresis_curve_wmi2(&mut self, ret: RetVal) -> (changed: Vec<Prop>)
        requires
            ret is Curve6,
        ensures
            *final(self) == old(self).after_cpu_hysteresis_curve_wmi2(ret),
            changed@ == old(self).changes_cpu_hysteresis_curve_wmi2(ret),
    {
        let v = match ret {
            RetVal::Curve6(v) => v,
            _ => Curve6::default(),
        };
        if v == self.cpu_hysteresis_curve_wmi2 {
            Vec::new()
        } else {
            self.cpu_hysteresis_curve_wmi2 = v;
            let r = vec![Prop::CpuHysteresisCurveWmi2];
            r
        }
    }

    fn reply_gpu_fan_curve_wmi2(&mut self, ret: RetVal) -> (changed: Vec<Prop>)
        requires
            ret is Curve7,
        ensures
            *final(self) == old(self).after_gpu_fan_curve_wmi2(ret),
            changed@ == old(self).changes_gpu_fan_curve_wmi2(ret),
    {
        let v = match ret {
            RetVal::Curve7(v) => v,
            _ => Curve7::default(),
        };
        if v == self.gpu_fan_curve_wmi2 {
            Vec::new()
        } else {
            self.gpu_fan_curve_wmi2 = v;
            let r = vec![Prop::GpuFanCurveWmi2];
            r
        }
    }

    fn reply_gpu_temp_curve_wmi2(&mut self, ret: RetVal) -> (changed: Vec<Prop>)
        requires
            ret is Curve7,
        ensures
            *final(self) == old(self).after_gpu_temp_curve_wmi2(ret),
            changed@ == old(self).changes_gpu_temp_curve_wmi2(ret),
    {
        let v = match ret {
            RetVal::Curve7(v) => v,
            _ => Curve7::default(),
        };
        if v == self.gpu_temp_curve_wmi2 {
            Vec::new()
        } else {
            self.gpu_temp_curve_wmi2 = v;
            let r = vec![Prop::GpuTempCurveWmi2];
            r
        }
    }

    fn reply_gpu_hysteresis_curve_wmi2(&mut self, ret: RetVal) -> (changed: Vec<Prop>)
        requires
            ret is Curve6,
        ensures
            *final(self) == old(self).after_gpu_hysteresis_curve_wmi2(ret),
            changed@ == old(self).changes_gpu_hysteresis_curve_wmi2(ret),
    {
        let v = match ret {
            RetVal::Curve6(v) => v,
            _ => Curve6::default(),
        };
        if v == self.gpu_hysteresis_curve_wmi2 {
            Vec::new()
        } else {
            self.gpu_hysteresis_curve_wmi2 = v;
            let r = vec![Prop::GpuHysteresisCurveWmi2];
            r
        }
    }

    fn reply_ec_dump_raw(&mut self, ret: RetVal) -> (changed: Vec<Prop>)
        requires
            ret is EcDump,
        ensures
            *final(self) == old(self).after_ec_dump_raw(ret),
            changed@ == old(self).changes_ec_dump_raw(ret),
    {
        let v = match ret {
            RetVal::EcDump(v) => v,
            _ => Box::new(Bin::default()),
        };
        if same_dump(&v.0, &self.ec_dump.0) {
            Vec::new()
        } else {
            self.ec_dump = v;
            let r = vec![Prop::EcDump];
            r
        }
    }

    fn reply_ec_dump_pretty(&mut self, ret: RetVal) -> (changed: Vec<Prop>)
        requires
            ret is Str,
        ensures
            *final(self) == old(self).after_ec_dump_pretty(ret),
            changed@ == old(self).changes_ec_dump_pretty(ret),
    {
        let v = match ret {
            RetVal::Str(v) => v,
            _ => String::new(),
        };
        if str_eq(v.as_str(), self.ec_dump_pretty.as_str()) {
            Vec::new()
        } else {
            self.ec_dump_pretty = v;
            let r = vec![Prop::EcDumpPretty];
            r
        }
    }

    /// A setting that asks for the value already held: no call is made for it.
    pub open spec fn holds(self, call: Method<'static>) -> bool {
        let s = self;
        match call {
            Method::SetShiftMode { mode } => mode == s.shift_mode,
            Method::SetBatteryChargeMode { mode } => mode == s.battery_charge_mode,
            Method::SetSuperBattery { state } => state == s.super_battery,
            Method::SetFanMode { mode } => mode == s.fan_mode,
            Method::SetWebcam { state } => state == s.webcam,
            Method::SetWebcamBlock { state } => state == s.webcam_block,
            Method::SetCoolerBoost { state } => state == s.cooler_boost,
            Method::SetFnKey { state } => SwapKey::from_fn_spec(state) == s.swap_key,
            Method::SetWinKey { state } => SwapKey::from_win_spec(state) == s.swap_key,
            Method::SetMicMuteLed { state } => state == s.mic_mute_led,
            Method::SetMuteLed { state } => state == s.mute_led,
            Method::SetCpuFanCurveWmi2 { curve } => curve == s.cpu_fan_curve_wmi2,
            Method::SetCpuTempCurveWmi2 { curve } => curve == s.cpu_temp_curve_wmi2,
            Method::SetCpuHysteresisCurveWmi2 { curve } => curve == s.cpu_hysteresis_curve_wmi2,
            Method::SetGpuFanCurveWmi2 { curve } => curve == s.gpu_fan_curve_wmi2,
            Method::SetGpuTempCurveWmi2 { curve } => curve == s.gpu_temp_curve_wmi2,
            Method::SetGpuHysteresisCurveWmi2 { curve } => curve == s.gpu_hysteresis_curve_wmi2,
            _ => false,
        }
    }

    /// The call to make for the setting `call`, unless the state already holds
    /// what it asks for.
    pub fn plan(&self, call: Method<'static>) -> (r: Option<Method<'static>>)
        ensures
            self.holds(call) ==> r is None,
            !self.holds(call) ==> r == Some(call),
    {
        let held = match &call {
            Method::SetShiftMode { mode } => *mode == self.shift_mode,
            Method::SetBatteryChargeMode { mode } => *mode == self.battery_charge_mode,
            Method::SetSuperBattery { state } => *state == self.super_battery,
            Method::SetFanMode { mode } => *mode == self.fan_mode,
            Method::SetWebcam { state } => *state == self.webcam,
            Method::SetWebcamBlock { state } => *state == self.webcam_block,
            Method::SetCoolerBoost { state } => *state == self.cooler_boost,
            Method::SetFnKey { state } => SwapKey::from_fn(*state) == self.swap_key,
            Method::SetWinKey { state } => SwapKey::from_win(*state) == self.swap_key,
            Method::SetMicMuteLed { state } => *state == self.mic_mute_led,
            Method::SetMuteLed { state } => *state == self.mute_led,
            Method::SetCpuFanCurveWmi2 { curve } => *curve == self.cpu_fan_curve_wmi2,
            Method::SetCpuTempCurveWmi2 { curve } => *curve == self.cpu_temp_curve_wmi2,
            Method::SetCpuHysteresisCurveWmi2 { curve } => *curve == self.cpu_hysteresis_curve_wmi2,
            Method::SetGpuFanCurveWmi2 { curve } => *curve == self.gpu_fan_curve_wmi2,
            Method::SetGpuTempCurveWmi2 { curve } => *curve == self.gpu_temp_curve_wmi2,
            Method::SetGpuHysteresisCurveWmi2 { curve } => *curve == self.gpu_hysteresis_curve_wmi2,
            _ => false,
        };
        if held {
            None
        } else {
            Some(call)
        }
    }

    /// The state after the daemon accepted the setting `call`.
    pub open spec fn after_set(self, call: Method<'static>) -> ClientState {
        match call {
            Method::SetShiftMode { mode } => self.set_shift_mode_spec(mode),
            Method::SetBatteryChargeMode { mode } => self.set_battery_charge_mode_spec(mode),
            Method::SetSuperBattery { state } => self.set_super_battery_spec(state),
            Method::SetFanMode { mode } => self.set_fan_mode_spec(mode),
            Method::SetWebcam { state } => self.set_webcam_spec(state),
            Method::SetWebcamBlock { state } => self.set_webcam_block_spec(state),
            Method::SetCoolerBoost { state } => self.set_cooler_boost_spec(state),
            Method::SetFnKey { state } => self.set_fn_key_spec(state),
            Method::SetWinKey { state } => self.set_win_key_spec(state),
            Method::SetMicMuteLed { state } => self.set_mic_mute_led_spec(state),
            Method::SetMuteLed { state } => self.set_mute_led_spec(state),
            Method::SetCpuFanCurveWmi2 { curve } => self.set_cpu_fan_curve_wmi2_spec(curve),
            Method::SetCpuTempCurveWmi2 { curve } => self.set_cpu_temp_curve_wmi2_spec(curve),
            Method::SetCpuHysteresisCurveWmi2 { curve } => self.set_cpu_hysteresis_curve_wmi2_spec(curve),
            Method::SetGpuFanCurveWmi2 { curve } => self.set_gpu_fan_curve_wmi2_spec(curve),
            Method::SetGpuTempCurveWmi2 { curve } => self.set_gpu_temp_curve_wmi2_spec(curve),
            Method::SetGpuHysteresisCurveWmi2 { curve } => self.set_gpu_hysteresis_curve_wmi2_spec(curve),
            _ => self,
        }
    }

    pub open spec fn set_shift_mode_spec(self, mode: ShiftMode) -> ClientState {
        ClientState { shift_mode: mode, ..self }
    }

    pub open spec fn set_battery_charge_mode_spec(self, mode: BatteryMode) -> ClientState {
        ClientState { battery_charge_mode: mode, ..self }
    }

    pub open spec fn set_super_battery_spec(self, state: SuperBattery) -> ClientState {
        ClientState { super_battery: state, ..self }
    }

    pub open spec fn set_fan_mode_spec(self, mode: FanMode) -> ClientState {
        ClientState { fan_mode: mode, ..self }
    }

    pub open spec fn set_webcam_spec(self, state: Webcam) -> ClientState {
        ClientState { webcam: state, ..self }
    }

    pub open spec fn set_webcam_block_spec(self, state: Webcam) -> ClientState {
        ClientState { webcam_block: state, ..self }
    }

    pub open spec fn set_cooler_boost_spec(self, state: CoolerBoost) -> ClientState {
        ClientState { cooler_boost: state, ..self }
    }

    pub open spec fn set_fn_key_spec(self, state: KeyDirection) -> ClientState {
        ClientState { swap_key: SwapKey::from_fn_spec(state), ..self }
    }

    pub open spec fn set_win_key_spec(self, state: KeyDirection) -> ClientState {
        ClientState { swap_key: SwapKey::from_win_spec(state), ..self }
    }

    pub open spec fn set_mic_mute_led_spec(self, state: Led) -> ClientState {
        ClientState { mic_mute_led: state, ..self }
    }

    pub open spec fn set_mute_led_spec(self, state: Led) -> ClientState {
        ClientState { mute_led: state, ..self }
    }

    pub open spec fn set_cpu_fan_curve_wmi2_spec(self, curve: Curve7) -> ClientState {
        ClientState { cpu_fan_curve_wmi2: curve, ..self }
    }

    pub open spec fn set_cpu_temp_curve_wmi2_spec(self, curve: Curve7) -> ClientState {
        ClientState { cpu_temp_curve_wmi2: curve, ..self }
    }

    pub open spec fn set_cpu_hysteresis_curve_wmi2_spec(self, curve: Curve6) -> ClientState {
        ClientState { cpu_hysteresis_curve_wmi2: curve, ..self }
    }

    pub open spec fn set_gpu_fan_curve_wmi2_spec(self, curve: Curve7) -> ClientState {
        ClientState { gpu_fan_curve_wmi2: curve, ..self }
    }

    pub open spec fn set_gpu_temp_curve_wmi2_spec(self, curve: Curve7) -> ClientState {
        ClientState { gpu_temp_curve_wmi2: curve, ..self }
    }

    pub open spec fn set_gpu_hysteresis_curve_wmi2_spec(self, curve: Curve6) -> ClientState {
        ClientState { gpu_hysteresis_curve_wmi2: curve, ..self }
    }

    /// The properties reported as changed by an accepted setting.
    pub open spec fn set_changes(call: Method<'static>) -> Seq<Prop> {
        match call {
            Method::SetShiftMode { .. } => seq![Prop::ShiftMode],
            Method::SetBatteryChargeMode { .. } => seq![Prop::BatteryChargeMode],
            Method::SetSuperBattery { .. } => seq![Prop::SuperBattery],
            Method::SetFanMode { .. } => seq![Prop::FanMode],
            Method::SetWebcam { .. } => seq![Prop::Webcam],
            Method::SetWebcamBlock { .. } => seq![Prop::WebcamBlock],
            Method::SetCoolerBoost { .. } => seq![Prop::CoolerBoost],
            Method::SetFnKey { .. } => seq![Prop::FnKey, Prop::WinKey],
            Method::SetWinKey { .. } => seq![Prop::FnKey, Prop::WinKey],
            Method::SetMicMuteLed { .. } => seq![Prop::MicMuteLed],
            Method::SetMuteLed { .. } => seq![Prop::MuteLed],
            Method::SetCpuFanCurveWmi2 { .. } => seq![Prop::CpuFanCurveWmi2],
            Method::SetCpuTempCurveWmi2 { .. } => seq![Prop::CpuTempCurveWmi2],
            Method::SetCpuHysteresisCurveWmi2 { .. } => seq![Prop::CpuHysteresisCurveWmi2],
            Method::SetGpuFanCurveWmi2 { .. } => seq![Prop::GpuFanCurveWmi2],
            Method::SetGpuTempCurveWmi2 { .. } => seq![Prop::GpuTempCurveWmi2],
            Method::SetGpuHysteresisCurveWmi2 { .. } => seq![Prop::GpuHysteresisCurveWmi2],
            _ => Seq::empty(),
        }
    }

    /// Stores the setting `call` that the daemon accepted, and gives the
    /// properties that changed.
    pub fn confirm(&mut self, call: &Method<'static>) -> (changed: Vec<Prop>)
        ensures
            *final(self) == old(self).after_set(*call),
            changed@ == ClientState::set_changes(*call),
    {
        match call {
            Method::SetShiftMode { mode } => self.accept_shift_mode(*mode),
            Method::SetBatteryChargeMode { mode } => self.accept_battery_charge_mode(*mode),
            Method::SetSuperBattery { state } => self.accept_super_battery(*state),
            Method::SetFanMode { mode } => self.accept_fan_mode(*mode),
            Method::SetWebcam { state } => self.accept_webcam(*state),
            Method::SetWebcamBlock { state } => self.accept_webcam_block(*state),
            Method::SetCoolerBoost { state } => self.accept_cooler_boost(*state),
            Method::SetFnKey { state } => self.accept_fn_key(*state),
            Method::SetWinKey { state } => self.accept_win_key(*state),
            Method::SetMicMuteLed { state } => self.accept_mic_mute_led(*state),
            Method::SetMuteLed { state } => self.accept_mute_led(*state),
            Method::SetCpuFanCurveWmi2 { curve } => self.accept_cpu_fan_curve_wmi2(*curve),
            Method::SetCpuTempCurveWmi2 { curve } => self.accept_cpu_temp_curve_wmi2(*curve),
            Method::SetCpuHysteresisCurveWmi2 { curve } => self.accept_cpu_hysteresis_curve_wmi2(*curve),
            Method::SetGpuFanCurveWmi2 { curve } => self.accept_gpu_fan_curve_wmi2(*curve),
            Method::SetGpuTempCurveWmi2 { curve } => self.accept_gpu_temp_curve_wmi2(*curve),
            Method::SetGpuHysteresisCurveWmi2 { curve } => self.accept_gpu_hysteresis_curve_wmi2(*curve),
            _ => Vec::new(),
        }
    }

    fn accept_shift_mode(&mut self, mode: ShiftMode) -> (changed: Vec<Prop>)
        ensures
            *final(self) == old(self).set_shift_mode_spec(mode),
            changed@ == seq![Prop::ShiftMode],
    {
        self.shift_mode = mode;
        let r = vec![Prop::ShiftMode];
        r
    }

    fn accept_battery_charge_mode(&mut self, mode: BatteryMode) -> (changed: Vec<Prop>)
        ensures
            *final(self) == old(self).set_battery_charge_mode_spec(mode),
            changed@ == seq![Prop::BatteryChargeMode],
    {
        self.battery_charge_mode = mode;
        let r = vec![Prop::BatteryChargeMode];
        r
    }

    fn accept_super_battery(&mut self, state: SuperBattery) -> (changed: Vec<Prop>)
        ensures
            *final(self) == old(self).set_super_battery_spec(state),
            changed@ == seq![Prop::SuperBattery],
    {
        self.super_battery = state;
        let r = vec![Prop::SuperBattery];
        r
    }

    fn accept_fan_mode(&mut self, mode: FanMode) -> (changed: Vec<Prop>)
        ensures
            *final(self) == old(self).set_fan_mode_spec(mode),
            changed@ == seq![Prop::FanMode],
    {
        self.fan_mode = mode;
        let r = vec![Prop::FanMode];
        r
    }

    fn accept_webcam(&mut self, state: Webcam) -> (changed: Vec<Prop>)
        ensures
            *final(self) == old(self).set_webcam_spec(state),
            changed@ == seq![Prop::Webcam],
    {
        self.webcam = state;
        let r = vec![Prop::Webcam];
        r
    }

    fn accept_webcam_block(&mut self, state: Webcam) -> (changed: Vec<Prop>)
        ensures
            *final(self) == old(self).set_webcam_block_spec(state),
            changed@ == seq![Prop::WebcamBlock],
    {
        self.webcam_block = state;
        let r = vec![Prop::WebcamBlock];
        r
    }

    fn accept_cooler_boost(&mut self, state: CoolerBoost) -> (changed: Vec<Prop>)
        ensures
            *final(self) == old(self).set_cooler_boost_spec(state),
            changed@ == seq![Prop::CoolerBoost],
    {
        self.cooler_boost = state;
        let r = vec![Prop::CoolerBoost];
        r
    }

    fn accept_fn_key(&mut self, state: KeyDirection) -> (changed: Vec<Prop>)
        ensures
            *final(self) == old(self).set_fn_key_spec(state),
            changed@ == seq![Prop::FnKey, Prop::WinKey],
    {
        self.swap_key = SwapKey::from_fn(state);
        let r = vec![Prop::FnKey, Prop::WinKey];
        r
    }

    fn accept_win_key(&mut self, state: KeyDirection) -> (changed: Vec<Prop>)
        ensures
            *final(self) == old(self).set_win_key_spec(state),
            changed@ == seq![Prop::FnKey, Prop::WinKey],
    {
        self.swap_key = SwapKey::from_win(state);
        let r = vec![Prop::FnKey, Prop::WinKey];
        r
    }

    fn accept_mic_mute_led(&mut self, state: Led) -> (changed: Vec<Prop>)
        ensures
            *final(self) == old(self).set_mic_mute_led_spec(state),
            changed@ == seq![Prop::MicMuteLed],
    {
        self.mic_mute_led = state;
        let r = vec![Prop::MicMuteLed];
        r
    }

    fn accept_mute_led(&mut self, state: Led) -> (changed: Vec<Prop>)
        ensures
            *final(self) == old(self).set_mute_led_spec(state),
            changed@ == seq![Prop::MuteLed],
    {
        self.mute_led = state;
        let r = vec![Prop::MuteLed];
        r
    }

    fn accept_cpu_fan_curve_wmi2(&mut self, curve: Curve7) -> (changed: Vec<Prop>)
        ensures
            *final(self) == old(self).set_cpu_fan_curve_wmi2_spec(curve),
            changed@ == seq![Prop::CpuFanCurveWmi2],
    {
        self.cpu_fan_curve_wmi2 = curve;
        let r = vec![Prop::CpuFanCurveWmi2];
        r
    }

    fn accept_cpu_temp_curve_wmi2(&mut self, curve: Curve7) -> (changed: Vec<Prop>)
        ensures
            *final(self) == old(self).set_cpu_temp_curve_wmi2_spec(curve),
            changed@ == seq![Prop::CpuTempCurveWmi2],
    {
        self.cpu_temp_curve_wmi2 = curve;
        let r = vec![Prop::CpuTempCurveWmi2];
        r
    }

    fn accept_cpu_hysteresis_curve_wmi2(&mut self, curve: Curve6) -> (changed: Vec<Prop>)
        ensures
            *final(self) == old(self).set_cpu_hysteresis_curve_wmi2_spec(curve),
            changed@ == seq![Prop::CpuHysteresisCurveWmi2],
    {
        self.cpu_hysteresis_curve_wmi2 = curve;
        let r = vec![Prop::CpuHysteresisCurveWmi2];
        r
    }

    fn accept_gpu_fan_curve_wmi2(&mut self, curve: Curve7) -> (changed: Vec<Prop>)
        ensures
            *final(self) == old(self).set_gpu_fan_curve_wmi2_spec(curve),
            changed@ == seq![Prop::GpuFanCurveWmi2],
    {
        self.gpu_fan_curve_wmi2 = curve;
        let r = vec![Prop::GpuFanCurveWmi2];
        r
    }

    fn accept_gpu_temp_curve_wmi2(&mut self, curve: Curve7) -> (changed: Vec<Prop>)
        ensures
            *final(self) == old(self).set_gpu_temp_curve_wmi2_spec(curve),
            changed@ == seq![Prop::GpuTempCurveWmi2],
    {
        self.gpu_temp_curve_wmi2 = curve;
        let r = vec![Prop::GpuTempCurveWmi2];
        r
    }

    fn accept_gpu_hysteresis_curve_wmi2(&mut self, curve: Curve6) -> (changed: Vec<Prop>)
        ensures
            *final(self) == old(self).set_gpu_hysteresis_curve_wmi2_spec(curve),
            changed@ == seq![Prop::GpuHysteresisCurveWmi2],
    {
        self.gpu_hysteresis_curve_wmi2 = curve;
        let r = vec![Prop::GpuHysteresisCurveWmi2];
        r
    }

}

} // verus!
