//! The calls a client makes of the daemon and the values it gets back.

use vstd::prelude::*;
use vstd::string::*;

use crate::ec::MethodData;
use crate::fw::{
    BatteryMode, CoolerBoost, Curve6, Curve7, FanMode, KeyDirection, Led, ShiftMode, SuperBattery,
    Webcam, WmiVer,
};
use crate::models::{Fans, Method as ModelMethod, MethodOp};

verus! {

/// Where the daemon listens unless told otherwise.
pub const SOCK: &'static str = "/run/ecchan.sock";

/// A call of the daemon. Each is answered by the matching `RetVal`.
#[derive(Clone, Debug)]
pub enum Method<'a> {
    Ping,
    FanCount,
    FanMax,
    HasDGpu,
    WmiVer,
    FwVersion,
    FwDate,
    FwTime,
    ShiftModes,
    ShiftMode,
    SetShiftMode { mode: ShiftMode },
    ShiftModeSupported,
    BatteryChargeMode,
    SetBatteryChargeMode { mode: BatteryMode },
    BatteryChargeModeSupported,
    SuperBattery,
    SetSuperBattery { state: SuperBattery },
    SuperBatterySupported,
    Fan1Rpm,
    Fan2Rpm,
    Fan3Rpm,
    Fan4Rpm,
    Fan1Supported,
    Fan2Supported,
    Fan3Supported,
    Fan4Supported,
    FanModes,
    FanMode,
    SetFanMode { mode: FanMode },
    FanModeSupported,
    Webcam,
    WebcamBlock,
    SetWebcam { state: Webcam },
    SetWebcamBlock { state: Webcam },
    WebcamSupported,
    WebcamBlockSupported,
    CoolerBoost,
    SetCoolerBoost { state: CoolerBoost },
    CoolerBoostSupported,
    FnKey,
    WinKey,
    SetFnKey { state: KeyDirection },
    SetWinKey { state: KeyDirection },
    FnWinSwapSupported,
    MicMuteLed,
    MuteLed,
    SetMicMuteLed { state: Led },
    SetMuteLed { state: Led },
    MicMuteLedSupported,
    MuteLedSupported,
    CpuRtFanSpeed,
    CpuRtTemp,
    GpuRtFanSpeed,
    GpuRtTemp,
    CpuFanCurveWmi2,
    CpuTempCurveWmi2,
    CpuHysteresisCurveWmi2,
    GpuFanCurveWmi2,
    GpuTempCurveWmi2,
    GpuHysteresisCurveWmi2,
    SetCpuFanCurveWmi2 { curve: Curve7 },
    SetCpuTempCurveWmi2 { curve: Curve7 },
    SetCpuHysteresisCurveWmi2 { curve: Curve6 },
    SetGpuFanCurveWmi2 { curve: Curve7 },
    SetGpuTempCurveWmi2 { curve: Curve7 },
    SetGpuHysteresisCurveWmi2 { curve: Curve6 },
    EcDumpRaw,
    EcDumpPretty,
    MethodList,
    MethodRead { method: &'a str, op: MethodOp },
    MethodWrite { method: &'a str, op: MethodOp, data: MethodData },
}

/// The kind of a call, without its arguments.
#[derive(Debug, Copy, Clone, PartialEq, Eq, Structural)]
pub enum MethodTy {
    Ping,
    FanCount,
    FanMax,
    HasDGpu,
    WmiVer,
    FwVersion,
    FwDate,
    FwTime,
    ShiftModes,
    ShiftMode,
    SetShiftMode,
    ShiftModeSupported,
    BatteryChargeMode,
    SetBatteryChargeMode,
    BatteryChargeModeSupported,
    SuperBattery,
    SetSuperBattery,
    SuperBatterySupported,
    Fan1Rpm,
    Fan2Rpm,
    Fan3Rpm,
    Fan4Rpm,
    Fan1Supported,
    Fan2Supported,
    Fan3Supported,
    Fan4Supported,
    FanModes,
    FanMode,
    SetFanMode,
    FanModeSupported,
    Webcam,
    WebcamBlock,
    SetWebcam,
    SetWebcamBlock,
    WebcamSupported,
    WebcamBlockSupported,
    CoolerBoost,
    SetCoolerBoost,
    CoolerBoostSupported,
    FnKey,
    WinKey,
    SetFnKey,
    SetWinKey,
    FnWinSwapSupported,
    MicMuteLed,
    MuteLed,
    SetMicMuteLed,
    SetMuteLed,
    MicMuteLedSupported,
    MuteLedSupported,
    CpuRtFanSpeed,
    CpuRtTemp,
    GpuRtFanSpeed,
    GpuRtTemp,
    CpuFanCurveWmi2,
    CpuTempCurveWmi2,
    CpuHysteresisCurveWmi2,
    GpuFanCurveWmi2,
    GpuTempCurveWmi2,
    GpuHysteresisCurveWmi2,
    SetCpuFanCurveWmi2,
    SetCpuTempCurveWmi2,
    SetCpuHysteresisCurveWmi2,
    SetGpuFanCurveWmi2,
    SetGpuTempCurveWmi2,
    SetGpuHysteresisCurveWmi2,
    EcDumpRaw,
    EcDumpPretty,
    MethodList,
    MethodRead,
    MethodWrite,
}

impl<'a> Method<'a> {
    /// The kind of this call.
    pub open spec fn spec_ty(&self) -> MethodTy {
        match self {
            Method::Ping => MethodTy::Ping,
            Method::FanCount => MethodTy::FanCount,
            Method::FanMax => MethodTy::FanMax,
            Method::HasDGpu => MethodTy::HasDGpu,
            Method::WmiVer => MethodTy::WmiVer,
            Method::FwVersion => MethodTy::FwVersion,
            Method::FwDate => MethodTy::FwDate,
            Method::FwTime => MethodTy::FwTime,
            Method::ShiftModes => MethodTy::ShiftModes,
            Method::ShiftMode => MethodTy::ShiftMode,
            Method::SetShiftMode { .. } => MethodTy::SetShiftMode,
            Method::ShiftModeSupported => MethodTy::ShiftModeSupported,
            Method::BatteryChargeMode => MethodTy::BatteryChargeMode,
            Method::SetBatteryChargeMode { .. } => MethodTy::SetBatteryChargeMode,
            Method::BatteryChargeModeSupported => MethodTy::BatteryChargeModeSupported,
            Method::SuperBattery => MethodTy::SuperBattery,
            Method::SetSuperBattery { .. } => MethodTy::SetSuperBattery,
            Method::SuperBatterySupported => MethodTy::SuperBatterySupported,
            Method::Fan1Rpm => MethodTy::Fan1Rpm,
            Method::Fan2Rpm => MethodTy::Fan2Rpm,
            Method::Fan3Rpm => MethodTy::Fan3Rpm,
            Method::Fan4Rpm => MethodTy::Fan4Rpm,
            Method::Fan1Supported => MethodTy::Fan1Supported,
            Method::Fan2Supported => MethodTy::Fan2Supported,
            Method::Fan3Supported => MethodTy::Fan3Supported,
            Method::Fan4Supported => MethodTy::Fan4Supported,
            Method::FanModes => MethodTy::FanModes,
            Method::FanMode => MethodTy::FanMode,
            Method::SetFanMode { .. } => MethodTy::SetFanMode,
            Method::FanModeSupported => MethodTy::FanModeSupported,
            Method::Webcam => MethodTy::Webcam,
            Method::WebcamBlock => MethodTy::WebcamBlock,
            Method::SetWebcam { .. } => MethodTy::SetWebcam,
            Method::SetWebcamBlock { .. } => MethodTy::SetWebcamBlock,
            Method::WebcamSupported => MethodTy::WebcamSupported,
            Method::WebcamBlockSupported => MethodTy::WebcamBlockSupported,
            Method::CoolerBoost => MethodTy::CoolerBoost,
            Method::SetCoolerBoost { .. } => MethodTy::SetCoolerBoost,
            Method::CoolerBoostSupported => MethodTy::CoolerBoostSupported,
            Method::FnKey => MethodTy::FnKey,
            Method::WinKey => MethodTy::WinKey,
            Method::SetFnKey { .. } => MethodTy::SetFnKey,
            Method::SetWinKey { .. } => MethodTy::SetWinKey,
            Method::FnWinSwapSupported => MethodTy::FnWinSwapSupported,
            Method::MicMuteLed => MethodTy::MicMuteLed,
            Method::MuteLed => MethodTy::MuteLed,
            Method::SetMicMuteLed { .. } => MethodTy::SetMicMuteLed,
            Method::SetMuteLed { .. } => MethodTy::SetMuteLed,
            Method::MicMuteLedSupported => MethodTy::MicMuteLedSupported,
            Method::MuteLedSupported => MethodTy::MuteLedSupported,
            Method::CpuRtFanSpeed => MethodTy::CpuRtFanSpeed,
            Method::CpuRtTemp => MethodTy::CpuRtTemp,
            Method::GpuRtFanSpeed => MethodTy::GpuRtFanSpeed,
            Method::GpuRtTemp => MethodTy::GpuRtTemp,
            Method::CpuFanCurveWmi2 => MethodTy::CpuFanCurveWmi2,
            Method::CpuTempCurveWmi2 => MethodTy::CpuTempCurveWmi2,
            Method::CpuHysteresisCurveWmi2 => MethodTy::CpuHysteresisCurveWmi2,
            Method::GpuFanCurveWmi2 => MethodTy::GpuFanCurveWmi2,
            Method::GpuTempCurveWmi2 => MethodTy::GpuTempCurveWmi2,
            Method::GpuHysteresisCurveWmi2 => MethodTy::GpuHysteresisCurveWmi2,
            Method::SetCpuFanCurveWmi2 { .. } => MethodTy::SetCpuFanCurveWmi2,
            Method::SetCpuTempCurveWmi2 { .. } => MethodTy::SetCpuTempCurveWmi2,
            Method::SetCpuHysteresisCurveWmi2 { .. } => MethodTy::SetCpuHysteresisCurveWmi2,
            Method::SetGpuFanCurveWmi2 { .. } => MethodTy::SetGpuFanCurveWmi2,
            Method::SetGpuTempCurveWmi2 { .. } => MethodTy::SetGpuTempCurveWmi2,
            Method::SetGpuHysteresisCurveWmi2 { .. } => MethodTy::SetGpuHysteresisCurveWmi2,
            Method::EcDumpRaw => MethodTy::EcDumpRaw,
            Method::EcDumpPretty => MethodTy::EcDumpPretty,
            Method::MethodList => MethodTy::MethodList,
            Method::MethodRead { .. } => MethodTy::MethodRead,
            Method::MethodWrite { .. } => MethodTy::MethodWrite,
        }
    }

    pub fn ty(&self) -> (r: MethodTy)
        ensures
            r == self.spec_ty(),
    {
        match self {
            Method::Ping => MethodTy::Ping,
            Method::FanCount => MethodTy::FanCount,
            Method::FanMax => MethodTy::FanMax,
            Method::HasDGpu => MethodTy::HasDGpu,
            Method::WmiVer => MethodTy::WmiVer,
            Method::FwVersion => MethodTy::FwVersion,
            Method::FwDate => MethodTy::FwDate,
            Method::FwTime => MethodTy::FwTime,
            Method::ShiftModes => MethodTy::ShiftModes,
            Method::ShiftMode => MethodTy::ShiftMode,
            Method::SetShiftMode { .. } => MethodTy::SetShiftMode,
            Method::ShiftModeSupported => MethodTy::ShiftModeSupported,
            Method::BatteryChargeMode => MethodTy::BatteryChargeMode,
            Method::SetBatteryChargeMode { .. } => MethodTy::SetBatteryChargeMode,
            Method::BatteryChargeModeSupported => MethodTy::BatteryChargeModeSupported,
            Method::SuperBattery => MethodTy::SuperBattery,
            Method::SetSuperBattery { .. } => MethodTy::SetSuperBattery,
            Method::SuperBatterySupported => MethodTy::SuperBatterySupported,
            Method::Fan1Rpm => MethodTy::Fan1Rpm,
            Method::Fan2Rpm => MethodTy::Fan2Rpm,
            Method::Fan3Rpm => MethodTy::Fan3Rpm,
            Method::Fan4Rpm => MethodTy::Fan4Rpm,
            Method::Fan1Supported => MethodTy::Fan1Supported,
            Method::Fan2Supported => MethodTy::Fan2Supported,
            Method::Fan3Supported => MethodTy::Fan3Supported,
            Method::Fan4Supported => MethodTy::Fan4Supported,
            Method::FanModes => MethodTy::FanModes,
            Method::FanMode => MethodTy::FanMode,
            Method::SetFanMode { .. } => MethodTy::SetFanMode,
            Method::FanModeSupported => MethodTy::FanModeSupported,
            Method::Webcam => MethodTy::Webcam,
            Method::WebcamBlock => MethodTy::WebcamBlock,
            Method::SetWebcam { .. } => MethodTy::SetWebcam,
            Method::SetWebcamBlock { .. } => MethodTy::SetWebcamBlock,
            Method::WebcamSupported => MethodTy::WebcamSupported,
            Method::WebcamBlockSupported => MethodTy::WebcamBlockSupported,
            Method::CoolerBoost => MethodTy::CoolerBoost,
            Method::SetCoolerBoost { .. } => MethodTy::SetCoolerBoost,
            Method::CoolerBoostSupported => MethodTy::CoolerBoostSupported,
            Method::FnKey => MethodTy::FnKey,
            Method::WinKey => MethodTy::WinKey,
            Method::SetFnKey { .. } => MethodTy::SetFnKey,
            Method::SetWinKey { .. } => MethodTy::SetWinKey,
            Method::FnWinSwapSupported => MethodTy::FnWinSwapSupported,
            Method::MicMuteLed => MethodTy::MicMuteLed,
            Method::MuteLed => MethodTy::MuteLed,
            Method::SetMicMuteLed { .. } => MethodTy::SetMicMuteLed,
            Method::SetMuteLed { .. } => MethodTy::SetMuteLed,
            Method::MicMuteLedSupported => MethodTy::MicMuteLedSupported,
            Method::MuteLedSupported => MethodTy::MuteLedSupported,
            Method::CpuRtFanSpeed => MethodTy::CpuRtFanSpeed,
            Method::CpuRtTemp => MethodTy::CpuRtTemp,
            Method::GpuRtFanSpeed => MethodTy::GpuRtFanSpeed,
            Method::GpuRtTemp => MethodTy::GpuRtTemp,
            Method::CpuFanCurveWmi2 => MethodTy::CpuFanCurveWmi2,
            Method::CpuTempCurveWmi2 => MethodTy::CpuTempCurveWmi2,
            Method::CpuHysteresisCurveWmi2 => MethodTy::CpuHysteresisCurveWmi2,
            Method::GpuFanCurveWmi2 => MethodTy::GpuFanCurveWmi2,
            Method::GpuTempCurveWmi2 => MethodTy::GpuTempCurveWmi2,
            Method::GpuHysteresisCurveWmi2 => MethodTy::GpuHysteresisCurveWmi2,
            Method::SetCpuFanCurveWmi2 { .. } => MethodTy::SetCpuFanCurveWmi2,
            Method::SetCpuTempCurveWmi2 { .. } => MethodTy::SetCpuTempCurveWmi2,
            Method::SetCpuHysteresisCurveWmi2 { .. } => MethodTy::SetCpuHysteresisCurveWmi2,
            Method::SetGpuFanCurveWmi2 { .. } => MethodTy::SetGpuFanCurveWmi2,
            Method::SetGpuTempCurveWmi2 { .. } => MethodTy::SetGpuTempCurveWmi2,
            Method::SetGpuHysteresisCurveWmi2 { .. } => MethodTy::SetGpuHysteresisCurveWmi2,
            Method::EcDumpRaw => MethodTy::EcDumpRaw,
            Method::EcDumpPretty => MethodTy::EcDumpPretty,
            Method::MethodList => MethodTy::MethodList,
            Method::MethodRead { .. } => MethodTy::MethodRead,
            Method::MethodWrite { .. } => MethodTy::MethodWrite,
        }
    }
}

/// The failure of an extractor: the reply was another kind of value.
#[derive(Debug, Clone)]
pub enum RetValError {
    Unexpected { expected: &'static str, got: &'static str },
}

impl RetValError {
    /// The message: what was expected and what came instead.
    pub open spec fn spec_message(&self) -> Seq<char> {
        match self {
            RetValError::Unexpected { expected, got } => "Expected "@ + expected@ + ", instead got "@ + got@,
        }
    }

    pub fn message(&self) -> (r: String)
        ensures
            r@ == self.spec_message(),
    {
        match self {
            RetValError::Unexpected { expected, got } => {
                let mut s = String::new();
                s.append("Expected ");
                s.append(expected);
                s.append(", instead got ");
                s.append(got);
                proof {
                    reveal_strlit("Expected ");
                    reveal_strlit(", instead got ");
                    assert(s@ =~= "Expected "@ + expected@ + ", instead got "@ + got@);
                }
                s
            },
        }
    }
}

/// The daemon's reply to a call: its value, or the error text.
pub type Ret = Result<RetVal, String>;

/// The 256 register values.
#[derive(Debug)]
pub struct Bin(pub [u8; 256]);

impl Default for Bin {
    fn default() -> (r: Bin)
        ensures
            r.0@ == Seq::new(256, |i: int| 0u8),
    {
        let r = Bin([0u8; 256]);
        assert(r.0@ =~= Seq::new(256, |i: int| 0u8));
        r
    }
}

/// The value that answers a call.
#[derive(Debug)]
pub enum RetVal {
    Pong,
    Unit,
    Byte(u8),
    Word(u16),
    State(bool),
    Str(String),
    Fans(Fans),
    WmiVer(WmiVer),
    ShiftModes(Vec<ShiftMode>),
    ShiftMode(ShiftMode),
    BatteryChargeMode(BatteryMode),
    SuperBattery(SuperBattery),
    FanModes(Vec<FanMode>),
    FanMode(FanMode),
    Webcam(Webcam),
    CoolerBoost(CoolerBoost),
    KeyDirection(KeyDirection),
    Led(Led),
    Curve6(Curve6),
    Curve7(Curve7),
    EcDump(Box<Bin>),
    Methods(Vec<ModelMethod>),
    MethodData(MethodData),
}

impl RetVal {
    /// The name of the variant.
    pub open spec fn spec_name(&self) -> &'static str {
        match self {
            RetVal::Pong => "Pong",
            RetVal::Unit => "Unit",
            RetVal::Byte(..) => "Byte",
            RetVal::Word(..) => "Word",
            RetVal::State(..) => "State",
            RetVal::Str(..) => "Str",
            RetVal::Fans(..) => "Fans",
            RetVal::WmiVer(..) => "WmiVer",
            RetVal::ShiftModes(..) => "ShiftModes",
            RetVal::ShiftMode(..) => "ShiftMode",
            RetVal::BatteryChargeMode(..) => "BatteryChargeMode",
            RetVal::SuperBattery(..) => "SuperBattery",
            RetVal::FanModes(..) => "FanModes",
            RetVal::FanMode(..) => "FanMode",
            RetVal::Webcam(..) => "Webcam",
            RetVal::CoolerBoost(..) => "CoolerBoost",
            RetVal::KeyDirection(..) => "KeyDirection",
            RetVal::Led(..) => "Led",
            RetVal::Curve6(..) => "Curve6",
            RetVal::Curve7(..) => "Curve7",
            RetVal::EcDump(..) => "EcDump",
            RetVal::Methods(..) => "Methods",
            RetVal::MethodData(..) => "MethodData",
        }
    }

    /// The name of the variant.
    pub fn name(&self) -> (r: &'static str)
        ensures
            r == self.spec_name(),
    {
        match self {
            RetVal::Pong => "Pong",
            RetVal::Unit => "Unit",
            RetVal::Byte(..) => "Byte",
            RetVal::Word(..) => "Word",
            RetVal::State(..) => "State",
            RetVal::Str(..) => "Str",
            RetVal::Fans(..) => "Fans",
            RetVal::WmiVer(..) => "WmiVer",
            RetVal::ShiftModes(..) => "ShiftModes",
            RetVal::ShiftMode(..) => "ShiftMode",
            RetVal::BatteryChargeMode(..) => "BatteryChargeMode",
            RetVal::SuperBattery(..) => "SuperBattery",
            RetVal::FanModes(..) => "FanModes",
            RetVal::FanMode(..) => "FanMode",
            RetVal::Webcam(..) => "Webcam",
            RetVal::CoolerBoost(..) => "CoolerBoost",
            RetVal::KeyDirection(..) => "KeyDirection",
            RetVal::Led(..) => "Led",
            RetVal::Curve6(..) => "Curve6",
            RetVal::Curve7(..) => "Curve7",
            RetVal::EcDump(..) => "EcDump",
            RetVal::Methods(..) => "Methods",
            RetVal::MethodData(..) => "MethodData",
        }
    }

    /// The value, if this is `Pong`.
    pub fn pong(self) -> (r: Result<(), RetValError>)
        ensures
            r == match self {
                RetVal::Pong => Ok(()),
                other => Err(RetValError::Unexpected { expected: "RetVal::Pong", got: other.spec_name() }),
            },
    {
        match self {
            RetVal::Pong => Ok(()),
            other => Err(RetValError::Unexpected { expected: "RetVal::Pong", got: other.name() }),
        }
    }

    /// The value, if this is `Byte`.
    pub fn byte(self) -> (r: Result<u8, RetValError>)
        ensures
            r == match self {
                RetVal::Byte(v) => Ok(v),
                other => Err(RetValError::Unexpected { expected: "RetVal::Byte(v)", got: other.spec_name() }),
            },
    {
        match self {
            RetVal::Byte(v) => Ok(v),
            other => Err(RetValError::Unexpected { expected: "RetVal::Byte(v)", got: other.name() }),
        }
    }

    /// The value, if this is `Word`.
    pub fn word(self) -> (r: Result<u16, RetValError>)
        ensures
            r == match self {
                RetVal::Word(v) => Ok(v),
                other => Err(RetValError::Unexpected { expected: "RetVal::Word(v)", got: other.spec_name() }),
            },
    {
        match self {
            RetVal::Word(v) => Ok(v),
            other => Err(RetValError::Unexpected { expected: "RetVal::Word(v)", got: other.name() }),
        }
    }

    /// The value, if this is `State`.
    pub fn state(self) -> (r: Result<bool, RetValError>)
        ensures
            r == match self {
                RetVal::State(v) => Ok(v),
                other => Err(RetValError::Unexpected { expected: "RetVal::State(v)", got: other.spec_name() }),
            },
    {
        match self {
            RetVal::State(v) => Ok(v),
            other => Err(RetValError::Unexpected { expected: "RetVal::State(v)", got: other.name() }),
        }
    }

    /// The value, if this is `Str`.
    pub fn str(self) -> (r: Result<String, RetValError>)
        ensures
            r == match self {
                RetVal::Str(v) => Ok(v),
                other => Err(RetValError::Unexpected { expected: "RetVal::Str(v)", got: other.spec_name() }),
            },
    {
        match self {
            RetVal::Str(v) => Ok(v),
            other => Err(RetValError::Unexpected { expected: "RetVal::Str(v)", got: other.name() }),
        }
    }

    /// The value, if this is `Fans`.
    pub fn fans(self) -> (r: Result<Fans, RetValError>)
        ensures
            r == match self {
                RetVal::Fans(v) => Ok(v),
                other => Err(RetValError::Unexpected { expected: "RetVal::Fans(v)", got: other.spec_name() }),
            },
    {
        match self {
            RetVal::Fans(v) => Ok(v),
            other => Err(RetValError::Unexpected { expected: "RetVal::Fans(v)", got: other.name() }),
        }
    }

    /// The value, if this is `WmiVer`.
    pub fn wmi_ver(self) -> (r: Result<WmiVer, RetValError>)
        ensures
            r == match self {
                RetVal::WmiVer(v) => Ok(v),
                other => Err(RetValError::Unexpected { expected: "RetVal::WmiVer(v)", got: other.spec_name() }),
            },
    {
        match self {
            RetVal::WmiVer(v) => Ok(v),
            other => Err(RetValError::Unexpected { expected: "RetVal::WmiVer(v)", got: other.name() }),
        }
    }

    /// The value, if this is `ShiftModes`.
    pub fn shift_modes(self) -> (r: Result<Vec<ShiftMode>, RetValError>)
        ensures
            r == match self {
                RetVal::ShiftModes(v) => Ok(v),
                other => Err(RetValError::Unexpected { expected: "RetVal::ShiftModes(v)", got: other.spec_name() }),
            },
    {
        match self {
            RetVal::ShiftModes(v) => Ok(v),
            other => Err(RetValError::Unexpected { expected: "RetVal::ShiftModes(v)", got: other.name() }),
        }
    }

    /// The value, if this is `ShiftMode`.
    pub fn shift_mode(self) -> (r: Result<ShiftMode, RetValError>)
        ensures
            r == match self {
                RetVal::ShiftMode(v) => Ok(v),
                other => Err(RetValError::Unexpected { expected: "RetVal::ShiftMode(v)", got: other.spec_name() }),
            },
    {
        match self {
            RetVal::ShiftMode(v) => Ok(v),
            other => Err(RetValError::Unexpected { expected: "RetVal::ShiftMode(v)", got: other.name() }),
        }
    }

    /// The value, if this is `BatteryChargeMode`.
    pub fn battery_charge_mode(self) -> (r: Result<BatteryMode, RetValError>)
        ensures
            r == match self {
                RetVal::BatteryChargeMode(v) => Ok(v),
                other => Err(RetValError::Unexpected { expected: "RetVal::BatteryChargeMode(v)", got: other.spec_name() }),
            },
    {
        match self {
            RetVal::BatteryChargeMode(v) => Ok(v),
            other => Err(RetValError::Unexpected { expected: "RetVal::BatteryChargeMode(v)", got: other.name() }),
        }
    }

    /// The value, if this is `SuperBattery`.
    pub fn super_battery(self) -> (r: Result<SuperBattery, RetValError>)
        ensures
            r == match self {
                RetVal::SuperBattery(v) => Ok(v),
                other => Err(RetValError::Unexpected { expected: "RetVal::SuperBattery(v)", got: other.spec_name() }),
            },
    {
        match self {
            RetVal::SuperBattery(v) => Ok(v),
            other => Err(RetValError::Unexpected { expected: "RetVal::SuperBattery(v)", got: other.name() }),
        }
    }

    /// The value, if this is `FanModes`.
    pub fn fan_modes(self) -> (r: Result<Vec<FanMode>, RetValError>)
        ensures
            r == match self {
                RetVal::FanModes(v) => Ok(v),
                other => Err(RetValError::Unexpected { expected: "RetVal::FanModes(v)", got: other.spec_name() }),
            },
    {
        match self {
            RetVal::FanModes(v) => Ok(v),
            other => Err(RetValError::Unexpected { expected: "RetVal::FanModes(v)", got: other.name() }),
        }
    }

    /// The value, if this is `FanMode`.
    pub fn fan_mode(self) -> (r: Result<FanMode, RetValError>)
        ensures
            r == match self {
                RetVal::FanMode(v) => Ok(v),
                other => Err(RetValError::Unexpected { expected: "RetVal::FanMode(v)", got: other.spec_name() }),
            },
    {
        match self {
            RetVal::FanMode(v) => Ok(v),
            other => Err(RetValError::Unexpected { expected: "RetVal::FanMode(v)", got: other.name() }),
        }
    }

    /// The value, if this is `Webcam`.
    pub fn webcam(self) -> (r: Result<Webcam, RetValError>)
        ensures
            r == match self {
                RetVal::Webcam(v) => Ok(v),
                other => Err(RetValError::Unexpected { expected: "RetVal::Webcam(v)", got: other.spec_name() }),
            },
    {
        match self {
            RetVal::Webcam(v) => Ok(v),
            other => Err(RetValError::Unexpected { expected: "RetVal::Webcam(v)", got: other.name() }),
        }
    }

    /// The value, if this is `CoolerBoost`.
    pub fn cooler_boost(self) -> (r: Result<CoolerBoost, RetValError>)
        ensures
            r == match self {
                RetVal::CoolerBoost(v) => Ok(v),
                other => Err(RetValError::Unexpected { expected: "RetVal::CoolerBoost(v)", got: other.spec_name() }),
            },
    {
        match self {
            RetVal::CoolerBoost(v) => Ok(v),
            other => Err(RetValError::Unexpected { expected: "RetVal::CoolerBoost(v)", got: other.name() }),
        }
    }

    /// The value, if this is `KeyDirection`.
    pub fn key_direction(self) -> (r: Result<KeyDirection, RetValError>)
        ensures
            r == match self {
                RetVal::KeyDirection(v) => Ok(v),
                other => Err(RetValError::Unexpected { expected: "RetVal::KeyDirection(v)", got: other.spec_name() }),
            },
    {
        match self {
            RetVal::KeyDirection(v) => Ok(v),
            other => Err(RetValError::Unexpected { expected: "RetVal::KeyDirection(v)", got: other.name() }),
        }
    }

    /// The value, if this is `Led`.
    pub fn led(self) -> (r: Result<Led, RetValError>)
        ensures
            r == match self {
                RetVal::Led(v) => Ok(v),
                other => Err(RetValError::Unexpected { expected: "RetVal::Led(v)", got: other.spec_name() }),
            },
    {
        match self {
            RetVal::Led(v) => Ok(v),
            other => Err(RetValError::Unexpected { expected: "RetVal::Led(v)", got: other.name() }),
        }
    }

    /// The value, if this is `Curve6`.
    pub fn curve6(self) -> (r: Result<Curve6, RetValError>)
        ensures
            r == match self {
                RetVal::Curve6(v) => Ok(v),
                other => Err(RetValError::Unexpected { expected: "RetVal::Curve6(v)", got: other.spec_name() }),
            },
    {
        match self {
            RetVal::Curve6(v) => Ok(v),
            other => Err(RetValError::Unexpected { expected: "RetVal::Curve6(v)", got: other.name() }),
        }
    }

    /// The value, if this is `Curve7`.
    pub fn curve7(self) -> (r: Result<Curve7, RetValError>)
        ensures
            r == match self {
                RetVal::Curve7(v) => Ok(v),
                other => Err(RetValError::Unexpected { expected: "RetVal::Curve7(v)", got: other.spec_name() }),
            },
    {
        match self {
            RetVal::Curve7(v) => Ok(v),
            other => Err(RetValError::Unexpected { expected: "RetVal::Curve7(v)", got: other.name() }),
        }
    }

    /// The value, if this is `EcDump`.
    pub fn ec_dump(self) -> (r: Result<Box<Bin>, RetValError>)
        ensures
            r == match self {
                RetVal::EcDump(v) => Ok(v),
                other => Err(RetValError::Unexpected { expected: "RetVal::EcDump(v)", got: other.spec_name() }),
            },
    {
        match self {
            RetVal::EcDump(v) => Ok(v),
            other => Err(RetValError::Unexpected { expected: "RetVal::EcDump(v)", got: other.name() }),
        }
    }

    /// The value, if this is `MethodData`.
    pub fn method_data(self) -> (r: Result<MethodData, RetValError>)
        ensures
            r == match self {
                RetVal::MethodData(v) => Ok(v),
                other => Err(RetValError::Unexpected { expected: "RetVal::MethodData(v)", got: other.spec_name() }),
            },
    {
        match self {
            RetVal::MethodData(v) => Ok(v),
            other => Err(RetValError::Unexpected { expected: "RetVal::MethodData(v)", got: other.name() }),
        }
    }

    /// The list of methods, if this is `Methods`.
    pub fn methods(&self) -> (r: Result<&[ModelMethod], RetValError>)
        ensures
            match self {
                RetVal::Methods(v) => r matches Ok(s) && s@ == v@,
                other => r == Err::<&[ModelMethod], RetValError>(RetValError::Unexpected { expected: "RetVal::Methods(v)", got: other.spec_name() }),
            },
    {
        match self {
            RetVal::Methods(v) => Ok(v.as_slice()),
            other => Err(RetValError::Unexpected { expected: "RetVal::Methods(v)", got: other.name() }),
        }
    }

    /// The list of methods, taken out, if this is `Methods`.
    pub fn into_methods(self) -> (r: Result<Vec<ModelMethod>, RetValError>)
        ensures
            r == match self {
                RetVal::Methods(v) => Ok(v),
                other => Err(RetValError::Unexpected { expected: "RetVal::Methods(v)", got: other.spec_name() }),
            },
    {
        match self {
            RetVal::Methods(v) => Ok(v),
            other => Err(RetValError::Unexpected { expected: "RetVal::Methods(v)", got: other.name() }),
        }
    }
}

} // verus!
