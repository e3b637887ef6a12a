//! Laws of the client's state: each reply and each accepted setting lands
//! in its own field and leaves the others alone.

use vstd::prelude::*;

use super::{ClientState, Prop, SwapKey};
use crate::fw::{
    BatteryMode, CoolerBoost, Curve6, Curve7, FanMode, KeyDirection, Led, ShiftMode, SuperBattery,
    Webcam, WmiVer,
};
use crate::ipc::{Bin, Method, MethodTy, RetVal};
use crate::models::Fans;

verus! {

/// The state after a `Fans(v)` reply to a `FanCount` refresh is the state
/// with `fan_count` set to `v`; `FanCount` is reported exactly when the value
/// is new.
pub proof fn lemma_reply_fan_count(s: ClientState, v: Fans)
    ensures
        s.after_reply(MethodTy::FanCount, RetVal::Fans(v)) == (ClientState { fan_count: v, ..s }),
        s.reply_changes(MethodTy::FanCount, RetVal::Fans(v)) == (if v == s.fan_count { Seq::<Prop>::empty() } else { seq![Prop::FanCount] }),
{
}

/// The state after a `Byte(v)` reply to a `FanMax` refresh is the state
/// with `fan_max` set to `v`; `FanMax` is reported exactly when the value
/// is new.
pub proof fn lemma_reply_fan_max(s: ClientState, v: u8)
    ensures
        s.after_reply(MethodTy::FanMax, RetVal::Byte(v)) == (ClientState { fan_max: v, ..s }),
        s.reply_changes(MethodTy::FanMax, RetVal::Byte(v)) == (if v == s.fan_max { Seq::<Prop>::empty() } else { seq![Prop::FanMax] }),
{
}

/// The state after a `State(v)` reply to a `HasDGpu` refresh is the state
/// with `has_dgpu` set to `v`; `HasDgpu` is reported exactly when the value
/// is new.
pub proof fn lemma_reply_has_d_gpu(s: ClientState, v: bool)
    ensures
        s.after_reply(MethodTy::HasDGpu, RetVal::State(v)) == (ClientState { has_dgpu: v, ..s }),
        s.reply_changes(MethodTy::HasDGpu, RetVal::State(v)) == (if v == s.has_dgpu { Seq::<Prop>::empty() } else { seq![Prop::HasDgpu] }),
{
}

/// The state after a `WmiVer(v)` reply to a `WmiVer` refresh is the state
/// with `wmi_ver` set to `v`; `WmiVer` is reported exactly when the value
/// is new.
pub proof fn lemma_reply_wmi_ver(s: ClientState, v: WmiVer)
    ensures
        s.after_reply(MethodTy::WmiVer, RetVal::WmiVer(v)) == (ClientState { wmi_ver: v, ..s }),
        s.reply_changes(MethodTy::WmiVer, RetVal::WmiVer(v)) == (if v == s.wmi_ver { Seq::<Prop>::empty() } else { seq![Prop::WmiVer] }),
{
}

/// The state after a `Str(v)` reply to a `FwVersion` refresh holds `v` in
/// `fw_version` and every other field as before; `FwVersion` is reported exactly
/// when the value is new.
pub proof fn lemma_reply_fw_version(s: ClientState, v: String)
    ensures
        s.after_reply(MethodTy::FwVersion, RetVal::Str(v)).fw_version@ == v@,
        s.after_reply(MethodTy::FwVersion, RetVal::Str(v)) == (if v@ == s.fw_version@ { s } else { ClientState { fw_version: v, ..s } }),
        s.reply_changes(MethodTy::FwVersion, RetVal::Str(v)) == (if v@ == s.fw_version@ { Seq::<Prop>::empty() } else { seq![Prop::FwVersion] }),
{
}

/// The state after a `Str(v)` reply to a `FwDate` refresh holds `v` in
/// `fw_date` and every other field as before; `FwDate` is reported exactly
/// when the value is new.
pub proof fn lemma_reply_fw_date(s: ClientState, v: String)
    ensures
        s.after_reply(MethodTy::FwDate, RetVal::Str(v)).fw_date@ == v@,
        s.after_reply(MethodTy::FwDate, RetVal::Str(v)) == (if v@ == s.fw_date@ { s } else { ClientState { fw_date: v, ..s } }),
        s.reply_changes(MethodTy::FwDate, RetVal::Str(v)) == (if v@ == s.fw_date@ { Seq::<Prop>::empty() } else { seq![Prop::FwDate] }),
{
}

/// The state after a `Str(v)` reply to a `FwTime` refresh holds `v` in
/// `fw_time` and every other field as before; `Fwtime` is reported exactly
/// when the value is new.
pub proof fn lemma_reply_fw_time(s: ClientState, v: String)
    ensures
        s.after_reply(MethodTy::FwTime, RetVal::Str(v)).fw_time@ == v@,
        s.after_reply(MethodTy::FwTime, RetVal::Str(v)) == (if v@ == s.fw_time@ { s } else { ClientState { fw_time: v, ..s } }),
        s.reply_changes(MethodTy::FwTime, RetVal::Str(v)) == (if v@ == s.fw_time@ { Seq::<Prop>::empty() } else { seq![Prop::Fwtime] }),
{
}

/// The state after a `ShiftModes(v)` reply to a `ShiftModes` refresh holds `v` in
/// `shift_modes` and every other field as before; `ShiftModes` is reported exactly
/// when the value is new.
pub proof fn lemma_reply_shift_modes(s: ClientState, v: Vec<ShiftMode>)
    ensures
        s.after_reply(MethodTy::ShiftModes, RetVal::ShiftModes(v)).shift_modes@ == v@,
        s.after_reply(MethodTy::ShiftModes, RetVal::ShiftModes(v)) == (if v@ == s.shift_modes@ { s } else { ClientState { shift_modes: v, ..s } }),
        s.reply_changes(MethodTy::ShiftModes, RetVal::ShiftModes(v)) == (if v@ == s.shift_modes@ { Seq::<Prop>::empty() } else { seq![Prop::ShiftModes] }),
{
}

/// The state after a `ShiftMode(v)` reply to a `ShiftMode` refresh is the state
/// with `shift_mode` set to `v`; `ShiftMode` is reported exactly when the value
/// is new.
pub proof fn lemma_reply_shift_mode(s: ClientState, v: ShiftMode)
    ensures
        s.after_reply(MethodTy::ShiftMode, RetVal::ShiftMode(v)) == (ClientState { shift_mode: v, ..s }),
        s.reply_changes(MethodTy::ShiftMode, RetVal::ShiftMode(v)) == (if v == s.shift_mode { Seq::<Prop>::empty() } else { seq![Prop::ShiftMode] }),
{
}

/// The state after a `State(v)` reply to a `ShiftModeSupported` refresh is the state
/// with `shift_mode_supported` set to `v`; `ShiftModeSupported` is reported exactly when the value
/// is new.
pub proof fn lemma_reply_shift_mode_supported(s: ClientState, v: bool)
    ensures
        s.after_reply(MethodTy::ShiftModeSupported, RetVal::State(v)) == (ClientState { shift_mode_supported: v, ..s }),
        s.reply_changes(MethodTy::ShiftModeSupported, RetVal::State(v)) == (if v == s.shift_mode_supported { Seq::<Prop>::empty() } else { seq![Prop::ShiftModeSupported] }),
{
}

/// The state after a `BatteryChargeMode(v)` reply to a `BatteryChargeMode` refresh is the state
/// with `battery_charge_mode` set to `v`; `BatteryChargeMode` is reported exactly when the value
/// is new.
pub proof fn lemma_reply_battery_charge_mode(s: ClientState, v: BatteryMode)
    ensures
        s.after_reply(MethodTy::BatteryChargeMode, RetVal::BatteryChargeMode(v)) == (ClientState { battery_charge_mode: v, ..s }),
        s.reply_changes(MethodTy::BatteryChargeMode, RetVal::BatteryChargeMode(v)) == (if v == s.battery_charge_mode { Seq::<Prop>::empty() } else { seq![Prop::BatteryChargeMode] }),
{
}

/// The state after a `State(v)` reply to a `BatteryChargeModeSupported` refresh is the state
/// with `battery_charge_mode_supported` set to `v`; `BatteryChargeModeSupported` is reported exactly when the value
/// is new.
pub proof fn lemma_reply_battery_charge_mode_supported(s: ClientState, v: bool)
    ensures
        s.after_reply(MethodTy::BatteryChargeModeSupported, RetVal::State(v)) == (ClientState { battery_charge_mode_supported: v, ..s }),
        s.reply_changes(MethodTy::BatteryChargeModeSupported, RetVal::State(v)) == (if v == s.battery_charge_mode_supported { Seq::<Prop>::empty() } else { seq![Prop::BatteryChargeModeSupported] }),
{
}

/// The state after a `SuperBattery(v)` reply to a `SuperBattery` refresh is the state
/// with `super_battery` set to `v`; `SuperBattery` is reported exactly when the value
/// is new.
pub proof fn lemma_reply_super_battery(s: ClientState, v: SuperBattery)
    ensures
        s.after_reply(MethodTy::SuperBattery, RetVal::SuperBattery(v)) == (ClientState { super_battery: v, ..s }),
        s.reply_changes(MethodTy::SuperBattery, RetVal::SuperBattery(v)) == (if v == s.super_battery { Seq::<Prop>::empty() } else { seq![Prop::SuperBattery] }),
{
}

/// The state after a `State(v)` reply to a `SuperBatterySupported` refresh is the state
/// with `super_battery_supported` set to `v`; `SuperBatterySupported` is reported exactly when the value
/// is new.
pub proof fn lemma_reply_super_battery_supported(s: ClientState, v: bool)
    ensures
        s.after_reply(MethodTy::SuperBatterySupported, RetVal::State(v)) == (ClientState { super_battery_supported: v, ..s }),
        s.reply_changes(MethodTy::SuperBatterySupported, RetVal::State(v)) == (if v == s.super_battery_supported { Seq::<Prop>::empty() } else { seq![Prop::SuperBatterySupported] }),
{
}

/// The state after a `Word(v)` reply to a `Fan1Rpm` refresh is the state
/// with `fan1_rpm` set to `v`; `Fan1Rpm` is reported exactly when the value
/// is new.
pub proof fn lemma_reply_fan1_rpm(s: ClientState, v: u16)
    ensures
        s.after_reply(MethodTy::Fan1Rpm, RetVal::Word(v)) == (ClientState { fan1_rpm: v, ..s }),
        s.reply_changes(MethodTy::Fan1Rpm, RetVal::Word(v)) == (if v == s.fan1_rpm { Seq::<Prop>::empty() } else { seq![Prop::Fan1Rpm] }),
{
}

/// The state after a `Word(v)` reply to a `Fan2Rpm` refresh is the state
/// with `fan2_rpm` set to `v`; `Fan2Rpm` is reported exactly when the value
/// is new.
pub proof fn lemma_reply_fan2_rpm(s: ClientState, v: u16)
    ensures
        s.after_reply(MethodTy::Fan2Rpm, RetVal::Word(v)) == (ClientState { fan2_rpm: v, ..s }),
        s.reply_changes(MethodTy::Fan2Rpm, RetVal::Word(v)) == (if v == s.fan2_rpm { Seq::<Prop>::empty() } else { seq![Prop::Fan2Rpm] }),
{
}

/// The state after a `Word(v)` reply to a `Fan3Rpm` refresh is the state
/// with `fan3_rpm` set to `v`; `Fan3Rpm` is reported exactly when the value
/// is new.
pub proof fn lemma_reply_fan3_rpm(s: ClientState, v: u16)
    ensures
        s.after_reply(MethodTy::Fan3Rpm, RetVal::Word(v)) == (ClientState { fan3_rpm: v, ..s }),
        s.reply_changes(MethodTy::Fan3Rpm, RetVal::Word(v)) == (if v == s.fan3_rpm { Seq::<Prop>::empty() } else { seq![Prop::Fan3Rpm] }),
{
}

/// The state after a `Word(v)` reply to a `Fan4Rpm` refresh is the state
/// with `fan4_rpm` set to `v`; `Fan4Rpm` is reported exactly when the value
/// is new.
pub proof fn lemma_reply_fan4_rpm(s: ClientState, v: u16)
    ensures
        s.after_reply(MethodTy::Fan4Rpm, RetVal::Word(v)) == (ClientState { fan4_rpm: v, ..s }),
        s.reply_changes(MethodTy::Fan4Rpm, RetVal::Word(v)) == (if v == s.fan4_rpm { Seq::<Prop>::empty() } else { seq![Prop::Fan4Rpm] }),
{
}

/// The state after a `State(v)` reply to a `Fan1Supported` refresh is the state
/// with `fan1_supported` set to `v`; `Fan1Supported` is reported exactly when the value
/// is new.
pub proof fn lemma_reply_fan1_supported(s: ClientState, v: bool)
    ensures
        s.after_reply(MethodTy::Fan1Supported, RetVal::State(v)) == (ClientState { fan1_supported: v, ..s }),
        s.reply_changes(MethodTy::Fan1Supported, RetVal::State(v)) == (if v == s.fan1_supported { Seq::<Prop>::empty() } else { seq![Prop::Fan1Supported] }),
{
}

/// The state after a `State(v)` reply to a `Fan2Supported` refresh is the state
/// with `fan2_supported` set to `v`; `Fan2Supported` is reported exactly when the value
/// is new.
pub proof fn lemma_reply_fan2_supported(s: ClientState, v: bool)
    ensures
        s.after_reply(MethodTy::Fan2Supported, RetVal::State(v)) == (ClientState { fan2_supported: v, ..s }),
        s.reply_changes(MethodTy::Fan2Supported, RetVal::State(v)) == (if v == s.fan2_supported { Seq::<Prop>::empty() } else { seq![Prop::Fan2Supported] }),
{
}

/// The state after a `State(v)` reply to a `Fan3Supported` refresh is the state
/// with `fan3_supported` set to `v`; `Fan3Supported` is reported exactly when the value
/// is new.
pub proof fn lemma_reply_fan3_supported(s: ClientState, v: bool)
    ensures
        s.after_reply(MethodTy::Fan3Supported, RetVal::State(v)) == (ClientState { fan3_supported: v, ..s }),
        s.reply_changes(MethodTy::Fan3Supported, RetVal::State(v)) == (if v == s.fan3_supported { Seq::<Prop>::empty() } else { seq![Prop::Fan3Supported] }),
{
}

/// The state after a `State(v)` reply to a `Fan4Supported` refresh is the state
/// with `fan4_supported` set to `v`; `Fan4Supported` is reported exactly when the value
/// is new.
pub proof fn lemma_reply_fan4_supported(s: ClientState, v: bool)
    ensures
        s.after_reply(MethodTy::Fan4Supported, RetVal::State(v)) == (ClientState { fan4_supported: v, ..s }),
        s.reply_changes(MethodTy::Fan4Supported, RetVal::State(v)) == (if v == s.fan4_supported { Seq::<Prop>::empty() } else { seq![Prop::Fan4Supported] }),
{
}

/// The state after a `FanModes(v)` reply to a `FanModes` refresh holds `v` in
/// `fan_modes` and every other field as before; `FanModes` is reported exactly
/// when the value is new.
pub proof fn lemma_reply_fan_modes(s: ClientState, v: Vec<FanMode>)
    ensures
        s.after_reply(MethodTy::FanModes, RetVal::FanModes(v)).fan_modes@ == v@,
        s.after_reply(MethodTy::FanModes, RetVal::FanModes(v)) == (if v@ == s.fan_modes@ { s } else { ClientState { fan_modes: v, ..s } }),
        s.reply_changes(MethodTy::FanModes, RetVal::FanModes(v)) == (if v@ == s.fan_modes@ { Seq::<Prop>::empty() } else { seq![Prop::FanModes] }),
{
}

/// The state after a `FanMode(v)` reply to a `FanMode` refresh is the state
/// with `fan_mode` set to `v`; `FanMode` is reported exactly when the value
/// is new.
pub proof fn lemma_reply_fan_mode(s: ClientState, v: FanMode)
    ensures
        s.after_reply(MethodTy::FanMode, RetVal::FanMode(v)) == (ClientState { fan_mode: v, ..s }),
        s.reply_changes(MethodTy::FanMode, RetVal::FanMode(v)) == (if v == s.fan_mode { Seq::<Prop>::empty() } else { seq![Prop::FanMode] }),
{
}

/// The state after a `State(v)` reply to a `FanModeSupported` refresh is the state
/// with `fan_mode_supported` set to `v`; `FanModeSupported` is reported exactly when the value
/// is new.
pub proof fn lemma_reply_fan_mode_supported(s: ClientState, v: bool)
    ensures
        s.after_reply(MethodTy::FanModeSupported, RetVal::State(v)) == (ClientState { fan_mode_supported: v, ..s }),
        s.reply_changes(MethodTy::FanModeSupported, RetVal::State(v)) == (if v == s.fan_mode_supported { Seq::<Prop>::empty() } else { seq![Prop::FanModeSupported] }),
{
}

/// The state after a `Webcam(v)` reply to a `Webcam` refresh is the state
/// with `webcam` set to `v`; `Webcam` is reported exactly when the value
/// is new.
pub proof fn lemma_reply_webcam(s: ClientState, v: Webcam)
    ensures
        s.after_reply(MethodTy::Webcam, RetVal::Webcam(v)) == (ClientState { webcam: v, ..s }),
        s.reply_changes(MethodTy::Webcam, RetVal::Webcam(v)) == (if v == s.webcam { Seq::<Prop>::empty() } else { seq![Prop::Webcam] }),
{
}

/// The state after a `Webcam(v)` reply to a `WebcamBlock` refresh is the state
/// with `webcam_block` set to `v`; `WebcamBlock` is reported exactly when the value
/// is new.
pub proof fn lemma_reply_webcam_block(s: ClientState, v: Webcam)
    ensures
        s.after_reply(MethodTy::WebcamBlock, RetVal::Webcam(v)) == (ClientState { webcam_block: v, ..s }),
        s.reply_changes(MethodTy::WebcamBlock, RetVal::Webcam(v)) == (if v == s.webcam_block { Seq::<Prop>::empty() } else { seq![Prop::WebcamBlock] }),
{
}

/// The state after a `State(v)` reply to a `WebcamSupported` refresh is the state
/// with `webcam_supported` set to `v`; `WebcamSupported` is reported exactly when the value
/// is new.
pub proof fn lemma_reply_webcam_supported(s: ClientState, v: bool)
    ensures
        s.after_reply(MethodTy::WebcamSupported, RetVal::State(v)) == (ClientState { webcam_supported: v, ..s }),
        s.reply_changes(MethodTy::WebcamSupported, RetVal::State(v)) == (if v == s.webcam_supported { Seq::<Prop>::empty() } else { seq![Prop::WebcamSupported] }),
{
}

/// The state after a `State(v)` reply to a `WebcamBlockSupported` refresh is the state
/// with `webcam_block_supported` set to `v`; `WebcamBlockSupported` is reported exactly when the value
/// is new.
pub proof fn lemma_reply_webcam_block_supported(s: ClientState, v: bool)
    ensures
        s.after_reply(MethodTy::WebcamBlockSupported, RetVal::State(v)) == (ClientState { webcam_block_supported: v, ..s }),
        s.reply_changes(MethodTy::WebcamBlockSupported, RetVal::State(v)) == (if v == s.webcam_block_supported { Seq::<Prop>::empty() } else { seq![Prop::WebcamBlockSupported] }),
{
}

/// The state after a `CoolerBoost(v)` reply to a `CoolerBoost` refresh is the state
/// with `cooler_boost` set to `v`; `CoolerBoost` is reported exactly when the value
/// is new.
pub proof fn lemma_reply_cooler_boost(s: ClientState, v: CoolerBoost)
    ensures
        s.after_reply(MethodTy::CoolerBoost, RetVal::CoolerBoost(v)) == (ClientState { cooler_boost: v, ..s }),
        s.reply_changes(MethodTy::CoolerBoost, RetVal::CoolerBoost(v)) == (if v == s.cooler_boost { Seq::<Prop>::empty() } else { seq![Prop::CoolerBoost] }),
{
}

/// The state after a `State(v)` reply to a `CoolerBoostSupported` refresh is the state
/// with `cooler_boost_supported` set to `v`; `CoolerBoostSupported` is reported exactly when the value
/// is new.
pub proof fn lemma_reply_cooler_boost_supported(s: ClientState, v: bool)
    ensures
        s.after_reply(MethodTy::CoolerBoostSupported, RetVal::State(v)) == (ClientState { cooler_boost_supported: v, ..s }),
        s.reply_changes(MethodTy::CoolerBoostSupported, RetVal::State(v)) == (if v == s.cooler_boost_supported { Seq::<Prop>::empty() } else { seq![Prop::CoolerBoostSupported] }),
{
}

/// The state after a `KeyDirection(v)` reply to a `FnKey` refresh has the fn key on side `v` and the win key on the other,
/// every other field as before; `FnKey` and `WinKey` are reported exactly when the
/// keys move.
pub proof fn lemma_reply_fn_key(s: ClientState, v: KeyDirection)
    ensures
        s.after_reply(MethodTy::FnKey, RetVal::KeyDirection(v)) == (ClientState { swap_key: SwapKey { fn_key: v }, ..s }),
        s.reply_changes(MethodTy::FnKey, RetVal::KeyDirection(v)) == (if s.swap_key.fn_key == v { Seq::<Prop>::empty() } else { seq![Prop::FnKey, Prop::WinKey] }),
{
}

/// The state after a `KeyDirection(v)` reply to a `WinKey` refresh has the win key on side `v` and the fn key on the other,
/// every other field as before; `FnKey` and `WinKey` are reported exactly when the
/// keys move.
pub proof fn lemma_reply_win_key(s: ClientState, v: KeyDirection)
    ensures
        s.after_reply(MethodTy::WinKey, RetVal::KeyDirection(v)) == (ClientState { swap_key: SwapKey { fn_key: (match v { KeyDirection::Left => KeyDirection::Right, KeyDirection::Right => KeyDirection::Left }) }, ..s }),
        s.reply_changes(MethodTy::WinKey, RetVal::KeyDirection(v)) == (if s.swap_key.fn_key != v { Seq::<Prop>::empty() } else { seq![Prop::FnKey, Prop::WinKey] }),
{
}

/// The state after a `State(v)` reply to a `FnWinSwapSupported` refresh is the state
/// with `fn_win_swap_supported` set to `v`; `FnWinSwapSupported` is reported exactly when the value
/// is new.
pub proof fn lemma_reply_fn_win_swap_supported(s: ClientState, v: bool)
    ensures
        s.after_reply(MethodTy::FnWinSwapSupported, RetVal::State(v)) == (ClientState { fn_win_swap_supported: v, ..s }),
        s.reply_changes(MethodTy::FnWinSwapSupported, RetVal::State(v)) == (if v == s.fn_win_swap_supported { Seq::<Prop>::empty() } else { seq![Prop::FnWinSwapSupported] }),
{
}

/// The state after a `Led(v)` reply to a `MicMuteLed` refresh is the state
/// with `mic_mute_led` set to `v`; `MicMuteLed` is reported exactly when the value
/// is new.
pub proof fn lemma_reply_mic_mute_led(s: ClientState, v: Led)
    ensures
        s.after_reply(MethodTy::MicMuteLed, RetVal::Led(v)) == (ClientState { mic_mute_led: v, ..s }),
        s.reply_changes(MethodTy::MicMuteLed, RetVal::Led(v)) == (if v == s.mic_mute_led { Seq::<Prop>::empty() } else { seq![Prop::MicMuteLed] }),
{
}

/// The state after a `Led(v)` reply to a `MuteLed` refresh is the state
/// with `mute_led` set to `v`; `MuteLed` is reported exactly when the value
/// is new.
pub proof fn lemma_reply_mute_led(s: ClientState, v: Led)
    ensures
        s.after_reply(MethodTy::MuteLed, RetVal::Led(v)) == (ClientState { mute_led: v, ..s }),
        s.reply_changes(MethodTy::MuteLed, RetVal::Led(v)) == (if v == s.mute_led { Seq::<Prop>::empty() } else { seq![Prop::MuteLed] }),
{
}

/// The state after a `State(v)` reply to a `MicMuteLedSupported` refresh is the state
/// with `mic_mute_led_supported` set to `v`; `MicMuteLedSupported` is reported exactly when the value
/// is new.
pub proof fn lemma_reply_mic_mute_led_supported(s: ClientState, v: bool)
    ensures
        s.after_reply(MethodTy::MicMuteLedSupported, RetVal::State(v)) == (ClientState { mic_mute_led_supported: v, ..s }),
        s.reply_changes(MethodTy::MicMuteLedSupported, RetVal::State(v)) == (if v == s.mic_mute_led_supported { Seq::<Prop>::empty() } else { seq![Prop::MicMuteLedSupported] }),
{
}

/// The state after a `State(v)` reply to a `MuteLedSupported` refresh is the state
/// with `mute_led_supported` set to `v`; `MuteLedSupported` is reported exactly when the value
/// is new.
pub proof fn lemma_reply_mute_led_supported(s: ClientState, v: bool)
    ensures
        s.after_reply(MethodTy::MuteLedSupported, RetVal::State(v)) == (ClientState { mute_led_supported: v, ..s }),
        s.reply_changes(MethodTy::MuteLedSupported, RetVal::State(v)) == (if v == s.mute_led_supported { Seq::<Prop>::empty() } else { seq![Prop::MuteLedSupported] }),
{
}

/// The state after a `Byte(v)` reply to a `CpuRtFanSpeed` refresh is the state
/// with `cpu_rt_fan_speed` set to `v`; `CpuRtFanSpeed` is reported exactly when the value
/// is new.
pub proof fn lemma_reply_cpu_rt_fan_speed(s: ClientState, v: u8)
    ensures
        s.after_reply(MethodTy::CpuRtFanSpeed, RetVal::Byte(v)) == (ClientState { cpu_rt_fan_speed: v, ..s }),
        s.reply_changes(MethodTy::CpuRtFanSpeed, RetVal::Byte(v)) == (if v == s.cpu_rt_fan_speed { Seq::<Prop>::empty() } else { seq![Prop::CpuRtFanSpeed] }),
{
}

/// The state after a `Byte(v)` reply to a `CpuRtTemp` refresh is the state
/// with `cpu_rt_temp` set to `v`; `CpuRtTemp` is reported exactly when the value
/// is new.
pub proof fn lemma_reply_cpu_rt_temp(s: ClientState, v: u8)
    ensures
        s.after_reply(MethodTy::CpuRtTemp, RetVal::Byte(v)) == (ClientState { cpu_rt_temp: v, ..s }),
        s.reply_changes(MethodTy::CpuRtTemp, RetVal::Byte(v)) == (if v == s.cpu_rt_temp { Seq::<Prop>::empty() } else { seq![Prop::CpuRtTemp] }),
{
}

/// The state after a `Byte(v)` reply to a `GpuRtFanSpeed` refresh is the state
/// with `gpu_rt_fan_speed` set to `v`; `GpuRtFanSpeed` is reported exactly when the value
/// is new.
pub proof fn lemma_reply_gpu_rt_fan_speed(s: ClientState, v: u8)
    ensures
        s.after_reply(MethodTy::GpuRtFanSpeed, RetVal::Byte(v)) == (ClientState { gpu_rt_fan_speed: v, ..s }),
        s.reply_changes(MethodTy::GpuRtFanSpeed, RetVal::Byte(v)) == (if v == s.gpu_rt_fan_speed { Seq::<Prop>::empty() } else { seq![Prop::GpuRtFanSpeed] }),
{
}

/// The state after a `Byte(v)` reply to a `GpuRtTemp` refresh is the state
/// with `gpu_rt_temp` set to `v`; `GpuRtTemp` is reported exactly when the value
/// is new.
pub proof fn lemma_reply_gpu_rt_temp(s: ClientState, v: u8)
    ensures
        s.after_reply(MethodTy::GpuRtTemp, RetVal::Byte(v)) == (ClientState { gpu_rt_temp: v, ..s }),
        s.reply_changes(MethodTy::GpuRtTemp, RetVal::Byte(v)) == (if v == s.gpu_rt_temp { Seq::<Prop>::empty() } else { seq![Prop::GpuRtTemp] }),
{
}

/// The state after a `Curve7(v)` reply to a `CpuFanCurveWmi2` refresh is the state
/// with `cpu_fan_curve_wmi2` set to `v`; `CpuFanCurveWmi2` is reported exactly when the value
/// is new.
pub proof fn lemma_reply_cpu_fan_curve_wmi2(s: ClientState, v: Curve7)
    ensures
        s.after_reply(MethodTy::CpuFanCurveWmi2, RetVal::Curve7(v)) == (ClientState { cpu_fan_curve_wmi2: v, ..s }),
        s.reply_changes(MethodTy::CpuFanCurveWmi2, RetVal::Curve7(v)) == (if v == s.cpu_fan_curve_wmi2 { Seq::<Prop>::empty() } else { seq![Prop::CpuFanCurveWmi2] }),
{
}

/// The state after a `Curve7(v)` reply to a `CpuTempCurveWmi2` refresh is the state
/// with `cpu_temp_curve_wmi2` set to `v`; `CpuTempCurveWmi2` is reported exactly when the value
/// is new.
pub proof fn lemma_reply_cpu_temp_curve_wmi2(s: ClientState, v: Curve7)
    ensures
        s.after_reply(MethodTy::CpuTempCurveWmi2, RetVal::Curve7(v)) == (ClientState { cpu_temp_curve_wmi2: v, ..s }),
        s.reply_changes(MethodTy::CpuTempCurveWmi2, RetVal::Curve7(v)) == (if v == s.cpu_temp_curve_wmi2 { Seq::<Prop>::empty() } else { seq![Prop::CpuTempCurveWmi2] }),
{
}

/// The state after a `Curve6(v)` reply to a `CpuHysteresisCurveWmi2` refresh is the state
/// with `cpu_hysteresis_curve_wmi2` set to `v`; `CpuHysteresisCurveWmi2` is reported exactly when the value
/// is new.
pub proof fn lemma_reply_cpu_hysteresis_curve_wmi2(s: ClientState, v: Curve6)
    ensures
        s.after_reply(MethodTy::CpuHysteresisCurveWmi2, RetVal::Curve6(v)) == (ClientState { cpu_hysteresis_curve_wmi2: v, ..s }),
        s.reply_changes(MethodTy::CpuHysteresisCurveWmi2, RetVal::Curve6(v)) == (if v == s.cpu_hysteresis_curve_wmi2 { Seq::<Prop>::empty() } else { seq![Prop::CpuHysteresisCurveWmi2] }),
{
}

/// The state after a `Curve7(v)` reply to a `GpuFanCurveWmi2` refresh is the state
/// with `gpu_fan_curve_wmi2` set to `v`; `GpuFanCurveWmi2` is reported exactly when the value
/// is new.
pub proof fn lemma_reply_gpu_fan_curve_wmi2(s: ClientState, v: Curve7)
    ensures
        s.after_reply(MethodTy::GpuFanCurveWmi2, RetVal::Curve7(v)) == (ClientState { gpu_fan_curve_wmi2: v, ..s }),
        s.reply_changes(MethodTy::GpuFanCurveWmi2, RetVal::Curve7(v)) == (if v == s.gpu_fan_curve_wmi2 { Seq::<Prop>::empty() } else { seq![Prop::GpuFanCurveWmi2] }),
{
}

/// The state after a `Curve7(v)` reply to a `GpuTempCurveWmi2` refresh is the state
/// with `gpu_temp_curve_wmi2` set to `v`; `GpuTempCurveWmi2` is reported exactly when the value
/// is new.
pub proof fn lemma_reply_gpu_temp_curve_wmi2(s: ClientState, v: Curve7)
    ensures
        s.after_reply(MethodTy::GpuTempCurveWmi2, RetVal::Curve7(v)) == (ClientState { gpu_temp_curve_wmi2: v, ..s }),
        s.reply_changes(MethodTy::GpuTempCurveWmi2, RetVal::Curve7(v)) == (if v == s.gpu_temp_curve_wmi2 { Seq::<Prop>::empty() } else { seq![Prop::GpuTempCurveWmi2] }),
{
}

/// The state after a `Curve6(v)` reply to a `GpuHysteresisCurveWmi2` refresh is the state
/// with `gpu_hysteresis_curve_wmi2` set to `v`; `GpuHysteresisCurveWmi2` is reported exactly when the value
/// is new.
pub proof fn lemma_reply_gpu_hysteresis_curve_wmi2(s: ClientState, v: Curve6)
    ensures
        s.after_reply(MethodTy::GpuHysteresisCurveWmi2, RetVal::Curve6(v)) == (ClientState { gpu_hysteresis_curve_wmi2: v, ..s }),
        s.reply_changes(MethodTy::GpuHysteresisCurveWmi2, RetVal::Curve6(v)) == (if v == s.gpu_hysteresis_curve_wmi2 { Seq::<Prop>::empty() } else { seq![Prop::GpuHysteresisCurveWmi2] }),
{
}

/// The state after a `EcDump(v)` reply to a `EcDumpRaw` refresh holds `v` in
/// `ec_dump` and every other field as before; `EcDump` is reported exactly
/// when the value is new.
pub proof fn lemma_reply_ec_dump_raw(s: ClientState, v: Box<Bin>)
    ensures
        s.after_reply(MethodTy::EcDumpRaw, RetVal::EcDump(v)).ec_dump.0@ == v.0@,
        s.after_reply(MethodTy::EcDumpRaw, RetVal::EcDump(v)) == (if v.0@ == s.ec_dump.0@ { s } else { ClientState { ec_dump: v, ..s } }),
        s.reply_changes(MethodTy::EcDumpRaw, RetVal::EcDump(v)) == (if v.0@ == s.ec_dump.0@ { Seq::<Prop>::empty() } else { seq![Prop::EcDump] }),
{
}

/// The state after a `Str(v)` reply to a `EcDumpPretty` refresh holds `v` in
/// `ec_dump_pretty` and every other field as before; `EcDumpPretty` is reported exactly
/// when the value is new.
pub proof fn lemma_reply_ec_dump_pretty(s: ClientState, v: String)
    ensures
        s.after_reply(MethodTy::EcDumpPretty, RetVal::Str(v)).ec_dump_pretty@ == v@,
        s.after_reply(MethodTy::EcDumpPretty, RetVal::Str(v)) == (if v@ == s.ec_dump_pretty@ { s } else { ClientState { ec_dump_pretty: v, ..s } }),
        s.reply_changes(MethodTy::EcDumpPretty, RetVal::Str(v)) == (if v@ == s.ec_dump_pretty@ { Seq::<Prop>::empty() } else { seq![Prop::EcDumpPretty] }),
{
}

/// Once the daemon accepted `SetShiftMode`, the state is the old one with
/// `shift_mode` set to `m`, and `ShiftMode` is reported changed.
pub proof fn lemma_confirm_set_shift_mode(s: ClientState, m: ShiftMode)
    ensures
        s.after_set(Method::SetShiftMode { mode: m }) == (ClientState { shift_mode: m, ..s }),
        ClientState::set_changes(Method::SetShiftMode { mode: m }) == seq![Prop::ShiftMode],
{
}

/// Once the daemon accepted `SetBatteryChargeMode`, the state is the old one with
/// `battery_charge_mode` set to `m`, and `BatteryChargeMode` is reported changed.
pub proof fn lemma_confirm_set_battery_charge_mode(s: ClientState, m: BatteryMode)
    ensures
        s.after_set(Method::SetBatteryChargeMode { mode: m }) == (ClientState { battery_charge_mode: m, ..s }),
        ClientState::set_changes(Method::SetBatteryChargeMode { mode: m }) == seq![Prop::BatteryChargeMode],
{
}

/// Once the daemon accepted `SetSuperBattery`, the state is the old one with
/// `super_battery` set to `m`, and `SuperBattery` is reported changed.
pub proof fn lemma_confirm_set_super_battery(s: ClientState, m: SuperBattery)
    ensures
        s.after_set(Method::SetSuperBattery { state: m }) == (ClientState { super_battery: m, ..s }),
        ClientState::set_changes(Method::SetSuperBattery { state: m }) == seq![Prop::SuperBattery],
{
}

/// Once the daemon accepted `SetFanMode`, the state is the old one with
/// `fan_mode` set to `m`, and `FanMode` is reported changed.
pub proof fn lemma_confirm_set_fan_mode(s: ClientState, m: FanMode)
    ensures
        s.after_set(Method::SetFanMode { mode: m }) == (ClientState { fan_mode: m, ..s }),
        ClientState::set_changes(Method::SetFanMode { mode: m }) == seq![Prop::FanMode],
{
}

/// Once the daemon accepted `SetWebcam`, the state is the old one with
/// `webcam` set to `m`, and `Webcam` is reported changed.
pub proof fn lemma_confirm_set_webcam(s: ClientState, m: Webcam)
    ensures
        s.after_set(Method::SetWebcam { state: m }) == (ClientState { webcam: m, ..s }),
        ClientState::set_changes(Method::SetWebcam { state: m }) == seq![Prop::Webcam],
{
}

/// Once the daemon accepted `SetWebcamBlock`, the state is the old one with
/// `webcam_block` set to `m`, and `WebcamBlock` is reported changed.
pub proof fn lemma_confirm_set_webcam_block(s: ClientState, m: Webcam)
    ensures
        s.after_set(Method::SetWebcamBlock { state: m }) == (ClientState { webcam_block: m, ..s }),
        ClientState::set_changes(Method::SetWebcamBlock { state: m }) == seq![Prop::WebcamBlock],
{
}

/// Once the daemon accepted `SetCoolerBoost`, the state is the old one with
/// `cooler_boost` set to `m`, and `CoolerBoost` is reported changed.
pub proof fn lemma_confirm_set_cooler_boost(s: ClientState, m: CoolerBoost)
    ensures
        s.after_set(Method::SetCoolerBoost { state: m }) == (ClientState { cooler_boost: m, ..s }),
        ClientState::set_changes(Method::SetCoolerBoost { state: m }) == seq![Prop::CoolerBoost],
{
}

/// Once the daemon accepted `SetFnKey`, the state is the old one with
/// the fn key on side `m` and the win key on the other, and `FnKey` and `WinKey` is reported changed.
pub proof fn lemma_confirm_set_fn_key(s: ClientState, m: KeyDirection)
    ensures
        s.after_set(Method::SetFnKey { state: m }) == (ClientState { swap_key: SwapKey { fn_key: m }, ..s }),
        ClientState::set_changes(Method::SetFnKey { state: m }) == seq![Prop::FnKey, Prop::WinKey],
{
}

/// Once the daemon accepted `SetWinKey`, the state is the old one with
/// the win key on side `m` and the fn key on the other, and `FnKey` and `WinKey` is reported changed.
pub proof fn lemma_confirm_set_win_key(s: ClientState, m: KeyDirection)
    ensures
        s.after_set(Method::SetWinKey { state: m }) == (ClientState { swap_key: SwapKey { fn_key: (match m { KeyDirection::Left => KeyDirection::Right, KeyDirection::Right => KeyDirection::Left }) }, ..s }),
        ClientState::set_changes(Method::SetWinKey { state: m }) == seq![Prop::FnKey, Prop::WinKey],
{
}

/// Once the daemon accepted `SetMicMuteLed`, the state is the old one with
/// `mic_mute_led` set to `m`, and `MicMuteLed` is reported changed.
pub proof fn lemma_confirm_set_mic_mute_led(s: ClientState, m: Led)
    ensures
        s.after_set(Method::SetMicMuteLed { state: m }) == (ClientState { mic_mute_led: m, ..s }),
        ClientState::set_changes(Method::SetMicMuteLed { state: m }) == seq![Prop::MicMuteLed],
{
}

/// Once the daemon accepted `SetMuteLed`, the state is the old one with
/// `mute_led` set to `m`, and `MuteLed` is reported changed.
pub proof fn lemma_confirm_set_mute_led(s: ClientState, m: Led)
    ensures
        s.after_set(Method::SetMuteLed { state: m }) == (ClientState { mute_led: m, ..s }),
        ClientState::set_changes(Method::SetMuteLed { state: m }) == seq![Prop::MuteLed],
{
}

/// Once the daemon accepted `SetCpuFanCurveWmi2`, the state is the old one with
/// `cpu_fan_curve_wmi2` set to `m`, and `CpuFanCurveWmi2` is reported changed.
pub proof fn lemma_confirm_set_cpu_fan_curve_wmi2(s: ClientState, m: Curve7)
    ensures
        s.after_set(Method::SetCpuFanCurveWmi2 { curve: m }) == (ClientState { cpu_fan_curve_wmi2: m, ..s }),
        ClientState::set_changes(Method::SetCpuFanCurveWmi2 { curve: m }) == seq![Prop::CpuFanCurveWmi2],
{
}

/// Once the daemon accepted `SetCpuTempCurveWmi2`, the state is the old one with
/// `cpu_temp_curve_wmi2` set to `m`, and `CpuTempCurveWmi2` is reported changed.
pub proof fn lemma_confirm_set_cpu_temp_curve_wmi2(s: ClientState, m: Curve7)
    ensures
        s.after_set(Method::SetCpuTempCurveWmi2 { curve: m }) == (ClientState { cpu_temp_curve_wmi2: m, ..s }),
        ClientState::set_changes(Method::SetCpuTempCurveWmi2 { curve: m }) == seq![Prop::CpuTempCurveWmi2],
{
}

/// Once the daemon accepted `SetCpuHysteresisCurveWmi2`, the state is the old one with
/// `cpu_hysteresis_curve_wmi2` set to `m`, and `CpuHysteresisCurveWmi2` is reported changed.
pub proof fn lemma_confirm_set_cpu_hysteresis_curve_wmi2(s: ClientState, m: Curve6)
    ensures
        s.after_set(Method::SetCpuHysteresisCurveWmi2 { curve: m }) == (ClientState { cpu_hysteresis_curve_wmi2: m, ..s }),
        ClientState::set_changes(Method::SetCpuHysteresisCurveWmi2 { curve: m }) == seq![Prop::CpuHysteresisCurveWmi2],
{
}

/// Once the daemon accepted `SetGpuFanCurveWmi2`, the state is the old one with
/// `gpu_fan_curve_wmi2` set to `m`, and `GpuFanCurveWmi2` is reported changed.
pub proof fn lemma_confirm_set_gpu_fan_curve_wmi2(s: ClientState, m: Curve7)
    ensures
        s.after_set(Method::SetGpuFanCurveWmi2 { curve: m }) == (ClientState { gpu_fan_curve_wmi2: m, ..s }),
        ClientState::set_changes(Method::SetGpuFanCurveWmi2 { curve: m }) == seq![Prop::GpuFanCurveWmi2],
{
}

/// Once the daemon accepted `SetGpuTempCurveWmi2`, the state is the old one with
/// `gpu_temp_curve_wmi2` set to `m`, and `GpuTempCurveWmi2` is reported changed.
pub proof fn lemma_confirm_set_gpu_temp_curve_wmi2(s: ClientState, m: Curve7)
    ensures
        s.after_set(Method::SetGpuTempCurveWmi2 { curve: m }) == (ClientState { gpu_temp_curve_wmi2: m, ..s }),
        ClientState::set_changes(Method::SetGpuTempCurveWmi2 { curve: m }) == seq![Prop::GpuTempCurveWmi2],
{
}

/// Once the daemon accepted `SetGpuHysteresisCurveWmi2`, the state is the old one with
/// `gpu_hysteresis_curve_wmi2` set to `m`, and `GpuHysteresisCurveWmi2` is reported changed.
pub proof fn lemma_confirm_set_gpu_hysteresis_curve_wmi2(s: ClientState, m: Curve6)
    ensures
        s.after_set(Method::SetGpuHysteresisCurveWmi2 { curve: m }) == (ClientState { gpu_hysteresis_curve_wmi2: m, ..s }),
        ClientState::set_changes(Method::SetGpuHysteresisCurveWmi2 { curve: m }) == seq![Prop::GpuHysteresisCurveWmi2],
{
}


/// A state already holds a setting call exactly when the field that the
/// call sets has the call's value; the fn and win key calls compare the
/// side of the fn key, and no other call is ever held.
pub proof fn lemma_holds(
    s: ClientState,
    shift: ShiftMode,
    battery: BatteryMode,
    sb: SuperBattery,
    fan: FanMode,
    cam: Webcam,
    boost: CoolerBoost,
    key: KeyDirection,
    led: Led,
    c7: Curve7,
    c6: Curve6,
)
    ensures
        s.holds(Method::SetShiftMode { mode: shift }) <==> s.shift_mode == shift,
        s.holds(Method::SetBatteryChargeMode { mode: battery }) <==> s.battery_charge_mode == battery,
        s.holds(Method::SetSuperBattery { state: sb }) <==> s.super_battery == sb,
        s.holds(Method::SetFanMode { mode: fan }) <==> s.fan_mode == fan,
        s.holds(Method::SetWebcam { state: cam }) <==> s.webcam == cam,
        s.holds(Method::SetWebcamBlock { state: cam }) <==> s.webcam_block == cam,
        s.holds(Method::SetCoolerBoost { state: boost }) <==> s.cooler_boost == boost,
        s.holds(Method::SetFnKey { state: key }) <==> s.swap_key.fn_key == key,
        s.holds(Method::SetWinKey { state: key }) <==> s.swap_key.fn_key != key,
        s.holds(Method::SetMicMuteLed { state: led }) <==> s.mic_mute_led == led,
        s.holds(Method::SetMuteLed { state: led }) <==> s.mute_led == led,
        s.holds(Method::SetCpuFanCurveWmi2 { curve: c7 }) <==> s.cpu_fan_curve_wmi2 == c7,
        s.holds(Method::SetCpuTempCurveWmi2 { curve: c7 }) <==> s.cpu_temp_curve_wmi2 == c7,
        s.holds(Method::SetCpuHysteresisCurveWmi2 { curve: c6 }) <==> s.cpu_hysteresis_curve_wmi2 == c6,
        s.holds(Method::SetGpuFanCurveWmi2 { curve: c7 }) <==> s.gpu_fan_curve_wmi2 == c7,
        s.holds(Method::SetGpuTempCurveWmi2 { curve: c7 }) <==> s.gpu_temp_curve_wmi2 == c7,
        s.holds(Method::SetGpuHysteresisCurveWmi2 { curve: c6 }) <==> s.gpu_hysteresis_curve_wmi2 == c6,
        !s.holds(Method::Ping),
{
}

} // verus!
