//! A profile of the client's settings: the settings written out, and the
//! calls that bring the daemon to a profile read back in.

use vstd::prelude::*;

use super::access::{cooler_boost_of, led_of, super_battery_of, webcam_of};
use super::{ClientState, SwapKey};
use crate::fw::{
    BatteryMode, CoolerBoost, Curve6, Curve7, FanMode, KeyDirection, Led, ShiftMode, SuperBattery,
    Webcam,
};
use crate::ec::MethodData;
use crate::ipc::Method;
use super::writes::{copy_data, same_data};

verus! {

/// The settings of the client, as written out.
#[derive(Debug, Copy, Clone, PartialEq, Eq, Structural)]
pub struct Profile {
    pub shift_mode: ShiftMode,
    pub battery_charge_mode: BatteryMode,
    pub super_battery: bool,
    pub fan_mode: FanMode,
    pub webcam: bool,
    pub webcam_block: bool,
    pub cooler_boost: bool,
    pub fn_key: KeyDirection,
    pub win_key: KeyDirection,
    pub mic_mute_led: bool,
    pub mute_led: bool,
    pub cpu_fan_curve_wmi2: Curve7,
    pub cpu_temp_curve_wmi2: Curve7,
    pub cpu_hysteresis_curve_wmi2: Curve6,
    pub gpu_fan_curve_wmi2: Curve7,
    pub gpu_temp_curve_wmi2: Curve7,
    pub gpu_hysteresis_curve_wmi2: Curve6,
}

/// The settings read back in; each is present only where the input held a
/// value of the right kind. The win key is not read: it follows the fn key.
#[derive(Debug, Copy, Clone, PartialEq, Eq, Structural)]
pub struct ProfileInput {
    pub shift_mode: Option<ShiftMode>,
    pub battery_charge_mode: Option<BatteryMode>,
    pub super_battery: Option<bool>,
    pub fan_mode: Option<FanMode>,
    pub webcam: Option<bool>,
    pub webcam_block: Option<bool>,
    pub cooler_boost: Option<bool>,
    pub fn_key: Option<KeyDirection>,
    pub mic_mute_led: Option<bool>,
    pub mute_led: Option<bool>,
    pub cpu_fan_curve_wmi2: Option<Curve7>,
    pub cpu_temp_curve_wmi2: Option<Curve7>,
    pub cpu_hysteresis_curve_wmi2: Option<Curve6>,
    pub gpu_fan_curve_wmi2: Option<Curve7>,
    pub gpu_temp_curve_wmi2: Option<Curve7>,
    pub gpu_hysteresis_curve_wmi2: Option<Curve6>,
}

impl Profile {
    /// The input that holds every setting of the profile.
    pub open spec fn spec_input(self) -> ProfileInput {
        ProfileInput {
            shift_mode: Some(self.shift_mode),
            battery_charge_mode: Some(self.battery_charge_mode),
            super_battery: Some(self.super_battery),
            fan_mode: Some(self.fan_mode),
            webcam: Some(self.webcam),
            webcam_block: Some(self.webcam_block),
            cooler_boost: Some(self.cooler_boost),
            fn_key: Some(self.fn_key),
            mic_mute_led: Some(self.mic_mute_led),
            mute_led: Some(self.mute_led),
            cpu_fan_curve_wmi2: Some(self.cpu_fan_curve_wmi2),
            cpu_temp_curve_wmi2: Some(self.cpu_temp_curve_wmi2),
            cpu_hysteresis_curve_wmi2: Some(self.cpu_hysteresis_curve_wmi2),
            gpu_fan_curve_wmi2: Some(self.gpu_fan_curve_wmi2),
            gpu_temp_curve_wmi2: Some(self.gpu_temp_curve_wmi2),
            gpu_hysteresis_curve_wmi2: Some(self.gpu_hysteresis_curve_wmi2),
        }
    }

    pub fn input(&self) -> (r: ProfileInput)
        ensures
            r == self.spec_input(),
    {
        ProfileInput {
            shift_mode: Some(self.shift_mode),
            battery_charge_mode: Some(self.battery_charge_mode),
            super_battery: Some(self.super_battery),
            fan_mode: Some(self.fan_mode),
            webcam: Some(self.webcam),
            webcam_block: Some(self.webcam_block),
            cooler_boost: Some(self.cooler_boost),
            fn_key: Some(self.fn_key),
            mic_mute_led: Some(self.mic_mute_led),
            mute_led: Some(self.mute_led),
            cpu_fan_curve_wmi2: Some(self.cpu_fan_curve_wmi2),
            cpu_temp_curve_wmi2: Some(self.cpu_temp_curve_wmi2),
            cpu_hysteresis_curve_wmi2: Some(self.cpu_hysteresis_curve_wmi2),
            gpu_fan_curve_wmi2: Some(self.gpu_fan_curve_wmi2),
            gpu_temp_curve_wmi2: Some(self.gpu_temp_curve_wmi2),
            gpu_hysteresis_curve_wmi2: Some(self.gpu_hysteresis_curve_wmi2),
        }
    }
}

/// The calls of `call` that are not already held by `s`.
#[verifier::opaque]
pub open spec fn planned(s: ClientState, call: Option<Method<'static>>) -> Seq<Method<'static>> {
    match call {
        Some(c) => if s.holds(c) { Seq::empty() } else { seq![c] },
        None => Seq::empty(),
    }
}

/// The call that sets `shift_mode` to the input's value, if it has one.
pub open spec fn shift_mode_call(p: ProfileInput) -> Option<Method<'static>> {
    match p.shift_mode {
        Some(v) => Some(Method::SetShiftMode { mode: v }),
        None => None,
    }
}

/// The call that sets `battery_charge_mode` to the input's value, if it has one.
pub open spec fn battery_charge_mode_call(p: ProfileInput) -> Option<Method<'static>> {
    match p.battery_charge_mode {
        Some(v) => Some(Method::SetBatteryChargeMode { mode: v }),
        None => None,
    }
}

/// The call that sets `super_battery` to the input's value, if it has one.
pub open spec fn super_battery_call(p: ProfileInput) -> Option<Method<'static>> {
    match p.super_battery {
        Some(v) => Some(Method::SetSuperBattery { state: super_battery_of(v) }),
        None => None,
    }
}

/// The call that sets `fan_mode` to the input's value, if it has one.
pub open spec fn fan_mode_call(p: ProfileInput) -> Option<Method<'static>> {
    match p.fan_mode {
        Some(v) => Some(Method::SetFanMode { mode: v }),
        None => None,
    }
}

/// The call that sets `webcam` to the input's value, if it has one.
pub open spec fn webcam_call(p: ProfileInput) -> Option<Method<'static>> {
    match p.webcam {
        Some(v) => Some(Method::SetWebcam { state: webcam_of(v) }),
        None => None,
    }
}

/// The call that sets `webcam_block` to the input's value, if it has one.
pub open spec fn webcam_block_call(p: ProfileInput) -> Option<Method<'static>> {
    match p.webcam_block {
        Some(v) => Some(Method::SetWebcamBlock { state: webcam_of(v) }),
        None => None,
    }
}

/// The call that sets `cooler_boost` to the input's value, if it has one.
pub open spec fn cooler_boost_call(p: ProfileInput) -> Option<Method<'static>> {
    match p.cooler_boost {
        Some(v) => Some(Method::SetCoolerBoost { state: cooler_boost_of(v) }),
        None => None,
    }
}

/// The call that sets `fn_key` to the input's value, if it has one.
pub open spec fn fn_key_call(p: ProfileInput) -> Option<Method<'static>> {
    match p.fn_key {
        Some(v) => Some(Method::SetFnKey { state: v }),
        None => None,
    }
}

/// The call that sets `mic_mute_led` to the input's value, if it has one.
pub open spec fn mic_mute_led_call(p: ProfileInput) -> Option<Method<'static>> {
    match p.mic_mute_led {
        Some(v) => Some(Method::SetMicMuteLed { state: led_of(v) }),
        None => None,
    }
}

/// The call that sets `mute_led` to the input's value, if it has one.
pub open spec fn mute_led_call(p: ProfileInput) -> Option<Method<'static>> {
    match p.mute_led {
        Some(v) => Some(Method::SetMuteLed { state: led_of(v) }),
        None => None,
    }
}

/// The call that sets `cpu_fan_curve_wmi2` to the input's value, if it has one.
pub open spec fn cpu_fan_curve_wmi2_call(p: ProfileInput) -> Option<Method<'static>> {
    match p.cpu_fan_curve_wmi2 {
        Some(v) => Some(Method::SetCpuFanCurveWmi2 { curve: v }),
        None => None,
    }
}

/// The call that sets `cpu_temp_curve_wmi2` to the input's value, if it has one.
pub open spec fn cpu_temp_curve_wmi2_call(p: ProfileInput) -> Option<Method<'static>> {
    match p.cpu_temp_curve_wmi2 {
        Some(v) => Some(Method::SetCpuTempCurveWmi2 { curve: v }),
        None => None,
    }
}

/// The call that sets `cpu_hysteresis_curve_wmi2` to the input's value, if it has one.
pub open spec fn cpu_hysteresis_curve_wmi2_call(p: ProfileInput) -> Option<Method<'static>> {
    match p.cpu_hysteresis_curve_wmi2 {
        Some(v) => Some(Method::SetCpuHysteresisCurveWmi2 { curve: v }),
        None => None,
    }
}

/// The call that sets `gpu_fan_curve_wmi2` to the input's value, if it has one.
pub open spec fn gpu_fan_curve_wmi2_call(p: ProfileInput) -> Option<Method<'static>> {
    match p.gpu_fan_curve_wmi2 {
        Some(v) => Some(Method::SetGpuFanCurveWmi2 { curve: v }),
        None => None,
    }
}

/// The call that sets `gpu_temp_curve_wmi2` to the input's value, if it has one.
pub open spec fn gpu_temp_curve_wmi2_call(p: ProfileInput) -> Option<Method<'static>> {
    match p.gpu_temp_curve_wmi2 {
        Some(v) => Some(Method::SetGpuTempCurveWmi2 { curve: v }),
        None => None,
    }
}

/// The call that sets `gpu_hysteresis_curve_wmi2` to the input's value, if it has one.
pub open spec fn gpu_hysteresis_curve_wmi2_call(p: ProfileInput) -> Option<Method<'static>> {
    match p.gpu_hysteresis_curve_wmi2 {
        Some(v) => Some(Method::SetGpuHysteresisCurveWmi2 { curve: v }),
        None => None,
    }
}

impl ClientState {
    /// The profile of the state.
    pub open spec fn spec_profile(self) -> Profile {
        let s = self;
        Profile {
            shift_mode: s.shift_mode,
            battery_charge_mode: s.battery_charge_mode,
            super_battery: (s.super_battery is On),
            fan_mode: s.fan_mode,
            webcam: (s.webcam is On),
            webcam_block: (s.webcam_block is On),
            cooler_boost: (s.cooler_boost is On),
            fn_key: s.swap_key.fn_spec(),
            win_key: s.swap_key.win_spec(),
            mic_mute_led: (s.mic_mute_led is On),
            mute_led: (s.mute_led is On),
            cpu_fan_curve_wmi2: s.cpu_fan_curve_wmi2,
            cpu_temp_curve_wmi2: s.cpu_temp_curve_wmi2,
            cpu_hysteresis_curve_wmi2: s.cpu_hysteresis_curve_wmi2,
            gpu_fan_curve_wmi2: s.gpu_fan_curve_wmi2,
            gpu_temp_curve_wmi2: s.gpu_temp_curve_wmi2,
            gpu_hysteresis_curve_wmi2: s.gpu_hysteresis_curve_wmi2,
        }
    }

    /// Writes out the settings, and each listed method with its data, in
    /// list order.
    pub fn serialize(&self) -> (r: (Profile, Vec<(String, MethodData)>))
        ensures
            r.0 == self.spec_profile(),
            r.1@.len() == self.methods@.len(),
            forall|k: int|
                0 <= k < r.1@.len() ==> (#[trigger] r.1@[k]).0@ == self.methods@[k].method@ && same_data(
                    r.1@[k].1,
                    self.methods@[k].data,
                ),
    {
        let settings = Profile {
            shift_mode: self.shift_mode,
            battery_charge_mode: self.battery_charge_mode,
            super_battery: self.super_battery.enabled(),
            fan_mode: self.fan_mode,
            webcam: self.webcam.enabled(),
            webcam_block: self.webcam_block.enabled(),
            cooler_boost: self.cooler_boost.enabled(),
            fn_key: self.swap_key.get_fn(),
            win_key: self.swap_key.get_win(),
            mic_mute_led: self.mic_mute_led.enabled(),
            mute_led: self.mute_led.enabled(),
            cpu_fan_curve_wmi2: self.cpu_fan_curve_wmi2,
            cpu_temp_curve_wmi2: self.cpu_temp_curve_wmi2,
            cpu_hysteresis_curve_wmi2: self.cpu_hysteresis_curve_wmi2,
            gpu_fan_curve_wmi2: self.gpu_fan_curve_wmi2,
            gpu_temp_curve_wmi2: self.gpu_temp_curve_wmi2,
            gpu_hysteresis_curve_wmi2: self.gpu_hysteresis_curve_wmi2,
        };
        let mut methods: Vec<(String, MethodData)> = Vec::new();
        let mut k: usize = 0;
        while k < self.methods.len()
            invariant
                k <= self.methods@.len(),
                methods@.len() == k,
                forall|j: int|
                    0 <= j < k ==> (#[trigger] methods@[j]).0@ == self.methods@[j].method@ && same_data(
                        methods@[j].1,
                        self.methods@[j].data,
                    ),
            decreases self.methods@.len() - k,
        {
            let p = &self.methods[k];
            methods.push((p.method.clone(), copy_data(&p.data)));
            k = k + 1;
        }
        (settings, methods)
    }

    /// The calls that `apply` makes for the input `p`, in the order of the
    /// settings, leaving out those the state already holds.
    pub open spec fn spec_apply(self, p: ProfileInput) -> Seq<Method<'static>> {
        Seq::empty()
            + planned(self, shift_mode_call(p))
            + planned(self, battery_charge_mode_call(p))
            + planned(self, super_battery_call(p))
            + planned(self, fan_mode_call(p))
            + planned(self, webcam_call(p))
            + planned(self, webcam_block_call(p))
            + planned(self, cooler_boost_call(p))
            + planned(self, fn_key_call(p))
            + planned(self, mic_mute_led_call(p))
            + planned(self, mute_led_call(p))
            + planned(self, cpu_fan_curve_wmi2_call(p))
            + planned(self, cpu_temp_curve_wmi2_call(p))
            + planned(self, cpu_hysteresis_curve_wmi2_call(p))
            + planned(self, gpu_fan_curve_wmi2_call(p))
            + planned(self, gpu_temp_curve_wmi2_call(p))
            + planned(self, gpu_hysteresis_curve_wmi2_call(p))
    }

    fn push_planned(&self, calls: &mut Vec<Method<'static>>, call: Option<Method<'static>>)
        ensures
            final(calls)@ == old(calls)@ + planned(*self, call),
    {
        if let Some(c) = call {
            match self.plan(c) {
                Some(c) => calls.push(c),
                None => {},
            }
        }
        reveal(planned);
        assert(final(calls)@ =~= old(calls)@ + planned(*self, call));
    }

    /// The calls that bring the daemon to the settings of `p`.
    pub fn apply(&self, p: &ProfileInput) -> (r: Vec<Method<'static>>)
        ensures
            r@ == self.spec_apply(*p),
    {
        let mut calls: Vec<Method<'static>> = Vec::new();
        self.push_planned(&mut calls, call_shift_mode(p));
        self.push_planned(&mut calls, call_battery_charge_mode(p));
        self.push_planned(&mut calls, call_super_battery(p));
        self.push_planned(&mut calls, call_fan_mode(p));
        self.push_planned(&mut calls, call_webcam(p));
        self.push_planned(&mut calls, call_webcam_block(p));
        self.push_planned(&mut calls, call_cooler_boost(p));
        self.push_planned(&mut calls, call_fn_key(p));
        self.push_planned(&mut calls, call_mic_mute_led(p));
        self.push_planned(&mut calls, call_mute_led(p));
        self.push_planned(&mut calls, call_cpu_fan_curve_wmi2(p));
        self.push_planned(&mut calls, call_cpu_temp_curve_wmi2(p));
        self.push_planned(&mut calls, call_cpu_hysteresis_curve_wmi2(p));
        self.push_planned(&mut calls, call_gpu_fan_curve_wmi2(p));
        self.push_planned(&mut calls, call_gpu_temp_curve_wmi2(p));
        self.push_planned(&mut calls, call_gpu_hysteresis_curve_wmi2(p));
        calls
    }
}

fn call_shift_mode(p: &ProfileInput) -> (r: Option<Method<'static>>)
    ensures
        r == shift_mode_call(*p),
{
    match p.shift_mode {
        Some(v) => Some(Method::SetShiftMode { mode: v }),
        None => None,
    }
}

fn call_battery_charge_mode(p: &ProfileInput) -> (r: Option<Method<'static>>)
    ensures
        r == battery_charge_mode_call(*p),
{
    match p.battery_charge_mode {
        Some(v) => Some(Method::SetBatteryChargeMode { mode: v }),
        None => None,
    }
}

fn call_super_battery(p: &ProfileInput) -> (r: Option<Method<'static>>)
    ensures
        r == super_battery_call(*p),
{
    match p.super_battery {
        Some(v) => Some(Method::SetSuperBattery { state: if v { SuperBattery::On } else { SuperBattery::Off } }),
        None => None,
    }
}

fn call_fan_mode(p: &ProfileInput) -> (r: Option<Method<'static>>)
    ensures
        r == fan_mode_call(*p),
{
    match p.fan_mode {
        Some(v) => Some(Method::SetFanMode { mode: v }),
        None => None,
    }
}

fn call_webcam(p: &ProfileInput) -> (r: Option<Method<'static>>)
    ensures
        r == webcam_call(*p),
{
    match p.webcam {
        Some(v) => Some(Method::SetWebcam { state: if v { Webcam::On } else { Webcam::Off } }),
        None => None,
    }
}

fn call_webcam_block(p: &ProfileInput) -> (r: Option<Method<'static>>)
    ensures
        r == webcam_block_call(*p),
{
    match p.webcam_block {
        Some(v) => Some(Method::SetWebcamBlock { state: if v { Webcam::On } else { Webcam::Off } }),
        None => None,
    }
}

fn call_cooler_boost(p: &ProfileInput) -> (r: Option<Method<'static>>)
    ensures
        r == cooler_boost_call(*p),
{
    match p.cooler_boost {
        Some(v) => Some(Method::SetCoolerBoost { state: if v { CoolerBoost::On } else { CoolerBoost::Off } }),
        None => None,
    }
}

fn call_fn_key(p: &ProfileInput) -> (r: Option<Method<'static>>)
    ensures
        r == fn_key_call(*p),
{
    match p.fn_key {
        Some(v) => Some(Method::SetFnKey { state: v }),
        None => None,
    }
}

fn call_mic_mute_led(p: &ProfileInput) -> (r: Option<Method<'static>>)
    ensures
        r == mic_mute_led_call(*p),
{
    match p.mic_mute_led {
        Some(v) => Some(Method::SetMicMuteLed { state: if v { Led::On } else { Led::Off } }),
        None => None,
    }
}

fn call_mute_led(p: &ProfileInput) -> (r: Option<Method<'static>>)
    ensures
        r == mute_led_call(*p),
{
    match p.mute_led {
        Some(v) => Some(Method::SetMuteLed { state: if v { Led::On } else { Led::Off } }),
        None => None,
    }
}

fn call_cpu_fan_curve_wmi2(p: &ProfileInput) -> (r: Option<Method<'static>>)
    ensures
        r == cpu_fan_curve_wmi2_call(*p),
{
    match p.cpu_fan_curve_wmi2 {
        Some(v) => Some(Method::SetCpuFanCurveWmi2 { curve: v }),
        None => None,
    }
}

fn call_cpu_temp_curve_wmi2(p: &ProfileInput) -> (r: Option<Method<'static>>)
    ensures
        r == cpu_temp_curve_wmi2_call(*p),
{
    match p.cpu_temp_curve_wmi2 {
        Some(v) => Some(Method::SetCpuTempCurveWmi2 { curve: v }),
        None => None,
    }
}

fn call_cpu_hysteresis_curve_wmi2(p: &ProfileInput) -> (r: Option<Method<'static>>)
    ensures
        r == cpu_hysteresis_curve_wmi2_call(*p),
{
    match p.cpu_hysteresis_curve_wmi2 {
        Some(v) => Some(Method::SetCpuHysteresisCurveWmi2 { curve: v }),
        None => None,
    }
}

fn call_gpu_fan_curve_wmi2(p: &ProfileInput) -> (r: Option<Method<'static>>)
    ensures
        r == gpu_fan_curve_wmi2_call(*p),
{
    match p.gpu_fan_curve_wmi2 {
        Some(v) => Some(Method::SetGpuFanCurveWmi2 { curve: v }),
        None => None,
    }
}

fn call_gpu_temp_curve_wmi2(p: &ProfileInput) -> (r: Option<Method<'static>>)
    ensures
        r == gpu_temp_curve_wmi2_call(*p),
{
    match p.gpu_temp_curve_wmi2 {
        Some(v) => Some(Method::SetGpuTempCurveWmi2 { curve: v }),
        None => None,
    }
}

fn call_gpu_hysteresis_curve_wmi2(p: &ProfileInput) -> (r: Option<Method<'static>>)
    ensures
        r == gpu_hysteresis_curve_wmi2_call(*p),
{
    match p.gpu_hysteresis_curve_wmi2 {
        Some(v) => Some(Method::SetGpuHysteresisCurveWmi2 { curve: v }),
        None => None,
    }
}

/// Applying a state's own profile to it makes no call.
pub proof fn lemma_apply_own_profile(s: ClientState)
    ensures
        s.spec_apply(s.spec_profile().spec_input()) == Seq::<Method<'static>>::empty(),
{
    reveal(planned);
    assert(s.spec_apply(s.spec_profile().spec_input()) =~= Seq::<Method<'static>>::empty());
}

/// A written-out profile always has the keys on opposite sides.
pub proof fn lemma_profile_keys(s: ClientState)
    ensures
        s.spec_profile().win_key == crate::client::other_side(s.spec_profile().fn_key),
{
}

/// A call is among those `apply` makes exactly when one of the settings
/// plans it.
proof fn lemma_apply_contains(s: ClientState, p: ProfileInput, c: Method<'static>)
    ensures
        s.spec_apply(p).contains(c) <==> {
            ||| planned(s, shift_mode_call(p)).contains(c)
            ||| planned(s, battery_charge_mode_call(p)).contains(c)
            ||| planned(s, super_battery_call(p)).contains(c)
            ||| planned(s, fan_mode_call(p)).contains(c)
            ||| planned(s, webcam_call(p)).contains(c)
            ||| planned(s, webcam_block_call(p)).contains(c)
            ||| planned(s, cooler_boost_call(p)).contains(c)
            ||| planned(s, fn_key_call(p)).contains(c)
            ||| planned(s, mic_mute_led_call(p)).contains(c)
            ||| planned(s, mute_led_call(p)).contains(c)
            ||| planned(s, cpu_fan_curve_wmi2_call(p)).contains(c)
            ||| planned(s, cpu_temp_curve_wmi2_call(p)).contains(c)
            ||| planned(s, cpu_hysteresis_curve_wmi2_call(p)).contains(c)
            ||| planned(s, gpu_fan_curve_wmi2_call(p)).contains(c)
            ||| planned(s, gpu_temp_curve_wmi2_call(p)).contains(c)
            ||| planned(s, gpu_hysteresis_curve_wmi2_call(p)).contains(c)
        },
        forall|call: Option<Method<'static>>| #[trigger] planned(s, call).contains(c) <==> (call == Some(c) && !s.holds(c)),
{
    broadcast use vstd::seq_lib::lemma_seq_concat_contains_all_elements;
    broadcast use vstd::seq_lib::lemma_seq_empty_contains_nothing;
    broadcast use vstd::seq_lib::lemma_seq_contains_after_push;
    reveal(planned);
    assert forall|call: Option<Method<'static>>| #[trigger] planned(s, call).contains(c) <==> (call == Some(c) && !s.holds(c)) by {
        if let Some(d) = call {
            if !s.holds(d) {
                assert(planned(s, call) == seq![d]);
                assert(seq![d] == Seq::<Method<'static>>::empty().push(d));
            }
        }
    }
}

/// Applying the profile input `p` to `s` makes the call that sets
/// the shift mode to `m` exactly when `p` holds that setting and `s` does not
/// hold it already.
pub proof fn lemma_apply_shift_mode(s: ClientState, p: ProfileInput, m: ShiftMode)
    ensures
        s.spec_apply(p).contains(Method::SetShiftMode { mode: m }) <==> (p.shift_mode == Some(m) && s.shift_mode != m),
{
    lemma_apply_contains(s, p, Method::SetShiftMode { mode: m });
}

/// Applying the profile input `p` to `s` makes the call that sets
/// the battery charge mode to `m` exactly when `p` holds that setting and `s` does not
/// hold it already.
pub proof fn lemma_apply_battery_charge_mode(s: ClientState, p: ProfileInput, m: BatteryMode)
    ensures
        s.spec_apply(p).contains(Method::SetBatteryChargeMode { mode: m }) <==> (p.battery_charge_mode == Some(m) && s.battery_charge_mode != m),
{
    lemma_apply_contains(s, p, Method::SetBatteryChargeMode { mode: m });
}

/// Applying the profile input `p` to `s` makes the call that sets
/// super battery to `m` exactly when `p` holds that setting and `s` does not
/// hold it already.
pub proof fn lemma_apply_super_battery(s: ClientState, p: ProfileInput, m: SuperBattery)
    ensures
        s.spec_apply(p).contains(Method::SetSuperBattery { state: m }) <==> (p.super_battery == Some(m == SuperBattery::On) && s.super_battery != m),
{
    lemma_apply_contains(s, p, Method::SetSuperBattery { state: m });
}

/// Applying the profile input `p` to `s` makes the call that sets
/// the fan mode to `m` exactly when `p` holds that setting and `s` does not
/// hold it already.
pub proof fn lemma_apply_fan_mode(s: ClientState, p: ProfileInput, m: FanMode)
    ensures
        s.spec_apply(p).contains(Method::SetFanMode { mode: m }) <==> (p.fan_mode == Some(m) && s.fan_mode != m),
{
    lemma_apply_contains(s, p, Method::SetFanMode { mode: m });
}

/// Applying the profile input `p` to `s` makes the call that sets
/// the webcam to `m` exactly when `p` holds that setting and `s` does not
/// hold it already.
pub proof fn lemma_apply_webcam(s: ClientState, p: ProfileInput, m: Webcam)
    ensures
        s.spec_apply(p).contains(Method::SetWebcam { state: m }) <==> (p.webcam == Some(m == Webcam::On) && s.webcam != m),
{
    lemma_apply_contains(s, p, Method::SetWebcam { state: m });
}

/// Applying the profile input `p` to `s` makes the call that sets
/// the webcam block to `m` exactly when `p` holds that setting and `s` does not
/// hold it already.
pub proof fn lemma_apply_webcam_block(s: ClientState, p: ProfileInput, m: Webcam)
    ensures
        s.spec_apply(p).contains(Method::SetWebcamBlock { state: m }) <==> (p.webcam_block == Some(m == Webcam::On) && s.webcam_block != m),
{
    lemma_apply_contains(s, p, Method::SetWebcamBlock { state: m });
}

/// Applying the profile input `p` to `s` makes the call that sets
/// cooler boost to `m` exactly when `p` holds that setting and `s` does not
/// hold it already.
pub proof fn lemma_apply_cooler_boost(s: ClientState, p: ProfileInput, m: CoolerBoost)
    ensures
        s.spec_apply(p).contains(Method::SetCoolerBoost { state: m }) <==> (p.cooler_boost == Some(m == CoolerBoost::On) && s.cooler_boost != m),
{
    lemma_apply_contains(s, p, Method::SetCoolerBoost { state: m });
}

/// Applying the profile input `p` to `s` makes the call that sets
/// the fn key side to `m` exactly when `p` holds that setting and `s` does not
/// hold it already; the win key is never set on its own.
pub proof fn lemma_apply_fn_key(s: ClientState, p: ProfileInput, m: KeyDirection)
    ensures
        s.spec_apply(p).contains(Method::SetFnKey { state: m }) <==> (p.fn_key == Some(m) && s.swap_key.fn_key != m),
        !s.spec_apply(p).contains(Method::SetWinKey { state: m }),
{
    lemma_apply_contains(s, p, Method::SetFnKey { state: m });
    lemma_apply_contains(s, p, Method::SetWinKey { state: m });
}

/// Applying the profile input `p` to `s` makes the call that sets
/// the mic mute LED to `m` exactly when `p` holds that setting and `s` does not
/// hold it already.
pub proof fn lemma_apply_mic_mute_led(s: ClientState, p: ProfileInput, m: Led)
    ensures
        s.spec_apply(p).contains(Method::SetMicMuteLed { state: m }) <==> (p.mic_mute_led == Some(m == Led::On) && s.mic_mute_led != m),
{
    lemma_apply_contains(s, p, Method::SetMicMuteLed { state: m });
}

/// Applying the profile input `p` to `s` makes the call that sets
/// the mute LED to `m` exactly when `p` holds that setting and `s` does not
/// hold it already.
pub proof fn lemma_apply_mute_led(s: ClientState, p: ProfileInput, m: Led)
    ensures
        s.spec_apply(p).contains(Method::SetMuteLed { state: m }) <==> (p.mute_led == Some(m == Led::On) && s.mute_led != m),
{
    lemma_apply_contains(s, p, Method::SetMuteLed { state: m });
}

/// Applying the profile input `p` to `s` makes the call that sets
/// the CPU fan curve to `m` exactly when `p` holds that setting and `s` does not
/// hold it already.
pub proof fn lemma_apply_cpu_fan_curve_wmi2(s: ClientState, p: ProfileInput, m: Curve7)
    ensures
        s.spec_apply(p).contains(Method::SetCpuFanCurveWmi2 { curve: m }) <==> (p.cpu_fan_curve_wmi2 == Some(m) && s.cpu_fan_curve_wmi2 != m),
{
    lemma_apply_contains(s, p, Method::SetCpuFanCurveWmi2 { curve: m });
}

/// Applying the profile input `p` to `s` makes the call that sets
/// the CPU temperature curve to `m` exactly when `p` holds that setting and `s` does not
/// hold it already.
pub proof fn lemma_apply_cpu_temp_curve_wmi2(s: ClientState, p: ProfileInput, m: Curve7)
    ensures
        s.spec_apply(p).contains(Method::SetCpuTempCurveWmi2 { curve: m }) <==> (p.cpu_temp_curve_wmi2 == Some(m) && s.cpu_temp_curve_wmi2 != m),
{
    lemma_apply_contains(s, p, Method::SetCpuTempCurveWmi2 { curve: m });
}

/// Applying the profile input `p` to `s` makes the call that sets
/// the CPU hysteresis curve to `m` exactly when `p` holds that setting and `s` does not
/// hold it already.
pub proof fn lemma_apply_cpu_hysteresis_curve_wmi2(s: ClientState, p: ProfileInput, m: Curve6)
    ensures
        s.spec_apply(p).contains(Method::SetCpuHysteresisCurveWmi2 { curve: m }) <==> (p.cpu_hysteresis_curve_wmi2 == Some(m) && s.cpu_hysteresis_curve_wmi2 != m),
{
    lemma_apply_contains(s, p, Method::SetCpuHysteresisCurveWmi2 { curve: m });
}

/// Applying the profile input `p` to `s` makes the call that sets
/// the GPU fan curve to `m` exactly when `p` holds that setting and `s` does not
/// hold it already.
pub proof fn lemma_apply_gpu_fan_curve_wmi2(s: ClientState, p: ProfileInput, m: Curve7)
    ensures
        s.spec_apply(p).contains(Method::SetGpuFanCurveWmi2 { curve: m }) <==> (p.gpu_fan_curve_wmi2 == Some(m) && s.gpu_fan_curve_wmi2 != m),
{
    lemma_apply_contains(s, p, Method::SetGpuFanCurveWmi2 { curve: m });
}

/// Applying the profile input `p` to `s` makes the call that sets
/// the GPU temperature curve to `m` exactly when `p` holds that setting and `s` does not
/// hold it already.
pub proof fn lemma_apply_gpu_temp_curve_wmi2(s: ClientState, p: ProfileInput, m: Curve7)
    ensures
        s.spec_apply(p).contains(Method::SetGpuTempCurveWmi2 { curve: m }) <==> (p.gpu_temp_curve_wmi2 == Some(m) && s.gpu_temp_curve_wmi2 != m),
{
    lemma_apply_contains(s, p, Method::SetGpuTempCurveWmi2 { curve: m });
}

/// Applying the profile input `p` to `s` makes the call that sets
/// the GPU hysteresis curve to `m` exactly when `p` holds that setting and `s` does not
/// hold it already.
pub proof fn lemma_apply_gpu_hysteresis_curve_wmi2(s: ClientState, p: ProfileInput, m: Curve6)
    ensures
        s.spec_apply(p).contains(Method::SetGpuHysteresisCurveWmi2 { curve: m }) <==> (p.gpu_hysteresis_curve_wmi2 == Some(m) && s.gpu_hysteresis_curve_wmi2 != m),
{
    lemma_apply_contains(s, p, Method::SetGpuHysteresisCurveWmi2 { curve: m });
}

} // verus!
