//! Reading the client's state, the calls its settings make, and which
//! operations a model method is driven with.

use vstd::prelude::*;

use super::{ClientError, ClientState, IoKind, MethodPayload, Prop, SwapKey};
use crate::dump::{pretty, pretty_dump};
use crate::fw::{
    BatteryMode, CoolerBoost, Curve6, Curve7, FanMode, KeyDirection, Led, ShiftMode, SuperBattery,
    Webcam, WmiVer,
};
use crate::ipc::{Bin, Method};
use crate::models::{Fans, Method as ModelMethod, MethodOp};

verus! {

/// 256 registers holding zero.
pub open spec fn zero_registers() -> Seq<u8> {
    Seq::new(256, |i: int| 0u8)
}

impl Default for ClientState {
    fn default() -> (r: ClientState)
        ensures
            !r.connected,
            r.fan_count == Fans::One,
            r.fan_max == 0,
            !r.has_dgpu,
            r.wmi_ver == WmiVer::Wmi1,
            r.fw_version@ == Seq::<char>::empty(),
            r.fw_date@ == Seq::<char>::empty(),
            r.fw_time@ == Seq::<char>::empty(),
            r.shift_modes@ == Seq::<ShiftMode>::empty(),
            r.shift_mode == ShiftMode::Null,
            !r.shift_mode_supported,
            r.battery_charge_mode == BatteryMode::Mobility,
            !r.battery_charge_mode_supported,
            r.super_battery == SuperBattery::Off,
            !r.super_battery_supported,
            r.fan1_rpm == 0 && r.fan2_rpm == 0 && r.fan3_rpm == 0 && r.fan4_rpm == 0,
            r.fan1_supported && !r.fan2_supported && !r.fan3_supported && !r.fan4_supported,
            r.fan_modes@ == Seq::<FanMode>::empty(),
            r.fan_mode == FanMode::Null,
            !r.fan_mode_supported,
            r.webcam == Webcam::On,
            r.webcam_block == Webcam::Off,
            !r.webcam_supported && !r.webcam_block_supported,
            r.cooler_boost == CoolerBoost::Off,
            !r.cooler_boost_supported,
            r.swap_key == SwapKey::from_fn_spec(KeyDirection::Left),
            !r.fn_win_swap_supported,
            r.mic_mute_led == Led::Off && r.mute_led == Led::Off,
            !r.mic_mute_led_supported && !r.mute_led_supported,
            r.cpu_rt_fan_speed == 0 && r.cpu_rt_temp == 0 && r.gpu_rt_fan_speed == 0 && r.gpu_rt_temp == 0,
            r.cpu_fan_curve_wmi2 == (Curve7 { n1: 0, n2: 0, n3: 0, n4: 0, n5: 0, n6: 0, n7: 0 }),
            r.cpu_temp_curve_wmi2 == (Curve7 { n1: 0, n2: 0, n3: 0, n4: 0, n5: 0, n6: 0, n7: 0 }),
            r.cpu_hysteresis_curve_wmi2 == (Curve6 { n1: 0, n2: 0, n3: 0, n4: 0, n5: 0, n6: 0 }),
            r.gpu_fan_curve_wmi2 == (Curve7 { n1: 0, n2: 0, n3: 0, n4: 0, n5: 0, n6: 0, n7: 0 }),
            r.gpu_temp_curve_wmi2 == (Curve7 { n1: 0, n2: 0, n3: 0, n4: 0, n5: 0, n6: 0, n7: 0 }),
            r.gpu_hysteresis_curve_wmi2 == (Curve6 { n1: 0, n2: 0, n3: 0, n4: 0, n5: 0, n6: 0 }),
            r.methods@ == Seq::<MethodPayload>::empty(),
            r.ec_dump.0@ == zero_registers(),
            r.ec_dump_pretty@ == pretty(zero_registers()),
    {
        let zeros = [0u8; 256];
        assert(zeros@ =~= zero_registers());
        ClientState {
            connected: false,
            fan_count: Fans::One,
            fan_max: 0,
            has_dgpu: false,
            wmi_ver: WmiVer::Wmi1,
            fw_version: String::new(),
            fw_date: String::new(),
            fw_time: String::new(),
            shift_modes: Vec::new(),
            shift_mode: ShiftMode::Null,
            shift_mode_supported: false,
            battery_charge_mode: BatteryMode::Mobility,
            battery_charge_mode_supported: false,
            super_battery: SuperBattery::Off,
            super_battery_supported: false,
            fan1_rpm: 0,
            fan2_rpm: 0,
            fan3_rpm: 0,
            fan4_rpm: 0,
            fan1_supported: true,
            fan2_supported: false,
            fan3_supported: false,
            fan4_supported: false,
            fan_modes: Vec::new(),
            fan_mode: FanMode::Null,
            fan_mode_supported: false,
            webcam: Webcam::On,
            webcam_block: Webcam::Off,
            webcam_supported: false,
            webcam_block_supported: false,
            cooler_boost: CoolerBoost::Off,
            cooler_boost_supported: false,
            swap_key: SwapKey::from_fn(KeyDirection::Left),
            fn_win_swap_supported: false,
            mic_mute_led: Led::Off,
            mute_led: Led::Off,
            mic_mute_led_supported: false,
            mute_led_supported: false,
            cpu_rt_fan_speed: 0,
            cpu_rt_temp: 0,
            gpu_rt_fan_speed: 0,
            gpu_rt_temp: 0,
            cpu_fan_curve_wmi2: Curve7::default(),
            cpu_temp_curve_wmi2: Curve7::default(),
            cpu_hysteresis_curve_wmi2: Curve6::default(),
            gpu_fan_curve_wmi2: Curve7::default(),
            gpu_temp_curve_wmi2: Curve7::default(),
            gpu_hysteresis_curve_wmi2: Curve6::default(),
            methods: Vec::new(),
            ec_dump: Box::new(Bin::default()),
            ec_dump_pretty: pretty_dump(&zeros),
        }
    }
}

/// The WMI version as its number.
pub open spec fn wmi_number(v: WmiVer) -> u8 {
    match v {
        WmiVer::Wmi1 => 1,
        WmiVer::Wmi2 => 2,
    }
}

pub open spec fn super_battery_of(on: bool) -> SuperBattery {
    if on { SuperBattery::On } else { SuperBattery::Off }
}

pub open spec fn webcam_of(on: bool) -> Webcam {
    if on { Webcam::On } else { Webcam::Off }
}

pub open spec fn cooler_boost_of(on: bool) -> CoolerBoost {
    if on { CoolerBoost::On } else { CoolerBoost::Off }
}

pub open spec fn led_of(on: bool) -> Led {
    if on { Led::On } else { Led::Off }
}

impl ClientState {
    /// Whether a call may go out: not while disconnected, when it fails with
    /// a not-connected socket error, reported unless the call is a ping.
    pub fn refusal(&self, method: &Method<'static>) -> (r: Option<(ClientError, bool)>)
        ensures
            self.connected ==> r is None,
            !self.connected ==> (r matches Some((ClientError::Io { kind, msg }, report)) && kind == IoKind::NotConnected
                && msg@ == "not connected"@ && report == !(*method is Ping)),
    {
        if self.connected {
            None
        } else {
            let report = match method {
                Method::Ping => false,
                _ => true,
            };
            Some((ClientError::Io { kind: IoKind::NotConnected, msg: "not connected".to_owned() }, report))
        }
    }

    /// Takes in a failed call: a socket failure or a closed socket ends the
    /// connection, which is reported as changed; an answered error or an
    /// unreadable reply leaves the state alone.
    pub fn on_call_error(&mut self, e: &ClientError) -> (changed: Vec<Prop>)
        ensures
            e.spec_disconnects() ==> !final(self).connected && (ClientState { connected: false, ..*old(self) })
                == *final(self) && changed@ == seq![Prop::Connected],
            !e.spec_disconnects() ==> *final(self) == *old(self) && changed@ == Seq::<Prop>::empty(),
    {
        if e.disconnects() {
            self.connected = false;
            let r = vec![Prop::Connected];
            r
        } else {
            Vec::new()
        }
    }

    /// The WMI version, as 1 or 2.
    pub fn wmi_ver(&self) -> (r: u8)
        ensures
            r == wmi_number(self.wmi_ver),
    {
        match self.wmi_ver {
            WmiVer::Wmi1 => 1,
            WmiVer::Wmi2 => 2,
        }
    }

    /// How many fans there are.
    pub fn fan_count(&self) -> (r: u8)
        ensures
            r == self.fan_count.spec_count(),
    {
        self.fan_count.count()
    }

    pub fn get_wmi_ver(&self) -> (r: u8)
        ensures
            r == wmi_number(self.wmi_ver),
    {
        self.wmi_ver()
    }

    pub fn get_fan_count(&self) -> (r: u8)
        ensures
            r == self.fan_count.spec_count(),
    {
        self.fan_count()
    }

    /// The side of the fn key.
    pub fn get_fn_key(&self) -> (r: KeyDirection)
        ensures
            r == self.swap_key.fn_spec(),
    {
        self.swap_key.get_fn()
    }

    /// The side of the win key.
    pub fn get_win_key(&self) -> (r: KeyDirection)
        ensures
            r == self.swap_key.win_spec(),
    {
        self.swap_key.get_win()
    }

    pub fn get_has_dgpu(&self) -> (r: bool)
        ensures
            r == self.has_dgpu,
    {
        self.has_dgpu
    }

    pub fn get_shift_mode_supported(&self) -> (r: bool)
        ensures
            r == self.shift_mode_supported,
    {
        self.shift_mode_supported
    }

    pub fn get_battery_charge_mode_supported(&self) -> (r: bool)
        ensures
            r == self.battery_charge_mode_supported,
    {
        self.battery_charge_mode_supported
    }

    pub fn get_super_battery_supported(&self) -> (r: bool)
        ensures
            r == self.super_battery_supported,
    {
        self.super_battery_supported
    }

    pub fn get_fan1_supported(&self) -> (r: bool)
        ensures
            r == self.fan1_supported,
    {
        self.fan1_supported
    }

    pub fn get_fan2_supported(&self) -> (r: bool)
        ensures
            r == self.fan2_supported,
    {
        self.fan2_supported
    }

    pub fn get_fan3_supported(&self) -> (r: bool)
        ensures
            r == self.fan3_supported,
    {
        self.fan3_supported
    }

    pub fn get_fan4_supported(&self) -> (r: bool)
        ensures
            r == self.fan4_supported,
    {
        self.fan4_supported
    }

    pub fn get_fan_mode_supported(&self) -> (r: bool)
        ensures
            r == self.fan_mode_supported,
    {
        self.fan_mode_supported
    }

    pub fn get_webcam_supported(&self) -> (r: bool)
        ensures
            r == self.webcam_supported,
    {
        self.webcam_supported
    }

    pub fn get_webcam_block_supported(&self) -> (r: bool)
        ensures
            r == self.webcam_block_supported,
    {
        self.webcam_block_supported
    }

    pub fn get_cooler_boost_supported(&self) -> (r: bool)
        ensures
            r == self.cooler_boost_supported,
    {
        self.cooler_boost_supported
    }

    pub fn get_fn_win_swap_supported(&self) -> (r: bool)
        ensures
            r == self.fn_win_swap_supported,
    {
        self.fn_win_swap_supported
    }

    pub fn get_mic_mute_led_supported(&self) -> (r: bool)
        ensures
            r == self.mic_mute_led_supported,
    {
        self.mic_mute_led_supported
    }

    pub fn get_mute_led_supported(&self) -> (r: bool)
        ensures
            r == self.mute_led_supported,
    {
        self.mute_led_supported
    }

    pub fn get_fan_max(&self) -> (r: u8)
        ensures
            r == self.fan_max,
    {
        self.fan_max
    }

    pub fn get_cpu_rt_fan_speed(&self) -> (r: u8)
        ensures
            r == self.cpu_rt_fan_speed,
    {
        self.cpu_rt_fan_speed
    }

    pub fn get_cpu_rt_temp(&self) -> (r: u8)
        ensures
            r == self.cpu_rt_temp,
    {
        self.cpu_rt_temp
    }

    pub fn get_gpu_rt_fan_speed(&self) -> (r: u8)
        ensures
            r == self.gpu_rt_fan_speed,
    {
        self.gpu_rt_fan_speed
    }

    pub fn get_gpu_rt_temp(&self) -> (r: u8)
        ensures
            r == self.gpu_rt_temp,
    {
        self.gpu_rt_temp
    }

    pub fn get_fan1_rpm(&self) -> (r: u16)
        ensures
            r == self.fan1_rpm,
    {
        self.fan1_rpm
    }

    pub fn get_fan2_rpm(&self) -> (r: u16)
        ensures
            r == self.fan2_rpm,
    {
        self.fan2_rpm
    }

    pub fn get_fan3_rpm(&self) -> (r: u16)
        ensures
            r == self.fan3_rpm,
    {
        self.fan3_rpm
    }

    pub fn get_fan4_rpm(&self) -> (r: u16)
        ensures
            r == self.fan4_rpm,
    {
        self.fan4_rpm
    }

    /// Whether it is on.
    pub fn super_battery(&self) -> (r: bool)
        ensures
            r == (self.super_battery is On),
    {
        self.super_battery.enabled()
    }

    pub fn get_super_battery(&self) -> (r: bool)
        ensures
            r == (self.super_battery is On),
    {
        self.super_battery()
    }

    /// Whether it is on.
    pub fn webcam(&self) -> (r: bool)
        ensures
            r == (self.webcam is On),
    {
        self.webcam.enabled()
    }

    pub fn get_webcam(&self) -> (r: bool)
        ensures
            r == (self.webcam is On),
    {
        self.webcam()
    }

    /// Whether it is on.
    pub fn webcam_block(&self) -> (r: bool)
        ensures
            r == (self.webcam_block is On),
    {
        self.webcam_block.enabled()
    }

    pub fn get_webcam_block(&self) -> (r: bool)
        ensures
            r == (self.webcam_block is On),
    {
        self.webcam_block()
    }

    /// Whether it is on.
    pub fn cooler_boost(&self) -> (r: bool)
        ensures
            r == (self.cooler_boost is On),
    {
        self.cooler_boost.enabled()
    }

    pub fn get_cooler_boost(&self) -> (r: bool)
        ensures
            r == (self.cooler_boost is On),
    {
        self.cooler_boost()
    }

    /// Whether it is on.
    pub fn mic_mute_led(&self) -> (r: bool)
        ensures
            r == (self.mic_mute_led is On),
    {
        self.mic_mute_led.enabled()
    }

    pub fn get_mic_mute_led(&self) -> (r: bool)
        ensures
            r == (self.mic_mute_led is On),
    {
        self.mic_mute_led()
    }

    /// Whether it is on.
    pub fn mute_led(&self) -> (r: bool)
        ensures
            r == (self.mute_led is On),
    {
        self.mute_led.enabled()
    }

    pub fn get_mute_led(&self) -> (r: bool)
        ensures
            r == (self.mute_led is On),
    {
        self.mute_led()
    }

    /// The call that turns it on or off, unless it already is.
    pub fn set_super_battery(&self, on: bool) -> (r: Option<Method<'static>>)
        ensures
            self.holds(Method::SetSuperBattery { state: super_battery_of(on) }) ==> r is None,
            !self.holds(Method::SetSuperBattery { state: super_battery_of(on) }) ==> r == Some(Method::SetSuperBattery { state: super_battery_of(on) }),
    {
        let state = if on { SuperBattery::On } else { SuperBattery::Off };
        self.plan(Method::SetSuperBattery { state })
    }

    /// The call that turns it on or off, unless it already is.
    pub fn set_webcam(&self, on: bool) -> (r: Option<Method<'static>>)
        ensures
            self.holds(Method::SetWebcam { state: webcam_of(on) }) ==> r is None,
            !self.holds(Method::SetWebcam { state: webcam_of(on) }) ==> r == Some(Method::SetWebcam { state: webcam_of(on) }),
    {
        let state = if on { Webcam::On } else { Webcam::Off };
        self.plan(Method::SetWebcam { state })
    }

    /// The call that turns it on or off, unless it already is.
    pub fn set_webcam_block(&self, on: bool) -> (r: Option<Method<'static>>)
        ensures
            self.holds(Method::SetWebcamBlock { state: webcam_of(on) }) ==> r is None,
            !self.holds(Method::SetWebcamBlock { state: webcam_of(on) }) ==> r == Some(Method::SetWebcamBlock { state: webcam_of(on) }),
    {
        let state = if on { Webcam::On } else { Webcam::Off };
        self.plan(Method::SetWebcamBlock { state })
    }

    /// The call that turns it on or off, unless it already is.
    pub fn set_cooler_boost(&self, on: bool) -> (r: Option<Method<'static>>)
        ensures
            self.holds(Method::SetCoolerBoost { state: cooler_boost_of(on) }) ==> r is None,
            !self.holds(Method::SetCoolerBoost { state: cooler_boost_of(on) }) ==> r == Some(Method::SetCoolerBoost { state: cooler_boost_of(on) }),
    {
        let state = if on { CoolerBoost::On } else { CoolerBoost::Off };
        self.plan(Method::SetCoolerBoost { state })
    }

    /// The call that turns it on or off, unless it already is.
    pub fn set_mic_mute_led(&self, on: bool) -> (r: Option<Method<'static>>)
        ensures
            self.holds(Method::SetMicMuteLed { state: led_of(on) }) ==> r is None,
            !self.holds(Method::SetMicMuteLed { state: led_of(on) }) ==> r == Some(Method::SetMicMuteLed { state: led_of(on) }),
    {
        let state = if on { Led::On } else { Led::Off };
        self.plan(Method::SetMicMuteLed { state })
    }

    /// The call that turns it on or off, unless it already is.
    pub fn set_mute_led(&self, on: bool) -> (r: Option<Method<'static>>)
        ensures
            self.holds(Method::SetMuteLed { state: led_of(on) }) ==> r is None,
            !self.holds(Method::SetMuteLed { state: led_of(on) }) ==> r == Some(Method::SetMuteLed { state: led_of(on) }),
    {
        let state = if on { Led::On } else { Led::Off };
        self.plan(Method::SetMuteLed { state })
    }

}

/// Whether `ops` has `op`.
pub open spec fn has_op(ops: Seq<MethodOp>, op: MethodOp) -> bool {
    ops.contains(op)
}

/// The read and write flags that the method list looks at: those of the
/// first pair (byte, bit, range) the method offers both ways, else those of
/// the range pair.
pub open spec fn pair_flags(ops: Seq<MethodOp>) -> (bool, bool) {
    if has_op(ops, MethodOp::Read) && has_op(ops, MethodOp::Write) {
        (true, true)
    } else if has_op(ops, MethodOp::ReadBit) && has_op(ops, MethodOp::WriteBit) {
        (true, true)
    } else {
        (has_op(ops, MethodOp::ReadRange), has_op(ops, MethodOp::WriteRange))
    }
}

/// The first operation of `ops` that reads (`read`) or writes.
pub open spec fn first_op(ops: Seq<MethodOp>, read: bool) -> Option<MethodOp>
    decreases ops.len(),
{
    if ops.len() == 0 {
        None
    } else if (read && ops[0].spec_is_read()) || (!read && ops[0].spec_is_write()) {
        Some(ops[0])
    } else {
        first_op(ops.subrange(1, ops.len() as int), read)
    }
}

/// The operations of a model method.
pub open spec fn ops_of(m: ModelMethod) -> Seq<MethodOp> {
    m.ty@.map_values(|t: crate::models::MethodTy| t.spec_op())
}

/// Whether the method list keeps a method with operations `ops`.
pub open spec fn kept(ops: Seq<MethodOp>) -> bool {
    pair_flags(ops).0 || pair_flags(ops).1
}

fn contains_op(ops: &Vec<MethodOp>, op: MethodOp) -> (r: bool)
    ensures
        r == has_op(ops@, op),
{
    let mut i: usize = 0;
    while i < ops.len()
        invariant
            i <= ops@.len(),
            forall|j: int| 0 <= j < i ==> ops@[j] != op,
        decreases ops@.len() - i,
    {
        if ops[i] == op {
            assert(ops@[i as int] == op);
            return true;
        }
        i = i + 1;
    }
    false
}

fn find_op(ops: &Vec<MethodOp>, read: bool) -> (r: Option<MethodOp>)
    ensures
        r == first_op(ops@, read),
{
    let mut i: usize = 0;
    assert(ops@.subrange(0, ops@.len() as int) =~= ops@);
    while i < ops.len()
        invariant
            i <= ops@.len(),
            first_op(ops@, read) == first_op(ops@.subrange(i as int, ops@.len() as int), read),
        decreases ops@.len() - i,
    {
        let ghost rest = ops@.subrange(i as int, ops@.len() as int);
        assert(rest.subrange(1, rest.len() as int) =~= ops@.subrange(i + 1, ops@.len() as int));
        let op = ops[i];
        if (read && op.is_read()) || (!read && op.is_write()) {
            return Some(op);
        }
        i = i + 1;
    }
    None
}

/// The operations `m` is read and written with in the client's method
/// list, or `None` where the list leaves it out.
pub fn method_ops(m: &ModelMethod) -> (r: Option<(MethodOp, MethodOp)>)
    requires
        kept(ops_of(*m)) ==> first_op(ops_of(*m), true) is Some && first_op(ops_of(*m), false) is Some,
    ensures
        !kept(ops_of(*m)) ==> r is None,
        kept(ops_of(*m)) ==> r == Some((first_op(ops_of(*m), true).unwrap(), first_op(ops_of(*m), false).unwrap())),
{
    let mut ops: Vec<MethodOp> = Vec::new();
    let mut i: usize = 0;
    while i < m.ty.len()
        invariant
            i <= m.ty@.len(),
            ops@ == m.ty@.subrange(0, i as int).map_values(|t: crate::models::MethodTy| t.spec_op()),
        decreases m.ty@.len() - i,
    {
        ops.push(m.ty[i].op());
        i = i + 1;
        assert(ops@ =~= m.ty@.subrange(0, i as int).map_values(|t: crate::models::MethodTy| t.spec_op()));
    }
    assert(m.ty@.subrange(0, m.ty@.len() as int) =~= m.ty@);
    let (has_read, has_write) = if contains_op(&ops, MethodOp::Read) && contains_op(&ops, MethodOp::Write) {
        (true, true)
    } else if contains_op(&ops, MethodOp::ReadBit) && contains_op(&ops, MethodOp::WriteBit) {
        (true, true)
    } else {
        (contains_op(&ops, MethodOp::ReadRange), contains_op(&ops, MethodOp::WriteRange))
    };
    if !has_read && !has_write {
        return None;
    }
    let read_op = match find_op(&ops, true) {
        Some(op) => op,
        None => return None,
    };
    let write_op = match find_op(&ops, false) {
        Some(op) => op,
        None => return None,
    };
    Some((read_op, write_op))
}

} // verus!
