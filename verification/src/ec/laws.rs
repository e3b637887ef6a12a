//! Laws of the register layouts: what a setting writes, the matching getter
//! reads back, and a write leaves every other register alone.

use vstd::prelude::*;

use super::regs::{
    battery_mode_in, cooler_boost_in, curve6_in, curve7_in, fan_mode_in, fn_key_in,
    mic_mute_led_in, mute_led_in, set_battery_mode_in, set_cooler_boost_in, set_curve_in,
    set_fan_mode_in, set_fn_key_in, set_mic_mute_led_in, set_mute_led_in, set_shift_mode_in,
    set_super_battery_in, set_webcam_block_in, set_webcam_in, set_win_key_in, shift_mode_in,
    super_battery_in, webcam_block_in, webcam_in, win_key_in,
};
use super::{distinct_values, fault, mode_of_value, value_of_mode, Ec, EcError, Fault};
use super::regs::{byte_in, fan_addr, method_data_in, method_write_in, Write};
use super::MethodData;
use crate::models::MethodTy;
use crate::fw::Addr;
use crate::models::Fans;
use crate::ec_sys::{write_block, EC_SIZE};
use crate::fw::{
    lemma_battery_mode_thresholds, lemma_curve_bytes_roundtrip, lemma_set_bit_state, Bit,
    BatteryMode, CoolerBoost, Curve, Curve6, Curve7, FanMode, FwConfig, KeyDirection, Led,
    ShiftMode, SuperBattery, Threshold, Webcam,
};

verus! {

/// In a table whose values are distinct, the value of a mode leads back to
/// that mode.
pub proof fn lemma_mode_value_roundtrip<M>(table: Seq<(M, u8)>, mode: M)
    requires
        distinct_values(table),
        value_of_mode(table, mode) is Some,
    ensures
        mode_of_value(table, value_of_mode(table, mode).unwrap()) == Some(mode),
    decreases table.len(),
{
    let v = value_of_mode(table, mode).unwrap();
    let rest = table.subrange(1, table.len() as int);
    if table[0].0 != mode {
        assert(distinct_values(rest)) by {
            assert forall|i: int, j: int| 0 <= i < j < rest.len() implies rest[i].1 != rest[j].1 by {
                assert(rest[i] == table[i + 1] && rest[j] == table[j + 1]);
            }
        }
        lemma_mode_value_roundtrip(rest, mode);
        lemma_value_in_table(rest, mode);
        let k = choose|k: int| 0 <= k < rest.len() && rest[k].1 == v;
        assert(table[k + 1] == rest[k]);
        assert(table[0].1 != v);
    }
}

/// The value of a mode is the value of some entry of the table.
proof fn lemma_value_in_table<M>(table: Seq<(M, u8)>, mode: M)
    requires
        value_of_mode(table, mode) is Some,
    ensures
        exists|k: int| 0 <= k < table.len() && table[k].1 == value_of_mode(table, mode).unwrap(),
    decreases table.len(),
{
    if table[0].0 != mode {
        let rest = table.subrange(1, table.len() as int);
        lemma_value_in_table(rest, mode);
        let k = choose|k: int| 0 <= k < rest.len() && rest[k].1 == value_of_mode(rest, mode).unwrap();
        assert(table[k + 1] == rest[k]);
    } else {
        assert(table[0].1 == value_of_mode(table, mode).unwrap());
    }
}

/// A write changes the registers it covers and no other.
pub proof fn lemma_write_frame(mem: Seq<u8>, a: int, d: Seq<u8>, k: int)
    requires
        0 <= k < mem.len(),
    ensures
        write_block(mem, a, d).len() == mem.len(),
        a <= k < a + d.len() ==> write_block(mem, a, d)[k] == d[k - a],
        !(a <= k < a + d.len()) ==> write_block(mem, a, d)[k] == mem[k],
{
}

/// Setting a shift mode, on a layout whose table has distinct values, reads
/// back as that mode.
pub proof fn lemma_shift_mode_roundtrip(fw: FwConfig, mem: Seq<u8>, mode: ShiftMode)
    requires
        mem.len() == EC_SIZE,
        distinct_values(fw.shift_mode.modes@),
        set_shift_mode_in(fw, mode) is Ok,
    ensures
        set_shift_mode_in(fw, mode) matches Ok((a, d)) && shift_mode_in(fw, write_block(mem, a as int, d))
            == Ok::<ShiftMode, EcError>(mode),
{
    lemma_mode_value_roundtrip(fw.shift_mode.modes@, mode);
}

/// Setting a fan mode, on a layout whose table has distinct values, reads
/// back as that mode.
pub proof fn lemma_fan_mode_roundtrip(fw: FwConfig, mem: Seq<u8>, mode: FanMode)
    requires
        mem.len() == EC_SIZE,
        distinct_values(fw.fan_mode.modes@),
        set_fan_mode_in(fw, mode) is Ok,
    ensures
        set_fan_mode_in(fw, mode) matches Ok((a, d)) && fan_mode_in(fw, write_block(mem, a as int, d))
            == Ok::<FanMode, EcError>(mode),
{
    lemma_mode_value_roundtrip(fw.fan_mode.modes@, mode);
}

/// Setting a charge mode reads back as that mode, except a custom end
/// threshold of 60, 80 or 100, which reads back as the named mode with that
/// threshold.
pub proof fn lemma_battery_mode_roundtrip(fw: FwConfig, mem: Seq<u8>, mode: BatteryMode)
    requires
        mem.len() == EC_SIZE,
        mode.wf(),
        mode is Custom ==> mode->0.value() != 60 && mode->0.value() != 80 && mode->0.value() != 100,
        set_battery_mode_in(fw, mode) is Ok,
    ensures
        set_battery_mode_in(fw, mode) matches Ok((a, d)) && battery_mode_in(fw, write_block(mem, a as int, d))
            == Ok::<BatteryMode, EcError>(mode),
{
    lemma_battery_mode_thresholds(mode);
}

/// Setting super battery reads back as the setting, on a layout whose mask
/// has a bit set.
pub proof fn lemma_super_battery_roundtrip(fw: FwConfig, mem: Seq<u8>, kind: SuperBattery)
    requires
        mem.len() == EC_SIZE,
        fw.super_battery.mask != 0,
        set_super_battery_in(fw, mem, kind) is Ok,
    ensures
        set_super_battery_in(fw, mem, kind) matches Ok((a, d)) && super_battery_in(fw, write_block(mem, a as int, d))
            == Ok::<SuperBattery, EcError>(kind),
{
    let m = fw.super_battery.mask;
    let (a, d) = set_super_battery_in(fw, mem, kind).unwrap();
    let x = mem[a as int];
    assert((x | m) & m == m) by (bit_vector);
    assert(m != 0 ==> (x & !m) & m != m) by (bit_vector);
}

/// Setting the webcam reads back as the setting.
pub proof fn lemma_webcam_roundtrip(fw: FwConfig, mem: Seq<u8>, state: Webcam)
    requires
        mem.len() == EC_SIZE,
        set_webcam_in(fw, mem, state) is Ok,
    ensures
        set_webcam_in(fw, mem, state) matches Ok((a, d)) && webcam_in(fw, write_block(mem, a as int, d))
            == Ok::<Webcam, EcError>(state),
{
    let (a, d) = set_webcam_in(fw, mem, state).unwrap();
    lemma_set_bit_state(mem[a as int], fw.webcam.bit, fw.webcam.bit, state is On);
}

/// Setting the webcam block reads back as the setting.
pub proof fn lemma_webcam_block_roundtrip(fw: FwConfig, mem: Seq<u8>, state: Webcam)
    requires
        mem.len() == EC_SIZE,
        set_webcam_block_in(fw, mem, state) is Ok,
    ensures
        set_webcam_block_in(fw, mem, state) matches Ok((a, d)) && webcam_block_in(fw, write_block(mem, a as int, d))
            == Ok::<Webcam, EcError>(state),
{
    let (a, d) = set_webcam_block_in(fw, mem, state).unwrap();
    lemma_set_bit_state(mem[a as int], fw.webcam.bit, fw.webcam.bit, !(state is On));
}

/// Setting cooler boost reads back as the setting.
pub proof fn lemma_cooler_boost_roundtrip(fw: FwConfig, mem: Seq<u8>, state: CoolerBoost)
    requires
        mem.len() == EC_SIZE,
        set_cooler_boost_in(fw, mem, state) is Ok,
    ensures
        set_cooler_boost_in(fw, mem, state) matches Ok((a, d)) && cooler_boost_in(fw, write_block(mem, a as int, d))
            == Ok::<CoolerBoost, EcError>(state),
{
    let (a, d) = set_cooler_boost_in(fw, mem, state).unwrap();
    lemma_set_bit_state(mem[a as int], fw.cooler_boost.bit, fw.cooler_boost.bit, state is On);
}

/// The other side of a key direction.
pub open spec fn opposite(dir: KeyDirection) -> KeyDirection {
    match dir {
        KeyDirection::Left => KeyDirection::Right,
        KeyDirection::Right => KeyDirection::Left,
    }
}

/// Putting the fn key on a side reads back as that side, with the win key on
/// the other.
pub proof fn lemma_fn_key_roundtrip(fw: FwConfig, mem: Seq<u8>, dir: KeyDirection)
    requires
        mem.len() == EC_SIZE,
        set_fn_key_in(fw, mem, dir) is Ok,
    ensures
        set_fn_key_in(fw, mem, dir) matches Ok((a, d)) && fn_key_in(fw, write_block(mem, a as int, d))
            == Ok::<KeyDirection, EcError>(dir) && win_key_in(fw, write_block(mem, a as int, d))
            == Ok::<KeyDirection, EcError>(opposite(dir)),
{
    let (a, d) = set_fn_key_in(fw, mem, dir).unwrap();
    lemma_set_bit_state(mem[a as int], fw.fn_win_swap.bit, fw.fn_win_swap.bit, !((dir is Left) ^ fw.fn_win_swap.invert));
}

/// Putting the win key on a side reads back as that side, with the fn key on
/// the other.
pub proof fn lemma_win_key_roundtrip(fw: FwConfig, mem: Seq<u8>, dir: KeyDirection)
    requires
        mem.len() == EC_SIZE,
        set_win_key_in(fw, mem, dir) is Ok,
    ensures
        set_win_key_in(fw, mem, dir) matches Ok((a, d)) && win_key_in(fw, write_block(mem, a as int, d))
            == Ok::<KeyDirection, EcError>(dir) && fn_key_in(fw, write_block(mem, a as int, d))
            == Ok::<KeyDirection, EcError>(opposite(dir)),
{
    let (a, d) = set_win_key_in(fw, mem, dir).unwrap();
    lemma_set_bit_state(mem[a as int], fw.fn_win_swap.bit, fw.fn_win_swap.bit, (dir is Left) ^ fw.fn_win_swap.invert);
}

/// The fn key and the win key are always on opposite sides.
pub proof fn lemma_keys_opposite(fw: FwConfig, mem: Seq<u8>)
    requires
        fn_key_in(fw, mem) is Ok,
    ensures
        win_key_in(fw, mem) matches Ok(w) && fn_key_in(fw, mem) == Ok::<KeyDirection, EcError>(opposite(w)),
{
}

/// Setting the mic mute LED reads back as the setting.
pub proof fn lemma_mic_mute_led_roundtrip(fw: FwConfig, mem: Seq<u8>, state: Led)
    requires
        mem.len() == EC_SIZE,
        set_mic_mute_led_in(fw, mem, state) is Ok,
    ensures
        set_mic_mute_led_in(fw, mem, state) matches Ok((a, d)) && mic_mute_led_in(fw, write_block(mem, a as int, d))
            == Ok::<Led, EcError>(state),
{
    let (a, d) = set_mic_mute_led_in(fw, mem, state).unwrap();
    lemma_set_bit_state(mem[a as int], fw.leds.bit, fw.leds.bit, state is On);
}

/// Setting the mute LED reads back as the setting.
pub proof fn lemma_mute_led_roundtrip(fw: FwConfig, mem: Seq<u8>, state: Led)
    requires
        mem.len() == EC_SIZE,
        set_mute_led_in(fw, mem, state) is Ok,
    ensures
        set_mute_led_in(fw, mem, state) matches Ok((a, d)) && mute_led_in(fw, write_block(mem, a as int, d))
            == Ok::<Led, EcError>(state),
{
    let (a, d) = set_mute_led_in(fw, mem, state).unwrap();
    lemma_set_bit_state(mem[a as int], fw.leds.bit, fw.leds.bit, state is On);
}

/// Storing a seven-point curve reads back as that curve.
pub proof fn lemma_curve7_roundtrip(fw: FwConfig, mem: Seq<u8>, curve: Curve, name: &'static str, c: Curve7)
    requires
        mem.len() == EC_SIZE,
        set_curve_in(fw, curve, name, c.spec_bytes()) is Ok,
    ensures
        set_curve_in(fw, curve, name, c.spec_bytes()) matches Ok((a, d)) && curve7_in(
            fw,
            write_block(mem, a as int, d),
            curve,
            name,
        ) == Ok::<Curve7, EcError>(c),
{
    let (a, d) = set_curve_in(fw, curve, name, c.spec_bytes()).unwrap();
    let m2 = write_block(mem, a as int, d);
    assert(m2.subrange(a as int, a + 7) =~= d);
    lemma_curve_bytes_roundtrip(Curve6::spec_from_bytes(seq![0u8, 0, 0, 0, 0, 0]), c, seq![0u8, 0, 0, 0, 0, 0], d);
}

/// Storing a six-point curve reads back as that curve.
pub proof fn lemma_curve6_roundtrip(fw: FwConfig, mem: Seq<u8>, curve: Curve, name: &'static str, c: Curve6)
    requires
        mem.len() == EC_SIZE,
        set_curve_in(fw, curve, name, c.spec_bytes()) is Ok,
    ensures
        set_curve_in(fw, curve, name, c.spec_bytes()) matches Ok((a, d)) && curve6_in(
            fw,
            write_block(mem, a as int, d),
            curve,
            name,
        ) == Ok::<Curve6, EcError>(c),
{
    let (a, d) = set_curve_in(fw, curve, name, c.spec_bytes()).unwrap();
    let m2 = write_block(mem, a as int, d);
    assert(m2.subrange(a as int, a + 6) =~= d);
    lemma_curve_bytes_roundtrip(c, Curve7::spec_from_bytes(seq![0u8, 0, 0, 0, 0, 0, 0]), d, seq![0u8, 0, 0, 0, 0, 0, 0]);
}

/// A setting reported as done made the write it chose on the registers it
/// was given, under the same layout.
pub proof fn lemma_wrote_ok(
    before: Ec,
    after: Ec,
    pre: Option<EcError>,
    name: &'static str,
    w: spec_fn(FwConfig, Seq<u8>) -> Result<Write, EcError>,
)
    requires
        before.wrote(after, Ok(()), pre, name, w),
    ensures
        pre is None,
        after.model == before.model,
        before.sys matches Some((io, fw)) && w(fw, io.mem()) matches Ok((a, d)) && after.sys matches Some(
            (io2, fw2),
        ) && fw2 == fw && io2.mem() == write_block(io.mem(), a as int, d) && io.mem().len() == EC_SIZE,
{
    if let Some((io, fw)) = before.sys {
        io.lemma_mem_len();
    }
}

/// After `set_shift_mode(mode)` succeeds, on a layout whose table has
/// distinct values, `shift_mode()` gives `mode`.
pub proof fn lemma_ec_shift_mode(before: Ec, after: Ec, mode: ShiftMode)
    requires
        before.wrote(
            after,
            Ok(()),
            if mode is Null { Some(fault(Fault::NullShiftMode)) } else { None },
            "set_shift_mode",
            |fw: FwConfig, mem: Seq<u8>| set_shift_mode_in(fw, mode),
        ),
        before.sys matches Some((_, fw)) ==> distinct_values(fw.shift_mode.modes@),
    ensures
        after.read(None, "shift_mode", |fw: FwConfig, mem: Seq<u8>| shift_mode_in(fw, mem))
            == Ok::<ShiftMode, EcError>(mode),
{
    lemma_wrote_ok(
        before,
        after,
        if mode is Null { Some(fault(Fault::NullShiftMode)) } else { None },
        "set_shift_mode",
        |fw: FwConfig, mem: Seq<u8>| set_shift_mode_in(fw, mode),
    );
    let (io, fw) = before.sys.unwrap();
    lemma_shift_mode_roundtrip(fw, io.mem(), mode);
}

/// After `set_fan_mode(mode)` succeeds, on a layout whose table has distinct
/// values, `fan_mode()` gives `mode`.
pub proof fn lemma_ec_fan_mode(before: Ec, after: Ec, mode: FanMode)
    requires
        before.wrote(
            after,
            Ok(()),
            if mode is Null { Some(fault(Fault::NullFanMode)) } else { None },
            "set_fan_mode",
            |fw: FwConfig, mem: Seq<u8>| set_fan_mode_in(fw, mode),
        ),
        before.sys matches Some((_, fw)) ==> distinct_values(fw.fan_mode.modes@),
    ensures
        after.read(None, "fan_mode", |fw: FwConfig, mem: Seq<u8>| fan_mode_in(fw, mem))
            == Ok::<FanMode, EcError>(mode),
{
    lemma_wrote_ok(
        before,
        after,
        if mode is Null { Some(fault(Fault::NullFanMode)) } else { None },
        "set_fan_mode",
        |fw: FwConfig, mem: Seq<u8>| set_fan_mode_in(fw, mode),
    );
    let (io, fw) = before.sys.unwrap();
    lemma_fan_mode_roundtrip(fw, io.mem(), mode);
}

/// After `set_battery_mode(mode)` succeeds, `battery_mode()` gives `mode`,
/// except a custom end threshold of 60, 80 or 100, which reads back as the
/// named mode with that threshold.
pub proof fn lemma_ec_battery_mode(before: Ec, after: Ec, mode: BatteryMode)
    requires
        before.wrote(after, Ok(()), None, "set_battery_mode", |fw: FwConfig, mem: Seq<u8>| set_battery_mode_in(fw, mode)),
        mode.wf(),
        mode is Custom ==> mode->0.value() != 60 && mode->0.value() != 80 && mode->0.value() != 100,
    ensures
        after.read(None, "battery_mode", |fw: FwConfig, mem: Seq<u8>| battery_mode_in(fw, mem))
            == Ok::<BatteryMode, EcError>(mode),
{
    lemma_wrote_ok(before, after, None, "set_battery_mode", |fw: FwConfig, mem: Seq<u8>| set_battery_mode_in(fw, mode));
    let (io, fw) = before.sys.unwrap();
    lemma_battery_mode_roundtrip(fw, io.mem(), mode);
}

/// After `set_super_battery(kind)` succeeds, on a layout whose mask has a bit
/// set, `super_battery()` gives `kind`.
pub proof fn lemma_ec_super_battery(before: Ec, after: Ec, kind: SuperBattery)
    requires
        before.wrote(after, Ok(()), None, "set_super_battery", |fw: FwConfig, mem: Seq<u8>| set_super_battery_in(fw, mem, kind)),
        before.sys matches Some((_, fw)) ==> fw.super_battery.mask != 0,
    ensures
        after.read(None, "super_battery", |fw: FwConfig, mem: Seq<u8>| super_battery_in(fw, mem))
            == Ok::<SuperBattery, EcError>(kind),
{
    lemma_wrote_ok(before, after, None, "set_super_battery", |fw: FwConfig, mem: Seq<u8>| set_super_battery_in(fw, mem, kind));
    let (io, fw) = before.sys.unwrap();
    lemma_super_battery_roundtrip(fw, io.mem(), kind);
}

/// After `set_webcam(state)` succeeds, `webcam()` gives `state`.
pub proof fn lemma_ec_webcam(before: Ec, after: Ec, state: Webcam)
    requires
        before.wrote(after, Ok(()), None, "set_webcam", |fw: FwConfig, mem: Seq<u8>| set_webcam_in(fw, mem, state)),
    ensures
        after.read(None, "webcam", |fw: FwConfig, mem: Seq<u8>| webcam_in(fw, mem)) == Ok::<Webcam, EcError>(state),
{
    lemma_wrote_ok(before, after, None, "set_webcam", |fw: FwConfig, mem: Seq<u8>| set_webcam_in(fw, mem, state));
    let (io, fw) = before.sys.unwrap();
    lemma_webcam_roundtrip(fw, io.mem(), state);
}

/// After `set_webcam_block(state)` succeeds, `webcam_block()` gives `state`.
pub proof fn lemma_ec_webcam_block(before: Ec, after: Ec, state: Webcam)
    requires
        before.wrote(after, Ok(()), None, "set_webcam_block", |fw: FwConfig, mem: Seq<u8>| set_webcam_block_in(fw, mem, state)),
    ensures
        after.read(None, "webcam_block", |fw: FwConfig, mem: Seq<u8>| webcam_block_in(fw, mem))
            == Ok::<Webcam, EcError>(state),
{
    lemma_wrote_ok(before, after, None, "set_webcam_block", |fw: FwConfig, mem: Seq<u8>| set_webcam_block_in(fw, mem, state));
    let (io, fw) = before.sys.unwrap();
    lemma_webcam_block_roundtrip(fw, io.mem(), state);
}

/// After `set_cooler_boost(state)` succeeds, `cooler_boost()` gives `state`.
pub proof fn lemma_ec_cooler_boost(before: Ec, after: Ec, state: CoolerBoost)
    requires
        before.wrote(after, Ok(()), None, "set_cooler_boost", |fw: FwConfig, mem: Seq<u8>| set_cooler_boost_in(fw, mem, state)),
    ensures
        after.read(None, "cooler_boost", |fw: FwConfig, mem: Seq<u8>| cooler_boost_in(fw, mem))
            == Ok::<CoolerBoost, EcError>(state),
{
    lemma_wrote_ok(before, after, None, "set_cooler_boost", |fw: FwConfig, mem: Seq<u8>| set_cooler_boost_in(fw, mem, state));
    let (io, fw) = before.sys.unwrap();
    lemma_cooler_boost_roundtrip(fw, io.mem(), state);
}

/// After `set_fn_key(dir)` succeeds, `fn_key()` gives `dir` and `win_key()`
/// the other side.
pub proof fn lemma_ec_fn_key(before: Ec, after: Ec, dir: KeyDirection)
    requires
        before.wrote(after, Ok(()), None, "set_fn_key", |fw: FwConfig, mem: Seq<u8>| set_fn_key_in(fw, mem, dir)),
    ensures
        after.read(None, "fn_key", |fw: FwConfig, mem: Seq<u8>| fn_key_in(fw, mem)) == Ok::<KeyDirection, EcError>(dir),
        after.read(None, "win_key", |fw: FwConfig, mem: Seq<u8>| win_key_in(fw, mem))
            == Ok::<KeyDirection, EcError>(opposite(dir)),
{
    lemma_wrote_ok(before, after, None, "set_fn_key", |fw: FwConfig, mem: Seq<u8>| set_fn_key_in(fw, mem, dir));
    let (io, fw) = before.sys.unwrap();
    lemma_fn_key_roundtrip(fw, io.mem(), dir);
}

/// After `set_win_key(dir)` succeeds, `win_key()` gives `dir` and `fn_key()`
/// the other side.
pub proof fn lemma_ec_win_key(before: Ec, after: Ec, dir: KeyDirection)
    requires
        before.wrote(after, Ok(()), None, "set_win_key", |fw: FwConfig, mem: Seq<u8>| set_win_key_in(fw, mem, dir)),
    ensures
        after.read(None, "win_key", |fw: FwConfig, mem: Seq<u8>| win_key_in(fw, mem)) == Ok::<KeyDirection, EcError>(dir),
        after.read(None, "fn_key", |fw: FwConfig, mem: Seq<u8>| fn_key_in(fw, mem))
            == Ok::<KeyDirection, EcError>(opposite(dir)),
{
    lemma_wrote_ok(before, after, None, "set_win_key", |fw: FwConfig, mem: Seq<u8>| set_win_key_in(fw, mem, dir));
    let (io, fw) = before.sys.unwrap();
    lemma_win_key_roundtrip(fw, io.mem(), dir);
}

/// After `set_mic_mute_led(state)` succeeds, `mic_mute_led()` gives `state`.
pub proof fn lemma_ec_mic_mute_led(before: Ec, after: Ec, state: Led)
    requires
        before.wrote(after, Ok(()), None, "set_mic_mute_led", |fw: FwConfig, mem: Seq<u8>| set_mic_mute_led_in(fw, mem, state)),
    ensures
        after.read(None, "mic_mute_led", |fw: FwConfig, mem: Seq<u8>| mic_mute_led_in(fw, mem)) == Ok::<Led, EcError>(state),
{
    lemma_wrote_ok(before, after, None, "set_mic_mute_led", |fw: FwConfig, mem: Seq<u8>| set_mic_mute_led_in(fw, mem, state));
    let (io, fw) = before.sys.unwrap();
    lemma_mic_mute_led_roundtrip(fw, io.mem(), state);
}

/// After `set_mute_led(state)` succeeds, `mute_led()` gives `state`.
pub proof fn lemma_ec_mute_led(before: Ec, after: Ec, state: Led)
    requires
        before.wrote(after, Ok(()), None, "set_mute_led", |fw: FwConfig, mem: Seq<u8>| set_mute_led_in(fw, mem, state)),
    ensures
        after.read(None, "mute_led", |fw: FwConfig, mem: Seq<u8>| mute_led_in(fw, mem)) == Ok::<Led, EcError>(state),
{
    lemma_wrote_ok(before, after, None, "set_mute_led", |fw: FwConfig, mem: Seq<u8>| set_mute_led_in(fw, mem, state));
    let (io, fw) = before.sys.unwrap();
    lemma_mute_led_roundtrip(fw, io.mem(), state);
}

/// After `set_cpu_fan_curve(c)` succeeds, `cpu_fan_curve()` gives `c`.
pub proof fn lemma_ec_cpu_fan_curve(before: Ec, after: Ec, c: Curve7)
    requires
        before.wrote(after, Ok(()), None, "cpu_fan_curve", |cfg: FwConfig, mem: Seq<u8>| set_curve_in(cfg, cfg.cpu_fan_curve, "cpu_fan_curve", c.spec_bytes())),
    ensures
        after.read(None, "cpu_fan_curve", |fw: FwConfig, mem: Seq<u8>| curve7_in(fw, mem, fw.cpu_fan_curve, "cpu_fan_curve"))
            == Ok::<Curve7, EcError>(c),
{
    lemma_wrote_ok(before, after, None, "cpu_fan_curve", |cfg: FwConfig, mem: Seq<u8>| set_curve_in(cfg, cfg.cpu_fan_curve, "cpu_fan_curve", c.spec_bytes()));
    let (io, fw) = before.sys.unwrap();
    lemma_curve7_roundtrip(fw, io.mem(), fw.cpu_fan_curve, "cpu_fan_curve", c);
}

/// The firmware layout of the GP/GE series has distinct mode values and a
/// super battery mask with bits set, so the laws above hold on it in full.
pub proof fn lemma_g2_10_layout(cfg: FwConfig)
    requires
        crate::fw::g2_10::is_g2_10(cfg),
    ensures
        distinct_values(cfg.shift_mode.modes@),
        distinct_values(cfg.fan_mode.modes@),
        cfg.super_battery.mask != 0,
{
}


/// A raw value `raw` above zero stands for 480000 / `raw` kept to its low
/// 16 bits; from 8 on nothing is cut and the speed is the exact quotient.
proof fn lemma_rpm_quotient(raw: int, r: u16)
    requires
        0 < raw < 65536,
        r == (480000int / raw) as u16,
    ensures
        r as int == (480000int / raw) % 65536,
        r != 0,
        raw >= 8 ==> r * raw <= 480000 < (r + 1) * raw,
{
    let q = 480000int / raw;
    if raw >= 8 {
        assert(q * raw <= 480000 < (q + 1) * raw && 7 <= q <= 60000) by (nonlinear_arith)
            requires
                8 <= raw < 65536,
                q == 480000int / raw,
        ;
        vstd::arithmetic::div_mod::lemma_small_mod(q as nat, 65536);
    } else if raw == 1 {
        assert(480000u32 as u16 == 21248u16) by (bit_vector);
        assert(480000int / 1 == 480000);
    } else if raw == 2 {
        assert(240000u32 as u16 == 43392u16) by (bit_vector);
        assert(480000int / 2 == 240000);
    } else if raw == 3 {
        assert(160000u32 as u16 == 28928u16) by (bit_vector);
        assert(480000int / 3 == 160000);
    } else if raw == 4 {
        assert(120000u32 as u16 == 54464u16) by (bit_vector);
        assert(480000int / 4 == 120000);
    } else if raw == 5 {
        assert(96000u32 as u16 == 30464u16) by (bit_vector);
        assert(480000int / 5 == 96000);
    } else if raw == 6 {
        assert(80000u32 as u16 == 14464u16) by (bit_vector);
        assert(480000int / 6 == 80000);
    } else {
        assert(68571u32 as u16 == 3035u16) by (bit_vector);
        assert(480000int / 7 == 68571);
    }
}

/// A fan's speed is read from its two registers as a big-endian raw value
/// `hi * 256 + lo`: a raw value of 0 (a stopped fan) reads 0, and any other
/// raw value reads 480000 / raw kept to 16 bits, never 0; from a raw value
/// of 8 on, that is the exact quotient.
pub proof fn lemma_ec_fan_rpm(ec: Ec, fan: Fans, hi: u8, lo: u8)
    requires
        ec.spec_fan_supported(fan),
        ec.sys matches Some((io, fw)) && fan_addr(fw, fan) < 0xFF && io.mem()[fan_addr(fw, fan) as int] == hi
            && io.mem()[fan_addr(fw, fan) + 1] == lo,
    ensures
        ec.spec_fan_rpm(fan) matches Ok(r) && (r == 0 <==> (hi == 0 && lo == 0)) && (hi * 256 + lo > 0 ==> r as int
            == (480000int / (hi * 256 + lo)) % 65536) && (hi * 256 + lo >= 8 ==> r * (hi * 256 + lo) <= 480000 < (r + 1) * (
        hi * 256 + lo)),
{
    let raw: int = hi * 256 + lo;
    let r = ec.spec_fan_rpm(fan)->Ok_0;
    assert(ec.spec_fan_rpm(fan) is Ok);
    if raw > 0 {
        lemma_rpm_quotient(raw, r);
    }
}


/// Where the G2_10 layout keeps each setting. The webcam is on while bit 1
/// of 0x2E is set, and the webcam block reads off while bit 1 of 0x2F is
/// set and on while it is clear; cooler boost is on
/// with bit 7 of 0x98; the fn key is on the left while bit 4 of 0xE8 is set,
/// the win key then on the right; the mic mute and mute LEDs are bit 1 of
/// 0x2C and 0x2D; super battery is on while the low four bits of 0xEB are
/// all set; the charge mode is register 0xD7, its end threshold with bit 7
/// set, any value outside 0x8A..=0xE4 being an error; the shift mode is
/// 0xD2 and the fan mode 0xD4, read through their value tables; the
/// real-time temperatures and fan speeds of CPU and GPU are the bytes at
/// 0x68, 0x71, 0x80 and 0x89; fans 1 to 4 are read from 0xC8, 0xCA, 0xCC
/// and 0xCE.
pub proof fn lemma_g2_10_reads(cfg: FwConfig, mem: Seq<u8>)
    requires
        crate::fw::g2_10::is_g2_10(cfg),
        mem.len() == 256,
    ensures
        webcam_in(cfg, mem) == Ok::<Webcam, EcError>(
            if mem[0x2E] & 0x02 != 0 { Webcam::On } else { Webcam::Off },
        ),
        webcam_block_in(cfg, mem) == Ok::<Webcam, EcError>(
            if mem[0x2F] & 0x02 != 0 { Webcam::Off } else { Webcam::On },
        ),
        cooler_boost_in(cfg, mem) == Ok::<CoolerBoost, EcError>(
            if mem[0x98] & 0x80 != 0 { CoolerBoost::On } else { CoolerBoost::Off },
        ),
        fn_key_in(cfg, mem) == Ok::<KeyDirection, EcError>(
            if mem[0xE8] & 0x10 != 0 { KeyDirection::Left } else { KeyDirection::Right },
        ),
        win_key_in(cfg, mem) == Ok::<KeyDirection, EcError>(
            if mem[0xE8] & 0x10 != 0 { KeyDirection::Right } else { KeyDirection::Left },
        ),
        mic_mute_led_in(cfg, mem) == Ok::<Led, EcError>(
            if mem[0x2C] & 0x02 != 0 { Led::On } else { Led::Off },
        ),
        mute_led_in(cfg, mem) == Ok::<Led, EcError>(
            if mem[0x2D] & 0x02 != 0 { Led::On } else { Led::Off },
        ),
        super_battery_in(cfg, mem) == Ok::<SuperBattery, EcError>(
            if mem[0xEB] & 0x0F == 0x0F { SuperBattery::On } else { SuperBattery::Off },
        ),
        battery_mode_in(cfg, mem) is Ok <==> 0x8A <= mem[0xD7] <= 0xE4,
        battery_mode_in(cfg, mem) matches Ok(m) ==> m.spec_end() + 0x80 == mem[0xD7],
        shift_mode_in(cfg, mem) == (if mem[0xD2] == 0xC2 {
            Ok::<ShiftMode, EcError>(ShiftMode::SuperBattery)
        } else if mem[0xD2] == 0xC1 {
            Ok(ShiftMode::Balanced)
        } else if mem[0xD2] == 0xC0 {
            Ok(ShiftMode::ExtremePerformance)
        } else if mem[0xD2] == 0xC4 {
            Ok(ShiftMode::Turbo)
        } else if mem[0xD2] == 0x00 {
            Ok(ShiftMode::Null)
        } else {
            Err(fault(Fault::InvalidShiftMode { val: mem[0xD2] }))
        }),
        fan_mode_in(cfg, mem) == (if mem[0xD4] == 0x0D {
            Ok::<FanMode, EcError>(FanMode::Auto)
        } else if mem[0xD4] == 0x1D {
            Ok(FanMode::Silent)
        } else if mem[0xD4] == 0x8D {
            Ok(FanMode::Advanced)
        } else if mem[0xD4] == 0x00 {
            Ok(FanMode::Null)
        } else {
            Err(fault(Fault::InvalidFanMode { val: mem[0xD4] }))
        }),
        byte_in(mem, cfg.cpu.rt_temp_addr, "cpu_rt_temp") == Ok::<u8, EcError>(mem[0x68]),
        byte_in(mem, cfg.cpu.rt_fan_speed_addr, "cpu_rt_fan_speed") == Ok::<u8, EcError>(mem[0x71]),
        byte_in(mem, cfg.gpu.rt_temp_addr, "gpu_rt_temp") == Ok::<u8, EcError>(mem[0x80]),
        byte_in(mem, cfg.gpu.rt_fan_speed_addr, "gpu_rt_fan_speed") == Ok::<u8, EcError>(mem[0x89]),
        fan_addr(cfg, Fans::One) == 0xC8,
        fan_addr(cfg, Fans::Two) == 0xCA,
        fan_addr(cfg, Fans::Three) == 0xCC,
        fan_addr(cfg, Fans::Four) == 0xCE,
{
    broadcast use Threshold::lemma_value;
    reveal_with_fuel(mode_of_value, 6);
    let st = cfg.shift_mode.modes@;
    assert(st.subrange(1, 5) =~= seq![
        (ShiftMode::Balanced, 0xC1u8),
        (ShiftMode::ExtremePerformance, 0xC0u8),
        (ShiftMode::Turbo, 0xC4u8),
        (ShiftMode::Null, 0x00u8),
    ]);
    assert(st.subrange(1, 5).subrange(1, 4) =~= seq![
        (ShiftMode::ExtremePerformance, 0xC0u8),
        (ShiftMode::Turbo, 0xC4u8),
        (ShiftMode::Null, 0x00u8),
    ]);
    assert(st.subrange(1, 5).subrange(1, 4).subrange(1, 3) =~= seq![
        (ShiftMode::Turbo, 0xC4u8),
        (ShiftMode::Null, 0x00u8),
    ]);
    assert(st.subrange(1, 5).subrange(1, 4).subrange(1, 3).subrange(1, 2) =~= seq![(ShiftMode::Null, 0x00u8)]);
    assert(st.subrange(1, 5).subrange(1, 4).subrange(1, 3).subrange(1, 2).subrange(1, 1) =~= Seq::<(ShiftMode, u8)>::empty());
    let ft = cfg.fan_mode.modes@;
    assert(ft.subrange(1, 4) =~= seq![
        (FanMode::Silent, 0x1Du8),
        (FanMode::Advanced, 0x8Du8),
        (FanMode::Null, 0x00u8),
    ]);
    assert(ft.subrange(1, 4).subrange(1, 3) =~= seq![(FanMode::Advanced, 0x8Du8), (FanMode::Null, 0x00u8)]);
    assert(ft.subrange(1, 4).subrange(1, 3).subrange(1, 2) =~= seq![(FanMode::Null, 0x00u8)]);
    assert(ft.subrange(1, 4).subrange(1, 3).subrange(1, 2).subrange(1, 1) =~= Seq::<(FanMode, u8)>::empty());
}


/// A model method reads back what it wrote: a bit written through
/// `WriteBit` reads back through `ReadBit` with the same bit and inversion,
/// a byte written through `Write` reads back through `Read`, and a span
/// written through `WriteRange` reads back through `ReadRange` over the same
/// registers.
pub proof fn lemma_method_roundtrip(mem: Seq<u8>, addr: Addr, bit: Bit, invert: bool, d: MethodData)
    requires
        mem.len() == 256,
    ensures
        method_write_in(mem, addr, MethodTy::WriteBit { bit, invert }, d) matches Some((a, w))
            ==> method_data_in(write_block(mem, a as int, w), addr, MethodTy::ReadBit { bit, invert }, d),
        method_write_in(mem, addr, MethodTy::Write, d) matches Some((a, w))
            ==> method_data_in(write_block(mem, a as int, w), addr, MethodTy::Read, d),
        method_write_in(mem, addr, MethodTy::WriteRange, d) matches Some((a, w))
            ==> method_data_in(write_block(mem, a as int, w), addr, MethodTy::ReadRange, d),
{
    match (addr, d) {
        (Addr::Single(a), MethodData::Bit(b)) => {
            lemma_set_bit_state(mem[a as int], bit, bit, b != invert);
            lemma_write_frame(mem, a as int, seq![crate::fw::spec_set_bit_state(mem[a as int], bit, b != invert)], a as int);
        },
        (Addr::Single(a), MethodData::Byte(v)) => {
            lemma_write_frame(mem, a as int, seq![v], a as int);
        },
        (Addr::Range(st, e), MethodData::Range(v)) => {
            if v@.len() == e - st + 1 {
                let after = write_block(mem, st as int, v@);
                assert(after.subrange(st as int, e + 1) =~= v@);
            }
        },
        _ => {},
    }
}

} // verus!
