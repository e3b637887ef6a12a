use ecchan::client::writes::{curve6_from_ui, curve7_from_ui, UiValue, WritePlan};
use ecchan::client::MethodPayload;
use ecchan::client::methods::PendingRead;
use ecchan::ec::MethodData;
use ecchan::names::{
    battery_mode_name, fan_mode_name, key_direction_name, parse_battery_mode, parse_fan_mode,
    parse_key_direction, parse_shift_mode, shift_mode_name,
};
use ecchan::client::access::method_ops;
use ecchan::client::{
    init_state, method_ty_from_repr, reply_fits, request, ClientError, ClientState, IoKind, Prop, SwapKey,
};
use ecchan::dump::pretty_dump;
use ecchan::fw::{BatteryMode, Curve7, FanMode, KeyDirection, Led, ShiftMode, SuperBattery, Webcam, WmiVer};
use ecchan::ipc::{Bin, Method, MethodTy, RetVal, RetValError};
use ecchan::models::{Method as ModelMethod, MethodOp, MethodTy as Cap, ModelConfig, Fans};
use ecchan::fw::{Addr, Bit};

#[test]
fn swap_key_sides() {
    let k = SwapKey::from_fn(KeyDirection::Left);
    assert_eq!(k.get_fn(), KeyDirection::Left);
    assert_eq!(k.get_win(), KeyDirection::Right);
    let k = SwapKey::from_win(KeyDirection::Left);
    assert_eq!(k.get_win(), KeyDirection::Left);
    assert_eq!(k.get_fn(), KeyDirection::Right);
    assert!(SwapKey::from_win(KeyDirection::Right) == SwapKey::from_fn(KeyDirection::Left));
}

#[test]
fn extractors_take_their_variant() {
    assert_eq!(RetVal::Byte(7).byte().unwrap(), 7);
    assert_eq!(RetVal::Word(1441).word().unwrap(), 1441);
    assert!(RetVal::Pong.pong().is_ok());
    assert_eq!(RetVal::Str("x".to_owned()).str().unwrap(), "x");
    assert_eq!(RetVal::WmiVer(WmiVer::Wmi2).wmi_ver().unwrap(), WmiVer::Wmi2);
    assert_eq!(RetVal::FanModes(vec![FanMode::Auto]).fan_modes().unwrap(), vec![FanMode::Auto]);
}

#[test]
fn extractor_of_wrong_variant_says_what_came() {
    let e = RetVal::Unit.byte().unwrap_err();
    match &e {
        RetValError::Unexpected { expected, got } => {
            assert_eq!(*expected, "RetVal::Byte(v)");
            assert_eq!(*got, "Unit");
        }
    }
    assert_eq!(e.message(), "Expected RetVal::Byte(v), instead got Unit");
    assert!(RetVal::Byte(1).pong().is_err());
    assert!(RetVal::Pong.methods().is_err());
    assert_eq!(RetVal::Led(Led::On).name(), "Led");
}

#[test]
fn method_kinds() {
    assert_eq!(Method::Ping.ty(), MethodTy::Ping);
    assert_eq!(Method::SetFanMode { mode: FanMode::Auto }.ty(), MethodTy::SetFanMode);
    assert_eq!(method_ty_from_repr(0), MethodTy::FanCount);
    assert_eq!(method_ty_from_repr(49), MethodTy::EcDumpPretty);
    assert_eq!(method_ty_from_repr(50), MethodTy::MethodRead);
    assert!(matches!(request(MethodTy::FanMax), Some(Method::FanMax)));
    assert!(matches!(request(MethodTy::MethodRead), Some(Method::MethodList)));
    assert!(request(MethodTy::Ping).is_none());
    assert!(request(MethodTy::SetWebcam).is_none());
}

#[test]
fn init_state_skips_dumps_and_list() {
    let tys = init_state();
    assert_eq!(tys.len(), 68);
    assert_eq!(tys[0], MethodTy::Ping);
    assert!(!tys.contains(&MethodTy::EcDumpRaw));
    assert!(!tys.contains(&MethodTy::EcDumpPretty));
    assert!(!tys.contains(&MethodTy::MethodList));
    assert_eq!(*tys.last().unwrap(), MethodTy::MethodWrite);
}

#[test]
fn default_state() {
    let s = ClientState::default();
    assert!(!s.connected);
    assert_eq!(s.get_fan_count(), 1);
    assert_eq!(s.get_wmi_ver(), 1);
    assert!(s.get_fan1_supported());
    assert!(!s.get_fan2_supported());
    assert!(s.get_webcam());
    assert!(!s.get_webcam_block());
    assert_eq!(s.get_fn_key(), KeyDirection::Left);
    assert_eq!(s.get_win_key(), KeyDirection::Right);
    assert_eq!(s.ec_dump.0, [0u8; 256]);
    let text = s.ec_dump_pretty.clone();
    assert!(text.starts_with("|      | _0 _1 _2 _3 _4 _5 _6 _7 _8 _9 _A _B _C _D _E _F\n|------+------------------------------------------------\n| 0x0_ | 00 00 00 00 00 00 00 00 00 00 00 00 00 00 00 00 |................|\n"));
    assert!(text.ends_with("| 0xF_ | 00 00 00 00 00 00 00 00 00 00 00 00 00 00 00 00 |................|\n"));
    assert_eq!(text, pretty_dump(&[0u8; 256]));
}

#[test]
fn reply_stores_new_value_and_reports_it() {
    let mut s = ClientState::default();
    assert!(reply_fits(MethodTy::FanCount, &RetVal::Fans(Fans::Four)));
    assert!(!reply_fits(MethodTy::FanCount, &RetVal::Byte(4)));
    let changed = s.apply_reply(MethodTy::FanCount, RetVal::Fans(Fans::Four));
    assert_eq!(changed, vec![Prop::FanCount]);
    assert_eq!(s.fan_count(), 4);
    let changed = s.apply_reply(MethodTy::FanCount, RetVal::Fans(Fans::Four));
    assert!(changed.is_empty());
    let changed = s.apply_reply(MethodTy::FwTime, RetVal::Str("13:35:33".to_owned()));
    assert_eq!(changed, vec![Prop::Fwtime]);
    assert_eq!(Prop::Fwtime.name(), "fwtime");
    assert_eq!(s.fw_time, "13:35:33");
    let changed = s.apply_reply(MethodTy::WinKey, RetVal::KeyDirection(KeyDirection::Left));
    assert_eq!(changed, vec![Prop::FnKey, Prop::WinKey]);
    assert_eq!(s.get_fn_key(), KeyDirection::Right);
    let changed = s.apply_reply(MethodTy::ShiftModes, RetVal::ShiftModes(vec![ShiftMode::Turbo]));
    assert_eq!(changed, vec![Prop::ShiftModes]);
    assert!(s.apply_reply(MethodTy::ShiftModes, RetVal::ShiftModes(vec![ShiftMode::Turbo])).is_empty());
    let mut bin = Bin::default();
    bin.0[3] = 9;
    assert_eq!(s.apply_reply(MethodTy::EcDumpRaw, RetVal::EcDump(Box::new(bin))), vec![Prop::EcDump]);
    assert_eq!(s.ec_dump.0[3], 9);
    assert_eq!(Prop::EcDump.name(), "ecDump");
}

#[test]
fn settings_call_only_when_they_change_something() {
    let mut s = ClientState::default();
    assert!(s.set_super_battery(false).is_none());
    let call = s.set_super_battery(true).unwrap();
    assert!(matches!(call, Method::SetSuperBattery { state: SuperBattery::On }));
    assert_eq!(s.confirm(&call), vec![Prop::SuperBattery]);
    assert!(s.get_super_battery());
    assert!(s.set_super_battery(true).is_none());

    assert!(s.set_webcam(true).is_none());
    let call = s.set_webcam(false).unwrap();
    assert_eq!(s.confirm(&call), vec![Prop::Webcam]);
    assert!(!s.webcam());

    let call = s.plan(Method::SetFnKey { state: KeyDirection::Right }).unwrap();
    assert_eq!(s.confirm(&call), vec![Prop::FnKey, Prop::WinKey]);
    assert_eq!(s.get_win_key(), KeyDirection::Left);
    assert!(s.plan(Method::SetWinKey { state: KeyDirection::Left }).is_none());

    let c = Curve7 { n1: 1, n2: 2, n3: 3, n4: 4, n5: 5, n6: 6, n7: 7 };
    let call = s.plan(Method::SetCpuFanCurveWmi2 { curve: c }).unwrap();
    s.confirm(&call);
    assert_eq!(s.cpu_fan_curve_wmi2, c);
    assert!(s.plan(Method::SetCpuFanCurveWmi2 { curve: c }).is_none());

    assert!(s.plan(Method::SetBatteryChargeMode { mode: BatteryMode::Mobility }).is_none());
    assert!(s.set_mute_led(false).is_none());
    assert!(s.set_mic_mute_led(true).is_some());
    assert!(s.set_cooler_boost(true).is_some());
    assert!(s.set_webcam_block(true).is_some());
    assert!(matches!(s.plan(Method::Ping), Some(Method::Ping)));
}

#[test]
fn socket_errors_disconnect() {
    assert!(ClientError::Eof.disconnects());
    assert!(ClientError::Io { kind: IoKind::BrokenPipe, msg: "x".to_owned() }.disconnects());
    assert!(!ClientError::Call { msg: "x".to_owned() }.disconnects());
    assert!(!ClientError::Json { msg: "x".to_owned() }.disconnects());
}

#[test]
fn method_list_keeps_read_write_methods() {
    let cfg = ModelConfig::from_name("Titan GT77 12UHS").unwrap();
    assert_eq!(method_ops(&cfg.methods[0]), Some((MethodOp::ReadBit, MethodOp::WriteBit)));
    let only_read = ModelMethod { name: "-", method: "-", addr: Addr::Single(1), ty: vec![Cap::ReadBit { bit: Bit::_1, invert: false }] };
    assert_eq!(method_ops(&only_read), None);
    let bytes = ModelMethod { name: "-", method: "-", addr: Addr::Single(1), ty: vec![Cap::Write, Cap::Read] };
    assert_eq!(method_ops(&bytes), Some((MethodOp::Read, MethodOp::Write)));
    let none = ModelMethod { name: "-", method: "-", addr: Addr::Single(1), ty: vec![] };
    assert_eq!(method_ops(&none), None);
}

#[test]
fn models_by_name() {
    assert!(ModelConfig::from_name("Titan GT77 12UHS").is_some());
    assert!(ModelConfig::from_name("Titan GT77").is_none());
    let _ = Webcam::On;
}

#[test]
fn names_parse_back() {
    assert_eq!(shift_mode_name(ShiftMode::ExtremePerformance), "ExtremePerformance");
    assert_eq!(parse_shift_mode("Turbo"), Some(ShiftMode::Turbo));
    assert_eq!(parse_shift_mode("turbo"), None);
    assert_eq!(parse_fan_mode(fan_mode_name(FanMode::Silent)), Some(FanMode::Silent));
    assert_eq!(parse_key_direction(key_direction_name(KeyDirection::Left)), Some(KeyDirection::Left));
    assert_eq!(parse_battery_mode("Balanced"), Some(BatteryMode::Balanced));
    assert_eq!(battery_mode_name(BatteryMode::from_end(42).unwrap()), "Custom");
    assert_eq!(parse_battery_mode("Custom"), None);
}

#[test]
fn profile_of_default_state() {
    let s = ClientState::default();
    let p = s.serialize().0;
    assert_eq!(p.shift_mode, ShiftMode::Null);
    assert_eq!(p.battery_charge_mode, BatteryMode::Mobility);
    assert!(p.webcam);
    assert!(!p.webcam_block);
    assert_eq!(p.fn_key, KeyDirection::Left);
    assert_eq!(p.win_key, KeyDirection::Right);
    assert!(s.apply(&p.input()).is_empty());
}

#[test]
fn applying_another_profile_plans_the_differences() {
    let s = ClientState::default();
    let mut p = s.serialize().0;
    p.shift_mode = ShiftMode::Turbo;
    p.super_battery = true;
    p.fn_key = KeyDirection::Right;
    p.win_key = KeyDirection::Left;
    let calls = s.apply(&p.input());
    assert_eq!(calls.len(), 3);
    assert!(matches!(calls[0], Method::SetShiftMode { mode: ShiftMode::Turbo }));
    assert!(matches!(calls[1], Method::SetSuperBattery { state: SuperBattery::On }));
    assert!(matches!(calls[2], Method::SetFnKey { state: KeyDirection::Right }));
    let mut t = ClientState::default();
    for c in &calls {
        t.confirm(c);
    }
    assert_eq!(t.serialize().0, p);
}

fn with_methods() -> ClientState {
    let mut s = ClientState::default();
    s.methods.push(MethodPayload {
        name: "Display Overdrive".to_owned(),
        method: "display_overdrive".to_owned(),
        data: MethodData::Bit(false),
        read_op: MethodOp::ReadBit,
        write_op: MethodOp::WriteBit,
    });
    s.methods.push(MethodPayload {
        name: "Level".to_owned(),
        method: "level".to_owned(),
        data: MethodData::Byte(3),
        read_op: MethodOp::Read,
        write_op: MethodOp::Write,
    });
    s.methods.push(MethodPayload {
        name: "Span".to_owned(),
        method: "span".to_owned(),
        data: MethodData::Range(vec![1, 2]),
        read_op: MethodOp::ReadRange,
        write_op: MethodOp::WriteRange,
    });
    s
}

#[test]
fn method_write_plans() {
    let s = with_methods();
    assert!(matches!(s.plan_method_write("nope", &UiValue::Bool(true)), WritePlan::NotFound));
    assert!(matches!(s.plan_method_write("display_overdrive", &UiValue::Number(1)), WritePlan::WrongKind));
    assert!(matches!(s.plan_method_write("display_overdrive", &UiValue::Bool(false)), WritePlan::Unchanged));
    assert!(matches!(
        s.plan_method_write("display_overdrive", &UiValue::Bool(true)),
        WritePlan::Call { op: MethodOp::WriteBit, data: MethodData::Bit(true) }
    ));
    assert!(matches!(s.plan_method_write("level", &UiValue::Number(256)), WritePlan::TooLarge { value: 256 }));
    assert!(matches!(s.plan_method_write("level", &UiValue::Number(3)), WritePlan::Unchanged));
    assert!(matches!(s.plan_method_write("span", &UiValue::Array(vec![Some(1), None])), WritePlan::WrongKind));
    assert!(matches!(s.plan_method_write("span", &UiValue::Array(vec![Some(300), None])), WritePlan::TooLarge { value: 300 }));
    assert!(matches!(s.plan_method_write("span", &UiValue::Array(vec![Some(1), Some(2)])), WritePlan::Unchanged));
    match s.plan_method_write("span", &UiValue::Array(vec![Some(9)])) {
        WritePlan::Call { op, data: MethodData::Range(v) } => {
            assert_eq!(op, MethodOp::WriteRange);
            assert_eq!(v, vec![9]);
        }
        _ => panic!("expected a call"),
    }
}

#[test]
fn confirmed_method_write_is_kept() {
    let mut s = with_methods();
    s.confirm_method_write("level", MethodData::Byte(7));
    assert!(matches!(s.methods[1].data, MethodData::Byte(7)));
    assert!(matches!(s.plan_method_write("level", &UiValue::Number(7)), WritePlan::Unchanged));
    s.confirm_method_write("nope", MethodData::Byte(1));
    assert_eq!(s.methods.len(), 3);
}

#[test]
fn curves_from_ui_arrays() {
    let a: Vec<Option<u32>> = (1..=7).map(Some).collect();
    assert_eq!(curve7_from_ui(&a), Ok(Curve7 { n1: 1, n2: 2, n3: 3, n4: 4, n5: 5, n6: 6, n7: 7 }));
    let c6 = curve6_from_ui(&a).unwrap();
    assert_eq!((c6.n1, c6.n6), (1, 6));
    assert_eq!(curve7_from_ui(&a[..6].to_vec()), Err(None));
    let mut b = a.clone();
    b[2] = Some(256);
    assert_eq!(curve7_from_ui(&b), Err(Some(256)));
    b[1] = None;
    assert_eq!(curve7_from_ui(&b), Err(None));
}

#[test]
fn method_list_refresh() {
    let mut s = with_methods();
    s.fan_max = 9;
    let only_read = ModelMethod { name: "R", method: "r", addr: Addr::Single(1), ty: vec![Cap::ReadBit { bit: Bit::_1, invert: false }] };
    let cfg = ModelConfig::from_name("Titan GT77 12UHS").unwrap();
    let list = vec![cfg.methods[0].clone(), only_read, cfg.methods[1].clone()];
    let reads: Vec<PendingRead> = s.begin_method_list(RetVal::Methods(list));
    assert!(s.methods.is_empty());
    assert_eq!(s.fan_max, 9);
    assert_eq!(reads.len(), 2);
    assert_eq!(reads[0].payload.method, "display_overdrive");
    assert_eq!(reads[0].payload.name, "Display Overdrive");
    assert_eq!(reads[0].payload.read_op, MethodOp::ReadBit);
    assert_eq!(reads[0].payload.write_op, MethodOp::WriteBit);
    assert!(matches!(reads[0].call, Method::MethodRead { method: "display_overdrive", op: MethodOp::ReadBit }));
    assert!(!reads[0].last);
    assert!(reads[1].last);
    let mut it = reads.into_iter();
    let first = it.next().unwrap();
    assert!(s.method_read_done(first, Some(MethodData::Bit(true))).is_empty());
    assert_eq!(s.methods.len(), 1);
    assert!(matches!(s.methods[0].data, MethodData::Bit(true)));
    let second = it.next().unwrap();
    assert_eq!(s.method_read_done(second, None), vec![Prop::Methods]);
    assert_eq!(s.methods.len(), 1);
}

#[test]
fn profile_methods_written_out_and_back() {
    let s = with_methods();
    let (_, methods) = s.serialize();
    assert_eq!(methods.len(), 3);
    assert_eq!(methods[1].0, "level");
    assert!(matches!(methods[1].1, MethodData::Byte(3)));
    let entries = vec![
        ("span".to_owned(), UiValue::Array(vec![Some(4), None, Some(300), Some(5)])),
        ("level".to_owned(), UiValue::Number(300)),
        ("level".to_owned(), UiValue::Other),
        ("nope".to_owned(), UiValue::Bool(true)),
        ("display_overdrive".to_owned(), UiValue::Bool(false)),
        ("display_overdrive".to_owned(), UiValue::Bool(true)),
    ];
    let writes = s.apply_methods(&entries);
    assert_eq!(writes.len(), 3);
    assert_eq!(writes[0].0, "display_overdrive");
    assert!(matches!(writes[0].1, UiValue::Bool(true)));
    assert_eq!(writes[1].0, "level");
    assert!(matches!(writes[1].1, UiValue::Number(44)));
    match &writes[2].1 {
        UiValue::Array(a) => assert_eq!(a, &vec![Some(4), Some(5)]),
        _ => panic!("expected an array"),
    }
    assert!(matches!(
        s.plan_method_write(&writes[0].0, &writes[0].1),
        WritePlan::Call { op: MethodOp::WriteBit, data: MethodData::Bit(true) }
    ));
}

#[test]
fn refused_when_disconnected() {
    let mut s = ClientState::default();
    match s.refusal(&Method::FanMax) {
        Some((ClientError::Io { kind, msg }, report)) => {
            assert_eq!(kind, IoKind::NotConnected);
            assert_eq!(msg, "not connected");
            assert!(report);
        }
        _ => panic!("expected a refusal"),
    }
    assert!(matches!(s.refusal(&Method::Ping), Some((_, false))));
    s.connected = true;
    assert!(s.refusal(&Method::FanMax).is_none());
}

#[test]
fn failed_calls_and_the_connection() {
    let mut s = ClientState::default();
    s.connected = true;
    s.fan_max = 5;
    assert!(s.on_call_error(&ClientError::Call { msg: "no".to_owned() }).is_empty());
    assert!(s.on_call_error(&ClientError::Json { msg: "bad".to_owned() }).is_empty());
    assert!(s.connected);
    assert_eq!(s.on_call_error(&ClientError::Eof), vec![Prop::Connected]);
    assert!(!s.connected);
    assert_eq!(s.fan_max, 5);
    s.connected = true;
    let e = ClientError::Io { kind: IoKind::Other, msg: "reset".to_owned() };
    assert_eq!(s.on_call_error(&e), vec![Prop::Connected]);
    assert!(!s.connected);
    assert_eq!(Prop::Connected.name(), "connected");
}
