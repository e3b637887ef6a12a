use ecchan::ec::{Fault, FwField};
use ecchan::ec::{Ec, MethodData};
use ecchan::ec_sys::EcSys;
use ecchan::fw::g2_10;
use ecchan::fw::{
    BatteryMode, Bit, CoolerBoost, Curve6, Curve7, FanMode, KeyDirection, Led, ShiftMode,
    SuperBattery, Webcam, WmiVer,
};
use ecchan::models::{Fans, MethodOp, ModelConfig};

const EC_BIN: [u8; 256] = [
    //           _0    _1    _2    _3    _4    _5    _6    _7    _8    _9    _A    _B    _C    _D    _E    _F
    /* 0x0_ */ 0x00, 0x80, 0x00, 0x00, 0x00, 0x00, 0x00, 0x00, 0x00, 0x00, 0x00, 0x00, 0x00, 0x00, 0x00, 0x00,
    /* 0x1_ */ 0x00, 0x00, 0x00, 0x00, 0x00, 0x00, 0x00, 0x00, 0x00, 0x00, 0x00, 0x00, 0x00, 0x00, 0x00, 0x00,
    /* 0x2_ */ 0x00, 0x00, 0x00, 0x00, 0x00, 0x00, 0x00, 0x00, 0x0a, 0x05, 0x00, 0x00, 0x00, 0x00, 0x4b, 0x5b,
    /* 0x3_ */ 0x03, 0x01, 0x00, 0x0d, 0x01, 0x00, 0x50, 0x81, 0x6a, 0x18, 0x60, 0x3b, 0x71, 0x02, 0xc0, 0x00,
    /* 0x4_ */ 0x35, 0x0c, 0x36, 0x00, 0x20, 0x17, 0x00, 0x00, 0x6b, 0x0c, 0xca, 0x3c, 0xb5, 0x0b, 0xf8, 0x43,
    /* 0x5_ */ 0x00, 0x00, 0x00, 0x00, 0x00, 0x00, 0x00, 0x00, 0x00, 0x00, 0x00, 0x00, 0x00, 0x00, 0x00, 0x00,
    /* 0x6_ */ 0x00, 0x00, 0x00, 0x00, 0x00, 0x00, 0x00, 0x00, 0x2b, 0x00, 0x37, 0x40, 0x46, 0x4c, 0x52, 0x58,
    /* 0x7_ */ 0x64, 0x19, 0x19, 0x19, 0x23, 0x37, 0x41, 0x46, 0x50, 0x00, 0x0a, 0x03, 0x03, 0x03, 0x03, 0x03,
    /* 0x8_ */ 0x2e, 0x00, 0x34, 0x3a, 0x40, 0x46, 0x4c, 0x52, 0x64, 0x1e, 0x00, 0x1e, 0x28, 0x37, 0x3c, 0x46,
    /* 0x9_ */ 0x50, 0x5f, 0x07, 0x03, 0x03, 0x03, 0x03, 0x03, 0x02, 0x00, 0x00, 0x02, 0x00, 0x00, 0x00, 0x00,
    /* 0xA_ */ 0x31, 0x37, 0x51, 0x31, 0x49, 0x4d, 0x53, 0x31, 0x2e, 0x31, 0x30, 0x43, 0x30, 0x36, 0x31, 0x33,
    /* 0xB_ */ 0x32, 0x30, 0x32, 0x33, 0x31, 0x33, 0x3a, 0x33, 0x35, 0x3a, 0x33, 0x33, 0x00, 0x00, 0x00, 0x08,
    /* 0xC_ */ 0x00, 0x00, 0x06, 0x30, 0x00, 0x00, 0x00, 0x00, 0x01, 0x4d, 0x01, 0x13, 0x00, 0x00, 0x00, 0x00,
    /* 0xD_ */ 0x00, 0x00, 0xc0, 0x00, 0x0d, 0x00, 0x04, 0xbc, 0x00, 0x00, 0x00, 0x00, 0x00, 0x08, 0x00, 0x00,
    /* 0xE_ */ 0xe2, 0x00, 0x00, 0x20, 0x17, 0x01, 0x00, 0xc1, 0x01, 0x00, 0x00, 0x0F, 0x00, 0xc1, 0x00, 0x00,
    /* 0xF_ */ 0x00, 0x00, 0x70, 0x00, 0x23, 0x44, 0x3a, 0x00, 0x44, 0x3a, 0x00, 0x00, 0x00, 0x00, 0x00, 0x00,
];

fn get_ec() -> Ec {
    let fw = ecchan::fw::FwRegistry::from_name("17Q1IMS1.10C").unwrap();
    let model = ModelConfig::from_name("Titan GT77 12UHS").unwrap();
    Ec { sys: Some((EcSys::from_image(EC_BIN), fw)), model: Some(model) }
}

fn io(ec: &Ec) -> &EcSys {
    &ec.sys.as_ref().unwrap().0
}

fn io_mut(ec: &mut Ec) -> &mut EcSys {
    &mut ec.sys.as_mut().unwrap().0
}

/// The registers are the test image with `vals` from `start` on, and every
/// write made fell within that span.
fn assert_wrote_range(ec: &Ec, start: u8, vals: &[u8]) {
    let start = start as usize;
    let end = start + vals.len();
    let mut bin = EC_BIN;
    bin[start..end].copy_from_slice(vals);
    assert_eq!(io(ec).image(), &bin[..]);
    assert_eq!(ec.ec_dump_raw().unwrap(), bin);
    for w in io(ec).writes() {
        let a = w.addr as usize;
        assert!(a >= start && a + w.data.len() <= end, "illegal write at 0x{a:>02X}");
    }
}

fn assert_wrote(ec: &Ec, addr: u8, val: u8) {
    assert_wrote_range(ec, addr, &[val]);
}

fn assert_unwritten(ec: &Ec) {
    assert!(io(ec).writes().is_empty(), "illegal write");
    assert_eq!(io(ec).image(), &EC_BIN[..]);
}

//
// Battery
//

#[test]
fn test_battery_mode() {
    let ec = get_ec();
    let mode = ec.battery_mode().unwrap();
    assert_eq!(BatteryMode::Healthy, mode);
    assert_unwritten(&ec);
}

#[test]
fn test_set_battery_charge_mode() {
    let mut ec = get_ec();
    ec.set_battery_mode(BatteryMode::Mobility).unwrap();
    assert_wrote(&ec, 0xD7, 0xE4);

    ec.set_battery_mode(BatteryMode::from_start(0).unwrap()).unwrap();
    assert_wrote(&ec, 0xD7, 0x8A);

    ec.set_battery_mode(BatteryMode::from_start(23).unwrap()).unwrap();
    assert_wrote(&ec, 0xD7, 0xA1);
}

#[test]
fn test_battery_charge_mode_supported() {
    let ec = get_ec();
    assert!(ec.battery_mode_supported());
    assert_unwritten(&ec);
}

#[test]
fn test_set_battery_mode_lowest() {
    BatteryMode::from_end(10).unwrap();
}

#[test]
fn test_set_battery_mode_high_start() {
    BatteryMode::from_start(90).unwrap();
}

#[test]
fn test_set_battery_mode_high_end() {
    BatteryMode::from_end(100).unwrap();
}

#[test]
fn battery_mode_out_of_range() {
    assert!(BatteryMode::from_end(9).is_none());
    assert!(BatteryMode::from_start(91).is_none());
    assert!(BatteryMode::from_end(101).is_none());
}

#[test]
fn battery_mode_named_thresholds() {
    assert_eq!(BatteryMode::from_end(60), Some(BatteryMode::Healthy));
    assert_eq!(BatteryMode::from_end(80), Some(BatteryMode::Balanced));
    assert_eq!(BatteryMode::from_end(100), Some(BatteryMode::Mobility));
    assert_eq!(BatteryMode::Healthy.as_start(), 50);
    assert_eq!(BatteryMode::Healthy.as_end(), 60);
    let custom = BatteryMode::from_start(23).unwrap();
    assert_eq!(custom.as_start(), 23);
    assert_eq!(custom.as_end(), 33);
}

#[test]
fn battery_mode_reads_back() {
    let mut ec = get_ec();
    let mode = BatteryMode::from_end(42).unwrap();
    ec.set_battery_mode(mode).unwrap();
    assert_eq!(ec.battery_mode().unwrap(), mode);
    // a custom end of 80 reads back as the named mode
    ec.set_battery_mode(BatteryMode::from_end(80).unwrap()).unwrap();
    assert_eq!(ec.battery_mode().unwrap(), BatteryMode::Balanced);
}

//
// Super battery
//

#[test]
fn test_super_battery() {
    let ec = get_ec();
    let mode = ec.super_battery().unwrap();
    assert_eq!(SuperBattery::On, mode);
    assert_unwritten(&ec);
}

#[test]
fn test_set_super_battery() {
    let mut ec = get_ec();
    ec.set_super_battery(SuperBattery::Off).unwrap();
    assert_wrote(&ec, 0xEB, 0x00);
}

#[test]
fn test_super_battery_supported() {
    let ec = get_ec();
    assert!(ec.super_battery_supported());
    assert_unwritten(&ec);
}

#[test]
fn super_battery_reads_back() {
    let mut ec = get_ec();
    ec.set_super_battery(SuperBattery::Off).unwrap();
    assert_eq!(ec.super_battery().unwrap(), SuperBattery::Off);
    ec.set_super_battery(SuperBattery::On).unwrap();
    assert_eq!(ec.super_battery().unwrap(), SuperBattery::On);
    assert_wrote(&ec, 0xEB, 0x0F);
}

//
// Cooler boost
//

#[test]
fn test_cooler_boost() {
    let ec = get_ec();
    let status = ec.cooler_boost().unwrap();
    assert_eq!(status, CoolerBoost::Off);
    assert_unwritten(&ec);
}

#[test]
fn test_set_cooler_boost() {
    let mut ec = get_ec();
    let val = io(&ec).ec_read_bit(0x98, Bit::_7);
    assert!(!val, "cooler boost is off");

    ec.set_cooler_boost(CoolerBoost::On).unwrap();
    assert_wrote(&ec, 0x98, 0x82);

    let val = io(&ec).ec_read_bit(0x98, Bit::_7);
    assert!(val, "cooler boost is on");

    ec.set_cooler_boost(CoolerBoost::Off).unwrap();
    assert_wrote(&ec, 0x98, 0x02);
}

#[test]
fn test_cooler_boost_supported() {
    let ec = get_ec();
    assert!(ec.cooler_boost_supported());
}

//
// Curves
//

#[test]
fn test_cpu_fan_curve() {
    let ec = get_ec();
    let curve = ec.cpu_fan_curve().unwrap();
    assert_eq!(Curve7 { n1: 25, n2: 25, n3: 35, n4: 55, n5: 65, n6: 70, n7: 80 }, curve);
    assert_unwritten(&ec);
}

#[test]
fn test_gpu_fan_curve() {
    let ec = get_ec();
    let curve = ec.gpu_fan_curve().unwrap();
    assert_eq!(Curve7 { n1: 0, n2: 30, n3: 40, n4: 55, n5: 60, n6: 70, n7: 80 }, curve);
    assert_unwritten(&ec);
}

#[test]
fn test_set_cpu_fan_curve() {
    let mut ec = get_ec();
    let curve = Curve7 { n1: 1, n2: 2, n3: 3, n4: 4, n5: 5, n6: 6, n7: 7 };
    ec.set_cpu_fan_curve(curve).unwrap();
    assert_wrote_range(&ec, 0x72, &[1, 2, 3, 4, 5, 6, 7]);
}

#[test]
fn test_set_gpu_fan_curve() {
    let mut ec = get_ec();
    let curve = Curve7 { n1: 1, n2: 2, n3: 3, n4: 4, n5: 5, n6: 6, n7: 7 };
    ec.set_gpu_fan_curve(curve).unwrap();
    assert_wrote_range(&ec, 0x8A, &[1, 2, 3, 4, 5, 6, 7]);
}

#[test]
fn test_cpu_temp_curve() {
    let ec = get_ec();
    let curve = ec.cpu_temp_curve().unwrap();
    assert_eq!(Curve7 { n1: 0, n2: 55, n3: 64, n4: 70, n5: 76, n6: 82, n7: 88 }, curve);
    assert_unwritten(&ec);
}

#[test]
fn test_gpu_temp_curve() {
    let ec = get_ec();
    let curve = ec.gpu_temp_curve().unwrap();
    assert_eq!(Curve7 { n1: 0, n2: 52, n3: 58, n4: 64, n5: 70, n6: 76, n7: 82 }, curve);
    assert_unwritten(&ec);
}

#[test]
fn test_set_cpu_temp_curve() {
    let mut ec = get_ec();
    let curve = Curve7 { n1: 1, n2: 2, n3: 3, n4: 4, n5: 5, n6: 6, n7: 7 };
    ec.set_cpu_temp_curve(curve).unwrap();
    assert_wrote_range(&ec, 0x69, &[1, 2, 3, 4, 5, 6, 7]);
}

#[test]
fn test_set_gpu_temp_curve() {
    let mut ec = get_ec();
    let curve = Curve7 { n1: 1, n2: 2, n3: 3, n4: 4, n5: 5, n6: 6, n7: 7 };
    ec.set_gpu_temp_curve(curve).unwrap();
    assert_wrote_range(&ec, 0x81, &[1, 2, 3, 4, 5, 6, 7]);
}

#[test]
fn test_cpu_hysteresis_curve() {
    let ec = get_ec();
    let curve = ec.cpu_hysteresis_curve().unwrap();
    assert_eq!(Curve6 { n1: 10, n2: 3, n3: 3, n4: 3, n5: 3, n6: 3 }, curve);
    assert_unwritten(&ec);
}

#[test]
fn test_gpu_hysteresis_curve() {
    let ec = get_ec();
    let curve = ec.gpu_hysteresis_curve().unwrap();
    assert_eq!(Curve6 { n1: 7, n2: 3, n3: 3, n4: 3, n5: 3, n6: 3 }, curve);
    assert_unwritten(&ec);
}

#[test]
fn test_set_cpu_hysteresis_curve() {
    let mut ec = get_ec();
    let curve = Curve6 { n1: 1, n2: 2, n3: 3, n4: 4, n5: 5, n6: 6 };
    ec.set_cpu_hysteresis_curve(curve).unwrap();
    assert_wrote_range(&ec, 0x7A, &[1, 2, 3, 4, 5, 6]);
}

#[test]
fn test_set_gpu_hysteresis_curve() {
    let mut ec = get_ec();
    let curve = Curve6 { n1: 1, n2: 2, n3: 3, n4: 4, n5: 5, n6: 6 };
    ec.set_gpu_hysteresis_curve(curve).unwrap();
    assert_wrote_range(&ec, 0x92, &[1, 2, 3, 4, 5, 6]);
}

#[test]
fn curves_need_a_dgpu() {
    let mut ec = get_ec();
    ec.model.as_mut().unwrap().has_dgpu = false;
    assert!(ec.gpu_fan_curve().is_err());
    assert!(ec.set_gpu_temp_curve(Curve7::default()).is_err());
    assert!(ec.cpu_fan_curve().is_ok());
    assert_unwritten(&ec);
}

#[test]
fn curves_need_wmi2() {
    let mut ec = get_ec();
    ec.sys.as_mut().unwrap().1.ver = WmiVer::Wmi1;
    assert!(ec.gpu_fan_curve().is_err());
    assert!(ec.set_gpu_hysteresis_curve(Curve6::default()).is_err());
    assert_unwritten(&ec);
}

//
// Raw register access
//

#[test]
fn test_read_1() {
    let ec = get_ec();
    let val = io(&ec).ec_read(0x2F);
    assert_eq!(0x5B, val);
    assert_unwritten(&ec);
}

#[test]
fn test_write_1() {
    let mut ec = get_ec();
    io_mut(&mut ec).ec_write(0x2F, 0xFB);
    assert_wrote(&ec, 0x2F, 0xFB);
}

#[test]
fn test_end_seq_read_1() {
    let mut ec = get_ec();
    io_mut(&mut ec).ec_write(0xFF, 0xFE);
    let buf = io(&ec).ec_read_seq(0xFF, 1).unwrap();
    assert_eq!(0xFE, buf[0]);
    assert_wrote(&ec, 0xFF, 0xFE);
}

#[test]
fn test_end_write_seq_1() {
    let mut ec = get_ec();
    io_mut(&mut ec).ec_write_seq(0xFF, &[0x44]).unwrap();
    assert_wrote(&ec, 0xFF, 0x44);
}

#[test]
fn seq_past_the_end_is_refused() {
    let mut ec = get_ec();
    assert!(io(&ec).ec_read_seq(0xFF, 2).is_err());
    assert!(io_mut(&mut ec).ec_write_seq(0xFF, &[0xCE, 0xDE]).is_err());
    assert_unwritten(&ec);
}

#[test]
fn test_seq_read_4() {
    let ec = get_ec();
    let buf = io(&ec).ec_read_seq(0xF2, 4).unwrap();
    assert_eq!(vec![0x70, 0x00, 0x23, 0x44], buf);
    assert_unwritten(&ec);
}

#[test]
fn test_seq_write_4() {
    let mut ec = get_ec();
    let vals = [0x01, 0x02, 0x03, 0x04];
    io_mut(&mut ec).ec_write_seq(0xF2, &vals).unwrap();
    assert_wrote_range(&ec, 0xF2, &vals);
}

#[test]
fn test_read_bit() {
    let ec = get_ec();
    assert!(!io(&ec).ec_read_bit(0x01, Bit::_6), "bit 6 not set");
    assert!(io(&ec).ec_read_bit(0x01, Bit::_7), "bit 7 set");
    assert_unwritten(&ec);
}

#[test]
fn test_write_bit() {
    let mut ec = get_ec();
    assert!(!io(&ec).ec_read_bit(0x01, Bit::_6), "bit 6 not set");
    io_mut(&mut ec).ec_write_bit(0x01, Bit::_6, true);
    assert!(io(&ec).ec_read_bit(0x01, Bit::_6), "bit 6 set");
    assert_wrote(&ec, 0x01, 0xC0);

    let mut ec = get_ec();
    assert!(io(&ec).ec_read_bit(0x01, Bit::_7), "bit 7 set");
    io_mut(&mut ec).ec_write_bit(0x01, Bit::_7, false);
    assert!(!io(&ec).ec_read_bit(0x01, Bit::_7), "bit 7 not set");
    assert_wrote(&ec, 0x01, 0x00);
}

//
// Fan mode
//

#[test]
fn test_fan_modes() {
    let ec = get_ec();
    let modes = ec.fan_modes().unwrap();
    assert_eq!(modes, [FanMode::Auto, FanMode::Silent, FanMode::Advanced]);
}

#[test]
fn test_fan_mode() {
    let ec = get_ec();
    let mode = ec.fan_mode().unwrap();
    assert_eq!(mode, FanMode::Auto);
    assert_unwritten(&ec);
}

#[test]
fn test_set_fan_mode() {
    let mut ec = get_ec();
    ec.set_fan_mode(FanMode::Advanced).unwrap();
    assert_wrote(&ec, 0xD4, 0x8D);
}

#[test]
fn fan_mode_null_is_refused() {
    let mut ec = get_ec();
    assert!(ec.set_fan_mode(FanMode::Null).is_err());
    assert_unwritten(&ec);
}

#[test]
fn fan_mode_missing_from_layout_is_refused() {
    let mut ec = get_ec();
    ec.sys.as_mut().unwrap().1.fan_mode.modes =
        vec![(FanMode::Auto, 0x0D), (FanMode::Silent, 0x1D), (FanMode::Null, 0x00)];
    assert!(ec.set_fan_mode(FanMode::Advanced).is_err());
    assert_unwritten(&ec);
}

#[test]
fn fan_mode_reads_back() {
    let mut ec = get_ec();
    ec.set_fan_mode(FanMode::Silent).unwrap();
    assert_eq!(ec.fan_mode().unwrap(), FanMode::Silent);
}

//
// Fan speed
//

#[test]
fn test_fan1_rpm() {
    let ec = get_ec();
    assert_eq!(1441, ec.fan1_rpm().unwrap());
    assert_unwritten(&ec);
}

#[test]
fn test_fan2_rpm() {
    let ec = get_ec();
    assert_eq!(1745, ec.fan2_rpm().unwrap());
    assert_unwritten(&ec);
}

#[test]
fn test_fan3_rpm() {
    let ec = get_ec();
    assert_eq!(0, ec.fan3_rpm().unwrap());
    assert_unwritten(&ec);
}

#[test]
fn test_fan4_rpm() {
    let ec = get_ec();
    assert_eq!(0, ec.fan4_rpm().unwrap());
    assert_unwritten(&ec);
}

#[test]
fn fan_rpm_of_missing_fan() {
    let mut ec = get_ec();
    ec.model.as_mut().unwrap().fans.count = Fans::One;
    assert!(ec.fan2_rpm().is_err());
    ec.model.as_mut().unwrap().fans.count = Fans::Three;
    assert!(ec.fan3_rpm().is_ok());
    assert!(ec.fan4_rpm().is_err());
}

#[test]
fn test_fan1_supported() {
    assert!(get_ec().fan1_supported());
}

#[test]
fn test_fan2_supported() {
    assert!(get_ec().fan2_supported());
}

#[test]
fn test_fan3_supported() {
    assert!(get_ec().fan3_supported());
}

#[test]
fn test_fan4_supported() {
    assert!(get_ec().fan4_supported());
}

#[test]
fn test_fan2_not_supported() {
    let mut ec = get_ec();
    ec.model.as_mut().unwrap().fans.count = Fans::One;
    assert!(!ec.fan2_supported());
}

#[test]
fn test_fan3_not_supported() {
    let mut ec = get_ec();
    ec.model.as_mut().unwrap().fans.count = Fans::One;
    assert!(!ec.fan3_supported());
}

#[test]
fn test_fan4_not_supported() {
    let mut ec = get_ec();
    ec.model.as_mut().unwrap().fans.count = Fans::One;
    assert!(!ec.fan4_supported());
}

//
// Firmware
//

#[test]
fn test_firmware_version() {
    let ec = get_ec();
    assert_eq!(ec.fw_version().unwrap(), "17Q1IMS1.10C");
    assert_unwritten(&ec);
}

#[test]
fn test_firmware_date() {
    let ec = get_ec();
    assert_eq!(ec.fw_date().unwrap(), "06132023");
    assert_unwritten(&ec);
}

#[test]
fn test_firmware_time() {
    let ec = get_ec();
    assert_eq!(ec.fw_time().unwrap(), "13:35:33");
    assert_unwritten(&ec);
}

//
// Key swap
//

#[test]
fn test_fn_key() {
    let ec = get_ec();
    assert_eq!(ec.fn_key().unwrap(), KeyDirection::Right);
    assert_unwritten(&ec);
}

#[test]
fn test_set_fn_key() {
    let mut ec = get_ec();
    assert!(!io(&ec).ec_read_bit(0xE8, Bit::_4), "fn key is right");
    ec.set_fn_key(KeyDirection::Left).unwrap();
    assert_wrote(&ec, 0xE8, 0x11);
    assert!(io(&ec).ec_read_bit(0xE8, Bit::_4), "fn key is left");
    ec.set_fn_key(KeyDirection::Right).unwrap();
    assert_wrote(&ec, 0xE8, 0x01);
}

#[test]
fn test_win_key() {
    let ec = get_ec();
    assert_eq!(ec.win_key().unwrap(), KeyDirection::Left);
    assert_unwritten(&ec);
}

#[test]
fn test_set_win_key() {
    let mut ec = get_ec();
    assert!(!io(&ec).ec_read_bit(0xE8, Bit::_4), "win key is left");
    ec.set_win_key(KeyDirection::Right).unwrap();
    assert_wrote(&ec, 0xE8, 0x11);
    assert!(io(&ec).ec_read_bit(0xE8, Bit::_4), "win key is right");
    ec.set_win_key(KeyDirection::Left).unwrap();
    assert_wrote(&ec, 0xE8, 0x01);
}

#[test]
fn test_key_swap_supported() {
    assert!(get_ec().fn_win_swap_supported());
}

#[test]
fn keys_stay_on_opposite_sides() {
    let mut ec = get_ec();
    ec.set_fn_key(KeyDirection::Left).unwrap();
    assert_eq!(ec.fn_key().unwrap(), KeyDirection::Left);
    assert_eq!(ec.win_key().unwrap(), KeyDirection::Right);
    ec.set_win_key(KeyDirection::Left).unwrap();
    assert_eq!(ec.win_key().unwrap(), KeyDirection::Left);
    assert_eq!(ec.fn_key().unwrap(), KeyDirection::Right);
}

//
// Model methods
//

#[test]
fn test_method_read_display_overdrive() {
    let ec = get_ec();
    let r = ec.method_read("display_overdrive", MethodOp::ReadBit).unwrap();
    assert!(matches!(r, MethodData::Bit(false)));
    assert_unwritten(&ec);
}

#[test]
fn test_method_read_usb_power_share() {
    let ec = get_ec();
    let r = ec.method_read("usb_power_share", MethodOp::ReadBit).unwrap();
    assert!(matches!(r, MethodData::Bit(false)));
    assert_unwritten(&ec);
}

#[test]
fn test_method_write_display_overdrive() {
    let mut ec = get_ec();
    ec.method_write("display_overdrive", MethodOp::WriteBit, MethodData::Bit(true)).unwrap();
    assert_wrote(&ec, 0x2E, 0x5B);
    ec.method_write("display_overdrive", MethodOp::WriteBit, MethodData::Bit(false)).unwrap();
    assert_wrote(&ec, 0x2E, 0x4B);
}

#[test]
fn test_method_write_usb_power_share() {
    let mut ec = get_ec();
    ec.method_write("usb_power_share", MethodOp::WriteBit, MethodData::Bit(true)).unwrap();
    assert_wrote(&ec, 0xBF, 0x28);
    ec.method_write("usb_power_share", MethodOp::WriteBit, MethodData::Bit(false)).unwrap();
    assert_wrote(&ec, 0xBF, 0x08);
}

#[test]
fn method_errors() {
    let mut ec = get_ec();
    assert!(ec.method_read("-", MethodOp::Write).is_err());
    assert!(ec.method_read("abc", MethodOp::ReadRange).is_err());
    assert!(ec.method_read("display_overdrive", MethodOp::ReadRange).is_err());
    assert!(ec.method_write("-", MethodOp::Read, MethodData::Bit(false)).is_err());
    assert!(ec.method_write("display_overdrive", MethodOp::WriteBit, MethodData::Byte(3)).is_err());
    ec.model = None;
    assert!(ec.method_read("display_overdrive", MethodOp::ReadBit).is_err());
    assert_unwritten(&ec);
    ec.sys = None;
    assert!(ec.method_read("display_overdrive", MethodOp::ReadBit).is_err());
}

//
// Misc
//

#[test]
fn test_has_dgpu() {
    assert!(get_ec().has_dgpu());
}

#[test]
fn test_fan_count() {
    let ec = get_ec();
    assert_eq!(ec.fan_count(), Fans::Four);
}

#[test]
fn test_wmi_ver() {
    let ec = get_ec();
    assert_eq!(ec.wmi_ver(), Some(WmiVer::Wmi2));
}

//
// LEDs
//

#[test]
fn test_mute_led() {
    let ec = get_ec();
    assert_eq!(ec.mute_led().unwrap(), Led::Off);
    assert_unwritten(&ec);
}

#[test]
fn test_set_mute_led() {
    let mut ec = get_ec();
    assert!(!io(&ec).ec_read_bit(0x2D, Bit::_1), "mute led is off");
    ec.set_mute_led(Led::On).unwrap();
    assert_wrote(&ec, 0x2D, 0x02);
    assert!(io(&ec).ec_read_bit(0x2D, Bit::_1), "mute led is on");
    ec.set_mute_led(Led::Off).unwrap();
    assert_wrote(&ec, 0x2D, 0x00);
}

#[test]
fn test_mute_led_supported() {
    assert!(get_ec().mute_led_supported());
}

#[test]
fn test_mic_mute_led() {
    let ec = get_ec();
    assert_eq!(ec.mic_mute_led().unwrap(), Led::Off);
    assert_unwritten(&ec);
}

#[test]
fn test_set_mic_mute_led() {
    let mut ec = get_ec();
    assert!(!io(&ec).ec_read_bit(0x2C, Bit::_1), "mic mute led is off");
    ec.set_mic_mute_led(Led::On).unwrap();
    assert_wrote(&ec, 0x2C, 0x02);
    assert!(io(&ec).ec_read_bit(0x2C, Bit::_1), "mic mute led is on");
    ec.set_mic_mute_led(Led::Off).unwrap();
    assert_wrote(&ec, 0x2C, 0x00);
}

#[test]
fn test_mic_mute_led_supported() {
    assert!(get_ec().mic_mute_led_supported());
}

//
// Shift mode
//

#[test]
fn test_shift_modes() {
    let ec = get_ec();
    let modes = ec.shift_modes().unwrap();
    assert_eq!(
        modes,
        [ShiftMode::SuperBattery, ShiftMode::Balanced, ShiftMode::ExtremePerformance, ShiftMode::Turbo]
    );
}

#[test]
fn test_shift_mode() {
    let ec = get_ec();
    assert_eq!(ec.shift_mode().unwrap(), ShiftMode::ExtremePerformance);
    assert_unwritten(&ec);
}

#[test]
fn test_set_shift_mode() {
    let mut ec = get_ec();
    ec.set_shift_mode(ShiftMode::Turbo).unwrap();
    assert_wrote(&ec, 0xD2, 0xC4);
}

#[test]
fn test_shift_mode_supported() {
    let ec = get_ec();
    assert!(ec.shift_mode_supported());
    assert_unwritten(&ec);
}

#[test]
fn shift_mode_refusals() {
    let mut ec = get_ec();
    assert!(ec.set_shift_mode(ShiftMode::Null).is_err());
    ec.sys.as_mut().unwrap().1.shift_mode.modes = Vec::new();
    assert!(ec.set_shift_mode(ShiftMode::ExtremePerformance).is_err());
    assert_unwritten(&ec);
}

//
// Realtime sensors
//

#[test]
fn test_cpu_rt_temp() {
    let ec = get_ec();
    assert_eq!(43, ec.cpu_rt_temp().unwrap());
    assert_unwritten(&ec);
}

#[test]
fn test_gpu_rt_temp() {
    let ec = get_ec();
    assert_eq!(46, ec.gpu_rt_temp().unwrap());
    assert_unwritten(&ec);
}

#[test]
fn test_cpu_rt_fan_speed() {
    let ec = get_ec();
    assert_eq!(25, ec.cpu_rt_fan_speed().unwrap());
    assert_unwritten(&ec);
}

#[test]
fn test_gpu_rt_fan_speed() {
    let ec = get_ec();
    assert_eq!(30, ec.gpu_rt_fan_speed().unwrap());
    assert_unwritten(&ec);
}

//
// Webcam
//

#[test]
fn test_webcam() {
    let ec = get_ec();
    assert_eq!(ec.webcam().unwrap(), Webcam::On);
    assert_unwritten(&ec);
}

#[test]
fn test_set_webcam() {
    let mut ec = get_ec();
    assert!(io(&ec).ec_read_bit(0x2E, Bit::_1), "webcam is on");
    ec.set_webcam(Webcam::Off).unwrap();
    assert_wrote(&ec, 0x2E, 0x49);
    assert!(!io(&ec).ec_read_bit(0x2E, Bit::_1), "webcam is off");
    ec.set_webcam(Webcam::On).unwrap();
    assert_wrote(&ec, 0x2E, 0x4B);
}

#[test]
fn test_webcam_block() {
    let ec = get_ec();
    assert_eq!(ec.webcam_block().unwrap(), Webcam::Off);
    assert_unwritten(&ec);
}

#[test]
fn test_set_webcam_block() {
    let mut ec = get_ec();
    assert!(!(io(&ec).ec_read_bit(0x2F, Bit::_1) ^ true), "webcam block is off");
    ec.set_webcam_block(Webcam::On).unwrap();
    assert_wrote(&ec, 0x2F, 0x59);
    assert!(io(&ec).ec_read_bit(0x2F, Bit::_1) ^ true, "webcam block is on");
    ec.set_webcam_block(Webcam::Off).unwrap();
    assert_wrote(&ec, 0x2F, 0x5B);
}

#[test]
fn test_webcam_supported() {
    assert!(get_ec().webcam_supported());
}

#[test]
fn test_webcam_block_supported() {
    assert!(get_ec().webcam_block_supported());
}

//
// Building, dumps
//

#[test]
fn build_as_root_picks_the_layout() {
    let ec = Ec::from_parts(0, Ok(EcSys::from_image(EC_BIN)), None).unwrap();
    let (_, fw) = ec.sys.as_ref().unwrap();
    assert_eq!(fw.ver, WmiVer::Wmi2);
    assert_eq!(ec.shift_mode().unwrap(), ShiftMode::ExtremePerformance);
    assert!(ec.model.is_none());
}

#[test]
fn build_refuses_non_root() {
    assert!(matches!(
        Ec::from_parts(1000, Ok(EcSys::from_image(EC_BIN)), None),
        Err(ecchan::ec::EcError::RootRequired)
    ));
}

#[test]
fn build_with_unknown_firmware_has_no_layout() {
    let mut bin = EC_BIN;
    bin[0xA0] = b'X';
    let ec = Ec::from_parts(0, Ok(EcSys::from_image(bin)), None).unwrap();
    assert!(ec.sys.is_none());
    assert!(ec.shift_mode().is_err());
}

#[test]
fn build_without_driver() {
    let ec = Ec::from_parts(0, Err(ecchan::ec_sys::EcSysError::NotLoaded), None).unwrap();
    assert!(ec.sys.is_none());
    assert!(Ec::from_parts(0, Err(ecchan::ec_sys::EcSysError::NoWriteSupport), None).is_err());
}

#[test]
fn pretty_dump_table() {
    let ec = get_ec();
    let s = ec.ec_dump_pretty().unwrap();
    let lines: Vec<&str> = s.lines().collect();
    assert_eq!(lines.len(), 18);
    assert_eq!(lines[0], "|      | _0 _1 _2 _3 _4 _5 _6 _7 _8 _9 _A _B _C _D _E _F");
    assert_eq!(lines[1], "|------+------------------------------------------------");
    assert_eq!(lines[2], "| 0x0_ | 00 80 00 00 00 00 00 00 00 00 00 00 00 00 00 00 |................|");
    assert_eq!(lines[12], "| 0xA_ | 31 37 51 31 49 4D 53 31 2E 31 30 43 30 36 31 33 |17Q1IMS1.10C0613|");
    assert!(s.ends_with("|\n"));
}

#[test]
fn g2_10_layout_values() {
    let cfg = g2_10::config();
    assert_eq!(cfg.ver, WmiVer::Wmi2);
    assert!(cfg.allowed_fw.contains(&"17Q1IMS1.10C"));
}

#[test]
fn fault_texts() {
    assert_eq!(Fault::ShiftModeNotSupported { mode: ShiftMode::ExtremePerformance }.message(), "ExtremePerformance mode is not supported");
    assert_eq!(Fault::NullShiftMode.message(), "shift mode cannot be null");
    assert_eq!(Fault::NullFanMode.message(), "fan mode cannot be null");
    assert_eq!(Fault::FanModeNotSupported { mode: FanMode::Advanced }.message(), "Advanced mode is not supported");
    assert_eq!(Fault::InvalidShiftMode { val: 0x0A }.message(), "got 0x0A, but it does not represent valid shift mode");
    assert_eq!(Fault::InvalidBatteryMode { val: 0xF5 }.message(), "got invalid value: 0xF5 (245)");
    assert_eq!(Fault::InvalidFanMode { val: 7 }.message(), "got invalid value: 0x07 (7)");
    assert_eq!(Fault::OnlyWmi2.message(), "only wmi2 is supported");
    assert_eq!(Fault::NoDgpu.message(), "no dgpu available");
    assert_eq!(Fault::NonUtf8 { field: FwField::Date }.message(), "fw_date() received non utf8 data");
    assert_eq!(Fault::SeqAccess { op: "read_curve", call: "ec_read_seq" }.message(), "read_curve() failed to ec_read_seq()");
    assert_eq!(Fault::NotARead { op: MethodOp::Write }.message(), "Write is not a kind of read");
    assert_eq!(Fault::NotAWrite { op: MethodOp::ReadBit }.message(), "ReadBit is not a kind of write");
    assert_eq!(Fault::NoModel.message(), "model config does not exist");
    assert_eq!(Fault::MethodNotFound { method: "abc".to_owned() }.message(), "method abc() not found");
    assert_eq!(
        Fault::MissingCapability { method: "-".to_owned(), op: MethodOp::ReadRange }.message(),
        "-() does not expose ReadRange capability"
    );
}

#[test]
fn method_errors_say_what_the_original_says() {
    let ec = get_ec();
    match ec.method_read("abc", MethodOp::ReadRange) {
        Err(ecchan::ec::EcError::Whatever { message, .. }) => assert_eq!(message.message(), "method abc() not found"),
        _ => panic!("expected an error"),
    }
    match ec.method_read("display_overdrive", MethodOp::Write) {
        Err(ecchan::ec::EcError::Whatever { message, .. }) => assert_eq!(message.message(), "Write is not a kind of read"),
        _ => panic!("expected an error"),
    }
}

#[test]
fn fans_are_ordered() {
    assert!(Fans::One < Fans::Two && Fans::Three < Fans::Four);
    assert_eq!(Fans::default(), Fans::One);
}
