//! The WMI2 register layout shared by the G2_10 firmware family.

use vstd::prelude::*;

use super::{
    Addr, Bit, CoolerBoostConfig, Curve, FanMode, FanModeConfig, FanRpm, FnWinSwap, FwConfig, KbdBl,
    Leds, ShiftMode, ShiftModeConfig, SuperBatteryConfig, Thermal, WebcamConfig, WmiVer,
};

verus! {

/// The firmware versions that use this layout.
pub open spec fn spec_firmwares() -> Seq<Seq<char>> {
    seq![
        "1562EMS1.117"@,
        "1563EMS1.106"@,
        "1563EMS1.111"@,
        "1563EMS1.115"@,
        "1571EMS1.106"@,
        "1572EMS1.106"@,
        "1572EMS1.107"@,
        "1587EMS1.102"@,
        "15F2EMS1.109"@,
        "15F4EMS1.105"@,
        "15F4EMS1.106"@,
        "15FKIMS1.106"@,
        "15FKIMS1.109"@,
        "15FKIMS1.110"@,
        "15FLIMS1.107"@,
        "15K2EMS1.106"@,
        "15M1IMS1.109"@,
        "15M1IMS1.110"@,
        "15M1IMS1.113"@,
        "15M1IMS2.104"@,
        "15M1IMS2.105"@,
        "15M1IMS2.111"@,
        "15M1IMS2.112"@,
        "15M2IMS2.112"@,
        "15M2IMS1.110"@,
        "15M2IMS1.112"@,
        "15M2IMS1.113"@,
        "15M2IMS1.114"@,
        "15M3EMS1.105"@,
        "15M3EMS1.106"@,
        "15M3EMS1.107"@,
        "15M3EMS1.109"@,
        "15M3EMS1.110"@,
        "15M3EMS1.112"@,
        "15M3EMS1.113"@,
        "15P2EMS1.108"@,
        "15P2EMS1.110"@,
        "15P3EMS1.103"@,
        "15P3EMS1.106"@,
        "15P3EMS1.107"@,
        "15P4EMS1.105"@,
        "15P4EMS1.107"@,
        "17L5EMS1.111"@,
        "17L5EMS1.113"@,
        "17L5EMS1.115"@,
        "17L5EMS2.115"@,
        "17L7EMS1.102"@,
        "17N1EMS1.109"@,
        "17P1EMS1.104"@,
        "17P1EMS1.106"@,
        "17P2EMS1.111"@,
        "17Q1IMS1.10C"@,
        "17Q2IMS1.107"@,
        "17Q2IMS1.10D"@,
        "17S1IMS1.105"@,
        "17S1IMS1.113"@,
        "17S1IMS1.114"@,
        "17S1IMS2.104"@,
        "17S1IMS2.107"@,
        "17S1IMS2.111"@,
        "17S1IMS2.112"@,
        "17S2IMS1.113"@,
        "17S3EMS1.104"@,
        "17T2EMS1.110"@,
        "1822EMS1.105"@,
        "1822EMS1.109"@,
        "1822EMS1.111"@,
        "1822EMS1.112"@,
        "1822EMS1.114"@,
        "1822EMS1.115"@,
        "1824EMS1.107"@,
        "182LIMS1.108"@,
        "182LIMS1.111"@,
        "182KIMS1.113"@
    ]
}

/// What the layout holds: each feature's register, bit and value table.
pub open spec fn is_g2_10(cfg: FwConfig) -> bool {
    &&& cfg.allowed_fw@.map_values(|s: &str| s@) == spec_firmwares()
    &&& cfg.ver == WmiVer::Wmi2
    &&& cfg.charge_control_addr == Addr::Single(0xD7)
    &&& cfg.webcam.addr == Addr::Single(0x2E)
    &&& cfg.webcam.block_addr == Addr::Single(0x2F)
    &&& cfg.webcam.bit == Bit::_1
    &&& cfg.fn_win_swap.addr == Addr::Single(0xE8)
    &&& cfg.fn_win_swap.bit == Bit::_4
    &&& cfg.fn_win_swap.invert
    &&& cfg.cooler_boost.addr == Addr::Single(0x98)
    &&& cfg.cooler_boost.bit == Bit::_7
    &&& cfg.shift_mode.addr == Addr::Single(0xD2)
    &&& cfg.shift_mode.modes@ == seq![
        (ShiftMode::SuperBattery, 0xC2u8),
        (ShiftMode::Balanced, 0xC1u8),
        (ShiftMode::ExtremePerformance, 0xC0u8),
        (ShiftMode::Turbo, 0xC4u8),
        (ShiftMode::Null, 0x00u8),
    ]
    &&& cfg.super_battery.addr == Addr::Single(0xEB)
    &&& cfg.super_battery.mask == 0x0F
    &&& cfg.fan_mode.addr == Addr::Single(0xD4)
    &&& cfg.fan_mode.modes@ == seq![
        (FanMode::Auto, 0x0Du8),
        (FanMode::Silent, 0x1Du8),
        (FanMode::Advanced, 0x8Du8),
        (FanMode::Null, 0x00u8),
    ]
    &&& cfg.cpu.rt_temp_addr == Addr::Single(0x68)
    &&& cfg.cpu.rt_fan_speed_addr == Addr::Single(0x71)
    &&& cfg.gpu.rt_temp_addr == Addr::Single(0x80)
    &&& cfg.gpu.rt_fan_speed_addr == Addr::Single(0x89)
    &&& cfg.leds.mic_mute_led_addr == Addr::Single(0x2C)
    &&& cfg.leds.mute_led_addr == Addr::Single(0x2D)
    &&& cfg.leds.bit == Bit::_1
    &&& cfg.kbd_bl.bl_mode_addr == Addr::Unsupported
    &&& cfg.kbd_bl.bl_modes@ == seq![0x00u8, 0x08u8]
    &&& cfg.kbd_bl.max_mode == 1
    &&& cfg.kbd_bl.bl_state_addr == Addr::Unsupported
    &&& cfg.kbd_bl.state_base_value == 0x80
    &&& cfg.kbd_bl.max_state == 3
    &&& cfg.fan_rpm.fan1_addr == 0xC8
    &&& cfg.fan_rpm.fan2_addr == 0xCA
    &&& cfg.fan_rpm.fan3_addr == 0xCC
    &&& cfg.fan_rpm.fan4_addr == 0xCE
    &&& cfg.cpu_fan_curve.addr == Addr::Single(0x72)
    &&& cfg.cpu_temp_curve.addr == Addr::Single(0x69)
    &&& cfg.cpu_hysteresis_curve.addr == Addr::Single(0x7A)
    &&& cfg.gpu_fan_curve.addr == Addr::Single(0x8A)
    &&& cfg.gpu_temp_curve.addr == Addr::Single(0x81)
    &&& cfg.gpu_hysteresis_curve.addr == Addr::Single(0x92)
}

/// The G2_10 layout.
pub fn config() -> (r: FwConfig)
    ensures
        is_g2_10(r),
{
    let allowed_fw: Vec<&'static str> = vec![
        "1562EMS1.117",
        "1563EMS1.106",
        "1563EMS1.111",
        "1563EMS1.115",
        "1571EMS1.106",
        "1572EMS1.106",
        "1572EMS1.107",
        "1587EMS1.102",
        "15F2EMS1.109",
        "15F4EMS1.105",
        "15F4EMS1.106",
        "15FKIMS1.106",
        "15FKIMS1.109",
        "15FKIMS1.110",
        "15FLIMS1.107",
        "15K2EMS1.106",
        "15M1IMS1.109",
        "15M1IMS1.110",
        "15M1IMS1.113",
        "15M1IMS2.104",
        "15M1IMS2.105",
        "15M1IMS2.111",
        "15M1IMS2.112",
        "15M2IMS2.112",
        "15M2IMS1.110",
        "15M2IMS1.112",
        "15M2IMS1.113",
        "15M2IMS1.114",
        "15M3EMS1.105",
        "15M3EMS1.106",
        "15M3EMS1.107",
        "15M3EMS1.109",
        "15M3EMS1.110",
        "15M3EMS1.112",
        "15M3EMS1.113",
        "15P2EMS1.108",
        "15P2EMS1.110",
        "15P3EMS1.103",
        "15P3EMS1.106",
        "15P3EMS1.107",
        "15P4EMS1.105",
        "15P4EMS1.107",
        "17L5EMS1.111",
        "17L5EMS1.113",
        "17L5EMS1.115",
        "17L5EMS2.115",
        "17L7EMS1.102",
        "17N1EMS1.109",
        "17P1EMS1.104",
        "17P1EMS1.106",
        "17P2EMS1.111",
        "17Q1IMS1.10C",
        "17Q2IMS1.107",
        "17Q2IMS1.10D",
        "17S1IMS1.105",
        "17S1IMS1.113",
        "17S1IMS1.114",
        "17S1IMS2.104",
        "17S1IMS2.107",
        "17S1IMS2.111",
        "17S1IMS2.112",
        "17S2IMS1.113",
        "17S3EMS1.104",
        "17T2EMS1.110",
        "1822EMS1.105",
        "1822EMS1.109",
        "1822EMS1.111",
        "1822EMS1.112",
        "1822EMS1.114",
        "1822EMS1.115",
        "1824EMS1.107",
        "182LIMS1.108",
        "182LIMS1.111",
        "182KIMS1.113"
    ];
    let shift_modes = vec![
        (ShiftMode::SuperBattery, 0xC2u8),
        (ShiftMode::Balanced, 0xC1u8),
        (ShiftMode::ExtremePerformance, 0xC0u8),
        (ShiftMode::Turbo, 0xC4u8),
        (ShiftMode::Null, 0x00u8),
    ];
    let fan_modes = vec![
        (FanMode::Auto, 0x0Du8),
        (FanMode::Silent, 0x1Du8),
        (FanMode::Advanced, 0x8Du8),
        (FanMode::Null, 0x00u8),
    ];
    let bl_modes = vec![0x00u8, 0x08u8];
    let r = FwConfig {
        allowed_fw,
        ver: WmiVer::Wmi2,
        charge_control_addr: Addr::Single(0xD7),
        webcam: WebcamConfig { addr: Addr::Single(0x2E), block_addr: Addr::Single(0x2F), bit: Bit::_1 },
        fn_win_swap: FnWinSwap { addr: Addr::Single(0xE8), bit: Bit::_4, invert: true },
        cooler_boost: CoolerBoostConfig { addr: Addr::Single(0x98), bit: Bit::_7 },
        shift_mode: ShiftModeConfig { addr: Addr::Single(0xD2), modes: shift_modes },
        super_battery: SuperBatteryConfig { addr: Addr::Single(0xEB), mask: 0x0F },
        fan_mode: FanModeConfig { addr: Addr::Single(0xD4), modes: fan_modes },
        cpu: Thermal { rt_temp_addr: Addr::Single(0x68), rt_fan_speed_addr: Addr::Single(0x71) },
        gpu: Thermal { rt_temp_addr: Addr::Single(0x80), rt_fan_speed_addr: Addr::Single(0x89) },
        leds: Leds {
            mic_mute_led_addr: Addr::Single(0x2C),
            mute_led_addr: Addr::Single(0x2D),
            bit: Bit::_1,
        },
        kbd_bl: KbdBl {
            bl_mode_addr: Addr::Unsupported,
            bl_modes,
            max_mode: 1,
            bl_state_addr: Addr::Unsupported,
            state_base_value: 0x80,
            max_state: 3,
        },
        fan_rpm: FanRpm { fan1_addr: 0xC8, fan2_addr: 0xCA, fan3_addr: 0xCC, fan4_addr: 0xCE },
        // 0x72-0x78
        cpu_fan_curve: Curve { addr: Addr::Single(0x72) },
        // 0x69-0x6F
        cpu_temp_curve: Curve { addr: Addr::Single(0x69) },
        // 0x7A-0x7F
        cpu_hysteresis_curve: Curve { addr: Addr::Single(0x7A) },
        // 0x8A-0x90
        gpu_fan_curve: Curve { addr: Addr::Single(0x8A) },
        // 0x81-0x87
        gpu_temp_curve: Curve { addr: Addr::Single(0x81) },
        // 0x92-0x97
        gpu_hysteresis_curve: Curve { addr: Addr::Single(0x92) },
    };
    assert(r.allowed_fw@.map_values(|s: &str| s@) =~= spec_firmwares());
    r
}

} // verus!
