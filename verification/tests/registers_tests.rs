use omen_fan::registers::{
    apply_bios_mode, disable_bios_control, enable_bios_control, set_fan_speed, BiosControlState,
    RegWrite, RegisterOffset,
};

#[test]
fn offset_table_matches_the_hardware() {
    assert_eq!(RegisterOffset::PerformanceControl.offset(), 0x95);
    assert_eq!(RegisterOffset::Fan1Speed.offset(), 0x34);
    assert_eq!(RegisterOffset::Fan2Speed.offset(), 0x35);
    assert_eq!(RegisterOffset::CpuTemp.offset(), 0x57);
    assert_eq!(RegisterOffset::GpuTemp.offset(), 0xB7);
    assert_eq!(RegisterOffset::BiosControl.offset(), 0x62);
}

#[test]
fn bios_control_codes() {
    assert_eq!(BiosControlState::Enabled.code(), 0x00);
    assert_eq!(BiosControlState::Disabled.code(), 0x06);
}

#[test]
fn fan_speed_plan_writes_both_fans_in_order() {
    let writes = set_fan_speed(24, 25);
    assert_eq!(
        writes,
        vec![
            RegWrite { reg: RegisterOffset::Fan1Speed, value: 24 },
            RegWrite { reg: RegisterOffset::Fan2Speed, value: 25 },
        ]
    );
}

#[test]
fn bios_control_plans() {
    assert_eq!(
        disable_bios_control(),
        RegWrite { reg: RegisterOffset::BiosControl, value: 0x06 }
    );
    assert_eq!(
        enable_bios_control(),
        RegWrite { reg: RegisterOffset::BiosControl, value: 0x00 }
    );
}

#[test]
fn mode_plan_targets_the_performance_register() {
    assert_eq!(
        apply_bios_mode(0x31),
        RegWrite { reg: RegisterOffset::PerformanceControl, value: 0x31 }
    );
}
