use omen_fan::curve::{
    curve_speed_percent, get_max_temp, temp_to_performance, to_raw_pair,
};
use omen_fan::registers::{FanSpeedPair, RegWrite, RegisterOffset};

#[test]
fn curve_is_silent_below_forty_six() {
    assert_eq!(curve_speed_percent(0), 0);
    assert_eq!(curve_speed_percent(20), 0);
    assert_eq!(curve_speed_percent(45), 0);
}

#[test]
fn curve_saturates_from_ninety_three() {
    assert_eq!(curve_speed_percent(93), 100);
    assert_eq!(curve_speed_percent(120), 100);
    assert_eq!(curve_speed_percent(255), 100);
}

#[test]
fn curve_step_table_values() {
    assert_eq!(curve_speed_percent(46), 20);
    assert_eq!(curve_speed_percent(50), 20);
    assert_eq!(curve_speed_percent(51), 37);
    assert_eq!(curve_speed_percent(55), 37);
    assert_eq!(curve_speed_percent(56), 45);
    assert_eq!(curve_speed_percent(70), 45);
    assert_eq!(curve_speed_percent(71), 50);
    assert_eq!(curve_speed_percent(75), 50);
    assert_eq!(curve_speed_percent(76), 70);
    assert_eq!(curve_speed_percent(80), 70);
    assert_eq!(curve_speed_percent(81), 80);
    assert_eq!(curve_speed_percent(85), 80);
    assert_eq!(curve_speed_percent(86), 90);
    assert_eq!(curve_speed_percent(92), 90);
}

#[test]
fn curve_is_monotone_over_all_bytes() {
    let mut last = 0u8;
    let mut t: u16 = 0;
    while t <= 255 {
        let p = curve_speed_percent(t as u8);
        assert!(p >= last);
        last = p;
        t += 1;
    }
}

#[test]
fn seventy_degrees_gives_pair_twenty_four_twenty_five() {
    let percent = curve_speed_percent(70);
    assert_eq!(percent, 45);
    let pair = to_raw_pair(percent);
    assert_eq!(pair, FanSpeedPair { fan1: 24, fan2: 25 });
}

#[test]
fn raw_pair_endpoints() {
    assert_eq!(to_raw_pair(0), FanSpeedPair { fan1: 0, fan2: 0 });
    assert_eq!(to_raw_pair(100), FanSpeedPair { fan1: 55, fan2: 57 });
}

#[test]
fn max_temp_picks_the_hotter_sensor() {
    assert_eq!(get_max_temp(30, 40), 40);
    assert_eq!(get_max_temp(80, 41), 80);
    assert_eq!(get_max_temp(66, 66), 66);
}

#[test]
fn performance_hint_uses_hot_code_from_eighty_six() {
    let (write, level) = temp_to_performance(86);
    assert_eq!(
        write,
        RegWrite { reg: RegisterOffset::PerformanceControl, value: 0x30 }
    );
    assert_eq!(level, 93);

    let (write, level) = temp_to_performance(85);
    assert_eq!(
        write,
        RegWrite { reg: RegisterOffset::PerformanceControl, value: 0x31 }
    );
    assert_eq!(level, 80);
}
