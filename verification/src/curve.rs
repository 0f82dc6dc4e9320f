//! Thermal sampling and the open-loop fan curve: reduce the two temperature
//! sensors to one reading, map a temperature to a duty-cycle percentage by a
//! fixed step table, scale that percentage into raw per-fan register values,
//! and plan the performance-hint write that accompanies every curve run.

use vstd::prelude::*;

use crate::mode::{DEFAULT_MODE_CODE, PERFORMANCE_MODE_CODE};
use crate::registers::{RegWrite, RegisterOffset, FanSpeedPair, FAN1_MAX, FAN2_MAX};

verus! {

/// Temperature at and above which the performance hint switches to the hot
/// code.
pub const PERF_HINT_HOT_TEMP: u8 = 86;

/// One thermal reading: the hotter of the CPU and GPU sensor bytes.
pub open spec fn spec_max_temp(cpu: u8, gpu: u8) -> u8 {
    if cpu >= gpu {
        cpu
    } else {
        gpu
    }
}

/// Reduce the two temperature sensor bytes to one reading, the maximum, so
/// the curve protects whichever component is hotter.
pub fn get_max_temp(cpu_temp: u8, gpu_temp: u8) -> (t: u8)
    ensures
        t == spec_max_temp(cpu_temp, gpu_temp),
        t >= cpu_temp && t >= gpu_temp,
{
    if cpu_temp >= gpu_temp {
        cpu_temp
    } else {
        gpu_temp
    }
}

/// The fan curve's step table: duty-cycle percentage for a temperature.
pub open spec fn spec_curve_percent(temp: u8) -> u8 {
    if temp <= 45 {
        0
    } else if temp <= 50 {
        20
    } else if temp <= 55 {
        37
    } else if temp <= 70 {
        45
    } else if temp <= 75 {
        50
    } else if temp <= 80 {
        70
    } else if temp <= 85 {
        80
    } else if temp <= 92 {
        90
    } else {
        100
    }
}

/// Duty-cycle percentage the fan curve assigns to a temperature.
pub fn curve_speed_percent(temp: u8) -> (percent: u8)
    ensures
        percent == spec_curve_percent(temp),
        percent <= 100,
{
    if temp <= 45 {
        0
    } else if temp <= 50 {
        20
    } else if temp <= 55 {
        37
    } else if temp <= 70 {
        45
    } else if temp <= 75 {
        50
    } else if temp <= 80 {
        70
    } else if temp <= 85 {
        80
    } else if temp <= 92 {
        90
    } else {
        100
    }
}

/// Raw register value for one fan: its maximum scaled by the percentage,
/// rounded down.
pub open spec fn spec_raw_speed(fan_max: u8, percent: u8) -> u8 {
    ((fan_max as int) * (percent as int) / 100) as u8
}

/// The raw register pair the curve assigns to a duty-cycle percentage.
pub open spec fn spec_raw_pair(percent: u8) -> FanSpeedPair {
    FanSpeedPair {
        fan1: spec_raw_speed(FAN1_MAX, percent),
        fan2: spec_raw_speed(FAN2_MAX, percent),
    }
}

/// Scale each fan's maximum raw speed by the duty-cycle percentage.
pub fn to_raw_pair(percent: u8) -> (pair: FanSpeedPair)
    requires
        percent <= 100,
    ensures
        pair == spec_raw_pair(percent),
        pair.wf(),
{
    proof {
        assert((FAN1_MAX as int) * (percent as int) <= 5500) by (nonlinear_arith)
            requires
                percent <= 100,
        ;
        assert((FAN2_MAX as int) * (percent as int) <= 5700) by (nonlinear_arith)
            requires
                percent <= 100,
        ;
    }
    let fan1: u8 = ((FAN1_MAX as u16 * percent as u16) / 100) as u8;
    let fan2: u8 = ((FAN2_MAX as u16 * percent as u16) / 100) as u8;
    FanSpeedPair { fan1, fan2 }
}

/// Code the performance hint writes: the vendor-default code when hot, the
/// performance code otherwise.
pub open spec fn spec_perf_hint_code(temp: u8) -> u8 {
    if temp >= PERF_HINT_HOT_TEMP {
        DEFAULT_MODE_CODE
    } else {
        PERFORMANCE_MODE_CODE
    }
}

/// Performance-hint step that accompanies every curve evaluation: plan the
/// PerformanceControl write for the current temperature, and report the
/// level byte the hint is tuned for (93 when hot, 80 otherwise).
pub fn temp_to_performance(temp: u8) -> (r: (RegWrite, u8))
    ensures
        r.0 == (RegWrite { reg: RegisterOffset::PerformanceControl, value: spec_perf_hint_code(temp) }),
        r.1 == (if temp >= PERF_HINT_HOT_TEMP { 93u8 } else { 80u8 }),
{
    if temp >= PERF_HINT_HOT_TEMP {
        (RegWrite { reg: RegisterOffset::PerformanceControl, value: DEFAULT_MODE_CODE }, 93)
    } else {
        (RegWrite { reg: RegisterOffset::PerformanceControl, value: PERFORMANCE_MODE_CODE }, 80)
    }
}

/// Law: the curve is silent below 46 degrees, saturated from 93 degrees up,
/// and never exceeds 100 percent.
pub proof fn lemma_curve_endpoints(temp: u8)
    ensures
        temp < 46 ==> spec_curve_percent(temp) == 0,
        temp >= 93 ==> spec_curve_percent(temp) == 100,
        spec_curve_percent(temp) <= 100,
{
}

/// Law: the curve is monotone non-decreasing across the whole table.
pub proof fn lemma_curve_monotone(t1: u8, t2: u8)
    requires
        t1 <= t2,
    ensures
        spec_curve_percent(t1) <= spec_curve_percent(t2),
{
}

/// Law: for any percentage up to 100 the scaled pair respects both fans'
/// maxima.
pub proof fn lemma_raw_pair_wf(percent: u8)
    requires
        percent <= 100,
    ensures
        spec_raw_pair(percent).wf(),
{
}

} // verus!
