//! The per-tick control decision. Each polling tick the loop reads the
//! performance register, the requested-mode cell and both temperature
//! sensors, and `tick` turns those into an ordered plan of register writes
//! plus the state carried to the next tick: the last fan pair written (for
//! the no-redundant-write rule) and whether the thermal override is active.
//!
//! A tick has two phases. Mode reconciliation: a requested `Custom` mode
//! disables BIOS control, runs the fan curve and the performance hint every
//! tick; any other requested mode is written to the performance register
//! only when it differs from what the EC reports. Safety override: outside
//! `Custom`, a reading above the throttle threshold seizes the fans with a
//! fixed emergency pair and disables BIOS control, and any cooler reading
//! hands control back to the firmware.

use vstd::prelude::*;

use crate::curve::{
    curve_speed_percent, get_max_temp, spec_curve_percent, spec_max_temp, spec_perf_hint_code,
    spec_raw_pair, temp_to_performance, to_raw_pair, PERF_HINT_HOT_TEMP,
};
use crate::mode::{Mode, DEFAULT_MODE_CODE};
use crate::registers::{
    apply_bios_mode, disable_bios_control, enable_bios_control, set_fan_speed,
    spec_bios_control_write, spec_fan_speed_writes, BiosControlState, FanSpeedPair, RegWrite,
    RegisterOffset,
};

verus! {

/// Temperature strictly above which the safety override engages.
pub const THROTTLE_TEMP: u8 = 95;

/// Raw emergency speed for fan 1 while the override holds the fans.
pub const EMERGENCY_FAN1: u8 = 46;

/// Raw emergency speed for fan 2 while the override holds the fans.
pub const EMERGENCY_FAN2: u8 = 44;

/// State the control loop carries from one tick to the next.
#[derive(Clone, Copy, PartialEq, Eq, Structural, Debug)]
pub struct ControlState {
    /// Last fan-speed pair actually written to the hardware.
    pub previous_speed: FanSpeedPair,
    /// True while the thermal safety override is holding the fans.
    pub throttling: bool,
}

impl ControlState {
    /// The carried fan pair stays within both fans' maxima.
    pub open spec fn wf(self) -> bool {
        self.previous_speed.wf()
    }

    /// Startup state: nothing written yet, override inactive.
    pub fn new() -> (s: ControlState)
        ensures
            s == (ControlState {
                previous_speed: (FanSpeedPair { fan1: 0, fan2: 0 }),
                throttling: false,
            }),
            s.wf(),
    {
        ControlState { previous_speed: FanSpeedPair { fan1: 0, fan2: 0 }, throttling: false }
    }
}

/// The fixed emergency pair the override writes.
pub open spec fn spec_emergency_pair() -> FanSpeedPair {
    FanSpeedPair { fan1: EMERGENCY_FAN1, fan2: EMERGENCY_FAN2 }
}

/// What drives the fans this tick: the curve's pair in `Custom`, the
/// emergency pair above the threshold elsewhere, or nothing (the firmware).
pub open spec fn spec_fan_target(requested: Mode, temp: u8) -> Option<FanSpeedPair> {
    if requested == Mode::Custom {
        Some(spec_raw_pair(spec_curve_percent(temp)))
    } else if temp > THROTTLE_TEMP {
        Some(spec_emergency_pair())
    } else {
        None
    }
}

/// Whether a driven pair differs from the last pair written.
pub open spec fn spec_pair_changed(prev: FanSpeedPair, target: Option<FanSpeedPair>) -> bool {
    match target {
        Some(t) => t != prev,
        None => false,
    }
}

/// Fan writes of the tick: the driven pair when it differs from the last
/// written one, else none (the no-redundant-write rule).
pub open spec fn spec_fan_writes(prev: FanSpeedPair, target: Option<FanSpeedPair>) -> Seq<
    RegWrite,
> {
    match target {
        Some(t) => if t != prev {
            spec_fan_speed_writes(t.fan1, t.fan2)
        } else {
            Seq::empty()
        },
        None => Seq::empty(),
    }
}

/// Mode-reconciliation and BIOS-control writes of the tick, in order.
pub open spec fn spec_head_writes(requested: Mode, current: Mode, temp: u8) -> Seq<RegWrite> {
    if requested == Mode::Custom {
        seq![
            spec_bios_control_write(BiosControlState::Disabled),
            RegWrite { reg: RegisterOffset::PerformanceControl, value: spec_perf_hint_code(temp) },
        ]
    } else {
        (if requested != current {
            seq![RegWrite { reg: RegisterOffset::PerformanceControl, value: requested.spec_encode() }]
        } else {
            Seq::empty()
        }) + (if temp > THROTTLE_TEMP {
            seq![spec_bios_control_write(BiosControlState::Disabled)]
        } else {
            seq![spec_bios_control_write(BiosControlState::Enabled)]
        })
    }
}

/// Every write of the tick, in the order it must reach the hardware.
pub open spec fn spec_tick_writes(
    prev: FanSpeedPair,
    requested: Mode,
    current: Mode,
    temp: u8,
) -> Seq<RegWrite> {
    spec_head_writes(requested, current, temp) + spec_fan_writes(
        prev,
        spec_fan_target(requested, temp),
    )
}

/// The last-written pair carried to the next tick.
pub open spec fn spec_next_speed(prev: FanSpeedPair, requested: Mode, temp: u8) -> FanSpeedPair {
    match spec_fan_target(requested, temp) {
        Some(t) => t,
        None => prev,
    }
}

/// Whether the safety override is active after the tick.
pub open spec fn spec_throttling(requested: Mode, temp: u8) -> bool {
    requested != Mode::Custom && temp > THROTTLE_TEMP
}

/// What one tick decided: the write plan and whether the override just
/// engaged (worth one log line, no more).
pub struct TickOutput {
    /// Register writes to perform this tick, in order.
    pub writes: Vec<RegWrite>,
    /// True exactly on the tick where the override turns on.
    pub announce_throttle: bool,
}

/// One control-loop iteration: mode reconciliation, then the safety
/// override. Takes the raw performance-register byte, the requested mode
/// and both sensor bytes; returns the tick's write plan and updates the
/// carried state.
pub fn tick(
    st: &mut ControlState,
    requested: Mode,
    current_perf_raw: u8,
    cpu_temp: u8,
    gpu_temp: u8,
) -> (out: TickOutput)
    requires
        requested != Mode::Undefined,
        old(st).wf(),
    ensures
        ({
            let temp = spec_max_temp(cpu_temp, gpu_temp);
            let current = Mode::spec_decode(current_perf_raw);
            &&& out.writes@ == spec_tick_writes(old(st).previous_speed, requested, current, temp)
            &&& final(st).previous_speed == spec_next_speed(
                old(st).previous_speed,
                requested,
                temp,
            )
            &&& final(st).throttling == spec_throttling(requested, temp)
            &&& out.announce_throttle == (spec_throttling(requested, temp)
                && !old(st).throttling)
            &&& final(st).wf()
        }),
{
    let temp = get_max_temp(cpu_temp, gpu_temp);
    let mut writes: Vec<RegWrite> = Vec::new();
    let mut target: Option<FanSpeedPair> = None;

    if requested == Mode::Custom {
        writes.push(disable_bios_control());
        let hint = temp_to_performance(temp);
        writes.push(hint.0);
        let percent = curve_speed_percent(temp);
        target = Some(to_raw_pair(percent));
    } else {
        let current = Mode::decode(current_perf_raw);
        if requested != current {
            writes.push(apply_bios_mode(requested.encode()));
        }
        if temp > THROTTLE_TEMP {
            writes.push(disable_bios_control());
            target = Some(FanSpeedPair { fan1: EMERGENCY_FAN1, fan2: EMERGENCY_FAN2 });
        } else {
            writes.push(enable_bios_control());
        }
    }

    match target {
        Some(t) => {
            if t != st.previous_speed {
                let mut fan_writes = set_fan_speed(t.fan1, t.fan2);
                writes.append(&mut fan_writes);
            }
            st.previous_speed = t;
        },
        None => {},
    }

    let throttling_now = requested != Mode::Custom && temp > THROTTLE_TEMP;
    let announce_throttle = throttling_now && !st.throttling;
    st.throttling = throttling_now;

    proof {
        assert(writes@ =~= spec_tick_writes(
            old(st).previous_speed,
            requested,
            Mode::spec_decode(current_perf_raw),
            spec_max_temp(cpu_temp, gpu_temp),
        ));
    }
    TickOutput { writes, announce_throttle }
}

/// True when some write of the plan touches `reg`.
pub open spec fn spec_writes_to(ws: Seq<RegWrite>, reg: RegisterOffset) -> bool {
    exists|i: int| 0 <= i < ws.len() && ws[i].reg == reg
}

/// Every mode-reconciliation write touches only the BiosControl or the
/// PerformanceControl register, never a fan register.
pub proof fn lemma_head_writes_regs(requested: Mode, current: Mode, temp: u8)
    ensures
        forall|i: int|
            0 <= i < spec_head_writes(requested, current, temp).len() ==> {
                let r = (#[trigger] spec_head_writes(requested, current, temp)[i]).reg;
                r == RegisterOffset::BiosControl || r == RegisterOffset::PerformanceControl
            },
{
}

/// Law: the fan pair reaches the hardware exactly when it differs from the
/// last pair written. When it does, the plan carries both fan writes with
/// the new pair's values; when it does not, no write of the tick touches a
/// fan register.
pub proof fn lemma_fan_rewrite_iff_changed(
    prev: FanSpeedPair,
    requested: Mode,
    current: Mode,
    temp: u8,
)
    ensures
        ({
            let ws = spec_tick_writes(prev, requested, current, temp);
            let target = spec_fan_target(requested, temp);
            &&& (spec_writes_to(ws, RegisterOffset::Fan1Speed) <==> spec_pair_changed(
                prev,
                target,
            ))
            &&& (spec_writes_to(ws, RegisterOffset::Fan2Speed) <==> spec_pair_changed(
                prev,
                target,
            ))
            &&& spec_pair_changed(prev, target) ==> ws.contains(
                (RegWrite {
                    reg: RegisterOffset::Fan1Speed,
                    value: spec_next_speed(prev, requested, temp).fan1,
                }),
            ) && ws.contains(
                (RegWrite {
                    reg: RegisterOffset::Fan2Speed,
                    value: spec_next_speed(prev, requested, temp).fan2,
                }),
            )
        }),
{
    let head = spec_head_writes(requested, current, temp);
    let target = spec_fan_target(requested, temp);
    let fans = spec_fan_writes(prev, target);
    let ws = spec_tick_writes(prev, requested, current, temp);
    lemma_head_writes_regs(requested, current, temp);
    if spec_pair_changed(prev, target) {
        let t = target->Some_0;
        assert(ws[head.len() as int] == (RegWrite { reg: RegisterOffset::Fan1Speed, value: t.fan1 }));
        assert(ws[head.len() as int + 1] == (RegWrite { reg: RegisterOffset::Fan2Speed, value: t.fan2 }));
    } else {
        assert(fans.len() == 0);
        assert forall|i: int| 0 <= i < ws.len() implies (#[trigger] ws[i]).reg
            != RegisterOffset::Fan1Speed && ws[i].reg != RegisterOffset::Fan2Speed by {
            assert(ws[i] == head[i]);
        }
    }
}

/// Law: while `Custom` is requested, the tick disables BIOS control, never
/// enables it, whatever the temperature; the independent performance hint
/// fires every such tick, and from the hot threshold up it carries the hot
/// code.
pub proof fn lemma_custom_keeps_bios_disabled(prev: FanSpeedPair, current: Mode, temp: u8)
    ensures
        ({
            let ws = spec_tick_writes(prev, Mode::Custom, current, temp);
            &&& ws.contains(spec_bios_control_write(BiosControlState::Disabled))
            &&& !ws.contains(spec_bios_control_write(BiosControlState::Enabled))
            &&& ws.contains(
                (RegWrite {
                    reg: RegisterOffset::PerformanceControl,
                    value: spec_perf_hint_code(temp),
                }),
            )
            &&& temp >= PERF_HINT_HOT_TEMP ==> ws.contains(
                (RegWrite { reg: RegisterOffset::PerformanceControl, value: DEFAULT_MODE_CODE }),
            )
        }),
{
    let ws = spec_tick_writes(prev, Mode::Custom, current, temp);
    assert(ws[0] == spec_bios_control_write(BiosControlState::Disabled));
    assert(ws[1] == (RegWrite {
        reg: RegisterOffset::PerformanceControl,
        value: spec_perf_hint_code(temp),
    }));
    assert forall|i: int| 0 <= i < ws.len() implies (#[trigger] ws[i])
        != spec_bios_control_write(BiosControlState::Enabled) by {
        if i >= 2 {
            let fans = spec_fan_writes(prev, spec_fan_target(Mode::Custom, temp));
            assert(ws[i] == fans[i - 2]);
        }
    }
}

/// Law: above the throttle threshold outside `Custom`, the tick disables
/// BIOS control, never enables it, and forces the emergency pair: it
/// becomes the carried pair, and it reaches the hardware whenever the last
/// written pair was anything else.
pub proof fn lemma_override_forces_emergency(
    prev: FanSpeedPair,
    requested: Mode,
    current: Mode,
    temp: u8,
)
    requires
        requested != Mode::Custom,
        temp > THROTTLE_TEMP,
    ensures
        ({
            let ws = spec_tick_writes(prev, requested, current, temp);
            &&& ws.contains(spec_bios_control_write(BiosControlState::Disabled))
            &&& !ws.contains(spec_bios_control_write(BiosControlState::Enabled))
            &&& spec_next_speed(prev, requested, temp) == spec_emergency_pair()
            &&& spec_throttling(requested, temp)
            &&& prev != spec_emergency_pair() ==> ws.contains(
                (RegWrite { reg: RegisterOffset::Fan1Speed, value: EMERGENCY_FAN1 }),
            ) && ws.contains(
                (RegWrite { reg: RegisterOffset::Fan2Speed, value: EMERGENCY_FAN2 }),
            )
        }),
{
    let head = spec_head_writes(requested, current, temp);
    let ws = spec_tick_writes(prev, requested, current, temp);
    assert(ws[head.len() - 1] == spec_bios_control_write(BiosControlState::Disabled));
    if prev != spec_emergency_pair() {
        assert(ws[head.len() as int] == (RegWrite {
            reg: RegisterOffset::Fan1Speed,
            value: EMERGENCY_FAN1,
        }));
        assert(ws[head.len() as int + 1] == (RegWrite {
            reg: RegisterOffset::Fan2Speed,
            value: EMERGENCY_FAN2,
        }));
    }
    assert forall|i: int| 0 <= i < ws.len() implies (#[trigger] ws[i])
        != spec_bios_control_write(BiosControlState::Enabled) by {
        let fans = spec_fan_writes(prev, spec_fan_target(requested, temp));
        if i < head.len() {
            assert(ws[i] == head[i]);
        } else {
            assert(ws[i] == fans[i - head.len()]);
        }
    }
}

/// Law: at or under the threshold outside `Custom`, the tick hands control
/// back to the firmware: it enables BIOS control, touches no fan register,
/// clears the override, and leaves the carried pair as it was.
pub proof fn lemma_override_releases(
    prev: FanSpeedPair,
    requested: Mode,
    current: Mode,
    temp: u8,
)
    requires
        requested != Mode::Custom,
        temp <= THROTTLE_TEMP,
    ensures
        ({
            let ws = spec_tick_writes(prev, requested, current, temp);
            &&& ws.contains(spec_bios_control_write(BiosControlState::Enabled))
            &&& !spec_writes_to(ws, RegisterOffset::Fan1Speed)
            &&& !spec_writes_to(ws, RegisterOffset::Fan2Speed)
            &&& !spec_throttling(requested, temp)
            &&& spec_next_speed(prev, requested, temp) == prev
        }),
{
    let head = spec_head_writes(requested, current, temp);
    let ws = spec_tick_writes(prev, requested, current, temp);
    assert(ws[head.len() - 1] == spec_bios_control_write(BiosControlState::Enabled));
    lemma_head_writes_regs(requested, current, temp);
    assert forall|i: int| 0 <= i < ws.len() implies (#[trigger] ws[i]).reg
        != RegisterOffset::Fan1Speed && ws[i].reg != RegisterOffset::Fan2Speed by {
        assert(ws[i] == head[i]);
    }
}

/// Law: outside `Custom`, the performance register is written exactly when
/// the requested mode differs from the one the EC reports, and then the
/// tick's first write carries the requested mode's code; a converged tick
/// plans no such write.
pub proof fn lemma_mode_write_iff_differs(
    prev: FanSpeedPair,
    requested: Mode,
    current: Mode,
    temp: u8,
)
    requires
        requested != Mode::Custom,
    ensures
        ({
            let ws = spec_tick_writes(prev, requested, current, temp);
            &&& (spec_writes_to(ws, RegisterOffset::PerformanceControl) <==> requested
                != current)
            &&& requested != current ==> ws[0] == (RegWrite {
                reg: RegisterOffset::PerformanceControl,
                value: requested.spec_encode(),
            })
        }),
{
    let head = spec_head_writes(requested, current, temp);
    let ws = spec_tick_writes(prev, requested, current, temp);
    if requested != current {
        assert(ws[0] == (RegWrite {
            reg: RegisterOffset::PerformanceControl,
            value: requested.spec_encode(),
        }));
    } else {
        assert forall|i: int| 0 <= i < ws.len() implies (#[trigger] ws[i]).reg
            != RegisterOffset::PerformanceControl by {
            let fans = spec_fan_writes(prev, spec_fan_target(requested, temp));
            if i < head.len() {
                assert(ws[i] == head[i]);
            } else {
                assert(ws[i] == fans[i - head.len()]);
            }
        }
    }
}

} // verus!
