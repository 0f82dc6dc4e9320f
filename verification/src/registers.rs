//! The register access layer's data model: the fixed offset table of the
//! byte-wide EC registers this hardware family exposes, and `RegWrite`, one
//! pending single-byte write. The functions here build write plans; carrying
//! them out is the caller's job.

use vstd::prelude::*;

verus! {

/// Maximum raw speed value of fan 1 (units of 100 RPM).
pub const FAN1_MAX: u8 = 55;

/// Maximum raw speed value of fan 2 (units of 100 RPM).
pub const FAN2_MAX: u8 = 57;

/// One byte-wide EC register, named after its role.
#[derive(Clone, Copy, PartialEq, Eq, Structural, Debug)]
pub enum RegisterOffset {
    PerformanceControl,
    Fan1Speed,
    Fan2Speed,
    CpuTemp,
    GpuTemp,
    BiosControl,
}

impl RegisterOffset {
    /// The hand-measured offset table for this hardware family.
    pub open spec fn spec_offset(self) -> u64 {
        match self {
            RegisterOffset::PerformanceControl => 0x95,
            RegisterOffset::Fan1Speed => 0x34,
            RegisterOffset::Fan2Speed => 0x35,
            RegisterOffset::CpuTemp => 0x57,
            RegisterOffset::GpuTemp => 0xB7,
            RegisterOffset::BiosControl => 0x62,
        }
    }

    /// Byte offset of this register in the EC's address space.
    pub fn offset(self) -> (o: u64)
        ensures
            o == self.spec_offset(),
    {
        match self {
            RegisterOffset::PerformanceControl => 0x95,
            RegisterOffset::Fan1Speed => 0x34,
            RegisterOffset::Fan2Speed => 0x35,
            RegisterOffset::CpuTemp => 0x57,
            RegisterOffset::GpuTemp => 0xB7,
            RegisterOffset::BiosControl => 0x62,
        }
    }
}

/// Whether the EC firmware itself is allowed to drive the fans.
#[derive(Clone, Copy, PartialEq, Eq, Structural, Debug)]
pub enum BiosControlState {
    Enabled,
    Disabled,
}

impl BiosControlState {
    /// Raw byte written to the BiosControl register for each state.
    pub open spec fn spec_code(self) -> u8 {
        match self {
            BiosControlState::Enabled => 0x00,
            BiosControlState::Disabled => 0x06,
        }
    }

    /// Raw byte written to the BiosControl register for this state.
    pub fn code(self) -> (c: u8)
        ensures
            c == self.spec_code(),
    {
        match self {
            BiosControlState::Enabled => 0x00,
            BiosControlState::Disabled => 0x06,
        }
    }
}

/// One pending single-byte write to an EC register.
#[derive(Clone, Copy, PartialEq, Eq, Structural, Debug)]
pub struct RegWrite {
    pub reg: RegisterOffset,
    pub value: u8,
}

/// Raw fan-speed register values for the two fans, in register order.
#[derive(Clone, Copy, PartialEq, Eq, Structural, Debug)]
pub struct FanSpeedPair {
    pub fan1: u8,
    pub fan2: u8,
}

impl FanSpeedPair {
    /// Each raw value stays within its fan's maximum.
    pub open spec fn wf(self) -> bool {
        self.fan1 <= FAN1_MAX && self.fan2 <= FAN2_MAX
    }
}

/// The write pair that sets both fan speed registers, fan 1 first.
pub open spec fn spec_fan_speed_writes(fan1: u8, fan2: u8) -> Seq<RegWrite> {
    seq![
        RegWrite { reg: RegisterOffset::Fan1Speed, value: fan1 },
        RegWrite { reg: RegisterOffset::Fan2Speed, value: fan2 },
    ]
}

/// The write to the BiosControl register that puts it in `state`.
pub open spec fn spec_bios_control_write(state: BiosControlState) -> RegWrite {
    RegWrite { reg: RegisterOffset::BiosControl, value: state.spec_code() }
}

/// Plan the writes that set both fan speed registers, fan 1 first.
pub fn set_fan_speed(fan1_speed: u8, fan2_speed: u8) -> (w: Vec<RegWrite>)
    ensures
        w@ == spec_fan_speed_writes(fan1_speed, fan2_speed),
{
    let mut w: Vec<RegWrite> = Vec::new();
    w.push(RegWrite { reg: RegisterOffset::Fan1Speed, value: fan1_speed });
    w.push(RegWrite { reg: RegisterOffset::Fan2Speed, value: fan2_speed });
    proof {
        assert(w@ =~= spec_fan_speed_writes(fan1_speed, fan2_speed));
    }
    w
}

/// Plan the write that takes fan control away from the EC firmware.
pub fn disable_bios_control() -> (w: RegWrite)
    ensures
        w == spec_bios_control_write(BiosControlState::Disabled),
{
    RegWrite { reg: RegisterOffset::BiosControl, value: 0x06 }
}

/// Plan the write that hands fan control back to the EC firmware.
pub fn enable_bios_control() -> (w: RegWrite)
    ensures
        w == spec_bios_control_write(BiosControlState::Enabled),
{
    RegWrite { reg: RegisterOffset::BiosControl, value: 0x00 }
}

/// Plan the write that sets the EC's performance register to a raw mode code.
pub fn apply_bios_mode(mode_code: u8) -> (w: RegWrite)
    ensures
        w == (RegWrite { reg: RegisterOffset::PerformanceControl, value: mode_code }),
{
    RegWrite { reg: RegisterOffset::PerformanceControl, value: mode_code }
}

} // verus!
