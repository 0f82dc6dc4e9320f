//! The operating modes of the EC's thermal policy and their two
//! representations: the raw byte kept in the performance register and the
//! human-facing label. Both round-trip for every mode the EC can be asked
//! for; a byte outside the table decodes to `Undefined`, which is never a
//! valid write target.

use vstd::prelude::*;

verus! {

/// Raw EC code of the vendor-default mode.
pub const DEFAULT_MODE_CODE: u8 = 0x30;

/// Raw EC code of the performance mode.
pub const PERFORMANCE_MODE_CODE: u8 = 0x31;

/// Raw EC code of the cool mode.
pub const COOL_MODE_CODE: u8 = 0x50;

/// Sentinel code of the software-driven custom mode; never read back from
/// the EC's own tables.
pub const CUSTOM_MODE_CODE: u8 = 0x00;

/// A thermal policy the user can select, plus `Undefined` for a read-back
/// byte outside the known mapping.
#[derive(Clone, Copy, PartialEq, Eq, Structural, Debug)]
pub enum Mode {
    Default,
    Performance,
    Cool,
    Custom,
    Undefined,
}

impl Mode {
    /// Raw EC byte for this mode. `Undefined` has no writable code; it
    /// shares the custom sentinel only so the function is total.
    pub open spec fn spec_encode(self) -> u8 {
        match self {
            Mode::Default => DEFAULT_MODE_CODE,
            Mode::Performance => PERFORMANCE_MODE_CODE,
            Mode::Cool => COOL_MODE_CODE,
            Mode::Custom => CUSTOM_MODE_CODE,
            Mode::Undefined => CUSTOM_MODE_CODE,
        }
    }

    /// Mode for a raw EC byte; anything outside the table is `Undefined`.
    pub open spec fn spec_decode(code: u8) -> Mode {
        if code == DEFAULT_MODE_CODE {
            Mode::Default
        } else if code == PERFORMANCE_MODE_CODE {
            Mode::Performance
        } else if code == COOL_MODE_CODE {
            Mode::Cool
        } else if code == CUSTOM_MODE_CODE {
            Mode::Custom
        } else {
            Mode::Undefined
        }
    }

    /// Raw EC byte for a mode that may be written to the hardware.
    pub fn encode(self) -> (code: u8)
        requires
            self != Mode::Undefined,
        ensures
            code == self.spec_encode(),
    {
        match self {
            Mode::Default => DEFAULT_MODE_CODE,
            Mode::Performance => PERFORMANCE_MODE_CODE,
            Mode::Cool => COOL_MODE_CODE,
            Mode::Custom => CUSTOM_MODE_CODE,
            Mode::Undefined => CUSTOM_MODE_CODE,
        }
    }

    /// Decode a raw EC byte, treating anything unknown as `Undefined`.
    pub fn decode(code: u8) -> (m: Mode)
        ensures
            m == Mode::spec_decode(code),
    {
        if code == DEFAULT_MODE_CODE {
            Mode::Default
        } else if code == PERFORMANCE_MODE_CODE {
            Mode::Performance
        } else if code == COOL_MODE_CODE {
            Mode::Cool
        } else if code == CUSTOM_MODE_CODE {
            Mode::Custom
        } else {
            Mode::Undefined
        }
    }

    /// Human-facing label of this mode.
    pub open spec fn spec_label(self) -> Seq<char> {
        match self {
            Mode::Default => "Default Mode"@,
            Mode::Performance => "Performance Mode"@,
            Mode::Cool => "Cool Mode"@,
            Mode::Custom => "Custom Mode"@,
            Mode::Undefined => "Undefined Mode"@,
        }
    }

    /// Mode named by a human-facing label; anything unknown is `Undefined`.
    pub open spec fn spec_of_label(s: Seq<char>) -> Mode {
        if s == "Default Mode"@ {
            Mode::Default
        } else if s == "Cool Mode"@ {
            Mode::Cool
        } else if s == "Performance Mode"@ {
            Mode::Performance
        } else if s == "Custom Mode"@ {
            Mode::Custom
        } else {
            Mode::Undefined
        }
    }

    /// Human-facing label of this mode.
    pub fn label(self) -> (s: String)
        ensures
            s@ == self.spec_label(),
    {
        match self {
            Mode::Default => "Default Mode".to_owned(),
            Mode::Performance => "Performance Mode".to_owned(),
            Mode::Cool => "Cool Mode".to_owned(),
            Mode::Custom => "Custom Mode".to_owned(),
            Mode::Undefined => "Undefined Mode".to_owned(),
        }
    }
}

/// Label for the mode byte read back from the EC's performance register.
pub fn get_mode_from_ec(raw: u8) -> (s: String)
    ensures
        s@ == Mode::spec_decode(raw).spec_label(),
{
    Mode::decode(raw).label()
}

/// Label for a mode byte held in the requested-mode cell.
pub fn mode(value: u8) -> (s: String)
    ensures
        s@ == Mode::spec_decode(value).spec_label(),
{
    Mode::decode(value).label()
}

/// Raw EC code for a human-facing mode label; an unknown label falls back to
/// the custom sentinel, the only code with no effect on the mode tables.
pub fn mode_to_int(mode: &str) -> (code: u8)
    ensures
        code == Mode::spec_of_label(mode@).spec_encode(),
{
    if mode.to_owned() == "Default Mode".to_owned() {
        DEFAULT_MODE_CODE
    } else if mode.to_owned() == "Cool Mode".to_owned() {
        COOL_MODE_CODE
    } else if mode.to_owned() == "Performance Mode".to_owned() {
        PERFORMANCE_MODE_CODE
    } else {
        CUSTOM_MODE_CODE
    }
}

/// Law: decoding the encoded byte of any writable mode gives the mode back.
pub proof fn lemma_mode_code_round_trip(m: Mode)
    requires
        m != Mode::Undefined,
    ensures
        Mode::spec_decode(m.spec_encode()) == m,
{
}

/// Law: any raw byte outside the known code table decodes to `Undefined`.
pub proof fn lemma_decode_unknown(code: u8)
    requires
        code != DEFAULT_MODE_CODE,
        code != PERFORMANCE_MODE_CODE,
        code != COOL_MODE_CODE,
        code != CUSTOM_MODE_CODE,
    ensures
        Mode::spec_decode(code) == Mode::Undefined,
{
}

/// Law: the label of any mode names that mode back, `Undefined` included.
pub proof fn lemma_mode_label_round_trip(m: Mode)
    ensures
        Mode::spec_of_label(m.spec_label()) == m,
{
    reveal_strlit("Default Mode");
    reveal_strlit("Performance Mode");
    reveal_strlit("Cool Mode");
    reveal_strlit("Custom Mode");
    reveal_strlit("Undefined Mode");
    assert("Default Mode"@.len() == 12);
    assert("Performance Mode"@.len() == 16);
    assert("Cool Mode"@.len() == 9);
    assert("Custom Mode"@.len() == 11);
    assert("Undefined Mode"@.len() == 14);
}

} // verus!
