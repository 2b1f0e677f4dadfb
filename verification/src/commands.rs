//! The closed set of operations the analyzer firmware understands.

use vstd::prelude::*;

verus! {

/// An operation code of the analyzer's command protocol.
#[derive(Copy, Clone, Debug, PartialEq, Eq, Structural)]
pub enum CommandOp {
    SweepEnable,
    SweepDisable,
    SweepOneshot,
    /// Parameter 0 switches the RF generator off, 1 switches it on.
    SetRFGen,
    StartFrequency,
    /// May be negative; the sign takes one of the nine parameter characters.
    StepFrequency,
    StepCount,
    StepTimeMillis,
    NoiseFilter,
    LedOff,
    LedBlink,
    /// Sent when the device is released.
    Exit,
}

impl CommandOp {
    /// The number that stands for this operation on the wire.
    pub open spec fn spec_code(self) -> u16 {
        match self {
            CommandOp::SweepEnable => 1,
            CommandOp::SweepDisable => 2,
            CommandOp::SweepOneshot => 3,
            CommandOp::SetRFGen => 10,
            CommandOp::StartFrequency => 11,
            CommandOp::StepFrequency => 13,
            CommandOp::StepCount => 14,
            CommandOp::StepTimeMillis => 15,
            CommandOp::NoiseFilter => 32,
            CommandOp::LedOff => 945,
            CommandOp::LedBlink => 942,
            CommandOp::Exit => 96,
        }
    }

    #[verifier::when_used_as_spec(spec_code)]
    pub fn code(self) -> (c: u16)
        ensures
            c == self.spec_code(),
    {
        match self {
            CommandOp::SweepEnable => 1,
            CommandOp::SweepDisable => 2,
            CommandOp::SweepOneshot => 3,
            CommandOp::SetRFGen => 10,
            CommandOp::StartFrequency => 11,
            CommandOp::StepFrequency => 13,
            CommandOp::StepCount => 14,
            CommandOp::StepTimeMillis => 15,
            CommandOp::NoiseFilter => 32,
            CommandOp::LedOff => 945,
            CommandOp::LedBlink => 942,
            CommandOp::Exit => 96,
        }
    }
}

/// What the front-panel LED is asked to do.
#[derive(Copy, Clone, Debug, PartialEq, Eq, Structural)]
pub enum LedState {
    Off,
    Blink,
}

impl LedState {
    /// The command that puts the LED into this state.
    pub open spec fn spec_command(self) -> CommandOp {
        match self {
            LedState::Off => CommandOp::LedOff,
            LedState::Blink => CommandOp::LedBlink,
        }
    }

    #[verifier::when_used_as_spec(spec_command)]
    pub fn command(self) -> (op: CommandOp)
        ensures
            op == self.spec_command(),
    {
        match self {
            LedState::Off => CommandOp::LedOff,
            LedState::Blink => CommandOp::LedBlink,
        }
    }
}

} // verus!
