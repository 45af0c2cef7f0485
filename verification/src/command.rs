//! The commands a motor accepts, and what each of them means on the chip's inputs.

use vstd::prelude::*;
use crate::capability::Level;

verus! {

/// Defines the possible drive commands.
#[derive(PartialEq, Eq, Structural, Debug, Copy, Clone)]
pub enum DriveCommand {
    /// Drive forward with the defined speed (in percentage)
    Forward(u8),
    /// Drive backward with the defined speed (in percentage)
    Backward(u8),
    /// Actively brake
    Brake,
    /// Coast, i.e. stop but don't actively brake.
    Stop,
}

impl DriveCommand {
    /// The duty cycle the command asks for, in percent: the speed of a directed command, zero
    /// for `Brake` and `Stop`.
    pub open spec fn duty(self) -> u8 {
        match self {
            DriveCommand::Forward(s) | DriveCommand::Backward(s) => s,
            DriveCommand::Brake | DriveCommand::Stop => 0,
        }
    }

    /// A command is valid when its speed is a percentage.
    pub open spec fn is_valid(self) -> bool {
        self.duty() <= 100
    }

    /// The level the command puts on IN1.
    pub open spec fn in1_level(self) -> Level {
        match self {
            DriveCommand::Forward(_) | DriveCommand::Brake => Level::High,
            DriveCommand::Backward(_) | DriveCommand::Stop => Level::Low,
        }
    }

    /// The level the command puts on IN2.
    pub open spec fn in2_level(self) -> Level {
        match self {
            DriveCommand::Backward(_) | DriveCommand::Brake => Level::High,
            DriveCommand::Forward(_) | DriveCommand::Stop => Level::Low,
        }
    }

    /// The speed as a signed percentage: positive forward, negative backward, zero otherwise.
    pub open spec fn signed_speed(self) -> int {
        match self {
            DriveCommand::Forward(s) => s as int,
            DriveCommand::Backward(s) => -(s as int),
            DriveCommand::Brake | DriveCommand::Stop => 0,
        }
    }
}

/// A command that has been applied to the hardware. Only a valid command can be applied, so
/// the speed of an applied command is a percentage.
pub(crate) struct Applied {
    command: DriveCommand,
}

impl Applied {
    #[verifier::type_invariant]
    spec fn command_is_valid(self) -> bool {
        self.command.is_valid()
    }

    /// The command itself.
    pub(crate) closed spec fn command(self) -> DriveCommand {
        self.command
    }

    /// Records `command` as applied.
    pub(crate) fn new(command: DriveCommand) -> (r: Self)
        requires
            command.is_valid(),
        ensures
            r.command() == command,
    {
        Applied { command }
    }

    /// Reads the command back.
    pub(crate) fn get(&self) -> (r: &DriveCommand)
        ensures
            *r == self.command(),
            r.is_valid(),
    {
        proof {
            use_type_invariant(self);
        }
        &self.command
    }
}

} // verus!
