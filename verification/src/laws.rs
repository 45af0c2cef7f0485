//! What holds of every motor, proved from the contracts of [`Motor::new`] and [`Motor::drive`].
//!
//! Each statement takes a call by what it was given and what it returned: the motor before,
//! the command, the outcome and the motor after, related by [`Motor::driven`]; for the
//! constructor the outcome alone, described by [`Motor::created`].

use vstd::prelude::*;
use crate::capability::DigitalOutput;
use crate::capability::DutyCycleOutput;
use crate::capability::Level;
use crate::command::DriveCommand;
use crate::error::MotorError;
use crate::motor::Motor;

verus! {

impl<IN1, IN2, PWM> Motor<IN1, IN2, PWM> where
    IN1: DigitalOutput,
    IN2: DigitalOutput,
    PWM: DutyCycleOutput,
 {
    /// A new motor is stopped: the command it records is `Stop`, its speed is zero, both
    /// direction inputs are low and the duty cycle is zero.
    pub proof fn lemma_new_motor_is_stopped(
        outcome: Result<Self, MotorError<IN1::Error, IN2::Error, PWM::Error>>,
    )
        requires
            Self::created(outcome),
            outcome is Ok,
        ensures
            outcome->Ok_0.command() == DriveCommand::Stop,
            outcome->Ok_0.speed() == 0,
            outcome->Ok_0.in1().drives(Level::Low),
            outcome->Ok_0.in2().drives(Level::Low),
            outcome->Ok_0.pwm().runs_at(0),
    {
    }

    /// A command with a speed of at most 100 is never rejected as invalid. Once it has been
    /// applied it is the recorded command, and the motor's speed is the command's speed:
    /// positive forward, negative backward, zero for `Brake` and `Stop`.
    pub proof fn lemma_applied_command_is_recorded(
        self,
        command: DriveCommand,
        outcome: Result<(), MotorError<IN1::Error, IN2::Error, PWM::Error>>,
        next: Self,
    )
        requires
            command.duty() <= 100,
            self.driven(command, outcome, next),
        ensures
            !(outcome matches Err(MotorError::InvalidSpeed)),
            outcome is Ok ==> next.command() == command,
            outcome is Ok ==> (command matches DriveCommand::Forward(s) ==> next.speed() == s),
            outcome is Ok ==> (command matches DriveCommand::Backward(s) ==> next.speed() == -s),
            outcome is Ok ==> (command is Brake || command is Stop ==> next.speed() == 0),
    {
    }

    /// A command with a speed above 100 is rejected as invalid, and the rejection changes
    /// nothing: the motor, and with it the recorded command and the speed, are as before.
    pub proof fn lemma_invalid_speed_changes_nothing(
        self,
        command: DriveCommand,
        outcome: Result<(), MotorError<IN1::Error, IN2::Error, PWM::Error>>,
        next: Self,
    )
        requires
            command.duty() > 100,
            self.driven(command, outcome, next),
        ensures
            outcome matches Err(MotorError::InvalidSpeed),
            next == self,
            next.command() == self.command(),
            next.speed() == self.speed(),
    {
    }

    /// A drive that fails, for whatever reason, leaves the recorded command and the speed as
    /// they were.
    pub proof fn lemma_failed_drive_keeps_command(
        self,
        command: DriveCommand,
        outcome: Result<(), MotorError<IN1::Error, IN2::Error, PWM::Error>>,
        next: Self,
    )
        requires
            self.driven(command, outcome, next),
            outcome is Err,
        ensures
            next.command() == self.command(),
            next.speed() == self.speed(),
    {
    }

    /// Once a command has been applied, the outputs show its pattern, whatever they showed
    /// before, and each of them has been written exactly once more.
    pub proof fn lemma_applied_command_sets_pattern(
        self,
        command: DriveCommand,
        outcome: Result<(), MotorError<IN1::Error, IN2::Error, PWM::Error>>,
        next: Self,
    )
        requires
            self.driven(command, outcome, next),
            outcome is Ok,
        ensures
            next.shows(command),
            next.in1().writes().len() == self.in1().writes().len() + 1,
            next.in2().writes().len() == self.in2().writes().len() + 1,
            next.pwm().writes().len() == self.pwm().writes().len() + 1,
    {
    }

    /// `Stop` is always a valid command. Once applied, both direction inputs are low and the
    /// duty cycle is zero, whatever the motor did before.
    pub proof fn lemma_stop_coasts(
        self,
        outcome: Result<(), MotorError<IN1::Error, IN2::Error, PWM::Error>>,
        next: Self,
    )
        requires
            self.driven(DriveCommand::Stop, outcome, next),
        ensures
            !(outcome matches Err(MotorError::InvalidSpeed)),
            outcome is Ok ==> next.in1().drives(Level::Low),
            outcome is Ok ==> next.in2().drives(Level::Low),
            outcome is Ok ==> next.pwm().runs_at(0),
            outcome is Ok ==> next.speed() == 0,
    {
    }

    /// `Brake` is always a valid command. Once applied, both direction inputs are high and the
    /// duty cycle is zero, whatever the motor did before.
    pub proof fn lemma_brake_shorts(
        self,
        outcome: Result<(), MotorError<IN1::Error, IN2::Error, PWM::Error>>,
        next: Self,
    )
        requires
            self.driven(DriveCommand::Brake, outcome, next),
        ensures
            !(outcome matches Err(MotorError::InvalidSpeed)),
            outcome is Ok ==> next.in1().drives(Level::High),
            outcome is Ok ==> next.in2().drives(Level::High),
            outcome is Ok ==> next.pwm().runs_at(0),
            outcome is Ok ==> next.speed() == 0,
    {
    }

    /// A drive that fails on IN2 has already put the command's level on IN1, and has touched
    /// neither the PWM channel nor the recorded command.
    pub proof fn lemma_in2_failure_follows_in1(
        self,
        command: DriveCommand,
        outcome: Result<(), MotorError<IN1::Error, IN2::Error, PWM::Error>>,
        next: Self,
    )
        requires
            self.driven(command, outcome, next),
            outcome matches Err(MotorError::In2Error(_)),
        ensures
            next.in1().drives(command.in1_level()),
            next.pwm() == self.pwm(),
            next.command() == self.command(),
    {
    }
}

} // verus!
