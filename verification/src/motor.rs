//! A single motor channel of the chip.

use vstd::prelude::*;
use crate::capability::Channel;
use crate::capability::DigitalOutput;
use crate::capability::DutyCycleOutput;
use crate::capability::Line;
use crate::command::Applied;
use crate::command::DriveCommand;
use crate::error::MotorError;

verus! {

/// Represents a single motor (either motor A or motor B) hooked up to a TB6612FNG controller.
///
/// This is unaware of the standby pin. If you plan on using both motors and the standby feature
/// then use the [`Tb6612fng`](crate::Tb6612fng) struct instead.
pub struct Motor<IN1: DigitalOutput, IN2: DigitalOutput, PWM: DutyCycleOutput> {
    in1: Line<IN1>,
    in2: Line<IN2>,
    pwm: Channel<PWM>,
    current_drive_command: Applied,
}

impl<IN1, IN2, PWM> Motor<IN1, IN2, PWM> where
    IN1: DigitalOutput,
    IN2: DigitalOutput,
    PWM: DutyCycleOutput,
 {
    /// The IN1 output, with what has been written to it.
    pub closed spec fn in1(self) -> Line<IN1> {
        self.in1
    }

    /// The IN2 output, with what has been written to it.
    pub closed spec fn in2(self) -> Line<IN2> {
        self.in2
    }

    /// The PWM channel, with what has been written to it.
    pub closed spec fn pwm(self) -> Channel<PWM> {
        self.pwm
    }

    /// The command that was last applied in full.
    pub closed spec fn command(self) -> DriveCommand {
        self.current_drive_command.command()
    }

    /// The speed of the recorded command as a signed percentage.
    pub open spec fn speed(self) -> int {
        self.command().signed_speed()
    }

    /// The outputs show the pattern of `command`: the driver has put the command's levels on
    /// IN1 and IN2 and has set the duty cycle to the command's speed.
    pub open spec fn shows(self, command: DriveCommand) -> bool {
        &&& self.in1().drives(command.in1_level())
        &&& self.in2().drives(command.in2_level())
        &&& self.pwm().runs_at(command.duty())
    }

    /// What a call of [`Motor::new`] may return, whatever outputs it is given.
    ///
    /// The outputs are written as for [`DriveCommand::Stop`]. A motor is returned when all
    /// three writes went through: it owns the outputs, each written once, and records `Stop`.
    /// Otherwise the outputs are dropped and the error is that of an output, never
    /// `InvalidSpeed`.
    pub open spec fn created(
        outcome: Result<Self, MotorError<IN1::Error, IN2::Error, PWM::Error>>,
    ) -> bool {
        match outcome {
            Ok(motor) => {
                &&& motor.in1().writes().len() == 1
                &&& motor.in2().writes().len() == 1
                &&& motor.pwm().writes().len() == 1
                &&& motor.shows(DriveCommand::Stop)
                &&& motor.command() == DriveCommand::Stop
            },
            Err(e) => !(e is InvalidSpeed),
        }
    }

    /// What a call of [`Motor::drive`] with `command` that returns `outcome` makes of the motor
    /// `self`: `next` is the motor after the call.
    ///
    /// An invalid command is rejected and changes nothing. A valid one is written to IN1, to
    /// IN2 and to the PWM channel, in that order and once each, up to the first write that
    /// fails. The error of that write is returned under the name of its output, and the outputs
    /// behind it are left untouched. The command is recorded only when all three writes went
    /// through.
    pub open spec fn driven(
        self,
        command: DriveCommand,
        outcome: Result<(), MotorError<IN1::Error, IN2::Error, PWM::Error>>,
        next: Self,
    ) -> bool {
        match outcome {
            Err(MotorError::InvalidSpeed) => !command.is_valid() && next == self,
            Err(MotorError::In1Error(e)) => {
                &&& command.is_valid()
                &&& self.in1().wrote(command.in1_level(), Some(e), next.in1())
                &&& next.in2() == self.in2()
                &&& next.pwm() == self.pwm()
                &&& next.command() == self.command()
            },
            Err(MotorError::In2Error(e)) => {
                &&& command.is_valid()
                &&& self.in1().wrote(command.in1_level(), None, next.in1())
                &&& self.in2().wrote(command.in2_level(), Some(e), next.in2())
                &&& next.pwm() == self.pwm()
                &&& next.command() == self.command()
            },
            Err(MotorError::PwmError(e)) => {
                &&& command.is_valid()
                &&& self.in1().wrote(command.in1_level(), None, next.in1())
                &&& self.in2().wrote(command.in2_level(), None, next.in2())
                &&& self.pwm().wrote(command.duty(), Some(e), next.pwm())
                &&& next.command() == self.command()
            },
            Ok(_) => {
                &&& command.is_valid()
                &&& self.in1().wrote(command.in1_level(), None, next.in1())
                &&& self.in2().wrote(command.in2_level(), None, next.in2())
                &&& self.pwm().wrote(command.duty(), None, next.pwm())
                &&& next.command() == command
            },
        }
    }

    /// Instantiate a new [`Motor`] with the defined pins.
    /// The initial state of the motor will be set to [stopped](DriveCommand::Stop).
    ///
    /// # Errors
    /// If a write to one of the outputs fails, its error is returned under the name of that
    /// output.
    pub fn new(in1: IN1, in2: IN2, pwm: PWM) -> (r: Result<
        Motor<IN1, IN2, PWM>,
        MotorError<IN1::Error, IN2::Error, PWM::Error>,
    >)
        ensures
            Self::created(r),
    {
        let mut motor = Motor {
            in1: Line::new(in1),
            in2: Line::new(in2),
            pwm: Channel::new(pwm),
            current_drive_command: Applied::new(DriveCommand::Stop),
        };

        motor.drive(DriveCommand::Stop)?;

        Ok(motor)
    }

    /// Drive with the defined speed (or brake or stop the motor).
    ///
    /// # Errors
    /// The specified speed must be between 0 and 100 (inclusive), otherwise the command is
    /// rejected with [`MotorError::InvalidSpeed`] before any output is touched.
    ///
    /// If a write to one of the outputs fails, its error is returned under the name of that
    /// output and the remaining outputs are not written.
    pub fn drive(&mut self, drive_command: DriveCommand) -> (r: Result<
        (),
        MotorError<IN1::Error, IN2::Error, PWM::Error>,
    >)
        ensures
            old(self).driven(drive_command, r, *final(self)),
    {
        let speed: u8 = match drive_command {
            DriveCommand::Forward(s) | DriveCommand::Backward(s) => s,
            _ => 0,
        };

        if speed > 100 {
            return Err(MotorError::InvalidSpeed);
        }

        match drive_command {
            DriveCommand::Forward(_) => {
                MotorError::from_in1(self.in1.set_high())?;
                MotorError::from_in2(self.in2.set_low())?;
            },
            DriveCommand::Backward(_) => {
                MotorError::from_in1(self.in1.set_low())?;
                MotorError::from_in2(self.in2.set_high())?;
            },
            DriveCommand::Brake => {
                MotorError::from_in1(self.in1.set_high())?;
                MotorError::from_in2(self.in2.set_high())?;
            },
            DriveCommand::Stop => {
                MotorError::from_in1(self.in1.set_low())?;
                MotorError::from_in2(self.in2.set_low())?;
            },
        }

        MotorError::from_pwm(self.pwm.set_duty_cycle_percent(speed))?;

        self.current_drive_command = Applied::new(drive_command);

        Ok(())
    }

    /// Get the currently active drive command: the last one that was applied in full.
    ///
    /// If you only want to know the speed consider calling [`Motor::current_speed`] instead.
    pub fn current_drive_command(&self) -> (r: &DriveCommand)
        ensures
            *r == self.command(),
            r.is_valid(),
    {
        self.current_drive_command.get()
    }

    /// Return the current speed of the motor (in percentage). Note that driving forward returns
    /// a positive number while driving backward returns a negative number and both
    /// [`DriveCommand::Brake`] and [`DriveCommand::Stop`] return 0.
    ///
    /// If you need to know in more details what the current status is, consider calling
    /// [`Motor::current_drive_command`] instead.
    pub fn current_speed(&self) -> (r: i8)
        ensures
            r == self.speed(),
            -100 <= r <= 100,
    {
        match *self.current_drive_command() {
            DriveCommand::Forward(s) => s as i8,
            DriveCommand::Backward(s) => -(s as i8),
            DriveCommand::Brake => 0,
            DriveCommand::Stop => 0,
        }
    }
}

} // verus!
