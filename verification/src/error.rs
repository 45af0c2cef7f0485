//! What can go wrong, and on which line.

use vstd::prelude::*;

verus! {

/// Defines errors which can happen when driving a [`Motor`](crate::Motor).
#[derive(PartialEq, Eq, Debug, Copy, Clone)]
pub enum MotorError<IN1Error, IN2Error, PWMError> {
    /// An invalid speed has been defined. The speed must be given as a percentage value between 0 and 100 to be valid.
    InvalidSpeed,
    /// An error in setting the output of the IN1 pin
    In1Error(IN1Error),
    /// An error in setting the output of the IN2 pin
    In2Error(IN2Error),
    /// An error in setting the output of the PWM pin
    PwmError(PWMError),
}

/// Defines errors which can happen when setting up a [`Tb6612fng`](crate::Tb6612fng).
#[derive(PartialEq, Eq, Debug, Copy, Clone)]
pub enum Tb6612fngError<STBYError> {
    /// An error in setting the initial output of the standby pin
    Standby(STBYError),
}

impl<IN1Error, IN2Error, PWMError> MotorError<IN1Error, IN2Error, PWMError> {
    /// Reports the outcome of a write to IN1 as the outcome of a drive: a failure becomes an
    /// `In1Error` that carries what the pin reported.
    pub fn from_in1(written: Result<(), IN1Error>) -> (r: Result<(), Self>)
        ensures
            r == (match written {
                Ok(_) => Ok(()),
                Err(e) => Err(Self::In1Error(e)),
            }),
    {
        match written {
            Ok(_) => Ok(()),
            Err(e) => Err(Self::In1Error(e)),
        }
    }

    /// Reports the outcome of a write to IN2 as the outcome of a drive: a failure becomes an
    /// `In2Error` that carries what the pin reported.
    pub fn from_in2(written: Result<(), IN2Error>) -> (r: Result<(), Self>)
        ensures
            r == (match written {
                Ok(_) => Ok(()),
                Err(e) => Err(Self::In2Error(e)),
            }),
    {
        match written {
            Ok(_) => Ok(()),
            Err(e) => Err(Self::In2Error(e)),
        }
    }

    /// Reports the outcome of a write to the PWM channel as the outcome of a drive: a failure
    /// becomes a `PwmError` that carries what the channel reported.
    pub fn from_pwm(written: Result<(), PWMError>) -> (r: Result<(), Self>)
        ensures
            r == (match written {
                Ok(_) => Ok(()),
                Err(e) => Err(Self::PwmError(e)),
            }),
    {
        match written {
            Ok(_) => Ok(()),
            Err(e) => Err(Self::PwmError(e)),
        }
    }
}

impl<STBYError> Tb6612fngError<STBYError> {
    /// Reports the outcome of a write to the standby pin as the outcome of setting up the
    /// controller: a failure becomes a `Standby` error that carries what the pin reported.
    pub fn from_standby(written: Result<(), STBYError>) -> (r: Result<(), Self>)
        ensures
            r == (match written {
                Ok(_) => Ok(()),
                Err(e) => Err(Self::Standby(e)),
            }),
    {
        match written {
            Ok(_) => Ok(()),
            Err(e) => Err(Self::Standby(e)),
        }
    }
}

} // verus!
