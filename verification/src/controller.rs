//! Both motor channels of the chip, with the standby line they share.

use vstd::prelude::*;
use crate::capability::DigitalOutput;
use crate::capability::DutyCycleOutput;
use crate::capability::Level;
use crate::capability::Line;
use crate::capability::StatefulDigitalOutput;
use crate::error::Tb6612fngError;
use crate::motor::Motor;

verus! {

/// Represents a TB6612FNG controller.
///
/// Use the [`Motor`] struct directly if you only have one motor.
pub struct Tb6612fng<
    MAIN1: DigitalOutput,
    MAIN2: DigitalOutput,
    MAPWM: DutyCycleOutput,
    MBIN1: DigitalOutput,
    MBIN2: DigitalOutput,
    MBPWM: DutyCycleOutput,
    STBY: DigitalOutput,
> {
    /// The first motor, labelled as 'A' on the chip
    pub motor_a: Motor<MAIN1, MAIN2, MAPWM>,
    /// The second motor, labelled as 'B' on the chip
    pub motor_b: Motor<MBIN1, MBIN2, MBPWM>,
    /// The standby pin used to put both motors on standby. The chip is in standby while this
    /// line is low.
    pub standby: Line<STBY>,
}

impl<MAIN1, MAIN2, MAPWM, MBIN1, MBIN2, MBPWM, STBY> Tb6612fng<
    MAIN1,
    MAIN2,
    MAPWM,
    MBIN1,
    MBIN2,
    MBPWM,
    STBY,
> where
    MAIN1: DigitalOutput,
    MAIN2: DigitalOutput,
    MAPWM: DutyCycleOutput,
    MBIN1: DigitalOutput,
    MBIN2: DigitalOutput,
    MBPWM: DutyCycleOutput,
    STBY: DigitalOutput,
 {
    /// Whether standby is engaged: the driver has put the standby line low.
    pub open spec fn in_standby(self) -> bool {
        self.standby.drives(Level::Low)
    }

    /// Instantiate a new [`Tb6612fng`] with the defined motors and standby pin.
    /// The initial state of standby will be *disabled*: the standby line is driven high, once.
    /// The motors are taken as they are.
    ///
    /// # Errors
    /// If the write to the standby pin fails its error is returned, and the motors and the pin
    /// are dropped.
    pub fn new(
        motor_a: Motor<MAIN1, MAIN2, MAPWM>,
        motor_b: Motor<MBIN1, MBIN2, MBPWM>,
        standby: STBY,
    ) -> (r: Result<
        Tb6612fng<MAIN1, MAIN2, MAPWM, MBIN1, MBIN2, MBPWM, STBY>,
        Tb6612fngError<STBY::Error>,
    >)
        ensures
            r matches Ok(controller) ==> {
                &&& controller.motor_a == motor_a
                &&& controller.motor_b == motor_b
                &&& controller.standby.writes().len() == 1
                &&& controller.standby.drives(Level::High)
                &&& controller.standby.answers().len() == 0
            },
    {
        let mut standby = Line::new(standby);
        let written = standby.set_high();

        Self::assemble(motor_a, motor_b, standby, written)
    }

    /// Enable standby. This ignores any other setting currently done on the motors and puts them
    /// into standby.
    ///
    /// Note that this does not change any commands on the motors, i.e. the PWM signal will
    /// continue and once [`Tb6612fng::disable_standby`] is called the motor will pick up where
    /// it left off (unless the command was changed in-between).
    ///
    /// # Errors
    /// If the write to the standby pin fails its error is returned as it is.
    pub fn enable_standby(&mut self) -> (r: Result<(), STBY::Error>)
        ensures
            final(self).motor_a == old(self).motor_a,
            final(self).motor_b == old(self).motor_b,
            old(self).standby.wrote(Level::Low, r.err(), final(self).standby),
            r is Ok ==> final(self).in_standby(),
    {
        self.standby.set_low()
    }

    /// Disable standby. Note that the last active commands on the motors will resume.
    ///
    /// # Errors
    /// If the write to the standby pin fails its error is returned as it is.
    pub fn disable_standby(&mut self) -> (r: Result<(), STBY::Error>)
        ensures
            final(self).motor_a == old(self).motor_a,
            final(self).motor_b == old(self).motor_b,
            old(self).standby.wrote(Level::High, r.err(), final(self).standby),
            r is Ok ==> final(self).standby.drives(Level::High),
    {
        self.standby.set_high()
    }

    /// Returns whether the standby pin is set high, that is, whether standby is *disabled*.
    ///
    /// *NOTE* this does *not* read the electrical state of the pin, see
    /// [`StatefulDigitalOutput`].
    ///
    /// # Errors
    /// If the pin cannot be read its error is returned as it is.
    pub fn current_standby(&mut self) -> (r: Result<bool, STBY::Error>) where
        STBY: StatefulDigitalOutput,

        ensures
            final(self).motor_a == old(self).motor_a,
            final(self).motor_b == old(self).motor_b,
            old(self).standby.asked(r, final(self).standby),
    {
        self.standby.is_set_high()
    }

    /// Puts a controller together from its parts after the write that disables standby:
    /// `written` is what that write returned. If it went through, the controller is returned
    /// and holds the parts as they are. If it failed, its error is returned as a
    /// [`Tb6612fngError::Standby`] and the parts are dropped.
    pub fn assemble(
        motor_a: Motor<MAIN1, MAIN2, MAPWM>,
        motor_b: Motor<MBIN1, MBIN2, MBPWM>,
        standby: Line<STBY>,
        written: Result<(), STBY::Error>,
    ) -> (r: Result<
        Tb6612fng<MAIN1, MAIN2, MAPWM, MBIN1, MBIN2, MBPWM, STBY>,
        Tb6612fngError<STBY::Error>,
    >)
        ensures
            match written {
                Ok(_) => {
                    &&& r matches Ok(controller)
                    &&& controller.motor_a == motor_a
                    &&& controller.motor_b == motor_b
                    &&& controller.standby == standby
                },
                Err(e) => r == Err::<Self, _>(Tb6612fngError::Standby(e)),
            },
    {
        Tb6612fngError::from_standby(written)?;

        Ok(Tb6612fng { motor_a, motor_b, standby })
    }
}

} // verus!
