//! The outputs a motor driver needs from the platform, and the driver's record of what it has
//! written to them.
//!
//! A platform implements [`DigitalOutput`] for its pins and [`DutyCycleOutput`] for its PWM
//! channels. The methods mirror `embedded_hal::digital::OutputPin`,
//! `embedded_hal::digital::StatefulOutputPin` and `embedded_hal::pwm::SetDutyCycle`, so an
//! implementation over a HAL is one forwarding call per method.
//!
//! Nothing is assumed of an implementation: a write may fail at any time, and the methods
//! promise nothing. What the driver's contracts say of the hardware is said of [`Line`] and
//! [`Channel`], which hold an output together with the writes the driver has made to it.

use vstd::prelude::*;

verus! {

/// Logic level of a digital line.
#[derive(PartialEq, Eq, Structural, Debug, Clone, Copy)]
pub enum Level {
    /// The line is driven low.
    Low,
    /// The line is driven high.
    High,
}

/// A push-pull digital output.
pub trait DigitalOutput {
    /// What a failed write reports.
    type Error;

    /// Drives the output low.
    fn set_low(&mut self) -> Result<(), Self::Error>;

    /// Drives the output high.
    fn set_high(&mut self) -> Result<(), Self::Error>;
}

/// A digital output that can report the level it was last told to drive.
pub trait StatefulDigitalOutput: DigitalOutput {
    /// Whether the output is driving high. This is the level the output was told to drive, not
    /// the electrical state of the line.
    fn is_set_high(&mut self) -> Result<bool, Self::Error>;
}

/// A PWM channel whose duty cycle is set as a percentage of its maximum.
pub trait DutyCycleOutput {
    /// What a failed write reports.
    type Error;

    /// Sets the duty cycle to `percent` hundredths of the channel's maximum. Where the maximum
    /// is not a multiple of 100, the implementation rounds the raw duty value down.
    ///
    /// The driver never asks for more than 100 percent.
    fn set_duty_cycle_percent(&mut self, percent: u8) -> Result<(), Self::Error>
        requires
            percent <= 100,
    ;
}

/// One write to a digital output: the level that was asked for, and how the output took it.
pub struct Write<E> {
    /// The level the driver asked for.
    pub level: Level,
    /// What the output reported if the write failed, `None` if it went through.
    pub failure: Option<E>,
}

/// One write to a PWM channel: the percentage that was asked for, and how the channel took it.
pub struct Setting<E> {
    /// The duty cycle the driver asked for, in percent.
    pub percent: u8,
    /// What the channel reported if the write failed, `None` if it went through.
    pub failure: Option<E>,
}


/// A digital output together with what the driver has done with it.
///
/// Every call of the output goes through a method of this type, which records it with its
/// result: the writes, and the answers of the output when it was asked for its level. After a
/// write that failed, what the output drives is unknown.
pub struct Line<P: DigitalOutput> {
    pin: P,
    written: Ghost<Seq<Write<P::Error>>>,
    answered: Ghost<Seq<Result<bool, P::Error>>>,
}

impl<P: DigitalOutput> Line<P> {
    /// The output itself.
    pub closed spec fn pin(self) -> P {
        self.pin
    }

    /// The writes made to the output since the driver took it over, oldest first.
    pub closed spec fn writes(self) -> Seq<Write<P::Error>> {
        self.written@
    }

    /// What the output answered each time the driver asked it whether it drives high, oldest
    /// first.
    pub closed spec fn answers(self) -> Seq<Result<bool, P::Error>> {
        self.answered@
    }

    /// `next` is this line after one more write, which asked for `level` and failed with
    /// `failure`, or went through if that is `None`.
    pub open spec fn wrote(self, level: Level, failure: Option<P::Error>, next: Self) -> bool {
        &&& next.writes() == self.writes().push(Write { level, failure })
        &&& next.answers() == self.answers()
    }

    /// `next` is this line after it has been asked once more whether it drives high, and has
    /// answered `answer`. Nothing was written.
    pub open spec fn asked(self, answer: Result<bool, P::Error>, next: Self) -> bool {
        &&& next.answers() == self.answers().push(answer)
        &&& next.writes() == self.writes()
    }

    /// The driver has put `level` on the line: the last write asked for it and went through.
    pub open spec fn drives(self, level: Level) -> bool {
        &&& self.writes().len() > 0
        &&& self.writes().last().level == level
        &&& self.writes().last().failure is None
    }

    /// Takes over `pin`. Nothing has been done with it yet.
    pub(crate) fn new(pin: P) -> (r: Self)
        ensures
            r.pin() == pin,
            r.writes() == Seq::<Write<P::Error>>::empty(),
            r.answers() == Seq::<Result<bool, P::Error>>::empty(),
    {
        Line { pin, written: Ghost(Seq::empty()), answered: Ghost(Seq::empty()) }
    }

    /// Drives the output low and records the write.
    pub(crate) fn set_low(&mut self) -> (r: Result<(), P::Error>)
        ensures
            old(self).wrote(Level::Low, r.err(), *final(self)),
    {
        let r = self.pin.set_low();
        self.written = Ghost(self.written@.push(Write { level: Level::Low, failure: r.err() }));
        r
    }

    /// Drives the output high and records the write.
    pub(crate) fn set_high(&mut self) -> (r: Result<(), P::Error>)
        ensures
            old(self).wrote(Level::High, r.err(), *final(self)),
    {
        let r = self.pin.set_high();
        self.written = Ghost(self.written@.push(Write { level: Level::High, failure: r.err() }));
        r
    }
}

impl<P: StatefulDigitalOutput> Line<P> {
    /// Asks the output whether it is driving high and records the answer.
    pub(crate) fn is_set_high(&mut self) -> (r: Result<bool, P::Error>)
        ensures
            old(self).asked(r, *final(self)),
    {
        let r = self.pin.is_set_high();
        self.answered = Ghost(self.answered@.push(r));
        r
    }
}

/// A PWM channel together with the writes the driver has made to it.
///
/// Every write goes through [`Channel::set_duty_cycle_percent`], which records it with its
/// result. After a write that failed, what the channel runs at is unknown.
pub struct Channel<P: DutyCycleOutput> {
    pwm: P,
    written: Ghost<Seq<Setting<P::Error>>>,
}

impl<P: DutyCycleOutput> Channel<P> {
    /// The channel itself.
    pub closed spec fn pwm(self) -> P {
        self.pwm
    }

    /// The writes made to the channel since the driver took it over, oldest first.
    pub closed spec fn writes(self) -> Seq<Setting<P::Error>> {
        self.written@
    }

    /// `next` is this channel after one more write, which asked for `percent` and failed with
    /// `failure`, or went through if that is `None`.
    pub open spec fn wrote(self, percent: u8, failure: Option<P::Error>, next: Self) -> bool {
        next.writes() == self.writes().push(Setting { percent, failure })
    }

    /// The driver has set the duty cycle to `percent`: the last write asked for it and went
    /// through.
    pub open spec fn runs_at(self, percent: u8) -> bool {
        &&& self.writes().len() > 0
        &&& self.writes().last().percent == percent
        &&& self.writes().last().failure is None
    }

    /// Takes over `pwm`. Nothing has been set on it yet.
    pub(crate) fn new(pwm: P) -> (r: Self)
        ensures
            r.pwm() == pwm,
            r.writes() == Seq::<Setting<P::Error>>::empty(),
    {
        Channel { pwm, written: Ghost(Seq::empty()) }
    }

    /// Sets the duty cycle to `percent` hundredths of the maximum and records the write.
    pub(crate) fn set_duty_cycle_percent(&mut self, percent: u8) -> (r: Result<(), P::Error>)
        requires
            percent <= 100,
        ensures
            old(self).wrote(percent, r.err(), *final(self)),
    {
        let r = self.pwm.set_duty_cycle_percent(percent);
        self.written = Ghost(self.written@.push(Setting { percent, failure: r.err() }));
        r
    }
}

} // verus!
