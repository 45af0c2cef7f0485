//! Driver for the TB6612FNG dual H-bridge motor driver.
//!
//! The chip drives two motors. Each motor is controlled by two direction inputs (IN1, IN2) and
//! one PWM input; a standby input, shared by both motors, halts them at once.
//!
//! ## When to use what
//! * You plan on using both motors and the standby feature: use [`Tb6612fng`]
//! * You plan on using both motors without the standby feature: use two separate [`Motor`]s
//! * You plan on using a single motor with the standby feature: use [`Motor`] and control the
//!   standby pin manually
//! * You plan on using a single motor without the standby feature: use [`Motor`]
//!
//! ## What is proved
//! The driver reaches the hardware through the traits of [`capability`], which a platform
//! implements for its pins and PWM channels. It keeps a record of every write it makes to an
//! output, and its contracts are stated over these records: which levels and which duty cycle
//! a command puts on the outputs, in which order, what a failed write leaves untouched, and
//! which command the motor remembers afterwards.

pub mod capability;
pub mod command;
pub mod controller;
pub mod error;
pub mod laws;
pub mod motor;

pub use crate::capability::Channel;
pub use crate::capability::DigitalOutput;
pub use crate::capability::DutyCycleOutput;
pub use crate::capability::Level;
pub use crate::capability::Line;
pub use crate::capability::StatefulDigitalOutput;
pub use crate::command::DriveCommand;
pub use crate::controller::Tb6612fng;
pub use crate::error::MotorError;
pub use crate::error::Tb6612fngError;
pub use crate::motor::Motor;
