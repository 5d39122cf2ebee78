//! Clock bring-up sequencing for STM32F4/F7 class microcontrollers.
//!
//! The crate decides *what* has to be done to the clock tree and in which
//! order; it never touches a register itself. A caller asks the
//! [`sequencer::Configurator`] for the pending operation, carries it out on
//! the hardware, and reports back what it observed.

pub mod cell;
pub mod profile;
pub mod registers;
pub mod schedule;
pub mod sequencer;
pub mod simulation;

