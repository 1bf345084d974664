//! Drivers for the peripherals of a DA14531 class microcontroller, written as
//! planners: each records the register accesses that it wants and leaves the
//! bus to its caller.
//!
//! The vocabulary is in [`regs`], the recorder in [`script`], and the meaning
//! of a script in [`device`]. The drivers follow: pins, clocks, interrupts,
//! timer, watchdog, wakeup, I2C, converter, and the way into hibernation.

use vstd::prelude::*;

pub mod clock;
pub mod crg_aon;
pub mod crg_top;
pub mod device;
pub mod gpadc;
pub mod gpio;
pub mod i2c;
pub mod interrupt;
pub mod nvic;
pub mod otpc;
pub mod pac;
pub mod poll;
pub mod regs;
pub mod script;
pub mod sleep;
pub mod sys_wdog;
pub mod timer;
pub mod wakeup;
pub mod watchdog;
pub mod wkup;

verus! {

/// Seals traits that only this crate implements.
pub trait Sealed {

}

} // verus!
