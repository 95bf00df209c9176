//! Digital I/O pins and busy-wait delays for the Arduino UNO R4, whose
//! microcontroller is a Renesas RA4M1.
//!
//! The crate decides and the caller acts. A pin operation yields the
//! register operations to carry out, each one load and one store of a port
//! register; a delay yields a counter of spins. Touching the registers and
//! executing the no-effect instruction of a spin are left to the caller,
//! which runs on the device.
//!
//! - [`registers`]: where the port registers lie, what an operation does to
//!   their bits, and a model of the registers of a port.
//! - [`gpio`]: pins whose mode is part of their type.
//! - [`delay`]: conversion of durations to spins, and the counter of a wait.
//! - [`time`]: the clock frequency that delays are calibrated by.

pub mod delay;
pub mod gpio;
pub mod registers;
pub mod time;

pub use delay::Delay;
pub use gpio::{Pin, PinMode, PinState};
