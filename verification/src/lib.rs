//! A verified core for a three-channel LED blinker.
//!
//! The library models the part of the firmware that is worth reasoning
//! about: the round-robin color cycle that drives the three PWM channels,
//! the typed light states of the public interface, the diagnostic lines
//! echoed for bytes received on the serial port, and the sequence of
//! duty-cycle updates the drive loop issues. Peripheral access itself
//! (timers, pins, the UART) stays outside the library.

pub mod cycle;
pub mod drive;
pub mod echo;
pub mod lights;
