//! Verified core of a four-digit, seven-segment counter display.
//!
//! A hardware timer interrupt increments a shared counter once per fixed
//! period, and a foreground loop renders the counter onto a 4-digit,
//! 7-segment LED display by time-multiplexed digit scanning.  This crate
//! holds the verified logic of that firmware: the segment encoding table,
//! the digit-multiplexing driver, and the interrupt/foreground counter
//! protocol.  The platform layer applies the computed line levels to GPIO
//! pins, performs the settle delays, and runs the transitions inside a
//! critical section.

pub mod display;
pub mod tick;
