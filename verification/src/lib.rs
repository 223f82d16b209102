//! Control core of a monitor for a single-board computer with a
//! Power-over-Ethernet board: a two-threshold fan controller and the display's
//! timers, both stepped once per tick of a fixed-interval loop.
//!
//! Nothing here touches hardware or the clock. The caller samples the time and
//! the sensors, hands them in as integers, and carries out the commands that
//! come back.

pub mod clock;
pub mod control;
pub mod display;
pub mod display_proofs;
pub mod fan;
pub mod identity;
