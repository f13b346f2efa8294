//! Driver for the RX-8010-SJ real-time clock module, a peripheral that sits on
//! a two-wire (I2C) serial bus.
//!
//! The driver translates between a host's calendar date-time and the chip's
//! binary-coded-decimal register layout, and exposes start/stop control of the
//! oscillator.  It is generic over a bus transport trait, so any I2C
//! implementation can drive the chip; an adapter for `embedded-hal` buses
//! lives outside the verified core.

pub mod bus;
pub mod codec;
pub mod rtc;
pub mod sim;
pub mod time;

pub use rtc::Rx8010sj;
