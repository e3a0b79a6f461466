//! Driver for a PCF8523 real-time-clock chip on a register-oriented
//! serial bus.
//!
//! The crate translates between a calendar timestamp and the chip's
//! packed-BCD register block, and performs the read and write register
//! transactions over an abstract blocking bus transport.

pub mod calendar;
pub mod codec;
pub mod driver;
pub mod error;

pub use calendar::Timestamp;
pub use driver::Pcf8523;
pub use driver::Transport;
pub use codec::bcd_decode;
pub use codec::bcd_encode;
pub use error::Error;
