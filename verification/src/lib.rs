//! Driver for the IS31FL3731 matrix LED controller, addressed over a
//! two-wire serial bus.
//!
//! The driver translates frame selection, full-frame clear/fill and
//! per-pixel intensity writes into the chip's bank/register protocol.
//! The bus transport itself is a capability supplied by the caller
//! through the [`bus::Bus`] trait; every operation's contract states
//! exactly which byte sequences are put on the bus.

pub mod bus;
pub mod commands;
pub mod driver;
pub mod mapping;

pub use bus::{Bus, Delay};
pub use driver::IS31FL3731;
