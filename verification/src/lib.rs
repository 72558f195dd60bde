//! Driver core for a MAX7219-style eight-digit seven-segment display
//! controller, addressed through a two-byte register-write protocol.
//!
//! The crate verifies the command and encoding engine: the register map,
//! the ASCII-to-segment and ASCII-to-BCD encoders, the integer and hex
//! formatters with their padding rules, and the controller that sequences
//! register writes over an injected bus capability.

use vstd::prelude::*;

pub mod bus;
pub mod driver;
pub mod encode;
pub mod format;
pub mod registers;

pub use bus::{BusFault, RecordingBus, SegmentBus};
pub use driver::Max7219;
pub use encode::{bcd_byte, ssb_byte};
pub use format::{base_10_bytes, hex_bytes, pad_left};
pub use registers::{DecodeMode, Register};

verus! {

/// Number of digit positions on the display.
pub const NUM_DIGITS: usize = 8;

} // verus!
