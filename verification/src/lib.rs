//! Driver for the SSD1306 monochrome OLED controller on a two-wire bus.
//!
//! The driver never touches the bus itself. An operation on the display is a
//! [`Transfer`]: it names the bus primitive to perform next, takes the
//! transport's answer to it, and either moves on to the following primitive
//! or ends with the operation's result. Whoever owns the transport performs
//! the primitives, one at a time, each to its end before the next.
//!
//! The first failure ends an operation with the transport's own error. The
//! driver does not retry, and it sends no stop after a failure: releasing the
//! bus then is the transport's part.

pub mod bus;
pub mod display;
pub mod frame;
pub mod opcode;
pub mod run;
pub mod script;
pub mod transfer;

pub use bus::{BusOp, BusOpView};
pub use display::SSD1306Display;
pub use frame::{Frame, FrameView};
pub use transfer::{Step, StepView, Transfer, TransferView};

use vstd::prelude::*;

verus! {

/// Width of the panel in pixels, which is also its number of columns.
pub const SSD1306_LCDWIDTH: usize = 128;

/// Height of the panel in pixels. A full frame of display data is
/// `SSD1306_LCDWIDTH * SSD1306_LCDHEIGHT / 8` bytes.
pub const SSD1306_LCDHEIGHT: usize = 64;

} // verus!
