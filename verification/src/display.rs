//! The display handle.

use vstd::prelude::*;
use crate::script::{draw_frames, init_frames, wire_of};
use crate::transfer::{Operation, Transfer, TransferView};
use crate::{SSD1306_LCDHEIGHT, SSD1306_LCDWIDTH};

verus! {

/// An SSD1306 display at a fixed address on the bus.
///
/// Each operation borrows the handle for as long as its transfer lives, so
/// that a second operation cannot begin on the same display before the first
/// has ended or been given up.
#[derive(Debug)]
pub struct SSD1306Display {
    addr: u8,
}

impl SSD1306Display {
    /// The 7-bit bus address at which the display answers.
    pub closed spec fn address(&self) -> u8 {
        self.addr
    }

    /// A handle for the display at `addr`. Nothing is sent, and any address
    /// is taken as it is.
    pub fn new(addr: u8) -> (display: Self)
        ensures
            display.address() == addr,
    {
        Self { addr }
    }

    /// Begins the power-on initialisation: the transfer whose script is the
    /// initialisation frames of this panel, in their fixed order, and nothing
    /// else.
    pub fn init<'a>(&'a mut self) -> (transfer: Transfer<'a>)
        ensures
            final(self).address() == old(self).address(),
            transfer@ == TransferView::begin(
                wire_of(init_frames(SSD1306_LCDHEIGHT as nat), old(self).address()),
            ),
            transfer@.wf(),
    {
        Transfer::begin(self.addr, Operation::Init)
    }

    /// Begins a redraw of the whole panel from `buf`: the transfer whose
    /// script sets the column window and the page window to the full panel
    /// and then writes `buf`, whatever its length, as one data frame.
    pub fn draw<'a>(&'a mut self, buf: &'a [u8]) -> (transfer: Transfer<'a>)
        ensures
            final(self).address() == old(self).address(),
            transfer@ == TransferView::begin(
                wire_of(draw_frames(SSD1306_LCDWIDTH as nat, buf@), old(self).address()),
            ),
            transfer@.wf(),
    {
        Transfer::begin(self.addr, Operation::Draw(buf))
    }
}

} // verus!
