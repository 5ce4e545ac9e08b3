//! Command opcodes of the SSD1306 controller.

use vstd::prelude::*;

verus! {

pub const SETCONTRAST: u8 = 0x81;

pub const DISPLAYALLON_RESUME: u8 = 0xa4;

pub const DISPLAYALLON: u8 = 0xa5;

pub const NORMALDISPLAY: u8 = 0xa6;

pub const INVERTDISPLAY: u8 = 0xa7;

pub const DISPLAYOFF: u8 = 0xae;

pub const DISPLAYON: u8 = 0xaf;

pub const SETDISPLAYOFFSET: u8 = 0xd3;

pub const SETCOMPINS: u8 = 0xda;

pub const SETVCOMDETECT: u8 = 0xdb;

pub const SETDISPLAYCLOCKDIV: u8 = 0xd5;

pub const SETPRECHARGE: u8 = 0xd9;

pub const SETMULTIPLEX: u8 = 0xa8;

pub const SETLOWCOLUMN: u8 = 0x00;

pub const SETHIGHCOLUMN: u8 = 0x10;

/// Base opcode; the start line (0 to 63) goes in the low six bits.
pub const SETSTARTLINE: u8 = 0x40;

pub const MEMORYMODE: u8 = 0x20;

pub const COLUMNADDR: u8 = 0x21;

pub const PAGEADDR: u8 = 0x22;

pub const COMSCANINC: u8 = 0xc0;

pub const COMSCANDEC: u8 = 0xc8;

/// Base opcode; bit 0 set maps column 127 to segment 0.
pub const SEGREMAP: u8 = 0xa0;

pub const CHARGEPUMP: u8 = 0x8d;

pub const EXTERNALVCC: u8 = 0x1;

pub const SWITCHCAPVCC: u8 = 0x2;

pub const ACTIVATE_SCROLL: u8 = 0x2f;

pub const DEACTIVATE_SCROLL: u8 = 0x2e;

pub const SET_VERTICAL_SCROLL_AREA: u8 = 0xa3;

pub const RIGHT_HORIZONTAL_SCROLL: u8 = 0x26;

pub const LEFT_HORIZONTAL_SCROLL: u8 = 0x27;

pub const VERTICAL_AND_RIGHT_HORIZONTAL_SCROLL: u8 = 0x29;

pub const VERTICAL_AND_LEFT_HORIZONTAL_SCROLL: u8 = 0x2a;

} // verus!
