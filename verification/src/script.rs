//! The frames that make up each operation, and their layout on the wire.

use vstd::prelude::*;
use crate::bus::{lemma_line_after_concat, well_framed, BusOpView, Line};
use crate::frame::{lemma_frame_well_framed, Frame, FrameView};
use crate::opcode::{
    CHARGEPUMP, COLUMNADDR, COMSCANDEC, DEACTIVATE_SCROLL, DISPLAYALLON_RESUME, DISPLAYOFF,
    DISPLAYON, MEMORYMODE, NORMALDISPLAY, PAGEADDR, SEGREMAP, SETCOMPINS, SETCONTRAST,
    SETDISPLAYCLOCKDIV, SETDISPLAYOFFSET, SETMULTIPLEX, SETPRECHARGE, SETSTARTLINE,
    SETVCOMDETECT,
};

verus! {

/// Clock divide ratio 1 with the oscillator at its reset frequency.
pub const CLOCKDIV_DEFAULT: u8 = 0x80;

/// No vertical shift of the picture.
pub const DISPLAYOFFSET_NONE: u8 = 0x00;

/// Charge pump on: the panel voltage is made from the logic supply.
pub const CHARGEPUMP_ENABLE: u8 = 0x14;

/// Horizontal addressing: the column pointer runs first, then the page.
pub const MEMORYMODE_HORIZONTAL: u8 = 0x00;

/// Alternative COM pin layout without left/right remap.
pub const COMPINS_ALTERNATIVE: u8 = 0x12;

/// Contrast for a panel on the charge pump.
pub const CONTRAST_SWITCHCAP: u8 = 0xcf;

/// Pre-charge period for a panel on the charge pump.
pub const PRECHARGE_SWITCHCAP: u8 = 0xf1;

/// VCOMH deselect level.
pub const VCOMDETECT_LEVEL: u8 = 0x40;

/// First column and first page of the window that `draw` fills.
pub const WINDOW_START: u8 = 0;

/// Last page of the window that `draw` fills: eight pages of eight rows.
pub const LAST_PAGE: u8 = 7;

/// Number of frames in the initialisation.
pub const INIT_FRAMES: usize = 17;

/// Number of frames in a redraw.
pub const DRAW_FRAMES: usize = 3;

/// A panel dimension whose last index fits the one argument byte that the
/// controller takes for it.
pub open spec fn supported_dimension(size: nat) -> bool {
    1 <= size <= 256
}

/// A command frame, as a value.
pub open spec fn command(opcode: u8, args: Seq<u8>) -> FrameView {
    FrameView::Command { opcode, args }
}

/// The frames that bring a panel of `height` rows from power-on to a lit,
/// displayable state, in the order in which they are sent.
pub open spec fn init_frames(height: nat) -> Seq<FrameView> {
    seq![
        command(DISPLAYOFF, seq![]),
        command(SETDISPLAYCLOCKDIV, seq![CLOCKDIV_DEFAULT]),
        command(SETMULTIPLEX, seq![(height - 1) as u8]),
        command(SETDISPLAYOFFSET, seq![DISPLAYOFFSET_NONE]),
        command(SETSTARTLINE | 0x00, seq![]),
        command(CHARGEPUMP, seq![CHARGEPUMP_ENABLE]),
        command(MEMORYMODE, seq![MEMORYMODE_HORIZONTAL]),
        command(SEGREMAP | 0x01, seq![]),
        command(COMSCANDEC, seq![]),
        command(SETCOMPINS, seq![COMPINS_ALTERNATIVE]),
        command(SETCONTRAST, seq![CONTRAST_SWITCHCAP]),
        command(SETPRECHARGE, seq![PRECHARGE_SWITCHCAP]),
        command(SETVCOMDETECT, seq![VCOMDETECT_LEVEL]),
        command(DISPLAYALLON_RESUME, seq![]),
        command(NORMALDISPLAY, seq![]),
        command(DEACTIVATE_SCROLL, seq![]),
        command(DISPLAYON, seq![]),
    ]
}

/// The frames that redraw a panel of `width` columns: the column window from
/// the first column to the last, the page window over all eight pages, then
/// the payload.
pub open spec fn draw_frames(width: nat, payload: Seq<u8>) -> Seq<FrameView> {
    seq![
        command(COLUMNADDR, seq![WINDOW_START, (width - 1) as u8]),
        command(PAGEADDR, seq![WINDOW_START, LAST_PAGE]),
        FrameView::Data { payload },
    ]
}

/// Frame number `step` of the initialisation of a panel of `height` rows,
/// `None` past the last one.
pub fn init_frame(step: usize, height: usize) -> (frame: Option<Frame<'static>>)
    requires
        supported_dimension(height as nat),
    ensures
        init_frames(height as nat).len() == INIT_FRAMES,
        step < INIT_FRAMES ==> frame.is_some() && frame.unwrap()@ == init_frames(
            height as nat,
        )[step as int],
        step >= INIT_FRAMES ==> frame.is_none(),
{
    match step {
        0 => Some(Frame::Command0(DISPLAYOFF)),
        1 => Some(Frame::Command1(SETDISPLAYCLOCKDIV, CLOCKDIV_DEFAULT)),
        2 => Some(Frame::Command1(SETMULTIPLEX, (height - 1) as u8)),
        3 => Some(Frame::Command1(SETDISPLAYOFFSET, DISPLAYOFFSET_NONE)),
        4 => Some(Frame::Command0(SETSTARTLINE | 0x00)),
        5 => Some(Frame::Command1(CHARGEPUMP, CHARGEPUMP_ENABLE)),
        6 => Some(Frame::Command1(MEMORYMODE, MEMORYMODE_HORIZONTAL)),
        7 => Some(Frame::Command0(SEGREMAP | 0x01)),
        8 => Some(Frame::Command0(COMSCANDEC)),
        9 => Some(Frame::Command1(SETCOMPINS, COMPINS_ALTERNATIVE)),
        10 => Some(Frame::Command1(SETCONTRAST, CONTRAST_SWITCHCAP)),
        11 => Some(Frame::Command1(SETPRECHARGE, PRECHARGE_SWITCHCAP)),
        12 => Some(Frame::Command1(SETVCOMDETECT, VCOMDETECT_LEVEL)),
        13 => Some(Frame::Command0(DISPLAYALLON_RESUME)),
        14 => Some(Frame::Command0(NORMALDISPLAY)),
        15 => Some(Frame::Command0(DEACTIVATE_SCROLL)),
        16 => Some(Frame::Command0(DISPLAYON)),
        _ => None,
    }
}

/// Frame number `step` of a redraw of a panel of `width` columns with
/// `payload`, `None` past the last one.
pub fn draw_frame<'a>(step: usize, width: usize, payload: &'a [u8]) -> (frame: Option<Frame<'a>>)
    requires
        supported_dimension(width as nat),
    ensures
        draw_frames(width as nat, payload@).len() == DRAW_FRAMES,
        step < DRAW_FRAMES ==> frame.is_some() && frame.unwrap()@ == draw_frames(
            width as nat,
            payload@,
        )[step as int],
        step >= DRAW_FRAMES ==> frame.is_none(),
{
    match step {
        0 => Some(Frame::Command2(COLUMNADDR, WINDOW_START, (width - 1) as u8)),
        1 => Some(Frame::Command2(PAGEADDR, WINDOW_START, LAST_PAGE)),
        2 => Some(Frame::Data(payload)),
        _ => None,
    }
}

/// The primitives of `frames` for the display at `addr`: the frames' own
/// primitives, one frame after the other.
pub open spec fn wire_of(frames: Seq<FrameView>, addr: u8) -> Seq<BusOpView>
    decreases frames.len(),
{
    if frames.len() == 0 {
        Seq::empty()
    } else {
        wire_of(frames.drop_last(), addr) + frames.last().wire(addr)
    }
}

/// Where frame number `index` begins in `wire_of(frames, addr)`: the number
/// of primitives in the frames before it.
pub open spec fn frame_start(frames: Seq<FrameView>, addr: u8, index: int) -> nat {
    wire_of(frames.take(index), addr).len()
}

/// The first frame begins at 0, each further frame where the one before it
/// ends, and the last one ends where the primitives end.
pub proof fn lemma_frame_start(frames: Seq<FrameView>, addr: u8, index: int)
    requires
        0 <= index < frames.len(),
    ensures
        frame_start(frames, addr, 0) == 0,
        frame_start(frames, addr, index + 1) == frame_start(frames, addr, index)
            + frames[index].wire(addr).len(),
        frame_start(frames, addr, frames.len() as int) == wire_of(frames, addr).len(),
{
    assert(frames.take(index + 1).drop_last() =~= frames.take(index));
    assert(frames.take(index + 1).last() == frames[index]);
    assert(frames.take(frames.len() as int) =~= frames);
}

/// Primitive number `offset` of frame number `index` stands in
/// `wire_of(frames, addr)` at the frame's start plus `offset`.
pub proof fn lemma_wire_of_index(frames: Seq<FrameView>, addr: u8, index: int, offset: int)
    requires
        0 <= index < frames.len(),
        0 <= offset < frames[index].wire(addr).len(),
    ensures
        frame_start(frames, addr, index) + offset < wire_of(frames, addr).len(),
        wire_of(frames, addr)[frame_start(frames, addr, index) + offset] == frames[index].wire(
            addr,
        )[offset],
    decreases frames.len(),
{
    let front = frames.drop_last();
    if index == frames.len() - 1 {
        assert(frames.take(index) =~= front);
    } else {
        lemma_wire_of_index(front, addr, index, offset);
        assert(front.take(index) =~= frames.take(index));
    }
}

/// The primitives of any row of frames are a row of whole transactions: each
/// start is answered by one stop before the next start, and no two
/// transactions overlap.
pub proof fn lemma_wire_of_well_framed(frames: Seq<FrameView>, addr: u8)
    ensures
        well_framed(wire_of(frames, addr)),
    decreases frames.len(),
{
    if frames.len() > 0 {
        lemma_wire_of_well_framed(frames.drop_last(), addr);
        lemma_frame_well_framed(frames.last(), addr);
        lemma_line_after_concat(
            Line::Idle,
            wire_of(frames.drop_last(), addr),
            frames.last().wire(addr),
        );
    }
}

/// The multiplex ratio that the initialisation sets, its third frame's one
/// argument, is the panel height less one, for every supported height.
pub proof fn lemma_multiplex_ratio(height: nat)
    requires
        supported_dimension(height),
    ensures
        init_frames(height)[2] == command(SETMULTIPLEX, seq![(height - 1) as u8]),
        ((height - 1) as u8) as int == height - 1,
{
}

/// The initialisation is seventeen frames, each of them a command.
pub proof fn lemma_init_frames_are_commands(height: nat, index: int)
    requires
        0 <= index < 17,
    ensures
        init_frames(height).len() == 17,
        init_frames(height)[index] is Command,
{
}

/// The initialisation of a panel of 64 rows, byte by byte.
pub proof fn lemma_init_frames_bytes()
    ensures
        init_frames(64) == seq![
            command(0xae, seq![]),
            command(0xd5, seq![0x80]),
            command(0xa8, seq![0x3f]),
            command(0xd3, seq![0x00]),
            command(0x40, seq![]),
            command(0x8d, seq![0x14]),
            command(0x20, seq![0x00]),
            command(0xa1, seq![]),
            command(0xc8, seq![]),
            command(0xda, seq![0x12]),
            command(0x81, seq![0xcf]),
            command(0xd9, seq![0xf1]),
            command(0xdb, seq![0x40]),
            command(0xa4, seq![]),
            command(0xa6, seq![]),
            command(0x2e, seq![]),
            command(0xaf, seq![]),
        ],
{
    assert(0x40u8 | 0x00u8 == 0x40u8) by (bit_vector);
    assert(0xa0u8 | 0x01u8 == 0xa1u8) by (bit_vector);
}

/// A redraw of a panel of 128 columns, byte by byte: the column window from
/// 0 to 127, the page window from 0 to 7, and the payload as it is.
pub proof fn lemma_draw_frames_bytes(payload: Seq<u8>)
    ensures
        draw_frames(128, payload) == seq![
            command(0x21, seq![0, 127]),
            command(0x22, seq![0, 7]),
            FrameView::Data { payload },
        ],
{
}

/// The initialisation is 94 primitives on the wire: eight commands without
/// an argument at five primitives each, and nine with one argument at six.
pub proof fn lemma_init_wire_len(height: nat, addr: u8)
    ensures
        wire_of(init_frames(height), addr).len() == 94,
{
    let frames = init_frames(height);
    lemma_frame_start(frames, addr, 0);
    lemma_frame_start(frames, addr, 1);
    lemma_frame_start(frames, addr, 2);
    lemma_frame_start(frames, addr, 3);
    lemma_frame_start(frames, addr, 4);
    lemma_frame_start(frames, addr, 5);
    lemma_frame_start(frames, addr, 6);
    lemma_frame_start(frames, addr, 7);
    lemma_frame_start(frames, addr, 8);
    lemma_frame_start(frames, addr, 9);
    lemma_frame_start(frames, addr, 10);
    lemma_frame_start(frames, addr, 11);
    lemma_frame_start(frames, addr, 12);
    lemma_frame_start(frames, addr, 13);
    lemma_frame_start(frames, addr, 14);
    lemma_frame_start(frames, addr, 15);
    lemma_frame_start(frames, addr, 16);
}

/// A redraw is 19 primitives on the wire, whatever the payload: two commands
/// with two arguments at seven primitives each, and the data frame at five.
pub proof fn lemma_draw_wire_len(width: nat, payload: Seq<u8>, addr: u8)
    ensures
        wire_of(draw_frames(width, payload), addr).len() == 19,
{
    let frames = draw_frames(width, payload);
    lemma_frame_start(frames, addr, 0);
    lemma_frame_start(frames, addr, 1);
    lemma_frame_start(frames, addr, 2);
}

} // verus!
