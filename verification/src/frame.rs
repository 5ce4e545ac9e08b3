//! Frames: the bus transactions that carry commands and display data.
//!
//! A frame opens a transaction, addresses the display for writing, says with
//! a control byte whether a command or display data follows, writes it, and
//! closes the transaction.

use vstd::prelude::*;
use crate::bus::{line_after, lemma_line_after_concat, well_framed, BusOp, BusOpView, Line};

verus! {

/// Control byte that announces a command and its arguments.
pub const CONTROL_COMMAND: u8 = 0x00;

/// Control byte that announces display data.
pub const CONTROL_DATA: u8 = 0x40;

/// The primitives that open a frame: start, address for writing, control byte.
pub open spec fn frame_head(addr: u8, control: u8) -> Seq<BusOpView> {
    seq![
        BusOpView::Start,
        BusOpView::WriteAddress { addr, read: false },
        BusOpView::WriteByte(control),
    ]
}

/// A command frame on the wire: the head, the opcode, each argument as a byte
/// of its own, and the stop.
pub open spec fn command_wire(addr: u8, opcode: u8, args: Seq<u8>) -> Seq<BusOpView> {
    frame_head(addr, CONTROL_COMMAND) + seq![BusOpView::WriteByte(opcode)] + Seq::new(
        args.len(),
        |i: int| BusOpView::WriteByte(args[i]),
    ) + seq![BusOpView::Stop]
}

/// A data frame on the wire: the head, the payload as one bulk write, and the
/// stop.
pub open spec fn data_wire(addr: u8, payload: Seq<u8>) -> Seq<BusOpView> {
    frame_head(addr, CONTROL_DATA) + seq![BusOpView::WriteBytes(payload)] + seq![BusOpView::Stop]
}

/// Primitive number `index` of a command frame without arguments, `None` past
/// its end.
pub fn write_command0(addr: u8, cmd: u8, index: usize) -> (op: Option<BusOp<'static>>)
    ensures
        command_wire(addr, cmd, seq![]).len() == 5,
        index < 5 ==> op.is_some() && op.unwrap()@ == command_wire(addr, cmd, seq![])[index as int],
        index >= 5 ==> op.is_none(),
{
    match index {
        0 => Some(BusOp::Start),
        1 => Some(BusOp::WriteAddress { addr, read: false }),
        2 => Some(BusOp::WriteByte(CONTROL_COMMAND)),
        3 => Some(BusOp::WriteByte(cmd)),
        4 => Some(BusOp::Stop),
        _ => None,
    }
}

/// Primitive number `index` of a command frame with one argument, `None` past
/// its end.
pub fn write_command1(addr: u8, cmd: u8, arg1: u8, index: usize) -> (op: Option<BusOp<'static>>)
    ensures
        command_wire(addr, cmd, seq![arg1]).len() == 6,
        index < 6 ==> op.is_some() && op.unwrap()@ == command_wire(addr, cmd, seq![arg1])[index as int],
        index >= 6 ==> op.is_none(),
{
    match index {
        0 => Some(BusOp::Start),
        1 => Some(BusOp::WriteAddress { addr, read: false }),
        2 => Some(BusOp::WriteByte(CONTROL_COMMAND)),
        3 => Some(BusOp::WriteByte(cmd)),
        4 => Some(BusOp::WriteByte(arg1)),
        5 => Some(BusOp::Stop),
        _ => None,
    }
}

/// Primitive number `index` of a command frame with two arguments, `None`
/// past its end.
pub fn write_command2(addr: u8, cmd: u8, arg1: u8, arg2: u8, index: usize) -> (op: Option<
    BusOp<'static>,
>)
    ensures
        command_wire(addr, cmd, seq![arg1, arg2]).len() == 7,
        index < 7 ==> op.is_some() && op.unwrap()@ == command_wire(
            addr,
            cmd,
            seq![arg1, arg2],
        )[index as int],
        index >= 7 ==> op.is_none(),
{
    match index {
        0 => Some(BusOp::Start),
        1 => Some(BusOp::WriteAddress { addr, read: false }),
        2 => Some(BusOp::WriteByte(CONTROL_COMMAND)),
        3 => Some(BusOp::WriteByte(cmd)),
        4 => Some(BusOp::WriteByte(arg1)),
        5 => Some(BusOp::WriteByte(arg2)),
        6 => Some(BusOp::Stop),
        _ => None,
    }
}

/// Primitive number `index` of a data frame, `None` past its end.
pub fn write_data<'a>(addr: u8, data: &'a [u8], index: usize) -> (op: Option<BusOp<'a>>)
    ensures
        data_wire(addr, data@).len() == 5,
        index < 5 ==> op.is_some() && op.unwrap()@ == data_wire(addr, data@)[index as int],
        index >= 5 ==> op.is_none(),
{
    match index {
        0 => Some(BusOp::Start),
        1 => Some(BusOp::WriteAddress { addr, read: false }),
        2 => Some(BusOp::WriteByte(CONTROL_DATA)),
        3 => Some(BusOp::WriteBytes(data)),
        4 => Some(BusOp::Stop),
        _ => None,
    }
}

/// One frame as a mathematical value.
pub enum FrameView {
    /// A command with its argument bytes.
    Command { opcode: u8, args: Seq<u8> },
    /// Display data, relayed as it is.
    Data { payload: Seq<u8> },
}

impl FrameView {
    /// The primitives of this frame, in order, for the display at `addr`.
    pub open spec fn wire(self, addr: u8) -> Seq<BusOpView> {
        match self {
            FrameView::Command { opcode, args } => command_wire(addr, opcode, args),
            FrameView::Data { payload } => data_wire(addr, payload),
        }
    }
}

/// One frame to put on the bus.
#[derive(Clone, Copy, Debug, PartialEq, Eq)]
pub enum Frame<'a> {
    /// A command without arguments.
    Command0(u8),
    /// A command with one argument.
    Command1(u8, u8),
    /// A command with two arguments.
    Command2(u8, u8, u8),
    /// Display data.
    Data(&'a [u8]),
}

impl<'a> View for Frame<'a> {
    type V = FrameView;

    open spec fn view(&self) -> FrameView {
        match *self {
            Frame::Command0(cmd) => FrameView::Command { opcode: cmd, args: seq![] },
            Frame::Command1(cmd, arg1) => FrameView::Command { opcode: cmd, args: seq![arg1] },
            Frame::Command2(cmd, arg1, arg2) => FrameView::Command {
                opcode: cmd,
                args: seq![arg1, arg2],
            },
            Frame::Data(data) => FrameView::Data { payload: data@ },
        }
    }
}

impl<'a> Frame<'a> {
    /// Primitive number `index` of this frame for the display at `addr`,
    /// `None` past the frame's end.
    pub fn primitive(&self, addr: u8, index: usize) -> (op: Option<BusOp<'a>>)
        ensures
            5 <= self@.wire(addr).len() <= 7,
            index < self@.wire(addr).len() ==> op.is_some() && op.unwrap()@ == self@.wire(
                addr,
            )[index as int],
            index >= self@.wire(addr).len() ==> op.is_none(),
    {
        match *self {
            Frame::Command0(cmd) => write_command0(addr, cmd, index),
            Frame::Command1(cmd, arg1) => write_command1(addr, cmd, arg1, index),
            Frame::Command2(cmd, arg1, arg2) => write_command2(addr, cmd, arg1, arg2, index),
            Frame::Data(data) => write_data(addr, data, index),
        }
    }
}

/// Writing bytes one by one inside a transaction leaves it open.
proof fn lemma_bytes_keep_busy(bytes: Seq<u8>)
    ensures
        line_after(Line::Busy, Seq::new(bytes.len(), |i: int| BusOpView::WriteByte(bytes[i])))
            == Line::Busy,
    decreases bytes.len(),
{
    let ops = Seq::new(bytes.len(), |i: int| BusOpView::WriteByte(bytes[i]));
    if bytes.len() > 0 {
        let front = bytes.drop_last();
        lemma_bytes_keep_busy(front);
        assert(ops.drop_last() =~= Seq::new(front.len(), |i: int| BusOpView::WriteByte(front[i])));
    }
}

/// Every frame is one whole transaction: on an idle bus it opens with the
/// one start, writes only inside the transaction, closes with the one stop,
/// and leaves the bus idle.
pub proof fn lemma_frame_well_framed(frame: FrameView, addr: u8)
    ensures
        well_framed(frame.wire(addr)),
        frame.wire(addr).len() >= 5,
        frame.wire(addr).first() == BusOpView::Start,
        frame.wire(addr).last() == BusOpView::Stop,
{
    let control = match frame {
        FrameView::Command { .. } => CONTROL_COMMAND,
        FrameView::Data { .. } => CONTROL_DATA,
    };
    let head = frame_head(addr, control);
    let stop = seq![BusOpView::Stop];
    assert(line_after(Line::Idle, head) == Line::Busy) by {
        reveal_with_fuel(line_after, 4);
    }
    match frame {
        FrameView::Command { opcode, args } => {
            let opcode_op = seq![BusOpView::WriteByte(opcode)];
            let arg_ops = Seq::new(args.len(), |i: int| BusOpView::WriteByte(args[i]));
            lemma_line_after_concat(Line::Idle, head, opcode_op);
            assert(line_after(Line::Busy, opcode_op) == Line::Busy) by {
                reveal_with_fuel(line_after, 2);
            }
            lemma_line_after_concat(Line::Idle, head + opcode_op, arg_ops);
            lemma_bytes_keep_busy(args);
            lemma_line_after_concat(Line::Idle, head + opcode_op + arg_ops, stop);
            assert(line_after(Line::Busy, stop) == Line::Idle) by {
                reveal_with_fuel(line_after, 2);
            }
        },
        FrameView::Data { payload } => {
            let bulk = seq![BusOpView::WriteBytes(payload)];
            lemma_line_after_concat(Line::Idle, head, bulk);
            assert(line_after(Line::Busy, bulk) == Line::Busy) by {
                reveal_with_fuel(line_after, 2);
            }
            lemma_line_after_concat(Line::Idle, head + bulk, stop);
            assert(line_after(Line::Busy, stop) == Line::Idle) by {
                reveal_with_fuel(line_after, 2);
            }
        },
    }
}

} // verus!
