//! The primitives of the two-wire bus.

use vstd::prelude::*;

verus! {

/// One bus primitive as a mathematical value.
pub enum BusOpView {
    /// Begin a transaction.
    Start,
    /// Address the peripheral at the 7-bit `addr`, for reading or for writing.
    WriteAddress { addr: u8, read: bool },
    /// Write one byte.
    WriteByte(u8),
    /// Write the bytes in one bulk transfer.
    WriteBytes(Seq<u8>),
    /// End the transaction and release the bus.
    Stop,
}

/// One bus primitive for the transport to perform.
#[derive(Clone, Copy, Debug, PartialEq, Eq)]
pub enum BusOp<'a> {
    /// Begin a transaction.
    Start,
    /// Address the peripheral at the 7-bit `addr`, for reading or for writing.
    WriteAddress { addr: u8, read: bool },
    /// Write one byte.
    WriteByte(u8),
    /// Write the bytes, unchanged and in order, in one bulk transfer.
    WriteBytes(&'a [u8]),
    /// End the transaction and release the bus.
    Stop,
}

impl<'a> View for BusOp<'a> {
    type V = BusOpView;

    open spec fn view(&self) -> BusOpView {
        match *self {
            BusOp::Start => BusOpView::Start,
            BusOp::WriteAddress { addr, read } => BusOpView::WriteAddress { addr, read },
            BusOp::WriteByte(byte) => BusOpView::WriteByte(byte),
            BusOp::WriteBytes(bytes) => BusOpView::WriteBytes(bytes@),
            BusOp::Stop => BusOpView::Stop,
        }
    }
}

/// The state of the bus between two primitives.
pub enum Line {
    /// No transaction is open.
    Idle,
    /// A transaction is open.
    Busy,
    /// A primitive came out of place: a start inside a transaction, or a
    /// write or a stop outside one.
    Fault,
}

/// The state of the bus after `op` on a bus in state `line`.
pub open spec fn line_step(line: Line, op: BusOpView) -> Line {
    match (line, op) {
        (Line::Idle, BusOpView::Start) => Line::Busy,
        (Line::Busy, BusOpView::WriteAddress { .. }) => Line::Busy,
        (Line::Busy, BusOpView::WriteByte(_)) => Line::Busy,
        (Line::Busy, BusOpView::WriteBytes(_)) => Line::Busy,
        (Line::Busy, BusOpView::Stop) => Line::Idle,
        _ => Line::Fault,
    }
}

/// The state of the bus after `ops`, in order, on a bus in state `line`.
pub open spec fn line_after(line: Line, ops: Seq<BusOpView>) -> Line
    decreases ops.len(),
{
    if ops.len() == 0 {
        line
    } else {
        line_step(line_after(line, ops.drop_last()), ops.last())
    }
}

/// `ops` is a row of whole transactions on a bus that was idle: every start
/// finds the bus idle, every write stands inside a transaction, every
/// transaction is closed by one stop, and none is open at the end.
pub open spec fn well_framed(ops: Seq<BusOpView>) -> bool {
    line_after(Line::Idle, ops) == Line::Idle
}

/// Running `first` and then `second` is running their concatenation.
pub proof fn lemma_line_after_concat(line: Line, first: Seq<BusOpView>, second: Seq<BusOpView>)
    ensures
        line_after(line, first + second) == line_after(line_after(line, first), second),
    decreases second.len(),
{
    if second.len() == 0 {
        assert(first + second =~= first);
    } else {
        lemma_line_after_concat(line, first, second.drop_last());
        assert((first + second).drop_last() =~= first + second.drop_last());
        assert((first + second).last() == second.last());
    }
}

/// A fault stays: once a primitive has come out of place, no later primitive
/// mends it. So no prefix of a well-framed row is faulty.
pub proof fn lemma_prefix_without_fault(ops: Seq<BusOpView>, len: int)
    requires
        0 <= len <= ops.len(),
        well_framed(ops),
    ensures
        line_after(Line::Idle, ops.take(len)) != Line::Fault,
    decreases ops.len() - len,
{
    if len < ops.len() {
        lemma_prefix_without_fault(ops, len + 1);
        assert(ops.take(len + 1).drop_last() =~= ops.take(len));
    } else {
        assert(ops.take(len) =~= ops);
    }
}

} // verus!
