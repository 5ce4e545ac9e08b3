//! A transfer: one operation in progress on the bus.
//!
//! A transfer stands at one primitive of its script. The owner of the
//! transport performs that primitive and hands the answer to `advance`. A
//! failure ends the transfer with the transport's error; a success moves it
//! to the next primitive, or ends it once the script is through.

use vstd::prelude::*;
use crate::bus::{BusOp, BusOpView};
use crate::frame::{Frame, FrameView};
use crate::script::{
    draw_frame, draw_frames, init_frame, init_frames, frame_start, lemma_frame_start,
    lemma_wire_of_index, wire_of,
};
use crate::{SSD1306_LCDHEIGHT, SSD1306_LCDWIDTH};

verus! {

/// A transfer as a mathematical value: the primitives of the whole operation
/// and how many of them have succeeded.
pub struct TransferView {
    pub script: Seq<BusOpView>,
    pub position: nat,
}

/// What `advance` hands back, as a mathematical value.
pub enum StepView<E> {
    Continue(TransferView),
    Done(Result<(), E>),
}

impl TransferView {
    /// The transfer at the start of `script`.
    pub open spec fn begin(script: Seq<BusOpView>) -> TransferView {
        TransferView { script, position: 0 }
    }

    /// A transfer always stands at a primitive of its script.
    pub open spec fn wf(self) -> bool {
        self.position < self.script.len()
    }

    /// The primitive to perform now.
    pub open spec fn pending(self) -> BusOpView {
        self.script[self.position as int]
    }

    /// The transfer after the transport has answered the pending primitive
    /// with `outcome`.
    pub open spec fn advance<E>(self, outcome: Result<(), E>) -> StepView<E> {
        match outcome {
            Err(error) => StepView::Done(Err(error)),
            Ok(_) => if self.position + 1 < self.script.len() {
                StepView::Continue(
                    TransferView { script: self.script, position: self.position + 1 },
                )
            } else {
                StepView::Done(Ok(()))
            },
        }
    }
}

/// The operation that a transfer carries out.
#[derive(Clone, Copy, Debug)]
pub(crate) enum Operation<'a> {
    Init,
    Draw(&'a [u8]),
}

impl<'a> Operation<'a> {
    pub(crate) open spec fn frames(self) -> Seq<FrameView> {
        match self {
            Operation::Init => init_frames(SSD1306_LCDHEIGHT as nat),
            Operation::Draw(payload) => draw_frames(SSD1306_LCDWIDTH as nat, payload@),
        }
    }

    fn frame(&self, step: usize) -> (frame: Option<Frame<'a>>)
        ensures
            step < self.frames().len() ==> frame.is_some() && frame.unwrap()@
                == self.frames()[step as int],
            step >= self.frames().len() ==> frame.is_none(),
    {
        match *self {
            Operation::Init => init_frame(step, SSD1306_LCDHEIGHT),
            Operation::Draw(payload) => draw_frame(step, SSD1306_LCDWIDTH, payload),
        }
    }
}

/// One operation in progress.
#[derive(Debug)]
pub struct Transfer<'a> {
    addr: u8,
    operation: Operation<'a>,
    /// The frame at which the transfer stands.
    frame: usize,
    /// The primitive of that frame at which it stands.
    offset: usize,
}

/// What `advance` hands back.
#[derive(Debug)]
pub enum Step<'a, E> {
    /// Perform the pending primitive of this transfer next.
    Continue(Transfer<'a>),
    /// The operation has ended, with this result.
    Done(Result<(), E>),
}

impl<'a> View for Transfer<'a> {
    type V = TransferView;

    closed spec fn view(&self) -> TransferView {
        TransferView {
            script: wire_of(self.operation.frames(), self.addr),
            position: frame_start(self.operation.frames(), self.addr, self.frame as int)
                + self.offset as nat,
        }
    }
}

impl<'a, E> View for Step<'a, E> {
    type V = StepView<E>;

    open spec fn view(&self) -> StepView<E> {
        match *self {
            Step::Continue(transfer) => StepView::Continue(transfer@),
            Step::Done(result) => StepView::Done(result),
        }
    }
}

impl<'a> Transfer<'a> {
    #[verifier::type_invariant]
    spec fn inv(self) -> bool {
        &&& self.frame < self.operation.frames().len()
        &&& self.offset < self.operation.frames()[self.frame as int].wire(self.addr).len()
    }

    /// The transfer at the first primitive of `operation` for the display at
    /// `addr`.
    pub(crate) fn begin(addr: u8, operation: Operation<'a>) -> (transfer: Transfer<'a>)
        ensures
            transfer@ == TransferView::begin(wire_of(operation.frames(), addr)),
            transfer@.wf(),
    {
        proof {
            lemma_frame_start(operation.frames(), addr, 0);
            lemma_wire_of_index(operation.frames(), addr, 0, 0);
        }
        Transfer { addr, operation, frame: 0, offset: 0 }
    }

    /// The primitive to perform now.
    pub fn pending(&self) -> (op: BusOp<'a>)
        ensures
            self@.wf(),
            op@ == self@.pending(),
    {
        proof {
            use_type_invariant(self);
            lemma_wire_of_index(
                self.operation.frames(),
                self.addr,
                self.frame as int,
                self.offset as int,
            );
        }
        let frame = self.operation.frame(self.frame).unwrap();
        frame.primitive(self.addr, self.offset).unwrap()
    }

    /// Takes the transport's answer to the pending primitive. On an error the
    /// operation ends with that error. Otherwise the transfer moves to the
    /// next primitive, or the operation ends in success after the last one.
    pub fn advance<E>(self, outcome: Result<(), E>) -> (step: Step<'a, E>)
        ensures
            step@ == self@.advance(outcome),
            step matches Step::Continue(next) ==> next@.wf(),
    {
        proof {
            use_type_invariant(&self);
            lemma_frame_start(self.operation.frames(), self.addr, self.frame as int);
            lemma_wire_of_index(
                self.operation.frames(),
                self.addr,
                self.frame as int,
                self.offset as int,
            );
        }
        match outcome {
            Err(error) => Step::Done(Err(error)),
            Ok(_) => {
                let frame = self.operation.frame(self.frame).unwrap();
                if frame.primitive(self.addr, self.offset + 1).is_some() {
                    proof {
                        lemma_wire_of_index(
                            self.operation.frames(),
                            self.addr,
                            self.frame as int,
                            self.offset + 1,
                        );
                    }
                    Step::Continue(
                        Transfer {
                            addr: self.addr,
                            operation: self.operation,
                            frame: self.frame,
                            offset: self.offset + 1,
                        },
                    )
                } else if self.operation.frame(self.frame + 1).is_some() {
                    proof {
                        lemma_wire_of_index(
                            self.operation.frames(),
                            self.addr,
                            self.frame + 1,
                            0,
                        );
                    }
                    Step::Continue(
                        Transfer {
                            addr: self.addr,
                            operation: self.operation,
                            frame: self.frame + 1,
                            offset: 0,
                        },
                    )
                } else {
                    Step::Done(Ok(()))
                }
            },
        }
    }
}

} // verus!
