//! Whole runs of a transfer, and what holds of every run.

use vstd::prelude::*;
use crate::bus::BusOpView;
use crate::frame::FrameView;
use crate::script::{
    draw_frames, init_frames, lemma_draw_wire_len, lemma_init_wire_len, wire_of,
};
use crate::transfer::{StepView, TransferView};

verus! {

/// What a run put on the bus and how it ended.
pub struct RunView<E> {
    /// The primitives handed to the transport, in order.
    pub issued: Seq<BusOpView>,
    /// The result of the operation.
    pub result: Result<(), E>,
}

/// The run of `transfer` to its end on a transport that answers primitive
/// number `i` of the script with `answers(i)`: perform the pending primitive,
/// advance with the answer, and go on until the transfer is done.
pub open spec fn run<E>(transfer: TransferView, answers: spec_fn(nat) -> Result<(), E>) -> RunView<E>
    decreases transfer.script.len() - transfer.position,
{
    match transfer.advance(answers(transfer.position)) {
        StepView::Done(result) => RunView { issued: seq![transfer.pending()], result },
        StepView::Continue(next) => {
            let rest = run(next, answers);
            RunView { issued: seq![transfer.pending()] + rest.issued, result: rest.result }
        },
    }
}

/// On a transport that answers every remaining primitive with success, a run
/// performs exactly the rest of the script, in order, once each and nothing
/// beyond it, and ends in success.
pub proof fn lemma_run_succeeds<E>(transfer: TransferView, answers: spec_fn(nat) -> Result<(), E>)
    requires
        transfer.wf(),
        forall|i: nat| transfer.position <= i < transfer.script.len() ==> (#[trigger] answers(i)).is_ok(),
    ensures
        run(transfer, answers).issued == transfer.script.skip(transfer.position as int),
        run(transfer, answers).result == Ok::<(), E>(()),
    decreases transfer.script.len() - transfer.position,
{
    assert(answers(transfer.position).is_ok());
    match transfer.advance(answers(transfer.position)) {
        StepView::Done(result) => {
            assert(run(transfer, answers).issued =~= transfer.script.skip(transfer.position as int));
        },
        StepView::Continue(next) => {
            lemma_run_succeeds(next, answers);
            assert(run(transfer, answers).issued =~= transfer.script.skip(transfer.position as int));
        },
    }
}

/// If the transport answers primitive number `failing` with `error` and all
/// remaining primitives before it with success, a run performs the script up
/// to and including that primitive, performs none after it, and ends with
/// `error` itself.
pub proof fn lemma_run_fails<E>(
    transfer: TransferView,
    answers: spec_fn(nat) -> Result<(), E>,
    failing: nat,
    error: E,
)
    requires
        transfer.wf(),
        transfer.position <= failing < transfer.script.len(),
        answers(failing) == Err::<(), E>(error),
        forall|i: nat| transfer.position <= i < failing ==> (#[trigger] answers(i)).is_ok(),
    ensures
        run(transfer, answers).issued == transfer.script.subrange(
            transfer.position as int,
            failing as int + 1,
        ),
        run(transfer, answers).result == Err::<(), E>(error),
    decreases transfer.script.len() - transfer.position,
{
    if transfer.position == failing {
        assert(run(transfer, answers).issued =~= transfer.script.subrange(
            transfer.position as int,
            failing as int + 1,
        ));
    } else {
        assert(answers(transfer.position).is_ok());
        match transfer.advance(answers(transfer.position)) {
            StepView::Done(result) => {},
            StepView::Continue(next) => {
                lemma_run_fails(next, answers, failing, error);
                assert(run(transfer, answers).issued =~= transfer.script.subrange(
                    transfer.position as int,
                    failing as int + 1,
                ));
            },
        }
    }
}

/// On a transport that never fails, the initialisation puts its seventeen
/// command frames on the bus, in their order and for the display at `addr`,
/// and nothing else, and ends in success.
pub proof fn lemma_init_run<E>(height: nat, addr: u8, answers: spec_fn(nat) -> Result<(), E>)
    requires
        forall|i: nat| (#[trigger] answers(i)).is_ok(),
    ensures
        run(TransferView::begin(wire_of(init_frames(height), addr)), answers).issued == wire_of(
            init_frames(height),
            addr,
        ),
        run(TransferView::begin(wire_of(init_frames(height), addr)), answers).result == Ok::<
            (),
            E,
        >(()),
        init_frames(height).len() == 17,
{
    let script = wire_of(init_frames(height), addr);
    lemma_init_wire_len(height, addr);
    lemma_run_succeeds(TransferView::begin(script), answers);
    assert(script.skip(0) =~= script);
}

/// On a transport that never fails, a redraw puts on the bus the column
/// window command, the page window command and then one data frame that
/// holds `payload` as it is, and nothing else, and ends in success.
pub proof fn lemma_draw_run<E>(
    width: nat,
    payload: Seq<u8>,
    addr: u8,
    answers: spec_fn(nat) -> Result<(), E>,
)
    requires
        forall|i: nat| (#[trigger] answers(i)).is_ok(),
    ensures
        run(TransferView::begin(wire_of(draw_frames(width, payload), addr)), answers).issued
            == wire_of(draw_frames(width, payload), addr),
        run(TransferView::begin(wire_of(draw_frames(width, payload), addr)), answers).result
            == Ok::<(), E>(()),
        draw_frames(width, payload).len() == 3,
        draw_frames(width, payload)[2] == (FrameView::Data { payload }),
{
    let script = wire_of(draw_frames(width, payload), addr);
    lemma_draw_wire_len(width, payload, addr);
    lemma_run_succeeds(TransferView::begin(script), answers);
    assert(script.skip(0) =~= script);
}

} // verus!
