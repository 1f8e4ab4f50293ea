//! The poll pass: drain what was received, then reap what was sent.

use vstd::prelude::*;
use crate::ring_buf::SkbDma;
use crate::ring_laws::lemma_rx_run_bounded;
use crate::rx_ring::RxDrain;
use crate::rx_ring::RxRingBuf;
use crate::tx_ring::TxRingBuf;

verus! {

/// What one poll pass produced.
#[derive(Debug, PartialEq, Eq)]
pub struct PollOutcome<B> {
    /// The receive side: packets to deliver, the tail to publish.
    pub rx: RxDrain<B>,
    /// The transmit side: buffers of packets that were sent, oldest first.
    pub tx_done: Vec<SkbDma<B>>,
    /// The work done: the number of packets delivered. It goes with the
    /// completion signal and tells the scheduler whether to wait for the
    /// next interrupt or to poll again.
    pub work_done: i32,
}

/// The work count of a drain that delivered `delivered` packets.
pub open spec fn work_count(delivered: int) -> int {
    if delivered <= i32::MAX {
        delivered
    } else {
        i32::MAX as int
    }
}

/// The work count of a drain: the number of packets it delivered, as the
/// scheduler takes it.
pub fn work_done<B>(rx: &RxDrain<B>) -> (w: i32)
    ensures
        w == work_count(rx.packets@.len() as int),
{
    let delivered: usize = rx.packets.len();
    if delivered <= i32::MAX as usize {
        delivered as i32
    } else {
        i32::MAX
    }
}

/// One poll pass: a drain of the receive ring, then a reap of the transmit
/// ring, then the work count for the completion signal. `rdt` and `tdh` are
/// what the receive tail and the transmit head registers read, and `fresh`
/// holds the replacement buffers for the drain. The pass is driven by done
/// bits: the budget does not cut it short, and a drain visits no descriptor
/// twice. The two rings are touched one after the other, never together, so
/// a caller that guards them with two locks can make the two calls itself,
/// each under its own lock, and take the count from `work_done`.
pub fn poll<B>(
    budget: i32,
    rx_ring: &mut RxRingBuf<B>,
    tx_ring: &mut TxRingBuf<B>,
    rdt: u32,
    tdh: u32,
    fresh: Vec<SkbDma<B>>,
) -> (out: PollOutcome<B>)
    requires
        old(rx_ring)@.wf(),
        old(tx_ring)@.wf(),
    ensures
        final(rx_ring)@.wf(),
        final(tx_ring)@.wf(),
        final(rx_ring)@ == old(rx_ring)@.drain(rdt, fresh@),
        final(tx_ring)@ == old(tx_ring)@.recycle(tdh),
        out.rx.packets@ == old(rx_ring)@.packets(rdt, fresh@),
        out.rx.dropped == old(rx_ring)@.pending(rdt) - old(rx_ring)@.delivered(
            rdt,
            fresh@.len() as int,
        ),
        out.rx.rearmed@ == old(rx_ring)@.rearmed(rdt),
        out.rx.spare@ == fresh@.skip(old(rx_ring)@.delivered(rdt, fresh@.len() as int)),
        out.rx.tail == old(rx_ring)@.drain_tail(rdt),
        out.tx_done@ == old(tx_ring)@.released(tdh),
        out.work_done == out.rx.packets@.len(),
        out.work_done == old(rx_ring)@.delivered(rdt, fresh@.len() as int),
{
    proof {
        lemma_rx_run_bounded(
            rx_ring@.descs,
            rx_ring@.drain_start(rdt),
            rx_ring@.len(),
        );
    }
    let rx: RxDrain<B> = rx_ring.drain(rdt, fresh);
    let tx_done: Vec<SkbDma<B>> = tx_ring.recycle(tdh);
    let work: i32 = work_done(&rx);
    PollOutcome { rx, tx_done, work_done: work }
}

} // verus!
