//! What holds of the rings whatever is done to them: who may touch a
//! descriptor, that the reap cursor never passes the producer, and that a
//! drain leaves no descriptor behind.

use vstd::prelude::*;
use crate::consts::RXTX_SINGLE_RING_BLOCK_SIZE;
use crate::hw_defs::Owner;
use crate::hw_defs::RxDescEntry;
use crate::hw_defs::TxDescEntry;
use crate::ring_buf::ring_add;
use crate::ring_buf::ring_dist;
use crate::ring_buf::ring_next;
use crate::ring_buf::SkbDma;
use crate::rx_ring::rx_done_run;
use crate::rx_ring::RxRingView;
use crate::tx_ring::tx_completed_run;
use crate::tx_ring::TxError;
use crate::tx_ring::TxRingView;

verus! {

/// A run of completed transmit descriptors is no longer than the limit it
/// was counted under.
pub proof fn lemma_tx_run_bounded<B>(
    descs: Seq<TxDescEntry>,
    slots: Seq<Option<SkbDma<B>>>,
    from: int,
    limit: int,
)
    requires
        0 <= limit,
    ensures
        0 <= tx_completed_run(descs, slots, from, limit) <= limit,
    decreases limit,
{
    if limit > 0 && descs[from].done() && slots[from].is_some() {
        lemma_tx_run_bounded(descs, slots, ring_next(from, descs.len() as int), limit - 1);
    }
}

/// Every descriptor within a run of completed transmit descriptors is done
/// and holds its buffer.
pub proof fn lemma_tx_run_completed<B>(
    descs: Seq<TxDescEntry>,
    slots: Seq<Option<SkbDma<B>>>,
    from: int,
    limit: int,
    j: int,
)
    requires
        0 <= from < descs.len(),
        0 <= limit <= descs.len(),
        0 <= j < tx_completed_run(descs, slots, from, limit),
    ensures
        descs[ring_add(from, j, descs.len() as int)].done(),
        slots[ring_add(from, j, descs.len() as int)].is_some(),
    decreases limit,
{
    let n = descs.len() as int;
    if j > 0 {
        lemma_tx_run_bounded(descs, slots, ring_next(from, n), limit - 1);
        lemma_tx_run_completed(descs, slots, ring_next(from, n), limit - 1, j - 1);
        assert(ring_add(ring_next(from, n), j - 1, n) == ring_add(from, j, n));
    }
}

/// A run of filled receive descriptors is no longer than the limit it was
/// counted under.
pub proof fn lemma_rx_run_bounded(descs: Seq<RxDescEntry>, from: int, limit: int)
    requires
        0 <= limit,
    ensures
        0 <= rx_done_run(descs, from, limit) <= limit,
    decreases limit,
{
    if limit > 0 && descs[from].done() {
        lemma_rx_run_bounded(descs, ring_next(from, descs.len() as int), limit - 1);
    }
}

/// Every descriptor within a run of filled receive descriptors is done.
pub proof fn lemma_rx_run_done(descs: Seq<RxDescEntry>, from: int, limit: int, j: int)
    requires
        0 <= from < descs.len(),
        0 <= limit <= descs.len(),
        0 <= j < rx_done_run(descs, from, limit),
    ensures
        descs[ring_add(from, j, descs.len() as int)].done(),
    decreases limit,
{
    let n = descs.len() as int;
    if j > 0 {
        lemma_rx_run_bounded(descs, ring_next(from, n), limit - 1);
        lemma_rx_run_done(descs, ring_next(from, n), limit - 1, j - 1);
        assert(ring_add(ring_next(from, n), j - 1, n) == ring_add(from, j, n));
    }
}

/// A run of filled receive descriptors ends at a descriptor that is not
/// done, unless it went once round the ring.
pub proof fn lemma_rx_run_stops(descs: Seq<RxDescEntry>, from: int, limit: int)
    requires
        0 <= from < descs.len(),
        0 <= limit <= descs.len(),
        rx_done_run(descs, from, limit) < limit,
    ensures
        !descs[ring_add(from, rx_done_run(descs, from, limit), descs.len() as int)].done(),
    decreases limit,
{
    let n = descs.len() as int;
    if limit > 0 && descs[from].done() {
        let k = rx_done_run(descs, ring_next(from, n), limit - 1);
        lemma_rx_run_bounded(descs, ring_next(from, n), limit - 1);
        lemma_rx_run_stops(descs, ring_next(from, n), limit - 1);
        assert(ring_add(ring_next(from, n), k, n) == ring_add(from, k + 1, n));
    }
}

/// Software keeps its hands off what the device owns, on the transmit side:
/// neither queueing a packet nor reaping changes a descriptor whose done bit
/// is clear, or the buffer in its slot.
pub proof fn lemma_tx_software_leaves_hardware_alone<B>(
    ring: TxRingView<B>,
    tdt: u32,
    len: usize,
    pkt: SkbDma<B>,
    tdh: u32,
    i: int,
)
    requires
        ring.wf(),
        0 <= i < ring.len(),
        ring.descs[i].owner() == Owner::Hardware,
    ensures
        ring.transmit_verdict(tdt, len).is_ok() ==> {
            &&& ring.transmit(tdt, len, pkt).descs[i] == ring.descs[i]
            &&& ring.transmit(tdt, len, pkt).slots[i] == ring.slots[i]
        },
        ring.recycle(tdh).descs[i] == ring.descs[i],
        ring.recycle(tdh).slots[i] == ring.slots[i],
{
    let n = ring.len();
    let limit = ring.reap_limit(tdh);
    let j = ring_dist(ring.cursor, i, n);
    lemma_tx_run_bounded(ring.descs, ring.slots, ring.cursor, limit);
    if j < ring.reapable(tdh) {
        lemma_tx_run_completed(ring.descs, ring.slots, ring.cursor, limit, j);
        assert(ring_add(ring.cursor, j, n) == i);
    }
}

/// The device can write only to what it owns, on the transmit side: a
/// write-back over a descriptor whose done bit is set is refused, and an
/// accepted one changes that one descriptor and no slot.
pub proof fn lemma_tx_hardware_leaves_software_alone<B>(
    ring: TxRingView<B>,
    idx: usize,
    entry: TxDescEntry,
    i: int,
)
    requires
        ring.wf(),
        0 <= i < ring.len(),
        ring.descs[i].owner() == Owner::Software,
    ensures
        i == idx ==> !ring.accepts_write_back(idx, entry),
        ring.accepts_write_back(idx, entry) ==> {
            &&& ring.write_back(idx, entry).descs[i] == ring.descs[i]
            &&& ring.write_back(idx, entry).slots == ring.slots
            &&& ring.write_back(idx, entry).cursor == ring.cursor
        },
{
}

/// Software keeps its hands off what the device owns, on the receive side:
/// a drain changes neither a descriptor whose done bit is clear nor the
/// buffer in its slot.
pub proof fn lemma_rx_software_leaves_hardware_alone<B>(
    ring: RxRingView<B>,
    rdt: u32,
    fresh: Seq<SkbDma<B>>,
    i: int,
)
    requires
        ring.wf(),
        0 <= i < ring.len(),
        ring.descs[i].owner() == Owner::Hardware,
    ensures
        ring.drain(rdt, fresh).descs[i] == ring.descs[i],
        ring.drain(rdt, fresh).slots[i] == ring.slots[i],
{
    let n = ring.len();
    let start = ring.drain_start(rdt);
    let j = ring_dist(start, i, n);
    lemma_rx_run_bounded(ring.descs, start, n);
    if j < ring.pending(rdt) {
        lemma_rx_run_done(ring.descs, start, n, j);
        assert(ring_add(start, j, n) == i);
    }
}

/// The device can write only to what it owns, on the receive side: a
/// write-back over a descriptor whose done bit is set is refused, and an
/// accepted one changes that one descriptor and no slot.
pub proof fn lemma_rx_hardware_leaves_software_alone<B>(
    ring: RxRingView<B>,
    idx: usize,
    entry: RxDescEntry,
    i: int,
)
    requires
        ring.wf(),
        0 <= i < ring.len(),
        ring.descs[i].owner() == Owner::Software,
    ensures
        i == idx ==> !ring.accepts_write_back(idx, entry),
        ring.accepts_write_back(idx, entry) ==> {
            &&& ring.write_back(idx, entry).descs[i] == ring.descs[i]
            &&& ring.write_back(idx, entry).slots == ring.slots
            &&& ring.write_back(idx, entry).cursor == ring.cursor
        },
{
}

/// A packet is never queued over a buffer that has not been reaped: where
/// the slot at the tail is taken, the verdict is "ring full".
pub proof fn lemma_tx_no_overwrite<B>(ring: TxRingView<B>, tdt: u32, len: usize)
    requires
        ring.wf(),
        ring.slots[ring.index_of(tdt)].is_some(),
    ensures
        ring.transmit_verdict(tdt, len) == Err::<int, TxError>(TxError::RingFull),
{
}

/// A new transmit ring has nothing in flight.
pub proof fn lemma_tx_window_starts_empty<B>(ring: TxRingView<B>)
    requires
        ring.wf(),
        forall|i: int| 0 <= i < ring.len() ==> (#[trigger] ring.slots[i]).is_none(),
    ensures
        ring.window(0),
{
}

/// Queueing at the producer index grows the window by one and never beyond
/// the ring: with the window full, the packet is refused.
pub proof fn lemma_tx_transmit_keeps_window<B>(
    ring: TxRingView<B>,
    pending: int,
    tdt: u32,
    len: usize,
    pkt: SkbDma<B>,
)
    requires
        ring.wf(),
        ring.window(pending),
        ring.index_of(tdt) == ring.producer(pending),
    ensures
        pending == ring.len() ==> ring.transmit_verdict(tdt, len).is_err(),
        ring.transmit_verdict(tdt, len).is_ok() ==> {
            &&& pending < ring.len()
            &&& ring.transmit(tdt, len, pkt).window(pending + 1)
            &&& ring.transmit(tdt, len, pkt).cursor == ring.cursor
        },
{
    let n = ring.len();
    let idx = ring.index_of(tdt);
    if ring.transmit_verdict(tdt, len).is_ok() {
        assert(ring.slots[idx].is_none());
        assert(ring_dist(ring.cursor, idx, n) >= pending);
        let after = ring.transmit(tdt, len, pkt);
        assert forall|i: int| 0 <= i < n implies ((#[trigger] after.slots[i]).is_some()
            <==> ring_dist(after.cursor, i, n) < pending + 1) by {
            if i != idx {
                assert(after.slots[i] == ring.slots[i]);
            }
        }
    } else if pending == n {
    }
}

/// A reap never takes the cursor past the producer index: it releases no
/// more buffers than are in the window, and what is left is the window that
/// begins at the new cursor.
pub proof fn lemma_tx_recycle_keeps_window<B>(ring: TxRingView<B>, pending: int, tdh: u32)
    requires
        ring.wf(),
        ring.window(pending),
    ensures
        0 <= ring.reapable(tdh) <= pending,
        ring.recycle(tdh).cursor == ring_add(ring.cursor, ring.reapable(tdh), ring.len()),
        ring.recycle(tdh).window(pending - ring.reapable(tdh)),
        ring.recycle(tdh).producer(pending - ring.reapable(tdh)) == ring.producer(pending),
{
    let n = ring.len();
    let limit = ring.reap_limit(tdh);
    let k = ring.reapable(tdh);
    lemma_tx_run_bounded(ring.descs, ring.slots, ring.cursor, limit);
    if k > pending {
        lemma_tx_run_completed(ring.descs, ring.slots, ring.cursor, limit, pending);
        let at = ring_add(ring.cursor, pending, n);
        assert(ring.slots[at].is_some());
        assert(ring_dist(ring.cursor, at, n) == pending);
    }
    assert(k <= pending);
    let after = ring.recycle(tdh);
    assert forall|i: int| 0 <= i < n implies ((#[trigger] after.slots[i]).is_some() <==> ring_dist(
        after.cursor,
        i,
        n,
    ) < pending - k) by {
        assert(ring.slots[i].is_some() <==> ring_dist(ring.cursor, i, n) < pending);
    }
}

/// A write-back by the device moves neither the window nor the cursor.
pub proof fn lemma_tx_write_back_keeps_window<B>(
    ring: TxRingView<B>,
    pending: int,
    idx: usize,
    entry: TxDescEntry,
)
    requires
        ring.wf(),
        ring.window(pending),
        ring.accepts_write_back(idx, entry),
    ensures
        ring.write_back(idx, entry).window(pending),
{
}

/// A drain leaves no descriptor behind: every descriptor it found filled is
/// back with the device and has a buffer in its slot, the descriptor at the
/// new cursor is not done unless the whole ring was drained, and a second
/// drain at the same tail finds nothing.
pub proof fn lemma_rx_drain_rearms_all<B>(
    ring: RxRingView<B>,
    rdt: u32,
    fresh: Seq<SkbDma<B>>,
    j: int,
)
    requires
        ring.wf(),
        0 <= j < ring.pending(rdt),
    ensures
        ({
            let i = ring_add(ring.drain_start(rdt), j, ring.len());
            let after = ring.drain(rdt, fresh);
            &&& ring.descs[i].done()
            &&& after.descs[i].owner() == Owner::Hardware
            &&& after.slots[i].is_some()
            &&& after.descs[i].buf_addr == after.slots[i].unwrap().dma_handle
            &&& after.pending(rdt) == 0
        }),
{
    let n = ring.len();
    let start = ring.drain_start(rdt);
    let i = ring_add(start, j, n);
    lemma_rx_run_bounded(ring.descs, start, n);
    lemma_rx_run_done(ring.descs, start, n, j);
    assert(ring_dist(start, i, n) == j);
    assert(0u8 & 1u8 == 0) by (bit_vector);
    let after = ring.drain(rdt, fresh);
    assert(ring_dist(start, start, n) == 0);
    assert(!after.descs[start].done());
}

/// A drain goes by the done bits alone: it takes every filled descriptor
/// from the start on and stops at the first whose done bit is clear, which
/// is where its cursor then stands.
pub proof fn lemma_rx_drain_stops_at_first_clear<B>(
    ring: RxRingView<B>,
    rdt: u32,
    fresh: Seq<SkbDma<B>>,
)
    requires
        ring.wf(),
        ring.pending(rdt) < ring.len(),
    ensures
        ring.drain(rdt, fresh).cursor == ring_add(
            ring.drain_start(rdt),
            ring.pending(rdt),
            ring.len(),
        ),
        !ring.descs[ring.drain(rdt, fresh).cursor].done(),
        ring.drain(rdt, fresh).descs[ring.drain(rdt, fresh).cursor] == ring.descs[ring.drain(
            rdt,
            fresh,
        ).cursor],
{
    let n = ring.len();
    let start = ring.drain_start(rdt);
    lemma_rx_run_bounded(ring.descs, start, n);
    lemma_rx_run_stops(ring.descs, start, n);
    assert(ring_dist(start, ring_add(start, ring.pending(rdt), n), n) == ring.pending(rdt));
}

/// With a replacement for every filled descriptor, a drain delivers every
/// packet it finds, in ring order from the descriptor after the tail, and
/// puts the fresh buffers in their places in the same order.
pub proof fn lemma_rx_drain_refills_in_order<B>(
    ring: RxRingView<B>,
    rdt: u32,
    fresh: Seq<SkbDma<B>>,
    j: int,
)
    requires
        ring.wf(),
        ring.pending(rdt) <= fresh.len(),
        0 <= j < ring.pending(rdt),
    ensures
        ring.packets(rdt, fresh).len() == ring.pending(rdt),
        ({
            let i = ring_add(ring.drain_start(rdt), j, ring.len());
            let after = ring.drain(rdt, fresh);
            &&& ring.packets(rdt, fresh)[j].index == i
            &&& ring.packets(rdt, fresh)[j].len == ring.descs[i].length
            &&& Some(ring.packets(rdt, fresh)[j].buf) == ring.slots[i]
            &&& after.slots[i] == Some(fresh[j])
            &&& after.descs[i].buf_addr == fresh[j].dma_handle
            &&& !after.descs[i].done()
        }),
{
    let n = ring.len();
    let start = ring.drain_start(rdt);
    let i = ring_add(start, j, n);
    lemma_rx_run_bounded(ring.descs, start, n);
    assert(ring_dist(start, i, n) == j);
    assert(0u8 & 1u8 == 0) by (bit_vector);
}

/// A drain that ran out of replacements drops the rest: those descriptors
/// go back to the device with the buffer they had.
pub proof fn lemma_rx_drain_drop_keeps_buffer<B>(
    ring: RxRingView<B>,
    rdt: u32,
    fresh: Seq<SkbDma<B>>,
    j: int,
)
    requires
        ring.wf(),
        fresh.len() <= j < ring.pending(rdt),
    ensures
        ({
            let i = ring_add(ring.drain_start(rdt), j, ring.len());
            let after = ring.drain(rdt, fresh);
            &&& after.slots[i] == ring.slots[i]
            &&& after.descs[i].buf_addr == ring.descs[i].buf_addr
            &&& !after.descs[i].done()
        }),
{
    let n = ring.len();
    let start = ring.drain_start(rdt);
    let i = ring_add(start, j, n);
    lemma_rx_run_bounded(ring.descs, start, n);
    assert(ring_dist(start, i, n) == j);
    assert(0u8 & 1u8 == 0) by (bit_vector);
}

/// A reap never goes past the device's head: it releases no more buffers
/// than there are descriptors from the cursor up to the head, whatever the
/// done bits beyond the head say. The new cursor lies between the old one
/// and the head, and no descriptor is changed.
pub proof fn lemma_tx_reap_bounded_by_head<B>(ring: TxRingView<B>, tdh: u32)
    requires
        ring.wf(),
    ensures
        0 <= ring.reapable(tdh) <= ring_dist(ring.cursor, ring.index_of(tdh), ring.len()),
        ring.reapable(tdh) < ring.len(),
        ring.released(tdh).len() == ring.reapable(tdh),
        ring.recycle(tdh).cursor == ring_add(ring.cursor, ring.reapable(tdh), ring.len()),
        ring_dist(ring.cursor, ring.recycle(tdh).cursor, ring.len()) == ring.reapable(tdh),
        ring.recycle(tdh).descs == ring.descs,
{
    let limit = ring.reap_limit(tdh);
    assert(0 <= ring.index_of(tdh) < ring.len()) by {
        vstd::arithmetic::div_mod::lemma_mod_bound(tdh as int, ring.len());
    }
    lemma_tx_run_bounded(ring.descs, ring.slots, ring.cursor, limit);
}

/// Every buffer that a reap releases was behind a descriptor that was done,
/// and they come out in ring order from the cursor.
pub proof fn lemma_tx_reap_releases_completed<B>(ring: TxRingView<B>, tdh: u32, j: int)
    requires
        ring.wf(),
        0 <= j < ring.reapable(tdh),
    ensures
        ring.completed_at(ring_add(ring.cursor, j, ring.len())),
        ring.released(tdh)[j] == ring.slots[ring_add(ring.cursor, j, ring.len())].unwrap(),
{
    let limit = ring.reap_limit(tdh);
    assert(0 <= ring.index_of(tdh) < ring.len()) by {
        vstd::arithmetic::div_mod::lemma_mod_bound(tdh as int, ring.len());
    }
    lemma_tx_run_bounded(ring.descs, ring.slots, ring.cursor, limit);
    lemma_tx_run_completed(ring.descs, ring.slots, ring.cursor, limit, j);
}

/// What a reap changes, slot by slot: the slots of the descriptors it
/// walked over are empty, every other slot is as it was.
pub proof fn lemma_tx_reap_slots<B>(ring: TxRingView<B>, tdh: u32, i: int)
    requires
        ring.wf(),
        0 <= i < ring.len(),
    ensures
        ring_dist(ring.cursor, i, ring.len()) < ring.reapable(tdh) ==> ring.recycle(
            tdh,
        ).slots[i].is_none(),
        ring_dist(ring.cursor, i, ring.len()) >= ring.reapable(tdh) ==> ring.recycle(
            tdh,
        ).slots[i] == ring.slots[i],
{
}

/// With the head at the cursor a reap releases nothing and changes nothing,
/// even if done bits are set.
pub proof fn lemma_tx_reap_nothing_at_head<B>(ring: TxRingView<B>, tdh: u32)
    requires
        ring.wf(),
        ring.index_of(tdh) == ring.cursor,
    ensures
        ring.reapable(tdh) == 0,
        ring.released(tdh).len() == 0,
        ring.recycle(tdh) == ring,
{
    assert(ring.recycle(tdh).slots =~= ring.slots);
}

/// A run of completed transmit descriptors that is shorter than its limit
/// ends at a descriptor that is not done or holds no buffer.
pub proof fn lemma_tx_run_stops<B>(
    descs: Seq<TxDescEntry>,
    slots: Seq<Option<SkbDma<B>>>,
    from: int,
    limit: int,
)
    requires
        0 <= from < descs.len(),
        0 <= limit <= descs.len(),
        tx_completed_run(descs, slots, from, limit) < limit,
    ensures
        ({
            let at = ring_add(from, tx_completed_run(descs, slots, from, limit), descs.len() as int);
            !(descs[at].done() && slots[at].is_some())
        }),
    decreases limit,
{
    let n = descs.len() as int;
    if limit > 0 && descs[from].done() && slots[from].is_some() {
        let k = tx_completed_run(descs, slots, ring_next(from, n), limit - 1);
        lemma_tx_run_bounded(descs, slots, ring_next(from, n), limit - 1);
        lemma_tx_run_stops(descs, slots, ring_next(from, n), limit - 1);
        assert(ring_add(ring_next(from, n), k, n) == ring_add(from, k + 1, n));
    }
}

/// A reap leaves nothing for a second one: with the head and the done bits
/// as they were, the second reap releases nothing and changes nothing. So no
/// buffer is released twice, and none beyond the head is released later.
pub proof fn lemma_tx_reap_twice<B>(ring: TxRingView<B>, tdh: u32)
    requires
        ring.wf(),
    ensures
        ring.recycle(tdh).wf(),
        ring.recycle(tdh).reapable(tdh) == 0,
        ring.recycle(tdh).released(tdh).len() == 0,
        ring.recycle(tdh).recycle(tdh) == ring.recycle(tdh),
{
    let n = ring.len();
    let limit = ring.reap_limit(tdh);
    let k = ring.reapable(tdh);
    let after = ring.recycle(tdh);
    lemma_tx_run_bounded(ring.descs, ring.slots, ring.cursor, limit);
    lemma_tx_reap_keeps_wf(ring, tdh);
    assert(after.index_of(tdh) == ring.index_of(tdh));
    if k < limit {
        lemma_tx_run_stops(ring.descs, ring.slots, ring.cursor, limit);
        assert(ring_dist(ring.cursor, after.cursor, n) == k);
        assert(after.slots[after.cursor] == ring.slots[after.cursor]);
        assert(!after.completed_at(after.cursor));
    } else {
        assert(after.cursor == ring.index_of(tdh));
    }
    assert(after.reapable(tdh) == 0);
    assert(after.recycle(tdh).slots =~= after.slots);
}

/// A reap keeps the invariant of the transmit ring.
pub proof fn lemma_tx_reap_keeps_wf<B>(ring: TxRingView<B>, tdh: u32)
    requires
        ring.wf(),
    ensures
        ring.recycle(tdh).wf(),
{
    let n = ring.len();
    let limit = ring.reap_limit(tdh);
    lemma_tx_run_bounded(ring.descs, ring.slots, ring.cursor, limit);
    let after = ring.recycle(tdh);
    assert forall|i: int|
        #![trigger after.descs[i]]
        #![trigger after.slots[i]]
        0 <= i < n implies {
        &&& !after.descs[i].done() ==> after.slots[i].is_some()
        &&& after.slots[i].is_some() ==> after.descs[i].buf_addr
            == after.slots[i].unwrap().dma_handle
    } by {
        let j = ring_dist(ring.cursor, i, n);
        if j < ring.reapable(tdh) {
            lemma_tx_run_completed(ring.descs, ring.slots, ring.cursor, limit, j);
            assert(ring_add(ring.cursor, j, n) == i);
        }
    }
}

/// One thing that happens to a transmit ring.
pub enum TxOp<B> {
    /// The network stack asks to send `pkt`, `len` bytes long, at the tail
    /// that software published last.
    Transmit { len: usize, pkt: SkbDma<B> },
    /// Software reaps, with the device's head register reading `tdh`.
    Recycle { tdh: u32 },
    /// The device writes `entry` back over descriptor `idx`.
    WriteBack { idx: usize, entry: TxDescEntry },
}

/// A transmit ring together with the tail that software published last and
/// the number of buffers queued and not yet reaped.
pub struct TxSystem<B> {
    /// The ring.
    pub ring: TxRingView<B>,
    /// The value of the tail register.
    pub tail: int,
    /// Buffers queued and not yet reaped.
    pub pending: int,
}

impl<B> TxSystem<B> {
    /// What holds of a transmit ring at all times: the ring's own invariant,
    /// the buffers in it are the window that begins at the reap cursor, and
    /// the tail is the producer index at the window's end. So the cursor is
    /// at most a whole ring behind the tail and never ahead of it.
    pub open spec fn inv(self) -> bool {
        &&& self.ring.wf()
        &&& self.ring.window(self.pending)
        &&& self.tail == self.ring.producer(self.pending)
    }

    /// The system after `op`. A packet that is refused and a write-back that
    /// is refused change nothing.
    pub open spec fn step(self, op: TxOp<B>) -> TxSystem<B> {
        match op {
            TxOp::Transmit { len, pkt } => {
                if self.ring.transmit_verdict(self.tail as u32, len).is_ok() {
                    TxSystem {
                        ring: self.ring.transmit(self.tail as u32, len, pkt),
                        tail: ring_next(self.tail, self.ring.len()),
                        pending: self.pending + 1,
                    }
                } else {
                    self
                }
            },
            TxOp::Recycle { tdh } => TxSystem {
                ring: self.ring.recycle(tdh),
                pending: self.pending - self.ring.reapable(tdh),
                ..self
            },
            TxOp::WriteBack { idx, entry } => {
                if self.ring.accepts_write_back(idx, entry) {
                    TxSystem { ring: self.ring.write_back(idx, entry), ..self }
                } else {
                    self
                }
            },
        }
    }

    /// The system after `ops`, one after the other.
    pub open spec fn run(self, ops: Seq<TxOp<B>>) -> TxSystem<B>
        decreases ops.len(),
    {
        if ops.len() == 0 {
            self
        } else {
            self.step(ops[0]).run(ops.skip(1))
        }
    }
}

/// Whatever happens to a transmit ring keeps its invariant.
pub proof fn lemma_tx_step_keeps_inv<B>(sys: TxSystem<B>, op: TxOp<B>)
    requires
        sys.inv(),
    ensures
        sys.step(op).inv(),
{
    let n = sys.ring.len();
    assert(0u8 & 1u8 == 0) by (bit_vector);
    match op {
        TxOp::Transmit { len, pkt } => {
            let tdt = sys.tail as u32;
            assert(sys.ring.index_of(tdt) == sys.tail) by {
                assert(0 <= sys.tail < n);
                vstd::arithmetic::div_mod::lemma_small_mod(sys.tail as nat, n as nat);
            }
            if sys.ring.transmit_verdict(tdt, len).is_ok() {
                lemma_tx_transmit_keeps_window(sys.ring, sys.pending, tdt, len, pkt);
            }
        },
        TxOp::Recycle { tdh } => {
            lemma_tx_recycle_keeps_window(sys.ring, sys.pending, tdh);
            lemma_tx_reap_keeps_wf(sys.ring, tdh);
        },
        TxOp::WriteBack { idx, entry } => {},
    }
}

/// No ring overrun, whatever the sequence of transmit requests, reaps and
/// write-backs: the invariant holds after all of them, so at most a whole
/// ring of buffers is ever queued, and the reap cursor, which trails the
/// tail by the number of buffers queued, never laps it.
pub proof fn lemma_tx_no_overrun<B>(sys: TxSystem<B>, ops: Seq<TxOp<B>>)
    requires
        sys.inv(),
    ensures
        sys.run(ops).inv(),
        0 <= sys.run(ops).pending <= sys.run(ops).ring.len(),
        sys.run(ops).tail == ring_add(
            sys.run(ops).ring.cursor,
            sys.run(ops).pending,
            sys.run(ops).ring.len(),
        ),
    decreases ops.len(),
{
    if ops.len() > 0 {
        lemma_tx_step_keeps_inv(sys, ops[0]);
        lemma_tx_no_overrun(sys.step(ops[0]), ops.skip(1));
    }
}

/// A reap makes progress once the head has left the cursor: with the
/// descriptor at the cursor done and its buffer in the slot, at least that
/// buffer is released.
pub proof fn lemma_tx_reap_makes_progress<B>(ring: TxRingView<B>, tdh: u32)
    requires
        ring.wf(),
        ring.completed_at(ring.cursor),
        ring.index_of(tdh) != ring.cursor,
    ensures
        ring.reapable(tdh) >= 1,
        ring.recycle(tdh).slots[ring.cursor].is_none(),
        ring.released(tdh)[0] == ring.slots[ring.cursor].unwrap(),
{
    let n = ring.len();
    let limit = ring.reap_limit(tdh);
    assert(0 <= ring.index_of(tdh) < n) by {
        vstd::arithmetic::div_mod::lemma_mod_bound(tdh as int, n);
    }
    assert(limit >= 1);
    lemma_tx_run_bounded(ring.descs, ring.slots, ring_next(ring.cursor, n), limit - 1);
}

/// Backpressure ends: once the device has finished the descriptor at the
/// tail and its head has left the cursor, a reap makes room at the tail, and
/// a packet that fits is accepted. So a request that was refused on a full
/// ring can be made again and will get through.
pub proof fn lemma_tx_busy_ends<B>(sys: TxSystem<B>, len: usize, tdh: u32)
    requires
        sys.inv(),
        len <= RXTX_SINGLE_RING_BLOCK_SIZE,
        sys.ring.descs[sys.tail].done(),
        sys.ring.index_of(tdh) != sys.ring.cursor,
    ensures
        sys.step(TxOp::Recycle { tdh }).inv(),
        sys.step(TxOp::Recycle { tdh }).tail == sys.tail,
        sys.step(TxOp::Recycle { tdh }).ring.transmit_verdict(sys.tail as u32, len).is_ok(),
{
    let n = sys.ring.len();
    lemma_tx_step_keeps_inv(sys, TxOp::Recycle { tdh });
    assert(sys.ring.index_of(sys.tail as u32) == sys.tail) by {
        vstd::arithmetic::div_mod::lemma_small_mod(sys.tail as nat, n as nat);
    }
    if sys.ring.slots[sys.tail].is_some() {
        assert(ring_dist(sys.ring.cursor, sys.tail, n) < sys.pending);
        assert(sys.tail == sys.ring.cursor);
        lemma_tx_reap_makes_progress(sys.ring, tdh);
    }
}

/// Queueing only where room is left keeps one descriptor free: in a ring of
/// two or more, after such a packet is queued fewer buffers are in the ring
/// than it has descriptors, and the tail is not at the reap cursor.
pub proof fn lemma_tx_room_keeps_tail_off_cursor<B>(sys: TxSystem<B>, len: usize, pkt: SkbDma<B>)
    requires
        sys.inv(),
        sys.ring.len() >= 2,
        sys.ring.room_after(sys.tail as u32),
        sys.ring.transmit_verdict(sys.tail as u32, len).is_ok(),
    ensures
        sys.step(TxOp::Transmit { len, pkt }).inv(),
        sys.step(TxOp::Transmit { len, pkt }).pending == sys.pending + 1,
        sys.step(TxOp::Transmit { len, pkt }).pending < sys.ring.len(),
        sys.step(TxOp::Transmit { len, pkt }).tail != sys.ring.cursor,
{
    let n = sys.ring.len();
    lemma_tx_step_keeps_inv(sys, TxOp::Transmit { len, pkt });
    assert(sys.ring.index_of(sys.tail as u32) == sys.tail) by {
        vstd::arithmetic::div_mod::lemma_small_mod(sys.tail as nat, n as nat);
    }
    let next = ring_next(sys.tail, n);
    assert(sys.ring.slots[next].is_none());
    assert(sys.ring.slots[sys.tail].is_none());
    assert(ring_dist(sys.ring.cursor, next, n) >= sys.pending);
    assert(ring_dist(sys.ring.cursor, sys.tail, n) >= sys.pending);
}

/// A drain and a write-back by the device keep the invariant of the receive
/// ring: no slot is ever left empty.
pub proof fn lemma_rx_steps_keep_wf<B>(
    ring: RxRingView<B>,
    rdt: u32,
    fresh: Seq<SkbDma<B>>,
    idx: usize,
    entry: RxDescEntry,
)
    requires
        ring.wf(),
    ensures
        ring.drain(rdt, fresh).wf(),
        ring.accepts_write_back(idx, entry) ==> ring.write_back(idx, entry).wf(),
{
    let n = ring.len();
    lemma_rx_run_bounded(ring.descs, ring.drain_start(rdt), n);
    let after = ring.drain(rdt, fresh);
    assert(after.descs.len() == n);
    assert(after.slots.len() == n);
    assert forall|i: int|
        #![trigger after.descs[i]]
        #![trigger after.slots[i]]
        0 <= i < n implies {
        &&& after.slots[i].is_some()
        &&& after.descs[i].buf_addr == after.slots[i].unwrap().dma_handle
    } by {
        assert(ring.slots[i].is_some());
    }
}

} // verus!
