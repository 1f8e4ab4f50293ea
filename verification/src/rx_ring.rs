//! The receive ring: every slot holds a buffer, posted to the device or
//! filled and waiting to be drained.

use vstd::prelude::*;
use crate::consts::MAX_RING_SIZE;
use crate::hw_defs::Owner;
use crate::hw_defs::RxDescEntry;
use crate::ring_buf::reversed;
use crate::ring_buf::ring_add;
use crate::ring_buf::ring_dist;
use crate::ring_buf::ring_next;
use crate::ring_buf::RingError;
use crate::ring_buf::SkbDma;

verus! {

/// The number of descriptors, starting at `from` and going round, that are
/// done, looking at no more than `limit`.
pub open spec fn rx_done_run(descs: Seq<RxDescEntry>, from: int, limit: int) -> int
    decreases limit,
{
    if limit <= 0 || !descs[from].done() {
        0
    } else {
        1 + rx_done_run(descs, ring_next(from, descs.len() as int), limit - 1)
    }
}

/// A received packet, taken out of the ring.
#[derive(Debug, PartialEq, Eq)]
pub struct RxPacket<B> {
    /// Index of the descriptor it arrived on.
    pub index: usize,
    /// Bytes the device wrote, as the descriptor reported them.
    pub len: u16,
    /// The buffer that holds the packet.
    pub buf: SkbDma<B>,
}

/// What one drain pass produced.
#[derive(Debug, PartialEq, Eq)]
pub struct RxDrain<B> {
    /// The packets to deliver, in the order they arrived.
    pub packets: Vec<RxPacket<B>>,
    /// Packets dropped because no replacement buffer was left: their
    /// descriptors were posted again with the buffer they had.
    pub dropped: usize,
    /// Indices of the descriptors that were handed back to the device, in
    /// ring order: those of the packets delivered, then those of the packets
    /// dropped. They are the descriptors to write out to the device.
    pub rearmed: Vec<usize>,
    /// Replacement buffers that were not needed, in the order given.
    pub spare: Vec<SkbDma<B>>,
    /// The receive tail to publish to the device, if anything was drained.
    pub tail: Option<u32>,
}

/// What a receive ring is: its descriptors, its slots and its cursor.
pub struct RxRingView<B> {
    /// Device address of the descriptor array.
    pub base: u32,
    /// The descriptors, in ring order.
    pub descs: Seq<RxDescEntry>,
    /// The slot table, index for index with `descs`.
    pub slots: Seq<Option<SkbDma<B>>>,
    /// Index of the oldest descriptor that has not been drained and posted
    /// again.
    pub cursor: int,
}

impl<B> RxRingView<B> {
    /// Number of descriptors.
    pub open spec fn len(self) -> int {
        self.descs.len() as int
    }

    /// The ring index that a register value stands for.
    pub open spec fn index_of(self, reg: u32) -> int {
        (reg as int) % self.len()
    }

    /// The invariant of a receive ring: no slot is ever empty, and each
    /// descriptor holds the address of the buffer in its slot.
    pub open spec fn wf(self) -> bool {
        &&& 0 < self.len() <= MAX_RING_SIZE
        &&& self.slots.len() == self.descs.len()
        &&& 0 <= self.cursor < self.len()
        &&& forall|i: int|
            #![trigger self.descs[i]]
            #![trigger self.slots[i]]
            0 <= i < self.len() ==> {
                &&& self.slots[i].is_some()
                &&& self.descs[i].buf_addr == self.slots[i].unwrap().dma_handle
            }
    }

    /// Where a drain begins when the device's tail register reads `rdt`: at
    /// the descriptor after the tail.
    pub open spec fn drain_start(self, rdt: u32) -> int {
        ring_next(self.index_of(rdt), self.len())
    }

    /// Number of filled descriptors that a drain at `rdt` finds: the done
    /// descriptors from the start on, once round the ring at most.
    pub open spec fn pending(self, rdt: u32) -> int {
        rx_done_run(self.descs, self.drain_start(rdt), self.len())
    }

    /// Number of packets that a drain at `rdt` delivers with `supply`
    /// replacement buffers at hand.
    pub open spec fn delivered(self, rdt: u32, supply: int) -> int {
        if self.pending(rdt) <= supply {
            self.pending(rdt)
        } else {
            supply
        }
    }

    /// The packets that a drain at `rdt` delivers, in ring order from the
    /// start.
    pub open spec fn packets(self, rdt: u32, fresh: Seq<SkbDma<B>>) -> Seq<RxPacket<B>> {
        Seq::new(
            self.delivered(rdt, fresh.len() as int) as nat,
            |j: int|
                {
                    let i = ring_add(self.drain_start(rdt), j, self.len());
                    RxPacket {
                        index: i as usize,
                        len: self.descs[i].length,
                        buf: self.slots[i].unwrap(),
                    }
                },
        )
    }

    /// The ring after a drain at `rdt` with replacement buffers `fresh`. The
    /// first filled descriptors get the fresh buffers in order; those for
    /// which none is left keep their buffer; all of them are handed back to
    /// the device with the done bit cleared.
    pub open spec fn drain(self, rdt: u32, fresh: Seq<SkbDma<B>>) -> RxRingView<B> {
        let start = self.drain_start(rdt);
        let k = self.pending(rdt);
        let d = self.delivered(rdt, fresh.len() as int);
        RxRingView {
            descs: Seq::new(
                self.descs.len(),
                |i: int|
                    {
                        let j = ring_dist(start, i, self.len());
                        if j < d {
                            RxDescEntry {
                                buf_addr: fresh[j].dma_handle,
                                status: 0,
                                ..self.descs[i]
                            }
                        } else if j < k {
                            RxDescEntry { status: 0, ..self.descs[i] }
                        } else {
                            self.descs[i]
                        }
                    },
            ),
            slots: Seq::new(
                self.slots.len(),
                |i: int|
                    {
                        let j = ring_dist(start, i, self.len());
                        if j < d {
                            Some(fresh[j])
                        } else {
                            self.slots[i]
                        }
                    },
            ),
            cursor: ring_add(start, k, self.len()),
            ..self
        }
    }

    /// The indices of the descriptors that a drain at `rdt` hands back to the
    /// device, in ring order from the start.
    pub open spec fn rearmed(self, rdt: u32) -> Seq<usize> {
        Seq::new(
            self.pending(rdt) as nat,
            |j: int| ring_add(self.drain_start(rdt), j, self.len()) as usize,
        )
    }

    /// The receive tail that a drain at `rdt` publishes: the index of the
    /// last descriptor it handed back, if there was one.
    pub open spec fn drain_tail(self, rdt: u32) -> Option<u32> {
        if self.pending(rdt) > 0 {
            Some(ring_add(self.drain_start(rdt), self.pending(rdt) - 1, self.len()) as u32)
        } else {
            None
        }
    }

    /// Whether the device may write `entry` back over descriptor `idx`: the
    /// descriptor is the device's, and the buffer address stays.
    pub open spec fn accepts_write_back(self, idx: usize, entry: RxDescEntry) -> bool {
        &&& idx < self.len()
        &&& self.descs[idx as int].owner() == Owner::Hardware
        &&& entry.buf_addr == self.descs[idx as int].buf_addr
    }

    /// The ring after the device wrote `entry` back over descriptor `idx`.
    pub open spec fn write_back(self, idx: usize, entry: RxDescEntry) -> RxRingView<B> {
        RxRingView { descs: self.descs.update(idx as int, entry), ..self }
    }
}

/// The receive ring: buffers that the device fills and software drains.
pub struct RxRingBuf<B> {
    dma_addr: u32,
    desc: Vec<RxDescEntry>,
    buf: Vec<Option<SkbDma<B>>>,
    next_to_clean: usize,
}

impl<B> View for RxRingBuf<B> {
    type V = RxRingView<B>;

    closed spec fn view(&self) -> RxRingView<B> {
        RxRingView {
            base: self.dma_addr,
            descs: self.desc@,
            slots: self.buf@,
            cursor: self.next_to_clean as int,
        }
    }
}

impl<B> RxRingBuf<B> {
    /// A ring with one descriptor for each buffer in `bufs`, whose array the
    /// device finds at `dma_addr`. Slot `i` takes `bufs[i]`, and descriptor
    /// `i` posts it to the device: its address, and every other field
    /// cleared. With no buffer, or more than `MAX_RING_SIZE`, there is no
    /// ring and the buffers are dropped.
    pub fn new(dma_addr: u32, bufs: Vec<SkbDma<B>>) -> (r: Result<RxRingBuf<B>, RingError>)
        ensures
            0 < bufs@.len() <= MAX_RING_SIZE <==> r.is_ok(),
            r.is_err() ==> r == Err::<RxRingBuf<B>, RingError>(RingError::BadLength),
            r.is_ok() ==> {
                let ring = r.unwrap()@;
                &&& ring.wf()
                &&& ring.base == dma_addr
                &&& ring.cursor == 0
                &&& ring.len() == bufs@.len()
                &&& forall|i: int|
                    0 <= i < bufs@.len() ==> #[trigger] ring.descs[i] == (RxDescEntry {
                        buf_addr: bufs@[i].dma_handle,
                        length: 0,
                        checksum: 0,
                        status: 0,
                        errors: 0,
                        special: 0,
                    })
                &&& forall|i: int|
                    0 <= i < bufs@.len() ==> #[trigger] ring.slots[i] == Some(bufs@[i])
            },
    {
        let len: usize = bufs.len();
        if len == 0 || len > MAX_RING_SIZE {
            return Err(RingError::BadLength);
        }
        let ghost all = bufs@;
        let mut supply: Vec<SkbDma<B>> = reversed(bufs);
        let mut desc: Vec<RxDescEntry> = Vec::new();
        let mut buf: Vec<Option<SkbDma<B>>> = Vec::new();
        let mut i: usize = 0;
        while i < len
            invariant
                i <= len,
                len == all.len(),
                desc@.len() == i,
                buf@.len() == i,
                supply@ == all.reverse().take(len - i),
                forall|k: int|
                    0 <= k < i ==> #[trigger] desc@[k] == (RxDescEntry {
                        buf_addr: all[k].dma_handle,
                        length: 0,
                        checksum: 0,
                        status: 0,
                        errors: 0,
                        special: 0,
                    }),
                forall|k: int| 0 <= k < i ==> #[trigger] buf@[k] == Some(all[k]),
            decreases len - i,
        {
            let next: Option<SkbDma<B>> = supply.pop();
            let pair: SkbDma<B> = next.unwrap();
            assert(pair == all[i as int]);
            desc.push(RxDescEntry::armed(pair.dma_handle));
            buf.push(Some(pair));
            i = i + 1;
            assert(supply@ =~= all.reverse().take(len - i));
        }
        Ok(RxRingBuf { dma_addr, desc, buf, next_to_clean: 0 })
    }

    /// Number of descriptors.
    pub fn len(&self) -> (n: usize)
        ensures
            n == self@.len(),
    {
        self.desc.len()
    }

    /// Device address of the descriptor array.
    pub fn dma_addr(&self) -> (a: u32)
        ensures
            a == self@.base,
    {
        self.dma_addr
    }

    /// Index of the oldest descriptor that has not been drained and posted
    /// again.
    pub fn next_to_clean(&self) -> (i: usize)
        ensures
            i == self@.cursor,
    {
        self.next_to_clean
    }

    /// Descriptor `idx`, or `None` when the ring has no such index.
    pub fn descriptor(&self, idx: usize) -> (d: Option<RxDescEntry>)
        ensures
            idx < self@.len() ==> d == Some(self@.descs[idx as int]),
            idx >= self@.len() ==> d.is_none(),
    {
        if idx < self.desc.len() {
            Some(self.desc[idx])
        } else {
            None
        }
    }

    /// Device address of the buffer in slot `idx`, or `None` when the ring
    /// has no such index.
    pub fn buffer_addr(&self, idx: usize) -> (a: Option<u64>)
        requires
            self@.wf(),
        ensures
            idx < self@.len() ==> a == Some(self@.slots[idx as int].unwrap().dma_handle),
            idx >= self@.len() ==> a.is_none(),
    {
        if idx < self.desc.len() {
            Some(self.desc[idx].buf_addr)
        } else {
            None
        }
    }

    /// Number of filled descriptors that a drain would find with the
    /// device's tail register at `rdt`: as many replacement buffers are
    /// needed to deliver every packet.
    pub fn pending(&self, rdt: u32) -> (k: usize)
        requires
            self@.wf(),
        ensures
            k == self@.pending(rdt),
            k <= self@.len(),
    {
        let n: usize = self.desc.len();
        let tail: usize = (rdt as usize) % n;
        let start: usize = if tail + 1 >= n {
            0
        } else {
            tail + 1
        };
        let mut idx: usize = start;
        let mut count: usize = 0;
        while count < n && self.desc[idx].is_done()
            invariant
                self@.wf(),
                n == self@.len(),
                count <= n,
                start < n,
                idx < n,
                count < n ==> idx == ring_add(start as int, count as int, n as int),
                rx_done_run(self@.descs, start as int, n as int) == count + rx_done_run(
                    self@.descs,
                    idx as int,
                    n - count,
                ),
            decreases n - count,
        {
            idx = if idx + 1 >= n {
                0
            } else {
                idx + 1
            };
            count = count + 1;
        }
        count
    }

    /// Drains the filled descriptors, given the device's tail register value
    /// `rdt` and replacement buffers `fresh`. Starting after the tail and
    /// for as long as the descriptor is done, once round the ring at most:
    /// takes the packet out, puts the next fresh buffer in its place with
    /// its address in the descriptor, and clears the status, which hands the
    /// descriptor back to the device. When the fresh buffers run out, the
    /// remaining packets are dropped: their descriptors are handed back with
    /// the buffer they had.
    pub fn drain(&mut self, rdt: u32, fresh: Vec<SkbDma<B>>) -> (out: RxDrain<B>)
        requires
            old(self)@.wf(),
        ensures
            final(self)@.wf(),
            final(self)@ == old(self)@.drain(rdt, fresh@),
            out.packets@ == old(self)@.packets(rdt, fresh@),
            out.dropped == old(self)@.pending(rdt) - old(self)@.delivered(
                rdt,
                fresh@.len() as int,
            ),
            out.rearmed@ == old(self)@.rearmed(rdt),
            out.spare@ == fresh@.skip(old(self)@.delivered(rdt, fresh@.len() as int)),
            out.tail == old(self)@.drain_tail(rdt),
    {
        let n: usize = self.desc.len();
        let tail_reg: usize = (rdt as usize) % n;
        let start: usize = if tail_reg + 1 >= n {
            0
        } else {
            tail_reg + 1
        };
        let ghost s0 = self@;
        let ghost all = fresh@;
        let ghost f = all.len() as int;
        let mut supply: Vec<SkbDma<B>> = reversed(fresh);
        let mut packets: Vec<RxPacket<B>> = Vec::new();
        let mut rearmed: Vec<usize> = Vec::new();
        let mut dropped: usize = 0;
        let mut tail: Option<u32> = None;
        let mut idx: usize = start;
        let mut count: usize = 0;
        assert(0u8 & 1u8 == 0) by (bit_vector);
        while count < n && self.desc[idx].is_done()
            invariant
                s0.wf(),
                n == s0.len(),
                f == all.len(),
                start == s0.drain_start(rdt),
                count <= n,
                idx < n,
                count < n ==> idx == ring_add(start as int, count as int, n as int),
                count == n ==> idx == start,
                self.dma_addr == s0.base,
                self.desc@.len() == n,
                self.buf@.len() == n,
                supply@.len() == f - packets@.len(),
                supply@ == all.reverse().take(f - packets@.len()),
                packets@.len() == if count <= f {
                    count as int
                } else {
                    f
                },
                dropped == count - packets@.len(),
                rearmed@.len() == count,
                forall|m: int|
                    0 <= m < count ==> #[trigger] rearmed@[m] == ring_add(
                        start as int,
                        m,
                        n as int,
                    ),
                forall|i: int|
                    0 <= i < n ==> #[trigger] self.desc@[i] == {
                        let j = ring_dist(start as int, i, n as int);
                        if j < count && j < f {
                            RxDescEntry { buf_addr: all[j].dma_handle, status: 0, ..s0.descs[i] }
                        } else if j < count {
                            RxDescEntry { status: 0, ..s0.descs[i] }
                        } else {
                            s0.descs[i]
                        }
                    },
                forall|i: int|
                    0 <= i < n ==> #[trigger] self.buf@[i] == {
                        let j = ring_dist(start as int, i, n as int);
                        if j < count && j < f {
                            Some(all[j])
                        } else {
                            s0.slots[i]
                        }
                    },
                forall|m: int|
                    0 <= m < packets@.len() ==> #[trigger] packets@[m] == (RxPacket {
                        index: ring_add(start as int, m, n as int) as usize,
                        len: s0.descs[ring_add(start as int, m, n as int)].length,
                        buf: s0.slots[ring_add(start as int, m, n as int)].unwrap(),
                    }),
                tail == if count > 0 {
                    Some(ring_add(start as int, count - 1, n as int) as u32)
                } else {
                    None
                },
                rx_done_run(s0.descs, start as int, n as int) == count + rx_done_run(
                    s0.descs,
                    idx as int,
                    n - count,
                ),
            decreases n - count,
        {
            let mut entry: RxDescEntry = self.desc[idx];
            let len: u16 = entry.length;
            entry.status = 0;
            let next: Option<SkbDma<B>> = supply.pop();
            match next {
                Some(replacement) => {
                    assert(replacement == all[count as int]);
                    entry.buf_addr = replacement.dma_handle;
                    let taken: Option<SkbDma<B>> = self.buf[idx].take();
                    self.buf[idx] = Some(replacement);
                    packets.push(RxPacket { index: idx, len, buf: taken.unwrap() });
                },
                None => {
                    dropped = dropped + 1;
                },
            }
            self.desc[idx] = entry;
            rearmed.push(idx);
            tail = Some(idx as u32);
            idx = if idx + 1 >= n {
                0
            } else {
                idx + 1
            };
            count = count + 1;
            assert(supply@ =~= all.reverse().take(f - packets@.len()));
        }
        self.next_to_clean = idx;
        let spare: Vec<SkbDma<B>> = reversed(supply);
        proof {
            assert(count == s0.pending(rdt));
            assert(self@.descs =~= s0.drain(rdt, all).descs);
            assert(self@.slots =~= s0.drain(rdt, all).slots);
            assert(packets@ =~= s0.packets(rdt, all));
            assert(rearmed@ =~= s0.rearmed(rdt));
            assert(spare@ =~= all.skip(s0.delivered(rdt, f)));
        }
        RxDrain { packets, dropped, rearmed, spare, tail }
    }

    /// Records that the device wrote `entry` back over descriptor `idx`, as
    /// it does when it has filled the buffer. The device may only write to a
    /// descriptor it owns and does not move the buffer; anything else is
    /// refused and changes nothing.
    pub fn device_write_back(&mut self, idx: usize, entry: RxDescEntry) -> (accepted: bool)
        requires
            old(self)@.wf(),
        ensures
            final(self)@.wf(),
            accepted == old(self)@.accepts_write_back(idx, entry),
            accepted ==> final(self)@ == old(self)@.write_back(idx, entry),
            !accepted ==> final(self)@ == old(self)@,
    {
        if idx >= self.desc.len() {
            return false;
        }
        if self.desc[idx].is_done() || self.desc[idx].buf_addr != entry.buf_addr {
            return false;
        }
        self.desc[idx] = entry;
        true
    }
}

} // verus!
