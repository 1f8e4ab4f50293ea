//! The transmit ring: enqueue at the tail, reap behind the device's head.

use vstd::prelude::*;
use crate::consts::ETH_ZLEN;
use crate::consts::MAX_RING_SIZE;
use crate::consts::RXTX_SINGLE_RING_BLOCK_SIZE;
use crate::hw_defs::tx_cmd;
use crate::hw_defs::tx_cmd_spec;
use crate::hw_defs::Owner;
use crate::hw_defs::TxDescEntry;
use crate::ring_buf::ring_add;
use crate::ring_buf::ring_dist;
use crate::ring_buf::ring_next;
use crate::ring_buf::RingError;
use crate::ring_buf::SkbDma;

verus! {

/// Why a packet was not queued. None of these is fatal: the caller reports
/// "busy" and may try again later.
#[derive(Clone, Copy, Debug, PartialEq, Eq, Structural)]
pub enum TxError {
    /// The descriptor at the tail is still with the device, or its buffer
    /// has not been reaped yet.
    RingFull,
    /// The packet does not fit the buffer behind one descriptor.
    TooLong,
    /// The buffer could not be mapped for the device.
    MapFailed,
}

/// A packet handed back to the caller, with the reason.
#[derive(Debug, PartialEq, Eq)]
pub struct TxRejected<B> {
    /// Why the packet was not queued.
    pub reason: TxError,
    /// The packet, untouched.
    pub pkt: SkbDma<B>,
}

/// The length a packet of `len` bytes has on the wire: short packets are
/// padded to the minimum frame length.
pub open spec fn padded_len(len: int) -> int {
    if len < ETH_ZLEN {
        ETH_ZLEN as int
    } else {
        len
    }
}

/// The number of descriptors, starting at `from` and going round, that are
/// done and still hold their buffer, looking at no more than `limit`.
pub open spec fn tx_completed_run<B>(
    descs: Seq<TxDescEntry>,
    slots: Seq<Option<SkbDma<B>>>,
    from: int,
    limit: int,
) -> int
    decreases limit,
{
    if limit <= 0 || !(descs[from].done() && slots[from].is_some()) {
        0
    } else {
        1 + tx_completed_run(descs, slots, ring_next(from, descs.len() as int), limit - 1)
    }
}

/// What a transmit ring is: its descriptors, its slots and its cursor.
pub struct TxRingView<B> {
    /// Device address of the descriptor array.
    pub base: u32,
    /// The descriptors, in ring order.
    pub descs: Seq<TxDescEntry>,
    /// The slot table, index for index with `descs`.
    pub slots: Seq<Option<SkbDma<B>>>,
    /// Index of the oldest descriptor whose buffer has not been reaped.
    pub cursor: int,
}

impl<B> TxRingView<B> {
    /// Number of descriptors.
    pub open spec fn len(self) -> int {
        self.descs.len() as int
    }

    /// The ring index that a register value stands for.
    pub open spec fn index_of(self, reg: u32) -> int {
        (reg as int) % self.len()
    }

    /// The invariant of a transmit ring: a descriptor that is with the device
    /// has its buffer in the slot, and a buffer in a slot is the one whose
    /// address the descriptor holds.
    pub open spec fn wf(self) -> bool {
        &&& 0 < self.len() <= MAX_RING_SIZE
        &&& self.slots.len() == self.descs.len()
        &&& 0 <= self.cursor < self.len()
        &&& forall|i: int|
            #![trigger self.descs[i]]
            #![trigger self.slots[i]]
            0 <= i < self.len() ==> {
                &&& !self.descs[i].done() ==> self.slots[i].is_some()
                &&& self.slots[i].is_some() ==> self.descs[i].buf_addr
                    == self.slots[i].unwrap().dma_handle
            }
    }

    /// Descriptor `i` is free: software owns it and nothing waits in its slot.
    pub open spec fn free_at(self, i: int) -> bool {
        self.descs[i].done() && self.slots[i].is_none()
    }

    /// Descriptor `i` was sent and waits to be reaped.
    pub open spec fn completed_at(self, i: int) -> bool {
        self.descs[i].done() && self.slots[i].is_some()
    }

    /// The buffers in the ring are exactly the `pending` ones from the
    /// cursor on: those queued and not yet reaped.
    pub open spec fn window(self, pending: int) -> bool {
        &&& 0 <= pending <= self.len()
        &&& forall|i: int|
            0 <= i < self.len() ==> ((#[trigger] self.slots[i]).is_some() <==> ring_dist(
                self.cursor,
                i,
                self.len(),
            ) < pending)
    }

    /// The index at which the next packet is queued when `pending` buffers
    /// are in the ring.
    pub open spec fn producer(self, pending: int) -> int {
        ring_add(self.cursor, pending, self.len())
    }

    /// Whether queueing at tail register value `tdt` leaves room: the
    /// descriptor after the tail is free as well.
    pub open spec fn room_after(self, tdt: u32) -> bool {
        self.free_at(ring_next(self.index_of(tdt), self.len()))
    }

    /// Whether a packet of `len` bytes can be queued at tail register value
    /// `tdt`: the padded length on success, the reason otherwise. A ring that
    /// is not ready is reported before a packet that is too long.
    pub open spec fn transmit_verdict(self, tdt: u32, len: usize) -> Result<int, TxError> {
        if !self.free_at(self.index_of(tdt)) {
            Err(TxError::RingFull)
        } else if len > RXTX_SINGLE_RING_BLOCK_SIZE {
            Err(TxError::TooLong)
        } else {
            Ok(padded_len(len as int))
        }
    }

    /// The ring after `pkt`, `len` bytes long, was queued at `tdt`.
    pub open spec fn transmit(self, tdt: u32, len: usize, pkt: SkbDma<B>) -> TxRingView<B> {
        let i = self.index_of(tdt);
        TxRingView {
            descs: self.descs.update(
                i,
                TxDescEntry {
                    buf_addr: pkt.dma_handle,
                    length: padded_len(len as int) as u16,
                    cmd: tx_cmd_spec(),
                    sta: 0,
                    ..self.descs[i]
                },
            ),
            slots: self.slots.update(i, Some(pkt)),
            ..self
        }
    }

    /// How far a reap may go when the device reports head `tdh`: the number
    /// of descriptors from the cursor up to the head, the head not counted.
    /// With the head at the cursor that is none, whatever the done bits say.
    pub open spec fn reap_limit(self, tdh: u32) -> int {
        ring_dist(self.cursor, self.index_of(tdh), self.len())
    }

    /// Number of buffers that a reap releases when the device reports head
    /// `tdh`: the completed descriptors from the cursor on, never going past
    /// the head.
    pub open spec fn reapable(self, tdh: u32) -> int {
        tx_completed_run(self.descs, self.slots, self.cursor, self.reap_limit(tdh))
    }

    /// The buffers that a reap releases, oldest first.
    pub open spec fn released(self, tdh: u32) -> Seq<SkbDma<B>> {
        Seq::new(
            self.reapable(tdh) as nat,
            |j: int| self.slots[ring_add(self.cursor, j, self.len())].unwrap(),
        )
    }

    /// The ring after a reap with the device's head at `tdh`.
    pub open spec fn recycle(self, tdh: u32) -> TxRingView<B> {
        let k = self.reapable(tdh);
        TxRingView {
            slots: Seq::new(
                self.slots.len(),
                |i: int|
                    if ring_dist(self.cursor, i, self.len()) < k {
                        None
                    } else {
                        self.slots[i]
                    },
            ),
            cursor: ring_add(self.cursor, k, self.len()),
            ..self
        }
    }

    /// Whether the device may write `entry` back over descriptor `idx`: the
    /// descriptor is the device's, and the buffer address stays.
    pub open spec fn accepts_write_back(self, idx: usize, entry: TxDescEntry) -> bool {
        &&& idx < self.len()
        &&& self.descs[idx as int].owner() == Owner::Hardware
        &&& entry.buf_addr == self.descs[idx as int].buf_addr
    }

    /// The ring after the device wrote `entry` back over descriptor `idx`.
    pub open spec fn write_back(self, idx: usize, entry: TxDescEntry) -> TxRingView<B> {
        TxRingView { descs: self.descs.update(idx as int, entry), ..self }
    }
}

/// The transmit ring: descriptors that software fills and the device drains.
pub struct TxRingBuf<B> {
    dma_addr: u32,
    desc: Vec<TxDescEntry>,
    buf: Vec<Option<SkbDma<B>>>,
    next_to_clean: usize,
}

impl<B> View for TxRingBuf<B> {
    type V = TxRingView<B>;

    closed spec fn view(&self) -> TxRingView<B> {
        TxRingView {
            base: self.dma_addr,
            descs: self.desc@,
            slots: self.buf@,
            cursor: self.next_to_clean as int,
        }
    }
}

impl<B> TxRingBuf<B> {
    /// A ring of `len` descriptors whose array the device finds at
    /// `dma_addr`. Every descriptor starts out done and without a buffer, so
    /// that the first packets can be queued at once.
    pub fn new(dma_addr: u32, len: usize) -> (r: Result<TxRingBuf<B>, RingError>)
        ensures
            0 < len <= MAX_RING_SIZE <==> r.is_ok(),
            r.is_err() ==> r == Err::<TxRingBuf<B>, RingError>(RingError::BadLength),
            r.is_ok() ==> {
                let ring = r.unwrap()@;
                &&& ring.wf()
                &&& ring.base == dma_addr
                &&& ring.cursor == 0
                &&& ring.len() == len
                &&& forall|i: int|
                    0 <= i < len ==> #[trigger] ring.descs[i] == (TxDescEntry {
                        buf_addr: 0,
                        length: 0,
                        cso: 0,
                        cmd: 0,
                        sta: 1,
                        css: 0,
                        special: 0,
                    })
                &&& forall|i: int| 0 <= i < len ==> (#[trigger] ring.slots[i]).is_none()
            },
    {
        if len == 0 || len > MAX_RING_SIZE {
            return Err(RingError::BadLength);
        }
        let mut desc: Vec<TxDescEntry> = Vec::new();
        let mut buf: Vec<Option<SkbDma<B>>> = Vec::new();
        let mut i: usize = 0;
        while i < len
            invariant
                i <= len,
                desc@.len() == i,
                buf@.len() == i,
                forall|k: int|
                    0 <= k < i ==> #[trigger] desc@[k] == (TxDescEntry {
                        buf_addr: 0,
                        length: 0,
                        cso: 0,
                        cmd: 0,
                        sta: 1,
                        css: 0,
                        special: 0,
                    }) && desc@[k].done(),
                forall|k: int| 0 <= k < i ==> (#[trigger] buf@[k]).is_none(),
            decreases len - i,
        {
            desc.push(TxDescEntry::idle());
            buf.push(None);
            i = i + 1;
        }
        Ok(TxRingBuf { dma_addr, desc, buf, next_to_clean: 0 })
    }

    /// Number of descriptors.
    pub fn len(&self) -> (n: usize)
        ensures
            n == self@.len(),
    {
        self.desc.len()
    }

    /// Device address of the descriptor array.
    pub fn dma_addr(&self) -> (a: u32)
        ensures
            a == self@.base,
    {
        self.dma_addr
    }

    /// Index of the oldest descriptor whose buffer has not been reaped.
    pub fn next_to_clean(&self) -> (i: usize)
        ensures
            i == self@.cursor,
    {
        self.next_to_clean
    }

    /// Descriptor `idx`, or `None` when the ring has no such index.
    pub fn descriptor(&self, idx: usize) -> (d: Option<TxDescEntry>)
        ensures
            idx < self@.len() ==> d == Some(self@.descs[idx as int]),
            idx >= self@.len() ==> d.is_none(),
    {
        if idx < self.desc.len() {
            Some(self.desc[idx])
        } else {
            None
        }
    }

    /// Whether slot `idx` holds a buffer; `false` when the ring has no such
    /// index.
    pub fn is_occupied(&self, idx: usize) -> (r: bool)
        requires
            self@.wf(),
        ensures
            r == (idx < self@.len() && self@.slots[idx as int].is_some()),
    {
        idx < self.buf.len() && self.buf[idx].is_some()
    }

    /// Device address of the buffer in slot `idx`, or `None` when the slot
    /// is empty or the ring has no such index.
    pub fn buffer_addr(&self, idx: usize) -> (a: Option<u64>)
        requires
            self@.wf(),
        ensures
            a.is_some() == (idx < self@.len() && self@.slots[idx as int].is_some()),
            a.is_some() ==> a.unwrap() == self@.slots[idx as int].unwrap().dma_handle,
    {
        if idx < self.buf.len() && self.buf[idx].is_some() {
            Some(self.desc[idx].buf_addr)
        } else {
            None
        }
    }

    /// Whether the descriptor after the one at tail register value `tdt` is
    /// free. A caller that queues only where this holds never has the whole
    /// ring queued, so that the tail, and with it the device's head, comes
    /// back to the reap cursor only when nothing is left to reap.
    pub fn leaves_room(&self, tdt: u32) -> (r: bool)
        requires
            self@.wf(),
        ensures
            r == self@.room_after(tdt),
    {
        let n: usize = self.desc.len();
        let idx: usize = (tdt as usize) % n;
        let next: usize = if idx + 1 >= n {
            0
        } else {
            idx + 1
        };
        self.desc[next].is_done() && self.buf[next].is_none()
    }

    /// Whether a packet of `len` bytes would be accepted at tail register
    /// value `tdt`, and the length to pad it to. Changes nothing, so that a
    /// caller can ask before it maps the buffer.
    pub fn check_transmit(&self, tdt: u32, len: usize) -> (r: Result<usize, TxError>)
        requires
            self@.wf(),
        ensures
            match self@.transmit_verdict(tdt, len) {
                Ok(padded) => r == Ok::<usize, TxError>(padded as usize),
                Err(e) => r == Err::<usize, TxError>(e),
            },
    {
        let idx: usize = (tdt as usize) % self.desc.len();
        if !(self.desc[idx].is_done() && self.buf[idx].is_none()) {
            Err(TxError::RingFull)
        } else if len > RXTX_SINGLE_RING_BLOCK_SIZE {
            Err(TxError::TooLong)
        } else if len < ETH_ZLEN {
            Ok(ETH_ZLEN)
        } else {
            Ok(len)
        }
    }

    /// Queues `pkt`, mapped at `pkt.dma_handle` and `len` bytes long, on the
    /// descriptor at tail register value `tdt`, and returns the tail to
    /// publish to the device. The descriptor gets the buffer's address, the
    /// padded length and the command bits, and its done bit is cleared, which
    /// hands it to the device. The caller has padded the buffer itself to
    /// the length that `check_transmit` gave. A packet that is not accepted
    /// comes back with the reason, and the ring is as it was.
    pub fn transmit(&mut self, tdt: u32, len: usize, pkt: SkbDma<B>) -> (r: Result<
        u32,
        TxRejected<B>,
    >)
        requires
            old(self)@.wf(),
        ensures
            final(self)@.wf(),
            match old(self)@.transmit_verdict(tdt, len) {
                Ok(padded) => {
                    &&& r == Ok::<u32, TxRejected<B>>(
                        ring_next(old(self)@.index_of(tdt), old(self)@.len()) as u32,
                    )
                    &&& final(self)@ == old(self)@.transmit(tdt, len, pkt)
                },
                Err(e) => {
                    &&& r == Err::<u32, TxRejected<B>>(TxRejected { reason: e, pkt })
                    &&& final(self)@ == old(self)@
                },
            },
    {
        let n: usize = self.desc.len();
        let idx: usize = (tdt as usize) % n;
        let padded: usize = match self.check_transmit(tdt, len) {
            Ok(padded) => padded,
            Err(reason) => {
                return Err(TxRejected { reason, pkt });
            },
        };
        assert(0u8 & 1u8 == 0) by (bit_vector);
        let mut entry: TxDescEntry = self.desc[idx];
        entry.buf_addr = pkt.dma_handle;
        entry.length = padded as u16;
        entry.cmd = tx_cmd();
        entry.sta = 0;
        self.desc[idx] = entry;
        self.buf[idx] = Some(pkt);
        let tail: usize = if idx + 1 >= n {
            0
        } else {
            idx + 1
        };
        Ok(tail as u32)
    }

    /// Reaps the descriptors that the device has finished, given its head
    /// register value `tdh`: walks forward from the cursor while the
    /// descriptor is done and holds a buffer and the head is not reached.
    /// The walk never passes the head, even where done bits are set beyond
    /// it, and with the head at the cursor it releases nothing. The buffers
    /// come back oldest first, for the caller to unmap and to report as
    /// sent.
    ///
    /// A head at the cursor reads the same whether the device has not moved
    /// or has gone once round the ring, and in both cases nothing is
    /// released. A caller that queues only where `leaves_room` holds never
    /// meets the second case.
    pub fn recycle(&mut self, tdh: u32) -> (released: Vec<SkbDma<B>>)
        requires
            old(self)@.wf(),
        ensures
            final(self)@.wf(),
            final(self)@ == old(self)@.recycle(tdh),
            released@ == old(self)@.released(tdh),
    {
        let n: usize = self.desc.len();
        let head: usize = (tdh as usize) % n;
        let start: usize = self.next_to_clean;
        let mut idx: usize = start;
        let mut released: Vec<SkbDma<B>> = Vec::new();
        let ghost s0 = self@;
        let ghost limit = s0.reap_limit(tdh);
        let ghost mut count: int = 0;
        while idx != head && self.desc[idx].is_done() && self.buf[idx].is_some()
            invariant
                s0.wf(),
                n == s0.len(),
                start == s0.cursor,
                head == s0.index_of(tdh),
                limit == s0.reap_limit(tdh),
                0 <= count <= limit < n,
                idx == ring_add(start as int, count, n as int),
                self.desc@ == s0.descs,
                self.dma_addr == s0.base,
                self.buf@.len() == n,
                forall|i: int|
                    0 <= i < n ==> #[trigger] self.buf@[i] == if ring_dist(start as int, i, n as int)
                        < count {
                        None
                    } else {
                        s0.slots[i]
                    },
                forall|i: int|
                    0 <= i < n && ring_dist(start as int, i, n as int) < count ==> (
                    #[trigger] s0.descs[i]).done() && s0.slots[i].is_some(),
                released@.len() == count,
                forall|m: int|
                    0 <= m < count ==> #[trigger] released@[m] == s0.slots[ring_add(
                        start as int,
                        m,
                        n as int,
                    )].unwrap(),
                tx_completed_run(s0.descs, s0.slots, start as int, limit) == count
                    + tx_completed_run(s0.descs, s0.slots, idx as int, limit - count),
            decreases limit - count,
        {
            let pair: Option<SkbDma<B>> = self.buf[idx].take();
            released.push(pair.unwrap());
            idx = if idx + 1 >= n {
                0
            } else {
                idx + 1
            };
            proof {
                count = count + 1;
            }
        }
        self.next_to_clean = idx;
        proof {
            assert(self@.slots =~= s0.recycle(tdh).slots);
            assert(released@ =~= s0.released(tdh));
        }
        released
    }

    /// Records that the device wrote `entry` back over descriptor `idx`. The
    /// device may only write to a descriptor it owns and does not move the
    /// buffer; anything else is refused and changes nothing.
    pub fn device_write_back(&mut self, idx: usize, entry: TxDescEntry) -> (accepted: bool)
        requires
            old(self)@.wf(),
        ensures
            final(self)@.wf(),
            accepted == old(self)@.accepts_write_back(idx, entry),
            accepted ==> final(self)@ == old(self)@.write_back(idx, entry),
            !accepted ==> final(self)@ == old(self)@,
    {
        if idx >= self.desc.len() {
            return false;
        }
        if self.desc[idx].is_done() || self.desc[idx].buf_addr != entry.buf_addr {
            return false;
        }
        self.desc[idx] = entry;
        true
    }
}

} // verus!
