//! The device lifecycle: bringing the interface up and down, and the
//! transmit request of the network stack.
//!
//! Bringing the interface up is a list of steps that the caller performs in
//! order. It reports how far it got; if it did not get to the end, it is
//! told what to undo, and the device is down as before.

use vstd::prelude::*;
use crate::consts::E1000_TXD_STAT_DD;
use crate::consts::MAX_RING_SIZE;
use crate::consts::RXTX_SINGLE_RING_BLOCK_SIZE;
use crate::hw_defs::RxDescEntry;
use crate::hw_defs::TxDescEntry;
use crate::ring_buf::ring_next;
use crate::ring_buf::RingError;
use crate::ring_buf::SkbDma;
use crate::rx_ring::RxRingBuf;
use crate::tx_ring::padded_len;
use crate::tx_ring::TxError;
use crate::tx_ring::TxRingBuf;
use crate::tx_ring::TxRingView;

verus! {

/// Whether the interface is up.
#[derive(Clone, Copy, Debug, PartialEq, Eq, Structural)]
pub enum DeviceState {
    /// Not wired to the device: no rings, no interrupt.
    Down,
    /// Wired up and passing packets.
    Up,
    /// The device is going away; nothing can be started any more.
    Removing,
}

/// The steps that bring the interface up, in the order they are performed.
#[derive(Clone, Copy, Debug, PartialEq, Eq, Structural)]
pub enum OpenStep {
    /// Signal carrier down while the device is set up.
    CarrierOff,
    /// Allocate the transmit descriptors and build the transmit ring.
    SetupTxRing,
    /// Allocate the receive descriptors and buffers and build the receive
    /// ring.
    SetupRxRing,
    /// Program the device with the two rings and unmask its interrupts.
    Configure,
    /// Put the two rings where the transmit request and the poll pass find
    /// them.
    InstallRings,
    /// Install the interrupt top half on the device's line.
    RequestIrq,
    /// Let the poll pass be scheduled.
    EnableNapi,
    /// Let the network stack queue packets.
    StartQueue,
    /// Signal carrier up.
    CarrierOn,
}

/// Number of steps that bring the interface up.
pub const OPEN_STEPS: usize = 9;

/// The steps that take the interface down, in the order they are performed:
/// first nothing new comes in, then the interrupt path is quiet, then the
/// poll pass is off, and only then is ring memory released.
#[derive(Clone, Copy, Debug, PartialEq, Eq, Structural)]
pub enum TeardownStep {
    /// Signal carrier down.
    CarrierOff,
    /// Stop the network stack from queueing packets.
    StopQueue,
    /// Mask the device's interrupts and disable its receive and transmit
    /// units.
    QuiesceDevice,
    /// Remove the interrupt top half from the device's line.
    FreeIrq,
    /// Wait for a running poll pass and let no other be scheduled.
    DisableNapi,
    /// Unmap and free the receive buffers and descriptors.
    FreeRxRing,
    /// Unmap and free the transmit buffers and descriptors.
    FreeTxRing,
}

/// Number of steps that take the interface down.
pub const TEARDOWN_STEPS: usize = 7;

/// The steps that bring the interface up, in order.
pub open spec fn open_order() -> Seq<OpenStep> {
    seq![
        OpenStep::CarrierOff,
        OpenStep::SetupTxRing,
        OpenStep::SetupRxRing,
        OpenStep::Configure,
        OpenStep::InstallRings,
        OpenStep::RequestIrq,
        OpenStep::EnableNapi,
        OpenStep::StartQueue,
        OpenStep::CarrierOn,
    ]
}

/// The steps that take the interface down, in order.
pub open spec fn teardown_order() -> Seq<TeardownStep> {
    seq![
        TeardownStep::CarrierOff,
        TeardownStep::StopQueue,
        TeardownStep::QuiesceDevice,
        TeardownStep::FreeIrq,
        TeardownStep::DisableNapi,
        TeardownStep::FreeRxRing,
        TeardownStep::FreeTxRing,
    ]
}

/// The place of `step` in the order of an open.
pub open spec fn open_rank(step: OpenStep) -> int {
    match step {
        OpenStep::CarrierOff => 0,
        OpenStep::SetupTxRing => 1,
        OpenStep::SetupRxRing => 2,
        OpenStep::Configure => 3,
        OpenStep::InstallRings => 4,
        OpenStep::RequestIrq => 5,
        OpenStep::EnableNapi => 6,
        OpenStep::StartQueue => 7,
        OpenStep::CarrierOn => 8,
    }
}

/// The step of an open that `step` undoes.
pub open spec fn undoes(step: TeardownStep) -> OpenStep {
    match step {
        TeardownStep::CarrierOff => OpenStep::CarrierOn,
        TeardownStep::StopQueue => OpenStep::StartQueue,
        TeardownStep::QuiesceDevice => OpenStep::Configure,
        TeardownStep::FreeIrq => OpenStep::RequestIrq,
        TeardownStep::DisableNapi => OpenStep::EnableNapi,
        TeardownStep::FreeRxRing => OpenStep::SetupRxRing,
        TeardownStep::FreeTxRing => OpenStep::SetupTxRing,
    }
}

/// Whether `step` has something to undo after the first `completed` steps
/// of an open went through and the next one, if any, failed. A step that
/// acquires something is undone once it went through. Programming the
/// device is undone from the moment it was tried, since a failure half way
/// may leave a unit enabled.
pub open spec fn teardown_needed(step: TeardownStep, completed: int) -> bool {
    if step == TeardownStep::QuiesceDevice {
        completed >= open_rank(OpenStep::Configure)
    } else {
        completed > open_rank(undoes(step))
    }
}

/// The steps from position `from` of the teardown order on that have
/// something to undo.
pub open spec fn teardown_from(from: int, completed: int) -> Seq<TeardownStep>
    decreases TEARDOWN_STEPS - from,
{
    if from < 0 || from >= TEARDOWN_STEPS {
        Seq::empty()
    } else if teardown_needed(teardown_order()[from], completed) {
        seq![teardown_order()[from]] + teardown_from(from + 1, completed)
    } else {
        teardown_from(from + 1, completed)
    }
}

/// What to undo, in order, after the first `completed` steps of an open
/// went through.
pub open spec fn teardown_for(completed: int) -> Seq<TeardownStep> {
    teardown_from(0, completed)
}

/// Traffic counters of the interface.
#[derive(Clone, Copy, Debug, PartialEq, Eq, Structural)]
pub struct LinkStats {
    /// Bytes received.
    pub rx_bytes: u64,
    /// Packets received.
    pub rx_packets: u64,
    /// Bytes sent.
    pub tx_bytes: u64,
    /// Packets sent.
    pub tx_packets: u64,
}

/// What came of an attempt to bring the interface up.
#[derive(Debug, PartialEq, Eq)]
pub enum OpenOutcome {
    /// Every step went through; the interface is up.
    Up,
    /// A step failed; the interface is down, and `unwind` is to be undone.
    Failed { unwind: Vec<TeardownStep> },
    /// The interface was not down, so there was nothing to bring up.
    Refused,
}

/// What the network stack is told about a packet it asked to send.
#[derive(Clone, Copy, Debug, PartialEq, Eq, Structural)]
pub enum NetdevTx {
    /// The packet is queued on the device.
    Accepted,
    /// The packet was not taken; the stack may offer it again.
    Busy,
}

/// What came of a transmit request.
#[derive(Debug, PartialEq, Eq)]
pub enum Xmit<B> {
    /// The packet is queued on descriptor `index`, which is to be written
    /// out to the device; then `tail` is to be written to the transmit tail
    /// register.
    Accepted { index: usize, tail: u32 },
    /// The packet was not taken. `returned` is the mapped buffer, if there
    /// was one, for the caller to unmap.
    Busy { reason: TxError, returned: Option<SkbDma<B>> },
}

impl<B> Xmit<B> {
    /// What the network stack is told.
    pub open spec fn status_spec(self) -> NetdevTx {
        match self {
            Xmit::Accepted { .. } => NetdevTx::Accepted,
            Xmit::Busy { .. } => NetdevTx::Busy,
        }
    }

    /// What the network stack is told.
    pub fn status(&self) -> (s: NetdevTx)
        ensures
            s == self.status_spec(),
    {
        match self {
            Xmit::Accepted { .. } => NetdevTx::Accepted,
            Xmit::Busy { .. } => NetdevTx::Busy,
        }
    }
}

/// The verdict on a transmit request for a packet of `len` bytes at tail
/// register value `tdt`, where `mapped` says whether the buffer could be
/// mapped: the padded length if the packet is queued, the reason if not. A
/// packet that is too long is turned down before the ring is looked at.
pub open spec fn xmit_verdict<B>(ring: TxRingView<B>, tdt: u32, len: usize, mapped: bool) -> Result<
    int,
    TxError,
> {
    if len > RXTX_SINGLE_RING_BLOCK_SIZE {
        Err(TxError::TooLong)
    } else if !ring.free_at(ring.index_of(tdt)) {
        Err(TxError::RingFull)
    } else if !mapped {
        Err(TxError::MapFailed)
    } else {
        Ok(padded_len(len as int))
    }
}

/// Builds the transmit ring of `len` descriptors on the descriptor array
/// that the caller allocated at device address `dma_addr`. Every descriptor
/// is cleared but for its done bit, which is set so that the first packets
/// can be queued at once. No buffers are allocated: the network stack brings
/// one with every packet.
pub fn e1000_setup_all_tx_resources<B>(dma_addr: u32, len: usize) -> (r: Result<
    TxRingBuf<B>,
    RingError,
>)
    ensures
        0 < len <= MAX_RING_SIZE <==> r.is_ok(),
        r.is_err() ==> r == Err::<TxRingBuf<B>, RingError>(RingError::BadLength),
        r.is_ok() ==> {
            let ring = r.unwrap()@;
            &&& ring.wf()
            &&& ring.window(0)
            &&& ring.base == dma_addr
            &&& ring.cursor == 0
            &&& ring.len() == len
            &&& forall|i: int|
                0 <= i < len ==> #[trigger] ring.descs[i] == (TxDescEntry {
                    buf_addr: 0,
                    length: 0,
                    cso: 0,
                    cmd: 0,
                    sta: E1000_TXD_STAT_DD as u8,
                    css: 0,
                    special: 0,
                })
            &&& forall|i: int| 0 <= i < len ==> (#[trigger] ring.slots[i]).is_none()
            &&& forall|i: int| 0 <= i < len ==> ring.free_at(i)
        },
{
    let r: Result<TxRingBuf<B>, RingError> = TxRingBuf::new(dma_addr, len);
    proof {
        if r.is_ok() {
            let ring = r.unwrap()@;
            assert(1u8 & 1u8 != 0) by (bit_vector);
            assert forall|i: int| 0 <= i < len implies ring.free_at(i) by {
                assert(ring.descs[i].sta == 1);
                assert(ring.slots[i].is_none());
            }
        }
    }
    r
}

/// Builds the receive ring on the descriptor array that the caller
/// allocated at device address `dma_addr`, with one descriptor for each of
/// the mapped buffers in `bufs`, all of them posted to the device: slot `i`
/// holds `bufs[i]`, and descriptor `i` its address and nothing else.
pub fn e1000_setup_all_rx_resources<B>(dma_addr: u32, bufs: Vec<SkbDma<B>>) -> (r: Result<
    RxRingBuf<B>,
    RingError,
>)
    ensures
        0 < bufs@.len() <= MAX_RING_SIZE <==> r.is_ok(),
        r.is_err() ==> r == Err::<RxRingBuf<B>, RingError>(RingError::BadLength),
        r.is_ok() ==> {
            let ring = r.unwrap()@;
            &&& ring.wf()
            &&& ring.base == dma_addr
            &&& ring.cursor == 0
            &&& ring.len() == bufs@.len()
            &&& forall|i: int|
                0 <= i < bufs@.len() ==> #[trigger] ring.descs[i] == (RxDescEntry {
                    buf_addr: bufs@[i].dma_handle,
                    length: 0,
                    checksum: 0,
                    status: 0,
                    errors: 0,
                    special: 0,
                })
            &&& forall|i: int|
                0 <= i < bufs@.len() ==> #[trigger] ring.slots[i] == Some(bufs@[i])
            &&& forall|i: int| 0 <= i < bufs@.len() ==> !(#[trigger] ring.descs[i]).done()
        },
{
    let r: Result<RxRingBuf<B>, RingError> = RxRingBuf::new(dma_addr, bufs);
    proof {
        if r.is_ok() {
            let ring = r.unwrap()@;
            assert(0u8 & 1u8 == 0) by (bit_vector);
            assert forall|i: int| 0 <= i < bufs@.len() implies !(#[trigger] ring.descs[i]).done() by {
                assert(ring.descs[i].status == 0);
            }
        }
    }
    r
}

/// Reaps the transmit descriptors that the device has finished, given what
/// its head register read. The buffers come back oldest first, for the
/// caller to unmap and to report as sent.
pub fn e1000_recycle_tx_queue<B>(tx_ring: &mut TxRingBuf<B>, tdh: u32) -> (released: Vec<
    SkbDma<B>,
>)
    requires
        old(tx_ring)@.wf(),
    ensures
        final(tx_ring)@.wf(),
        final(tx_ring)@ == old(tx_ring)@.recycle(tdh),
        released@ == old(tx_ring)@.released(tdh),
{
    tx_ring.recycle(tdh)
}

/// The transmit request of the network stack, for a packet of `len` bytes,
/// with the transmit tail register at `tdt`. `mapping` is the buffer as it
/// was mapped for the device, or `None` if mapping it failed. The packet is
/// queued if it fits a buffer, the descriptor at the tail is free and the
/// buffer is mapped; otherwise the answer is "busy", the ring is as it was,
/// and the mapping, if any, comes back. Never blocks.
pub fn start_xmit<B>(tx_ring: &mut TxRingBuf<B>, tdt: u32, len: usize, mapping: Option<SkbDma<B>>)
    -> (r: Xmit<B>)
    requires
        old(tx_ring)@.wf(),
    ensures
        final(tx_ring)@.wf(),
        match xmit_verdict(old(tx_ring)@, tdt, len, mapping.is_some()) {
            Ok(_) => {
                &&& r == Xmit::<B>::Accepted {
                    index: old(tx_ring)@.index_of(tdt) as usize,
                    tail: ring_next(old(tx_ring)@.index_of(tdt), old(tx_ring)@.len()) as u32,
                }
                &&& final(tx_ring)@ == old(tx_ring)@.transmit(tdt, len, mapping.unwrap())
            },
            Err(e) => {
                &&& r == Xmit::<B>::Busy { reason: e, returned: mapping }
                &&& final(tx_ring)@ == old(tx_ring)@
            },
        },
{
    if len > RXTX_SINGLE_RING_BLOCK_SIZE {
        return Xmit::Busy { reason: TxError::TooLong, returned: mapping };
    }
    match tx_ring.check_transmit(tdt, len) {
        Err(reason) => {
            return Xmit::Busy { reason, returned: mapping };
        },
        Ok(_) => {},
    }
    let index: usize = (tdt as usize) % tx_ring.len();
    match mapping {
        None => Xmit::Busy { reason: TxError::MapFailed, returned: None },
        Some(pkt) => match tx_ring.transmit(tdt, len, pkt) {
            Ok(tail) => Xmit::Accepted { index, tail },
            Err(rejected) => Xmit::Busy {
                reason: rejected.reason,
                returned: Some(rejected.pkt),
            },
        },
    }
}

/// Step `i` of the teardown order.
fn teardown_step(i: usize) -> (s: TeardownStep)
    requires
        i < TEARDOWN_STEPS,
    ensures
        s == teardown_order()[i as int],
{
    match i {
        0 => TeardownStep::CarrierOff,
        1 => TeardownStep::StopQueue,
        2 => TeardownStep::QuiesceDevice,
        3 => TeardownStep::FreeIrq,
        4 => TeardownStep::DisableNapi,
        5 => TeardownStep::FreeRxRing,
        _ => TeardownStep::FreeTxRing,
    }
}

/// Whether `step` has something to undo after `completed` steps of an open.
fn needs_teardown(step: TeardownStep, completed: usize) -> (b: bool)
    ensures
        b == teardown_needed(step, completed as int),
{
    match step {
        TeardownStep::CarrierOff => completed > 8,
        TeardownStep::StopQueue => completed > 7,
        TeardownStep::QuiesceDevice => completed >= 3,
        TeardownStep::FreeIrq => completed > 5,
        TeardownStep::DisableNapi => completed > 6,
        TeardownStep::FreeRxRing => completed > 2,
        TeardownStep::FreeTxRing => completed > 1,
    }
}

/// The steps that bring the interface up, in the order to perform them.
pub fn open_plan() -> (plan: Vec<OpenStep>)
    ensures
        plan@ == open_order(),
{
    let mut plan: Vec<OpenStep> = Vec::new();
    plan.push(OpenStep::CarrierOff);
    plan.push(OpenStep::SetupTxRing);
    plan.push(OpenStep::SetupRxRing);
    plan.push(OpenStep::Configure);
    plan.push(OpenStep::InstallRings);
    plan.push(OpenStep::RequestIrq);
    plan.push(OpenStep::EnableNapi);
    plan.push(OpenStep::StartQueue);
    plan.push(OpenStep::CarrierOn);
    assert(plan@ =~= open_order());
    plan
}

/// What to undo, in the order to undo it, after the first `completed` steps
/// of an open went through and the next one failed.
pub fn unwind_plan(completed: usize) -> (plan: Vec<TeardownStep>)
    ensures
        plan@ == teardown_for(completed as int),
{
    let mut plan: Vec<TeardownStep> = Vec::new();
    let mut i: usize = 0;
    while i < TEARDOWN_STEPS
        invariant
            i <= TEARDOWN_STEPS,
            plan@ + teardown_from(i as int, completed as int) == teardown_for(completed as int),
        decreases TEARDOWN_STEPS - i,
    {
        let step: TeardownStep = teardown_step(i);
        let ghost before = plan@;
        if needs_teardown(step, completed) {
            plan.push(step);
            assert(plan@ + teardown_from(i + 1, completed as int) =~= before + teardown_from(
                i as int,
                completed as int,
            ));
        }
        i = i + 1;
    }
    assert(plan@ + teardown_from(TEARDOWN_STEPS as int, completed as int) =~= plan@);
    plan
}

/// The lifecycle of one network interface.
pub struct NetDevice {
    state: DeviceState,
}

impl View for NetDevice {
    type V = DeviceState;

    closed spec fn view(&self) -> DeviceState {
        self.state
    }
}

impl NetDevice {
    /// An interface that is down.
    pub fn new() -> (d: NetDevice)
        ensures
            d@ == DeviceState::Down,
    {
        NetDevice { state: DeviceState::Down }
    }

    /// Whether the interface is up.
    pub fn state(&self) -> (s: DeviceState)
        ensures
            s == self@,
    {
        self.state
    }

    /// Whether the interface can be brought up: only when it is down. To be
    /// asked before the first step of an open is performed.
    pub fn can_open(&self) -> (b: bool)
        ensures
            b == (self@ == DeviceState::Down),
    {
        match self.state {
            DeviceState::Down => true,
            _ => false,
        }
    }

    /// Concludes an attempt to bring the interface up, of which the first
    /// `completed` steps went through. With all of them done the interface
    /// is up. With fewer it stays down and the outcome says what to undo, so
    /// that nothing half set up stays wired to a live interrupt line. An
    /// interface that was not down is left as it is.
    pub fn open(&mut self, completed: usize) -> (r: OpenOutcome)
        ensures
            old(self)@ != DeviceState::Down ==> r == OpenOutcome::Refused && final(self)@ == old(
                self,
            )@,
            old(self)@ == DeviceState::Down && completed >= OPEN_STEPS ==> r == OpenOutcome::Up
                && final(self)@ == DeviceState::Up,
            old(self)@ == DeviceState::Down && completed < OPEN_STEPS ==> {
                &&& r matches OpenOutcome::Failed { unwind }
                &&& unwind@ == teardown_for(completed as int)
                &&& final(self)@ == DeviceState::Down
            },
    {
        match self.state {
            DeviceState::Down => {
                if completed >= OPEN_STEPS {
                    self.state = DeviceState::Up;
                    OpenOutcome::Up
                } else {
                    OpenOutcome::Failed { unwind: unwind_plan(completed) }
                }
            },
            _ => OpenOutcome::Refused,
        }
    }

    /// Takes the interface down. From up, the whole teardown is to be
    /// performed, in order: carrier and queue off, interrupt path quiet,
    /// poll pass off, ring memory released. An interface that is not up has
    /// nothing to take down.
    pub fn stop(&mut self) -> (plan: Option<Vec<TeardownStep>>)
        ensures
            old(self)@ == DeviceState::Up ==> {
                &&& plan.is_some()
                &&& plan.unwrap()@ == teardown_order()
                &&& final(self)@ == DeviceState::Down
            },
            old(self)@ != DeviceState::Up ==> plan.is_none() && final(self)@ == old(self)@,
    {
        match self.state {
            DeviceState::Up => {
                self.state = DeviceState::Down;
                let plan: Vec<TeardownStep> = unwind_plan(OPEN_STEPS);
                proof {
                    lemma_teardown_all();
                }
                Some(plan)
            },
            _ => None,
        }
    }

    /// Notes that the device is going away, from whatever state. An
    /// interface that was up is taken down on the way: the whole teardown
    /// is to be performed. Otherwise there is nothing to undo.
    pub fn remove(&mut self) -> (plan: Vec<TeardownStep>)
        ensures
            final(self)@ == DeviceState::Removing,
            old(self)@ == DeviceState::Up ==> plan@ == teardown_order(),
            old(self)@ != DeviceState::Up ==> plan@.len() == 0,
    {
        let was_up: bool = match self.state {
            DeviceState::Up => true,
            _ => false,
        };
        self.state = DeviceState::Removing;
        if was_up {
            proof {
                lemma_teardown_all();
            }
            unwind_plan(OPEN_STEPS)
        } else {
            Vec::new()
        }
    }

    /// The traffic counters. Traffic is not counted, so all of them read
    /// zero.
    pub fn get_stats64(&self) -> (stats: LinkStats)
        ensures
            stats == (LinkStats { rx_bytes: 0, rx_packets: 0, tx_bytes: 0, tx_packets: 0 }),
    {
        LinkStats { rx_bytes: 0, rx_packets: 0, tx_bytes: 0, tx_packets: 0 }
    }
}

/// After a complete open, everything is to be undone.
pub proof fn lemma_teardown_all()
    ensures
        teardown_for(OPEN_STEPS as int) == teardown_order(),
{
    reveal_with_fuel(teardown_from, 8);
    assert(teardown_for(OPEN_STEPS as int) =~= teardown_order());
}

/// Before anything was acquired, nothing is to be undone.
pub proof fn lemma_teardown_none(completed: int)
    requires
        completed <= 1,
    ensures
        teardown_for(completed).len() == 0,
{
    reveal_with_fuel(teardown_from, 8);
}

/// A failed open undoes exactly what it had set up: a step is in the list
/// if and only if it has something to undo, it is there once, and the list
/// keeps the teardown order.
pub proof fn lemma_unwind_exact(completed: int, step: TeardownStep)
    ensures
        teardown_for(completed).contains(step) <==> teardown_needed(step, completed),
        teardown_for(completed).no_duplicates(),
        forall|a: int, b: int|
            0 <= a < b < teardown_for(completed).len() ==> teardown_rank(
                #[trigger] teardown_for(completed)[a],
            ) < teardown_rank(#[trigger] teardown_for(completed)[b]),
{
    lemma_teardown_from_ranked(0, completed);
    let plan = teardown_for(completed);
    assert forall|a: int, b: int| 0 <= a < plan.len() && 0 <= b < plan.len() && a != b implies plan[a]
        != plan[b] by {
        if a < b {
            assert(teardown_rank(plan[a]) < teardown_rank(plan[b]));
        } else {
            assert(teardown_rank(plan[b]) < teardown_rank(plan[a]));
        }
    }
    if teardown_needed(step, completed) {
        lemma_teardown_from_holds(0, completed, step);
    }
    if plan.contains(step) {
        let at = choose|at: int| 0 <= at < plan.len() && plan[at] == step;
        assert(teardown_needed(plan[at], completed));
    }
}

/// The place of `step` in the teardown order.
pub open spec fn teardown_rank(step: TeardownStep) -> int {
    match step {
        TeardownStep::CarrierOff => 0,
        TeardownStep::StopQueue => 1,
        TeardownStep::QuiesceDevice => 2,
        TeardownStep::FreeIrq => 3,
        TeardownStep::DisableNapi => 4,
        TeardownStep::FreeRxRing => 5,
        TeardownStep::FreeTxRing => 6,
    }
}

/// The steps selected from a position on are needed, come from that
/// position or later, and stand in rising order.
pub proof fn lemma_teardown_from_ranked(from: int, completed: int)
    requires
        0 <= from <= TEARDOWN_STEPS,
    ensures
        forall|a: int|
            0 <= a < teardown_from(from, completed).len() ==> {
                &&& teardown_needed(#[trigger] teardown_from(from, completed)[a], completed)
                &&& teardown_rank(teardown_from(from, completed)[a]) >= from
            },
        forall|a: int, b: int|
            0 <= a < b < teardown_from(from, completed).len() ==> teardown_rank(
                #[trigger] teardown_from(from, completed)[a],
            ) < teardown_rank(#[trigger] teardown_from(from, completed)[b]),
    decreases TEARDOWN_STEPS - from,
{
    if from < TEARDOWN_STEPS {
        lemma_teardown_from_ranked(from + 1, completed);
        let rest = teardown_from(from + 1, completed);
        let here = teardown_order()[from];
        assert(teardown_rank(here) == from);
        if teardown_needed(here, completed) {
            let all = teardown_from(from, completed);
            assert(all =~= seq![here] + rest);
            assert forall|a: int| 0 <= a < all.len() implies {
                &&& teardown_needed(#[trigger] all[a], completed)
                &&& teardown_rank(all[a]) >= from
            } by {
                if a > 0 {
                    assert(all[a] == rest[a - 1]);
                }
            }
            assert forall|a: int, b: int| 0 <= a < b < all.len() implies teardown_rank(
                #[trigger] all[a],
            ) < teardown_rank(#[trigger] all[b]) by {
                assert(all[b] == rest[b - 1]);
                if a > 0 {
                    assert(all[a] == rest[a - 1]);
                }
            }
        }
    }
}

/// A needed step at or after a position is among the steps selected from
/// that position on.
pub proof fn lemma_teardown_from_holds(from: int, completed: int, step: TeardownStep)
    requires
        0 <= from <= teardown_rank(step),
        teardown_needed(step, completed),
    ensures
        teardown_from(from, completed).contains(step),
    decreases TEARDOWN_STEPS - from,
{
    let here = teardown_order()[from];
    let all = teardown_from(from, completed);
    if from == teardown_rank(step) {
        assert(here == step);
        assert(all =~= seq![here] + teardown_from(from + 1, completed));
        assert(all[0] == step);
    } else {
        lemma_teardown_from_holds(from + 1, completed, step);
        let rest = teardown_from(from + 1, completed);
        let at = choose|at: int| 0 <= at < rest.len() && rest[at] == step;
        if teardown_needed(here, completed) {
            assert(all =~= seq![here] + rest);
            assert(all[at + 1] == step);
        } else {
            assert(all[at] == step);
        }
    }
}

} // verus!
