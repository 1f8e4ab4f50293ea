//! Register programming: the reset protocol and the configuration writes.
//!
//! Nothing here touches a register. A sequence is handed out one operation
//! at a time, or as a list where no operation depends on an earlier read;
//! the caller performs each operation on the mapped regions and, for the
//! reset, reports back what came of it.

use vstd::prelude::*;
use crate::consts::DEFAULT_82543_TIPG_IPGR1;
use crate::consts::DEFAULT_82543_TIPG_IPGR2;
use crate::consts::DEFAULT_82543_TIPG_IPGT_COPPER;
use crate::consts::DESC_SIZE;
use crate::consts::E1000_COLD_SHIFT;
use crate::consts::E1000_COLLISION_DISTANCE;
use crate::consts::E1000_COLLISION_THRESHOLD;
use crate::consts::E1000_CT_SHIFT;
use crate::consts::E1000_ICR_LSC;
use crate::consts::E1000_ICR_RXDMT0;
use crate::consts::E1000_ICR_RXSEQ;
use crate::consts::E1000_ICR_RXT0;
use crate::consts::E1000_ICR_TXDW;
use crate::consts::E1000_RCTL_BAM;
use crate::consts::E1000_RCTL_EN;
use crate::consts::E1000_RCTL_SECRC;
use crate::consts::E1000_RCTL_SZ_2048;
use crate::consts::E1000_TCTL_EN;
use crate::consts::E1000_TIPG_IPGR1_SHIFT;
use crate::consts::E1000_TIPG_IPGR2_SHIFT;
use crate::consts::E1000_CTRL;
use crate::consts::E1000_CTRL_RST;
use crate::consts::E1000_ICR;
use crate::consts::E1000_IMC;
use crate::consts::E1000_IMS;
use crate::consts::E1000_IOADDR;
use crate::consts::E1000_IODATA;
use crate::consts::E1000_IRQ_ALL;
use crate::consts::E1000_MANC;
use crate::consts::E1000_MANC_ARP_EN;
use crate::consts::E1000_MTA;
use crate::consts::E1000_MTA_ENTRIES;
use crate::consts::E1000_RA;
use crate::consts::E1000_RADV;
use crate::consts::E1000_RAH_VALUE;
use crate::consts::E1000_RAL_VALUE;
use crate::consts::E1000_RCTL;
use crate::consts::E1000_RDBAH;
use crate::consts::E1000_RDBAL;
use crate::consts::E1000_RDH;
use crate::consts::E1000_RDLEN;
use crate::consts::E1000_RDT;
use crate::consts::E1000_RDTR;
use crate::consts::E1000_STATUS;
use crate::consts::E1000_TCTL;
use crate::consts::E1000_TCTL_PSP;
use crate::consts::E1000_TDBAH;
use crate::consts::E1000_TDBAL;
use crate::consts::E1000_TDH;
use crate::consts::E1000_TDLEN;
use crate::consts::E1000_TDT;
use crate::consts::E1000_TIPG;
use crate::consts::RESET_DRAIN_MS;
use crate::consts::RESET_RELOAD_MS;
use crate::rx_ring::RxRingBuf;
use crate::tx_ring::TxRingBuf;

verus! {

/// One thing to do to the device, or a pause between two.
#[derive(Clone, Copy, Debug, PartialEq, Eq, Structural)]
pub enum RegOp {
    /// Write `value` to the register at `offset` of the memory-mapped region.
    Write32 { value: u32, offset: usize },
    /// Read the register at `offset` of the memory-mapped region.
    Read32 { offset: usize },
    /// Write `value` at `offset` of the I/O-port region.
    IoWrite32 { value: u32, offset: usize },
    /// Sleep for about `millis` milliseconds.
    Sleep { millis: u64 },
}

/// Where a reset stands.
#[derive(Clone, Copy, Debug, PartialEq, Eq, Structural)]
pub enum ResetStatus {
    /// Operations are still to be performed.
    Running,
    /// Every operation was performed.
    Done,
    /// An operation failed; the reset was abandoned there.
    Failed,
}

/// Number of operations in a reset.
pub const RESET_STEPS: usize = 13;

/// The step of the reset that only flushes posted writes; its read may fail
/// without harm.
pub const RESET_FLUSH_STEP: usize = 3;

/// The step of the reset that reads the control register.
pub const RESET_READ_CTRL_STEP: usize = 5;

/// The step of the reset that reads the management control register.
pub const RESET_READ_MANC_STEP: usize = 9;

/// Receive control value that enables the unit: broadcast accepted, 2048-byte
/// buffers, CRC stripped.
pub const RCTL_CONFIG: u32 = 0x04008002;

/// Transmit control value that enables the unit: short packets padded,
/// collision threshold 0x10, collision distance 0x40.
pub const TCTL_CONFIG: u32 = 0x0004010A;

/// Inter-packet gap value for copper links.
pub const TIPG_CONFIG: u32 = 0x00602008;

/// The interrupt causes the driver listens to: descriptor written back,
/// receiver timer, receive threshold, sequence error, link change.
pub const IMS_CONFIG: u32 = 0x0000009D;

/// A register write through the I/O ports: the register's address goes to
/// the address window, then the value to the data window.
pub open spec fn reg_io_ops(value: u32, addr: u32) -> Seq<RegOp> {
    seq![
        RegOp::IoWrite32 { value: addr, offset: E1000_IOADDR },
        RegOp::IoWrite32 { value, offset: E1000_IODATA },
    ]
}

/// The reset protocol: what to do at `step`, where `ctrl` and `manc` are the
/// values that the two reads before it returned.
///
/// Mask every interrupt; disable the receive and the transmit unit; flush;
/// sleep while pending transactions drain; read the control register and
/// write it back with the reset bit, through the I/O ports, address window
/// first; sleep while the EEPROM reloads; switch off hardware ARP handling;
/// mask every interrupt once more; read the interrupt cause to clear it.
pub open spec fn reset_op(step: int, ctrl: u32, manc: u32) -> Option<RegOp> {
    if step == 0 {
        Some(RegOp::Write32 { value: E1000_IRQ_ALL, offset: E1000_IMC })
    } else if step == 1 {
        Some(RegOp::Write32 { value: 0, offset: E1000_RCTL })
    } else if step == 2 {
        Some(RegOp::Write32 { value: E1000_TCTL_PSP, offset: E1000_TCTL })
    } else if step == 3 {
        Some(RegOp::Read32 { offset: E1000_STATUS })
    } else if step == 4 {
        Some(RegOp::Sleep { millis: RESET_DRAIN_MS })
    } else if step == 5 {
        Some(RegOp::Read32 { offset: E1000_CTRL })
    } else if step == 6 {
        Some(reg_io_ops(ctrl | E1000_CTRL_RST, E1000_CTRL as u32)[0])
    } else if step == 7 {
        Some(reg_io_ops(ctrl | E1000_CTRL_RST, E1000_CTRL as u32)[1])
    } else if step == 8 {
        Some(RegOp::Sleep { millis: RESET_RELOAD_MS })
    } else if step == 9 {
        Some(RegOp::Read32 { offset: E1000_MANC })
    } else if step == 10 {
        Some(RegOp::Write32 { value: manc & !E1000_MANC_ARP_EN, offset: E1000_MANC })
    } else if step == 11 {
        Some(RegOp::Write32 { value: E1000_IRQ_ALL, offset: E1000_IMC })
    } else if step == 12 {
        Some(RegOp::Read32 { offset: E1000_ICR })
    } else {
        None
    }
}

/// What a reset in progress is.
pub struct ResetView {
    /// Number of operations performed.
    pub step: int,
    /// What the control register read, once it was read.
    pub ctrl: u32,
    /// What the management control register read, once it was read.
    pub manc: u32,
    /// Whether an operation failed.
    pub failed: bool,
}

impl ResetView {
    /// A reset that has not begun.
    pub open spec fn start() -> ResetView {
        ResetView { step: 0, ctrl: 0, manc: 0, failed: false }
    }

    /// The operation to perform next, if any is left.
    pub open spec fn pending_op(self) -> Option<RegOp> {
        if self.failed {
            None
        } else {
            reset_op(self.step, self.ctrl, self.manc)
        }
    }

    /// Where the reset stands.
    pub open spec fn status(self) -> ResetStatus {
        if self.failed {
            ResetStatus::Failed
        } else if self.step >= RESET_STEPS {
            ResetStatus::Done
        } else {
            ResetStatus::Running
        }
    }

    /// The reset after the pending operation was performed: `reply` is
    /// `None` when it failed, and holds the value when it was a read that
    /// succeeded (any value otherwise). A failure abandons the reset, except
    /// at the flush; with nothing pending, nothing changes.
    pub open spec fn after(self, reply: Option<u32>) -> ResetView {
        if self.pending_op().is_none() {
            self
        } else if reply.is_none() {
            if self.step == RESET_FLUSH_STEP {
                ResetView { step: self.step + 1, ..self }
            } else {
                ResetView { failed: true, ..self }
            }
        } else if self.step == RESET_READ_CTRL_STEP {
            ResetView { step: self.step + 1, ctrl: reply.unwrap(), ..self }
        } else if self.step == RESET_READ_MANC_STEP {
            ResetView { step: self.step + 1, manc: reply.unwrap(), ..self }
        } else {
            ResetView { step: self.step + 1, ..self }
        }
    }

    /// The reset after the operations were performed with `replies`, one
    /// after the other.
    pub open spec fn after_all(self, replies: Seq<Option<u32>>) -> ResetView
        decreases replies.len(),
    {
        if replies.len() == 0 {
            self
        } else {
            self.after(replies[0]).after_all(replies.skip(1))
        }
    }

    /// The operations that a caller performs who, from here, asks for the
    /// next operation, performs it and reports `replies` in turn, until the
    /// replies or the operations run out.
    pub open spec fn trace(self, replies: Seq<Option<u32>>) -> Seq<RegOp>
        decreases replies.len(),
    {
        if replies.len() == 0 || self.pending_op().is_none() {
            Seq::empty()
        } else {
            seq![self.pending_op().unwrap()] + self.after(replies[0]).trace(replies.skip(1))
        }
    }
}

/// The thirteen operations of a reset, in order, where the control register
/// read `ctrl` and the management control register read `manc`.
pub open spec fn reset_protocol(ctrl: u32, manc: u32) -> Seq<RegOp> {
    seq![
        RegOp::Write32 { value: E1000_IRQ_ALL, offset: E1000_IMC },
        RegOp::Write32 { value: 0, offset: E1000_RCTL },
        RegOp::Write32 { value: E1000_TCTL_PSP, offset: E1000_TCTL },
        RegOp::Read32 { offset: E1000_STATUS },
        RegOp::Sleep { millis: RESET_DRAIN_MS },
        RegOp::Read32 { offset: E1000_CTRL },
        RegOp::IoWrite32 { value: E1000_CTRL as u32, offset: E1000_IOADDR },
        RegOp::IoWrite32 { value: ctrl | E1000_CTRL_RST, offset: E1000_IODATA },
        RegOp::Sleep { millis: RESET_RELOAD_MS },
        RegOp::Read32 { offset: E1000_MANC },
        RegOp::Write32 { value: manc & !E1000_MANC_ARP_EN, offset: E1000_MANC },
        RegOp::Write32 { value: E1000_IRQ_ALL, offset: E1000_IMC },
        RegOp::Read32 { offset: E1000_ICR },
    ]
}

/// A reset of the controller, handed out one operation at a time.
pub struct ResetHw {
    step: usize,
    ctrl: u32,
    manc: u32,
    failed: bool,
}

impl View for ResetHw {
    type V = ResetView;

    closed spec fn view(&self) -> ResetView {
        ResetView { step: self.step as int, ctrl: self.ctrl, manc: self.manc, failed: self.failed }
    }
}

impl ResetHw {
    /// What holds of every reset: it never counts past its last operation.
    pub closed spec fn wf(&self) -> bool {
        self.step <= RESET_STEPS
    }

    /// A reset that has not begun.
    pub fn e1000_reset_hw() -> (r: ResetHw)
        ensures
            r.wf(),
            r@ == ResetView::start(),
    {
        ResetHw { step: 0, ctrl: 0, manc: 0, failed: false }
    }

    /// The operation to perform next, or `None` when the reset is done or
    /// was abandoned.
    pub fn next_op(&self) -> (op: Option<RegOp>)
        ensures
            op == self@.pending_op(),
    {
        if self.failed {
            return None;
        }
        match self.step {
            0 => Some(RegOp::Write32 { value: E1000_IRQ_ALL, offset: E1000_IMC }),
            1 => Some(RegOp::Write32 { value: 0, offset: E1000_RCTL }),
            2 => Some(RegOp::Write32 { value: E1000_TCTL_PSP, offset: E1000_TCTL }),
            3 => Some(e1000_write_flush()),
            4 => Some(RegOp::Sleep { millis: RESET_DRAIN_MS }),
            5 => Some(RegOp::Read32 { offset: E1000_CTRL }),
            6 => Some(e1000_write_reg_io(self.ctrl | E1000_CTRL_RST, E1000_CTRL as u32)[0]),
            7 => Some(e1000_write_reg_io(self.ctrl | E1000_CTRL_RST, E1000_CTRL as u32)[1]),
            8 => Some(RegOp::Sleep { millis: RESET_RELOAD_MS }),
            9 => Some(RegOp::Read32 { offset: E1000_MANC }),
            10 => Some(
                RegOp::Write32 { value: self.manc & !E1000_MANC_ARP_EN, offset: E1000_MANC },
            ),
            11 => Some(RegOp::Write32 { value: E1000_IRQ_ALL, offset: E1000_IMC }),
            12 => Some(e1000_read_interrupt_state()),
            _ => None,
        }
    }

    /// Records what came of the pending operation and moves on: `reply` is
    /// `None` when the operation failed, and holds the value when a read
    /// succeeded. A failed operation abandons the reset, except the flush
    /// read, whose failure is passed over.
    pub fn complete(&mut self, reply: Option<u32>)
        requires
            old(self).wf(),
        ensures
            final(self).wf(),
            final(self)@ == old(self)@.after(reply),
    {
        if self.failed || self.step >= RESET_STEPS {
            return ;
        }
        match reply {
            None => {
                if self.step == RESET_FLUSH_STEP {
                    self.step = self.step + 1;
                } else {
                    self.failed = true;
                }
            },
            Some(value) => {
                if self.step == RESET_READ_CTRL_STEP {
                    self.ctrl = value;
                } else if self.step == RESET_READ_MANC_STEP {
                    self.manc = value;
                }
                self.step = self.step + 1;
            },
        }
    }

    /// Where the reset stands.
    pub fn status(&self) -> (s: ResetStatus)
        ensures
            s == self@.status(),
    {
        if self.failed {
            ResetStatus::Failed
        } else if self.step >= RESET_STEPS {
            ResetStatus::Done
        } else {
            ResetStatus::Running
        }
    }
}

/// The read that flushes posted writes: the status register.
pub fn e1000_write_flush() -> (op: RegOp)
    ensures
        op == (RegOp::Read32 { offset: E1000_STATUS }),
{
    RegOp::Read32 { offset: E1000_STATUS }
}

/// A register write through the I/O ports, as two operations: the
/// register's address to the address window, then the value to the data
/// window. The reset issues its reset bit this way.
pub fn e1000_write_reg_io(value: u32, addr: u32) -> (ops: Vec<RegOp>)
    ensures
        ops@ == reg_io_ops(value, addr),
        ops@.len() == 2,
{
    let mut ops: Vec<RegOp> = Vec::new();
    ops.push(RegOp::IoWrite32 { value: addr, offset: E1000_IOADDR });
    ops.push(RegOp::IoWrite32 { value, offset: E1000_IODATA });
    assert(ops@ =~= reg_io_ops(value, addr));
    ops
}

/// The read of the interrupt cause, which also clears it.
pub fn e1000_read_interrupt_state() -> (op: RegOp)
    ensures
        op == (RegOp::Read32 { offset: E1000_ICR }),
{
    RegOp::Read32 { offset: E1000_ICR }
}

/// The read of the transmit head.
pub fn e1000_read_tx_queue_head() -> (op: RegOp)
    ensures
        op == (RegOp::Read32 { offset: E1000_TDH }),
{
    RegOp::Read32 { offset: E1000_TDH }
}

/// The read of the transmit tail.
pub fn e1000_read_tx_queue_tail() -> (op: RegOp)
    ensures
        op == (RegOp::Read32 { offset: E1000_TDT }),
{
    RegOp::Read32 { offset: E1000_TDT }
}

/// The write that publishes the transmit tail `val`.
pub fn e1000_write_tx_queue_tail(val: u32) -> (op: RegOp)
    ensures
        op == (RegOp::Write32 { value: val, offset: E1000_TDT }),
{
    RegOp::Write32 { value: val, offset: E1000_TDT }
}

/// The read of the receive head.
pub fn e1000_read_rx_queue_head() -> (op: RegOp)
    ensures
        op == (RegOp::Read32 { offset: E1000_RDH }),
{
    RegOp::Read32 { offset: E1000_RDH }
}

/// The read of the receive tail.
pub fn e1000_read_rx_queue_tail() -> (op: RegOp)
    ensures
        op == (RegOp::Read32 { offset: E1000_RDT }),
{
    RegOp::Read32 { offset: E1000_RDT }
}

/// The write that publishes the receive tail `val`.
pub fn e1000_write_rx_queue_tail(val: u32) -> (op: RegOp)
    ensures
        op == (RegOp::Write32 { value: val, offset: E1000_RDT }),
{
    RegOp::Write32 { value: val, offset: E1000_RDT }
}

/// The operations that make the device fall silent: every interrupt masked,
/// the receive and the transmit unit disabled, and a read to flush the
/// writes. They are the first four operations of a reset.
pub open spec fn quiesce_ops() -> Seq<RegOp> {
    seq![
        RegOp::Write32 { value: E1000_IRQ_ALL, offset: E1000_IMC },
        RegOp::Write32 { value: 0, offset: E1000_RCTL },
        RegOp::Write32 { value: E1000_TCTL_PSP, offset: E1000_TCTL },
        RegOp::Read32 { offset: E1000_STATUS },
    ]
}

/// The operations that make the device fall silent, in order. They come
/// first when the interface is taken down, so that no interrupt and no DMA
/// transfer meets a ring that is being released.
pub fn e1000_quiesce() -> (ops: Vec<RegOp>)
    ensures
        ops@ == quiesce_ops(),
        ops@ == reset_protocol(0, 0).take(4),
{
    let mut ops: Vec<RegOp> = Vec::new();
    ops.push(RegOp::Write32 { value: E1000_IRQ_ALL, offset: E1000_IMC });
    ops.push(RegOp::Write32 { value: 0, offset: E1000_RCTL });
    ops.push(RegOp::Write32 { value: E1000_TCTL_PSP, offset: E1000_TCTL });
    ops.push(e1000_write_flush());
    assert(ops@ =~= quiesce_ops());
    assert(ops@ =~= reset_protocol(0, 0).take(4));
    ops
}

/// The writes that clear the multicast table array.
pub open spec fn clear_mta_ops() -> Seq<RegOp> {
    Seq::new(
        E1000_MTA_ENTRIES as nat,
        |i: int| RegOp::Write32 { value: 0, offset: (E1000_MTA + i * 4) as usize },
    )
}

/// The writes that set up reception on a ring of `len` descriptors at device
/// address `base`: station address; multicast table cleared; head at 0, tail
/// at the last descriptor, so that the device owns the whole ring; length in
/// bytes; base address; receive control; both interrupt delay timers off.
pub open spec fn configure_rx_ops(base: u32, len: int) -> Seq<RegOp> {
    seq![
        RegOp::Write32 { value: E1000_RAL_VALUE, offset: E1000_RA },
        RegOp::Write32 { value: E1000_RAH_VALUE, offset: (E1000_RA + 4) as usize },
    ] + clear_mta_ops() + seq![
        RegOp::Write32 { value: 0, offset: E1000_RDH },
        RegOp::Write32 { value: (len - 1) as u32, offset: E1000_RDT },
        RegOp::Write32 { value: (len * DESC_SIZE) as u32, offset: E1000_RDLEN },
        RegOp::Write32 { value: base, offset: E1000_RDBAL },
        RegOp::Write32 { value: 0, offset: E1000_RDBAH },
        RegOp::Write32 { value: RCTL_CONFIG, offset: E1000_RCTL },
        RegOp::Write32 { value: 0, offset: E1000_RDTR },
        RegOp::Write32 { value: 0, offset: E1000_RADV },
    ]
}

/// The writes that set up transmission on a ring of `len` descriptors at
/// device address `base`: head and tail at 0; length in bytes; base address;
/// transmit control; inter-packet gap.
pub open spec fn configure_tx_ops(base: u32, len: int) -> Seq<RegOp> {
    seq![
        RegOp::Write32 { value: 0, offset: E1000_TDH },
        RegOp::Write32 { value: 0, offset: E1000_TDT },
        RegOp::Write32 { value: (len * DESC_SIZE) as u32, offset: E1000_TDLEN },
        RegOp::Write32 { value: base, offset: E1000_TDBAL },
        RegOp::Write32 { value: 0, offset: E1000_TDBAH },
        RegOp::Write32 { value: TCTL_CONFIG, offset: E1000_TCTL },
        RegOp::Write32 { value: TIPG_CONFIG, offset: E1000_TIPG },
    ]
}

/// The writes that bring the device up on the two rings: reception first,
/// then transmission, then the interrupt mask.
pub open spec fn configure_ops(rx_base: u32, rx_len: int, tx_base: u32, tx_len: int) -> Seq<
    RegOp,
> {
    configure_rx_ops(rx_base, rx_len) + configure_tx_ops(tx_base, tx_len) + seq![
        RegOp::Write32 { value: IMS_CONFIG, offset: E1000_IMS },
    ]
}

fn append_ops(out: &mut Vec<RegOp>, more: Vec<RegOp>)
    ensures
        final(out)@ == old(out)@ + more@,
{
    let mut i: usize = 0;
    while i < more.len()
        invariant
            i <= more@.len(),
            out@ == old(out)@ + more@.take(i as int),
        decreases more@.len() - i,
    {
        out.push(more[i]);
        i = i + 1;
        assert(out@ =~= old(out)@ + more@.take(i as int));
    }
    assert(more@.take(more@.len() as int) =~= more@);
}

/// The writes that set up reception on `rx_ring`, in order.
pub fn e1000_configure_rx<B>(rx_ring: &RxRingBuf<B>) -> (ops: Vec<RegOp>)
    requires
        rx_ring@.wf(),
    ensures
        ops@ == configure_rx_ops(rx_ring@.base, rx_ring@.len()),
{
    let len: usize = rx_ring.len();
    let mut ops: Vec<RegOp> = Vec::new();
    ops.push(RegOp::Write32 { value: E1000_RAL_VALUE, offset: E1000_RA });
    ops.push(RegOp::Write32 { value: E1000_RAH_VALUE, offset: E1000_RA + 4 });
    let mut i: usize = 0;
    while i < E1000_MTA_ENTRIES
        invariant
            i <= E1000_MTA_ENTRIES,
            ops@.len() == 2 + i,
            ops@[0] == (RegOp::Write32 { value: E1000_RAL_VALUE, offset: E1000_RA }),
            ops@[1] == (RegOp::Write32 {
                value: E1000_RAH_VALUE,
                offset: (E1000_RA + 4) as usize,
            }),
            forall|k: int|
                0 <= k < i ==> #[trigger] ops@[2 + k] == (RegOp::Write32 {
                    value: 0,
                    offset: (E1000_MTA + k * 4) as usize,
                }),
        decreases E1000_MTA_ENTRIES - i,
    {
        ops.push(RegOp::Write32 { value: 0, offset: E1000_MTA + i * 4 });
        i = i + 1;
    }
    ops.push(RegOp::Write32 { value: 0, offset: E1000_RDH });
    ops.push(RegOp::Write32 { value: (len - 1) as u32, offset: E1000_RDT });
    ops.push(RegOp::Write32 { value: (len * DESC_SIZE) as u32, offset: E1000_RDLEN });
    ops.push(RegOp::Write32 { value: rx_ring.dma_addr(), offset: E1000_RDBAL });
    ops.push(RegOp::Write32 { value: 0, offset: E1000_RDBAH });
    ops.push(RegOp::Write32 { value: RCTL_CONFIG, offset: E1000_RCTL });
    ops.push(RegOp::Write32 { value: 0, offset: E1000_RDTR });
    ops.push(RegOp::Write32 { value: 0, offset: E1000_RADV });
    proof {
        let want = configure_rx_ops(rx_ring@.base, rx_ring@.len());
        assert(want.len() == ops@.len());
        assert forall|k: int| 0 <= k < ops@.len() implies ops@[k] == want[k] by {
            if 2 <= k < 2 + E1000_MTA_ENTRIES {
                assert(ops@[2 + (k - 2)] == clear_mta_ops()[k - 2]);
            }
        }
        assert(ops@ =~= want);
    }
    ops
}

/// The writes that set up transmission on `tx_ring`, in order.
pub fn e1000_configure_tx<B>(tx_ring: &TxRingBuf<B>) -> (ops: Vec<RegOp>)
    requires
        tx_ring@.wf(),
    ensures
        ops@ == configure_tx_ops(tx_ring@.base, tx_ring@.len()),
{
    let len: usize = tx_ring.len();
    let mut ops: Vec<RegOp> = Vec::new();
    ops.push(RegOp::Write32 { value: 0, offset: E1000_TDH });
    ops.push(RegOp::Write32 { value: 0, offset: E1000_TDT });
    ops.push(RegOp::Write32 { value: (len * DESC_SIZE) as u32, offset: E1000_TDLEN });
    ops.push(RegOp::Write32 { value: tx_ring.dma_addr(), offset: E1000_TDBAL });
    ops.push(RegOp::Write32 { value: 0, offset: E1000_TDBAH });
    ops.push(RegOp::Write32 { value: TCTL_CONFIG, offset: E1000_TCTL });
    ops.push(RegOp::Write32 { value: TIPG_CONFIG, offset: E1000_TIPG });
    assert(ops@ =~= configure_tx_ops(tx_ring@.base, tx_ring@.len()));
    ops
}

/// The writes that bring the device up on the two rings, in order:
/// reception, transmission, and last the interrupt mask, so that no
/// interrupt arrives before both rings are in place.
pub fn e1000_configure<B>(rx_ring: &RxRingBuf<B>, tx_ring: &TxRingBuf<B>) -> (ops: Vec<RegOp>)
    requires
        rx_ring@.wf(),
        tx_ring@.wf(),
    ensures
        ops@ == configure_ops(rx_ring@.base, rx_ring@.len(), tx_ring@.base, tx_ring@.len()),
{
    let mut ops: Vec<RegOp> = e1000_configure_rx(rx_ring);
    append_ops(&mut ops, e1000_configure_tx(tx_ring));
    ops.push(RegOp::Write32 { value: IMS_CONFIG, offset: E1000_IMS });
    assert(ops@ =~= configure_ops(
        rx_ring@.base,
        rx_ring@.len(),
        tx_ring@.base,
        tx_ring@.len(),
    ));
    ops
}

/// The configuration values are what the register bits spell out.
pub proof fn lemma_config_values()
    ensures
        RCTL_CONFIG == E1000_RCTL_EN | E1000_RCTL_BAM | E1000_RCTL_SZ_2048 | E1000_RCTL_SECRC,
        TCTL_CONFIG == E1000_TCTL_EN | E1000_TCTL_PSP | (E1000_COLLISION_THRESHOLD
            << E1000_CT_SHIFT) | (E1000_COLLISION_DISTANCE << E1000_COLD_SHIFT),
        TIPG_CONFIG == DEFAULT_82543_TIPG_IPGT_COPPER | (DEFAULT_82543_TIPG_IPGR1
            << E1000_TIPG_IPGR1_SHIFT) | (DEFAULT_82543_TIPG_IPGR2 << E1000_TIPG_IPGR2_SHIFT),
        IMS_CONFIG == E1000_ICR_TXDW | E1000_ICR_RXT0 | E1000_ICR_RXDMT0 | E1000_ICR_RXSEQ
            | E1000_ICR_LSC,
{
    assert(0x04008002u32 == 0x00000002u32 | 0x00008000u32 | 0x00000000u32 | 0x04000000u32)
        by (bit_vector);
    assert(0x0004010Au32 == 0x00000002u32 | 0x00000008u32 | (0x10u32 << 4u32) | (0x40u32
        << 12u32)) by (bit_vector);
    assert(0x00602008u32 == 8u32 | (8u32 << 10u32) | (6u32 << 20u32)) by (bit_vector);
    assert(0x0000009Du32 == 0x00000001u32 | 0x00000080u32 | 0x00000010u32 | 0x00000008u32
        | 0x00000004u32) by (bit_vector);
}

/// The reset bit goes out through the I/O ports: the two operations after
/// the read of the control register are the port write of what was read,
/// with the reset bit added, to the control register.
pub proof fn lemma_reset_goes_through_io_ports(ctrl: u32, manc: u32)
    ensures
        reset_protocol(ctrl, manc).subrange(6, 8) == reg_io_ops(
            ctrl | E1000_CTRL_RST,
            E1000_CTRL as u32,
        ),
        reset_op(6, ctrl, manc) == Some(reg_io_ops(ctrl | E1000_CTRL_RST, E1000_CTRL as u32)[0]),
        reset_op(7, ctrl, manc) == Some(reg_io_ops(ctrl | E1000_CTRL_RST, E1000_CTRL as u32)[1]),
{
    assert(reset_protocol(ctrl, manc).subrange(6, 8) =~= reg_io_ops(
        ctrl | E1000_CTRL_RST,
        E1000_CTRL as u32,
    ));
}

/// A reset in which no operation fails, the flush read aside, performs the
/// thirteen operations of the protocol in order, with the reset bit added to
/// what the control register read and the ARP bit taken from what the
/// management control register read, and is then done.
pub proof fn lemma_reset_order(replies: Seq<Option<u32>>)
    requires
        replies.len() == RESET_STEPS,
        forall|k: int|
            0 <= k < RESET_STEPS && k != RESET_FLUSH_STEP ==> (#[trigger] replies[k]).is_some(),
    ensures
        ResetView::start().trace(replies) == reset_protocol(
            replies[RESET_READ_CTRL_STEP as int].unwrap(),
            replies[RESET_READ_MANC_STEP as int].unwrap(),
        ),
        ResetView::start().after_all(replies).status() == ResetStatus::Done,
{
    let ctrl = replies[5].unwrap();
    let manc = replies[9].unwrap();
    let s0 = ResetView::start();
    lemma_run_prefix(s0, replies, 13);
    assert(replies.take(13) =~= replies);
    assert(replies.skip(13).len() == 0);
    let got = s0.trace(replies);
    let want = reset_protocol(ctrl, manc);
    assert(got.len() == 13);
    assert forall|m: int| 0 <= m < 13 implies got[m] == want[m] by {
        lemma_run_prefix(s0, replies, m);
        assert(s0.after_all(replies.take(m)).step == m);
    }
    assert(got =~= want);
}

/// As long as no operation fails, the flush read aside, a reset from the
/// start has after `k` replies performed `k` operations and holds what the
/// two reads returned; the operations performed are the pending operations
/// of the states it went through.
pub proof fn lemma_run_prefix(s: ResetView, replies: Seq<Option<u32>>, k: int)
    requires
        s == ResetView::start(),
        0 <= k <= replies.len(),
        k <= RESET_STEPS,
        forall|m: int|
            0 <= m < k && m != RESET_FLUSH_STEP ==> (#[trigger] replies[m]).is_some(),
    ensures
        s.after_all(replies.take(k)).step == k,
        !s.after_all(replies.take(k)).failed,
        k > RESET_READ_CTRL_STEP ==> s.after_all(replies.take(k)).ctrl
            == replies[RESET_READ_CTRL_STEP as int].unwrap(),
        k > RESET_READ_MANC_STEP ==> s.after_all(replies.take(k)).manc
            == replies[RESET_READ_MANC_STEP as int].unwrap(),
        s.trace(replies).len() == k + s.after_all(replies.take(k)).trace(replies.skip(k)).len(),
        forall|m: int|
            0 <= m < k ==> #[trigger] s.trace(replies)[m] == s.after_all(
                replies.take(m),
            ).pending_op().unwrap(),
    decreases k,
{
    if k == 0 {
        assert(replies.take(0) =~= Seq::<Option<u32>>::empty());
        assert(replies.skip(0) =~= replies);
    } else {
        lemma_run_prefix(s, replies, k - 1);
        lemma_after_all_snoc(s, replies, k - 1);
        let before = s.after_all(replies.take(k - 1));
        assert(before.pending_op().is_some());
        lemma_trace_split(s, replies, k - 1);
        assert(replies.skip(k - 1)[0] == replies[k - 1]);
        assert(replies.skip(k - 1).skip(1) =~= replies.skip(k));
        assert forall|m: int| 0 <= m < k implies #[trigger] s.trace(replies)[m] == s.after_all(
            replies.take(m),
        ).pending_op().unwrap() by {
            if m == k - 1 {
                assert(before.trace(replies.skip(k - 1))[0] == before.pending_op().unwrap());
            }
        }
    }
}

/// A trace is the trace of the first `k` replies followed by the trace of
/// the rest from the state those lead to.
pub proof fn lemma_trace_split(s: ResetView, replies: Seq<Option<u32>>, k: int)
    requires
        0 <= k <= replies.len(),
    ensures
        s.trace(replies) == s.trace(replies.take(k)) + s.after_all(replies.take(k)).trace(
            replies.skip(k),
        ),
    decreases k,
{
    if k == 0 {
        assert(replies.take(0) =~= Seq::<Option<u32>>::empty());
        assert(replies.skip(0) =~= replies);
        assert(s.trace(replies) =~= s.trace(replies.take(0)) + s.trace(replies));
    } else {
        let head = replies.take(k);
        assert(head[0] == replies[0]);
        assert(head.skip(1) =~= replies.skip(1).take(k - 1));
        assert(replies.skip(1).skip(k - 1) =~= replies.skip(k));
        if s.pending_op().is_none() {
            lemma_idle_stays(s, head);
            assert(s.trace(replies) =~= s.trace(head) + s.trace(replies.skip(k)));
        } else {
            lemma_trace_split(s.after(replies[0]), replies.skip(1), k - 1);
            assert(s.trace(replies) =~= s.trace(head) + s.after_all(head).trace(
                replies.skip(k),
            ));
        }
    }
}

/// Performing `k + 1` operations is performing `k` and then one more.
pub proof fn lemma_after_all_snoc(s: ResetView, replies: Seq<Option<u32>>, k: int)
    requires
        0 <= k < replies.len(),
    ensures
        s.after_all(replies.take(k + 1)) == s.after_all(replies.take(k)).after(replies[k]),
    decreases k,
{
    let head = replies.take(k + 1);
    if k == 0 {
        assert(replies.take(0) =~= Seq::<Option<u32>>::empty());
        assert(head.skip(1) =~= Seq::<Option<u32>>::empty());
        assert(s.after(replies[0]).after_all(head.skip(1)) == s.after(replies[0]));
    } else {
        let rest = replies.skip(1);
        lemma_after_all_snoc(s.after(replies[0]), rest, k - 1);
        assert(head.skip(1) =~= rest.take(k));
        assert(replies.take(k).skip(1) =~= rest.take(k - 1));
        assert(rest[k - 1] == replies[k]);
    }
}

/// A reset with nothing pending, because it is done or was abandoned, stays
/// as it is whatever is reported to it.
pub proof fn lemma_idle_stays(s: ResetView, replies: Seq<Option<u32>>)
    requires
        s.pending_op().is_none(),
    ensures
        s.after_all(replies) == s,
        s.trace(replies).len() == 0,
    decreases replies.len(),
{
    if replies.len() > 0 {
        lemma_idle_stays(s, replies.skip(1));
    }
}

/// A failed operation, the flush read aside, abandons the reset there: no
/// operation follows it, whatever is reported afterwards.
pub proof fn lemma_reset_failure_is_final(s: ResetView, later: Seq<Option<u32>>)
    requires
        s.pending_op().is_some(),
        s.step != RESET_FLUSH_STEP,
    ensures
        s.after(None).status() == ResetStatus::Failed,
        s.after(None).pending_op().is_none(),
        s.after(None).after_all(later) == s.after(None),
        s.trace(seq![None::<u32>] + later) == seq![s.pending_op().unwrap()],
{
    let failed = s.after(None);
    lemma_idle_stays(failed, later);
    let replies = seq![None::<u32>] + later;
    assert(replies[0] == None::<u32>);
    assert(replies.skip(1) =~= later);
    assert(s.trace(replies) =~= seq![s.pending_op().unwrap()]);
}

} // verus!
