//! Hardware descriptor records and their byte-exact layout.
//!
//! A descriptor is sixteen bytes in the coherent region, every field little
//! endian. The done bit of its status byte says who owns the descriptor and
//! the buffer behind it: the device sets it when it hands them back.

use vstd::prelude::*;
use crate::consts::DESC_SIZE;
use crate::consts::E1000_RXD_STAT_DD;
use crate::consts::E1000_TXD_CMD_EOP;
use crate::consts::E1000_TXD_CMD_RS;
use crate::consts::E1000_TXD_STAT_DD;

verus! {

/// The party that may touch a descriptor and its buffer.
#[derive(Clone, Copy, Debug, PartialEq, Eq, Structural)]
pub enum Owner {
    /// The driver: the done bit is set.
    Software,
    /// The device: the done bit is clear.
    Hardware,
}

/// The two bytes of `v`, least significant first.
pub open spec fn le_bytes_u16(v: u16) -> Seq<u8> {
    seq![(v & 0xff) as u8, ((v >> 8) & 0xff) as u8]
}

/// The eight bytes of `v`, least significant first.
pub open spec fn le_bytes_u64(v: u64) -> Seq<u8> {
    seq![
        (v & 0xff) as u8,
        ((v >> 8) & 0xff) as u8,
        ((v >> 16) & 0xff) as u8,
        ((v >> 24) & 0xff) as u8,
        ((v >> 32) & 0xff) as u8,
        ((v >> 40) & 0xff) as u8,
        ((v >> 48) & 0xff) as u8,
        ((v >> 56) & 0xff) as u8,
    ]
}

/// The number whose little-endian bytes are `b0`, `b1`.
pub open spec fn le_value_u16(b0: u8, b1: u8) -> u16 {
    (b0 as u16) | ((b1 as u16) << 8)
}

/// The number whose little-endian bytes are `b0` to `b7`.
pub open spec fn le_value_u64(
    b0: u8,
    b1: u8,
    b2: u8,
    b3: u8,
    b4: u8,
    b5: u8,
    b6: u8,
    b7: u8,
) -> u64 {
    (b0 as u64) | ((b1 as u64) << 8) | ((b2 as u64) << 16) | ((b3 as u64) << 24) | ((b4 as u64)
        << 32) | ((b5 as u64) << 40) | ((b6 as u64) << 48) | ((b7 as u64) << 56)
}

/// Reading back the bytes of a 16-bit field gives the field.
pub proof fn lemma_le_u16_round_trip(v: u16)
    ensures
        le_value_u16(le_bytes_u16(v)[0], le_bytes_u16(v)[1]) == v,
{
    assert(((v & 0xff) as u8 as u16) | ((((v >> 8) & 0xff) as u8 as u16) << 8) == v)
        by (bit_vector);
}

/// Writing out the number read from two bytes gives the two bytes.
pub proof fn lemma_le_u16_bytes_of_value(b0: u8, b1: u8)
    ensures
        le_bytes_u16(le_value_u16(b0, b1)) == seq![b0, b1],
{
    let v = le_value_u16(b0, b1);
    assert((v & 0xff) as u8 == b0 && ((v >> 8) & 0xff) as u8 == b1) by (bit_vector)
        requires
            v == (b0 as u16) | ((b1 as u16) << 8),
    ;
}

/// Reading back the bytes of a 64-bit field gives the field.
pub proof fn lemma_le_u64_round_trip(v: u64)
    ensures
        ({
            let s = le_bytes_u64(v);
            le_value_u64(s[0], s[1], s[2], s[3], s[4], s[5], s[6], s[7]) == v
        }),
{
    assert(((v & 0xff) as u8 as u64) | ((((v >> 8) & 0xff) as u8 as u64) << 8) | ((((v >> 16)
        & 0xff) as u8 as u64) << 16) | ((((v >> 24) & 0xff) as u8 as u64) << 24) | ((((v >> 32)
        & 0xff) as u8 as u64) << 32) | ((((v >> 40) & 0xff) as u8 as u64) << 40) | ((((v >> 48)
        & 0xff) as u8 as u64) << 48) | ((((v >> 56) & 0xff) as u8 as u64) << 56) == v)
        by (bit_vector);
}

/// Writing out the number read from eight bytes gives the eight bytes.
pub proof fn lemma_le_u64_bytes_of_value(
    b0: u8,
    b1: u8,
    b2: u8,
    b3: u8,
    b4: u8,
    b5: u8,
    b6: u8,
    b7: u8,
)
    ensures
        le_bytes_u64(le_value_u64(b0, b1, b2, b3, b4, b5, b6, b7)) == seq![
            b0,
            b1,
            b2,
            b3,
            b4,
            b5,
            b6,
            b7,
        ],
{
    let v = le_value_u64(b0, b1, b2, b3, b4, b5, b6, b7);
    assert((v & 0xff) as u8 == b0 && ((v >> 8) & 0xff) as u8 == b1 && ((v >> 16) & 0xff) as u8
        == b2 && ((v >> 24) & 0xff) as u8 == b3 && ((v >> 32) & 0xff) as u8 == b4 && ((v >> 40)
        & 0xff) as u8 == b5 && ((v >> 48) & 0xff) as u8 == b6 && ((v >> 56) & 0xff) as u8 == b7)
        by (bit_vector)
        requires
            v == (b0 as u64) | ((b1 as u64) << 8) | ((b2 as u64) << 16) | ((b3 as u64) << 24) | ((
            b4 as u64) << 32) | ((b5 as u64) << 40) | ((b6 as u64) << 48) | ((b7 as u64) << 56),
    ;
}

fn low_byte(v: u64) -> (b: u8)
    ensures
        b == (v & 0xff) as u8,
{
    assert(v & 0xff < 256) by (bit_vector);
    (v & 0xff) as u8
}

fn push_le_u16(out: &mut Vec<u8>, v: u16)
    ensures
        final(out)@ == old(out)@ + le_bytes_u16(v),
{
    let b0: u8 = low_byte(v as u64);
    let b1: u8 = low_byte((v >> 8) as u64);
    assert((v as u64 & 0xff) as u8 == (v & 0xff) as u8) by (bit_vector);
    assert((((v >> 8) as u64) & 0xff) as u8 == ((v >> 8) & 0xff) as u8) by (bit_vector);
    out.push(b0);
    out.push(b1);
    assert(out@ =~= old(out)@ + le_bytes_u16(v));
}

fn push_le_u64(out: &mut Vec<u8>, v: u64)
    ensures
        final(out)@ == old(out)@ + le_bytes_u64(v),
{
    out.push(low_byte(v));
    out.push(low_byte(v >> 8));
    out.push(low_byte(v >> 16));
    out.push(low_byte(v >> 24));
    out.push(low_byte(v >> 32));
    out.push(low_byte(v >> 40));
    out.push(low_byte(v >> 48));
    out.push(low_byte(v >> 56));
    assert(out@ =~= old(out)@ + le_bytes_u64(v));
}

fn read_le_u16(bytes: &[u8], at: usize) -> (v: u16)
    requires
        at + 2 <= bytes@.len(),
    ensures
        v == le_value_u16(bytes@[at as int], bytes@[at + 1]),
{
    (bytes[at] as u16) | ((bytes[at + 1] as u16) << 8)
}

fn read_le_u64(bytes: &[u8], at: usize) -> (v: u64)
    requires
        at + 8 <= bytes@.len(),
    ensures
        v == le_value_u64(
            bytes@[at as int],
            bytes@[at + 1],
            bytes@[at + 2],
            bytes@[at + 3],
            bytes@[at + 4],
            bytes@[at + 5],
            bytes@[at + 6],
            bytes@[at + 7],
        ),
{
    (bytes[at] as u64) | ((bytes[at + 1] as u64) << 8) | ((bytes[at + 2] as u64) << 16) | ((
    bytes[at + 3] as u64) << 24) | ((bytes[at + 4] as u64) << 32) | ((bytes[at + 5] as u64) << 40)
        | ((bytes[at + 6] as u64) << 48) | ((bytes[at + 7] as u64) << 56)
}

/// A legacy transmit descriptor.
#[derive(Clone, Copy, Debug, PartialEq, Eq, Structural)]
pub struct TxDescEntry {
    /// Device address of the packet buffer.
    pub buf_addr: u64,
    /// Bytes to send from the buffer.
    pub length: u16,
    /// Checksum offset.
    pub cso: u8,
    /// Command bits.
    pub cmd: u8,
    /// Status bits; bit 0 is the done bit.
    pub sta: u8,
    /// Checksum start.
    pub css: u8,
    /// VLAN and priority.
    pub special: u16,
}

/// Command byte of a descriptor that carries a whole packet and asks the
/// device to report its completion.
pub open spec fn tx_cmd_spec() -> u8 {
    ((E1000_TXD_CMD_RS | E1000_TXD_CMD_EOP) >> 24) as u8
}

/// Command byte of a descriptor that carries a whole packet and asks the
/// device to report its completion.
pub fn tx_cmd() -> (c: u8)
    ensures
        c == tx_cmd_spec(),
        c == 0x09,
{
    assert(((0x08000000u32 | 0x01000000u32) >> 24) == 0x09u32) by (bit_vector);
    ((E1000_TXD_CMD_RS | E1000_TXD_CMD_EOP) >> 24) as u8
}

impl TxDescEntry {
    /// Whether the done bit is set.
    pub open spec fn done(self) -> bool {
        self.sta & (E1000_TXD_STAT_DD as u8) != 0
    }

    /// Who owns the descriptor, by its done bit alone.
    pub open spec fn owner(self) -> Owner {
        if self.done() {
            Owner::Software
        } else {
            Owner::Hardware
        }
    }

    /// The sixteen bytes of the descriptor as the device reads them.
    pub open spec fn layout(self) -> Seq<u8> {
        le_bytes_u64(self.buf_addr) + le_bytes_u16(self.length) + seq![
            self.cso,
            self.cmd,
            self.sta,
            self.css,
        ] + le_bytes_u16(self.special)
    }

    /// The descriptor that the sixteen bytes `s` hold.
    pub open spec fn parse(s: Seq<u8>) -> TxDescEntry {
        TxDescEntry {
            buf_addr: le_value_u64(s[0], s[1], s[2], s[3], s[4], s[5], s[6], s[7]),
            length: le_value_u16(s[8], s[9]),
            cso: s[10],
            cmd: s[11],
            sta: s[12],
            css: s[13],
            special: le_value_u16(s[14], s[15]),
        }
    }

    /// A descriptor that holds no buffer and is owned by software, so that
    /// the first packet can be queued on it.
    pub fn idle() -> (d: TxDescEntry)
        ensures
            d == (TxDescEntry {
                buf_addr: 0,
                length: 0,
                cso: 0,
                cmd: 0,
                sta: E1000_TXD_STAT_DD as u8,
                css: 0,
                special: 0,
            }),
            d.done(),
    {
        assert(1u8 & 1u8 != 0) by (bit_vector);
        TxDescEntry {
            buf_addr: 0,
            length: 0,
            cso: 0,
            cmd: 0,
            sta: E1000_TXD_STAT_DD as u8,
            css: 0,
            special: 0,
        }
    }

    /// Whether the done bit is set.
    pub fn is_done(&self) -> (r: bool)
        ensures
            r == self.done(),
    {
        self.sta & (E1000_TXD_STAT_DD as u8) != 0
    }

    /// Who owns the descriptor.
    pub fn ownership(&self) -> (o: Owner)
        ensures
            o == self.owner(),
    {
        if self.is_done() {
            Owner::Software
        } else {
            Owner::Hardware
        }
    }

    /// The descriptor as sixteen bytes, ready to be copied into the ring.
    pub fn to_bytes(&self) -> (out: Vec<u8>)
        ensures
            out@ == self.layout(),
            out@.len() == DESC_SIZE,
    {
        let mut out: Vec<u8> = Vec::new();
        push_le_u64(&mut out, self.buf_addr);
        push_le_u16(&mut out, self.length);
        out.push(self.cso);
        out.push(self.cmd);
        out.push(self.sta);
        out.push(self.css);
        push_le_u16(&mut out, self.special);
        assert(out@ =~= self.layout());
        out
    }

    /// The descriptor held in `bytes`, or `None` unless there are exactly
    /// sixteen of them.
    pub fn from_bytes(bytes: &[u8]) -> (r: Option<TxDescEntry>)
        ensures
            bytes@.len() == DESC_SIZE ==> r == Some(TxDescEntry::parse(bytes@)),
            bytes@.len() != DESC_SIZE ==> r.is_none(),
    {
        if bytes.len() != DESC_SIZE {
            return None;
        }
        Some(
            TxDescEntry {
                buf_addr: read_le_u64(bytes, 0),
                length: read_le_u16(bytes, 8),
                cso: bytes[10],
                cmd: bytes[11],
                sta: bytes[12],
                css: bytes[13],
                special: read_le_u16(bytes, 14),
            },
        )
    }
}

/// A legacy receive descriptor.
#[derive(Clone, Copy, Debug, PartialEq, Eq, Structural)]
pub struct RxDescEntry {
    /// Device address of the packet buffer.
    pub buf_addr: u64,
    /// Bytes the device wrote into the buffer.
    pub length: u16,
    /// Packet checksum.
    pub checksum: u16,
    /// Status bits; bit 0 is the done bit.
    pub status: u8,
    /// Error bits.
    pub errors: u8,
    /// VLAN and priority.
    pub special: u16,
}

impl RxDescEntry {
    /// Whether the done bit is set.
    pub open spec fn done(self) -> bool {
        self.status & (E1000_RXD_STAT_DD as u8) != 0
    }

    /// Who owns the descriptor, by its done bit alone.
    pub open spec fn owner(self) -> Owner {
        if self.done() {
            Owner::Software
        } else {
            Owner::Hardware
        }
    }

    /// The sixteen bytes of the descriptor as the device reads them.
    pub open spec fn layout(self) -> Seq<u8> {
        le_bytes_u64(self.buf_addr) + le_bytes_u16(self.length) + le_bytes_u16(self.checksum)
            + seq![self.status, self.errors] + le_bytes_u16(self.special)
    }

    /// The descriptor that the sixteen bytes `s` hold.
    pub open spec fn parse(s: Seq<u8>) -> RxDescEntry {
        RxDescEntry {
            buf_addr: le_value_u64(s[0], s[1], s[2], s[3], s[4], s[5], s[6], s[7]),
            length: le_value_u16(s[8], s[9]),
            checksum: le_value_u16(s[10], s[11]),
            status: s[12],
            errors: s[13],
            special: le_value_u16(s[14], s[15]),
        }
    }

    /// A descriptor that posts the buffer at `buf_addr` to the device, every
    /// other field cleared.
    pub fn armed(buf_addr: u64) -> (d: RxDescEntry)
        ensures
            d == (RxDescEntry {
                buf_addr,
                length: 0,
                checksum: 0,
                status: 0,
                errors: 0,
                special: 0,
            }),
            !d.done(),
    {
        assert(0u8 & 1u8 == 0) by (bit_vector);
        RxDescEntry { buf_addr, length: 0, checksum: 0, status: 0, errors: 0, special: 0 }
    }

    /// Whether the done bit is set.
    pub fn is_done(&self) -> (r: bool)
        ensures
            r == self.done(),
    {
        self.status & (E1000_RXD_STAT_DD as u8) != 0
    }

    /// Who owns the descriptor.
    pub fn ownership(&self) -> (o: Owner)
        ensures
            o == self.owner(),
    {
        if self.is_done() {
            Owner::Software
        } else {
            Owner::Hardware
        }
    }

    /// The descriptor as sixteen bytes, ready to be copied into the ring.
    pub fn to_bytes(&self) -> (out: Vec<u8>)
        ensures
            out@ == self.layout(),
            out@.len() == DESC_SIZE,
    {
        let mut out: Vec<u8> = Vec::new();
        push_le_u64(&mut out, self.buf_addr);
        push_le_u16(&mut out, self.length);
        push_le_u16(&mut out, self.checksum);
        out.push(self.status);
        out.push(self.errors);
        push_le_u16(&mut out, self.special);
        assert(out@ =~= self.layout());
        out
    }

    /// The descriptor held in `bytes`, or `None` unless there are exactly
    /// sixteen of them.
    pub fn from_bytes(bytes: &[u8]) -> (r: Option<RxDescEntry>)
        ensures
            bytes@.len() == DESC_SIZE ==> r == Some(RxDescEntry::parse(bytes@)),
            bytes@.len() != DESC_SIZE ==> r.is_none(),
    {
        if bytes.len() != DESC_SIZE {
            return None;
        }
        Some(
            RxDescEntry {
                buf_addr: read_le_u64(bytes, 0),
                length: read_le_u16(bytes, 8),
                checksum: read_le_u16(bytes, 10),
                status: bytes[12],
                errors: bytes[13],
                special: read_le_u16(bytes, 14),
            },
        )
    }
}

/// A transmit descriptor survives the trip through its sixteen bytes.
pub proof fn lemma_tx_layout_round_trip(d: TxDescEntry)
    ensures
        d.layout().len() == DESC_SIZE,
        TxDescEntry::parse(d.layout()) == d,
{
    lemma_le_u64_round_trip(d.buf_addr);
    lemma_le_u16_round_trip(d.length);
    lemma_le_u16_round_trip(d.special);
}

/// Sixteen bytes read as a transmit descriptor are written out unchanged.
pub proof fn lemma_tx_parse_round_trip(s: Seq<u8>)
    requires
        s.len() == DESC_SIZE,
    ensures
        TxDescEntry::parse(s).layout() == s,
{
    lemma_le_u64_bytes_of_value(s[0], s[1], s[2], s[3], s[4], s[5], s[6], s[7]);
    lemma_le_u16_bytes_of_value(s[8], s[9]);
    lemma_le_u16_bytes_of_value(s[14], s[15]);
    assert(TxDescEntry::parse(s).layout() =~= s);
}

/// A receive descriptor survives the trip through its sixteen bytes.
pub proof fn lemma_rx_layout_round_trip(d: RxDescEntry)
    ensures
        d.layout().len() == DESC_SIZE,
        RxDescEntry::parse(d.layout()) == d,
{
    lemma_le_u64_round_trip(d.buf_addr);
    lemma_le_u16_round_trip(d.length);
    lemma_le_u16_round_trip(d.checksum);
    lemma_le_u16_round_trip(d.special);
}

/// Sixteen bytes read as a receive descriptor are written out unchanged.
pub proof fn lemma_rx_parse_round_trip(s: Seq<u8>)
    requires
        s.len() == DESC_SIZE,
    ensures
        RxDescEntry::parse(s).layout() == s,
{
    lemma_le_u64_bytes_of_value(s[0], s[1], s[2], s[3], s[4], s[5], s[6], s[7]);
    lemma_le_u16_bytes_of_value(s[8], s[9]);
    lemma_le_u16_bytes_of_value(s[10], s[11]);
    lemma_le_u16_bytes_of_value(s[14], s[15]);
    assert(RxDescEntry::parse(s).layout() =~= s);
}

/// A descriptor has exactly one owner.
pub proof fn lemma_one_owner(tx: TxDescEntry, rx: RxDescEntry)
    ensures
        (tx.owner() == Owner::Software) != (tx.owner() == Owner::Hardware),
        (rx.owner() == Owner::Software) != (rx.owner() == Owner::Hardware),
        tx.owner() == Owner::Software <==> tx.done(),
        rx.owner() == Owner::Software <==> rx.done(),
{
}

} // verus!
