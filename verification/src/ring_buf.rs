//! What the transmit and the receive ring share: index arithmetic on a
//! circle, the slot entry and the construction error.
//!
//! A ring owns the software copy of N descriptors and, index for index, a
//! slot table with the buffer that stands behind each descriptor. The device
//! speaks through head and tail registers, whose values the caller reads and
//! passes in, and through descriptor write-backs, which the caller reports.
//! Register values are always taken modulo N.
//!
//! The buffer type `B` is opaque to the ring: it is whatever the caller needs
//! to find, unmap and free a packet buffer again.

use vstd::prelude::*;

verus! {

/// The index after `i` in a ring of `n` entries.
pub open spec fn ring_next(i: int, n: int) -> int {
    if i + 1 >= n {
        0
    } else {
        i + 1
    }
}

/// The index `k` steps after `i` in a ring of `n` entries, for `k <= n`.
pub open spec fn ring_add(i: int, k: int, n: int) -> int {
    if i + k >= n {
        i + k - n
    } else {
        i + k
    }
}

/// The number of steps from `from` forward to `to` in a ring of `n` entries.
pub open spec fn ring_dist(from: int, to: int, n: int) -> int {
    if to >= from {
        to - from
    } else {
        to + n - from
    }
}

/// A packet buffer together with the device address it is mapped at.
#[derive(Debug, PartialEq, Eq)]
pub struct SkbDma<B> {
    /// Device address of the mapping.
    pub dma_handle: u64,
    /// The buffer and whatever keeps its mapping alive.
    pub skb: B,
}

/// Why a ring could not be built.
#[derive(Clone, Copy, Debug, PartialEq, Eq, Structural)]
pub enum RingError {
    /// The descriptor count is zero or above `MAX_RING_SIZE`.
    BadLength,
}

/// A copy of `v` with its elements in the opposite order.
pub fn reversed<T>(v: Vec<T>) -> (r: Vec<T>)
    ensures
        r@ == v@.reverse(),
{
    let mut src: Vec<T> = v;
    let mut out: Vec<T> = Vec::new();
    let ghost all = src@;
    while src.len() > 0
        invariant
            src@.len() + out@.len() == all.len(),
            src@ == all.take(src@.len() as int),
            forall|k: int| 0 <= k < out@.len() ==> #[trigger] out@[k] == all[all.len() - 1 - k],
        decreases src@.len(),
    {
        let last: Option<T> = src.pop();
        out.push(last.unwrap());
    }
    assert(out@ =~= all.reverse());
    out
}

} // verus!
