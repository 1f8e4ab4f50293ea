//! What the driver asks of the bus at probe time.

use vstd::prelude::*;

verus! {

/// Resource flag: an I/O-port region.
pub const IORESOURCE_IO: u64 = 0x00000100;

/// Resource flag: a memory-mapped region.
pub const IORESOURCE_MEM: u64 = 0x00000200;

/// The regions the driver claims: memory-mapped and I/O-port regions.
pub const BAR_SELECTION: u64 = 0x00000300;

/// The addresses the device can reach by DMA: the low 32 bits.
pub const DMA_MASK: u64 = 0xFFFFFFFF;

/// Weight with which the poll pass is registered.
pub const NAPI_WEIGHT: i32 = 64;

/// Why a device could not be taken over.
#[derive(Clone, Copy, Debug, PartialEq, Eq, Structural)]
pub enum ProbeError {
    /// The device lacks a region that the driver needs.
    Io,
}

/// The regions the driver works through.
#[derive(Clone, Copy, Debug, PartialEq, Eq, Structural)]
pub struct Regions {
    /// Index of the resource with the memory-mapped registers.
    pub mem: usize,
    /// Index of the resource with the I/O ports.
    pub io: usize,
}

/// Whether a resource with `flags` is an I/O-port region.
pub open spec fn is_io(flags: u64) -> bool {
    flags & IORESOURCE_IO != 0
}

/// Picks the regions to work through from the flags of the device's
/// resources, in the order the bus lists them: the registers are behind the
/// first resource, the I/O ports behind the first I/O-port region after it.
/// A device without either cannot be driven.
pub fn select_regions(flags: &[u64]) -> (r: Result<Regions, ProbeError>)
    ensures
        r.is_ok() <==> exists|j: int| 1 <= j < flags@.len() && is_io(#[trigger] flags@[j]),
        r.is_err() ==> r == Err::<Regions, ProbeError>(ProbeError::Io),
        r.is_ok() ==> {
            let found = r.unwrap();
            &&& found.mem == 0
            &&& 1 <= found.io < flags@.len()
            &&& is_io(flags@[found.io as int])
            &&& forall|j: int| 1 <= j < found.io ==> !is_io(#[trigger] flags@[j])
        },
{
    let mut j: usize = 1;
    while j < flags.len()
        invariant
            1 <= j,
            forall|k: int| 1 <= k < j && k < flags@.len() ==> !is_io(#[trigger] flags@[k]),
        decreases flags@.len() - j,
    {
        if flags[j] & IORESOURCE_IO != 0 {
            return Ok(Regions { mem: 0, io: j });
        }
        j = j + 1;
    }
    Err(ProbeError::Io)
}

} // verus!
