//! The interrupt top half: one look at the interrupt cause, nothing else.

use vstd::prelude::*;

verus! {

/// What the top half tells the interrupt subsystem.
#[derive(Clone, Copy, Debug, PartialEq, Eq, Structural)]
pub enum IrqReturn {
    /// The interrupt was not raised by this device; on a shared line it is
    /// offered to the next handler.
    NotOurs,
    /// The interrupt was this device's; the poll pass is to be scheduled.
    Handled,
}

/// The verdict on an interrupt, given what the interrupt-cause register
/// read.
pub open spec fn irq_verdict(pending_irqs: u32) -> IrqReturn {
    if pending_irqs == 0 {
        IrqReturn::NotOurs
    } else {
        IrqReturn::Handled
    }
}

/// Decides on an interrupt from the single read of the interrupt-cause
/// register that the caller made: with no cause pending the interrupt is not
/// ours, with any cause pending the caller schedules the poll pass. The
/// rings are out of reach here by construction.
pub fn handle_irq(pending_irqs: u32) -> (r: IrqReturn)
    ensures
        r == irq_verdict(pending_irqs),
{
    if pending_irqs == 0 {
        return IrqReturn::NotOurs;
    }
    IrqReturn::Handled
}

} // verus!
