//! Core of a driver for the Intel 8254x ("e1000") family of network
//! controllers: register programming sequences, descriptor rings shared with
//! the device, the interrupt top half, the budgeted poll pass and the device
//! lifecycle.
//!
//! Everything here is plain data in, plain data out. The code that touches
//! the bus, maps buffers for DMA, sleeps, takes locks or talks to the
//! network stack lives with the caller: it performs what these functions
//! decide and reports back what the hardware said.
//!
//! - `consts`: register offsets, register bits and sizes.
//! - `hw_defs`: the two descriptor records and their sixteen bytes.
//! - `ring_buf`, `tx_ring`, `rx_ring`: the rings and their slot tables.
//! - `ring_laws`: what holds of the rings at all times.
//! - `e1000_ops`: the reset protocol and the configuration writes.
//! - `irq`, `napi`: the interrupt top half and the poll pass.
//! - `netdev`: bringing the interface up and down, the transmit request.
//! - `pci`: what is asked of the bus at probe time.
//! - `task`: the record kept of a scheduler task.
//! - `chrdev`: a memory block served as a byte-stream file.

pub mod consts;
pub mod hw_defs;
pub mod ring_buf;
pub mod tx_ring;
pub mod rx_ring;
pub mod ring_laws;
pub mod e1000_ops;
pub mod irq;
pub mod napi;
pub mod netdev;
pub mod pci;
pub mod task;
pub mod chrdev;
