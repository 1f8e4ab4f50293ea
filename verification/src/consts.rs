//! Register offsets, register bits and sizing constants of the 82540EM.

use vstd::prelude::*;

verus! {

/// PCI vendor id of the supported controller.
pub const E1000_VENDER_ID: u32 = 0x8086;

/// PCI device id of the supported controller (82540EM, as emulated by QEMU).
pub const E1000_DEVICE_ID: u32 = 0x100E;

/// Station address programmed into the first receive-address slot.
pub const MAC_HWADDR: [u8; 6] = [0x52, 0x54, 0x00, 0x12, 0x34, 0x56];

/// Number of descriptors in the transmit ring of a default configuration.
pub const TX_RING_SIZE: usize = 16;

/// Number of descriptors in the receive ring of a default configuration.
pub const RX_RING_SIZE: usize = 16;

/// Largest number of descriptors a ring may hold: the most whose length in
/// bytes, sixteen each, still fits the 32-bit ring length register.
pub const MAX_RING_SIZE: usize = 0x0FFF_FFFF;

/// Bytes that one hardware descriptor occupies in the coherent region.
pub const DESC_SIZE: usize = 16;

/// Capacity in bytes of the packet buffer behind one descriptor.
pub const RXTX_SINGLE_RING_BLOCK_SIZE: usize = 8192;

/// Shortest Ethernet frame, without the frame check sequence.
pub const ETH_ZLEN: usize = 60;

/// Device control.
pub const E1000_CTRL: usize = 0x00000;

/// Device status.
pub const E1000_STATUS: usize = 0x00008;

/// Interrupt cause read (reading clears it).
pub const E1000_ICR: usize = 0x000C0;

/// Interrupt mask set.
pub const E1000_IMS: usize = 0x000D0;

/// Interrupt mask clear.
pub const E1000_IMC: usize = 0x000D8;

/// Receive control.
pub const E1000_RCTL: usize = 0x00100;

/// Transmit control.
pub const E1000_TCTL: usize = 0x00400;

/// Transmit inter-packet gap.
pub const E1000_TIPG: usize = 0x00410;

/// Receive descriptor base address, low half.
pub const E1000_RDBAL: usize = 0x02800;

/// Receive descriptor base address, high half.
pub const E1000_RDBAH: usize = 0x02804;

/// Receive descriptor ring length in bytes.
pub const E1000_RDLEN: usize = 0x02808;

/// Receive descriptor head.
pub const E1000_RDH: usize = 0x02810;

/// Receive descriptor tail.
pub const E1000_RDT: usize = 0x02818;

/// Receive delay timer.
pub const E1000_RDTR: usize = 0x02820;

/// Receive interrupt absolute delay timer.
pub const E1000_RADV: usize = 0x0282C;

/// Transmit descriptor base address, low half.
pub const E1000_TDBAL: usize = 0x03800;

/// Transmit descriptor base address, high half.
pub const E1000_TDBAH: usize = 0x03804;

/// Transmit descriptor ring length in bytes.
pub const E1000_TDLEN: usize = 0x03808;

/// Transmit descriptor head.
pub const E1000_TDH: usize = 0x03810;

/// Transmit descriptor tail.
pub const E1000_TDT: usize = 0x03818;

/// Multicast table array, 128 registers of four bytes.
pub const E1000_MTA: usize = 0x05200;

/// Number of registers in the multicast table array.
pub const E1000_MTA_ENTRIES: usize = 128;

/// Receive address array; the first entry is two registers, low then high.
pub const E1000_RA: usize = 0x05400;

/// Management control.
pub const E1000_MANC: usize = 0x05820;

/// Offset of the address window within the I/O-port region.
pub const E1000_IOADDR: usize = 0;

/// Offset of the data window within the I/O-port region.
pub const E1000_IODATA: usize = 4;

/// Device control: global reset.
pub const E1000_CTRL_RST: u32 = 0x04000000;

/// Transmit control: enable the transmit unit.
pub const E1000_TCTL_EN: u32 = 0x00000002;

/// Transmit control: pad short packets.
pub const E1000_TCTL_PSP: u32 = 0x00000008;

/// Transmit control: position of the collision threshold.
pub const E1000_CT_SHIFT: u32 = 4;

/// Transmit control: position of the collision distance.
pub const E1000_COLD_SHIFT: u32 = 12;

/// Collision threshold programmed at configuration.
pub const E1000_COLLISION_THRESHOLD: u32 = 0x10;

/// Collision distance programmed at configuration.
pub const E1000_COLLISION_DISTANCE: u32 = 0x40;

/// Receive control: enable the receive unit.
pub const E1000_RCTL_EN: u32 = 0x00000002;

/// Receive control: accept broadcast frames.
pub const E1000_RCTL_BAM: u32 = 0x00008000;

/// Receive control: 2048-byte receive buffers.
pub const E1000_RCTL_SZ_2048: u32 = 0x00000000;

/// Receive control: strip the Ethernet CRC.
pub const E1000_RCTL_SECRC: u32 = 0x04000000;

/// Management control: hardware ARP handling.
pub const E1000_MANC_ARP_EN: u32 = 0x00002000;

/// Interrupt cause: transmit descriptor written back.
pub const E1000_ICR_TXDW: u32 = 0x00000001;

/// Interrupt cause: link status change.
pub const E1000_ICR_LSC: u32 = 0x00000004;

/// Interrupt cause: receive sequence error.
pub const E1000_ICR_RXSEQ: u32 = 0x00000008;

/// Interrupt cause: receive descriptor minimum threshold reached.
pub const E1000_ICR_RXDMT0: u32 = 0x00000010;

/// Interrupt cause: receiver timer interrupt.
pub const E1000_ICR_RXT0: u32 = 0x00000080;

/// Every bit of an interrupt mask register.
pub const E1000_IRQ_ALL: u32 = 0xffffffff;

/// Transmit descriptor status: descriptor done.
pub const E1000_TXD_STAT_DD: u32 = 0x00000001;

/// Transmit descriptor command: end of packet.
pub const E1000_TXD_CMD_EOP: u32 = 0x01000000;

/// Transmit descriptor command: report status.
pub const E1000_TXD_CMD_RS: u32 = 0x08000000;

/// Receive descriptor status: descriptor done.
pub const E1000_RXD_STAT_DD: u32 = 0x01;

/// Inter-packet gap: transmit time for copper links.
pub const DEFAULT_82543_TIPG_IPGT_COPPER: u32 = 8;

/// Inter-packet gap: receive time 1.
pub const DEFAULT_82543_TIPG_IPGR1: u32 = 8;

/// Inter-packet gap: receive time 2.
pub const DEFAULT_82543_TIPG_IPGR2: u32 = 6;

/// Inter-packet gap: position of receive time 1.
pub const E1000_TIPG_IPGR1_SHIFT: u32 = 10;

/// Inter-packet gap: position of receive time 2.
pub const E1000_TIPG_IPGR2_SHIFT: u32 = 20;

/// Low register of the receive address for `MAC_HWADDR`.
pub const E1000_RAL_VALUE: u32 = 0x12005452;

/// High register of the receive address for `MAC_HWADDR`, address-valid bit set.
pub const E1000_RAH_VALUE: u32 = 0x80005634;

/// Milliseconds to let pending bus transactions finish before a reset.
pub const RESET_DRAIN_MS: u64 = 10;

/// Milliseconds the controller needs to reload its EEPROM after a reset.
pub const RESET_RELOAD_MS: u64 = 5;

} // verus!
