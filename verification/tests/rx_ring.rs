use e1000_core::hw_defs::Owner;
use e1000_core::hw_defs::RxDescEntry;
use e1000_core::ring_buf::reversed;
use e1000_core::ring_buf::RingError;
use e1000_core::ring_buf::SkbDma;
use e1000_core::rx_ring::RxPacket;
use e1000_core::rx_ring::RxRingBuf;

fn buffer(id: u32) -> SkbDma<u32> {
    SkbDma { dma_handle: 0x4_0000 + (id as u64) * 0x2000, skb: id }
}

fn ring_of(n: u32) -> RxRingBuf<u32> {
    RxRingBuf::new(0x20_0000, (0..n).map(buffer).collect()).unwrap()
}

fn fill(ring: &mut RxRingBuf<u32>, idx: usize, len: u16) -> bool {
    let mut d = ring.descriptor(idx).unwrap();
    d.length = len;
    d.status |= 1;
    ring.device_write_back(idx, d)
}

fn snapshot(ring: &RxRingBuf<u32>) -> (Vec<RxDescEntry>, Vec<Option<u64>>, usize) {
    let descs = (0..ring.len()).map(|i| ring.descriptor(i).unwrap()).collect();
    let slots = (0..ring.len()).map(|i| ring.buffer_addr(i)).collect();
    (descs, slots, ring.next_to_clean())
}

#[test]
fn reversed_turns_a_vector_round() {
    assert_eq!(reversed(vec![1, 2, 3]), vec![3, 2, 1]);
    assert_eq!(reversed(Vec::<u8>::new()), Vec::<u8>::new());
    assert_eq!(reversed(vec![7]), vec![7]);
}

#[test]
fn new_rx_ring_posts_every_buffer() {
    let ring = ring_of(4);
    assert_eq!(ring.len(), 4);
    assert_eq!(ring.dma_addr(), 0x20_0000);
    assert_eq!(ring.next_to_clean(), 0);
    for i in 0..4u32 {
        let d = ring.descriptor(i as usize).unwrap();
        assert_eq!(
            d,
            RxDescEntry {
                buf_addr: 0x4_0000 + (i as u64) * 0x2000,
                length: 0,
                checksum: 0,
                status: 0,
                errors: 0,
                special: 0,
            }
        );
        assert_eq!(d.ownership(), Owner::Hardware);
        assert_eq!(ring.buffer_addr(i as usize), Some(buffer(i).dma_handle));
    }
    assert_eq!(ring.descriptor(4), None);
    assert_eq!(ring.buffer_addr(4), None);
}

#[test]
fn rx_ring_length_is_checked() {
    assert_eq!(RxRingBuf::<u32>::new(0, Vec::new()).err(), Some(RingError::BadLength));
    assert!(RxRingBuf::new(0, vec![buffer(0)]).is_ok());
    let many: Vec<SkbDma<u32>> = (0..5000).map(buffer).collect();
    let ring = RxRingBuf::new(0, many).unwrap();
    assert_eq!(ring.len(), 5000);
    assert_eq!(ring.buffer_addr(4999), Some(buffer(4999).dma_handle));
}

#[test]
fn drain_of_a_quiet_ring_does_nothing() {
    let mut ring = ring_of(4);
    let before = snapshot(&ring);
    assert_eq!(ring.pending(3), 0);
    let out = ring.drain(3, vec![buffer(10), buffer(11)]);
    assert!(out.packets.is_empty());
    assert_eq!(out.dropped, 0);
    assert!(out.rearmed.is_empty());
    assert_eq!(out.spare, vec![buffer(10), buffer(11)]);
    assert_eq!(out.tail, None);
    assert_eq!(snapshot(&ring), before);
}

/// Eight descriptors, three of them filled from the descriptor after the
/// tail on: one drain delivers the three packets in ring order and puts
/// three fresh buffers in their places.
#[test]
fn drain_delivers_and_refills_in_ring_order() {
    let mut ring = ring_of(8);
    assert!(fill(&mut ring, 0, 64));
    assert!(fill(&mut ring, 1, 1500));
    assert!(fill(&mut ring, 2, 128));
    assert_eq!(ring.pending(7), 3);
    let out = ring.drain(7, vec![buffer(100), buffer(101), buffer(102)]);
    assert_eq!(
        out.packets,
        vec![
            RxPacket { index: 0, len: 64, buf: buffer(0) },
            RxPacket { index: 1, len: 1500, buf: buffer(1) },
            RxPacket { index: 2, len: 128, buf: buffer(2) },
        ]
    );
    assert_eq!(out.dropped, 0);
    assert_eq!(out.rearmed, vec![0, 1, 2]);
    assert!(out.spare.is_empty());
    assert_eq!(out.tail, Some(2));
    assert_eq!(ring.next_to_clean(), 3);
    for i in 0..3u32 {
        let d = ring.descriptor(i as usize).unwrap();
        assert_eq!(d.buf_addr, buffer(100 + i).dma_handle);
        assert_eq!(d.status, 0);
        assert_eq!(d.ownership(), Owner::Hardware);
        assert_eq!(ring.buffer_addr(i as usize), Some(buffer(100 + i).dma_handle));
    }
    for i in 3..8u32 {
        assert_eq!(ring.buffer_addr(i as usize), Some(buffer(i).dma_handle));
        assert_eq!(ring.descriptor(i as usize).unwrap().status, 0);
    }
    assert_eq!(ring.pending(7), 0);
    assert_eq!(ring.pending(2), 0);
}

#[test]
fn drain_starts_after_the_tail_and_wraps() {
    let mut ring = ring_of(4);
    assert!(fill(&mut ring, 3, 70));
    assert!(fill(&mut ring, 0, 80));
    assert!(fill(&mut ring, 2, 90));
    assert_eq!(ring.pending(1), 3);
    assert_eq!(ring.pending(2), 2);
    assert_eq!(ring.pending(0), 0);
    let out = ring.drain(2, vec![buffer(20), buffer(21), buffer(22)]);
    assert_eq!(
        out.packets,
        vec![
            RxPacket { index: 3, len: 70, buf: buffer(3) },
            RxPacket { index: 0, len: 80, buf: buffer(0) },
        ]
    );
    assert_eq!(out.rearmed, vec![3, 0]);
    assert_eq!(out.spare, vec![buffer(22)]);
    assert_eq!(out.tail, Some(0));
    assert_eq!(ring.next_to_clean(), 1);
    assert_eq!(ring.buffer_addr(3), Some(buffer(20).dma_handle));
    assert_eq!(ring.buffer_addr(0), Some(buffer(21).dma_handle));
    assert_eq!(ring.descriptor(2).unwrap().status, 1);
    assert_eq!(ring.buffer_addr(2), Some(buffer(2).dma_handle));
}

#[test]
fn drain_goes_once_round_a_ring_that_is_all_filled() {
    let mut ring = ring_of(3);
    for i in 0..3 {
        assert!(fill(&mut ring, i, 100 + i as u16));
    }
    assert_eq!(ring.pending(0), 3);
    let out = ring.drain(0, vec![buffer(30), buffer(31), buffer(32), buffer(33)]);
    assert_eq!(
        out.packets,
        vec![
            RxPacket { index: 1, len: 101, buf: buffer(1) },
            RxPacket { index: 2, len: 102, buf: buffer(2) },
            RxPacket { index: 0, len: 100, buf: buffer(0) },
        ]
    );
    assert_eq!(out.rearmed, vec![1, 2, 0]);
    assert_eq!(out.spare, vec![buffer(33)]);
    assert_eq!(out.tail, Some(0));
    assert_eq!(ring.next_to_clean(), 1);
    for i in 0..3 {
        assert_eq!(ring.descriptor(i).unwrap().ownership(), Owner::Hardware);
    }
}

#[test]
fn drain_without_replacement_drops_and_keeps_the_buffer() {
    let mut ring = ring_of(4);
    assert!(fill(&mut ring, 0, 64));
    assert!(fill(&mut ring, 1, 65));
    assert!(fill(&mut ring, 2, 66));
    let out = ring.drain(3, vec![buffer(50)]);
    assert_eq!(out.packets, vec![RxPacket { index: 0, len: 64, buf: buffer(0) }]);
    assert_eq!(out.dropped, 2);
    assert_eq!(out.rearmed, vec![0, 1, 2]);
    assert!(out.spare.is_empty());
    assert_eq!(out.tail, Some(2));
    assert_eq!(ring.next_to_clean(), 3);
    assert_eq!(ring.buffer_addr(0), Some(buffer(50).dma_handle));
    assert_eq!(ring.buffer_addr(1), Some(buffer(1).dma_handle));
    assert_eq!(ring.buffer_addr(2), Some(buffer(2).dma_handle));
    for i in 0..3 {
        let d = ring.descriptor(i).unwrap();
        assert_eq!(d.status, 0);
        assert_eq!(Some(d.buf_addr), ring.buffer_addr(i));
    }
    let out = ring.drain(3, Vec::new());
    assert!(out.packets.is_empty());
    assert_eq!(out.dropped, 0);
}

#[test]
fn drain_with_no_replacement_at_all_drops_everything() {
    let mut ring = ring_of(2);
    assert!(fill(&mut ring, 0, 64));
    let out = ring.drain(1, Vec::new());
    assert!(out.packets.is_empty());
    assert_eq!(out.dropped, 1);
    assert_eq!(out.tail, Some(0));
    assert_eq!(ring.buffer_addr(0), Some(buffer(0).dma_handle));
    assert_eq!(ring.descriptor(0).unwrap().ownership(), Owner::Hardware);
}

#[test]
fn rx_register_values_are_taken_modulo_ring_size() {
    let mut ring = ring_of(4);
    assert!(fill(&mut ring, 0, 64));
    assert_eq!(ring.pending(7), 1);
    let out = ring.drain(7, vec![buffer(9)]);
    assert_eq!(out.packets, vec![RxPacket { index: 0, len: 64, buf: buffer(0) }]);
}

#[test]
fn rx_device_writes_only_to_what_it_owns() {
    let mut ring = ring_of(2);
    assert!(fill(&mut ring, 0, 64));
    let before = snapshot(&ring);
    assert!(!fill(&mut ring, 0, 99));
    assert_eq!(snapshot(&ring), before);
    let mut moved = ring.descriptor(1).unwrap();
    moved.buf_addr += 4;
    moved.status = 1;
    assert!(!ring.device_write_back(1, moved));
    assert!(!ring.device_write_back(2, RxDescEntry::armed(0)));
    assert_eq!(snapshot(&ring), before);
}

#[test]
fn drain_leaves_hardware_owned_descriptors_alone() {
    let mut ring = ring_of(6);
    assert!(fill(&mut ring, 1, 64));
    assert!(fill(&mut ring, 2, 64));
    assert!(fill(&mut ring, 4, 64));
    let before = snapshot(&ring);
    let out = ring.drain(0, vec![buffer(60), buffer(61), buffer(62)]);
    assert_eq!(out.packets.len(), 2);
    let after = snapshot(&ring);
    for i in [0usize, 3, 5] {
        assert_eq!(after.0[i], before.0[i]);
        assert_eq!(after.1[i], before.1[i]);
    }
    assert_eq!(after.0[4], before.0[4]);
    assert_eq!(after.1[4], before.1[4]);
}
