use e1000_core::hw_defs::Owner;
use e1000_core::hw_defs::RxDescEntry;
use e1000_core::hw_defs::TxDescEntry;
use e1000_core::ring_buf::SkbDma;
use e1000_core::rx_ring::RxRingBuf;
use e1000_core::tx_ring::TxError;
use e1000_core::tx_ring::TxRingBuf;

/// A device that finishes a transmit descriptor a fixed number of ticks
/// after it was handed over, in ring order. It goes by the done bit: with
/// the whole ring handed over, head and tail are equal, as on an idle ring.
struct TxDevice {
    delay: u32,
    head: u32,
    tail: u32,
    waited: u32,
    sent: Vec<u64>,
}

impl TxDevice {
    fn tick(&mut self, ring: &mut TxRingBuf<u32>) {
        let idx = self.head as usize;
        let d = ring.descriptor(idx).unwrap();
        if d.ownership() == Owner::Software {
            assert_eq!(self.head, self.tail);
            self.waited = 0;
            return;
        }
        if self.waited < self.delay {
            self.waited += 1;
            return;
        }
        assert_eq!(ring.buffer_addr(idx), Some(d.buf_addr));
        self.sent.push(d.buf_addr);
        assert!(ring.device_write_back(idx, TxDescEntry { sta: d.sta | 1, ..d }));
        self.head = (self.head + 1) % ring.len() as u32;
        self.waited = 0;
    }
}

fn hardware_owned(ring: &TxRingBuf<u32>) -> Vec<(usize, TxDescEntry, Option<u64>)> {
    (0..ring.len())
        .map(|i| (i, ring.descriptor(i).unwrap(), ring.buffer_addr(i)))
        .filter(|e| e.1.ownership() == Owner::Hardware)
        .collect()
}

fn still_untouched(ring: &TxRingBuf<u32>, owned: &[(usize, TxDescEntry, Option<u64>)]) {
    for (i, d, slot) in owned {
        assert_eq!(ring.descriptor(*i), Some(*d));
        assert_eq!(ring.buffer_addr(*i), *slot);
    }
}

fn run_tx(n: usize, delay: u32, packets: u32) {
    let mut ring: TxRingBuf<u32> = TxRingBuf::new(0x10_0000, n).unwrap();
    let mut dev = TxDevice { delay, head: 0, tail: 0, waited: 0, sent: Vec::new() };
    let mut next: u32 = 0;
    let mut reaped: Vec<u32> = Vec::new();
    let mut busy: u32 = 0;
    let mut ticks: u32 = 0;
    while (reaped.len() as u32) < packets {
        ticks += 1;
        assert!(ticks < 100_000);
        if next < packets {
            let owned = hardware_owned(&ring);
            let pkt = SkbDma { dma_handle: 0x8000 + next as u64 * 0x100, skb: next };
            match ring.transmit(dev.tail, 64 + next as usize, pkt) {
                Ok(tail) => {
                    assert_eq!(owned.len() + 1, hardware_owned(&ring).len());
                    dev.tail = tail;
                    next += 1;
                }
                Err(rejected) => {
                    assert_eq!(rejected.reason, TxError::RingFull);
                    assert_eq!(rejected.pkt.skb, next);
                    assert_eq!(owned.len(), hardware_owned(&ring).len());
                    busy += 1;
                }
            }
            still_untouched(&ring, &owned);
        }
        dev.tick(&mut ring);
        if ticks % 3 == 0 {
            let owned = hardware_owned(&ring);
            let done: Vec<bool> =
                (0..n).map(|i| ring.descriptor(i).unwrap().is_done()).collect();
            let start = ring.next_to_clean();
            let released = ring.recycle(dev.head);
            for (k, p) in released.iter().enumerate() {
                assert!(done[(start + k) % n]);
                reaped.push(p.skb);
            }
            still_untouched(&ring, &owned);
        }
    }
    assert_eq!(reaped, (0..packets).collect::<Vec<u32>>());
    assert_eq!(dev.sent, (0..packets).map(|i| 0x8000 + i as u64 * 0x100).collect::<Vec<u64>>());
    if delay > 2 {
        assert!(busy > 0);
    }
}

#[test]
fn transmit_side_respects_ownership_at_every_delay() {
    for delay in 0..6 {
        run_tx(4, delay, 40);
    }
    run_tx(2, 2, 10);
    run_tx(16, 9, 100);
}

/// A device that fills the receive descriptor at its head a fixed number of
/// ticks after a packet arrived, as long as software has left it one.
struct RxDevice {
    delay: u32,
    head: u32,
    tail: u32,
    waited: u32,
    arrived: u32,
    filled: Vec<(u64, u16)>,
}

impl RxDevice {
    fn tick(&mut self, ring: &mut RxRingBuf<u32>) {
        if self.head == self.tail {
            return;
        }
        if self.waited < self.delay {
            self.waited += 1;
            return;
        }
        let idx = self.head as usize;
        let d = ring.descriptor(idx).unwrap();
        assert_eq!(d.ownership(), Owner::Hardware);
        assert_eq!(ring.buffer_addr(idx), Some(d.buf_addr));
        let len = 60 + (self.arrived % 1000) as u16;
        self.filled.push((d.buf_addr, len));
        assert!(ring.device_write_back(idx, RxDescEntry { length: len, status: 1, ..d }));
        self.head = (self.head + 1) % ring.len() as u32;
        self.arrived += 1;
        self.waited = 0;
    }
}

fn run_rx(n: u32, delay: u32, packets: u32, poll_every: u32) {
    let bufs = (0..n).map(|i| SkbDma { dma_handle: 0x10_0000 + i as u64 * 0x1000, skb: i });
    let mut ring: RxRingBuf<u32> = RxRingBuf::new(0x20_0000, bufs.collect()).unwrap();
    let mut dev =
        RxDevice { delay, head: 0, tail: n - 1, waited: 0, arrived: 0, filled: Vec::new() };
    let mut next_buf: u32 = n;
    let mut delivered: Vec<(u64, u16)> = Vec::new();
    let mut ticks: u32 = 0;
    while (delivered.len() as u32) < packets {
        ticks += 1;
        assert!(ticks < 100_000);
        dev.tick(&mut ring);
        if ticks % poll_every != 0 {
            continue;
        }
        let owned: Vec<(usize, RxDescEntry, Option<u64>)> = (0..n as usize)
            .map(|i| (i, ring.descriptor(i).unwrap(), ring.buffer_addr(i)))
            .filter(|e| e.1.ownership() == Owner::Hardware)
            .collect();
        let k = ring.pending(dev.tail);
        let fresh: Vec<SkbDma<u32>> = (0..k as u32)
            .map(|j| SkbDma { dma_handle: 0x10_0000 + (next_buf + j) as u64 * 0x1000, skb: next_buf + j })
            .collect();
        next_buf += k as u32;
        let out = ring.drain(dev.tail, fresh);
        assert_eq!(out.packets.len(), k);
        assert_eq!(out.dropped, 0);
        assert!(out.spare.is_empty());
        for p in &out.packets {
            delivered.push((p.buf.dma_handle, p.len));
        }
        if let Some(t) = out.tail {
            dev.tail = t;
        }
        for (i, d, slot) in &owned {
            assert_eq!(ring.descriptor(*i), Some(*d));
            assert_eq!(ring.buffer_addr(*i), *slot);
        }
        for i in 0..n as usize {
            assert_eq!(ring.descriptor(i).unwrap().ownership(), Owner::Hardware);
            assert_eq!(ring.buffer_addr(i), Some(ring.descriptor(i).unwrap().buf_addr));
        }
    }
    assert_eq!(delivered[..], dev.filled[..delivered.len()]);
    let addrs: Vec<u64> = delivered.iter().map(|p| p.0).collect();
    let want: Vec<u64> =
        (0..delivered.len() as u64).map(|i| 0x10_0000 + i * 0x1000).collect();
    assert_eq!(addrs, want);
}

#[test]
fn receive_side_respects_ownership_at_every_delay() {
    for delay in 0..6 {
        run_rx(4, delay, 40, 3);
        run_rx(8, delay, 60, 1);
    }
    run_rx(2, 0, 20, 7);
    run_rx(16, 0, 200, 40);
}
