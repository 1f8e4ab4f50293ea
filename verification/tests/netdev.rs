use e1000_core::consts::RXTX_SINGLE_RING_BLOCK_SIZE;
use e1000_core::hw_defs::RxDescEntry;
use e1000_core::hw_defs::TxDescEntry;
use e1000_core::irq::handle_irq;
use e1000_core::irq::IrqReturn;
use e1000_core::napi::poll;
use e1000_core::napi::work_done;
use e1000_core::netdev::e1000_recycle_tx_queue;
use e1000_core::netdev::e1000_setup_all_rx_resources;
use e1000_core::netdev::e1000_setup_all_tx_resources;
use e1000_core::netdev::open_plan;
use e1000_core::netdev::start_xmit;
use e1000_core::netdev::unwind_plan;
use e1000_core::netdev::DeviceState;
use e1000_core::netdev::LinkStats;
use e1000_core::netdev::NetDevice;
use e1000_core::netdev::NetdevTx;
use e1000_core::netdev::OpenOutcome;
use e1000_core::netdev::OpenStep;
use e1000_core::netdev::TeardownStep;
use e1000_core::netdev::Xmit;
use e1000_core::netdev::OPEN_STEPS;
use e1000_core::ring_buf::RingError;
use e1000_core::ring_buf::SkbDma;
use e1000_core::rx_ring::RxPacket;
use e1000_core::rx_ring::RxRingBuf;
use e1000_core::tx_ring::TxError;
use e1000_core::tx_ring::TxRingBuf;

fn packet(id: u32) -> SkbDma<u32> {
    SkbDma { dma_handle: 0x1000 + (id as u64) * 0x800, skb: id }
}

fn snapshot(ring: &TxRingBuf<u32>) -> (Vec<TxDescEntry>, Vec<Option<u64>>, usize) {
    let descs = (0..ring.len()).map(|i| ring.descriptor(i).unwrap()).collect();
    let slots = (0..ring.len()).map(|i| ring.buffer_addr(i)).collect();
    (descs, slots, ring.next_to_clean())
}

fn complete(ring: &mut TxRingBuf<u32>, idx: usize) -> bool {
    let mut d = ring.descriptor(idx).unwrap();
    d.sta |= 1;
    ring.device_write_back(idx, d)
}

#[test]
fn interrupt_with_no_cause_is_not_ours() {
    assert_eq!(handle_irq(0), IrqReturn::NotOurs);
}

#[test]
fn interrupt_with_a_cause_is_handled() {
    assert_eq!(handle_irq(1), IrqReturn::Handled);
    assert_eq!(handle_irq(0x80), IrqReturn::Handled);
    assert_eq!(handle_irq(0x8000_0000), IrqReturn::Handled);
    assert_eq!(handle_irq(u32::MAX), IrqReturn::Handled);
}

#[test]
fn setup_builds_both_rings() {
    let tx: TxRingBuf<u32> = e1000_setup_all_tx_resources(0x5000, 16).unwrap();
    assert_eq!(tx.len(), 16);
    assert_eq!(tx.dma_addr(), 0x5000);
    assert!((0..16).all(|i| !tx.is_occupied(i) && tx.descriptor(i).unwrap().is_done()));
    let rx: RxRingBuf<u32> =
        e1000_setup_all_rx_resources(0x6000, (0..16).map(packet).collect()).unwrap();
    assert_eq!(rx.len(), 16);
    assert!((0..16).all(|i| rx.buffer_addr(i) == Some(packet(i as u32).dma_handle)));
    assert!((0..16).all(|i| !rx.descriptor(i).unwrap().is_done()));
    for i in 0..16 {
        assert_eq!(
            tx.descriptor(i),
            Some(TxDescEntry { buf_addr: 0, length: 0, cso: 0, cmd: 0, sta: 1, css: 0, special: 0 })
        );
        assert_eq!(
            rx.descriptor(i),
            Some(RxDescEntry {
                buf_addr: packet(i as u32).dma_handle,
                length: 0,
                checksum: 0,
                status: 0,
                errors: 0,
                special: 0,
            })
        );
    }
    assert_eq!(tx.next_to_clean(), 0);
    assert_eq!(rx.next_to_clean(), 0);
    assert_eq!(e1000_setup_all_tx_resources::<u32>(0, 0).err(), Some(RingError::BadLength));
    assert_eq!(
        e1000_setup_all_rx_resources::<u32>(0, Vec::new()).err(),
        Some(RingError::BadLength)
    );
}

#[test]
fn transmit_request_is_accepted_on_a_free_descriptor() {
    let mut ring: TxRingBuf<u32> = TxRingBuf::new(0, 4).unwrap();
    let r = start_xmit(&mut ring, 0, 100, Some(packet(0)));
    assert_eq!(r, Xmit::Accepted { index: 0, tail: 1 });
    assert_eq!(r.status(), NetdevTx::Accepted);
    assert_eq!(ring.buffer_addr(0), Some(packet(0).dma_handle));
    assert_eq!(ring.descriptor(0).unwrap().length, 100);
    assert_eq!(ring.descriptor(0).unwrap().sta, 0);
}

#[test]
fn transmit_request_on_a_full_ring_is_busy_and_changes_nothing() {
    let mut ring: TxRingBuf<u32> = TxRingBuf::new(0, 4).unwrap();
    let mut tail = 0;
    for i in 0..4 {
        match start_xmit(&mut ring, tail, 64, Some(packet(i))) {
            Xmit::Accepted { index, tail: t } => {
                assert_eq!(index, i as usize);
                tail = t;
            }
            other => panic!("{:?}", other),
        }
    }
    for i in 0..4 {
        assert_eq!(ring.descriptor(i).unwrap().sta & 1, 0);
    }
    let before = snapshot(&ring);
    for _ in 0..3 {
        let r = start_xmit(&mut ring, tail, 64, Some(packet(7)));
        assert_eq!(r, Xmit::Busy { reason: TxError::RingFull, returned: Some(packet(7)) });
        assert_eq!(r.status(), NetdevTx::Busy);
        assert_eq!(snapshot(&ring), before);
    }
    assert!(complete(&mut ring, 0));
    assert_eq!(e1000_recycle_tx_queue(&mut ring, 1), vec![packet(0)]);
    assert_eq!(
        start_xmit(&mut ring, tail, 64, Some(packet(7))),
        Xmit::Accepted { index: 0, tail: 1 }
    );
}

#[test]
fn oversized_transmit_request_is_rejected_and_changes_nothing() {
    let mut ring: TxRingBuf<u32> = TxRingBuf::new(0, 4).unwrap();
    let before = snapshot(&ring);
    let r = start_xmit(&mut ring, 0, RXTX_SINGLE_RING_BLOCK_SIZE + 1, Some(packet(0)));
    assert_eq!(r, Xmit::Busy { reason: TxError::TooLong, returned: Some(packet(0)) });
    assert_eq!(snapshot(&ring), before);
    let r = start_xmit(&mut ring, 0, usize::MAX, None);
    assert_eq!(r, Xmit::Busy { reason: TxError::TooLong, returned: None });
    assert_eq!(snapshot(&ring), before);
    let r = start_xmit(&mut ring, 0, RXTX_SINGLE_RING_BLOCK_SIZE, Some(packet(0)));
    assert_eq!(r, Xmit::Accepted { index: 0, tail: 1 });
}

#[test]
fn transmit_request_takes_the_tail_modulo_ring_size() {
    let mut ring: TxRingBuf<u32> = TxRingBuf::new(0, 4).unwrap();
    let r = start_xmit(&mut ring, 7, 64, Some(packet(0)));
    assert_eq!(r, Xmit::Accepted { index: 3, tail: 0 });
    assert!(ring.is_occupied(3));
}

#[test]
fn oversized_is_reported_before_ring_full() {
    let mut ring: TxRingBuf<u32> = TxRingBuf::new(0, 1).unwrap();
    assert_eq!(
        start_xmit(&mut ring, 0, 64, Some(packet(0))),
        Xmit::Accepted { index: 0, tail: 0 }
    );
    let r = start_xmit(&mut ring, 0, RXTX_SINGLE_RING_BLOCK_SIZE + 1, Some(packet(1)));
    assert_eq!(r, Xmit::Busy { reason: TxError::TooLong, returned: Some(packet(1)) });
}

#[test]
fn failed_mapping_is_busy_and_changes_nothing() {
    let mut ring: TxRingBuf<u32> = TxRingBuf::new(0, 4).unwrap();
    let before = snapshot(&ring);
    let r = start_xmit(&mut ring, 0, 64, None);
    assert_eq!(r, Xmit::Busy { reason: TxError::MapFailed, returned: None });
    assert_eq!(r.status(), NetdevTx::Busy);
    assert_eq!(snapshot(&ring), before);
    assert_eq!(
        start_xmit(&mut ring, 0, 64, Some(packet(0))),
        Xmit::Accepted { index: 0, tail: 1 }
    );
    let r = start_xmit(&mut ring, 0, 64, None);
    assert_eq!(r, Xmit::Busy { reason: TxError::RingFull, returned: None });
}

#[test]
fn poll_drains_then_reaps() {
    let mut rx: RxRingBuf<u32> =
        RxRingBuf::new(0x6000, (100..104).map(packet).collect()).unwrap();
    let mut tx: TxRingBuf<u32> = TxRingBuf::new(0x5000, 4).unwrap();
    assert_eq!(
        start_xmit(&mut tx, 0, 64, Some(packet(0))),
        Xmit::Accepted { index: 0, tail: 1 }
    );
    assert!(complete(&mut tx, 0));
    let mut d = rx.descriptor(0).unwrap();
    d.status = 1;
    d.length = 333;
    assert!(rx.device_write_back(0, d));
    let out = poll(64, &mut rx, &mut tx, 3, 1, vec![packet(200), packet(201)]);
    assert_eq!(out.rx.packets, vec![RxPacket { index: 0, len: 333, buf: packet(100) }]);
    assert_eq!(out.rx.rearmed, vec![0]);
    assert_eq!(out.rx.spare, vec![packet(201)]);
    assert_eq!(out.rx.dropped, 0);
    assert_eq!(out.rx.tail, Some(0));
    assert_eq!(out.tx_done, vec![packet(0)]);
    assert_eq!(out.work_done, 1);
    assert_eq!(work_done(&out.rx), 1);
    assert_eq!(rx.buffer_addr(0), Some(packet(200).dma_handle));
    assert_eq!(tx.next_to_clean(), 1);
}

#[test]
fn poll_with_nothing_to_do_reports_no_work() {
    let mut rx: RxRingBuf<u32> = RxRingBuf::new(0x6000, (0..4).map(packet).collect()).unwrap();
    let mut tx: TxRingBuf<u32> = TxRingBuf::new(0x5000, 4).unwrap();
    for budget in [0, 1, 64, i32::MAX, -1] {
        let out = poll(budget, &mut rx, &mut tx, 3, 0, Vec::new());
        assert!(out.rx.packets.is_empty());
        assert!(out.tx_done.is_empty());
        assert_eq!(out.rx.tail, None);
        assert_eq!(out.work_done, 0);
    }
}

#[test]
fn poll_counts_the_packets_it_delivered() {
    let mut rx: RxRingBuf<u32> = RxRingBuf::new(0x6000, (0..8).map(packet).collect()).unwrap();
    let mut tx: TxRingBuf<u32> = TxRingBuf::new(0x5000, 4).unwrap();
    for idx in 0..5 {
        let mut d = rx.descriptor(idx).unwrap();
        d.status = 1;
        d.length = 64;
        assert!(rx.device_write_back(idx, d));
    }
    let out = poll(64, &mut rx, &mut tx, 7, 0, vec![packet(20), packet(21), packet(22)]);
    assert_eq!(out.rx.packets.len(), 3);
    assert_eq!(out.rx.dropped, 2);
    assert_eq!(out.work_done, 3);
    for idx in 0..2 {
        let mut d = rx.descriptor(idx).unwrap();
        d.status = 1;
        assert!(rx.device_write_back(idx, d));
    }
    let out = poll(1, &mut rx, &mut tx, 7, 0, vec![packet(30), packet(31)]);
    assert_eq!(out.work_done, 2);
    assert_eq!(work_done(&out.rx), 2);
}

#[test]
fn open_plan_lists_the_steps_in_order() {
    assert_eq!(
        open_plan(),
        vec![
            OpenStep::CarrierOff,
            OpenStep::SetupTxRing,
            OpenStep::SetupRxRing,
            OpenStep::Configure,
            OpenStep::InstallRings,
            OpenStep::RequestIrq,
            OpenStep::EnableNapi,
            OpenStep::StartQueue,
            OpenStep::CarrierOn,
        ]
    );
    assert_eq!(open_plan().len(), OPEN_STEPS);
}

#[test]
fn unwind_undoes_what_was_set_up() {
    let carrier = TeardownStep::CarrierOff;
    let queue = TeardownStep::StopQueue;
    let quiesce = TeardownStep::QuiesceDevice;
    let irq = TeardownStep::FreeIrq;
    let napi = TeardownStep::DisableNapi;
    let rx = TeardownStep::FreeRxRing;
    let tx = TeardownStep::FreeTxRing;
    assert_eq!(unwind_plan(0), vec![]);
    assert_eq!(unwind_plan(1), vec![]);
    assert_eq!(unwind_plan(2), vec![tx]);
    assert_eq!(unwind_plan(3), vec![quiesce, rx, tx]);
    assert_eq!(unwind_plan(4), vec![quiesce, rx, tx]);
    assert_eq!(unwind_plan(5), vec![quiesce, rx, tx]);
    assert_eq!(unwind_plan(6), vec![quiesce, irq, rx, tx]);
    assert_eq!(unwind_plan(7), vec![quiesce, irq, napi, rx, tx]);
    assert_eq!(unwind_plan(8), vec![queue, quiesce, irq, napi, rx, tx]);
    let all = vec![carrier, queue, quiesce, irq, napi, rx, tx];
    assert_eq!(unwind_plan(9), all);
    assert_eq!(unwind_plan(usize::MAX), all);
}

#[test]
fn device_goes_up_and_down() {
    let mut dev = NetDevice::new();
    assert_eq!(dev.state(), DeviceState::Down);
    assert!(dev.can_open());
    assert_eq!(dev.stop(), None);
    assert_eq!(dev.open(OPEN_STEPS), OpenOutcome::Up);
    assert_eq!(dev.state(), DeviceState::Up);
    assert!(!dev.can_open());
    assert_eq!(dev.open(OPEN_STEPS), OpenOutcome::Refused);
    assert_eq!(dev.state(), DeviceState::Up);
    let plan = dev.stop().unwrap();
    assert_eq!(plan, unwind_plan(OPEN_STEPS));
    assert_eq!(plan.len(), 7);
    assert_eq!(dev.state(), DeviceState::Down);
    assert_eq!(dev.open(OPEN_STEPS), OpenOutcome::Up);
}

#[test]
fn failed_open_leaves_the_device_down() {
    let mut dev = NetDevice::new();
    let r = dev.open(5);
    assert_eq!(
        r,
        OpenOutcome::Failed {
            unwind: vec![
                TeardownStep::QuiesceDevice,
                TeardownStep::FreeRxRing,
                TeardownStep::FreeTxRing
            ]
        }
    );
    assert_eq!(dev.state(), DeviceState::Down);
    assert_eq!(dev.open(0), OpenOutcome::Failed { unwind: vec![] });
    assert_eq!(dev.state(), DeviceState::Down);
    assert_eq!(dev.open(9), OpenOutcome::Up);
}

#[test]
fn teardown_quiets_interrupts_before_poll_before_memory() {
    let mut dev = NetDevice::new();
    dev.open(OPEN_STEPS);
    let plan = dev.stop().unwrap();
    let at = |s: TeardownStep| plan.iter().position(|p| *p == s).unwrap();
    assert!(at(TeardownStep::QuiesceDevice) < at(TeardownStep::FreeIrq));
    assert!(at(TeardownStep::FreeIrq) < at(TeardownStep::DisableNapi));
    assert!(at(TeardownStep::DisableNapi) < at(TeardownStep::FreeRxRing));
    assert!(at(TeardownStep::DisableNapi) < at(TeardownStep::FreeTxRing));
}

#[test]
fn removal_is_reachable_from_either_state() {
    let mut dev = NetDevice::new();
    assert!(dev.remove().is_empty());
    assert_eq!(dev.state(), DeviceState::Removing);
    assert_eq!(dev.open(OPEN_STEPS), OpenOutcome::Refused);
    assert_eq!(dev.stop(), None);
    assert!(dev.remove().is_empty());
    assert_eq!(dev.state(), DeviceState::Removing);
    let mut dev = NetDevice::new();
    dev.open(OPEN_STEPS);
    assert_eq!(dev.remove(), unwind_plan(OPEN_STEPS));
    assert_eq!(dev.state(), DeviceState::Removing);
}

#[test]
fn statistics_read_zero() {
    let dev = NetDevice::new();
    assert_eq!(
        dev.get_stats64(),
        LinkStats { rx_bytes: 0, rx_packets: 0, tx_bytes: 0, tx_packets: 0 }
    );
}
