use e1000_core::hw_defs::tx_cmd;
use e1000_core::hw_defs::Owner;
use e1000_core::hw_defs::RxDescEntry;
use e1000_core::hw_defs::TxDescEntry;

#[test]
fn tx_descriptor_layout_is_byte_exact() {
    let d = TxDescEntry {
        buf_addr: 0x1122_3344_5566_7788,
        length: 0xABCD,
        cso: 0x01,
        cmd: 0x09,
        sta: 0x0F,
        css: 0x02,
        special: 0xBEEF,
    };
    assert_eq!(
        d.to_bytes(),
        vec![
            0x88, 0x77, 0x66, 0x55, 0x44, 0x33, 0x22, 0x11, 0xCD, 0xAB, 0x01, 0x09, 0x0F, 0x02,
            0xEF, 0xBE,
        ]
    );
}

#[test]
fn rx_descriptor_layout_is_byte_exact() {
    let d = RxDescEntry {
        buf_addr: 0x0000_0000_FEDC_BA98,
        length: 1514,
        checksum: 0x1234,
        status: 0x03,
        errors: 0x80,
        special: 0x0001,
    };
    assert_eq!(
        d.to_bytes(),
        vec![
            0x98, 0xBA, 0xDC, 0xFE, 0x00, 0x00, 0x00, 0x00, 0xEA, 0x05, 0x34, 0x12, 0x03, 0x80,
            0x01, 0x00,
        ]
    );
}

#[test]
fn descriptors_survive_the_trip_through_bytes() {
    let tx = TxDescEntry {
        buf_addr: u64::MAX - 5,
        length: u16::MAX,
        cso: 255,
        cmd: 0,
        sta: 1,
        css: 7,
        special: 0x8000,
    };
    assert_eq!(TxDescEntry::from_bytes(&tx.to_bytes()), Some(tx));
    let rx = RxDescEntry {
        buf_addr: 1,
        length: 0,
        checksum: u16::MAX,
        status: 0xFF,
        errors: 0,
        special: 0x00FF,
    };
    assert_eq!(RxDescEntry::from_bytes(&rx.to_bytes()), Some(rx));
    let raw: Vec<u8> = (100..116).collect();
    assert_eq!(TxDescEntry::from_bytes(&raw).unwrap().to_bytes(), raw);
    assert_eq!(RxDescEntry::from_bytes(&raw).unwrap().to_bytes(), raw);
}

#[test]
fn descriptor_needs_sixteen_bytes() {
    assert_eq!(TxDescEntry::from_bytes(&[0u8; 15]), None);
    assert_eq!(TxDescEntry::from_bytes(&[0u8; 17]), None);
    assert_eq!(RxDescEntry::from_bytes(&[]), None);
    assert_eq!(RxDescEntry::from_bytes(&[0u8; 32]), None);
    assert!(TxDescEntry::from_bytes(&[0u8; 16]).is_some());
}

#[test]
fn done_bit_decides_the_owner() {
    let mut tx = TxDescEntry::idle();
    assert!(tx.is_done());
    assert_eq!(tx.ownership(), Owner::Software);
    tx.sta = 0;
    assert!(!tx.is_done());
    assert_eq!(tx.ownership(), Owner::Hardware);
    tx.sta = 0xFE;
    assert_eq!(tx.ownership(), Owner::Hardware);
    tx.sta = 0xFF;
    assert_eq!(tx.ownership(), Owner::Software);
    let mut rx = RxDescEntry::armed(0x1000);
    assert_eq!(rx.buf_addr, 0x1000);
    assert!(!rx.is_done());
    assert_eq!(rx.ownership(), Owner::Hardware);
    rx.status = 0x03;
    assert!(rx.is_done());
    assert_eq!(rx.ownership(), Owner::Software);
}

#[test]
fn command_byte_asks_for_status_at_end_of_packet() {
    assert_eq!(tx_cmd(), 0x09);
}
