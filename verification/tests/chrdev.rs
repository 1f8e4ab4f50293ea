use e1000_core::chrdev::transfer_size;
use e1000_core::chrdev::ChrdevError;
use e1000_core::chrdev::RustFile;
use e1000_core::chrdev::GLOBALMEM_SIZE;

#[test]
fn fresh_file_reads_zeros() {
    let f = RustFile::open();
    assert_eq!(f.read(GLOBALMEM_SIZE, 0), vec![0u8; GLOBALMEM_SIZE]);
    assert_eq!(f.read(4, 100), vec![0u8; 4]);
}

#[test]
fn written_bytes_are_read_back() {
    let mut f = RustFile::open();
    assert_eq!(f.write(b"hello", 10), Ok(5));
    assert_eq!(f.read(5, 10), b"hello".to_vec());
    assert_eq!(f.read(7, 9), vec![0, b'h', b'e', b'l', b'l', b'o', 0]);
    assert_eq!(f.write(b"HE", 10), Ok(2));
    assert_eq!(f.read(5, 10), b"HEllo".to_vec());
}

#[test]
fn write_stops_at_the_end_of_the_block() {
    let mut f = RustFile::open();
    assert_eq!(f.write(&[1, 2, 3, 4], GLOBALMEM_SIZE as u64 - 2), Ok(2));
    assert_eq!(f.read(10, GLOBALMEM_SIZE as u64 - 3), vec![0, 1, 2]);
    assert_eq!(f.write(&vec![9u8; GLOBALMEM_SIZE + 5], 0), Ok(GLOBALMEM_SIZE));
    assert_eq!(f.read(usize::MAX, 0), vec![9u8; GLOBALMEM_SIZE]);
    assert_eq!(f.write(&[], 0), Ok(0));
}

#[test]
fn write_past_the_end_is_an_error() {
    let mut f = RustFile::open();
    assert_eq!(f.write(&[1], GLOBALMEM_SIZE as u64), Err(ChrdevError::InvalidArgument));
    assert_eq!(f.write(&[1], u64::MAX), Err(ChrdevError::InvalidArgument));
    assert_eq!(f.write(&[], GLOBALMEM_SIZE as u64), Err(ChrdevError::InvalidArgument));
    assert_eq!(f.read(GLOBALMEM_SIZE, 0), vec![0u8; GLOBALMEM_SIZE]);
}

#[test]
fn read_past_the_end_is_end_of_file() {
    let f = RustFile::open();
    assert_eq!(f.read(10, GLOBALMEM_SIZE as u64), Vec::<u8>::new());
    assert_eq!(f.read(10, u64::MAX), Vec::<u8>::new());
    assert_eq!(f.read(0, 5), Vec::<u8>::new());
    assert_eq!(f.read(10, GLOBALMEM_SIZE as u64 - 1), vec![0]);
}

#[test]
fn transfer_is_cut_at_the_end_of_the_block() {
    assert_eq!(transfer_size(10, 0), Some(10));
    assert_eq!(transfer_size(0, 0), Some(0));
    assert_eq!(transfer_size(GLOBALMEM_SIZE + 1, 0), Some(GLOBALMEM_SIZE));
    assert_eq!(transfer_size(10, GLOBALMEM_SIZE as u64 - 3), Some(3));
    assert_eq!(transfer_size(usize::MAX, 1), Some(GLOBALMEM_SIZE - 1));
    assert_eq!(transfer_size(10, GLOBALMEM_SIZE as u64), None);
    assert_eq!(transfer_size(0, u64::MAX), None);
}
