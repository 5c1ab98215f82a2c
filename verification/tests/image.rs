use flow_win32::error::ReadError;
use flow_win32::image::{Mapping, MemoryImage};
use flow_win32::memory::{MemoryAccess, PAGE_SIZE};

#[test]
fn new_image_is_zero_filled() {
    let mut image = MemoryImage::new(0x20);
    assert_eq!(image.size(), 0x20);
    assert_eq!(image.read_physical(0, 0x20), Ok(vec![0u8; 0x20]));
    assert_eq!(PAGE_SIZE, 0x1000);
}

#[test]
fn physical_read_gives_what_was_written() {
    let mut image = MemoryImage::new(0x20);
    assert_eq!(image.write_physical(0x10, &[1, 2, 3, 4]), Ok(()));
    assert_eq!(image.read_physical(0x10, 4), Ok(vec![1, 2, 3, 4]));
    assert_eq!(image.read_physical(0x0f, 3), Ok(vec![0, 1, 2]));
    assert_eq!(image.read_physical(0x12, 0), Ok(vec![]));
    assert_eq!(image.read_physical(0x1c, 4), Ok(vec![0, 0, 0, 0]));
}

#[test]
fn physical_access_beyond_the_end_is_an_io_error() {
    let mut image = MemoryImage::new(0x20);
    assert_eq!(image.read_physical(0x1d, 4), Err(ReadError::Io));
    assert_eq!(image.read_physical(0x21, 0), Err(ReadError::Io));
    assert_eq!(image.read_physical(u64::MAX, 1), Err(ReadError::Io));
    assert_eq!(image.write_physical(0x1e, &[1, 2, 3]), Err(ReadError::Io));
    assert_eq!(image.read_physical(0x1e, 2), Ok(vec![0, 0]));
    assert_eq!(image.read_physical(0x20, 0), Ok(vec![]));
}

#[test]
fn virtual_read_goes_through_the_mapping() {
    let mut image = MemoryImage::new(0x40);
    image.map(Mapping { root: 0x1000, virt: 0xffff_0000, phys: 0x10, length: 0x20 });
    assert_eq!(image.write_physical(0x10, &[5, 6, 7, 8]), Ok(()));
    assert_eq!(image.read_virtual(0x1000, 0xffff_0000, 4), Ok(vec![5, 6, 7, 8]));
    assert_eq!(image.read_virtual(0x1000, 0xffff_0002, 2), Ok(vec![7, 8]));
    assert_eq!(image.translate(0x1000, 0xffff_0002, 2), Some(0x12));
    assert_eq!(image.write_virtual(0x1000, 0xffff_001e, &[9, 10]), Ok(()));
    assert_eq!(image.read_physical(0x2e, 2), Ok(vec![9, 10]));
}

#[test]
fn virtual_access_outside_every_mapping_fails_translation() {
    let mut image = MemoryImage::new(0x40);
    image.map(Mapping { root: 0x1000, virt: 0xffff_0000, phys: 0x10, length: 0x20 });
    assert_eq!(image.read_virtual(0x2000, 0xffff_0000, 4), Err(ReadError::Translation));
    assert_eq!(image.read_virtual(0x1000, 0xfffe_ffff, 4), Err(ReadError::Translation));
    assert_eq!(image.read_virtual(0x1000, 0xffff_001e, 4), Err(ReadError::Translation));
    assert_eq!(image.write_virtual(0x1000, 0xffff_001f, &[1, 2]), Err(ReadError::Translation));
    assert_eq!(image.translate(0x1000, 0xffff_0020, 1), None);
    assert_eq!(image.read_virtual(0x1000, u64::MAX, 2), Err(ReadError::Translation));
}

#[test]
fn mapping_beyond_physical_memory_is_an_io_error() {
    let mut image = MemoryImage::new(0x40);
    image.map(Mapping { root: 0x1000, virt: 0x5000, phys: 0x30, length: 0x20 });
    image.map(Mapping { root: 0x1000, virt: 0x9000, phys: u64::MAX, length: 0x20 });
    assert_eq!(image.read_virtual(0x1000, 0x5000, 0x10), Ok(vec![0u8; 0x10]));
    assert_eq!(image.read_virtual(0x1000, 0x5008, 0x10), Err(ReadError::Io));
    assert_eq!(image.write_virtual(0x1000, 0x5008, &[0u8; 0x10]), Err(ReadError::Io));
    assert_eq!(image.read_virtual(0x1000, 0x9010, 4), Err(ReadError::Io));
    assert_eq!(image.write_virtual(0x1000, 0x9010, &[1]), Err(ReadError::Io));
}

#[test]
fn earlier_mapping_takes_precedence() {
    let mut image = MemoryImage::new(0x40);
    image.map(Mapping { root: 7, virt: 0x100, phys: 0x00, length: 0x10 });
    image.map(Mapping { root: 7, virt: 0x100, phys: 0x20, length: 0x20 });
    assert_eq!(image.write_physical(0x00, &[1]), Ok(()));
    assert_eq!(image.write_physical(0x20, &[2]), Ok(()));
    assert_eq!(image.read_virtual(7, 0x100, 1), Ok(vec![1]));
    assert_eq!(image.translate(7, 0x100, 0x11), Some(0x20));
    assert_eq!(image.read_virtual(7, 0x100, 0x11).map(|bytes| bytes[0]), Ok(2));
}

#[test]
fn written_bytes_are_read_back_through_the_same_range() {
    let mut image = MemoryImage::new(0x100);
    image.map(Mapping { root: 3, virt: 0xffff_f800_0000_0000, phys: 0x80, length: 0x80 });
    let data: Vec<u8> = (0u8..0x40).collect();
    assert_eq!(image.write_virtual(3, 0xffff_f800_0000_0020, &data), Ok(()));
    assert_eq!(image.read_virtual(3, 0xffff_f800_0000_0020, 0x40), Ok(data));
}

#[test]
fn mapping_covers_exactly_its_range() {
    let mapping = Mapping { root: 1, virt: 0x1000, phys: 0, length: 0x1000 };
    assert!(mapping.covers(1, 0x1000, 0x1000));
    assert!(mapping.covers(1, 0x1fff, 1));
    assert!(mapping.covers(1, 0x2000, 0));
    assert!(!mapping.covers(1, 0x1fff, 2));
    assert!(!mapping.covers(1, 0xfff, 2));
    assert!(!mapping.covers(2, 0x1000, 1));
    let top = Mapping { root: 1, virt: u64::MAX - 0xf, phys: 0, length: 0x10 };
    assert!(top.covers(1, u64::MAX, 1));
    assert!(!top.covers(1, u64::MAX, 2));
}
