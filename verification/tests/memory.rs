use emulator_rs::mem::{MemoryError, RAM};

#[test]
fn ram_new() {
    let ram = RAM::new(0, 1024);
    assert_eq!(ram.read_byte(0).unwrap(), 0);
    assert_eq!(ram.read_byte(1023).unwrap(), 0);
    assert_eq!(ram.read_byte(1024), Err(MemoryError::UnmappedRegion));
}

#[test]
fn read_zero() {
    let ram = RAM::new(0, 1024);
    assert_eq!(ram.read_byte(0).unwrap(), 0);
}

#[test]
fn write_read_byte() {
    let mut ram = RAM::new(0, 1024);
    ram.write_byte(527, 83).unwrap();
    assert_eq!(ram.read_byte(527).unwrap(), 83);
}

#[test]
fn write_read_halfword() {
    let mut ram = RAM::new(0, 1024);
    ram.write_halfword(527, 0x1234).unwrap();
    assert_eq!(ram.read_halfword(527).unwrap(), 0x1234);
}

#[test]
fn write_read_word() {
    let mut ram = RAM::new(0, 1024);
    ram.write_word(527, 0x12345678).unwrap();
    assert_eq!(ram.read_word(527).unwrap(), 0x12345678);
}

#[test]
#[should_panic]
fn read_past_memory() {
    let ram = RAM::new(0, 1024);
    assert_eq!(ram.read_byte(2048).unwrap(), 0);
}

#[test]
fn word_round_trip_is_little_endian() {
    let mut ram = RAM::new(0, 1024);
    ram.write_word(100, 0xA1B2C3D4).unwrap();
    assert_eq!(ram.read_word(100).unwrap(), 0xA1B2C3D4);
    assert_eq!(ram.read_byte(100).unwrap(), 0xD4);
    assert_eq!(ram.read_byte(101).unwrap(), 0xC3);
    assert_eq!(ram.read_byte(102).unwrap(), 0xB2);
    assert_eq!(ram.read_byte(103).unwrap(), 0xA1);
}

#[test]
fn halfword_is_little_endian() {
    let mut ram = RAM::new(0, 1024);
    ram.write_halfword(10, 0xBEEF).unwrap();
    assert_eq!(ram.read_byte(10).unwrap(), 0xEF);
    assert_eq!(ram.read_byte(11).unwrap(), 0xBE);
}

#[test]
fn add_segment_rejects_overlap() {
    let mut ram = RAM::new(0, 1024);
    ram.write_byte(512, 42).unwrap();
    assert_eq!(ram.add_segment(512, 100), Err(MemoryError::AlreadyMappedRegion));
    assert_eq!(ram.add_segment(1023, 2), Err(MemoryError::AlreadyMappedRegion));
    assert_eq!(ram.read_byte(512).unwrap(), 42);
}

#[test]
fn add_segment_rejects_range_covering_existing() {
    let mut ram = RAM::new(0x1000, 16);
    assert_eq!(ram.add_segment(0x0F00, 0x1000), Err(MemoryError::AlreadyMappedRegion));
}

#[test]
fn add_segment_disjoint_is_zeroed() {
    let mut ram = RAM::new(0, 1024);
    assert_eq!(ram.add_segment(0x2000, 16), Ok(()));
    assert_eq!(ram.read_byte(0x2000).unwrap(), 0);
    assert_eq!(ram.read_byte(0x200F).unwrap(), 0);
    assert_eq!(ram.read_byte(0x2010), Err(MemoryError::UnmappedRegion));
    ram.write_byte(0x2001, 9).unwrap();
    assert_eq!(ram.read_byte(0x2001).unwrap(), 9);
}

#[test]
fn add_segment_empty_range_never_overlaps() {
    let mut ram = RAM::new(0, 1024);
    assert_eq!(ram.add_segment(512, 0), Ok(()));
    assert_eq!(ram.read_byte(512).unwrap(), 0);
}

#[test]
fn unmapped_read_faults_unmapped_write_is_noop() {
    let mut ram = RAM::new(0, 1024);
    assert_eq!(ram.read_byte(5000), Err(MemoryError::UnmappedRegion));
    assert_eq!(ram.write_byte(5000, 7), Ok(()));
    assert_eq!(ram.read_byte(5000), Err(MemoryError::UnmappedRegion));
    assert_eq!(ram.read_byte(0).unwrap(), 0);
}
