use pkm_rs::pkm::reader::Reader as VecReader;
use pkm_rs::reader::{u16_from_le, u32_from_le, Reader};

const BYTES: [u8; 6] = [0x34, 0x12, 0xef, 0xbe, 0xad, 0xde];

#[test]
fn read_u8_gives_the_byte_at_the_offset() {
    assert_eq!(BYTES.read_u8(0), 0x34);
    assert_eq!(BYTES.read_u8(5), 0xde);
}

#[test]
fn read_u8_past_the_end_gives_zero() {
    assert_eq!(BYTES.read_u8(6), 0);
    assert_eq!(BYTES.read_u8(u64::MAX), 0);
}

#[test]
fn read_u16_is_little_endian() {
    assert_eq!(BYTES.read_u16(0), 0x1234);
    assert_eq!(BYTES.read_u16(1), 0xef12);
    assert_eq!(BYTES.read_u16(4), 0xdead);
}

#[test]
fn read_u16_that_does_not_fit_gives_zero() {
    assert_eq!(BYTES.read_u16(5), 0);
    assert_eq!(BYTES.read_u16(6), 0);
    assert_eq!(BYTES.read_u16(7), 0);
    assert_eq!(BYTES.read_u16(u64::MAX), 0);
}

#[test]
fn read_u32_is_little_endian() {
    assert_eq!(BYTES.read_u32(0), 0xbeef1234);
    assert_eq!(BYTES.read_u32(2), 0xdeadbeef);
}

#[test]
fn read_u32_that_does_not_fit_gives_zero() {
    assert_eq!(BYTES.read_u32(3), 0);
    assert_eq!(BYTES.read_u32(6), 0);
    assert_eq!(BYTES.read_u32(u64::MAX - 1), 0);
}

#[test]
fn read_array_copies_what_is_there() {
    let whole: [u8; 4] = BYTES.read_array(1);
    assert_eq!(whole, [0x12, 0xef, 0xbe, 0xad]);
}

#[test]
fn read_array_fills_the_rest_with_zero() {
    let partial: [u8; 4] = BYTES.read_array(4);
    assert_eq!(partial, [0xad, 0xde, 0, 0]);
    let at_end: [u8; 3] = BYTES.read_array(6);
    assert_eq!(at_end, [0, 0, 0]);
    let beyond: [u8; 3] = BYTES.read_array(100);
    assert_eq!(beyond, [0, 0, 0]);
    let none: [u8; 0] = BYTES.read_array(2);
    assert_eq!(none, []);
}

#[test]
fn reads_work_on_slices_and_vectors() {
    let slice: &[u8] = &BYTES[2..];
    assert_eq!(slice.read_u16(0), 0xbeef);
    assert_eq!(slice.as_slice(), &BYTES[2..]);
    let vector: Vec<u8> = BYTES.to_vec();
    assert_eq!(vector.read_u32(2), 0xdeadbeef);
    assert_eq!(Reader::as_slice(&vector), &BYTES[..]);
    assert_eq!(Reader::as_slice(&BYTES), &BYTES[..]);
}

#[test]
fn reads_of_an_empty_buffer_give_zero() {
    let empty: [u8; 0] = [];
    assert_eq!(empty.read_u8(0), 0);
    assert_eq!(empty.read_u16(0), 0);
    assert_eq!(empty.read_u32(0), 0);
}

#[test]
fn default_reads_are_little_endian() {
    let data: Vec<u8> = BYTES.to_vec();
    assert_eq!(data.default_read_u8(2), 0xef);
    assert_eq!(data.default_read_le_u16(0), 0x1234);
    assert_eq!(data.default_read_le_u16(4), 0xdead);
    assert_eq!(data.default_read_le_u32(0), 0xbeef1234);
    assert_eq!(data.default_read_le_u32(2), 0xdeadbeef);
    assert_eq!(data.get_slice(), &BYTES[..]);
}

#[test]
fn default_reads_that_do_not_fit_give_zero() {
    let data: &[u8] = &BYTES;
    assert_eq!(data.default_read_u8(6), 0);
    assert_eq!(data.default_read_u8(usize::MAX), 0);
    assert_eq!(data.default_read_le_u16(5), 0);
    assert_eq!(data.default_read_le_u16(usize::MAX), 0);
    assert_eq!(data.default_read_le_u32(3), 0);
    assert_eq!(data.default_read_le_u32(usize::MAX), 0);
    let short: &[u8] = &BYTES[..1];
    assert_eq!(short.default_read_le_u16(0), 0);
    assert_eq!(short.default_read_le_u32(0), 0);
}

#[test]
fn both_readers_agree() {
    let data: Vec<u8> = (0u16..40).map(|i| (i * 7 + 3) as u8).collect();
    for offset in 0usize..44 {
        assert_eq!(data.read_u8(offset as u64), data.default_read_u8(offset));
        assert_eq!(data.read_u16(offset as u64), data.default_read_le_u16(offset));
        assert_eq!(data.read_u32(offset as u64), data.default_read_le_u32(offset));
    }
}

#[test]
fn bytes_are_put_together_in_little_endian_order() {
    assert_eq!(u16_from_le(0x34, 0x12), 0x1234);
    assert_eq!(u16_from_le(0xff, 0x00), 0x00ff);
    assert_eq!(u16_from_le(0x00, 0xff), 0xff00);
    assert_eq!(u32_from_le(0x78, 0x56, 0x34, 0x12), 0x12345678);
    assert_eq!(u32_from_le(0, 0, 0, 0x80), 0x80000000);
    assert_eq!(u32_from_le(0xff, 0xff, 0xff, 0xff), u32::MAX);
}
