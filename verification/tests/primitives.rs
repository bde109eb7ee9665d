//! Tests of the primitive fixed-width field readers.

use tinygrib::bytes::{read_u16_be, read_u16_le, read_u32_be, read_u64_be, read_u8};
use tinygrib::Error;

#[test]
fn big_endian_reads_are_big_endian() {
    let data = [0x01u8, 0x02, 0x03, 0x04, 0x05, 0x06, 0x07, 0x08];
    let mut pos = 0usize;
    assert_eq!(read_u16_be(&data, &mut pos), Ok(0x0102));
    assert_eq!(pos, 2);
    let mut pos = 0usize;
    assert_eq!(read_u32_be(&data, &mut pos), Ok(0x01020304));
    assert_eq!(pos, 4);
    let mut pos = 0usize;
    assert_eq!(read_u64_be(&data, &mut pos), Ok(0x0102030405060708));
    assert_eq!(pos, 8);
}

#[test]
fn little_endian_read_swaps_the_bytes() {
    let data = [0x01u8, 0x02];
    let mut pos = 0usize;
    assert_eq!(read_u16_le(&data, &mut pos), Ok(0x0201));
    assert_eq!(pos, 2);
}

#[test]
fn reads_advance_the_cursor_in_sequence() {
    let data = [0xAAu8, 0x01, 0x02];
    let mut pos = 0usize;
    assert_eq!(read_u8(&data, &mut pos), Ok(0xAA));
    assert_eq!(read_u16_be(&data, &mut pos), Ok(0x0102));
    assert_eq!(pos, 3);
}

#[test]
fn a_short_slice_is_a_short_read_and_moves_nothing() {
    let data = [0x01u8];
    let mut pos = 1usize;
    assert_eq!(read_u8(&data, &mut pos), Err(Error::UnexpectedEndOfInput));
    assert_eq!(pos, 1);
    let mut pos = 0usize;
    assert_eq!(read_u16_be(&data, &mut pos), Err(Error::UnexpectedEndOfInput));
    assert_eq!(pos, 0);
}
