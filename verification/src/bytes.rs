//! The primitive field reader: fixed-width integers read from a byte slice
//! through a cursor.
//!
//! GRIB2 stores its fields big-endian; two legacy indicator fields use the
//! platform byte order, which on the machines this decoder targets is
//! little-endian.  Every reader advances the cursor exactly by the field's
//! width on success and reports [`Error::UnexpectedEndOfInput`] without
//! moving it when the slice is too short.

use vstd::prelude::*;
use vstd::slice::slice_index_get;

use crate::Error;

verus! {

/// The big-endian 16-bit value spelled by `data[pos]` and `data[pos + 1]`.
pub open spec fn be_u16_at(data: Seq<u8>, pos: int) -> u16 {
    ((data[pos] as int) * 0x100 + (data[pos + 1] as int)) as u16
}

/// The little-endian 16-bit value spelled by `data[pos]` and `data[pos + 1]`.
pub open spec fn le_u16_at(data: Seq<u8>, pos: int) -> u16 {
    ((data[pos + 1] as int) * 0x100 + (data[pos] as int)) as u16
}

/// The big-endian 32-bit value spelled by the four bytes from `data[pos]`.
pub open spec fn be_u32_at(data: Seq<u8>, pos: int) -> u32 {
    ((data[pos] as int) * 0x1000000 + (data[pos + 1] as int) * 0x10000
        + (data[pos + 2] as int) * 0x100 + (data[pos + 3] as int)) as u32
}

/// The big-endian 64-bit value spelled by the eight bytes from `data[pos]`.
pub open spec fn be_u64_at(data: Seq<u8>, pos: int) -> u64 {
    ((data[pos] as int) * 0x100000000000000 + (data[pos + 1] as int) * 0x1000000000000
        + (data[pos + 2] as int) * 0x10000000000 + (data[pos + 3] as int) * 0x100000000
        + (data[pos + 4] as int) * 0x1000000 + (data[pos + 5] as int) * 0x10000
        + (data[pos + 6] as int) * 0x100 + (data[pos + 7] as int)) as u64
}

/// Reads one byte.
pub fn read_u8(data: &[u8], pos: &mut usize) -> (r: Result<u8, Error>)
    ensures
        match r {
            Ok(v) => *old(pos) + 1 <= data@.len() && v == data@[*old(pos) as int]
                && *final(pos) == *old(pos) + 1,
            Err(e) => data@.len() < *old(pos) + 1 && e == Error::UnexpectedEndOfInput
                && *final(pos) == *old(pos),
        },
{
    if *pos < data.len() {
        let b = *slice_index_get(data, *pos);
        *pos = *pos + 1;
        Ok(b)
    } else {
        Err(Error::UnexpectedEndOfInput)
    }
}

/// Reads a big-endian 16-bit integer.
pub fn read_u16_be(data: &[u8], pos: &mut usize) -> (r: Result<u16, Error>)
    ensures
        match r {
            Ok(v) => *old(pos) + 2 <= data@.len() && v == be_u16_at(data@, *old(pos) as int)
                && *final(pos) == *old(pos) + 2,
            Err(e) => data@.len() < *old(pos) + 2 && e == Error::UnexpectedEndOfInput
                && *final(pos) == *old(pos),
        },
{
    if *pos < data.len() && data.len() - *pos >= 2 {
        let b0 = *slice_index_get(data, *pos);
        let b1 = *slice_index_get(data, *pos + 1);
        *pos = *pos + 2;
        Ok((b0 as u16) * 0x100 + (b1 as u16))
    } else {
        Err(Error::UnexpectedEndOfInput)
    }
}

/// Reads a little-endian 16-bit integer.
pub fn read_u16_le(data: &[u8], pos: &mut usize) -> (r: Result<u16, Error>)
    ensures
        match r {
            Ok(v) => *old(pos) + 2 <= data@.len() && v == le_u16_at(data@, *old(pos) as int)
                && *final(pos) == *old(pos) + 2,
            Err(e) => data@.len() < *old(pos) + 2 && e == Error::UnexpectedEndOfInput
                && *final(pos) == *old(pos),
        },
{
    if *pos < data.len() && data.len() - *pos >= 2 {
        let b0 = *slice_index_get(data, *pos);
        let b1 = *slice_index_get(data, *pos + 1);
        *pos = *pos + 2;
        Ok((b1 as u16) * 0x100 + (b0 as u16))
    } else {
        Err(Error::UnexpectedEndOfInput)
    }
}

/// Reads a big-endian 32-bit integer.
pub fn read_u32_be(data: &[u8], pos: &mut usize) -> (r: Result<u32, Error>)
    ensures
        match r {
            Ok(v) => *old(pos) + 4 <= data@.len() && v == be_u32_at(data@, *old(pos) as int)
                && *final(pos) == *old(pos) + 4,
            Err(e) => data@.len() < *old(pos) + 4 && e == Error::UnexpectedEndOfInput
                && *final(pos) == *old(pos),
        },
{
    if *pos < data.len() && data.len() - *pos >= 4 {
        let b0 = *slice_index_get(data, *pos);
        let b1 = *slice_index_get(data, *pos + 1);
        let b2 = *slice_index_get(data, *pos + 2);
        let b3 = *slice_index_get(data, *pos + 3);
        *pos = *pos + 4;
        Ok((b0 as u32) * 0x1000000 + (b1 as u32) * 0x10000 + (b2 as u32) * 0x100 + (b3 as u32))
    } else {
        Err(Error::UnexpectedEndOfInput)
    }
}

/// Reads a big-endian 64-bit integer.
pub fn read_u64_be(data: &[u8], pos: &mut usize) -> (r: Result<u64, Error>)
    ensures
        match r {
            Ok(v) => *old(pos) + 8 <= data@.len() && v == be_u64_at(data@, *old(pos) as int)
                && *final(pos) == *old(pos) + 8,
            Err(e) => data@.len() < *old(pos) + 8 && e == Error::UnexpectedEndOfInput
                && *final(pos) == *old(pos),
        },
{
    if *pos < data.len() && data.len() - *pos >= 8 {
        let b0 = *slice_index_get(data, *pos);
        let b1 = *slice_index_get(data, *pos + 1);
        let b2 = *slice_index_get(data, *pos + 2);
        let b3 = *slice_index_get(data, *pos + 3);
        let b4 = *slice_index_get(data, *pos + 4);
        let b5 = *slice_index_get(data, *pos + 5);
        let b6 = *slice_index_get(data, *pos + 6);
        let b7 = *slice_index_get(data, *pos + 7);
        *pos = *pos + 8;
        Ok((b0 as u64) * 0x100000000000000 + (b1 as u64) * 0x1000000000000
            + (b2 as u64) * 0x10000000000 + (b3 as u64) * 0x100000000
            + (b4 as u64) * 0x1000000 + (b5 as u64) * 0x10000
            + (b6 as u64) * 0x100 + (b7 as u64))
    } else {
        Err(Error::UnexpectedEndOfInput)
    }
}

} // verus!
