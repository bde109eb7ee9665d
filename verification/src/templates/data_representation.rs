//! Template 5.200: run length packing with level values.

use vstd::prelude::*;

use crate::bytes::{be_u16_at, read_u16_be, read_u8};
use crate::Error;

verus! {

/// The signed one-byte value at `pos`, in the sign-and-magnitude form GRIB2
/// uses for signed fields: the high bit is the sign, the low seven bits the
/// magnitude.
pub open spec fn sign_magnitude_i8_at(data: Seq<u8>, pos: int) -> i8 {
    if data[pos] < 0x80 {
        data[pos] as i8
    } else {
        (-((data[pos] - 0x80) as int)) as i8
    }
}

/// Template 5.200 (run length packing with level values).
///
/// `mv` is the largest level value a payload byte can carry literally before
/// continuation bytes extend a run; `mvl` is the count of defined levels; the
/// table maps a one-based level index to its physical scaled value.
#[derive(Debug, Clone, PartialEq, Eq)]
pub struct DataRepresentationTemplate5_200 {
    pub number_of_bits: u8,
    pub mv: u16,
    pub mvl: u16,
    pub decimal_scale_factor: i8,
    pub mvl_scaled_representative_values: Vec<u16>,
}

impl DataRepresentationTemplate5_200 {
    /// True when `t` is the template spelled by the bytes at `pos`: six fixed
    /// bytes, then `mvl` big-endian 16-bit table entries.
    pub open spec fn parses_to(data: Seq<u8>, pos: int, t: DataRepresentationTemplate5_200)
        -> bool {
        let mvl = be_u16_at(data, pos + 3) as int;
        &&& t.number_of_bits == data[pos]
        &&& t.mv == be_u16_at(data, pos + 1)
        &&& t.mvl == be_u16_at(data, pos + 3)
        &&& t.decimal_scale_factor == sign_magnitude_i8_at(data, pos + 5)
        &&& t.mvl_scaled_representative_values@.len() == mvl
        &&& forall|i: int| 0 <= i < mvl ==> t.mvl_scaled_representative_values@[i]
            == be_u16_at(data, pos + 6 + 2 * i)
    }

    /// Reads the template from a data representation section's body.
    #[verifier::loop_isolation(false)]
    pub fn read(data: &[u8], pos: &mut usize)
        -> (r: Result<DataRepresentationTemplate5_200, Error>)
        ensures
            r is Ok <==> *old(pos) + 6 <= data@.len()
                && *old(pos) + 6 + 2 * (be_u16_at(data@, *old(pos) + 3) as int) <= data@.len(),
            r matches Ok(t) ==> Self::parses_to(data@, *old(pos) as int, t)
                && *final(pos) == *old(pos) + 6 + 2 * (be_u16_at(data@, *old(pos) + 3) as int),
            r matches Err(e) ==> e == Error::UnexpectedEndOfInput,
    {
        let number_of_bits = match read_u8(data, pos) {
            Ok(v) => v,
            Err(e) => return Err(e),
        };
        let mv = match read_u16_be(data, pos) {
            Ok(v) => v,
            Err(e) => return Err(e),
        };
        let mvl = match read_u16_be(data, pos) {
            Ok(v) => v,
            Err(e) => return Err(e),
        };
        let sign_byte = match read_u8(data, pos) {
            Ok(v) => v,
            Err(e) => return Err(e),
        };
        let decimal_scale_factor: i8 = if sign_byte < 0x80 {
            sign_byte as i8
        } else {
            -((sign_byte - 0x80) as i8)
        };
        let ghost table_base = *pos as int;
        let mut mvl_scaled_representative_values: Vec<u16> = Vec::new();
        let mut i: usize = 0;
        while i < mvl as usize
            invariant
                i <= mvl as usize,
                *pos == table_base + 2 * i,
                *pos <= data@.len(),
                table_base == *old(pos) + 6,
                mvl_scaled_representative_values@.len() == i,
                forall|j: int| 0 <= j < i ==> mvl_scaled_representative_values@[j]
                    == be_u16_at(data@, table_base + 2 * j),
            decreases mvl as int - i as int,
        {
            let v = match read_u16_be(data, pos) {
                Ok(v) => v,
                Err(e) => return Err(e),
            };
            mvl_scaled_representative_values.push(v);
            i = i + 1;
        }
        Ok(DataRepresentationTemplate5_200 {
            number_of_bits,
            mv,
            mvl,
            decimal_scale_factor,
            mvl_scaled_representative_values,
        })
    }
}

} // verus!
