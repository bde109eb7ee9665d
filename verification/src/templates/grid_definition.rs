//! Template 3.0: a latitude/longitude grid.

use vstd::prelude::*;

use crate::bytes::{be_u32_at, read_u32_be, read_u8};
use crate::Error;

verus! {

/// Template 3.0 (latitude/longitude): the grid's geometry.  Latitudes and
/// longitudes are fixed-point values in units of 1e-6 degree.  A grid of
/// `ni * nj` points pairs with a decoded value array of exactly that length.
#[derive(Debug, Clone, Copy, PartialEq, Eq, Structural)]
pub struct GridDefinitionTemplate3_0 {
    pub shape_of_earth: u8,
    pub scale_factor_of_radius: u8,
    pub scale_value_of_radius: u32,
    pub scale_factor_of_major_axis: u8,
    pub scale_value_of_major_axis: u32,
    pub scale_factor_of_minor_axis: u8,
    pub scale_value_of_minor_axis: u32,
    pub ni: u32,
    pub nj: u32,
    pub basic_angle: u32,
    pub subdivisions_of_basic_angle: u32,
    pub la1: u32,
    pub lo1: u32,
    pub resolution_and_component_flags: u8,
    pub la2: u32,
    pub lo2: u32,
    pub di: u32,
    pub dj: u32,
    pub scanning_mode: u8,
}

impl GridDefinitionTemplate3_0 {
    /// The template spelled by the 58 bytes at `pos`.
    pub open spec fn parsed_at(data: Seq<u8>, pos: int) -> GridDefinitionTemplate3_0 {
        GridDefinitionTemplate3_0 {
            shape_of_earth: data[pos],
            scale_factor_of_radius: data[pos + 1],
            scale_value_of_radius: be_u32_at(data, pos + 2),
            scale_factor_of_major_axis: data[pos + 6],
            scale_value_of_major_axis: be_u32_at(data, pos + 7),
            scale_factor_of_minor_axis: data[pos + 11],
            scale_value_of_minor_axis: be_u32_at(data, pos + 12),
            ni: be_u32_at(data, pos + 16),
            nj: be_u32_at(data, pos + 20),
            basic_angle: be_u32_at(data, pos + 24),
            subdivisions_of_basic_angle: be_u32_at(data, pos + 28),
            la1: be_u32_at(data, pos + 32),
            lo1: be_u32_at(data, pos + 36),
            resolution_and_component_flags: data[pos + 40],
            la2: be_u32_at(data, pos + 41),
            lo2: be_u32_at(data, pos + 45),
            di: be_u32_at(data, pos + 49),
            dj: be_u32_at(data, pos + 53),
            scanning_mode: data[pos + 57],
        }
    }

    /// Reads the 58-byte template from a grid definition section's body.
    pub fn read(data: &[u8], pos: &mut usize) -> (r: Result<GridDefinitionTemplate3_0, Error>)
        ensures
            r is Ok <==> *old(pos) + 58 <= data@.len(),
            r matches Ok(t) ==> t == Self::parsed_at(data@, *old(pos) as int)
                && *final(pos) == *old(pos) + 58,
            r matches Err(e) ==> e == Error::UnexpectedEndOfInput,
    {
        let shape_of_earth = match read_u8(data, pos) {
            Ok(v) => v,
            Err(e) => return Err(e),
        };
        let scale_factor_of_radius = match read_u8(data, pos) {
            Ok(v) => v,
            Err(e) => return Err(e),
        };
        let scale_value_of_radius = match read_u32_be(data, pos) {
            Ok(v) => v,
            Err(e) => return Err(e),
        };
        let scale_factor_of_major_axis = match read_u8(data, pos) {
            Ok(v) => v,
            Err(e) => return Err(e),
        };
        let scale_value_of_major_axis = match read_u32_be(data, pos) {
            Ok(v) => v,
            Err(e) => return Err(e),
        };
        let scale_factor_of_minor_axis = match read_u8(data, pos) {
            Ok(v) => v,
            Err(e) => return Err(e),
        };
        let scale_value_of_minor_axis = match read_u32_be(data, pos) {
            Ok(v) => v,
            Err(e) => return Err(e),
        };
        let ni = match read_u32_be(data, pos) {
            Ok(v) => v,
            Err(e) => return Err(e),
        };
        let nj = match read_u32_be(data, pos) {
            Ok(v) => v,
            Err(e) => return Err(e),
        };
        let basic_angle = match read_u32_be(data, pos) {
            Ok(v) => v,
            Err(e) => return Err(e),
        };
        let subdivisions_of_basic_angle = match read_u32_be(data, pos) {
            Ok(v) => v,
            Err(e) => return Err(e),
        };
        let la1 = match read_u32_be(data, pos) {
            Ok(v) => v,
            Err(e) => return Err(e),
        };
        let lo1 = match read_u32_be(data, pos) {
            Ok(v) => v,
            Err(e) => return Err(e),
        };
        let resolution_and_component_flags = match read_u8(data, pos) {
            Ok(v) => v,
            Err(e) => return Err(e),
        };
        let la2 = match read_u32_be(data, pos) {
            Ok(v) => v,
            Err(e) => return Err(e),
        };
        let lo2 = match read_u32_be(data, pos) {
            Ok(v) => v,
            Err(e) => return Err(e),
        };
        let di = match read_u32_be(data, pos) {
            Ok(v) => v,
            Err(e) => return Err(e),
        };
        let dj = match read_u32_be(data, pos) {
            Ok(v) => v,
            Err(e) => return Err(e),
        };
        let scanning_mode = match read_u8(data, pos) {
            Ok(v) => v,
            Err(e) => return Err(e),
        };
        Ok(GridDefinitionTemplate3_0 {
            shape_of_earth,
            scale_factor_of_radius,
            scale_value_of_radius,
            scale_factor_of_major_axis,
            scale_value_of_major_axis,
            scale_factor_of_minor_axis,
            scale_value_of_minor_axis,
            ni,
            nj,
            basic_angle,
            subdivisions_of_basic_angle,
            la1,
            lo1,
            resolution_and_component_flags,
            la2,
            lo2,
            di,
            dj,
            scanning_mode,
        })
    }
}

} // verus!
