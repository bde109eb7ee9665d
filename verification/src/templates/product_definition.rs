//! Templates 4.0 and 4.8: what physical quantity and time semantics a data
//! section encodes.

use vstd::prelude::*;

use crate::bytes::{be_u16_at, be_u32_at, read_u16_be, read_u32_be, read_u8};
use crate::Error;

verus! {

/// Template 4.0: an analysis or forecast at a horizontal level or layer at a
/// point in time.  `(parameter_category, parameter_number)` identify the
/// physical variable; the pair is the caller's dispatch key.
#[derive(Debug, Clone, Copy, PartialEq, Eq, Structural)]
pub struct ProductDefinitionTemplate4_0 {
    pub parameter_category: u8,
    pub parameter_number: u8,
    pub type_of_generating_process: u8,
    pub background_generating_process_identifier: u8,
    pub analysis_or_forecast_generating_process_identifier: u8,
    pub hours_of_observational_data_cutoff: u16,
    pub minutes_of_observational_data_cutoff: u8,
    pub indicator_of_unit_of_time_range: u8,
    pub forecast_time: u32,
    pub type_of_first_fixed_surface: u8,
    pub scale_factor_of_first_fixed_surface: u8,
    pub scaled_value_of_first_fixed_surface: u32,
    pub type_of_second_fixed_surface: u8,
    pub scale_factor_of_second_fixed_surface: u8,
    pub scaled_value_of_second_fixed_surface: u32,
}

impl ProductDefinitionTemplate4_0 {
    /// The template spelled by the 25 bytes at `pos`.
    pub open spec fn parsed_at(data: Seq<u8>, pos: int) -> ProductDefinitionTemplate4_0 {
        ProductDefinitionTemplate4_0 {
            parameter_category: data[pos],
            parameter_number: data[pos + 1],
            type_of_generating_process: data[pos + 2],
            background_generating_process_identifier: data[pos + 3],
            analysis_or_forecast_generating_process_identifier: data[pos + 4],
            hours_of_observational_data_cutoff: be_u16_at(data, pos + 5),
            minutes_of_observational_data_cutoff: data[pos + 7],
            indicator_of_unit_of_time_range: data[pos + 8],
            forecast_time: be_u32_at(data, pos + 9),
            type_of_first_fixed_surface: data[pos + 13],
            scale_factor_of_first_fixed_surface: data[pos + 14],
            scaled_value_of_first_fixed_surface: be_u32_at(data, pos + 15),
            type_of_second_fixed_surface: data[pos + 19],
            scale_factor_of_second_fixed_surface: data[pos + 20],
            scaled_value_of_second_fixed_surface: be_u32_at(data, pos + 21),
        }
    }

    /// Reads the 25-byte template from a product definition section's body.
    pub fn read(data: &[u8], pos: &mut usize) -> (r: Result<ProductDefinitionTemplate4_0, Error>)
        ensures
            r is Ok <==> *old(pos) + 25 <= data@.len(),
            r matches Ok(t) ==> t == Self::parsed_at(data@, *old(pos) as int)
                && *final(pos) == *old(pos) + 25,
            r matches Err(e) ==> e == Error::UnexpectedEndOfInput,
    {
        let parameter_category = match read_u8(data, pos) {
            Ok(v) => v,
            Err(e) => return Err(e),
        };
        let parameter_number = match read_u8(data, pos) {
            Ok(v) => v,
            Err(e) => return Err(e),
        };
        let type_of_generating_process = match read_u8(data, pos) {
            Ok(v) => v,
            Err(e) => return Err(e),
        };
        let background_generating_process_identifier = match read_u8(data, pos) {
            Ok(v) => v,
            Err(e) => return Err(e),
        };
        let analysis_or_forecast_generating_process_identifier = match read_u8(data, pos) {
            Ok(v) => v,
            Err(e) => return Err(e),
        };
        let hours_of_observational_data_cutoff = match read_u16_be(data, pos) {
            Ok(v) => v,
            Err(e) => return Err(e),
        };
        let minutes_of_observational_data_cutoff = match read_u8(data, pos) {
            Ok(v) => v,
            Err(e) => return Err(e),
        };
        let indicator_of_unit_of_time_range = match read_u8(data, pos) {
            Ok(v) => v,
            Err(e) => return Err(e),
        };
        let forecast_time = match read_u32_be(data, pos) {
            Ok(v) => v,
            Err(e) => return Err(e),
        };
        let type_of_first_fixed_surface = match read_u8(data, pos) {
            Ok(v) => v,
            Err(e) => return Err(e),
        };
        let scale_factor_of_first_fixed_surface = match read_u8(data, pos) {
            Ok(v) => v,
            Err(e) => return Err(e),
        };
        let scaled_value_of_first_fixed_surface = match read_u32_be(data, pos) {
            Ok(v) => v,
            Err(e) => return Err(e),
        };
        let type_of_second_fixed_surface = match read_u8(data, pos) {
            Ok(v) => v,
            Err(e) => return Err(e),
        };
        let scale_factor_of_second_fixed_surface = match read_u8(data, pos) {
            Ok(v) => v,
            Err(e) => return Err(e),
        };
        let scaled_value_of_second_fixed_surface = match read_u32_be(data, pos) {
            Ok(v) => v,
            Err(e) => return Err(e),
        };
        Ok(ProductDefinitionTemplate4_0 {
            parameter_category,
            parameter_number,
            type_of_generating_process,
            background_generating_process_identifier,
            analysis_or_forecast_generating_process_identifier,
            hours_of_observational_data_cutoff,
            minutes_of_observational_data_cutoff,
            indicator_of_unit_of_time_range,
            forecast_time,
            type_of_first_fixed_surface,
            scale_factor_of_first_fixed_surface,
            scaled_value_of_first_fixed_surface,
            type_of_second_fixed_surface,
            scale_factor_of_second_fixed_surface,
            scaled_value_of_second_fixed_surface,
        })
    }
}

/// One statistical time range record of template 4.8.
#[derive(Debug, Clone, Copy, PartialEq, Eq, Structural)]
pub struct ProductDefinitionTemplate8TimeRange {
    pub total_number_of_data_values_missing: u32,
    pub statistical_process: u8,
    pub type_of_time_increment: u8,
    pub indicator_of_unit_of_time: u8,
    pub length_of_the_time_range: u32,
    pub indicator_of_unit_of_length_of_time_range: u8,
    pub time_increment: u32,
}

impl ProductDefinitionTemplate8TimeRange {
    /// The record spelled by the 16 bytes at `pos`.
    pub open spec fn parsed_at(data: Seq<u8>, pos: int) -> ProductDefinitionTemplate8TimeRange {
        ProductDefinitionTemplate8TimeRange {
            total_number_of_data_values_missing: be_u32_at(data, pos),
            statistical_process: data[pos + 4],
            type_of_time_increment: data[pos + 5],
            indicator_of_unit_of_time: data[pos + 6],
            length_of_the_time_range: be_u32_at(data, pos + 7),
            indicator_of_unit_of_length_of_time_range: data[pos + 11],
            time_increment: be_u32_at(data, pos + 12),
        }
    }

    /// Reads one 16-byte time range record.
    pub fn read(data: &[u8], pos: &mut usize)
        -> (r: Result<ProductDefinitionTemplate8TimeRange, Error>)
        ensures
            r is Ok <==> *old(pos) + 16 <= data@.len(),
            r matches Ok(t) ==> t == Self::parsed_at(data@, *old(pos) as int)
                && *final(pos) == *old(pos) + 16,
            r matches Err(e) ==> e == Error::UnexpectedEndOfInput,
    {
        let total_number_of_data_values_missing = match read_u32_be(data, pos) {
            Ok(v) => v,
            Err(e) => return Err(e),
        };
        let statistical_process = match read_u8(data, pos) {
            Ok(v) => v,
            Err(e) => return Err(e),
        };
        let type_of_time_increment = match read_u8(data, pos) {
            Ok(v) => v,
            Err(e) => return Err(e),
        };
        let indicator_of_unit_of_time = match read_u8(data, pos) {
            Ok(v) => v,
            Err(e) => return Err(e),
        };
        let length_of_the_time_range = match read_u32_be(data, pos) {
            Ok(v) => v,
            Err(e) => return Err(e),
        };
        let indicator_of_unit_of_length_of_time_range = match read_u8(data, pos) {
            Ok(v) => v,
            Err(e) => return Err(e),
        };
        let time_increment = match read_u32_be(data, pos) {
            Ok(v) => v,
            Err(e) => return Err(e),
        };
        Ok(ProductDefinitionTemplate8TimeRange {
            total_number_of_data_values_missing,
            statistical_process,
            type_of_time_increment,
            indicator_of_unit_of_time,
            length_of_the_time_range,
            indicator_of_unit_of_length_of_time_range,
            time_increment,
        })
    }
}

/// Template 4.8: a statistically processed field (average, accumulation,
/// extreme value) over a continuous or non-continuous time interval, with a
/// reference time and an ordered sequence of time range records.
#[derive(Debug, Clone, PartialEq, Eq)]
pub struct ProductDefinitionTemplate4_8 {
    pub parameter_category: u8,
    pub parameter_number: u8,
    pub type_of_generating_process: u8,
    pub background_generating_process_identifier: u8,
    pub analysis_or_forecast_generating_process_identifier: u8,
    pub hours_of_observational_data_cutoff: u16,
    pub minutes_of_observational_data_cutoff: u8,
    pub indicator_of_unit_of_time_range: u8,
    pub forecast_time: u32,
    pub type_of_first_fixed_surface: u8,
    pub scale_factor_of_first_fixed_surface: u8,
    pub scaled_value_of_first_fixed_surface: u32,
    pub type_of_second_fixed_surface: u8,
    pub scale_factor_of_second_fixed_surface: u8,
    pub scaled_value_of_second_fixed_surface: u32,
    pub year: u16,
    pub month: u8,
    pub day: u8,
    pub hour: u8,
    pub minute: u8,
    pub second: u8,
    pub time_ranges: Vec<ProductDefinitionTemplate8TimeRange>,
}

impl ProductDefinitionTemplate4_8 {
    /// True when `t` is the template spelled by the bytes at `pos`: 32 fixed
    /// bytes, one count byte, then that many 16-byte time range records.
    pub open spec fn parses_to(data: Seq<u8>, pos: int, t: ProductDefinitionTemplate4_8) -> bool {
        let n = data[pos + 32] as int;
        &&& t.parameter_category == data[pos]
        &&& t.parameter_number == data[pos + 1]
        &&& t.type_of_generating_process == data[pos + 2]
        &&& t.background_generating_process_identifier == data[pos + 3]
        &&& t.analysis_or_forecast_generating_process_identifier == data[pos + 4]
        &&& t.hours_of_observational_data_cutoff == be_u16_at(data, pos + 5)
        &&& t.minutes_of_observational_data_cutoff == data[pos + 7]
        &&& t.indicator_of_unit_of_time_range == data[pos + 8]
        &&& t.forecast_time == be_u32_at(data, pos + 9)
        &&& t.type_of_first_fixed_surface == data[pos + 13]
        &&& t.scale_factor_of_first_fixed_surface == data[pos + 14]
        &&& t.scaled_value_of_first_fixed_surface == be_u32_at(data, pos + 15)
        &&& t.type_of_second_fixed_surface == data[pos + 19]
        &&& t.scale_factor_of_second_fixed_surface == data[pos + 20]
        &&& t.scaled_value_of_second_fixed_surface == be_u32_at(data, pos + 21)
        &&& t.year == be_u16_at(data, pos + 25)
        &&& t.month == data[pos + 27]
        &&& t.day == data[pos + 28]
        &&& t.hour == data[pos + 29]
        &&& t.minute == data[pos + 30]
        &&& t.second == data[pos + 31]
        &&& t.time_ranges@.len() == n
        &&& forall|i: int| 0 <= i < n ==> t.time_ranges@[i]
            == ProductDefinitionTemplate8TimeRange::parsed_at(data, pos + 33 + 16 * i)
    }

    /// Reads the template from a product definition section's body: the 32
    /// fixed bytes, a count byte `n`, then exactly `n` time range records.
    #[verifier::loop_isolation(false)]
    pub fn read(data: &[u8], pos: &mut usize) -> (r: Result<ProductDefinitionTemplate4_8, Error>)
        ensures
            r is Ok <==> *old(pos) + 33 <= data@.len()
                && *old(pos) + 33 + 16 * (data@[*old(pos) + 32] as int) <= data@.len(),
            r matches Ok(t) ==> Self::parses_to(data@, *old(pos) as int, t)
                && *final(pos) == *old(pos) + 33 + 16 * (data@[*old(pos) + 32] as int),
            r matches Err(e) ==> e == Error::UnexpectedEndOfInput,
    {
        let parameter_category = match read_u8(data, pos) {
            Ok(v) => v,
            Err(e) => return Err(e),
        };
        let parameter_number = match read_u8(data, pos) {
            Ok(v) => v,
            Err(e) => return Err(e),
        };
        let type_of_generating_process = match read_u8(data, pos) {
            Ok(v) => v,
            Err(e) => return Err(e),
        };
        let background_generating_process_identifier = match read_u8(data, pos) {
            Ok(v) => v,
            Err(e) => return Err(e),
        };
        let analysis_or_forecast_generating_process_identifier = match read_u8(data, pos) {
            Ok(v) => v,
            Err(e) => return Err(e),
        };
        let hours_of_observational_data_cutoff = match read_u16_be(data, pos) {
            Ok(v) => v,
            Err(e) => return Err(e),
        };
        let minutes_of_observational_data_cutoff = match read_u8(data, pos) {
            Ok(v) => v,
            Err(e) => return Err(e),
        };
        let indicator_of_unit_of_time_range = match read_u8(data, pos) {
            Ok(v) => v,
            Err(e) => return Err(e),
        };
        let forecast_time = match read_u32_be(data, pos) {
            Ok(v) => v,
            Err(e) => return Err(e),
        };
        let type_of_first_fixed_surface = match read_u8(data, pos) {
            Ok(v) => v,
            Err(e) => return Err(e),
        };
        let scale_factor_of_first_fixed_surface = match read_u8(data, pos) {
            Ok(v) => v,
            Err(e) => return Err(e),
        };
        let scaled_value_of_first_fixed_surface = match read_u32_be(data, pos) {
            Ok(v) => v,
            Err(e) => return Err(e),
        };
        let type_of_second_fixed_surface = match read_u8(data, pos) {
            Ok(v) => v,
            Err(e) => return Err(e),
        };
        let scale_factor_of_second_fixed_surface = match read_u8(data, pos) {
            Ok(v) => v,
            Err(e) => return Err(e),
        };
        let scaled_value_of_second_fixed_surface = match read_u32_be(data, pos) {
            Ok(v) => v,
            Err(e) => return Err(e),
        };
        let year = match read_u16_be(data, pos) {
            Ok(v) => v,
            Err(e) => return Err(e),
        };
        let month = match read_u8(data, pos) {
            Ok(v) => v,
            Err(e) => return Err(e),
        };
        let day = match read_u8(data, pos) {
            Ok(v) => v,
            Err(e) => return Err(e),
        };
        let hour = match read_u8(data, pos) {
            Ok(v) => v,
            Err(e) => return Err(e),
        };
        let minute = match read_u8(data, pos) {
            Ok(v) => v,
            Err(e) => return Err(e),
        };
        let second = match read_u8(data, pos) {
            Ok(v) => v,
            Err(e) => return Err(e),
        };
        let n = match read_u8(data, pos) {
            Ok(v) => v,
            Err(e) => return Err(e),
        };
        let ghost tr_base = *pos as int;
        let mut time_ranges: Vec<ProductDefinitionTemplate8TimeRange> = Vec::new();
        let mut i: usize = 0;
        while i < n as usize
            invariant
                i <= n as usize,
                *pos == tr_base + 16 * i,
                *pos <= data@.len(),
                tr_base == *old(pos) + 33,
                time_ranges@.len() == i,
                forall|j: int| 0 <= j < i ==> time_ranges@[j]
                    == ProductDefinitionTemplate8TimeRange::parsed_at(data@, tr_base + 16 * j),
            decreases n as int - i as int,
        {
            let tr = match ProductDefinitionTemplate8TimeRange::read(data, pos) {
                Ok(v) => v,
                Err(e) => return Err(e),
            };
            time_ranges.push(tr);
            i = i + 1;
        }
        Ok(ProductDefinitionTemplate4_8 {
            parameter_category,
            parameter_number,
            type_of_generating_process,
            background_generating_process_identifier,
            analysis_or_forecast_generating_process_identifier,
            hours_of_observational_data_cutoff,
            minutes_of_observational_data_cutoff,
            indicator_of_unit_of_time_range,
            forecast_time,
            type_of_first_fixed_surface,
            scale_factor_of_first_fixed_surface,
            scaled_value_of_first_fixed_surface,
            type_of_second_fixed_surface,
            scale_factor_of_second_fixed_surface,
            scaled_value_of_second_fixed_surface,
            year,
            month,
            day,
            hour,
            minute,
            second,
            time_ranges,
        })
    }
}

} // verus!
