//! Tests of the grid, product and data representation template readers.

use tinygrib::templates::{DataRepresentationTemplate5_200, GridDefinitionTemplate3_0,
    ProductDefinitionTemplate4_0, ProductDefinitionTemplate4_8,
    ProductDefinitionTemplate8TimeRange};
use tinygrib::Error;

fn push_u16(out: &mut Vec<u8>, v: u16) {
    out.extend_from_slice(&v.to_be_bytes());
}

fn push_u32(out: &mut Vec<u8>, v: u32) {
    out.extend_from_slice(&v.to_be_bytes());
}

fn grid_body() -> Vec<u8> {
    let mut b = Vec::new();
    b.push(6); // shape_of_earth
    b.push(1); // scale_factor_of_radius
    push_u32(&mut b, 6371000);
    b.push(2);
    push_u32(&mut b, 6378137);
    b.push(3);
    push_u32(&mut b, 6356752);
    push_u32(&mut b, 3); // ni
    push_u32(&mut b, 2); // nj
    push_u32(&mut b, 0); // basic_angle
    push_u32(&mut b, 0xFFFFFFFF); // subdivisions_of_basic_angle
    push_u32(&mut b, 47958333); // la1
    push_u32(&mut b, 118006250); // lo1
    b.push(0x30); // resolution_and_component_flags
    push_u32(&mut b, 20391667); // la2
    push_u32(&mut b, 150000000); // lo2
    push_u32(&mut b, 12500); // di
    push_u32(&mut b, 8333); // dj
    b.push(0); // scanning_mode
    b
}

#[test]
fn grid_template_reads_every_field() {
    let body = grid_body();
    assert_eq!(body.len(), 58);
    let mut pos = 0usize;
    let t = GridDefinitionTemplate3_0::read(&body, &mut pos).unwrap();
    assert_eq!(pos, 58);
    assert_eq!(t.shape_of_earth, 6);
    assert_eq!(t.scale_factor_of_radius, 1);
    assert_eq!(t.scale_value_of_radius, 6371000);
    assert_eq!(t.scale_factor_of_major_axis, 2);
    assert_eq!(t.scale_value_of_major_axis, 6378137);
    assert_eq!(t.scale_factor_of_minor_axis, 3);
    assert_eq!(t.scale_value_of_minor_axis, 6356752);
    assert_eq!(t.ni, 3);
    assert_eq!(t.nj, 2);
    assert_eq!(t.basic_angle, 0);
    assert_eq!(t.subdivisions_of_basic_angle, 0xFFFFFFFF);
    assert_eq!(t.la1, 47958333);
    assert_eq!(t.lo1, 118006250);
    assert_eq!(t.resolution_and_component_flags, 0x30);
    assert_eq!(t.la2, 20391667);
    assert_eq!(t.lo2, 150000000);
    assert_eq!(t.di, 12500);
    assert_eq!(t.dj, 8333);
    assert_eq!(t.scanning_mode, 0);
}

#[test]
fn grid_template_short_body_is_a_short_read() {
    let body = grid_body();
    let mut pos = 0usize;
    let r = GridDefinitionTemplate3_0::read(&body[..57], &mut pos);
    assert_eq!(r, Err(Error::UnexpectedEndOfInput));
}

fn product_4_0_body() -> Vec<u8> {
    let mut b = Vec::new();
    b.push(1); // parameter_category
    b.push(8); // parameter_number
    b.push(0); // type_of_generating_process
    b.push(151); // background_generating_process_identifier
    b.push(2); // analysis_or_forecast_generating_process_identifier
    push_u16(&mut b, 3); // hours_of_observational_data_cutoff
    b.push(30); // minutes_of_observational_data_cutoff
    b.push(0); // indicator_of_unit_of_time_range
    push_u32(&mut b, 10); // forecast_time
    b.push(1); // type_of_first_fixed_surface
    b.push(0); // scale_factor_of_first_fixed_surface
    push_u32(&mut b, 0); // scaled_value_of_first_fixed_surface
    b.push(255); // type_of_second_fixed_surface
    b.push(0); // scale_factor_of_second_fixed_surface
    push_u32(&mut b, 0); // scaled_value_of_second_fixed_surface
    b
}

#[test]
fn product_template_4_0_reads_every_field() {
    let body = product_4_0_body();
    assert_eq!(body.len(), 25);
    let mut pos = 0usize;
    let t = ProductDefinitionTemplate4_0::read(&body, &mut pos).unwrap();
    assert_eq!(pos, 25);
    assert_eq!(t.parameter_category, 1);
    assert_eq!(t.parameter_number, 8);
    assert_eq!(t.type_of_generating_process, 0);
    assert_eq!(t.background_generating_process_identifier, 151);
    assert_eq!(t.analysis_or_forecast_generating_process_identifier, 2);
    assert_eq!(t.hours_of_observational_data_cutoff, 3);
    assert_eq!(t.minutes_of_observational_data_cutoff, 30);
    assert_eq!(t.indicator_of_unit_of_time_range, 0);
    assert_eq!(t.forecast_time, 10);
    assert_eq!(t.type_of_first_fixed_surface, 1);
    assert_eq!(t.scaled_value_of_first_fixed_surface, 0);
    assert_eq!(t.type_of_second_fixed_surface, 255);
}

fn time_range_body(statistical_process: u8) -> Vec<u8> {
    let mut b = Vec::new();
    push_u32(&mut b, 4); // total_number_of_data_values_missing
    b.push(statistical_process);
    b.push(2); // type_of_time_increment
    b.push(1); // indicator_of_unit_of_time
    push_u32(&mut b, 60); // length_of_the_time_range
    b.push(13); // indicator_of_unit_of_length_of_time_range
    push_u32(&mut b, 5); // time_increment
    b
}

#[test]
fn time_range_reads_every_field() {
    let body = time_range_body(196);
    assert_eq!(body.len(), 16);
    let mut pos = 0usize;
    let t = ProductDefinitionTemplate8TimeRange::read(&body, &mut pos).unwrap();
    assert_eq!(pos, 16);
    assert_eq!(t.total_number_of_data_values_missing, 4);
    assert_eq!(t.statistical_process, 196);
    assert_eq!(t.type_of_time_increment, 2);
    assert_eq!(t.indicator_of_unit_of_time, 1);
    assert_eq!(t.length_of_the_time_range, 60);
    assert_eq!(t.indicator_of_unit_of_length_of_time_range, 13);
    assert_eq!(t.time_increment, 5);
}

#[test]
fn product_template_4_8_reads_its_time_ranges() {
    let mut body = product_4_0_body();
    push_u16(&mut body, 2026); // year
    body.push(1); // month
    body.push(2); // day
    body.push(3); // hour
    body.push(4); // minute
    body.push(5); // second
    body.push(2); // count of time ranges
    body.extend_from_slice(&time_range_body(1));
    body.extend_from_slice(&time_range_body(196));
    let mut pos = 0usize;
    let t = ProductDefinitionTemplate4_8::read(&body, &mut pos).unwrap();
    assert_eq!(pos, body.len());
    assert_eq!(t.parameter_category, 1);
    assert_eq!(t.year, 2026);
    assert_eq!(t.month, 1);
    assert_eq!(t.second, 5);
    assert_eq!(t.time_ranges.len(), 2);
    assert_eq!(t.time_ranges[0].statistical_process, 1);
    assert_eq!(t.time_ranges[1].statistical_process, 196);
}

#[test]
fn product_template_4_8_missing_time_range_is_a_short_read() {
    let mut body = product_4_0_body();
    push_u16(&mut body, 2026);
    body.extend_from_slice(&[1, 2, 3, 4, 5]);
    body.push(2); // two ranges announced ...
    body.extend_from_slice(&time_range_body(1)); // ... one present
    let mut pos = 0usize;
    let r = ProductDefinitionTemplate4_8::read(&body, &mut pos);
    assert_eq!(r, Err(Error::UnexpectedEndOfInput));
}

fn drs_5_200_body(number_of_bits: u8, mv: u16, table: &[u16], scale_byte: u8) -> Vec<u8> {
    let mut b = Vec::new();
    b.push(number_of_bits);
    push_u16(&mut b, mv);
    push_u16(&mut b, table.len() as u16);
    b.push(scale_byte);
    for v in table {
        push_u16(&mut b, *v);
    }
    b
}

#[test]
fn data_representation_template_reads_its_table() {
    let body = drs_5_200_body(8, 250, &[100, 200, 300], 1);
    let mut pos = 0usize;
    let t = DataRepresentationTemplate5_200::read(&body, &mut pos).unwrap();
    assert_eq!(pos, body.len());
    assert_eq!(t.number_of_bits, 8);
    assert_eq!(t.mv, 250);
    assert_eq!(t.mvl, 3);
    assert_eq!(t.decimal_scale_factor, 1);
    assert_eq!(t.mvl_scaled_representative_values, vec![100, 200, 300]);
}

#[test]
fn data_representation_scale_factor_is_sign_and_magnitude() {
    // The high bit of the one-byte field is the sign.
    let body = drs_5_200_body(8, 250, &[], 0x83);
    let mut pos = 0usize;
    let t = DataRepresentationTemplate5_200::read(&body, &mut pos).unwrap();
    assert_eq!(t.decimal_scale_factor, -3);
}

#[test]
fn data_representation_truncated_table_is_a_short_read() {
    let body = drs_5_200_body(8, 250, &[100, 200, 300], 1);
    let mut pos = 0usize;
    let r = DataRepresentationTemplate5_200::read(&body[..body.len() - 1], &mut pos);
    assert_eq!(r, Err(Error::UnexpectedEndOfInput));
}
