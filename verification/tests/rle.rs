//! Tests of the template 7.200 run-length decoder.

use tinygrib::templates::DataRepresentationTemplate5_200;
use tinygrib::templates::read_data_7_200;
use tinygrib::message::DataRepresentationSectionHeader;
use tinygrib::{Error, ErrorKind};

fn drs_header(number_of_values: u32) -> DataRepresentationSectionHeader {
    DataRepresentationSectionHeader {
        section_length: 11,
        number_of_values,
        template_number: 200,
    }
}

fn template(number_of_bits: u8, mv: u16, table: Vec<u16>) -> DataRepresentationTemplate5_200 {
    DataRepresentationTemplate5_200 {
        number_of_bits,
        mv,
        mvl: table.len() as u16,
        decimal_scale_factor: 0,
        mvl_scaled_representative_values: table,
    }
}

#[test]
fn literal_runs_decode_one_element_per_byte() {
    let tmpl = template(8, 10, vec![100, 200, 300]);
    let payload = [3u8, 3, 3];
    let values = read_data_7_200(&payload, 3, &drs_header(3), &tmpl).unwrap();
    assert_eq!(values, vec![Some(300), Some(300), Some(300)]);
}

#[test]
fn literal_runs_level_zero_is_missing() {
    let tmpl = template(8, 10, vec![100, 200, 300]);
    let payload = [0u8, 0, 0];
    let values = read_data_7_200(&payload, 3, &drs_header(3), &tmpl).unwrap();
    assert_eq!(values, vec![None, None, None]);
}

#[test]
fn single_continuation_extends_the_run() {
    // mv = 10: the continuation byte 12 adds (12 - 10 - 1) * 1 = 1 to the
    // run, so level 1 repeats twice before level 2's run of one.
    let tmpl = template(8, 10, vec![100, 200, 300]);
    let payload = [1u8, 12, 2];
    let values = read_data_7_200(&payload, 3, &drs_header(3), &tmpl).unwrap();
    assert_eq!(values, vec![Some(100), Some(100), Some(200)]);
}

#[test]
fn continuation_of_the_lowest_value_adds_nothing() {
    // The byte mv + 1 carries digit 0: the run stays at length one.
    let tmpl = template(8, 10, vec![100, 200, 300]);
    let payload = [1u8, 11, 2];
    let values = read_data_7_200(&payload, 3, &drs_header(3), &tmpl).unwrap();
    assert_eq!(values, vec![Some(100), Some(200)]);
}

#[test]
fn two_continuation_bytes_use_the_growing_multiplier() {
    // mv = 250, radix 255 - 250 = 5: bytes 252, 253 extend the run by
    // (252 - 251) * 1 + (253 - 251) * 5 = 11, a run of twelve in all.
    let tmpl = template(8, 250, vec![7]);
    let payload = [1u8, 252, 253];
    let values = read_data_7_200(&payload, 3, &drs_header(12), &tmpl).unwrap();
    assert_eq!(values, vec![Some(7); 12]);
}

#[test]
fn unsupported_bit_count_fails_without_panic() {
    let tmpl = template(16, 10, vec![100]);
    let payload = [1u8, 1];
    let r = read_data_7_200(&payload, 2, &drs_header(2), &tmpl);
    assert_eq!(r, Err(Error::UnsupportedNumberOfBits(16)));
    assert_eq!(Error::UnsupportedNumberOfBits(16).kind(), ErrorKind::UnsupportedData);
}

#[test]
fn level_past_the_table_fails_without_panic() {
    // Level 4 needs table entry 3, but the table has three entries.
    let tmpl = template(8, 10, vec![100, 200, 300]);
    let payload = [4u8, 4, 4];
    let r = read_data_7_200(&payload, 3, &drs_header(3), &tmpl);
    assert_eq!(r, Err(Error::LevelOutOfRange(4)));
    assert_eq!(Error::LevelOutOfRange(4).kind(), ErrorKind::InvalidData);
}

#[test]
fn empty_payload_fails_as_a_short_read() {
    let tmpl = template(8, 10, vec![100]);
    let r = read_data_7_200(&[], 0, &drs_header(0), &tmpl);
    assert_eq!(r, Err(Error::UnexpectedEndOfInput));
    assert_eq!(Error::UnexpectedEndOfInput.kind(), ErrorKind::IO);
}

#[test]
fn payload_shorter_than_declared_fails_as_a_short_read() {
    let tmpl = template(8, 10, vec![100]);
    let payload = [1u8, 1];
    let r = read_data_7_200(&payload, 5, &drs_header(5), &tmpl);
    assert_eq!(r, Err(Error::UnexpectedEndOfInput));
}
