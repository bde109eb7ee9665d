//! Tests of the section header readers and their body length accessors.

use tinygrib::message::{BitmapSectionHeader, DataRepresentationSectionHeader, DataSectionHeader,
    GridDefinitionSectionHeader, IdentificationSectionHeader, IndicatorSectionHeader,
    LocalUseSectionHeader, ProductDefinitionSectionHeader, SectionHeader};
use tinygrib::Error;

#[test]
fn section_header_reads_length_and_number() {
    let bytes = [0x00u8, 0x00, 0x00, 0x17, 0x01];
    let mut pos = 0usize;
    let h = SectionHeader::read(&bytes, &mut pos, false).unwrap();
    assert_eq!(h.section_length, 23);
    assert_eq!(h.number_of_section, 1);
    assert_eq!(pos, 5);
}

#[test]
fn section_header_recognizes_the_end_sentinel() {
    let bytes = *b"7777";
    let mut pos = 0usize;
    let h = SectionHeader::read(&bytes, &mut pos, true).unwrap();
    assert_eq!(h.section_length, 4);
    assert_eq!(h.number_of_section, 8);
    assert_eq!(pos, 4);
}

#[test]
fn sentinel_bytes_without_permission_read_as_a_header() {
    let bytes = [0x37u8, 0x37, 0x37, 0x37, 0x05];
    let mut pos = 0usize;
    let h = SectionHeader::read(&bytes, &mut pos, false).unwrap();
    assert_eq!(h.section_length, 0x37373737);
    assert_eq!(h.number_of_section, 5);
}

#[test]
fn ensure_section_number_checks_the_number() {
    let h = SectionHeader { section_length: 23, number_of_section: 1 };
    assert!(h.ensure_section_number(1).is_ok());
    assert_eq!(
        h.ensure_section_number(3),
        Err(Error::SectionNumberMismatch { expected: 3, actual: 1 })
    );
}

#[test]
fn indicator_rejects_other_editions() {
    // reserved (platform order), discipline, edition 1, total length.
    let bytes = [0x02u8, 0x01, 0x00, 0x01, 0, 0, 0, 0, 0, 0, 0, 42];
    let mut pos = 0usize;
    let r = IndicatorSectionHeader::read(&bytes, &mut pos);
    assert_eq!(r, Err(Error::InvalidEditionNumber(1)));
}

#[test]
fn indicator_reads_its_fields() {
    let bytes = [0x02u8, 0x01, 0x07, 0x02, 0, 0, 0, 0, 0, 0, 0, 42];
    let mut pos = 0usize;
    let h = IndicatorSectionHeader::read(&bytes, &mut pos).unwrap();
    assert_eq!(h.identifier, 0x47524942);
    assert_eq!(h.reserved, 0x0102);
    assert_eq!(h.discipline, 7);
    assert_eq!(h.edition_number, 2);
    assert_eq!(h.total_length, 42);
    assert_eq!(pos, 12);
}

#[test]
fn identification_too_short_is_rejected_not_wrapped() {
    // A declared length of 22 is below the 23 fixed bytes and is not the
    // legacy 21-byte form: constructing the section must fail.
    let header = SectionHeader { section_length: 22, number_of_section: 1 };
    let body = [0u8; 32];
    let mut pos = 0usize;
    let r = IdentificationSectionHeader::read(header, &body, &mut pos);
    assert_eq!(r, Err(Error::SectionTooShort { number: 1, length: 22 }));
}

#[test]
fn identification_legacy_length_has_no_template_and_empty_body() {
    let header = SectionHeader { section_length: 21, number_of_section: 1 };
    let body = [
        0u8, 34, 0, 0, 5, 1, 0, 0x07, 0xEA, 1, 2, 3, 4, 5, 0, 1,
    ];
    let mut pos = 0usize;
    let ids = IdentificationSectionHeader::read(header, &body, &mut pos).unwrap();
    assert_eq!(ids.centre, 34);
    assert_eq!(ids.year, 2026);
    assert_eq!(ids.template_number, None);
    assert_eq!(ids.body_len(), 0);
    assert_eq!(pos, 16);
}

#[test]
fn identification_reads_the_template_number() {
    let header = SectionHeader { section_length: 23, number_of_section: 1 };
    let body = [
        0u8, 34, 0, 0, 5, 1, 0, 0x07, 0xEA, 1, 2, 3, 4, 5, 0, 1, 0, 0,
    ];
    let mut pos = 0usize;
    let ids = IdentificationSectionHeader::read(header, &body, &mut pos).unwrap();
    assert_eq!(ids.template_number, Some(0));
    assert_eq!(ids.body_len(), 0);
    assert_eq!(pos, 18);
}

#[test]
fn identification_wrong_number_is_a_mismatch() {
    let header = SectionHeader { section_length: 23, number_of_section: 9 };
    let body = [0u8; 18];
    let mut pos = 0usize;
    let r = IdentificationSectionHeader::read(header, &body, &mut pos);
    assert_eq!(r, Err(Error::SectionNumberMismatch { expected: 1, actual: 9 }));
}

#[test]
fn local_use_too_short_is_rejected() {
    let header = SectionHeader { section_length: 4, number_of_section: 2 };
    let mut pos = 0usize;
    let r = LocalUseSectionHeader::read(header, &[], &mut pos);
    assert_eq!(r, Err(Error::SectionTooShort { number: 2, length: 4 }));
}

#[test]
fn body_lengths_subtract_each_sections_fixed_overhead() {
    let loc = LocalUseSectionHeader { section_length: 12 };
    assert_eq!(loc.body_len(), 7);
    let gds = GridDefinitionSectionHeader {
        section_length: 72,
        source_of_grid_definition: 0,
        number_of_data_points: 6,
        number_of_octects_for_number_of_points: 0,
        interpretation_of_number_of_points: 0,
        template_number: 0,
    };
    assert_eq!(gds.body_len(), 58);
    let pds = ProductDefinitionSectionHeader { section_length: 34, nv: 0, template_number: 0 };
    assert_eq!(pds.body_len(), 25);
    let drs = DataRepresentationSectionHeader {
        section_length: 17,
        number_of_values: 6,
        template_number: 200,
    };
    assert_eq!(drs.body_len(), 6);
    let bitmap = BitmapSectionHeader { section_length: 6, bit_map_indicator: 255 };
    assert_eq!(bitmap.body_len(), 0);
    let data = DataSectionHeader { section_length: 11 };
    assert_eq!(data.body_len(), 6);
}

#[test]
fn grid_definition_too_short_is_rejected() {
    let header = SectionHeader { section_length: 13, number_of_section: 3 };
    let body = [0u8; 16];
    let mut pos = 0usize;
    let r = GridDefinitionSectionHeader::read(&header, &body, &mut pos);
    assert_eq!(r, Err(Error::SectionTooShort { number: 3, length: 13 }));
}

#[test]
fn grid_definition_reads_its_fixed_fields() {
    let header = SectionHeader { section_length: 72, number_of_section: 3 };
    let body = [0u8, 0, 0, 0, 6, 0, 0, 0, 0];
    let mut pos = 0usize;
    let gds = GridDefinitionSectionHeader::read(&header, &body, &mut pos).unwrap();
    assert_eq!(gds.number_of_data_points, 6);
    assert_eq!(gds.template_number, 0);
    assert_eq!(pos, 9);
}

#[test]
fn data_section_read_checks_number_and_length() {
    let ok = SectionHeader { section_length: 11, number_of_section: 7 };
    assert_eq!(DataSectionHeader::read(&ok).unwrap().section_length, 11);
    let wrong = SectionHeader { section_length: 11, number_of_section: 6 };
    assert_eq!(
        DataSectionHeader::read(&wrong),
        Err(Error::SectionNumberMismatch { expected: 7, actual: 6 })
    );
    let short = SectionHeader { section_length: 4, number_of_section: 7 };
    assert_eq!(
        DataSectionHeader::read(&short),
        Err(Error::SectionTooShort { number: 7, length: 4 })
    );
}

#[test]
fn bitmap_read_checks_number_and_length() {
    let header = SectionHeader { section_length: 6, number_of_section: 6 };
    let body = [255u8];
    let mut pos = 0usize;
    let bitmap = BitmapSectionHeader::read(&header, &body, &mut pos).unwrap();
    assert_eq!(bitmap.bit_map_indicator, 255);
    let short = SectionHeader { section_length: 5, number_of_section: 6 };
    let mut pos = 0usize;
    assert_eq!(
        BitmapSectionHeader::read(&short, &body, &mut pos),
        Err(Error::SectionTooShort { number: 6, length: 5 })
    );
}
