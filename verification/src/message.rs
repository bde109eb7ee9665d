//! The section headers of a GRIB2 message.
//!
//! A message is a fixed sequence of typed sections.  Sections 1 to 7 share a
//! five-byte prefix (a 32-bit length and a section number); every concrete
//! section type then reads its own fixed fields and exposes the byte length
//! of its variable body as `body_len()`, the declared section length minus
//! the section's fixed overhead.  A section whose declared length is smaller
//! than that overhead is rejected when it is read, so `body_len()` can never
//! underflow.

use vstd::prelude::*;

use crate::bytes::{be_u16_at, be_u32_at, be_u64_at, le_u16_at, read_u16_be, read_u16_le,
    read_u32_be, read_u64_be, read_u8};
use crate::Error;

verus! {

/// Section 0: the indicator section.
///
/// Opens every message right after the four magic bytes.  Its
/// `total_length` covers the whole message including this section; it is
/// informational only, framing uses the per-section lengths.
#[derive(Debug, Clone, Copy, PartialEq, Eq)]
pub struct IndicatorSectionHeader {
    pub identifier: u32,
    pub reserved: u16,
    pub discipline: u8,
    pub edition_number: u8,
    pub total_length: u64,
}

impl IndicatorSectionHeader {
    /// The indicator spelled by the twelve bytes at `pos` (the magic is not
    /// part of them).  `reserved` is a legacy field kept in the platform
    /// byte order, here little-endian.
    pub open spec fn parsed_at(data: Seq<u8>, pos: int) -> IndicatorSectionHeader {
        IndicatorSectionHeader {
            identifier: 0x47524942,
            reserved: le_u16_at(data, pos),
            discipline: data[pos + 2],
            edition_number: data[pos + 3],
            total_length: be_u64_at(data, pos + 4),
        }
    }

    /// Reads section 0.  Only edition 2 is accepted; any other edition is a
    /// format error raised before anything further is read.
    pub fn read(data: &[u8], pos: &mut usize) -> (r: Result<IndicatorSectionHeader, Error>)
        ensures
            r is Ok <==> *old(pos) + 12 <= data@.len() && data@[*old(pos) + 3] == 2,
            r matches Ok(h) ==> h == Self::parsed_at(data@, *old(pos) as int)
                && *final(pos) == *old(pos) + 12,
            r matches Err(e) ==> e == (if data@.len() < *old(pos) + 4 {
                Error::UnexpectedEndOfInput
            } else if data@[*old(pos) + 3] != 2 {
                Error::InvalidEditionNumber(data@[*old(pos) + 3])
            } else {
                Error::UnexpectedEndOfInput
            }),
    {
        let reserved = match read_u16_le(data, pos) {
            Ok(v) => v,
            Err(e) => return Err(e),
        };
        let discipline = match read_u8(data, pos) {
            Ok(v) => v,
            Err(e) => return Err(e),
        };
        let edition_number = match read_u8(data, pos) {
            Ok(v) => v,
            Err(e) => return Err(e),
        };
        if edition_number != 2 {
            return Err(Error::InvalidEditionNumber(edition_number));
        }
        let total_length = match read_u64_be(data, pos) {
            Ok(v) => v,
            Err(e) => return Err(e),
        };
        Ok(IndicatorSectionHeader {
            identifier: 0x47524942,
            reserved,
            discipline,
            edition_number,
            total_length,
        })
    }
}

/// The five-byte prefix common to sections 1 to 7: the section's total byte
/// length (header included) and its section number.
#[derive(Debug, Clone, Copy, PartialEq, Eq, Structural)]
pub struct SectionHeader {
    pub section_length: u32,
    pub number_of_section: u8,
}

impl SectionHeader {
    /// The header spelled by the five bytes at `pos`.
    pub open spec fn parsed_at(data: Seq<u8>, pos: int) -> SectionHeader {
        SectionHeader { section_length: be_u32_at(data, pos), number_of_section: data[pos + 4] }
    }

    /// True when the four bytes at `pos` spell the end-of-message sentinel
    /// `7777`.
    pub open spec fn end_sentinel_at(data: Seq<u8>, pos: int) -> bool {
        be_u32_at(data, pos) == 0x37373737u32
    }

    /// Whether a header read at `pos` succeeds: four bytes suffice for the
    /// sentinel when it is allowed, five are needed otherwise.
    pub open spec fn read_ok(data: Seq<u8>, pos: int, allow_end: bool) -> bool {
        if allow_end && pos + 4 <= data.len() && Self::end_sentinel_at(data, pos) {
            true
        } else {
            pos + 5 <= data.len()
        }
    }

    /// The header a successful read at `pos` returns: the synthetic terminal
    /// header for the sentinel, the five spelled bytes otherwise.
    pub open spec fn read_result(data: Seq<u8>, pos: int, allow_end: bool) -> SectionHeader {
        if allow_end && Self::end_sentinel_at(data, pos) {
            SectionHeader { section_length: 4, number_of_section: 8 }
        } else {
            Self::parsed_at(data, pos)
        }
    }

    /// Where a successful read at `pos` leaves the cursor.
    pub open spec fn read_end(data: Seq<u8>, pos: int, allow_end: bool) -> int {
        if allow_end && Self::end_sentinel_at(data, pos) {
            pos + 4
        } else {
            pos + 5
        }
    }

    /// Reads the common header.  With `allow_end`, four bytes equal to the
    /// sentinel `7777` yield the synthetic End-Section header (length 4,
    /// number 8) without reading further.
    pub fn read(data: &[u8], pos: &mut usize, allow_end: bool) -> (r: Result<SectionHeader, Error>)
        ensures
            r is Ok <==> Self::read_ok(data@, *old(pos) as int, allow_end),
            r matches Ok(h) ==> h == Self::read_result(data@, *old(pos) as int, allow_end)
                && *final(pos) == Self::read_end(data@, *old(pos) as int, allow_end),
            r matches Err(e) ==> e == Error::UnexpectedEndOfInput,
    {
        let buf = match read_u32_be(data, pos) {
            Ok(v) => v,
            Err(e) => return Err(e),
        };
        if allow_end && buf == 0x37373737 {
            Ok(SectionHeader { section_length: 4, number_of_section: 8 })
        } else {
            let number_of_section = match read_u8(data, pos) {
                Ok(v) => v,
                Err(e) => return Err(e),
            };
            Ok(SectionHeader { section_length: buf, number_of_section })
        }
    }

    /// Checks this header against the section number the decoder expects
    /// here; the primary self-consistency check against a desynchronized
    /// stream.
    pub fn ensure_section_number(&self, number: u8) -> (r: Result<(), Error>)
        ensures
            r is Ok <==> self.number_of_section == number,
            r matches Err(e) ==> e == (Error::SectionNumberMismatch {
                expected: number,
                actual: self.number_of_section,
            }),
    {
        if self.number_of_section != number {
            return Err(Error::SectionNumberMismatch {
                expected: number,
                actual: self.number_of_section,
            });
        }
        Ok(())
    }
}

/// Section 1: the identification section.
///
/// A declared length of exactly 21 bytes is the legacy minimal form without
/// a template number; every other valid length is at least 23.
#[derive(Debug, Clone, Copy, PartialEq, Eq)]
pub struct IdentificationSectionHeader {
    pub section_length: u32,
    pub centre: u16,
    pub sub_centre: u16,
    pub tables_version: u8,
    pub local_tables_version: u8,
    pub significance_of_reference_time: u8,
    pub year: u16,
    pub month: u8,
    pub day: u8,
    pub hour: u8,
    pub minute: u8,
    pub second: u8,
    pub production_status_of_processed_data: u8,
    pub type_of_processed_data: u8,
    pub template_number: Option<u16>,
}

impl IdentificationSectionHeader {
    /// A declared length this section accepts.
    pub open spec fn wf(self) -> bool {
        self.section_length == 21 || self.section_length >= 23
    }

    /// How many bytes of fixed fields follow the five-byte header for a
    /// section of length `section_length`.
    pub open spec fn spec_fixed_len(section_length: u32) -> int {
        if section_length == 21 {
            16
        } else {
            18
        }
    }

    /// The section spelled by the fixed fields at `pos` (right after the
    /// five-byte header) for a section of length `section_length`.
    pub open spec fn parsed_at(section_length: u32, data: Seq<u8>, pos: int)
        -> IdentificationSectionHeader {
        IdentificationSectionHeader {
            section_length,
            centre: be_u16_at(data, pos),
            sub_centre: be_u16_at(data, pos + 2),
            tables_version: data[pos + 4],
            local_tables_version: data[pos + 5],
            significance_of_reference_time: data[pos + 6],
            year: be_u16_at(data, pos + 7),
            month: data[pos + 9],
            day: data[pos + 10],
            hour: data[pos + 11],
            minute: data[pos + 12],
            second: data[pos + 13],
            production_status_of_processed_data: data[pos + 14],
            type_of_processed_data: data[pos + 15],
            template_number: if section_length == 21 {
                None
            } else {
                Some(be_u16_at(data, pos + 16))
            },
        }
    }

    /// Reads section 1, given its already-read common header.
    pub fn read(header: SectionHeader, data: &[u8], pos: &mut usize)
        -> (r: Result<IdentificationSectionHeader, Error>)
        ensures
            r is Ok <==> header.number_of_section == 1
                && (header.section_length == 21 || header.section_length >= 23)
                && *old(pos) + Self::spec_fixed_len(header.section_length) <= data@.len(),
            r matches Ok(h) ==> h == Self::parsed_at(header.section_length, data@,
                *old(pos) as int)
                && *final(pos) == *old(pos) + Self::spec_fixed_len(header.section_length),
            r matches Err(e) ==> e == (if header.number_of_section != 1 {
                Error::SectionNumberMismatch { expected: 1, actual: header.number_of_section }
            } else if !(header.section_length == 21 || header.section_length >= 23) {
                Error::SectionTooShort { number: 1, length: header.section_length }
            } else {
                Error::UnexpectedEndOfInput
            }),
    {
        match header.ensure_section_number(1) {
            Ok(()) => (),
            Err(e) => return Err(e),
        };
        if !(header.section_length == 21 || header.section_length >= 23) {
            return Err(Error::SectionTooShort { number: 1, length: header.section_length });
        }
        let centre = match read_u16_be(data, pos) {
            Ok(v) => v,
            Err(e) => return Err(e),
        };
        let sub_centre = match read_u16_be(data, pos) {
            Ok(v) => v,
            Err(e) => return Err(e),
        };
        let tables_version = match read_u8(data, pos) {
            Ok(v) => v,
            Err(e) => return Err(e),
        };
        let local_tables_version = match read_u8(data, pos) {
            Ok(v) => v,
            Err(e) => return Err(e),
        };
        let significance_of_reference_time = match read_u8(data, pos) {
            Ok(v) => v,
            Err(e) => return Err(e),
        };
        let year = match read_u16_be(data, pos) {
            Ok(v) => v,
            Err(e) => return Err(e),
        };
        let month = match read_u8(data, pos) {
            Ok(v) => v,
            Err(e) => return Err(e),
        };
        let day = match read_u8(data, pos) {
            Ok(v) => v,
            Err(e) => return Err(e),
        };
        let hour = match read_u8(data, pos) {
            Ok(v) => v,
            Err(e) => return Err(e),
        };
        let minute = match read_u8(data, pos) {
            Ok(v) => v,
            Err(e) => return Err(e),
        };
        let second = match read_u8(data, pos) {
            Ok(v) => v,
            Err(e) => return Err(e),
        };
        let production_status_of_processed_data = match read_u8(data, pos) {
            Ok(v) => v,
            Err(e) => return Err(e),
        };
        let type_of_processed_data = match read_u8(data, pos) {
            Ok(v) => v,
            Err(e) => return Err(e),
        };
        let template_number = if header.section_length == 21 {
            None
        } else {
            match read_u16_be(data, pos) {
                Ok(v) => Some(v),
                Err(e) => return Err(e),
            }
        };
        Ok(IdentificationSectionHeader {
            section_length: header.section_length,
            centre,
            sub_centre,
            tables_version,
            local_tables_version,
            significance_of_reference_time,
            year,
            month,
            day,
            hour,
            minute,
            second,
            production_status_of_processed_data,
            type_of_processed_data,
            template_number,
        })
    }

    /// The byte length of this section's template body: zero for the legacy
    /// 21-byte form, the declared length minus the 23 fixed bytes otherwise.
    pub open spec fn spec_body_len(self) -> int {
        if self.section_length == 21 {
            0
        } else {
            self.section_length - 23
        }
    }

    /// The byte length of this section's template body.
    pub fn body_len(&self) -> (r: u32)
        requires
            self.wf(),
        ensures
            r as int == self.spec_body_len(),
            0 <= self.spec_body_len(),
    {
        match self.section_length {
            21 => 0,
            _ => self.section_length - 23,
        }
    }
}

/// Section 2: the local use section.  It has no fixed fields beyond the
/// common header; its whole remainder is the body.
#[derive(Debug, Clone, Copy, PartialEq, Eq, Structural)]
pub struct LocalUseSectionHeader {
    pub section_length: u32,
}

impl LocalUseSectionHeader {
    /// A declared length this section accepts.
    pub open spec fn wf(self) -> bool {
        self.section_length >= 5
    }

    /// Reads section 2, given its already-read common header.  The cursor is
    /// not touched: this section has no fixed fields of its own.
    pub fn read(header: SectionHeader, _data: &[u8], pos: &mut usize)
        -> (r: Result<LocalUseSectionHeader, Error>)
        ensures
            *final(pos) == *old(pos),
            r is Ok <==> header.number_of_section == 2 && header.section_length >= 5,
            r matches Ok(h) ==> h == (LocalUseSectionHeader {
                section_length: header.section_length,
            }),
            r matches Err(e) ==> e == (if header.number_of_section != 2 {
                Error::SectionNumberMismatch { expected: 2, actual: header.number_of_section }
            } else {
                Error::SectionTooShort { number: 2, length: header.section_length }
            }),
    {
        match header.ensure_section_number(2) {
            Ok(()) => (),
            Err(e) => return Err(e),
        };
        if header.section_length < 5 {
            return Err(Error::SectionTooShort { number: 2, length: header.section_length });
        }
        Ok(LocalUseSectionHeader { section_length: header.section_length })
    }

    /// The byte length of this section's body.
    pub open spec fn spec_body_len(self) -> int {
        self.section_length - 5
    }

    /// The byte length of this section's body.
    pub fn body_len(&self) -> (r: u32)
        requires
            self.wf(),
        ensures
            r as int == self.spec_body_len(),
            0 <= self.spec_body_len(),
    {
        self.section_length - 5
    }
}

/// Section 3: the grid definition section.
#[derive(Debug, Clone, Copy, PartialEq, Eq, Structural)]
pub struct GridDefinitionSectionHeader {
    pub section_length: u32,
    pub source_of_grid_definition: u8,
    pub number_of_data_points: u32,
    pub number_of_octects_for_number_of_points: u8,
    pub interpretation_of_number_of_points: u8,
    pub template_number: u16,
}

impl GridDefinitionSectionHeader {
    /// A declared length this section accepts.
    pub open spec fn wf(self) -> bool {
        self.section_length >= 14
    }

    /// The section spelled by the nine fixed bytes at `pos` (right after the
    /// five-byte header).
    pub open spec fn parsed_at(section_length: u32, data: Seq<u8>, pos: int)
        -> GridDefinitionSectionHeader {
        GridDefinitionSectionHeader {
            section_length,
            source_of_grid_definition: data[pos],
            number_of_data_points: be_u32_at(data, pos + 1),
            number_of_octects_for_number_of_points: data[pos + 5],
            interpretation_of_number_of_points: data[pos + 6],
            template_number: be_u16_at(data, pos + 7),
        }
    }

    /// Reads section 3, given its already-read common header.
    pub fn read(header: &SectionHeader, data: &[u8], pos: &mut usize)
        -> (r: Result<GridDefinitionSectionHeader, Error>)
        ensures
            r is Ok <==> header.number_of_section == 3 && header.section_length >= 14
                && *old(pos) + 9 <= data@.len(),
            r matches Ok(h) ==> h == Self::parsed_at(header.section_length, data@,
                *old(pos) as int) && *final(pos) == *old(pos) + 9,
            r matches Err(e) ==> e == (if header.number_of_section != 3 {
                Error::SectionNumberMismatch { expected: 3, actual: header.number_of_section }
            } else if header.section_length < 14 {
                Error::SectionTooShort { number: 3, length: header.section_length }
            } else {
                Error::UnexpectedEndOfInput
            }),
    {
        match header.ensure_section_number(3) {
            Ok(()) => (),
            Err(e) => return Err(e),
        };
        if header.section_length < 14 {
            return Err(Error::SectionTooShort { number: 3, length: header.section_length });
        }
        let source_of_grid_definition = match read_u8(data, pos) {
            Ok(v) => v,
            Err(e) => return Err(e),
        };
        let number_of_data_points = match read_u32_be(data, pos) {
            Ok(v) => v,
            Err(e) => return Err(e),
        };
        let number_of_octects_for_number_of_points = match read_u8(data, pos) {
            Ok(v) => v,
            Err(e) => return Err(e),
        };
        let interpretation_of_number_of_points = match read_u8(data, pos) {
            Ok(v) => v,
            Err(e) => return Err(e),
        };
        let template_number = match read_u16_be(data, pos) {
            Ok(v) => v,
            Err(e) => return Err(e),
        };
        Ok(GridDefinitionSectionHeader {
            section_length: header.section_length,
            source_of_grid_definition,
            number_of_data_points,
            number_of_octects_for_number_of_points,
            interpretation_of_number_of_points,
            template_number,
        })
    }

    /// The byte length of this section's template body.
    pub open spec fn spec_body_len(self) -> int {
        self.section_length - 14
    }

    /// The byte length of this section's template body.
    pub fn body_len(&self) -> (r: u32)
        requires
            self.wf(),
        ensures
            r as int == self.spec_body_len(),
            0 <= self.spec_body_len(),
    {
        self.section_length - 14
    }
}

/// Section 4: the product definition section.
#[derive(Debug, Clone, Copy, PartialEq, Eq, Structural)]
pub struct ProductDefinitionSectionHeader {
    pub section_length: u32,
    pub nv: u16,
    pub template_number: u16,
}

impl ProductDefinitionSectionHeader {
    /// A declared length this section accepts.
    pub open spec fn wf(self) -> bool {
        self.section_length >= 9
    }

    /// The section spelled by the four fixed bytes at `pos` (right after the
    /// five-byte header).
    pub open spec fn parsed_at(section_length: u32, data: Seq<u8>, pos: int)
        -> ProductDefinitionSectionHeader {
        ProductDefinitionSectionHeader {
            section_length,
            nv: be_u16_at(data, pos),
            template_number: be_u16_at(data, pos + 2),
        }
    }

    /// Reads section 4, given its already-read common header.
    pub fn read(header: &SectionHeader, data: &[u8], pos: &mut usize)
        -> (r: Result<ProductDefinitionSectionHeader, Error>)
        ensures
            r is Ok <==> header.number_of_section == 4 && header.section_length >= 9
                && *old(pos) + 4 <= data@.len(),
            r matches Ok(h) ==> h == Self::parsed_at(header.section_length, data@,
                *old(pos) as int) && *final(pos) == *old(pos) + 4,
            r matches Err(e) ==> e == (if header.number_of_section != 4 {
                Error::SectionNumberMismatch { expected: 4, actual: header.number_of_section }
            } else if header.section_length < 9 {
                Error::SectionTooShort { number: 4, length: header.section_length }
            } else {
                Error::UnexpectedEndOfInput
            }),
    {
        match header.ensure_section_number(4) {
            Ok(()) => (),
            Err(e) => return Err(e),
        };
        if header.section_length < 9 {
            return Err(Error::SectionTooShort { number: 4, length: header.section_length });
        }
        let nv = match read_u16_be(data, pos) {
            Ok(v) => v,
            Err(e) => return Err(e),
        };
        let template_number = match read_u16_be(data, pos) {
            Ok(v) => v,
            Err(e) => return Err(e),
        };
        Ok(ProductDefinitionSectionHeader {
            section_length: header.section_length,
            nv,
            template_number,
        })
    }

    /// The byte length of this section's template body.
    pub open spec fn spec_body_len(self) -> int {
        self.section_length - 9
    }

    /// The byte length of this section's template body.
    pub fn body_len(&self) -> (r: u32)
        requires
            self.wf(),
        ensures
            r as int == self.spec_body_len(),
            0 <= self.spec_body_len(),
    {
        self.section_length - 9
    }
}

/// Section 5: the data representation section.
#[derive(Debug, Clone, Copy, PartialEq, Eq, Structural)]
pub struct DataRepresentationSectionHeader {
    pub section_length: u32,
    pub number_of_values: u32,
    pub template_number: u16,
}

impl DataRepresentationSectionHeader {
    /// A declared length this section accepts.
    pub open spec fn wf(self) -> bool {
        self.section_length >= 11
    }

    /// The section spelled by the six fixed bytes at `pos` (right after the
    /// five-byte header).
    pub open spec fn parsed_at(section_length: u32, data: Seq<u8>, pos: int)
        -> DataRepresentationSectionHeader {
        DataRepresentationSectionHeader {
            section_length,
            number_of_values: be_u32_at(data, pos),
            template_number: be_u16_at(data, pos + 4),
        }
    }

    /// Reads section 5, given its already-read common header.
    pub fn read(header: &SectionHeader, data: &[u8], pos: &mut usize)
        -> (r: Result<DataRepresentationSectionHeader, Error>)
        ensures
            r is Ok <==> header.number_of_section == 5 && header.section_length >= 11
                && *old(pos) + 6 <= data@.len(),
            r matches Ok(h) ==> h == Self::parsed_at(header.section_length, data@,
                *old(pos) as int) && *final(pos) == *old(pos) + 6,
            r matches Err(e) ==> e == (if header.number_of_section != 5 {
                Error::SectionNumberMismatch { expected: 5, actual: header.number_of_section }
            } else if header.section_length < 11 {
                Error::SectionTooShort { number: 5, length: header.section_length }
            } else {
                Error::UnexpectedEndOfInput
            }),
    {
        match header.ensure_section_number(5) {
            Ok(()) => (),
            Err(e) => return Err(e),
        };
        if header.section_length < 11 {
            return Err(Error::SectionTooShort { number: 5, length: header.section_length });
        }
        let number_of_values = match read_u32_be(data, pos) {
            Ok(v) => v,
            Err(e) => return Err(e),
        };
        let template_number = match read_u16_be(data, pos) {
            Ok(v) => v,
            Err(e) => return Err(e),
        };
        Ok(DataRepresentationSectionHeader {
            section_length: header.section_length,
            number_of_values,
            template_number,
        })
    }

    /// The byte length of this section's template body.
    pub open spec fn spec_body_len(self) -> int {
        self.section_length - 11
    }

    /// The byte length of this section's template body.
    pub fn body_len(&self) -> (r: u32)
        requires
            self.wf(),
        ensures
            r as int == self.spec_body_len(),
            0 <= self.spec_body_len(),
    {
        self.section_length - 11
    }
}

/// Section 6: the bit-map section.  Parsed and drained but not decoded into
/// a mask by this decoder.
#[derive(Debug, Clone, Copy, PartialEq, Eq, Structural)]
pub struct BitmapSectionHeader {
    pub section_length: u32,
    pub bit_map_indicator: u8,
}

impl BitmapSectionHeader {
    /// A declared length this section accepts.
    pub open spec fn wf(self) -> bool {
        self.section_length >= 6
    }

    /// The section spelled by the one fixed byte at `pos` (right after the
    /// five-byte header).
    pub open spec fn parsed_at(section_length: u32, data: Seq<u8>, pos: int)
        -> BitmapSectionHeader {
        BitmapSectionHeader { section_length, bit_map_indicator: data[pos] }
    }

    /// Reads section 6, given its already-read common header.
    pub fn read(header: &SectionHeader, data: &[u8], pos: &mut usize)
        -> (r: Result<BitmapSectionHeader, Error>)
        ensures
            r is Ok <==> header.number_of_section == 6 && header.section_length >= 6
                && *old(pos) + 1 <= data@.len(),
            r matches Ok(h) ==> h == Self::parsed_at(header.section_length, data@,
                *old(pos) as int) && *final(pos) == *old(pos) + 1,
            r matches Err(e) ==> e == (if header.number_of_section != 6 {
                Error::SectionNumberMismatch { expected: 6, actual: header.number_of_section }
            } else if header.section_length < 6 {
                Error::SectionTooShort { number: 6, length: header.section_length }
            } else {
                Error::UnexpectedEndOfInput
            }),
    {
        match header.ensure_section_number(6) {
            Ok(()) => (),
            Err(e) => return Err(e),
        };
        if header.section_length < 6 {
            return Err(Error::SectionTooShort { number: 6, length: header.section_length });
        }
        let bit_map_indicator = match read_u8(data, pos) {
            Ok(v) => v,
            Err(e) => return Err(e),
        };
        Ok(BitmapSectionHeader { section_length: header.section_length, bit_map_indicator })
    }

    /// The byte length of this section's body.
    pub open spec fn spec_body_len(self) -> int {
        self.section_length - 6
    }

    /// The byte length of this section's body.
    pub fn body_len(&self) -> (r: u32)
        requires
            self.wf(),
        ensures
            r as int == self.spec_body_len(),
            0 <= self.spec_body_len(),
    {
        self.section_length - 6
    }
}

/// Section 7: the data section.  It has no fixed fields beyond the common
/// header; its whole remainder is the packed data body.
#[derive(Debug, Clone, Copy, PartialEq, Eq, Structural)]
pub struct DataSectionHeader {
    pub section_length: u32,
}

impl DataSectionHeader {
    /// A declared length this section accepts.
    pub open spec fn wf(self) -> bool {
        self.section_length >= 5
    }

    /// Reads section 7, given its already-read common header.
    pub fn read(header: &SectionHeader) -> (r: Result<DataSectionHeader, Error>)
        ensures
            r is Ok <==> header.number_of_section == 7 && header.section_length >= 5,
            r matches Ok(h) ==> h == (DataSectionHeader {
                section_length: header.section_length,
            }),
            r matches Err(e) ==> e == (if header.number_of_section != 7 {
                Error::SectionNumberMismatch { expected: 7, actual: header.number_of_section }
            } else {
                Error::SectionTooShort { number: 7, length: header.section_length }
            }),
    {
        match header.ensure_section_number(7) {
            Ok(()) => (),
            Err(e) => return Err(e),
        };
        if header.section_length < 5 {
            return Err(Error::SectionTooShort { number: 7, length: header.section_length });
        }
        Ok(DataSectionHeader { section_length: header.section_length })
    }

    /// The byte length of this section's body.
    pub open spec fn spec_body_len(self) -> int {
        self.section_length - 5
    }

    /// The byte length of this section's body.
    pub fn body_len(&self) -> (r: u32)
        requires
            self.wf(),
        ensures
            r as int == self.spec_body_len(),
            0 <= self.spec_body_len(),
    {
        self.section_length - 5
    }
}

} // verus!
