//! The message reader: a state machine that walks one GRIB2 message,
//! section by section, over an in-memory byte slice.
//!
//! Every section is handed to the caller through the [`MessageReader`]
//! callbacks together with a slice holding exactly its body, and the cursor
//! then moves to the section's declared end no matter how much of the body
//! the callback looked at.  This take-and-drain discipline, centralized in
//! [`take_body`], is what keeps the framing aligned: the position where the
//! next section header is read never depends on callback behaviour.
//!
//! The spec functions [`message_end`], [`from_local_or_grid`], [`from_grid`]
//! and [`from_product`] mirror the section framing: `message_end(data, pos)`
//! is the position right after the message that starts at `pos`, or `None`
//! when no well-formed message starts there.

use vstd::prelude::*;
use vstd::slice::slice_subrange;

use crate::bytes::read_u8;
use crate::message::{BitmapSectionHeader, DataRepresentationSectionHeader, DataSectionHeader,
    GridDefinitionSectionHeader, IdentificationSectionHeader, IndicatorSectionHeader,
    LocalUseSectionHeader, ProductDefinitionSectionHeader, SectionHeader};
use crate::Error;

verus! {

/// True when the four bytes at `pos` spell `GRIB`.
pub open spec fn magic_at(data: Seq<u8>, pos: int) -> bool {
    &&& data[pos] == 0x47
    &&& data[pos + 1] == 0x52
    &&& data[pos + 2] == 0x49
    &&& data[pos + 3] == 0x42
}

/// True when a whole section of the given number lies at `hp`: its five-byte
/// header is in bounds, announces that number, and declares a length that
/// covers the section's fixed fields and fits the input.
pub open spec fn section_frame_ok(data: Seq<u8>, hp: int, number: u8, overhead: u32) -> bool {
    let h = SectionHeader::parsed_at(data, hp);
    &&& hp + 5 <= data.len()
    &&& h.number_of_section == number
    &&& h.section_length >= overhead
    &&& hp + h.section_length <= data.len()
}

/// The position right after the section whose header lies at `hp`.
pub open spec fn section_end(data: Seq<u8>, hp: int) -> int {
    hp + SectionHeader::parsed_at(data, hp).section_length as int
}

/// The message's end when a header at `hp` opens an optional local use
/// section followed by a grid definition section.
pub open spec fn from_local_or_grid(data: Seq<u8>, hp: int) -> Option<int>
    decreases data.len() - hp, 2int,
{
    if hp + 5 > data.len() {
        None
    } else if SectionHeader::parsed_at(data, hp).number_of_section == 2 {
        if section_frame_ok(data, hp, 2, 5) {
            from_grid(data, section_end(data, hp))
        } else {
            None
        }
    } else {
        from_grid(data, hp)
    }
}

/// The message's end when the header at `hp` must open a grid definition
/// section.
pub open spec fn from_grid(data: Seq<u8>, hp: int) -> Option<int>
    decreases data.len() - hp, 1int,
{
    if section_frame_ok(data, hp, 3, 14) {
        from_product(data, section_end(data, hp))
    } else {
        None
    }
}

/// The message's end when the header at `hp` must open a product definition
/// section: one product, data representation, bitmap and data section in
/// that order, then either another such group, a new local-use/grid pair, or
/// the end of the message.
pub open spec fn from_product(data: Seq<u8>, hp: int) -> Option<int>
    decreases data.len() - hp, 0int,
{
    if !section_frame_ok(data, hp, 4, 9) {
        None
    } else {
        let e5 = section_end(data, hp);
        if !section_frame_ok(data, e5, 5, 11) {
            None
        } else {
            let e6 = section_end(data, e5);
            if !section_frame_ok(data, e6, 6, 6) {
                None
            } else {
                let e7 = section_end(data, e6);
                if !section_frame_ok(data, e7, 7, 5) {
                    None
                } else {
                    let tp = section_end(data, e7);
                    if !SectionHeader::read_ok(data, tp, true) {
                        None
                    } else {
                        let h = SectionHeader::read_result(data, tp, true);
                        let after = SectionHeader::read_end(data, tp, true);
                        if h.number_of_section == 8 {
                            Some(after)
                        } else if h.number_of_section == 4 {
                            from_product(data, tp)
                        } else if h.number_of_section == 2 || h.number_of_section == 3 {
                            from_local_or_grid(data, tp)
                        } else {
                            None
                        }
                    }
                }
            }
        }
    }
}

/// The position right after the message that starts at `pos`: the magic, a
/// valid edition-2 indicator, an identification section, then the section
/// groups until the end section.  `None` when no well-formed message starts
/// at `pos`.
pub open spec fn message_end(data: Seq<u8>, pos: int) -> Option<int> {
    if pos + 4 > data.len() {
        None
    } else if !magic_at(data, pos) {
        None
    } else if pos + 16 > data.len() {
        None
    } else if data[pos + 7] != 2 {
        None
    } else {
        let hp = pos + 16;
        let h = SectionHeader::parsed_at(data, hp);
        if hp + 5 <= data.len() && h.number_of_section == 1
            && (h.section_length == 21 || h.section_length >= 23)
            && hp + h.section_length <= data.len() {
            from_local_or_grid(data, hp + h.section_length)
        } else {
            None
        }
    }
}

/// Hands out the next `body_len` bytes as a section body and moves the
/// cursor right past them.  The cursor lands on the next section boundary
/// whatever a callback later does with the returned slice.
fn take_body<'a>(data: &'a [u8], pos: &mut usize, body_len: u32) -> (r: Result<&'a [u8], Error>)
    ensures
        r is Ok <==> *old(pos) + body_len <= data@.len(),
        r matches Ok(b) ==> *final(pos) == *old(pos) + body_len
            && b@ == data@.subrange(*old(pos) as int, *final(pos) as int),
        r matches Err(e) ==> e == Error::UnexpectedEndOfInput && *final(pos) == *old(pos),
{
    if *pos <= data.len() && body_len as usize <= data.len() - *pos {
        let body = slice_subrange(data, *pos, *pos + body_len as usize);
        *pos = *pos + body_len as usize;
        Ok(body)
    } else {
        Err(Error::UnexpectedEndOfInput)
    }
}

/// Reads the section-4-to-7 groups of one message, starting from the
/// already-read header `first` (the cursor stands right after it), and
/// invokes the handler's callbacks.  Returns the already-read header of a
/// following local-use or grid-definition section, or `None` when the end
/// section closed the message.
#[verifier::loop_isolation(false)]
fn read_groups<H: MessageReader + ?Sized>(handler: &mut H, data: &[u8], pos: &mut usize,
    first: SectionHeader) -> (r: Result<Option<SectionHeader>, Error>)
    requires
        5 <= *old(pos) <= data@.len(),
        SectionHeader::parsed_at(data@, *old(pos) as int - 5) == first,
    ensures
        r matches Ok(Some(h)) ==> {
            &&& *old(pos) <= *final(pos)
            &&& 5 <= *final(pos) <= data@.len()
            &&& SectionHeader::parsed_at(data@, *final(pos) as int - 5) == h
            &&& (h.number_of_section == 2 || h.number_of_section == 3)
            &&& from_product(data@, *old(pos) as int - 5)
                == from_local_or_grid(data@, *final(pos) as int - 5)
        },
        r matches Ok(None) ==> from_product(data@, *old(pos) as int - 5)
            == Some(*final(pos) as int),
{
    let mut next_header = first;
    loop
        invariant
            5 <= *pos <= data@.len(),
            *old(pos) <= *pos,
            SectionHeader::parsed_at(data@, *pos as int - 5) == next_header,
            from_product(data@, *old(pos) as int - 5)
                == from_product(data@, *pos as int - 5),
        decreases data@.len() - *pos,
    {
        let ghost hp = *pos as int - 5;

        // Section 4: product definition.
        let pds = match ProductDefinitionSectionHeader::read(&next_header, data, pos) {
            Ok(v) => v,
            Err(e) => return Err(e),
        };
        let pds_body_len = pds.body_len();
        let pds_body = match take_body(data, pos, pds_body_len) {
            Ok(b) => b,
            Err(e) => return Err(e),
        };
        match handler.handle_product_definition(pds, pds_body) {
            Ok(()) => (),
            Err(e) => return Err(e),
        };
        proof {
            assert(section_frame_ok(data@, hp, 4, 9));
            assert(*pos as int == section_end(data@, hp));
        }

        // Section 5: data representation.
        let ghost e5 = *pos as int;
        let h5 = match SectionHeader::read(data, pos, false) {
            Ok(v) => v,
            Err(e) => return Err(e),
        };
        let drs = match DataRepresentationSectionHeader::read(&h5, data, pos) {
            Ok(v) => v,
            Err(e) => return Err(e),
        };
        let drs_body_len = drs.body_len();
        let drs_body = match take_body(data, pos, drs_body_len) {
            Ok(b) => b,
            Err(e) => return Err(e),
        };
        match handler.handle_data_representation(drs, drs_body) {
            Ok(()) => (),
            Err(e) => return Err(e),
        };
        proof {
            assert(section_frame_ok(data@, e5, 5, 11));
            assert(*pos as int == section_end(data@, e5));
        }

        // Section 6: bitmap.
        let ghost e6 = *pos as int;
        let h6 = match SectionHeader::read(data, pos, false) {
            Ok(v) => v,
            Err(e) => return Err(e),
        };
        let bitmap = match BitmapSectionHeader::read(&h6, data, pos) {
            Ok(v) => v,
            Err(e) => return Err(e),
        };
        let bitmap_body_len = bitmap.body_len();
        let bitmap_body = match take_body(data, pos, bitmap_body_len) {
            Ok(b) => b,
            Err(e) => return Err(e),
        };
        match handler.handle_bitmap(bitmap, bitmap_body) {
            Ok(()) => (),
            Err(e) => return Err(e),
        };
        proof {
            assert(section_frame_ok(data@, e6, 6, 6));
            assert(*pos as int == section_end(data@, e6));
        }

        // Section 7: data.
        let ghost e7 = *pos as int;
        let h7 = match SectionHeader::read(data, pos, false) {
            Ok(v) => v,
            Err(e) => return Err(e),
        };
        let data_section = match DataSectionHeader::read(&h7) {
            Ok(v) => v,
            Err(e) => return Err(e),
        };
        let data_body_len = data_section.body_len();
        let data_body = match take_body(data, pos, data_body_len) {
            Ok(b) => b,
            Err(e) => return Err(e),
        };
        match handler.handle_data(data_section, data_body) {
            Ok(()) => (),
            Err(e) => return Err(e),
        };
        proof {
            assert(section_frame_ok(data@, e7, 7, 5));
            assert(*pos as int == section_end(data@, e7));
        }

        // The header that decides how the message goes on.
        let ghost tp = *pos as int;
        let h_next = match SectionHeader::read(data, pos, true) {
            Ok(v) => v,
            Err(e) => return Err(e),
        };
        proof {
            assert(SectionHeader::read_ok(data@, tp, true));
            assert(h_next == SectionHeader::read_result(data@, tp, true));
            assert(*pos as int == SectionHeader::read_end(data@, tp, true));
        }
        match h_next.number_of_section {
            8 => {
                proof {
                    assert(from_product(data@, hp) == Some(*pos as int));
                }
                return Ok(None);
            },
            4 => {
                proof {
                    assert(!SectionHeader::end_sentinel_at(data@, tp));
                    assert(from_product(data@, hp) == from_product(data@, tp));
                }
                next_header = h_next;
            },
            2 | 3 => {
                proof {
                    assert(!SectionHeader::end_sentinel_at(data@, tp));
                    assert(from_product(data@, hp) == from_local_or_grid(data@, tp));
                }
                return Ok(Some(h_next));
            },
            _ => {
                return Err(Error::InvalidSectionNumber(h_next.number_of_section));
            },
        }
    }
}

/// The callback interface of the message reader: one method per section
/// type, each a no-op by default, so a caller implements only the sections
/// it needs.  Every body-carrying callback receives a slice holding exactly
/// that section's body; the reader drains the body itself, so a callback may
/// read any part of it without disturbing the framing.
pub trait MessageReader {
    /// Called with the indicator section of each message.
    fn handle_indicator(&mut self, is: IndicatorSectionHeader) -> Result<(), Error> {
        let _ = is;
        Ok(())
    }

    /// Called with the identification section and its template body.
    fn handle_identification(&mut self, ids: IdentificationSectionHeader, body: &[u8])
        -> Result<(), Error> {
        let _ = ids;
        let _ = body;
        Ok(())
    }

    /// Called with a local use section and its body.
    fn handle_local_use(&mut self, loc: LocalUseSectionHeader, body: &[u8])
        -> Result<(), Error> {
        let _ = loc;
        let _ = body;
        Ok(())
    }

    /// Called with a grid definition section and its template body.
    fn handle_grid_definition(&mut self, gds: GridDefinitionSectionHeader, body: &[u8])
        -> Result<(), Error> {
        let _ = gds;
        let _ = body;
        Ok(())
    }

    /// Called with a product definition section and its template body.
    fn handle_product_definition(&mut self, pds: ProductDefinitionSectionHeader, body: &[u8])
        -> Result<(), Error> {
        let _ = pds;
        let _ = body;
        Ok(())
    }

    /// Called with a data representation section and its template body.
    fn handle_data_representation(&mut self, drs: DataRepresentationSectionHeader, body: &[u8])
        -> Result<(), Error> {
        let _ = drs;
        let _ = body;
        Ok(())
    }

    /// Called with a bitmap section and its body.
    fn handle_bitmap(&mut self, bitmap: BitmapSectionHeader, body: &[u8]) -> Result<(), Error> {
        let _ = bitmap;
        let _ = body;
        Ok(())
    }

    /// Called with a data section and its packed body.
    fn handle_data(&mut self, data: DataSectionHeader, body: &[u8]) -> Result<(), Error> {
        let _ = data;
        let _ = body;
        Ok(())
    }
}

/// Decodes the next message from `data` starting at `pos`, invoking the
/// handler's callbacks for every section, and leaves the cursor right after
/// the message.  Fewer than four remaining bytes mean the stream is done:
/// `Ok(None)`, never an error.  Once a message starts, every failure — a
/// short read, bad magic, a wrong edition, a misnumbered or too-short
/// section, or a callback error — aborts it.
#[verifier::loop_isolation(false)]
pub fn read_next_message<H: MessageReader + ?Sized>(handler: &mut H, data: &[u8],
    pos: &mut usize) -> (r: Result<Option<()>, Error>)
        ensures
            (r == Ok::<Option<()>, Error>(None)) <==> data@.len() < *old(pos) + 4,
            r == Ok::<Option<()>, Error>(None) ==> *final(pos) == *old(pos),
            r == Ok::<Option<()>, Error>(Some(())) ==> message_end(data@, *old(pos) as int)
                == Some(*final(pos) as int),
            *old(pos) + 4 <= data@.len() && message_end(data@, *old(pos) as int) is None
                ==> r is Err,
            *old(pos) + 4 <= data@.len() && !magic_at(data@, *old(pos) as int)
                ==> r == Err::<Option<()>, Error>(Error::InvalidMagic),
            *old(pos) + 8 <= data@.len() && magic_at(data@, *old(pos) as int)
                && data@[*old(pos) + 7] != 2
                ==> r == Err::<Option<()>, Error>(Error::InvalidEditionNumber(
                    data@[*old(pos) + 7])),
            *old(pos) + 4 <= data@.len() && magic_at(data@, *old(pos) as int)
                && (data@.len() < *old(pos) + 8
                    || (data@[*old(pos) + 7] == 2 && data@.len() < *old(pos) + 16))
                ==> r == Err::<Option<()>, Error>(Error::UnexpectedEndOfInput),
    {
        let ghost start = *pos as int;
        if data.len() < 4 || *pos > data.len() - 4 {
            return Ok(None);
        }

        // The four magic bytes.
        let b0 = match read_u8(data, pos) {
            Ok(v) => v,
            Err(e) => return Err(e),
        };
        let b1 = match read_u8(data, pos) {
            Ok(v) => v,
            Err(e) => return Err(e),
        };
        let b2 = match read_u8(data, pos) {
            Ok(v) => v,
            Err(e) => return Err(e),
        };
        let b3 = match read_u8(data, pos) {
            Ok(v) => v,
            Err(e) => return Err(e),
        };
        if !(b0 == 0x47 && b1 == 0x52 && b2 == 0x49 && b3 == 0x42) {
            return Err(Error::InvalidMagic);
        }

        // Section 0: indicator.
        let is = match IndicatorSectionHeader::read(data, pos) {
            Ok(v) => v,
            Err(e) => return Err(e),
        };
        match handler.handle_indicator(is) {
            Ok(()) => (),
            Err(e) => return Err(e),
        };

        // Section 1: identification.
        let ghost hp1 = *pos as int;
        let h1 = match SectionHeader::read(data, pos, false) {
            Ok(v) => v,
            Err(e) => return Err(e),
        };
        let ids = match IdentificationSectionHeader::read(h1, data, pos) {
            Ok(v) => v,
            Err(e) => return Err(e),
        };
        let ids_body_len = ids.body_len();
        let ids_body = match take_body(data, pos, ids_body_len) {
            Ok(b) => b,
            Err(e) => return Err(e),
        };
        match handler.handle_identification(ids, ids_body) {
            Ok(()) => (),
            Err(e) => return Err(e),
        };
        proof {
            assert(*pos as int == hp1 + SectionHeader::parsed_at(data@, hp1).section_length);
        }

        let mut next_header = match SectionHeader::read(data, pos, false) {
            Ok(v) => v,
            Err(e) => return Err(e),
        };
        proof {
            assert(message_end(data@, start)
                == from_local_or_grid(data@, *pos as int - 5));
        }

        loop
            invariant
                5 <= *pos <= data@.len(),
                SectionHeader::parsed_at(data@, *pos as int - 5) == next_header,
                message_end(data@, start) == from_local_or_grid(data@, *pos as int - 5),
            decreases data@.len() - *pos,
        {
            let ghost hp = *pos as int - 5;

            // Section 2: local use, when present.
            if next_header.number_of_section == 2 {
                let loc = match LocalUseSectionHeader::read(next_header, data, pos) {
                    Ok(v) => v,
                    Err(e) => return Err(e),
                };
                let loc_body_len = loc.body_len();
                let loc_body = match take_body(data, pos, loc_body_len) {
                    Ok(b) => b,
                    Err(e) => return Err(e),
                };
                match handler.handle_local_use(loc, loc_body) {
                    Ok(()) => (),
                    Err(e) => return Err(e),
                };
                proof {
                    assert(section_frame_ok(data@, hp, 2, 5));
                    assert(*pos as int == section_end(data@, hp));
                    assert(from_local_or_grid(data@, hp)
                        == from_grid(data@, section_end(data@, hp)));
                }
                next_header = match SectionHeader::read(data, pos, false) {
                    Ok(v) => v,
                    Err(e) => return Err(e),
                };
            } else {
                proof {
                    assert(from_local_or_grid(data@, hp) == from_grid(data@, hp));
                }
            }

            // Section 3: grid definition.
            let ghost gh = *pos as int - 5;
            proof {
                assert(message_end(data@, start) == from_grid(data@, gh));
            }
            let gds = match GridDefinitionSectionHeader::read(&next_header, data, pos) {
                Ok(v) => v,
                Err(e) => return Err(e),
            };
            let gds_body_len = gds.body_len();
            let gds_body = match take_body(data, pos, gds_body_len) {
                Ok(b) => b,
                Err(e) => return Err(e),
            };
            match handler.handle_grid_definition(gds, gds_body) {
                Ok(()) => (),
                Err(e) => return Err(e),
            };
            proof {
                assert(section_frame_ok(data@, gh, 3, 14));
                assert(*pos as int == section_end(data@, gh));
            }

            // Sections 4 to 7, repeated while the stream announces more
            // fields on this grid.
            next_header = match SectionHeader::read(data, pos, false) {
                Ok(v) => v,
                Err(e) => return Err(e),
            };
            proof {
                assert(message_end(data@, start) == from_product(data@, *pos as int - 5));
            }
            match read_groups(handler, data, pos, next_header) {
                Ok(Some(h)) => {
                    next_header = h;
                },
                Ok(None) => {
                    return Ok(Some(()));
                },
                Err(e) => return Err(e),
            };
        }
    }

/// Walks the section-4-to-7 groups of one message without callbacks,
/// starting from the already-read header `first` (the cursor stands right
/// after it).  Where [`read_groups`] can fail because a callback refused a
/// section, this walk fails exactly on the inputs whose framing is invalid.
#[verifier::loop_isolation(false)]
fn skip_groups(data: &[u8], pos: &mut usize, first: SectionHeader)
    -> (r: Result<Option<SectionHeader>, Error>)
    requires
        5 <= *old(pos) <= data@.len(),
        SectionHeader::parsed_at(data@, *old(pos) as int - 5) == first,
    ensures
        r matches Ok(Some(h)) ==> {
            &&& *old(pos) <= *final(pos)
            &&& 5 <= *final(pos) <= data@.len()
            &&& SectionHeader::parsed_at(data@, *final(pos) as int - 5) == h
            &&& (h.number_of_section == 2 || h.number_of_section == 3)
            &&& from_product(data@, *old(pos) as int - 5)
                == from_local_or_grid(data@, *final(pos) as int - 5)
        },
        r matches Ok(None) ==> from_product(data@, *old(pos) as int - 5)
            == Some(*final(pos) as int),
        r is Err ==> from_product(data@, *old(pos) as int - 5) is None,
{
    let mut next_header = first;
    loop
        invariant
            5 <= *pos <= data@.len(),
            *old(pos) <= *pos,
            SectionHeader::parsed_at(data@, *pos as int - 5) == next_header,
            from_product(data@, *old(pos) as int - 5)
                == from_product(data@, *pos as int - 5),
        decreases data@.len() - *pos,
    {
        let ghost hp = *pos as int - 5;

        // Section 4: product definition.
        let pds = match ProductDefinitionSectionHeader::read(&next_header, data, pos) {
            Ok(v) => v,
            Err(e) => {
                proof {
                    assert(!section_frame_ok(data@, hp, 4, 9));
                    assert(from_product(data@, hp) is None);
                }
                return Err(e);
            },
        };
        let pds_body_len = pds.body_len();
        match take_body(data, pos, pds_body_len) {
            Ok(_) => (),
            Err(e) => {
                proof {
                    assert(!section_frame_ok(data@, hp, 4, 9));
                    assert(from_product(data@, hp) is None);
                }
                return Err(e);
            },
        };
        proof {
            assert(section_frame_ok(data@, hp, 4, 9));
            assert(*pos as int == section_end(data@, hp));
        }

        // Section 5: data representation.
        let ghost e5 = *pos as int;
        let h5 = match SectionHeader::read(data, pos, false) {
            Ok(v) => v,
            Err(e) => {
                proof {
                    assert(!section_frame_ok(data@, e5, 5, 11));
                    assert(from_product(data@, hp) is None);
                }
                return Err(e);
            },
        };
        let drs = match DataRepresentationSectionHeader::read(&h5, data, pos) {
            Ok(v) => v,
            Err(e) => {
                proof {
                    assert(!section_frame_ok(data@, e5, 5, 11));
                    assert(from_product(data@, hp) is None);
                }
                return Err(e);
            },
        };
        let drs_body_len = drs.body_len();
        match take_body(data, pos, drs_body_len) {
            Ok(_) => (),
            Err(e) => {
                proof {
                    assert(!section_frame_ok(data@, e5, 5, 11));
                    assert(from_product(data@, hp) is None);
                }
                return Err(e);
            },
        };
        proof {
            assert(section_frame_ok(data@, e5, 5, 11));
            assert(*pos as int == section_end(data@, e5));
        }

        // Section 6: bitmap.
        let ghost e6 = *pos as int;
        let h6 = match SectionHeader::read(data, pos, false) {
            Ok(v) => v,
            Err(e) => {
                proof {
                    assert(!section_frame_ok(data@, e6, 6, 6));
                    assert(from_product(data@, hp) is None);
                }
                return Err(e);
            },
        };
        let bitmap = match BitmapSectionHeader::read(&h6, data, pos) {
            Ok(v) => v,
            Err(e) => {
                proof {
                    assert(!section_frame_ok(data@, e6, 6, 6));
                    assert(from_product(data@, hp) is None);
                }
                return Err(e);
            },
        };
        let bitmap_body_len = bitmap.body_len();
        match take_body(data, pos, bitmap_body_len) {
            Ok(_) => (),
            Err(e) => {
                proof {
                    assert(!section_frame_ok(data@, e6, 6, 6));
                    assert(from_product(data@, hp) is None);
                }
                return Err(e);
            },
        };
        proof {
            assert(section_frame_ok(data@, e6, 6, 6));
            assert(*pos as int == section_end(data@, e6));
        }

        // Section 7: data.
        let ghost e7 = *pos as int;
        let h7 = match SectionHeader::read(data, pos, false) {
            Ok(v) => v,
            Err(e) => {
                proof {
                    assert(!section_frame_ok(data@, e7, 7, 5));
                    assert(from_product(data@, hp) is None);
                }
                return Err(e);
            },
        };
        let data_section = match DataSectionHeader::read(&h7) {
            Ok(v) => v,
            Err(e) => {
                proof {
                    assert(!section_frame_ok(data@, e7, 7, 5));
                    assert(from_product(data@, hp) is None);
                }
                return Err(e);
            },
        };
        let data_body_len = data_section.body_len();
        match take_body(data, pos, data_body_len) {
            Ok(_) => (),
            Err(e) => {
                proof {
                    assert(!section_frame_ok(data@, e7, 7, 5));
                    assert(from_product(data@, hp) is None);
                }
                return Err(e);
            },
        };
        proof {
            assert(section_frame_ok(data@, e7, 7, 5));
            assert(*pos as int == section_end(data@, e7));
        }

        // The header that decides how the message goes on.
        let ghost tp = *pos as int;
        let h_next = match SectionHeader::read(data, pos, true) {
            Ok(v) => v,
            Err(e) => {
                proof {
                    assert(!SectionHeader::read_ok(data@, tp, true));
                    assert(from_product(data@, hp) is None);
                }
                return Err(e);
            },
        };
        proof {
            assert(SectionHeader::read_ok(data@, tp, true));
            assert(h_next == SectionHeader::read_result(data@, tp, true));
            assert(*pos as int == SectionHeader::read_end(data@, tp, true));
        }
        match h_next.number_of_section {
            8 => {
                proof {
                    assert(from_product(data@, hp) == Some(*pos as int));
                }
                return Ok(None);
            },
            4 => {
                proof {
                    assert(!SectionHeader::end_sentinel_at(data@, tp));
                    assert(from_product(data@, hp) == from_product(data@, tp));
                }
                next_header = h_next;
            },
            2 | 3 => {
                proof {
                    assert(!SectionHeader::end_sentinel_at(data@, tp));
                    assert(from_product(data@, hp) == from_local_or_grid(data@, tp));
                }
                return Ok(Some(h_next));
            },
            _ => {
                proof {
                    assert(from_product(data@, hp) is None);
                }
                return Err(Error::InvalidSectionNumber(h_next.number_of_section));
            },
        }
    }
}

/// Walks past the next message without invoking any callback, leaving the
/// cursor right after it.  Unlike [`read_next_message`], whose callbacks may
/// abort a decode, this walk owes its result: it succeeds on exactly the
/// inputs where a well-formed message starts at `pos`, ends the stream on
/// fewer than four remaining bytes without moving the cursor, and fails on
/// everything else.
#[verifier::loop_isolation(false)]
pub fn skip_next_message(data: &[u8], pos: &mut usize) -> (r: Result<Option<()>, Error>)
    ensures
        (r == Ok::<Option<()>, Error>(None)) <==> data@.len() < *old(pos) + 4,
        r == Ok::<Option<()>, Error>(None) ==> *final(pos) == *old(pos),
        (r == Ok::<Option<()>, Error>(Some(()))) <==> message_end(data@, *old(pos) as int)
            is Some,
        r == Ok::<Option<()>, Error>(Some(())) ==> message_end(data@, *old(pos) as int)
            == Some(*final(pos) as int),
        r is Err <==> *old(pos) + 4 <= data@.len()
            && message_end(data@, *old(pos) as int) is None,
{
    let ghost start = *pos as int;
    if data.len() < 4 || *pos > data.len() - 4 {
        return Ok(None);
    }

    // The four magic bytes.
    let b0 = match read_u8(data, pos) {
        Ok(v) => v,
        Err(e) => return Err(e),
    };
    let b1 = match read_u8(data, pos) {
        Ok(v) => v,
        Err(e) => return Err(e),
    };
    let b2 = match read_u8(data, pos) {
        Ok(v) => v,
        Err(e) => return Err(e),
    };
    let b3 = match read_u8(data, pos) {
        Ok(v) => v,
        Err(e) => return Err(e),
    };
    if !(b0 == 0x47 && b1 == 0x52 && b2 == 0x49 && b3 == 0x42) {
        proof {
            assert(!magic_at(data@, start));
            assert(message_end(data@, start) is None);
        }
        return Err(Error::InvalidMagic);
    }

    // Section 0: indicator.
    match IndicatorSectionHeader::read(data, pos) {
        Ok(_) => (),
        Err(e) => {
            proof {
                assert(start + 16 > data@.len() || data@[start + 7] != 2);
                assert(message_end(data@, start) is None);
            }
            return Err(e);
        },
    };

    // Section 1: identification.
    let ghost hp1 = *pos as int;
    let h1 = match SectionHeader::read(data, pos, false) {
        Ok(v) => v,
        Err(e) => {
            proof {
                assert(message_end(data@, start) is None);
            }
            return Err(e);
        },
    };
    let ids = match IdentificationSectionHeader::read(h1, data, pos) {
        Ok(v) => v,
        Err(e) => {
            proof {
                assert(message_end(data@, start) is None);
            }
            return Err(e);
        },
    };
    let ids_body_len = ids.body_len();
    match take_body(data, pos, ids_body_len) {
        Ok(_) => (),
        Err(e) => {
            proof {
                assert(hp1 + SectionHeader::parsed_at(data@, hp1).section_length
                    > data@.len());
                assert(message_end(data@, start) is None);
            }
            return Err(e);
        },
    };
    proof {
        assert(*pos as int == hp1 + SectionHeader::parsed_at(data@, hp1).section_length);
    }

    let mut next_header = match SectionHeader::read(data, pos, false) {
        Ok(v) => v,
        Err(e) => {
            proof {
                assert(from_local_or_grid(data@, hp1
                    + SectionHeader::parsed_at(data@, hp1).section_length) is None);
                assert(message_end(data@, start) is None);
            }
            return Err(e);
        },
    };
    proof {
        assert(message_end(data@, start) == from_local_or_grid(data@, *pos as int - 5));
    }

    loop
        invariant
            5 <= *pos <= data@.len(),
            SectionHeader::parsed_at(data@, *pos as int - 5) == next_header,
            message_end(data@, start) == from_local_or_grid(data@, *pos as int - 5),
        decreases data@.len() - *pos,
    {
        let ghost hp = *pos as int - 5;

        // Section 2: local use, when present.
        if next_header.number_of_section == 2 {
            let loc = match LocalUseSectionHeader::read(next_header, data, pos) {
                Ok(v) => v,
                Err(e) => {
                    proof {
                        assert(!section_frame_ok(data@, hp, 2, 5));
                        assert(from_local_or_grid(data@, hp) is None);
                    }
                    return Err(e);
                },
            };
            let loc_body_len = loc.body_len();
            match take_body(data, pos, loc_body_len) {
                Ok(_) => (),
                Err(e) => {
                    proof {
                        assert(!section_frame_ok(data@, hp, 2, 5));
                        assert(from_local_or_grid(data@, hp) is None);
                    }
                    return Err(e);
                },
            };
            proof {
                assert(section_frame_ok(data@, hp, 2, 5));
                assert(*pos as int == section_end(data@, hp));
                assert(from_local_or_grid(data@, hp)
                    == from_grid(data@, section_end(data@, hp)));
            }
            next_header = match SectionHeader::read(data, pos, false) {
                Ok(v) => v,
                Err(e) => {
                    proof {
                        assert(from_grid(data@, section_end(data@, hp)) is None);
                    }
                    return Err(e);
                },
            };
        } else {
            proof {
                assert(from_local_or_grid(data@, hp) == from_grid(data@, hp));
            }
        }

        // Section 3: grid definition.
        let ghost gh = *pos as int - 5;
        proof {
            assert(message_end(data@, start) == from_grid(data@, gh));
        }
        let gds = match GridDefinitionSectionHeader::read(&next_header, data, pos) {
            Ok(v) => v,
            Err(e) => {
                proof {
                    assert(!section_frame_ok(data@, gh, 3, 14));
                    assert(from_grid(data@, gh) is None);
                }
                return Err(e);
            },
        };
        let gds_body_len = gds.body_len();
        match take_body(data, pos, gds_body_len) {
            Ok(_) => (),
            Err(e) => {
                proof {
                    assert(!section_frame_ok(data@, gh, 3, 14));
                    assert(from_grid(data@, gh) is None);
                }
                return Err(e);
            },
        };
        proof {
            assert(section_frame_ok(data@, gh, 3, 14));
            assert(*pos as int == section_end(data@, gh));
        }

        // Sections 4 to 7, repeated while the stream announces more fields
        // on this grid.
        next_header = match SectionHeader::read(data, pos, false) {
            Ok(v) => v,
            Err(e) => {
                proof {
                    assert(from_product(data@, section_end(data@, gh)) is None);
                }
                return Err(e);
            },
        };
        proof {
            assert(message_end(data@, start) == from_product(data@, *pos as int - 5));
        }
        match skip_groups(data, pos, next_header) {
            Ok(Some(h)) => {
                next_header = h;
            },
            Ok(None) => {
                return Ok(Some(()));
            },
            Err(e) => return Err(e),
        };
    }
}

} // verus!
