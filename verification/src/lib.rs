//! A decoder for GRIB2, a binary, section-structured format used to
//! distribute gridded meteorological fields.
//!
//! A GRIB2 stream is a concatenation of self-describing messages, each
//! composed of a fixed sequence of typed sections.  The decoder walks one
//! message at a time over an in-memory byte slice, hands every section to a
//! caller-supplied [`reader::MessageReader`], and keeps the cursor aligned on
//! section boundaries no matter how much of a section body the caller
//! consumes.

pub mod bytes;
pub mod message;
pub mod reader;
pub mod templates;

pub use reader::MessageReader;

use vstd::prelude::*;

verus! {

/// Why a decode failed.
///
/// Every failure aborts the in-progress message: there is no partial-result
/// mode and no internal retry.  Each variant carries the values needed to
/// diagnose the failure (expected versus actual numbers).
#[derive(Clone, Copy, Debug, PartialEq, Eq, Structural)]
pub enum Error {
    /// The input ended before a fixed field or section body was complete.
    UnexpectedEndOfInput,
    /// The four bytes where a message must begin are not `GRIB`.
    InvalidMagic,
    /// The indicator section carries an edition other than 2.
    InvalidEditionNumber(u8),
    /// A section header announced a different section than the one expected
    /// at this point of the message; carries the expected and actual numbers.
    SectionNumberMismatch { expected: u8, actual: u8 },
    /// A section's declared length is smaller than its fixed fields; carries
    /// the section number and the declared length.
    SectionTooShort { number: u8, length: u32 },
    /// After a data section, a header announced a section that may not
    /// follow it.
    InvalidSectionNumber(u8),
    /// The run-length decoder only supports 8 bits per packed value.
    UnsupportedNumberOfBits(u8),
    /// A run-length level index points past the end of the representative
    /// value table; carries the level value.
    LevelOutOfRange(u8),
    /// A declared run length does not fit the decoder's 64-bit counter.
    RunLengthOverflow,
}

/// The three failure classes a caller may want to tell apart.
#[derive(Clone, Copy, Debug, PartialEq, Eq, Structural)]
pub enum ErrorKind {
    /// A read failure: the input ended too early.
    IO,
    /// A format violation in the bytes themselves.
    InvalidData,
    /// A recognized but unimplemented feature of the format.
    UnsupportedData,
}

impl Error {
    /// The class this error belongs to.
    pub open spec fn spec_kind(self) -> ErrorKind {
        match self {
            Error::UnexpectedEndOfInput => ErrorKind::IO,
            Error::UnsupportedNumberOfBits(_) => ErrorKind::UnsupportedData,
            _ => ErrorKind::InvalidData,
        }
    }

    /// The class this error belongs to.
    pub fn kind(&self) -> (k: ErrorKind)
        ensures
            k == self.spec_kind(),
    {
        match self {
            Error::UnexpectedEndOfInput => ErrorKind::IO,
            Error::UnsupportedNumberOfBits(_) => ErrorKind::UnsupportedData,
            _ => ErrorKind::InvalidData,
        }
    }
}

} // verus!
