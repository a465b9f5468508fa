//! Decoder for the "Photo Database" binary container used by portable media
//! players to catalogue photographs.
//!
//! The container is a hierarchy of typed, length-prefixed records: an outer
//! database header, section records, an image list, one image-item record per
//! photograph, and metadata-object ("MHOD") records attached to each item.
//! This crate walks such a buffer, checks the declared record lengths against
//! the buffer, and assembles one [`photo_database::Image`] per catalogued
//! item, with its filename, byte size, human-readable size and the two
//! capture/digitization timestamps.

use vstd::prelude::*;

pub mod mhod;
pub mod paths;
pub mod photo_database;
pub mod records;
pub mod size_format;
mod text;
pub mod timestamp;
pub mod utf16;

verus! {

/// A structural failure while decoding a container buffer.
///
/// Unknown record type tags and unknown metadata-object type tags are *not*
/// errors (the format is known to be incomplete); only a record whose declared
/// layout cannot be honoured against the buffer is.
#[derive(Clone, Copy, Debug, PartialEq, Eq, Structural)]
pub enum DecodeError {
    /// Fewer bytes remain at `offset` than a record header needs, or a
    /// record's declared total length reaches past the end of the buffer.
    Truncated { offset: usize },
    /// A record's declared lengths are inconsistent (header length below the
    /// fixed minimum, total length below the header length, or a mandatory
    /// fixed-width field lies outside the declared header).
    BadRecord { offset: usize },
    /// A filename payload is not a valid UTF-16 string.
    InvalidString { offset: usize },
}

} // verus!
