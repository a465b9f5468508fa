//! Classification of metadata-object ("MHOD") records.
//!
//! A metadata-object record carries one piece of metadata for a catalogued
//! item, identified by a 16-bit numeric type tag. The known tags form a small
//! closed set; every other tag is kept as data rather than treated as an
//! error, because device firmware has been observed to emit tags that the
//! public format description does not mention.

use crate::text::dec_str;
use vstd::prelude::*;

verus! {

/// The kind of payload a metadata-object record carries.
#[derive(Clone, Copy, Debug, PartialEq, Eq, Structural)]
pub enum MhodType {
    /// Tag 1: the name of an album.
    AlbumName,
    /// Tag 2: an embedded thumbnail image reference.
    ThumbnailImage,
    /// Tag 3: the item's filename.
    FileName,
    /// Tag 5: declared by the format but unused by known producers.
    Container,
    /// Any tag outside the known set, kept with its numeric value.
    Unsupported(u16),
}

impl MhodType {
    /// The classification of a raw 16-bit type tag. Total: unknown tags
    /// become [`MhodType::Unsupported`], never a failure.
    pub open spec fn spec_from_code(code: u16) -> MhodType {
        if code == 1 {
            MhodType::AlbumName
        } else if code == 2 {
            MhodType::ThumbnailImage
        } else if code == 3 {
            MhodType::FileName
        } else if code == 5 {
            MhodType::Container
        } else {
            MhodType::Unsupported(code)
        }
    }

    /// Classifies a raw type tag read from a metadata-object record header.
    pub fn from_code(code: u16) -> (r: MhodType)
        ensures
            r == MhodType::spec_from_code(code),
    {
        if code == 1 {
            MhodType::AlbumName
        } else if code == 2 {
            MhodType::ThumbnailImage
        } else if code == 3 {
            MhodType::FileName
        } else if code == 5 {
            MhodType::Container
        } else {
            MhodType::Unsupported(code)
        }
    }

    /// The numeric tag this classification stands for.
    pub open spec fn spec_code(self) -> u16 {
        match self {
            MhodType::AlbumName => 1,
            MhodType::ThumbnailImage => 2,
            MhodType::FileName => 3,
            MhodType::Container => 5,
            MhodType::Unsupported(code) => code,
        }
    }

    /// Returns the numeric tag this classification stands for.
    pub fn code(self) -> (r: u16)
        ensures
            r == self.spec_code(),
    {
        match self {
            MhodType::AlbumName => 1,
            MhodType::ThumbnailImage => 2,
            MhodType::FileName => 3,
            MhodType::Container => 5,
            MhodType::Unsupported(code) => code,
        }
    }
}

/// The descriptive label for a metadata-object type tag: one fixed label per
/// known tag, and `"Unsupported (<tag>)"` for every other value.
pub open spec fn mhod_label(mhod_type: u16) -> Seq<char> {
    if mhod_type == 1 {
        ("Album Name")@
    } else if mhod_type == 2 {
        ("Thumbnail image")@
    } else if mhod_type == 3 {
        ("File name")@
    } else if mhod_type == 5 {
        ("Container (unused)")@
    } else {
        ("Unsupported (")@ + dec_str(mhod_type as nat) + (")")@
    }
}

/// Maps a metadata-object type tag to its descriptive label.
///
/// Unknown tags yield an `"Unsupported (<tag>)"` label rather than a failure:
/// the format description is known to be incomplete, so classification never
/// aborts a decode.
pub fn decode_mhod_type(mhod_type: u16) -> (r: String)
    ensures
        r@ == mhod_label(mhod_type),
{
    if mhod_type == 1 {
        String::from_str("Album Name")
    } else if mhod_type == 2 {
        String::from_str("Thumbnail image")
    } else if mhod_type == 3 {
        String::from_str("File name")
    } else if mhod_type == 5 {
        String::from_str("Container (unused)")
    } else {
        let mut r = String::from_str("Unsupported (");
        crate::text::push_dec(&mut r, mhod_type as u64);
        r.append(")");
        proof {
            assert(r@ =~= mhod_label(mhod_type));
        }
        r
    }
}

} // verus!
