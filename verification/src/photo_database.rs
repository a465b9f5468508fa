//! The catalogued entities of the Photo Database container, and the walk
//! that assembles them from its records.
//!
//! One [`Image`] is produced per image-item record, in container order. The
//! item's fixed-width fields (byte size and the two raw timestamps) sit at
//! fixed offsets inside the item record's declared header; the filename
//! arrives in a metadata-object child record and is canonicalized on the way
//! in. Unknown record tags and unknown metadata-object tags are skipped by
//! their declared length, never treated as errors; only a record whose
//! declared layout cannot be honoured aborts the decode.

use crate::mhod::MhodType;
use crate::paths::{canonical_path, get_canonical_path};
use crate::records::{
    le16, le32, parse_record_header, read_u16_le, read_u32_le, spec_record_header, RecordHeader,
    RECORD_HEADER_SIZE, TAG_DATABASE_HEADER, TAG_IMAGE_ITEM, TAG_IMAGE_LIST, TAG_METADATA_OBJECT,
    TAG_SECTION,
};
use crate::size_format::{format_size, size_display};
use crate::timestamp::{decode_timestamp, spec_decode_timestamp, Timestamp};
use crate::utf16::{decode_utf16le, le_units, utf16_chars, utf16_valid};
use crate::DecodeError;
use vstd::prelude::*;

verus! {

/// Offset, from the start of an image-item record, of its original
/// (capture) date: seconds since the platform reference epoch, 32-bit
/// little-endian.
pub const IMAGE_ORIGINAL_DATE_OFFSET: u32 = 40;

/// Offset of the digitized date of an image-item record.
pub const IMAGE_DIGITIZED_DATE_OFFSET: u32 = 44;

/// Offset of the source file size, in bytes, of an image-item record.
pub const IMAGE_FILE_SIZE_OFFSET: u32 = 48;

/// The least header length under which an image-item record's mandatory
/// fixed-width fields are all readable.
pub const IMAGE_MIN_HEADER_LEN: u32 = 52;

/// Offset, from the start of a metadata-object record, of its 16-bit type
/// tag.
pub const MHOD_TYPE_OFFSET: u32 = 12;

/// The least header length under which a metadata-object record's type tag
/// (and its trailing padding) is readable.
pub const MHOD_MIN_HEADER_LEN: u32 = 16;

/// A filename payload starts with a 32-bit byte length of the string and 8
/// reserved bytes; the UTF-16LE string itself follows.
pub const FILENAME_PAYLOAD_HEADER_LEN: u32 = 12;

/// The numeric metadata-object tag that carries an item's filename.
pub const MHOD_FILE_NAME_CODE: u16 = 3;

/// One catalogued photograph.
///
/// An `Image` starts in a declared default state (everything zero or empty)
/// and is populated field by field as the records belonging to it are
/// decoded; the fields may arrive in any order. The human-readable size and
/// the two calendar timestamps are derived values: every write of a raw
/// field recomputes its derived companion in the same call, so no reachable
/// state has the two disagreeing.
#[derive(Debug)]
pub struct Image {
    /// Canonical path of the photograph, device separators normalized.
    pub filename: String,
    /// Exact byte count; the source of truth for the displayed size.
    pub file_size_bytes: u64,
    /// Derived display form of `file_size_bytes`; empty until the size is
    /// first written.
    pub file_size_human_readable: String,
    /// Capture time, raw seconds since the platform reference epoch.
    pub original_date_epoch: u64,
    /// Capture time as a Unix-based UTC timestamp, derived from the epoch
    /// field (`None` when the raw value overflows the calendar range).
    pub original_date_ts: Option<Timestamp>,
    /// Digitization time, raw seconds since the platform reference epoch.
    pub digitized_date_epoch: u64,
    /// Digitization time as a Unix-based UTC timestamp, derived like
    /// `original_date_ts`.
    pub digitized_date_ts: Option<Timestamp>,
}

impl Image {
    /// The coherence invariant of an `Image`: the filename is in canonical
    /// form, each timestamp field is exactly the conversion of its raw epoch
    /// field, and the human-readable size is either the display form of the
    /// byte count or still the empty default sentinel (a size of zero is a
    /// value in its own right, so "never written" keeps a distinct form).
    pub open spec fn wf(self) -> bool {
        &&& self.filename@ == canonical_path(self.filename@)
        &&& (self.file_size_human_readable@ == size_display(self.file_size_bytes as nat)
            || self.file_size_human_readable@.len() == 0)
        &&& self.original_date_ts == spec_decode_timestamp(self.original_date_epoch)
        &&& self.digitized_date_ts == spec_decode_timestamp(self.digitized_date_epoch)
    }

    /// Sets the capture time from a raw platform epoch value, recomputing
    /// the derived calendar timestamp in the same step.
    pub fn set_original_date(&mut self, orig_date_epoch: u64)
        ensures
            final(self).original_date_epoch == orig_date_epoch,
            final(self).original_date_ts == spec_decode_timestamp(orig_date_epoch),
            final(self).filename == old(self).filename,
            final(self).file_size_bytes == old(self).file_size_bytes,
            final(self).file_size_human_readable == old(self).file_size_human_readable,
            final(self).digitized_date_epoch == old(self).digitized_date_epoch,
            final(self).digitized_date_ts == old(self).digitized_date_ts,
            old(self).wf() ==> final(self).wf(),
    {
        self.original_date_epoch = orig_date_epoch;
        self.original_date_ts = decode_timestamp(orig_date_epoch);
    }

    /// Sets the byte count, recomputing the human-readable display in the
    /// same step.
    pub fn set_filesize(&mut self, filesize_in_bytes: u64)
        ensures
            final(self).file_size_bytes == filesize_in_bytes,
            final(self).file_size_human_readable@ == size_display(filesize_in_bytes as nat),
            final(self).filename == old(self).filename,
            final(self).original_date_epoch == old(self).original_date_epoch,
            final(self).original_date_ts == old(self).original_date_ts,
            final(self).digitized_date_epoch == old(self).digitized_date_epoch,
            final(self).digitized_date_ts == old(self).digitized_date_ts,
            old(self).wf() ==> final(self).wf(),
    {
        self.file_size_bytes = filesize_in_bytes;
        self.file_size_human_readable = format_size(filesize_in_bytes);
    }

    /// Sets the digitization time from a raw platform epoch value,
    /// recomputing the derived calendar timestamp in the same step.
    pub fn set_digitized_date(&mut self, digitized_date_epoch: u64)
        ensures
            final(self).digitized_date_epoch == digitized_date_epoch,
            final(self).digitized_date_ts == spec_decode_timestamp(digitized_date_epoch),
            final(self).filename == old(self).filename,
            final(self).file_size_bytes == old(self).file_size_bytes,
            final(self).file_size_human_readable == old(self).file_size_human_readable,
            final(self).original_date_epoch == old(self).original_date_epoch,
            final(self).original_date_ts == old(self).original_date_ts,
            old(self).wf() ==> final(self).wf(),
    {
        self.digitized_date_epoch = digitized_date_epoch;
        self.digitized_date_ts = decode_timestamp(digitized_date_epoch);
    }

    /// Stores a filename, normalized to the canonical path form.
    pub fn set_filename(&mut self, filename: String)
        ensures
            final(self).filename@ == canonical_path(filename@),
            final(self).file_size_bytes == old(self).file_size_bytes,
            final(self).file_size_human_readable == old(self).file_size_human_readable,
            final(self).original_date_epoch == old(self).original_date_epoch,
            final(self).original_date_ts == old(self).original_date_ts,
            final(self).digitized_date_epoch == old(self).digitized_date_epoch,
            final(self).digitized_date_ts == old(self).digitized_date_ts,
            old(self).wf() ==> final(self).wf(),
    {
        self.filename = get_canonical_path(filename);
        proof {
            crate::paths::lemma_canonical_path_idempotent(filename@);
        }
    }

    /// Whether both dates carry real values: raw epoch 0 is the reserved
    /// "unset" sentinel, not a valid calendar instant, so the dates are
    /// valid exactly when both raw epochs are strictly positive.
    pub fn are_dates_valid(&mut self) -> (r: bool)
        ensures
            *final(self) == *old(self),
            r <==> (old(self).original_date_epoch > 0 && old(self).digitized_date_epoch > 0),
    {
        (self.original_date_epoch > 0) && (self.digitized_date_epoch > 0)
    }
}

/// The declared default state: every field zero or empty, the derived
/// timestamps being the conversions of raw epoch 0 (the platform reference
/// instant, standing for "unset").
impl Default for Image {
    fn default() -> (r: Image)
        ensures
            r.filename@.len() == 0,
            r.file_size_bytes == 0,
            r.file_size_human_readable@.len() == 0,
            r.original_date_epoch == 0,
            r.original_date_ts == spec_decode_timestamp(0),
            r.digitized_date_epoch == 0,
            r.digitized_date_ts == spec_decode_timestamp(0),
            r.wf(),
    {
        let r = Image {
            filename: String::new(),
            file_size_bytes: 0,
            file_size_human_readable: String::new(),
            original_date_epoch: 0,
            original_date_ts: decode_timestamp(0),
            digitized_date_epoch: 0,
            digitized_date_ts: decode_timestamp(0),
        };
        proof {
            assert(canonical_path(r.filename@) =~= r.filename@);
        }
        r
    }
}

/// The mathematical content of one decoded item: the raw fields every
/// derived field of an [`Image`] is a function of.
pub ghost struct ImageV {
    pub filename: Seq<char>,
    pub file_size_bytes: u64,
    pub original_date_epoch: u64,
    pub digitized_date_epoch: u64,
}

/// Whether the executable `img` carries exactly the content `v`, derived
/// fields included.
pub open spec fn image_matches(img: Image, v: ImageV) -> bool {
    &&& img.filename@ == v.filename
    &&& img.file_size_bytes == v.file_size_bytes
    &&& img.file_size_human_readable@ == size_display(v.file_size_bytes as nat)
    &&& img.original_date_epoch == v.original_date_epoch
    &&& img.original_date_ts == spec_decode_timestamp(v.original_date_epoch)
    &&& img.digitized_date_epoch == v.digitized_date_epoch
    &&& img.digitized_date_ts == spec_decode_timestamp(v.digitized_date_epoch)
}

/// Pointwise [`image_matches`] over whole sequences.
pub open spec fn images_match(imgs: Seq<Image>, vs: Seq<ImageV>) -> bool {
    &&& imgs.len() == vs.len()
    &&& forall|i: int| 0 <= i < vs.len() ==> image_matches(#[trigger] imgs[i], vs[i])
}

/// The filename an image item's child records leave behind, starting from
/// `cur`: child records are walked in order between `cursor` and `end`, each
/// advanced by its declared total length; a metadata-object record with the
/// filename tag replaces the filename with its canonicalized payload (the
/// last one wins), every other child is skipped. Structural failures are as
/// in the top-level walk, with string-payload inconsistencies reported
/// against the child record's offset.
pub open spec fn spec_image_filename(b: Seq<u8>, cursor: int, end: int, cur: Seq<char>) -> Result<
    Seq<char>,
    DecodeError,
>
    recommends
        0 <= cursor,
        end <= b.len(),
    decreases end - cursor,
{
    if cursor >= end {
        Ok(cur)
    } else if end - cursor < RECORD_HEADER_SIZE {
        Err(DecodeError::Truncated { offset: cursor as usize })
    } else {
        let tag = le32(b, cursor);
        let hlen = le32(b, cursor + 4);
        let tlen = le32(b, cursor + 8);
        if hlen < RECORD_HEADER_SIZE || tlen < hlen {
            Err(DecodeError::BadRecord { offset: cursor as usize })
        } else if end - cursor < tlen {
            Err(DecodeError::Truncated { offset: cursor as usize })
        } else if tag == TAG_METADATA_OBJECT && hlen >= MHOD_MIN_HEADER_LEN && le16(b, cursor + 12)
            == MHOD_FILE_NAME_CODE {
            if tlen - hlen < FILENAME_PAYLOAD_HEADER_LEN {
                Err(DecodeError::BadRecord { offset: cursor as usize })
            } else {
                let slen = le32(b, cursor + hlen);
                if slen % 2 != 0 || tlen - hlen - FILENAME_PAYLOAD_HEADER_LEN < slen {
                    Err(DecodeError::BadRecord { offset: cursor as usize })
                } else {
                    let units = le_units(b, cursor + hlen + 12, slen as int / 2);
                    if !utf16_valid(units) {
                        Err(DecodeError::InvalidString { offset: cursor as usize })
                    } else {
                        spec_image_filename(
                            b,
                            cursor + tlen,
                            end,
                            canonical_path(utf16_chars(units)),
                        )
                    }
                }
            }
        } else {
            spec_image_filename(b, cursor + tlen, end, cur)
        }
    }
}

/// The content one image-item record decodes to: the three fixed-width
/// fields from its header, and the filename its children leave behind. An
/// item whose declared header length cannot hold the mandatory fields is a
/// structural failure.
pub open spec fn spec_decode_image(b: Seq<u8>, cursor: int, h: RecordHeader) -> Result<
    ImageV,
    DecodeError,
>
    recommends
        0 <= cursor,
        cursor + h.total_len <= b.len(),
        RECORD_HEADER_SIZE <= h.header_len <= h.total_len,
{
    if h.header_len < IMAGE_MIN_HEADER_LEN {
        Err(DecodeError::BadRecord { offset: cursor as usize })
    } else {
        match spec_image_filename(
            b,
            cursor + h.header_len,
            cursor + h.total_len,
            Seq::<char>::empty(),
        ) {
            Ok(name) => Ok(
                ImageV {
                    filename: name,
                    file_size_bytes: le32(b, cursor + IMAGE_FILE_SIZE_OFFSET) as u64,
                    original_date_epoch: le32(b, cursor + IMAGE_ORIGINAL_DATE_OFFSET) as u64,
                    digitized_date_epoch: le32(b, cursor + IMAGE_DIGITIZED_DATE_OFFSET) as u64,
                },
            ),
            Err(e) => Err(e),
        }
    }
}

/// The whole container walk from `cursor`, with the items already decoded in
/// `acc`: group records (database header, section, image list) are entered
/// through their declared header length, image items are decoded and their
/// whole span skipped, and every other record — album records, stray
/// metadata objects, unrecognized tags — is skipped by its declared total
/// length.
#[verifier::rlimit(60)]
pub open spec fn spec_walk(b: Seq<u8>, cursor: int, acc: Seq<ImageV>) -> Result<
    Seq<ImageV>,
    DecodeError,
>
    recommends
        0 <= cursor <= b.len(),
    decreases b.len() - cursor,
{
    if cursor >= b.len() {
        Ok(acc)
    } else {
        match spec_record_header(b, cursor) {
            Err(e) => Err(e),
            Ok(h) => {
                if h.tag == TAG_DATABASE_HEADER || h.tag == TAG_SECTION || h.tag
                    == TAG_IMAGE_LIST {
                    spec_walk(b, cursor + h.header_len, acc)
                } else if h.tag == TAG_IMAGE_ITEM {
                    match spec_decode_image(b, cursor, h) {
                        Ok(v) => spec_walk(b, cursor + h.total_len, acc.push(v)),
                        Err(e) => Err(e),
                    }
                } else {
                    spec_walk(b, cursor + h.total_len, acc)
                }
            },
        }
    }
}

/// Decodes one image-item record whose checked header is `h`.
#[verifier::rlimit(100)]
#[verifier::loop_isolation(false)]
fn decode_image(buf: &Vec<u8>, cursor: usize, h: RecordHeader) -> (r: Result<Image, DecodeError>)
    requires
        cursor + h.total_len <= buf@.len(),
        RECORD_HEADER_SIZE <= h.header_len <= h.total_len,
    ensures
        (r matches Ok(img) ==> spec_decode_image(buf@, cursor as int, h) matches Ok(v)
            && image_matches(img, v) && img.wf()),
        (r matches Err(e) ==> spec_decode_image(buf@, cursor as int, h) == Err::<
            ImageV,
            DecodeError,
        >(e)),
{
    let buf_len = buf.len();
    if h.header_len < IMAGE_MIN_HEADER_LEN {
        return Err(DecodeError::BadRecord { offset: cursor });
    }
    let mut img = Image::default();
    img.set_filesize(read_u32_le(buf, cursor + IMAGE_FILE_SIZE_OFFSET as usize) as u64);
    img.set_original_date(read_u32_le(buf, cursor + IMAGE_ORIGINAL_DATE_OFFSET as usize) as u64);
    img.set_digitized_date(read_u32_le(buf, cursor + IMAGE_DIGITIZED_DATE_OFFSET as usize) as u64);
    let end = cursor + h.total_len as usize;
    let mut c = cursor + h.header_len as usize;
    let ghost start0 = c as int;
    proof {
        assert(img.filename@ =~= Seq::<char>::empty());
    }
    while c < end
        invariant
            buf_len == buf@.len(),
            cursor <= c <= end,
            end == cursor + h.total_len,
            end <= buf_len,
            spec_image_filename(buf@, start0, end as int, Seq::<char>::empty())
                == spec_image_filename(buf@, c as int, end as int, img.filename@),
            image_matches(
                img,
                ImageV {
                    filename: img.filename@,
                    file_size_bytes: le32(buf@, cursor + IMAGE_FILE_SIZE_OFFSET) as u64,
                    original_date_epoch: le32(buf@, cursor + IMAGE_ORIGINAL_DATE_OFFSET) as u64,
                    digitized_date_epoch: le32(buf@, cursor + IMAGE_DIGITIZED_DATE_OFFSET) as u64,
                },
            ),
            img.wf(),
        decreases end - c,
    {
        let ghost b = buf@;
        let ghost ci = c as int;
        let ghost e = end as int;
        let ghost name0 = img.filename@;
        if end - c < 12 {
            proof {
                assert(spec_image_filename(b, ci, e, name0) == Err::<Seq<char>, DecodeError>(
                    DecodeError::Truncated { offset: c },
                ));
            }
            return Err(DecodeError::Truncated { offset: c });
        }
        let tag = read_u32_le(buf, c);
        let hlen = read_u32_le(buf, c + 4);
        let tlen = read_u32_le(buf, c + 8);
        if hlen < RECORD_HEADER_SIZE || tlen < hlen {
            proof {
                assert(spec_image_filename(b, ci, e, name0) == Err::<Seq<char>, DecodeError>(
                    DecodeError::BadRecord { offset: c },
                ));
            }
            return Err(DecodeError::BadRecord { offset: c });
        }
        if tlen as usize > end - c {
            proof {
                assert(spec_image_filename(b, ci, e, name0) == Err::<Seq<char>, DecodeError>(
                    DecodeError::Truncated { offset: c },
                ));
            }
            return Err(DecodeError::Truncated { offset: c });
        }
        let is_filename_mhod = tag == TAG_METADATA_OBJECT && hlen >= MHOD_MIN_HEADER_LEN
            && MhodType::from_code(read_u16_le(buf, c + MHOD_TYPE_OFFSET as usize))
            == MhodType::FileName;
        if is_filename_mhod {
            if tlen - hlen < FILENAME_PAYLOAD_HEADER_LEN {
                proof {
                    assert(spec_image_filename(b, ci, e, name0) == Err::<Seq<char>, DecodeError>(
                        DecodeError::BadRecord { offset: c },
                    ));
                }
                return Err(DecodeError::BadRecord { offset: c });
            }
            let slen = read_u32_le(buf, c + hlen as usize);
            if slen % 2 != 0 || slen > tlen - hlen - FILENAME_PAYLOAD_HEADER_LEN {
                proof {
                    assert(spec_image_filename(b, ci, e, name0) == Err::<Seq<char>, DecodeError>(
                        DecodeError::BadRecord { offset: c },
                    ));
                }
                return Err(DecodeError::BadRecord { offset: c });
            }
            let ghost units = le_units(b, ci + hlen + 12, slen as int / 2);
            match decode_utf16le(buf, c + hlen as usize + 12, slen as usize / 2) {
                Some(s) => {
                    proof {
                        assert(utf16_valid(units));
                        assert(spec_image_filename(b, ci, e, name0) == spec_image_filename(
                            b,
                            ci + tlen,
                            e,
                            canonical_path(utf16_chars(units)),
                        ));
                    }
                    img.set_filename(s);
                },
                None => {
                    proof {
                        assert(spec_image_filename(b, ci, e, name0) == Err::<
                            Seq<char>,
                            DecodeError,
                        >(DecodeError::InvalidString { offset: c }));
                    }
                    return Err(DecodeError::InvalidString { offset: c });
                },
            }
        } else {
            proof {
                assert(spec_image_filename(b, ci, e, name0) == spec_image_filename(
                    b,
                    ci + tlen,
                    e,
                    name0,
                ));
            }
        }
        c = c + tlen as usize;
    }
    Ok(img)
}

/// Decodes a whole Photo Database container buffer into its catalogued
/// images, in container order.
///
/// Succeeds exactly when the record walk [`spec_walk`] does, yielding images
/// that carry its content, each with coherent derived fields; on a
/// structural failure the error reports the offset of the offending record
/// and nothing is yielded.
pub fn decode_photo_database(buf: &Vec<u8>) -> (r: Result<Vec<Image>, DecodeError>)
    ensures
        (r matches Ok(images) ==> spec_walk(buf@, 0, Seq::<ImageV>::empty()) matches Ok(vs)
            && images_match(images@, vs)),
        (r matches Err(e) ==> spec_walk(buf@, 0, Seq::<ImageV>::empty()) == Err::<
            Seq<ImageV>,
            DecodeError,
        >(e)),
        r matches Ok(images) ==> forall|i: int| 0 <= i < images@.len() ==> (#[trigger] images@[i]).wf(),
{
    let buf_len = buf.len();
    let mut images: Vec<Image> = Vec::new();
    let ghost mut vs_acc: Seq<ImageV> = Seq::empty();
    let mut cursor: usize = 0;
    while cursor < buf_len
        invariant
            buf_len == buf@.len(),
            cursor <= buf_len,
            spec_walk(buf@, 0, Seq::<ImageV>::empty()) == spec_walk(buf@, cursor as int, vs_acc),
            images_match(images@, vs_acc),
            forall|i: int| 0 <= i < images@.len() ==> (#[trigger] images@[i]).wf(),
        decreases buf_len - cursor,
    {
        let h = match parse_record_header(buf, cursor) {
            Ok(h) => h,
            Err(e) => {
                return Err(e);
            },
        };
        if h.tag == TAG_DATABASE_HEADER || h.tag == TAG_SECTION || h.tag == TAG_IMAGE_LIST {
            cursor = cursor + h.header_len as usize;
        } else if h.tag == TAG_IMAGE_ITEM {
            match decode_image(buf, cursor, h) {
                Ok(img) => {
                    proof {
                        let v = spec_decode_image(buf@, cursor as int, h)->Ok_0;
                        vs_acc = vs_acc.push(v);
                    }
                    images.push(img);
                },
                Err(e) => {
                    return Err(e);
                },
            }
            cursor = cursor + h.total_len as usize;
        } else {
            cursor = cursor + h.total_len as usize;
        }
    }
    Ok(images)
}

} // verus!
