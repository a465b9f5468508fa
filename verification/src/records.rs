//! The typed, length-prefixed record layer of the container.
//!
//! Every record starts with a fixed 12-byte header: a 4-byte ASCII type
//! identifier, then the declared header length and the declared total length,
//! both 32-bit little-endian counts of bytes from the start of the record.
//! The fixed-width fields of a record occupy the bytes up to its header
//! length; for group records the child records follow between header length
//! and total length, for leaf records that span holds the payload. A record
//! whose declared lengths cannot be honoured against the buffer is a
//! structural decode failure; an unrecognized type identifier is not.

use crate::DecodeError;
use vstd::prelude::*;

verus! {

/// Type identifier of the outer database header record, `"mhfd"`.
pub const TAG_DATABASE_HEADER: u32 = 0x6466_686D;

/// Type identifier of a dataset section record, `"mhsd"`.
pub const TAG_SECTION: u32 = 0x6473_686D;

/// Type identifier of the image list record, `"mhli"`.
pub const TAG_IMAGE_LIST: u32 = 0x696C_686D;

/// Type identifier of an image item record, `"mhii"`.
pub const TAG_IMAGE_ITEM: u32 = 0x6969_686D;

/// Type identifier of a metadata-object record, `"mhod"`.
pub const TAG_METADATA_OBJECT: u32 = 0x646F_686D;

/// The size of the fixed record header: type identifier, header length,
/// total length.
pub const RECORD_HEADER_SIZE: u32 = 12;

/// The 16-bit value stored little-endian at `off` in `b`.
pub open spec fn le16(b: Seq<u8>, off: int) -> u16
    recommends
        0 <= off,
        off + 2 <= b.len(),
{
    (b[off] + b[off + 1] * 0x100) as u16
}

/// The 32-bit value stored little-endian at `off` in `b`.
pub open spec fn le32(b: Seq<u8>, off: int) -> u32
    recommends
        0 <= off,
        off + 4 <= b.len(),
{
    (b[off] + b[off + 1] * 0x100 + b[off + 2] * 0x1_0000 + b[off + 3] * 0x100_0000) as u32
}

/// Reads the 16-bit little-endian value at `off`.
pub fn read_u16_le(buf: &Vec<u8>, off: usize) -> (r: u16)
    requires
        off + 2 <= buf@.len(),
    ensures
        r == le16(buf@, off as int),
{
    let n = buf.len();
    proof {
        assert(off + 2 <= n);
    }
    buf[off] as u16 + buf[off + 1] as u16 * 0x100
}

/// Reads the 32-bit little-endian value at `off`.
pub fn read_u32_le(buf: &Vec<u8>, off: usize) -> (r: u32)
    requires
        off + 4 <= buf@.len(),
    ensures
        r == le32(buf@, off as int),
{
    let n = buf.len();
    proof {
        assert(off + 4 <= n);
    }
    buf[off] as u32 + buf[off + 1] as u32 * 0x100 + buf[off + 2] as u32 * 0x1_0000 + buf[off
        + 3] as u32 * 0x100_0000
}

/// The parsed fixed header of one record: its type tag (the 4 ASCII bytes,
/// little-endian) and its two declared lengths, already checked against the
/// buffer.
#[derive(Clone, Copy, Debug, PartialEq, Eq, Structural)]
pub struct RecordHeader {
    /// The 4-byte ASCII type identifier, as a little-endian 32-bit value.
    pub tag: u32,
    /// Declared length of the record's fixed fields, from the record start.
    pub header_len: u32,
    /// Declared length of the whole record, children or payload included.
    pub total_len: u32,
}

/// The record header found at `cursor`, or the structural failure that
/// reading it raises: a truncation when fewer than 12 bytes remain or the
/// declared total length reaches past the buffer end, a bad record when the
/// declared lengths are inconsistent.
pub open spec fn spec_record_header(b: Seq<u8>, cursor: int) -> Result<
    RecordHeader,
    DecodeError,
>
    recommends
        0 <= cursor,
{
    if b.len() < cursor + RECORD_HEADER_SIZE {
        Err(DecodeError::Truncated { offset: cursor as usize })
    } else {
        let hlen = le32(b, cursor + 4);
        let tlen = le32(b, cursor + 8);
        if hlen < RECORD_HEADER_SIZE || tlen < hlen {
            Err(DecodeError::BadRecord { offset: cursor as usize })
        } else if b.len() < cursor + tlen {
            Err(DecodeError::Truncated { offset: cursor as usize })
        } else {
            Ok(RecordHeader { tag: le32(b, cursor), header_len: hlen, total_len: tlen })
        }
    }
}

/// Reads and checks the record header at `cursor`.
///
/// On success the whole declared record lies within the buffer and its
/// header length is at least the fixed 12 bytes; on failure the error names
/// the offset of the offending record.
pub fn parse_record_header(buf: &Vec<u8>, cursor: usize) -> (r: Result<RecordHeader, DecodeError>)
    requires
        cursor <= buf@.len(),
    ensures
        r == spec_record_header(buf@, cursor as int),
{
    if buf.len() - cursor < 12 {
        return Err(DecodeError::Truncated { offset: cursor });
    }
    let tag = read_u32_le(buf, cursor);
    let hlen = read_u32_le(buf, cursor + 4);
    let tlen = read_u32_le(buf, cursor + 8);
    if hlen < RECORD_HEADER_SIZE || tlen < hlen {
        return Err(DecodeError::BadRecord { offset: cursor });
    }
    if tlen as usize > buf.len() - cursor {
        return Err(DecodeError::Truncated { offset: cursor });
    }
    Ok(RecordHeader { tag, header_len: hlen, total_len: tlen })
}

/// Copies out the payload of the record at `cursor` with checked header `h`:
/// the bytes between its declared header length and its declared total
/// length (for a group record these hold its child records, for a leaf
/// record its data). The copy lets the caller keep payloads after the
/// container buffer is released.
pub fn record_payload(buf: &Vec<u8>, cursor: usize, h: RecordHeader) -> (r: Vec<u8>)
    requires
        spec_record_header(buf@, cursor as int) == Ok::<RecordHeader, DecodeError>(h),
    ensures
        r@ == buf@.subrange(cursor + h.header_len, cursor + h.total_len),
{
    let n = buf.len();
    proof {
        assert(cursor + h.header_len <= cursor + h.total_len <= n);
    }
    let start = cursor + h.header_len as usize;
    let end = cursor + h.total_len as usize;
    let mut r: Vec<u8> = Vec::new();
    let mut i: usize = start;
    while i < end
        invariant
            start <= i <= end,
            end <= buf@.len(),
            r@ == buf@.subrange(start as int, i as int),
        decreases end - i,
    {
        r.push(buf[i]);
        i = i + 1;
        proof {
            assert(r@ =~= buf@.subrange(start as int, i as int));
        }
    }
    proof {
        assert(r@ =~= buf@.subrange(cursor + h.header_len, cursor + h.total_len));
    }
    r
}

} // verus!
