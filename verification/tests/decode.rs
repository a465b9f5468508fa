//! End-to-end decoding of synthetic container buffers.

use photodb::photo_database::{decode_photo_database, Image};
use photodb::records::{parse_record_header, record_payload};
use photodb::DecodeError;

fn push_u16(buf: &mut Vec<u8>, v: u16) {
    buf.push((v & 0xFF) as u8);
    buf.push((v >> 8) as u8);
}

fn push_u32(buf: &mut Vec<u8>, v: u32) {
    buf.push((v & 0xFF) as u8);
    buf.push(((v >> 8) & 0xFF) as u8);
    buf.push(((v >> 16) & 0xFF) as u8);
    buf.push(((v >> 24) & 0xFF) as u8);
}

fn push_record_header(buf: &mut Vec<u8>, tag: &[u8; 4], header_len: u32, total_len: u32) {
    buf.extend_from_slice(tag);
    push_u32(buf, header_len);
    push_u32(buf, total_len);
}

fn utf16le_bytes(s: &str) -> Vec<u8> {
    let mut out = Vec::new();
    for unit in s.encode_utf16() {
        push_u16(&mut out, unit);
    }
    out
}

/// A filename metadata-object record: 16-byte header with type tag 3, then a
/// payload of string byte length, 8 reserved bytes, and the UTF-16LE string.
fn filename_mhod(name_utf16: &[u8]) -> Vec<u8> {
    let mut rec = Vec::new();
    let total = 16 + 12 + name_utf16.len() as u32;
    push_record_header(&mut rec, b"mhod", 16, total);
    push_u16(&mut rec, 3);
    push_u16(&mut rec, 0);
    push_u32(&mut rec, name_utf16.len() as u32);
    push_u32(&mut rec, 0);
    push_u32(&mut rec, 0);
    rec.extend_from_slice(name_utf16);
    rec
}

/// An image-item record with a 52-byte header carrying the two dates and the
/// size, followed by the given child records.
fn image_item(original: u32, digitized: u32, size: u32, children: &[u8]) -> Vec<u8> {
    let mut rec = Vec::new();
    let total = 52 + children.len() as u32;
    push_record_header(&mut rec, b"mhii", 52, total);
    rec.resize(40, 0);
    push_u32(&mut rec, original);
    push_u32(&mut rec, digitized);
    push_u32(&mut rec, size);
    rec.extend_from_slice(children);
    rec
}

/// Wraps image items in the container scaffolding: database header, section,
/// image list.
fn container(items: &[u8]) -> Vec<u8> {
    let mut buf = Vec::new();
    push_record_header(&mut buf, b"mhfd", 12, 36 + items.len() as u32);
    push_record_header(&mut buf, b"mhsd", 12, 24 + items.len() as u32);
    push_record_header(&mut buf, b"mhli", 12, 12 + items.len() as u32);
    buf.extend_from_slice(items);
    buf
}

const T1: u32 = 3_665_289_600;
const T2: u32 = 3_665_376_000;

fn one_image_buffer() -> Vec<u8> {
    let mhod = filename_mhod(&utf16le_bytes("IMG_0001.JPG"));
    let item = image_item(T1, T2, 1_245_916, &mhod);
    container(&item)
}

#[test]
fn decodes_one_item_end_to_end() {
    let buf = one_image_buffer();
    let images = decode_photo_database(&buf).expect("decode should succeed");
    assert_eq!(images.len(), 1);
    let mut img: Image = images.into_iter().next().unwrap();
    assert_eq!(img.filename, "IMG_0001.JPG");
    assert_eq!(img.file_size_bytes, 1_245_916);
    assert_eq!(img.file_size_human_readable, "1.25 MB");
    assert_eq!(img.original_date_epoch, T1 as u64);
    assert_eq!(img.digitized_date_epoch, T2 as u64);
    let ts = img.original_date_ts.expect("within calendar range");
    assert_eq!(ts.unix_seconds, T1 as i64 - 2_082_844_800);
    let ts2 = img.digitized_date_ts.expect("within calendar range");
    assert_eq!(ts2.unix_seconds, T2 as i64 - 2_082_844_800);
    assert!(img.are_dates_valid());
}

#[test]
fn empty_buffer_yields_no_images() {
    let buf = Vec::new();
    let images = decode_photo_database(&buf).expect("empty container");
    assert!(images.is_empty());
}

#[test]
fn item_without_filename_keeps_empty_name() {
    let item = image_item(0, 0, 500, &[]);
    let buf = container(&item);
    let mut images = decode_photo_database(&buf).expect("decode should succeed");
    assert_eq!(images.len(), 1);
    let mut img = images.pop().unwrap();
    assert_eq!(img.filename, "");
    assert_eq!(img.file_size_human_readable, "0.50 KB");
    assert!(!img.are_dates_valid());
}

#[test]
fn device_separators_are_normalized_in_decoded_filename() {
    let mhod = filename_mhod(&utf16le_bytes(":Photos:Thumbs\\F1009_1.ithmb"));
    let item = image_item(T1, T2, 1_000, &mhod);
    let buf = container(&item);
    let images = decode_photo_database(&buf).expect("decode should succeed");
    assert_eq!(images[0].filename, "/Photos/Thumbs/F1009_1.ithmb");
}

#[test]
fn non_bmp_filename_round_trips_through_surrogate_pairs() {
    let name = "\u{1F600}_photo.JPG";
    let mhod = filename_mhod(&utf16le_bytes(name));
    let item = image_item(T1, T2, 1_000, &mhod);
    let buf = container(&item);
    let images = decode_photo_database(&buf).expect("decode should succeed");
    assert_eq!(images[0].filename, name);
}

#[test]
fn last_filename_record_wins() {
    let mut children = filename_mhod(&utf16le_bytes("first.JPG"));
    children.extend_from_slice(&filename_mhod(&utf16le_bytes("second.JPG")));
    let item = image_item(T1, T2, 1_000, &children);
    let buf = container(&item);
    let images = decode_photo_database(&buf).expect("decode should succeed");
    assert_eq!(images[0].filename, "second.JPG");
}

#[test]
fn unknown_metadata_tag_is_skipped_not_fatal() {
    // A metadata object with the undocumented tag 6 before the filename one.
    let mut unknown = Vec::new();
    push_record_header(&mut unknown, b"mhod", 16, 20);
    push_u16(&mut unknown, 6);
    push_u16(&mut unknown, 0);
    push_u32(&mut unknown, 0xDEAD_BEEF);
    let mut children = unknown;
    children.extend_from_slice(&filename_mhod(&utf16le_bytes("ok.JPG")));
    let item = image_item(T1, T2, 1_000, &children);
    let buf = container(&item);
    let images = decode_photo_database(&buf).expect("unknown tags are data, not errors");
    assert_eq!(images[0].filename, "ok.JPG");
}

#[test]
fn unknown_top_level_record_is_skipped() {
    let item = image_item(T1, T2, 1_000, &filename_mhod(&utf16le_bytes("a.JPG")));
    let mut items = Vec::new();
    // An unrecognized record before the image item, skipped by total length.
    push_record_header(&mut items, b"mhxx", 12, 20);
    items.extend_from_slice(&[0xAA; 8]);
    items.extend_from_slice(&item);
    let buf = container(&items);
    let images = decode_photo_database(&buf).expect("decode should succeed");
    assert_eq!(images.len(), 1);
}

#[test]
fn two_items_decode_in_container_order() {
    let a = image_item(T1, T2, 1_000, &filename_mhod(&utf16le_bytes("a.JPG")));
    let b = image_item(T1, T2, 2_000, &filename_mhod(&utf16le_bytes("b.JPG")));
    let mut items = a;
    items.extend_from_slice(&b);
    let buf = container(&items);
    let images = decode_photo_database(&buf).expect("decode should succeed");
    assert_eq!(images.len(), 2);
    assert_eq!(images[0].filename, "a.JPG");
    assert_eq!(images[1].filename, "b.JPG");
}

#[test]
fn truncated_final_record_is_a_structural_failure() {
    let mut buf = one_image_buffer();
    // Declare four more bytes than the buffer holds: the final record's
    // declared length now reaches past the end.
    let n = buf.len();
    buf[n - 104 + 8] = ((104 + 4) & 0xFF) as u8;
    let err = decode_photo_database(&buf).expect_err("truncated record must fail");
    assert_eq!(err, DecodeError::Truncated { offset: 36 });
}

#[test]
fn short_tail_is_a_structural_failure() {
    let mut buf = one_image_buffer();
    // Leave fewer bytes than a record header needs after the last record.
    buf.extend_from_slice(&[0u8; 5]);
    let err = decode_photo_database(&buf).expect_err("trailing garbage must fail");
    assert_eq!(err, DecodeError::Truncated { offset: 140 });
}

#[test]
fn inconsistent_lengths_are_a_bad_record() {
    let mut buf = one_image_buffer();
    // Corrupt the image item's header length to less than the fixed minimum.
    buf[36 + 4] = 4;
    let err = decode_photo_database(&buf).expect_err("bad lengths must fail");
    assert_eq!(err, DecodeError::BadRecord { offset: 36 });
}

#[test]
fn odd_string_length_is_a_bad_record() {
    // Declare an odd UTF-16 byte length: one stray byte after "x.JPG".
    let mut name = utf16le_bytes("x.JPG");
    name.push(0);
    let mhod = filename_mhod(&name);
    let item = image_item(T1, T2, 1_000, &mhod);
    let buf = container(&item);
    let err = decode_photo_database(&buf).expect_err("odd UTF-16 length must fail");
    assert_eq!(err, DecodeError::BadRecord { offset: 36 + 52 });
}

#[test]
fn unpaired_surrogate_is_an_invalid_string() {
    let mut name = Vec::new();
    push_u16(&mut name, 0xD800);
    push_u16(&mut name, 0x0041);
    let mhod = filename_mhod(&name);
    let item = image_item(T1, T2, 1_000, &mhod);
    let buf = container(&item);
    let err = decode_photo_database(&buf).expect_err("unpaired surrogate must fail");
    assert_eq!(err, DecodeError::InvalidString { offset: 36 + 52 });
}

#[test]
fn record_payload_returns_the_declared_span() {
    let buf = one_image_buffer();
    let h = parse_record_header(&buf, 0).expect("database header parses");
    assert_eq!(h.header_len, 12);
    assert_eq!(h.total_len as usize, buf.len());
    let payload = record_payload(&buf, 0, h);
    assert_eq!(payload, buf[12..].to_vec());
}

#[test]
fn parse_record_header_reports_short_buffers() {
    let buf = vec![0x6D, 0x68, 0x66, 0x64];
    let err = parse_record_header(&buf, 0).expect_err("too short for a header");
    assert_eq!(err, DecodeError::Truncated { offset: 0 });
}
