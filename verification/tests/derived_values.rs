//! The derived presentation values: size display, timestamps, labels,
//! canonical paths.

use photodb::mhod::{decode_mhod_type, MhodType};
use photodb::paths::get_canonical_path;
use photodb::photo_database::Image;
use photodb::size_format::format_size;
use photodb::timestamp::{decode_timestamp, Timestamp};
use chrono::{Datelike, Timelike};

#[test]
fn format_size_zero_is_kb_tier() {
    assert_eq!(format_size(0), "0.00 KB");
}

#[test]
fn format_size_stays_in_kb_tier_below_one_megabyte() {
    assert_eq!(format_size(999_999), "999.99 KB");
    assert_eq!(format_size(1_000), "1.00 KB");
    assert_eq!(format_size(999), "1.00 KB");
    assert_eq!(format_size(985), "0.99 KB");
    assert_eq!(format_size(25_500), "25.50 KB");
}

#[test]
fn format_size_switches_to_mb_tier_at_exactly_one_megabyte() {
    assert_eq!(format_size(1_000_000), "1.00 MB");
    assert_eq!(format_size(1_245_916), "1.25 MB");
    assert_eq!(format_size(2_499_999), "2.50 MB");
}

#[test]
fn format_size_rounds_to_nearest_hundredth() {
    assert_eq!(format_size(1_004_999), "1.00 MB");
    assert_eq!(format_size(1_005_000), "1.01 MB");
}

#[test]
fn format_size_has_no_tier_above_megabytes() {
    assert_eq!(format_size(999_994_999), "999.99 MB");
    assert_eq!(format_size(999_995_000), "1000.00 MB");
    assert_eq!(format_size(u64::MAX), "18446744073709.55 MB");
}

#[test]
fn mhod_labels_match_the_documented_table() {
    assert_eq!(decode_mhod_type(1), "Album Name");
    assert_eq!(decode_mhod_type(2), "Thumbnail image");
    assert_eq!(decode_mhod_type(3), "File name");
    assert_eq!(decode_mhod_type(5), "Container (unused)");
}

#[test]
fn unknown_mhod_tags_never_fail() {
    assert_eq!(decode_mhod_type(4), "Unsupported (4)");
    assert_eq!(decode_mhod_type(6), "Unsupported (6)");
    assert_eq!(decode_mhod_type(0), "Unsupported (0)");
    assert_eq!(decode_mhod_type(65_535), "Unsupported (65535)");
}

#[test]
fn mhod_type_classification_keeps_the_code() {
    assert_eq!(MhodType::from_code(1), MhodType::AlbumName);
    assert_eq!(MhodType::from_code(2), MhodType::ThumbnailImage);
    assert_eq!(MhodType::from_code(3), MhodType::FileName);
    assert_eq!(MhodType::from_code(5), MhodType::Container);
    assert_eq!(MhodType::from_code(6), MhodType::Unsupported(6));
    for code in [1u16, 2, 3, 5, 6, 0, 65_535] {
        assert_eq!(MhodType::from_code(code).code(), code);
    }
}

#[test]
fn decode_timestamp_zero_is_the_platform_reference_instant() {
    let ts = decode_timestamp(0).expect("epoch 0 is representable");
    assert_eq!(ts.unix_seconds, -2_082_844_800);
    let cal = ts.to_calendar().expect("within calendar range");
    assert_eq!(
        (cal.year, cal.month, cal.day, cal.hour, cal.minute, cal.second),
        (1904, 1, 1, 0, 0, 0)
    );
}

#[test]
fn decode_timestamp_is_deterministic_and_shifts_by_the_platform_offset() {
    for epoch in [0u64, 1, 2_082_844_800, 3_665_289_600, 4_294_967_295] {
        let a = decode_timestamp(epoch).expect("representable");
        let b = decode_timestamp(epoch).expect("representable");
        assert_eq!(a, b);
        assert_eq!(a.unix_seconds, epoch as i64 - 2_082_844_800);
    }
}

#[test]
fn decode_timestamp_rejects_values_beyond_the_calendar_range() {
    let max_epoch = 8_212_349_721_599u64;
    assert!(decode_timestamp(max_epoch).is_some());
    assert_eq!(decode_timestamp(max_epoch + 1), None);
    assert_eq!(decode_timestamp(u64::MAX), None);
}

#[test]
fn to_calendar_agrees_with_chrono() {
    for secs in [
        -8_334_601_228_800i64,
        -2_082_844_800,
        -1,
        0,
        951_868_800,
        1_582_444_800,
        8_210_266_876_799,
    ] {
        let cal = Timestamp { unix_seconds: secs }.to_calendar().expect("in range");
        let dt = chrono::DateTime::<chrono::Utc>::from_timestamp(secs, 0).expect("in range");
        assert_eq!(cal.year, dt.year());
        assert_eq!(cal.month, dt.month());
        assert_eq!(cal.day, dt.day());
        assert_eq!(cal.hour, dt.hour());
        assert_eq!(cal.minute, dt.minute());
        assert_eq!(cal.second, dt.second());
    }
}

#[test]
fn to_calendar_matches_chrono_range_endpoints() {
    assert!(Timestamp { unix_seconds: -8_334_601_228_800 }.to_calendar().is_some());
    assert!(Timestamp { unix_seconds: -8_334_601_228_801 }.to_calendar().is_none());
    assert!(Timestamp { unix_seconds: 8_210_266_876_799 }.to_calendar().is_some());
    assert!(Timestamp { unix_seconds: 8_210_266_876_800 }.to_calendar().is_none());
    assert_eq!(
        chrono::DateTime::<chrono::Utc>::from_timestamp(-8_334_601_228_801, 0),
        None
    );
    assert_eq!(
        chrono::DateTime::<chrono::Utc>::from_timestamp(8_210_266_876_800, 0),
        None
    );
}

#[test]
fn canonical_path_replaces_device_separators() {
    assert_eq!(
        get_canonical_path(":Photos:Thumbs:F1009_1.ithmb".to_string()),
        "/Photos/Thumbs/F1009_1.ithmb"
    );
    assert_eq!(
        get_canonical_path("mixed\\style:path/kept.JPG".to_string()),
        "mixed/style/path/kept.JPG"
    );
}

#[test]
fn canonical_path_is_idempotent() {
    let once = get_canonical_path(":a\\b/c.JPG".to_string());
    let twice = get_canonical_path(once.clone());
    assert_eq!(once, twice);
    assert_eq!(get_canonical_path("already/canonical.JPG".to_string()), "already/canonical.JPG");
}

#[test]
fn image_setters_recompute_derived_fields_atomically() {
    let mut img = Image::default();
    assert_eq!(img.filename, "");
    assert_eq!(img.file_size_bytes, 0);
    assert_eq!(img.file_size_human_readable, "");
    assert!(!img.are_dates_valid());

    img.set_filesize(1_245_916);
    assert_eq!(img.file_size_human_readable, "1.25 MB");
    img.set_filesize(0);
    assert_eq!(img.file_size_human_readable, "0.00 KB");

    img.set_original_date(3_665_289_600);
    assert_eq!(img.original_date_epoch, 3_665_289_600);
    assert_eq!(
        img.original_date_ts.unwrap().unix_seconds,
        3_665_289_600i64 - 2_082_844_800
    );
    assert!(!img.are_dates_valid());
    img.set_digitized_date(3_665_376_000);
    assert!(img.are_dates_valid());

    img.set_filename(":Photos:IMG.JPG".to_string());
    assert_eq!(img.filename, "/Photos/IMG.JPG");
}

#[test]
fn dates_are_valid_only_when_both_epochs_are_positive() {
    let cases = [
        (0u64, 0u64, false),
        (0, 7, false),
        (7, 0, false),
        (7, 7, true),
        (1, 1, true),
    ];
    for (orig, digi, expected) in cases {
        let mut img = Image::default();
        img.set_original_date(orig);
        img.set_digitized_date(digi);
        assert_eq!(img.are_dates_valid(), expected);
    }
}
