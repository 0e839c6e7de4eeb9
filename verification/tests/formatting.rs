use gcs_index::listing::{format_size, format_timestamp};
use gcs_index::model::Timestamp;
use gcs_index::text::u64_to_string;

#[test]
fn decimal_rendering() {
    assert_eq!(u64_to_string(0), "0");
    assert_eq!(u64_to_string(7), "7");
    assert_eq!(u64_to_string(10), "10");
    assert_eq!(u64_to_string(12345), "12345");
    assert_eq!(u64_to_string(u64::MAX), "18446744073709551615");
}

#[test]
fn size_plain_up_to_threshold() {
    assert_eq!(format_size(0), "0");
    assert_eq!(format_size(1), "1");
    assert_eq!(format_size(500), "500");
    assert_eq!(format_size(1023), "1023");
    // The thresholds are strict: 1024 itself is below the K range.
    assert_eq!(format_size(1024), "1024");
}

#[test]
fn size_rounded_kib() {
    assert_eq!(format_size(1025), "1K");
    assert_eq!(format_size(1500), "1K");
    // Half rounds away from zero: 1536 / 1024 = 1.5.
    assert_eq!(format_size(1536), "2K");
    assert_eq!(format_size(2048), "2K");
    assert_eq!(format_size(10240), "10K");
    // The M threshold is strict as well: exactly 1 MiB stays in the K range.
    assert_eq!(format_size(1048576), "1024K");
}

#[test]
fn size_rounded_mib() {
    assert_eq!(format_size(1048577), "1M");
    // 1.5 MiB rounds up.
    assert_eq!(format_size(1572864), "2M");
    assert_eq!(format_size(10 * 1048576), "10M");
    assert_eq!(format_size(10 * 1048576 + 524288), "11M");
}

#[test]
fn timestamp_rendering_pads_fields() {
    let t = Timestamp { year: 2024, month: 3, day: 7, hour: 9, minute: 5 };
    assert_eq!(format_timestamp(&t), "2024-03-07 09:05");
    let t = Timestamp { year: 999, month: 12, day: 31, hour: 23, minute: 59 };
    assert_eq!(format_timestamp(&t), "0999-12-31 23:59");
}
