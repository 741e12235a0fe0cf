use texnouz_csms::analytics::bucket_key;
use texnouz_csms::calendar::{pad_number, MAX_UTC_SECONDS, MIN_UTC_SECONDS};

#[test]
fn utc_range_matches_chrono() {
    assert!(chrono::DateTime::from_timestamp(MIN_UTC_SECONDS, 0).is_some());
    assert!(chrono::DateTime::from_timestamp(MIN_UTC_SECONDS - 1, 0).is_none());
    assert!(chrono::DateTime::from_timestamp(MAX_UTC_SECONDS, 0).is_some());
    assert!(chrono::DateTime::from_timestamp(MAX_UTC_SECONDS + 1, 0).is_none());
}

#[test]
fn labels_at_the_range_ends() {
    assert_eq!(bucket_key("month", MIN_UTC_SECONDS), "-262143-01");
    assert_eq!(bucket_key("day", MAX_UTC_SECONDS), "+262142-12-31");
    assert_eq!(bucket_key("month", MAX_UTC_SECONDS), "262142-12");
}

#[test]
fn zero_padding() {
    assert_eq!(pad_number(7, 2), "07");
    assert_eq!(pad_number(2024, 4), "2024");
    assert_eq!(pad_number(12345, 4), "12345");
    assert_eq!(pad_number(-5, 4), "-005");
    assert_eq!(pad_number(0, 0), "0");
}

#[test]
fn range_ends_are_chronos() {
    assert_eq!(chrono::DateTime::<chrono::Utc>::MIN_UTC.timestamp(), MIN_UTC_SECONDS);
    assert_eq!(chrono::DateTime::<chrono::Utc>::MAX_UTC.timestamp(), MAX_UTC_SECONDS);
}
