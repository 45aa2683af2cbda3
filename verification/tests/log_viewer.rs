use chrono::TimeZone;
use log_tail::filter::{filter_log, parse_date_time};
use log_tail::pattern::{find_level, has_timestamp};

fn china_offset() -> chrono::FixedOffset {
    chrono::FixedOffset::east_opt(8 * 3600).unwrap()
}

fn china_millis(y: i32, mo: u32, d: u32, h: u32, mi: u32, s: u32) -> i64 {
    china_offset()
        .with_ymd_and_hms(y, mo, d, h, mi, s)
        .single()
        .unwrap()
        .timestamp_millis()
}

#[test]
fn test_parse_date_time() {
    let valid_time = "2024-09-14T13:41:52+08:00";
    let result = parse_date_time(valid_time).unwrap().unwrap();
    assert_eq!(result, china_millis(2024, 9, 14, 13, 41, 52));
    assert_eq!(result, 1726292512000i64);

    let empty_time = "";
    assert!(parse_date_time(empty_time).unwrap().is_none());

    let invalid_time = "invalid_time";
    assert!(parse_date_time(invalid_time).is_err());
}

#[test]
fn test_filter_log() {
    let log_line = "2024-09-14 13:41:52 674:[Debug]: Get Device UUID End";

    assert!(filter_log(log_line, "Device", "All", None, None));
    assert!(!filter_log(log_line, "NotExist", "All", None, None));

    assert!(filter_log(log_line, "", "Debug", None, None));
    assert!(!filter_log(log_line, "", "Error", None, None));

    let start = china_millis(2024, 9, 14, 13, 0, 0);
    let end = china_millis(2024, 9, 14, 14, 0, 0);
    assert!(filter_log(log_line, "", "All", Some(start), Some(end)));

    let start = china_millis(2024, 9, 14, 14, 0, 0);
    let end = china_millis(2024, 9, 14, 15, 0, 0);
    assert!(!filter_log(log_line, "", "All", Some(start), Some(end)));
}

#[test]
fn test_regex_patterns() {
    let log_line = "2024-09-14 13:41:52 674:[Debug]: Get Device UUID End";

    assert!(has_timestamp(log_line));
    assert!(find_level(log_line).is_some());

    let captured = find_level(log_line).unwrap();
    assert_eq!(captured, "Debug");
}
