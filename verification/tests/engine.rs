use log_tail::errors::LogError;
use log_tail::filter::{filter_log, parse_date_time};
use log_tail::pattern::{extract_millis, extract_timestamp, find_level};
use log_tail::query::{filter_lines, run_query};
use log_tail::select::{select_latest, DirEntry};
use log_tail::tail_start;
use log_tail::text::{contains_str, ends_with_str, str_eq};

fn sample_lines() -> Vec<String> {
    vec![
        "2024-01-01 10:00:00 [Info] start".to_string(),
        "2024-01-01 10:05:00 [Error] failure X".to_string(),
        "2024-01-01 10:10:00 [Info] end".to_string(),
    ]
}

#[test]
fn scenario_level_query() {
    let r = run_query(&sample_lines(), "", "Error", "", "", None).unwrap();
    assert_eq!(r, vec!["2024-01-01 10:05:00 [Error] failure X".to_string()]);
}

#[test]
fn scenario_range_query() {
    let r = run_query(
        &sample_lines(),
        "",
        "All",
        "2024-01-01T10:02:00+08:00",
        "2024-01-01T10:09:00+08:00",
        None,
    )
    .unwrap();
    assert_eq!(r, vec!["2024-01-01 10:05:00 [Error] failure X".to_string()]);
}

#[test]
fn unconstrained_query_keeps_every_line() {
    let lines = sample_lines();
    let r = run_query(&lines, "", "All", "", "", None).unwrap();
    assert_eq!(r, lines);

    let capped = run_query(&lines, "", "All", "", "", Some(2)).unwrap();
    assert_eq!(capped, lines[..2].to_vec());
}

#[test]
fn text_predicate_is_independent() {
    let line = "2024-01-01 10:05:00 [Error] failure X";
    for level in ["All", "Debug", "Error"] {
        assert!(!filter_log(line, "zebra", level, None, None));
        assert!(!filter_log(
            line,
            "zebra",
            level,
            Some(0),
            Some(i64::MAX)
        ));
    }
    assert!(filter_log(line, "failure", "All", None, None));
}

#[test]
fn range_bounds_are_half_open() {
    // 2024-01-01T10:05:00+08:00 in milliseconds since the Unix epoch
    let t = 1704074700000i64;
    let line = "2024-01-01 10:05:00 [Info] tick";
    assert!(filter_log(line, "", "All", Some(t), Some(t + 1)));
    assert!(filter_log(line, "", "All", Some(t - 60000), Some(t + 60000)));
    // the start bound is inclusive, the end bound exclusive
    assert!(!filter_log(line, "", "All", Some(t - 2), Some(t)));
    assert!(!filter_log(line, "", "All", Some(t + 1), Some(t + 2)));
    // a line without an extractable timestamp is dropped when both bounds
    // are supplied
    assert!(!filter_log("no timestamp here", "", "All", Some(0), Some(i64::MAX)));
    // a single bound leaves the range unconstrained
    assert!(filter_log("no timestamp here", "", "All", Some(0), None));
    assert!(filter_log("no timestamp here", "", "All", None, Some(0)));
}

#[test]
fn millisecond_suffix_shifts_the_instant() {
    let t = 1704074700000i64;
    let line = "2024-01-01 10:05:00 250 [Info] tick";
    assert!(filter_log(line, "", "All", Some(t + 250), Some(t + 251)));
    assert!(!filter_log(line, "", "All", Some(t), Some(t + 250)));
}

#[test]
fn query_is_idempotent() {
    let lines = sample_lines();
    let a = run_query(&lines, "fail", "All", "", "2024-01-02T00:00:00+08:00", Some(5));
    let b = run_query(&lines, "fail", "All", "", "2024-01-02T00:00:00+08:00", Some(5));
    assert_eq!(a, b);
}

#[test]
fn tail_window_boundaries() {
    assert_eq!(tail_start(100, 1000), 0);
    assert_eq!(tail_start(1000, 1000), 0);
    assert_eq!(tail_start(1001, 1000), 1);
    assert_eq!(tail_start(5000, 1000), 4000);
    assert_eq!(log_tail::MAX_READ_SIZE, 2 * 1024 * 1024);
    assert_eq!(log_tail::select::MAX_READ_SIZE, 1024 * 1024);
}

#[test]
fn cap_keeps_the_earliest_matches() {
    let mut lines = Vec::new();
    for i in 0..5 {
        lines.push(format!("2024-01-01 10:00:0{} [Info] item", i));
    }
    let r = filter_lines(&lines, "", "All", None, None, Some(3));
    assert_eq!(r, lines[..3].to_vec());
    assert_eq!(log_tail::query::MAX_LOGS, 10000);
}

#[test]
fn unknown_level_matches_nothing() {
    let line = "2024-01-01 10:05:00 [Error] failure X";
    assert!(!filter_log(line, "", "NotExist", None, None));
}

#[test]
fn bad_bound_rejects_the_query() {
    assert_eq!(parse_date_time("2024-13-99"), Err(LogError::BadInput));
    let r = run_query(&sample_lines(), "", "All", "not a time", "", None);
    assert_eq!(r, Err(LogError::BadInput));
    let r = run_query(&sample_lines(), "", "All", "", "not a time", None);
    assert_eq!(r, Err(LogError::BadInput));
}

#[test]
fn timestamp_extraction() {
    let line = "2024-09-14 13:41:52 674:[Debug]: Get Device UUID End";
    assert_eq!(extract_timestamp(line), Some("2024-09-14 13:41:52"));
    assert_eq!(extract_millis(line), Some(674));
    let plain = "2024-01-01 10:00:00 [Info] start";
    assert_eq!(extract_timestamp(plain), Some("2024-01-01 10:00:00"));
    assert_eq!(extract_millis(plain), None);
    assert_eq!(extract_timestamp("2024-01-01T10:00:00 nope"), None);
    assert_eq!(extract_timestamp("短"), None);
}

#[test]
fn level_token_variants() {
    assert_eq!(find_level("a [Warning] b"), Some("Warning".to_string()));
    assert_eq!(find_level("x [Info]: y [Error]: z"), Some("Info".to_string()));
    assert_eq!(find_level("no token [Fatal] here"), None);
    assert_eq!(find_level(""), None);
}

#[test]
fn text_utilities() {
    assert!(contains_str("设备启动完成", "启动"));
    assert!(!contains_str("设备启动完成", "失败"));
    assert!(contains_str("anything", ""));
    assert!(str_eq("同じ", "同じ"));
    assert!(!str_eq("a", "ab"));
    assert!(ends_with_str("rotate.log", ".log"));
    assert!(!ends_with_str("rotate.log.bak", ".log"));
}

fn entry(name: &str, is_file: bool, modified_ms: i64) -> DirEntry {
    DirEntry {
        path: format!("/var/log/{}", name),
        name: name.to_string(),
        is_file,
        modified_ms,
    }
}

#[test]
fn selects_latest_log_or_txt_file() {
    let entries = vec![
        entry("old.log", true, 1000),
        entry("newest.cfg", true, 9000),
        entry("recent.txt", true, 5000),
        entry("mid.log", true, 3000),
    ];
    assert_eq!(select_latest(&entries), Ok("/var/log/recent.txt".to_string()));
}

#[test]
fn selector_ignores_directories_and_keeps_first_tie() {
    let entries = vec![
        entry("a.log", false, 9000),
        entry("b.log", true, 4000),
        entry("c.txt", true, 4000),
        entry(".log", true, 8000),
    ];
    assert_eq!(select_latest(&entries), Ok("/var/log/b.log".to_string()));
}

#[test]
fn selector_reports_not_found() {
    let entries = vec![entry("notes.cfg", true, 1000), entry("data.bin", true, 2000)];
    assert_eq!(select_latest(&entries), Err(LogError::NotFound));
    assert_eq!(select_latest(&Vec::new()), Err(LogError::NotFound));
}
