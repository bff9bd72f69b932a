use opencad_storm_sewer_plugin::dates::{
    day_of_timestamp, format_iso8601, parse_rfc3339, unix_days_from_ymd, ymd_from_unix_days,
};
use opencad_storm_sewer_plugin::html_report::{report_file_name, sanitize_filename, stamp};

#[test]
fn sanitize_strips_invalid_chars() {
    assert_eq!(sanitize_filename("a/b:c"), "a_b_c");
}

#[test]
fn sanitize_trims_and_defaults() {
    assert_eq!(sanitize_filename("   "), "drawing");
    assert_eq!(sanitize_filename("  <x>|y?*\"\\  "), "_x__y____");
}

#[test]
fn report_file_names() {
    assert_eq!(report_file_name("Site 4: plan", 1700000000), "report-Site 4_ plan-1700000000.html");
    assert_eq!(stamp(0), "0");
}

#[test]
fn day_numbers() {
    assert_eq!(unix_days_from_ymd(1970, 1, 1), Some(0));
    assert_eq!(unix_days_from_ymd(2000, 3, 1), Some(11017));
    assert_eq!(unix_days_from_ymd(2024, 1, 1), Some(19723));
    assert_eq!(unix_days_from_ymd(1969, 12, 31), Some(-1));
    assert_eq!(unix_days_from_ymd(2024, 13, 1), None);
    assert_eq!(unix_days_from_ymd(2024, 2, 0), None);
    assert_eq!(unix_days_from_ymd(2023, 2, 31), unix_days_from_ymd(2023, 3, 3));
    assert_eq!(ymd_from_unix_days(19723), (2024, 1, 1));
    assert_eq!(ymd_from_unix_days(11016), (2000, 2, 29));
    assert_eq!(ymd_from_unix_days(-1), (1969, 12, 31));
    for (a, b) in [((2023, 12, 31), (2024, 1, 1)), ((2024, 2, 28), (2024, 2, 29)), ((2024, 2, 29), (2024, 3, 1)), ((1900, 2, 28), (1900, 3, 1))] {
        assert_eq!(unix_days_from_ymd(a.0, a.1, a.2).unwrap() + 1, unix_days_from_ymd(b.0, b.1, b.2).unwrap());
    }
}

#[test]
fn timestamps_round_trip() {
    assert_eq!(format_iso8601(0), "1970-01-01T00:00:00Z");
    assert_eq!(format_iso8601(1_767_225_599), "2025-12-31T00:00:00Z");
    for secs in [0u64, 86_399, 86_400, 951_782_400, 1_767_225_600, 4_102_444_800] {
        let text = format_iso8601(secs);
        assert_eq!(parse_rfc3339(&text), Some((secs / 86400) as i64));
    }
    assert_eq!(parse_rfc3339("  2099-01-01T00:00:00Z"), Some(47117));
    assert_eq!(parse_rfc3339("2099-1-1"), None);
    assert_eq!(parse_rfc3339("2099/01/01"), None);
    assert_eq!(day_of_timestamp("2099-01-0\u{e9}"), None);
}
