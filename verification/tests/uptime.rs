use riptop::ui::format_uptime;

#[test]
fn uptime_renders_hours_minutes_seconds() {
    assert_eq!(format_uptime(3725), "01:02:05");
}

#[test]
fn uptime_zero_is_all_zeros() {
    assert_eq!(format_uptime(0), "00:00:00");
}

#[test]
fn uptime_pads_single_digits() {
    assert_eq!(format_uptime(5), "00:00:05");
    assert_eq!(format_uptime(59), "00:00:59");
    assert_eq!(format_uptime(60), "00:01:00");
    assert_eq!(format_uptime(3599), "00:59:59");
    assert_eq!(format_uptime(3600), "01:00:00");
}

#[test]
fn uptime_hours_run_past_a_day() {
    assert_eq!(format_uptime(86399), "23:59:59");
    assert_eq!(format_uptime(86400), "24:00:00");
}

#[test]
fn uptime_hours_take_more_than_two_digits() {
    assert_eq!(format_uptime(359999), "99:59:59");
    assert_eq!(format_uptime(360000), "100:00:00");
}

#[test]
fn uptime_largest_value() {
    assert_eq!(format_uptime(u64::MAX), "5124095576030431:00:15");
}

#[test]
fn uptime_agrees_with_std_formatting() {
    let mut uptime: u64 = 1;
    while uptime < u64::MAX / 7 {
        let expected = format!(
            "{:02}:{:02}:{:02}",
            (uptime / 60) / 60,
            (uptime / 60) % 60,
            uptime % 60
        );
        assert_eq!(format_uptime(uptime), expected);
        uptime = uptime * 7 + 3;
    }
}

#[test]
fn uptime_below_a_hundred_hours_takes_eight_characters() {
    for uptime in [0u64, 1, 61, 3725, 86_400, 359_999] {
        let text = format_uptime(uptime);
        assert_eq!(text.len(), 8);
        assert_eq!(text.as_bytes()[2], b':');
        assert_eq!(text.as_bytes()[5], b':');
    }
}
