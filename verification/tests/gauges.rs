use riptop::ui::usage_percent;

#[test]
fn usage_percent_rounds_down() {
    assert_eq!(usage_percent(2048, 8192), 25);
    assert_eq!(usage_percent(1, 3), 33);
    assert_eq!(usage_percent(2, 3), 66);
    assert_eq!(usage_percent(999, 1000), 99);
}

#[test]
fn usage_percent_of_nothing_is_zero() {
    assert_eq!(usage_percent(0, 0), 0);
    assert_eq!(usage_percent(5, 0), 0);
    assert_eq!(usage_percent(0, 5), 0);
}

#[test]
fn usage_percent_stops_at_a_full_gauge() {
    assert_eq!(usage_percent(5, 5), 100);
    assert_eq!(usage_percent(6, 5), 100);
    assert_eq!(usage_percent(u64::MAX, 1), 100);
}

#[test]
fn usage_percent_takes_the_largest_values() {
    assert_eq!(usage_percent(u64::MAX - 1, u64::MAX), 99);
    assert_eq!(usage_percent(u64::MAX / 2, u64::MAX), 49);
}
