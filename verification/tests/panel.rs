use riptop::services::SystemInfoStaticData;
use riptop::ui::{format_count, info_values, percent_label};

#[test]
fn counts_render_as_decimal_numerals() {
    assert_eq!(format_count(0), "0");
    assert_eq!(format_count(7), "7");
    assert_eq!(format_count(10), "10");
    assert_eq!(format_count(1234567890), "1234567890");
    assert_eq!(format_count(u64::MAX), u64::MAX.to_string());
}

#[test]
fn percent_labels_end_in_a_percent_sign() {
    assert_eq!(percent_label(0), "0%");
    assert_eq!(percent_label(25), "25%");
    assert_eq!(percent_label(100), "100%");
}

#[test]
fn identity_panel_shows_counts_uptime_and_processor() {
    let identity = SystemInfoStaticData::from_host(
        String::from("Example CPU"),
        Some(String::from("host")),
        Some(4),
        16384,
    )
    .unwrap();
    let values = info_values(&identity, 213, 3725);
    assert_eq!(
        values,
        vec![
            String::from("213"),
            String::from("16384"),
            String::from("01:02:05"),
            String::from("Example CPU"),
        ]
    );
}
