use clipsnap::labels::{age_at, format_timestamp, preview_text, size_unit, Age, SizeUnit};

#[test]
fn ages_fall_in_the_largest_whole_unit() {
    assert_eq!(age_at(1000, 1059), Age::JustNow);
    assert_eq!(age_at(1000, 900), Age::JustNow);
    assert_eq!(age_at(1000, 1060), Age::Minutes(1));
    assert_eq!(age_at(0, 3599), Age::Minutes(59));
    assert_eq!(age_at(0, 7200), Age::Hours(2));
    assert_eq!(age_at(0, 86400 * 3 + 5), Age::Days(3));
    assert_eq!(age_at(i64::MIN, i64::MAX), Age::Days(((i64::MAX as i128 - i64::MIN as i128) / 86400) as i64));
}

#[test]
fn age_by_clock_of_an_old_timestamp_is_days() {
    assert!(matches!(format_timestamp(0), Age::Days(d) if d > 18000));
}

#[test]
fn size_units_switch_at_powers_of_1024() {
    assert_eq!(size_unit(1023), SizeUnit::Bytes);
    assert_eq!(size_unit(1024), SizeUnit::Kilobytes);
    assert_eq!(size_unit(1024 * 1024 - 1), SizeUnit::Kilobytes);
    assert_eq!(size_unit(1024 * 1024), SizeUnit::Megabytes);
}

#[test]
fn long_text_preview_is_cut_with_ellipsis() {
    assert_eq!(preview_text("short"), "short");
    let long = "x".repeat(200);
    let p = preview_text(&long);
    assert_eq!(p, format!("{}…", "x".repeat(150)));
    let wide = "é".repeat(100);
    assert_eq!(preview_text(&wide), format!("{}…", wide));
}
