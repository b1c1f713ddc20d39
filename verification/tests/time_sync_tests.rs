use ser_std::time_sync::format_utc_time;

#[test]
fn utc_time_is_day_month_year() {
    assert_eq!(format_utc_time(1431648000, 0).as_deref(), Some("15/05/2015 00:00:00"));
    assert_eq!(format_utc_time(0, 0).as_deref(), Some("01/01/1970 00:00:00"));
    assert_eq!(format_utc_time(1700000000, 999_999_999).as_deref(), Some("14/11/2023 22:13:20"));
    assert_eq!(format_utc_time(-1, 0).as_deref(), Some("31/12/1969 23:59:59"));
}

#[test]
fn utc_time_outside_chronos_range_is_none() {
    assert_eq!(format_utc_time(0, 2_000_000_000), None);
    assert_eq!(format_utc_time(0, 1_500_000_000), None);
    assert_eq!(format_utc_time(i64::MAX, 0), None);
}
