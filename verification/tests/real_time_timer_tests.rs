use ser_std::real_time_timer::{timer_int_callback, Time};

fn t(h: u32, m: u32, s: u32) -> Time {
    Time { hours: h, minutes: m, seconds: s }
}

#[test]
fn interrupt_raises_the_flag() {
    let mut flag = false;
    timer_int_callback(&mut flag);
    assert!(flag);
    timer_int_callback(&mut flag);
    assert!(flag);
}

#[test]
fn count_keeps_seconds_running_past_sixty() {
    let mut c = Time::new();
    for _ in 0..59 {
        c.advance();
    }
    assert_eq!(c, t(0, 0, 59));
    c.advance();
    assert_eq!(c, t(0, 1, 60));
    c.advance();
    assert_eq!(c, t(0, 2, 61));
}

#[test]
fn count_starts_over_every_142_seconds() {
    let mut c = Time::new();
    for n in 1u32..=141 {
        c.advance();
        let m = if n < 60 { 0 } else { n - 59 };
        let h = if n < 119 { 0 } else { n - 118 };
        assert_eq!(c, t(h, m, n));
    }
    c.advance();
    assert_eq!(c, t(0, 0, 0));
}

#[test]
fn seconds_wrap_at_the_maximum() {
    let mut c = t(0, 0, u32::MAX);
    c.advance();
    assert_eq!(c, t(0, 0, 0));
}

#[test]
fn elapsed_line_pads_to_two_digits() {
    assert_eq!(t(0, 0, 0).elapsed_text(), "Elapsed Time 00:00:00");
    assert_eq!(t(1, 12, 7).elapsed_text(), "Elapsed Time 01:12:07");
    assert_eq!(t(23, 82, 141).elapsed_text(), "Elapsed Time 23:82:141");
    assert_eq!(t(0, 0, u32::MAX).elapsed_text(), "Elapsed Time 00:00:4294967295");
}

#[test]
fn advance_fits_only_below_field_maxima() {
    assert!(Time::new().advance_fits());
    assert!(!t(0, u32::MAX, 59).advance_fits());
    assert!(t(0, u32::MAX, 58).advance_fits());
    assert!(!t(u32::MAX, 59, 59).advance_fits());
    assert!(!t(u32::MAX, 60, 3).advance_fits());
    assert!(t(u32::MAX, 58, 59).advance_fits());
    assert!(t(u32::MAX, 57, 59).advance_fits());
}
