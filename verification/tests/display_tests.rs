use ser_std::display::{
    digit_select_write, digit_to_segments, display_digit_writes, display_digits, display_step, hour_for_display,
    next_digit_index, pm_led_off_value, pm_led_on_value, DisplayStep,
};
use ser_std::events::FormatSwitch;
use ser_std::io_expander::{expander_config_frame, OUT_PORT1, OUT_PORT2};
use ser_std::time_keeper::{Time, TimeKeeper};

#[test]
fn segment_patterns_of_the_ten_digits() {
    let expected = [0x3f, 0x06, 0x9b, 0x8f, 0xa6, 0xad, 0xbd, 0x07, 0xbf, 0xaf];
    for d in 0u8..10 {
        assert_eq!(digit_to_segments(d), expected[d as usize]);
        assert_eq!(digit_to_segments(d) & 0x40, 0);
    }
    assert_eq!(digit_to_segments(10), 0);
    assert_eq!(digit_to_segments(255), 0);
    for a in 0u8..10 {
        for b in 0u8..10 {
            if a != b {
                assert_ne!(digit_to_segments(a), digit_to_segments(b));
            }
        }
    }
}

#[test]
fn expander_configuration_sets_port_directions() {
    assert_eq!(expander_config_frame(), [0x8C, 0xFF, 0xC0, 0x00]);
}

#[test]
fn digit_writes_blank_then_select_one_digit() {
    let w = display_digit_writes(0xA5, 7);
    assert_eq!(w.blank, [OUT_PORT1, 0xAF]);
    assert_eq!(w.segments, [OUT_PORT2, 0x07 | 0x40]);
    assert_eq!(digit_select_write(0xA5, 2), [OUT_PORT1, 0xAB]);
    let w = display_digit_writes(0x5A, 3);
    assert_eq!(w.blank, [OUT_PORT1, 0x5F]);
    assert_eq!(w.segments, [OUT_PORT2, 0x8f | 0x40]);
    for idx in 0u8..4 {
        let blank = display_digit_writes(0x3C, 0).blank;
        let select = digit_select_write(0x3C, idx);
        assert_eq!(select[1] & 0xF0, 0x30);
        for j in 0u8..4 {
            assert_eq!(select[1] & (1 << j) == 0, j == idx);
            assert_ne!(blank[1] & (1 << j), 0);
        }
    }
}

#[test]
fn pm_led_writes() {
    assert_eq!(pm_led_on_value(0x00), 0x20);
    assert_eq!(pm_led_on_value(0x8F), 0xAF);
    assert_eq!(pm_led_off_value(0x00), 0xDF);
    assert_eq!(pm_led_off_value(0x20), 0xFF);
}

#[test]
fn twelve_hour_format_on_settled_switch() {
    let h12 = FormatSwitch::H12(8);
    assert_eq!(hour_for_display(0, h12), (12, false));
    assert_eq!(hour_for_display(1, h12), (1, false));
    assert_eq!(hour_for_display(11, h12), (11, false));
    assert_eq!(hour_for_display(12, h12), (12, true));
    assert_eq!(hour_for_display(13, h12), (1, true));
    assert_eq!(hour_for_display(23, h12), (11, true));
    assert_eq!(hour_for_display(23, FormatSwitch::H12(100)), (11, true));
}

#[test]
fn unsettled_or_24_hour_switch_shows_the_hour_as_kept() {
    assert_eq!(hour_for_display(15, FormatSwitch::H12(7)), (15, false));
    assert_eq!(hour_for_display(0, FormatSwitch::H24(8)), (0, false));
    assert_eq!(hour_for_display(23, FormatSwitch::H24(100)), (23, false));
}

#[test]
fn digits_and_positions() {
    assert_eq!(display_digits(12, 34), [1, 2, 3, 4]);
    assert_eq!(display_digits(7, 5), [0, 7, 0, 5]);
    assert_eq!(next_digit_index(0), 1);
    assert_eq!(next_digit_index(3), 0);
    assert_eq!(next_digit_index(6), 3);
    assert_eq!(next_digit_index(254), 3);
    let mut idx = 0u8;
    for k in 1..=12 {
        idx = next_digit_index(idx);
        assert_eq!(idx, k % 4);
    }
}

#[test]
fn display_step_picks_the_digit_of_the_shown_time() {
    let mut tk = TimeKeeper::new();
    tk.clocktime = Time { hours: 15, minutes: 42, seconds: 0 };
    tk.alarmtime = Time { hours: 6, minutes: 5, seconds: 0 };
    let h12 = FormatSwitch::H12(9);
    assert_eq!(display_step(&tk, h12, 0), DisplayStep { pm_led_on: true, digit: 0 });
    assert_eq!(display_step(&tk, h12, 1), DisplayStep { pm_led_on: true, digit: 3 });
    assert_eq!(display_step(&tk, h12, 2), DisplayStep { pm_led_on: true, digit: 4 });
    assert_eq!(display_step(&tk, FormatSwitch::H24(9), 0), DisplayStep { pm_led_on: false, digit: 1 });
    tk.show_alarm_time();
    assert_eq!(display_step(&tk, h12, 3), DisplayStep { pm_led_on: false, digit: 5 });
}
