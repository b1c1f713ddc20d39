use ser_std::rtc::{bcd_to_bin, bin_to_bcd, rtc_time_frame, time_from_rtc, RTC_TIME_REG};
use ser_std::time_keeper::Time;

#[test]
fn bcd_decodes_both_nibbles() {
    assert_eq!(bcd_to_bin(0x00), 0);
    assert_eq!(bcd_to_bin(0x59), 59);
    assert_eq!(bcd_to_bin(0x23), 23);
    assert_eq!(bcd_to_bin(0x99), 99);
    assert_eq!(bcd_to_bin(0xFF), 165);
}

#[test]
fn bcd_encodes_tens_and_units() {
    assert_eq!(bin_to_bcd(0), 0x00);
    assert_eq!(bin_to_bcd(7), 0x07);
    assert_eq!(bin_to_bcd(59), 0x59);
    assert_eq!(bin_to_bcd(99), 0x99);
    // a tens digit of 25 loses its high bits: (25 * 16) % 256 + 5
    assert_eq!(bin_to_bcd(255), 149);
}

#[test]
fn bcd_round_trips_below_one_hundred() {
    for v in 0u8..100 {
        assert_eq!(bcd_to_bin(bin_to_bcd(v)), v);
    }
    for tens in 0u8..10 {
        for units in 0u8..10 {
            let b = tens * 16 + units;
            assert_eq!(bin_to_bcd(bcd_to_bin(b)), b);
        }
    }
}

#[test]
fn rtc_registers_decode_with_control_bits_masked() {
    let t = time_from_rtc([0x80 | 0x30, 0x45, 0x40 | 0x12]);
    assert_eq!(t, Time { hours: 12, minutes: 45, seconds: 30 });
}

#[test]
fn rtc_frame_writes_bcd_from_register_zero() {
    let f = rtc_time_frame(Time { hours: 23, minutes: 5, seconds: 59 });
    assert_eq!(f, [RTC_TIME_REG, 0x59, 0x05, 0x23]);
}

#[test]
fn rtc_write_then_read_gives_the_time_back() {
    for h in 0u8..24 {
        for m in 0u8..60 {
            let t = Time { hours: h, minutes: m, seconds: (h + m) % 60 };
            let f = rtc_time_frame(t);
            assert_eq!(time_from_rtc([f[1], f[2], f[3]]), t);
        }
    }
}
