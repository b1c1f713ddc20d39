use vstd::prelude::*;

use crate::time_keeper::Time;

verus! {

/// I2C address of the real-time clock.
pub const RTC_ADDR: u8 = 0x68;

/// Register at which the RTC's seconds, minutes and hours start.
pub const RTC_TIME_REG: u8 = 0x00;

/// The number that a packed BCD byte holds: tens in the high nibble, units in the low one.
pub open spec fn bcd_value(v: u8) -> int {
    (v / 16) * 10 + v % 16
}

/// The packed BCD byte written for `v`; a tens digit above 15 loses its high bits.
pub open spec fn bcd_encoding(v: u8) -> int {
    ((v / 10) * 16) % 256 + v % 10
}

/// Both nibbles are decimal digits.
pub open spec fn is_bcd(v: u8) -> bool {
    v / 16 <= 9 && v % 16 <= 9
}

pub fn bcd_to_bin(v: u8) -> (r: u8)
    ensures
        r == bcd_value(v),
{
    assert((v >> 4) == v / 16 && (v & 0x0F) == v % 16) by (bit_vector);
    ((v >> 4) * 10) + (v & 0x0F)
}

pub fn bin_to_bcd(v: u8) -> (r: u8)
    ensures
        r == bcd_encoding(v),
{
    let t: u8 = v / 10;
    let u: u8 = v % 10;
    assert((t << 4u8) | u == ((t * 16) % 256 + u)) by (bit_vector)
        requires
            u < 10,
    ;
    (t << 4) | u
}

/// Decoding a BCD encoding gives the number back.
pub proof fn lemma_bcd_round_trip(v: u8)
    requires
        v < 100,
    ensures
        bcd_encoding(v) < 256,
        bcd_value(bcd_encoding(v) as u8) == v,
{
}

/// Encoding the value of a valid BCD byte gives the byte back.
pub proof fn lemma_bcd_value_round_trip(b: u8)
    requires
        is_bcd(b),
    ensures
        bcd_value(b) < 100,
        bcd_encoding(bcd_value(b) as u8) == b,
{
}

/// The time held in the RTC's seconds, minutes and hours registers: the
/// seconds register's top bit (clock halt) and the hours register's top two
/// bits (12-hour mode) are left out.
pub open spec fn registers_time(seconds: u8, minutes: u8, hours: u8) -> Time {
    Time {
        seconds: bcd_value(seconds % 128) as u8,
        minutes: bcd_value(minutes) as u8,
        hours: bcd_value(hours % 64) as u8,
    }
}

/// Decodes the three time registers read from the RTC.
pub fn time_from_rtc(buf: [u8; 3]) -> (t: Time)
    ensures
        t == registers_time(buf@[0], buf@[1], buf@[2]),
{
    let s = buf[0];
    let h = buf[2];
    assert(s & 0x7F == s % 128 && h & 0x3F == h % 64) by (bit_vector);
    Time { seconds: bcd_to_bin(buf[0] & 0x7F), minutes: bcd_to_bin(buf[1]), hours: bcd_to_bin(buf[2] & 0x3F) }
}

/// The write that sets the RTC's seconds, minutes and hours to `t`.
pub fn rtc_time_frame(t: Time) -> (f: [u8; 4])
    ensures
        f@ == seq![
            RTC_TIME_REG,
            bcd_encoding(t.seconds) as u8,
            bcd_encoding(t.minutes) as u8,
            bcd_encoding(t.hours) as u8,
        ],
{
    let f = [RTC_TIME_REG, bin_to_bcd(t.seconds), bin_to_bcd(t.minutes), bin_to_bcd(t.hours)];
    assert(f@ == seq![RTC_TIME_REG, f[1], f[2], f[3]]);
    f
}

/// Reading back the registers that a write of a valid time filled gives that time.
pub proof fn lemma_rtc_write_read_round_trip(t: Time)
    requires
        t.is_valid(),
    ensures
        registers_time(
            bcd_encoding(t.seconds) as u8,
            bcd_encoding(t.minutes) as u8,
            bcd_encoding(t.hours) as u8,
        ) == t,
{
    lemma_bcd_round_trip(t.seconds);
    lemma_bcd_round_trip(t.minutes);
    lemma_bcd_round_trip(t.hours);
    assert(bcd_encoding(t.seconds) < 128);
    assert(bcd_encoding(t.hours) < 64);
}

/// A packed BCD byte holds the tens digit in its high nibble and the units
/// digit in its low nibble.
pub proof fn lemma_bcd_nibbles_are_decimal_digits(v: u8)
    requires
        v < 100,
    ensures
        bcd_encoding(v) / 16 == v / 10,
        bcd_encoding(v) % 16 == v % 10,
        is_bcd(bcd_encoding(v) as u8),
{
}

/// The clock-halt bit of the seconds register and the mode bits of the hours
/// register do not change the time read.
pub proof fn lemma_rtc_ignores_control_bits(seconds: u8, minutes: u8, hours: u8)
    ensures
        registers_time(seconds | 0x80, minutes, hours | 0xC0) == registers_time(
            seconds,
            minutes,
            hours,
        ),
{
    assert((seconds | 0x80) % 128 == seconds % 128 && (hours | 0xC0) % 64 == hours % 64)
        by (bit_vector);
}

} // verus!
