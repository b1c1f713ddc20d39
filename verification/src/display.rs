use vstd::prelude::*;

use crate::events::{FormatSwitch, DEBOUNCE_COUNT};
use crate::io_expander::{IoExpPort1, IoExpPort2, OUT_PORT1, OUT_PORT2};
use crate::time_keeper::TimeKeeper;

verus! {

/// The segments lit for a decimal digit; nothing for any other value.
pub open spec fn segments_for_digit(d: u8) -> u8 {
    let a = IoExpPort2::SegA.mask();
    let b = IoExpPort2::SegB.mask();
    let c = IoExpPort2::SegC.mask();
    let dd = IoExpPort2::SegD.mask();
    let e = IoExpPort2::SegE.mask();
    let f = IoExpPort2::SegF.mask();
    let g = IoExpPort2::SegG.mask();
    if d == 0 {
        a | b | c | dd | e | f
    } else if d == 1 {
        b | c
    } else if d == 2 {
        a | b | dd | e | g
    } else if d == 3 {
        a | b | c | dd | g
    } else if d == 4 {
        b | c | f | g
    } else if d == 5 {
        a | c | dd | f | g
    } else if d == 6 {
        a | c | dd | e | f | g
    } else if d == 7 {
        a | b | c
    } else if d == 8 {
        a | b | c | dd | e | f | g
    } else if d == 9 {
        a | b | c | dd | f | g
    } else {
        0
    }
}

pub fn digit_to_segments(d: u8) -> (r: u8)
    ensures
        r == segments_for_digit(d),
{
    match d {
        0 => {
            IoExpPort2::SegA.bits() | IoExpPort2::SegB.bits() | IoExpPort2::SegC.bits()
                | IoExpPort2::SegD.bits() | IoExpPort2::SegE.bits() | IoExpPort2::SegF.bits()
        },
        1 => { IoExpPort2::SegB.bits() | IoExpPort2::SegC.bits() },
        2 => {
            IoExpPort2::SegA.bits() | IoExpPort2::SegB.bits() | IoExpPort2::SegD.bits()
                | IoExpPort2::SegE.bits() | IoExpPort2::SegG.bits()
        },
        3 => {
            IoExpPort2::SegA.bits() | IoExpPort2::SegB.bits() | IoExpPort2::SegC.bits()
                | IoExpPort2::SegD.bits() | IoExpPort2::SegG.bits()
        },
        4 => {
            IoExpPort2::SegB.bits() | IoExpPort2::SegC.bits() | IoExpPort2::SegF.bits()
                | IoExpPort2::SegG.bits()
        },
        5 => {
            IoExpPort2::SegA.bits() | IoExpPort2::SegC.bits() | IoExpPort2::SegD.bits()
                | IoExpPort2::SegF.bits() | IoExpPort2::SegG.bits()
        },
        6 => {
            IoExpPort2::SegA.bits() | IoExpPort2::SegC.bits() | IoExpPort2::SegD.bits()
                | IoExpPort2::SegE.bits() | IoExpPort2::SegF.bits() | IoExpPort2::SegG.bits()
        },
        7 => { IoExpPort2::SegA.bits() | IoExpPort2::SegB.bits() | IoExpPort2::SegC.bits() },
        8 => {
            IoExpPort2::SegA.bits() | IoExpPort2::SegB.bits() | IoExpPort2::SegC.bits()
                | IoExpPort2::SegD.bits() | IoExpPort2::SegE.bits() | IoExpPort2::SegF.bits()
                | IoExpPort2::SegG.bits()
        },
        9 => {
            IoExpPort2::SegA.bits() | IoExpPort2::SegB.bits() | IoExpPort2::SegC.bits()
                | IoExpPort2::SegD.bits() | IoExpPort2::SegF.bits() | IoExpPort2::SegG.bits()
        },
        _ => 0,
    }
}

/// The ten digits light ten different patterns, none of them empty and none
/// with the decimal point.
pub proof fn lemma_digit_patterns_distinct(d1: u8, d2: u8)
    requires
        d1 < 10,
        d2 < 10,
    ensures
        segments_for_digit(d1) != 0,
        segments_for_digit(d1) & IoExpPort2::Dp.mask() == 0,
        d1 != d2 ==> segments_for_digit(d1) != segments_for_digit(d2),
{
    lemma_segment_bytes();
}

/// The digit `d1` lights every segment that `d2` lights, and maybe more.
pub open spec fn lights_over(d1: u8, d2: u8) -> bool {
    segments_for_digit(d1) & segments_for_digit(d2) == segments_for_digit(d2)
}

/// The digits have the usual seven-segment shapes: 8 lights all seven
/// segments, 1 only the two right-hand ones (B and C), 7 adds the top (A),
/// and the shapes nest as 1 < 7 < 3 < 9 < 8, 4 < 9, 5 < 6 < 8, 5 < 9, 0 < 8 and 2 < 8.
pub proof fn lemma_segment_shapes()
    ensures
        segments_for_digit(8) == IoExpPort2::SegA.mask() | IoExpPort2::SegB.mask()
            | IoExpPort2::SegC.mask() | IoExpPort2::SegD.mask() | IoExpPort2::SegE.mask()
            | IoExpPort2::SegF.mask() | IoExpPort2::SegG.mask(),
        segments_for_digit(1) == IoExpPort2::SegB.mask() | IoExpPort2::SegC.mask(),
        segments_for_digit(7) == segments_for_digit(1) | IoExpPort2::SegA.mask(),
        lights_over(7, 1),
        lights_over(3, 7),
        lights_over(9, 3),
        lights_over(8, 9),
        lights_over(9, 4),
        lights_over(6, 5),
        lights_over(8, 6),
        lights_over(9, 5),
        lights_over(8, 0),
        lights_over(8, 2),
        !lights_over(6, 1),
        !lights_over(0, 4),
        !lights_over(9, 2),
{
    lemma_segment_bytes();
    assert({
        &&& 0x01u8 | 0x02u8 | 0x04u8 | 0x08u8 | 0x10u8 | 0x20u8 | 0x80u8 == 0xbfu8
        &&& 0x02u8 | 0x04u8 == 0x06u8
        &&& 0x06u8 | 0x01u8 == 0x07u8
        &&& 0x07u8 & 0x06u8 == 0x06u8
        &&& 0x8fu8 & 0x07u8 == 0x07u8
        &&& 0xafu8 & 0x8fu8 == 0x8fu8
        &&& 0xbfu8 & 0xafu8 == 0xafu8
        &&& 0xafu8 & 0xa6u8 == 0xa6u8
        &&& 0xbdu8 & 0xadu8 == 0xadu8
        &&& 0xbfu8 & 0xbdu8 == 0xbdu8
        &&& 0xafu8 & 0xadu8 == 0xadu8
        &&& 0xbfu8 & 0x3fu8 == 0x3fu8
        &&& 0xbfu8 & 0x9bu8 == 0x9bu8
        &&& 0xbdu8 & 0x06u8 != 0x06u8
        &&& 0x3fu8 & 0xa6u8 != 0xa6u8
        &&& 0xafu8 & 0x9bu8 != 0x9bu8
    }) by (bit_vector);
}

proof fn lemma_segment_bytes()
    ensures
        segments_for_digit(0) == 0x3f,
        segments_for_digit(1) == 0x06,
        segments_for_digit(2) == 0x9b,
        segments_for_digit(3) == 0x8f,
        segments_for_digit(4) == 0xa6,
        segments_for_digit(5) == 0xad,
        segments_for_digit(6) == 0xbd,
        segments_for_digit(7) == 0x07,
        segments_for_digit(8) == 0xbf,
        segments_for_digit(9) == 0xaf,
        0x3fu8 & 0x40 == 0,
        0x06u8 & 0x40 == 0,
        0x9bu8 & 0x40 == 0,
        0x8fu8 & 0x40 == 0,
        0xa6u8 & 0x40 == 0,
        0xadu8 & 0x40 == 0,
        0xbdu8 & 0x40 == 0,
        0x07u8 & 0x40 == 0,
        0xbfu8 & 0x40 == 0,
        0xafu8 & 0x40 == 0,
{
    assert({
        &&& 0x01u8 | 0x02u8 | 0x04u8 | 0x08u8 | 0x10u8 | 0x20u8 == 0x3fu8
        &&& 0x02u8 | 0x04u8 == 0x06u8
        &&& 0x01u8 | 0x02u8 | 0x08u8 | 0x10u8 | 0x80u8 == 0x9bu8
        &&& 0x01u8 | 0x02u8 | 0x04u8 | 0x08u8 | 0x80u8 == 0x8fu8
        &&& 0x02u8 | 0x04u8 | 0x20u8 | 0x80u8 == 0xa6u8
        &&& 0x01u8 | 0x04u8 | 0x08u8 | 0x20u8 | 0x80u8 == 0xadu8
        &&& 0x01u8 | 0x04u8 | 0x08u8 | 0x10u8 | 0x20u8 | 0x80u8 == 0xbdu8
        &&& 0x01u8 | 0x02u8 | 0x04u8 == 0x07u8
        &&& 0x01u8 | 0x02u8 | 0x04u8 | 0x08u8 | 0x10u8 | 0x20u8 | 0x80u8 == 0xbfu8
        &&& 0x01u8 | 0x02u8 | 0x04u8 | 0x08u8 | 0x20u8 | 0x80u8 == 0xafu8
        &&& 0x3fu8 & 0x40 == 0
        &&& 0x06u8 & 0x40 == 0
        &&& 0x9bu8 & 0x40 == 0
        &&& 0x8fu8 & 0x40 == 0
        &&& 0xa6u8 & 0x40 == 0
        &&& 0xadu8 & 0x40 == 0
        &&& 0xbdu8 & 0x40 == 0
        &&& 0x07u8 & 0x40 == 0
        &&& 0xbfu8 & 0x40 == 0
        &&& 0xafu8 & 0x40 == 0
    }) by (bit_vector);
}

/// The digit-select line of display position `idx`, leftmost first.
pub open spec fn digit_line(idx: u8) -> IoExpPort1 {
    if idx == 0 {
        IoExpPort1::Digit1
    } else if idx == 1 {
        IoExpPort1::Digit2
    } else if idx == 2 {
        IoExpPort1::Digit3
    } else {
        IoExpPort1::Digit4
    }
}

/// The first two expander writes that show one digit: every digit blanked,
/// then the segments.
pub struct DigitWrites {
    pub blank: [u8; 2],
    pub segments: [u8; 2],
}

/// Given the value read from output port 1, the writes that blank every digit
/// and then drive the segments of `value`. Digit lines are active low; the
/// other bits of port 1 keep what was read, and the decimal point is always driven.
pub fn display_digit_writes(port1: u8, value: u8) -> (w: DigitWrites)
    ensures
        w.blank@ == seq![OUT_PORT1, (port1 & 0xF0) | 0x0F],
        w.segments@ == seq![OUT_PORT2, segments_for_digit(value) | IoExpPort2::Dp.mask()],
{
    let blank = (port1 & 0xF0) | 0x0F;
    let seg = digit_to_segments(value) | IoExpPort2::Dp.bits();
    let w = DigitWrites { blank: [OUT_PORT1, blank], segments: [OUT_PORT2, seg] };
    assert(w.blank@ == seq![OUT_PORT1, blank]);
    assert(w.segments@ == seq![OUT_PORT2, seg]);
    w
}

/// Given the value read from output port 1, the last write that shows a
/// digit: the one at position `idx` selected, the other bits of port 1 as read.
pub fn digit_select_write(port1: u8, idx: u8) -> (w: [u8; 2])
    requires
        idx < 4,
    ensures
        w@ == seq![OUT_PORT1, (port1 & 0xF0) | (!digit_line(idx).mask() & 0x0F)],
{
    let digit_masks = [
        IoExpPort1::Digit1,
        IoExpPort1::Digit2,
        IoExpPort1::Digit3,
        IoExpPort1::Digit4,
    ];
    let active = (port1 & 0xF0) | (!digit_masks[idx as usize].bits() & 0x0F);
    let w = [OUT_PORT1, active];
    assert(w@ == seq![OUT_PORT1, active]);
    w
}

proof fn lemma_select_nibbles(p: u8)
    by (bit_vector)
    ensures
        ((p & 0xF0) | 0x0F) & 0xF0 == p & 0xF0,
        ((p & 0xF0) | 0x0F) & 0x01 != 0,
        ((p & 0xF0) | 0x0F) & 0x02 != 0,
        ((p & 0xF0) | 0x0F) & 0x04 != 0,
        ((p & 0xF0) | 0x0F) & 0x08 != 0,
        ((p & 0xF0) | (!0x01u8 & 0x0F)) & 0xF0 == p & 0xF0,
        ((p & 0xF0) | (!0x01u8 & 0x0F)) & 0x01 == 0,
        ((p & 0xF0) | (!0x01u8 & 0x0F)) & 0x02 != 0,
        ((p & 0xF0) | (!0x01u8 & 0x0F)) & 0x04 != 0,
        ((p & 0xF0) | (!0x01u8 & 0x0F)) & 0x08 != 0,
        ((p & 0xF0) | (!0x02u8 & 0x0F)) & 0xF0 == p & 0xF0,
        ((p & 0xF0) | (!0x02u8 & 0x0F)) & 0x01 != 0,
        ((p & 0xF0) | (!0x02u8 & 0x0F)) & 0x02 == 0,
        ((p & 0xF0) | (!0x02u8 & 0x0F)) & 0x04 != 0,
        ((p & 0xF0) | (!0x02u8 & 0x0F)) & 0x08 != 0,
        ((p & 0xF0) | (!0x04u8 & 0x0F)) & 0xF0 == p & 0xF0,
        ((p & 0xF0) | (!0x04u8 & 0x0F)) & 0x01 != 0,
        ((p & 0xF0) | (!0x04u8 & 0x0F)) & 0x02 != 0,
        ((p & 0xF0) | (!0x04u8 & 0x0F)) & 0x04 == 0,
        ((p & 0xF0) | (!0x04u8 & 0x0F)) & 0x08 != 0,
        ((p & 0xF0) | (!0x08u8 & 0x0F)) & 0xF0 == p & 0xF0,
        ((p & 0xF0) | (!0x08u8 & 0x0F)) & 0x01 != 0,
        ((p & 0xF0) | (!0x08u8 & 0x0F)) & 0x02 != 0,
        ((p & 0xF0) | (!0x08u8 & 0x0F)) & 0x04 != 0,
        ((p & 0xF0) | (!0x08u8 & 0x0F)) & 0x08 == 0,
{
}

/// Multiplexing a digit first turns every digit off, then turns on exactly the
/// one at `idx`, and never touches the upper half of port 1.
pub proof fn lemma_one_digit_selected(port1: u8, idx: u8, j: u8)
    requires
        idx < 4,
        j < 4,
    ensures
        ({
            let blank = (port1 & 0xF0) | 0x0F;
            let select = (port1 & 0xF0) | (!digit_line(idx).mask() & 0x0F);
            &&& blank & 0xF0 == port1 & 0xF0
            &&& blank & digit_line(j).mask() != 0
            &&& select & 0xF0 == port1 & 0xF0
            &&& (select & digit_line(j).mask() == 0) <==> j == idx
        }),
{
    lemma_select_nibbles(port1);
    assert(digit_line(0).mask() == 0x01 && digit_line(1).mask() == 0x02);
    assert(digit_line(2).mask() == 0x04 && digit_line(3).mask() == 0x08);
}

/// Port 1 with the PM indicator driven on, the other pins as read.
pub fn pm_led_on_value(port1: u8) -> (r: u8)
    ensures
        r == port1 | IoExpPort1::PmLed.mask(),
{
    port1 | IoExpPort1::PmLed.bits()
}

/// Port 1 as the alarm clock writes it to put the PM indicator off: every
/// other pin driven high, the PM pin as read.
pub fn pm_led_off_value(port1: u8) -> (r: u8)
    ensures
        r == port1 | !IoExpPort1::PmLed.mask(),
{
    port1 | !IoExpPort1::PmLed.bits()
}

/// What the two PM writes do to port 1.
pub proof fn lemma_pm_led_writes(port1: u8)
    ensures
        (port1 | IoExpPort1::PmLed.mask()) & 0x20 == 0x20,
        (port1 | IoExpPort1::PmLed.mask()) & 0xDF == port1 & 0xDF,
        (port1 | !IoExpPort1::PmLed.mask()) & 0x20 == port1 & 0x20,
        (port1 | !IoExpPort1::PmLed.mask()) & 0xDF == 0xDF,
{
    assert({
        &&& (port1 | 0x20u8) & 0x20 == 0x20
        &&& (port1 | 0x20u8) & 0xDF == port1 & 0xDF
        &&& (port1 | !0x20u8) & 0x20 == port1 & 0x20
        &&& (port1 | !0x20u8) & 0xDF == 0xDF
    }) by (bit_vector);
}

/// The hour shown for `h` and whether the PM indicator is on: on a settled
/// 12-hour switch, midnight shows 12, noon shows 12 with PM, afternoon hours
/// lose twelve and light PM; otherwise the hour shows as kept, PM off.
pub open spec fn shown_hour(h: u8, fmt_sw: FormatSwitch) -> (u8, bool) {
    match fmt_sw {
        FormatSwitch::H12(count) => if count >= DEBOUNCE_COUNT {
            if h == 0 {
                (12, false)
            } else if h == 12 {
                (12, true)
            } else if h > 12 {
                ((h - 12) as u8, true)
            } else {
                (h, false)
            }
        } else {
            (h, false)
        },
        FormatSwitch::H24(_) => (h, false),
    }
}

pub fn hour_for_display(h: u8, fmt_sw: FormatSwitch) -> (r: (u8, bool))
    ensures
        r == shown_hour(h, fmt_sw),
{
    match fmt_sw {
        FormatSwitch::H12(count) => {
            if count >= DEBOUNCE_COUNT {
                if h == 0 {
                    (12, false)
                } else if h == 12 {
                    (12, true)
                } else if h > 12 {
                    (h - 12, true)
                } else {
                    (h, false)
                }
            } else {
                (h, false)
            }
        },
        _ => (h, false),
    }
}

/// On a settled 12-hour switch a valid hour shows between 1 and 12, agrees
/// with the hour modulo 12, and lights PM exactly from noon on.
pub proof fn lemma_twelve_hour_display(h: u8, count: u32)
    requires
        h < 24,
        count >= DEBOUNCE_COUNT,
    ensures
        ({
            let (dh, pm) = shown_hour(h, FormatSwitch::H12(count));
            &&& 1 <= dh <= 12
            &&& dh % 12 == h % 12
            &&& pm == (h >= 12)
        }),
{
}

/// The four digits shown for hours `h` and minutes `m`, left to right.
pub fn display_digits(h: u8, m: u8) -> (d: [u8; 4])
    ensures
        d@ == seq![h / 10, h % 10, m / 10, m % 10],
{
    let d = [h / 10, h % 10, m / 10, m % 10];
    assert(d@ == seq![h / 10, h % 10, m / 10, m % 10]);
    d
}

/// The display position after `idx`, cycling through the four digits.
pub fn next_digit_index(idx: u8) -> (r: u8)
    requires
        idx < 255,
    ensures
        r == (idx + 1) % 4,
{
    (idx + 1) % 4
}

/// What the 5 ms display task does once: whether the PM indicator is on, and
/// the digit shown at the current position.
#[derive(Clone, Copy, Debug, PartialEq, Eq, Structural)]
pub struct DisplayStep {
    pub pm_led_on: bool,
    pub digit: u8,
}

/// The digit at position `idx` of hours `h` and minutes `m`.
pub open spec fn digit_at(h: u8, m: u8, idx: u8) -> u8 {
    seq![h / 10, h % 10, m / 10, m % 10][idx as int]
}

/// In 24-hour format, or before the 12-hour switch has settled, the hour
/// shows as kept and the PM indicator stays off.
pub proof fn lemma_twenty_four_hour_display(h: u8, fmt_sw: FormatSwitch)
    requires
        !(fmt_sw matches FormatSwitch::H12(count) && count >= DEBOUNCE_COUNT),
    ensures
        shown_hour(h, fmt_sw) == (h, false),
{
}

/// The four multiplexed digits are decimal digits that read back, left to
/// right, as the two-digit hour and the two-digit minute.
pub proof fn lemma_digits_read_back(h: u8, m: u8)
    requires
        h < 100,
        m < 100,
    ensures
        digit_at(h, m, 0) < 10,
        digit_at(h, m, 1) < 10,
        digit_at(h, m, 2) < 10,
        digit_at(h, m, 3) < 10,
        10 * digit_at(h, m, 0) + digit_at(h, m, 1) == h,
        10 * digit_at(h, m, 2) + digit_at(h, m, 3) == m,
{
}

/// The PM indicator and the digit at position `digit_idx` for the time that
/// the display mode selects, in the format that the switch selects.
pub fn display_step(tk: &TimeKeeper, fmt_sw: FormatSwitch, digit_idx: u8) -> (d: DisplayStep)
    requires
        digit_idx < 4,
    ensures
        ({
            let (h, m) = tk.shown();
            let (dh, pm) = shown_hour(h, fmt_sw);
            d == DisplayStep { pm_led_on: pm, digit: digit_at(dh, m, digit_idx) }
        }),
{
    let (h, m) = tk.shown_hours_minutes();
    let (dh, pm) = hour_for_display(h, fmt_sw);
    let digits = display_digits(dh, m);
    DisplayStep { pm_led_on: pm, digit: digits[digit_idx as usize] }
}

} // verus!
