use vstd::prelude::*;

use crate::text::{
    append_decimal, decimal, digit_char, digit_value, is_digit, lemma_decimal_is_numeral,
    lemma_digit_char, numeral_value,
};

verus! {

/// The timer interrupt's whole work: raise the flag that a second has passed.
pub fn timer_int_callback(flag: &mut bool)
    ensures
        *final(flag),
{
    *flag = true;
}

/// Elapsed time as the real-time timer example counts it.
#[derive(Clone, Copy, Debug, PartialEq, Eq, Structural)]
pub struct Time {
    pub seconds: u32,
    pub minutes: u32,
    pub hours: u32,
}

/// The count after one more second. The seconds field is never set back to
/// zero by itself: past 59 every second also adds a minute, past 59 minutes
/// every second also adds an hour, and past 23 hours everything restarts from zero.
pub open spec fn advanced(t: Time) -> Time {
    let s: u32 = if t.seconds == u32::MAX { 0 } else { (t.seconds + 1) as u32 };
    let m: int = if s > 59 { t.minutes + 1 } else { t.minutes as int };
    let h: int = if m > 59 { t.hours + 1 } else { t.hours as int };
    if h > 23 {
        Time { seconds: 0, minutes: 0, hours: 0 }
    } else {
        Time { seconds: s, minutes: m as u32, hours: h as u32 }
    }
}

/// One more second adds to no field that is at its maximum.
pub open spec fn can_advance(t: Time) -> bool {
    let s: u32 = if t.seconds == u32::MAX { 0 } else { (t.seconds + 1) as u32 };
    let m: int = if s > 59 { t.minutes + 1 } else { t.minutes as int };
    &&& s > 59 ==> t.minutes < u32::MAX
    &&& m > 59 ==> t.hours < u32::MAX
}

/// The count after `n` seconds.
pub open spec fn advanced_n(t: Time, n: nat) -> Time
    decreases n,
{
    if n == 0 {
        t
    } else {
        advanced(advanced_n(t, (n - 1) as nat))
    }
}

/// The count `n` seconds after a start from zero, before it restarts.
pub open spec fn count_from_zero(n: nat) -> Time {
    Time {
        seconds: n as u32,
        minutes: if n < 60 { 0 } else { (n - 59) as u32 },
        hours: if n < 119 { 0 } else { (n - 118) as u32 },
    }
}

impl Time {
    pub fn new() -> (t: Self)
        ensures
            t == (Time { seconds: 0, minutes: 0, hours: 0 }),
    {
        Time { seconds: 0, minutes: 0, hours: 0 }
    }

    /// Whether counting one more second now overflows no field.
    pub fn advance_fits(&self) -> (r: bool)
        ensures
            r == can_advance(*self),
    {
        let s = self.seconds.wrapping_add(1);
        let minutes_carry = s > 59;
        let m_over = if minutes_carry {
            self.minutes >= 59
        } else {
            self.minutes > 59
        };
        (!minutes_carry || self.minutes < u32::MAX) && (!m_over || self.hours < u32::MAX)
    }

    /// Counts one more second.
    pub fn advance(&mut self)
        requires
            can_advance(*old(self)),
        ensures
            *final(self) == advanced(*old(self)),
    {
        self.seconds = self.seconds.wrapping_add(1);
        if self.seconds > 59 {
            self.minutes = self.minutes + 1;
        }
        if self.minutes > 59 {
            self.hours = self.hours + 1;
        }
        if self.hours > 23 {
            self.seconds = 0;
            self.minutes = 0;
            self.hours = 0;
        }
    }
}

/// Started from zero, the count never overflows, shows `count_from_zero`, and
/// starts over from zero every 142 seconds.
pub proof fn lemma_count_from_zero(n: nat)
    requires
        n <= 142,
    ensures
        n < 142 ==> advanced_n(Time { seconds: 0, minutes: 0, hours: 0 }, n) == count_from_zero(n),
        n < 142 ==> can_advance(advanced_n(Time { seconds: 0, minutes: 0, hours: 0 }, n)),
        n == 142 ==> advanced_n(Time { seconds: 0, minutes: 0, hours: 0 }, n) == (Time {
            seconds: 0,
            minutes: 0,
            hours: 0,
        }),
    decreases n,
{
    if n > 0 {
        lemma_count_from_zero((n - 1) as nat);
    }
}

/// The decimal numeral of `n`, padded with a zero to at least two characters.
pub open spec fn two_digits(n: nat) -> Seq<char> {
    if n < 10 {
        seq!['0'] + decimal(n)
    } else {
        decimal(n)
    }
}

/// The line that the real-time timer prints for `t`.
pub open spec fn elapsed_line(t: Time) -> Seq<char> {
    "Elapsed Time "@ + two_digits(t.hours as nat) + ":"@ + two_digits(t.minutes as nat) + ":"@
        + two_digits(t.seconds as nat)
}

fn append_two_digits(s: &mut String, n: u32)
    ensures
        final(s)@ == old(s)@ + two_digits(n as nat),
{
    if n < 10 {
        proof {
            reveal_strlit("0");
        }
        s.append("0");
    }
    append_decimal(s, n);
}

impl Time {
    /// The line printed for this count, each field zero-padded to two digits.
    pub fn elapsed_text(&self) -> (line: String)
        ensures
            line@ == elapsed_line(*self),
    {
        let mut line = String::from_str("Elapsed Time ");
        append_two_digits(&mut line, self.hours);
        line.append(":");
        append_two_digits(&mut line, self.minutes);
        line.append(":");
        append_two_digits(&mut line, self.seconds);
        line
    }
}

/// Each printed field is a numeral of at least two digits that reads back as
/// the field: below 100 exactly its tens and units digit, zero-padded; from
/// 100 on its plain numeral, with no leading zero.
pub proof fn lemma_two_digits_is_padded_numeral(n: nat)
    ensures
        two_digits(n).len() >= 2,
        forall|i: int| 0 <= i < two_digits(n).len() ==> is_digit(#[trigger] two_digits(n)[i]),
        numeral_value(two_digits(n)) == n,
        n < 100 ==> two_digits(n).len() == 2,
        n < 100 ==> digit_value(two_digits(n)[0]) == n / 10 && digit_value(two_digits(n)[1])
            == n % 10,
        n >= 100 ==> two_digits(n)[0] != '0',
{
    lemma_decimal_is_numeral(n);
    let t = two_digits(n);
    if n < 10 {
        lemma_digit_char(n);
        lemma_digit_char(0);
        assert(decimal(n) =~= seq![digit_char(n)]);
        assert(t =~= seq!['0', digit_char(n)]);
        assert(t.drop_last() =~= seq!['0']);
        assert(seq!['0'].drop_last() =~= Seq::<char>::empty());
        assert(numeral_value(Seq::<char>::empty()) == 0);
        assert(numeral_value(seq!['0']) == numeral_value(seq!['0'].drop_last()) * 10 + digit_value(
            '0',
        ));
        assert(numeral_value(t) == numeral_value(t.drop_last()) * 10 + digit_value(t.last()));
    } else if n < 100 {
        let q = n / 10;
        lemma_decimal_is_numeral(q);
        lemma_digit_char(q);
        lemma_digit_char(n % 10);
        assert(decimal(q) =~= seq![digit_char(q)]);
        assert(t =~= seq![digit_char(q), digit_char(n % 10)]);
    }
}

} // verus!
