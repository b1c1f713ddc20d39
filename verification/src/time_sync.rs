use vstd::prelude::*;

verus! {

/// The pattern with which the time-synchronizing example prints UTC time:
/// day/month/year hours:minutes:seconds.
pub const TIME_PATTERN: &'static str = "%d/%m/%Y %H:%M:%S";

/// What chrono renders for the UTC instant `secs` seconds and `nanos`
/// nanoseconds after the Unix epoch under `pattern`, or none where chrono
/// has no such instant.
pub uninterp spec fn chrono_utc_text(secs: i64, nanos: u32, pattern: Seq<char>) -> Option<
    Seq<char>,
>;

/// Calls chrono's `DateTime::<Utc>::from_timestamp(secs, nanos)` and renders the
/// instant with `format(pattern).to_string()`. Claimed of it: the result is
/// `chrono_utc_text` of the arguments; there is no instant for nanoseconds of
/// two seconds or more (chrono's `NaiveTime::from_num_seconds_from_midnight_opt`);
/// every instant from 1970 through the year 9999 with nanoseconds below a
/// second exists (chrono's dates reach the years -262143 to 262142). The exact
/// bounds of that range, and leap-second nanoseconds, are left unsaid. Only the
/// one pattern is admitted: a pattern that chrono cannot parse makes
/// `to_string` panic.
#[verifier::external_body]
fn utc_text(secs: i64, nanos: u32, pattern: &str) -> (r: Option<String>)
    requires
        pattern@ == TIME_PATTERN@,
    ensures
        r is Some <==> chrono_utc_text(secs, nanos, pattern@) is Some,
        match r {
            Some(text) => text@ == chrono_utc_text(secs, nanos, pattern@)->0,
            None => true,
        },
        nanos >= 2_000_000_000 ==> r is None,
        0 <= secs < 253_402_300_800 && nanos < 1_000_000_000 ==> r is Some,
{
    match chrono::DateTime::from_timestamp(secs, nanos) {
        Some(instant) => Some(instant.format(pattern).to_string()),
        None => None,
    }
}

/// The UTC time `secs` seconds and `nanos` nanoseconds after the Unix epoch,
/// as the time-synchronizing example prints it, or `None` outside chrono's range.
pub fn format_utc_time(secs: i64, nanos: u32) -> (r: Option<String>)
    ensures
        r is Some <==> chrono_utc_text(secs, nanos, TIME_PATTERN@) is Some,
        match r {
            Some(text) => text@ == chrono_utc_text(secs, nanos, TIME_PATTERN@)->0,
            None => true,
        },
        nanos >= 2_000_000_000 ==> r is None,
        0 <= secs < 253_402_300_800 && nanos < 1_000_000_000 ==> r is Some,
{
    utc_text(secs, nanos, TIME_PATTERN)
}

} // verus!
