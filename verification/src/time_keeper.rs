use vstd::prelude::*;

verus! {

/// A wall-clock time of day as the alarm clock keeps it.
#[derive(Clone, Copy, Debug, PartialEq, Eq, Structural)]
pub struct Time {
    pub hours: u8,
    pub minutes: u8,
    pub seconds: u8,
}

impl Time {
    /// Hours below 24, minutes and seconds below 60.
    pub open spec fn is_valid(self) -> bool {
        self.hours < 24 && self.minutes < 60 && self.seconds < 60
    }

    /// Seconds elapsed since midnight.
    pub open spec fn seconds_of_day(self) -> int {
        self.hours * 3600 + self.minutes * 60 + self.seconds
    }
}

} // verus!

verus! {

/// The time a second after `t`, carrying into minutes, hours and the next day.
pub open spec fn ticked(t: Time) -> Time {
    if t.seconds + 1 < 60 {
        Time { hours: t.hours, minutes: t.minutes, seconds: (t.seconds + 1) as u8 }
    } else if t.minutes + 1 < 60 {
        Time { hours: t.hours, minutes: (t.minutes + 1) as u8, seconds: 0 }
    } else if t.hours + 1 < 24 {
        Time { hours: (t.hours + 1) as u8, minutes: 0, seconds: 0 }
    } else {
        Time { hours: 0, minutes: 0, seconds: 0 }
    }
}

/// `t` advanced by `n` seconds, one tick at a time.
pub open spec fn ticked_n(t: Time, n: nat) -> Time
    decreases n,
{
    if n == 0 {
        t
    } else {
        ticked(ticked_n(t, (n - 1) as nat))
    }
}

/// The ticks that add one to a field never overflow it.
pub open spec fn can_tick(t: Time) -> bool {
    &&& t.seconds < 255
    &&& t.seconds >= 59 ==> t.minutes < 255
    &&& t.seconds >= 59 && t.minutes >= 59 ==> t.hours < 255
}

/// `t` with its hours advanced by one, modulo a day.
pub open spec fn hours_incremented(t: Time) -> Time {
    Time { hours: ((t.hours + 1) % 24) as u8, ..t }
}

/// `t` with its minutes advanced by one, modulo an hour, leaving the hours alone.
pub open spec fn minutes_incremented(t: Time) -> Time {
    Time { minutes: ((t.minutes + 1) % 60) as u8, ..t }
}

/// A tick moves a valid time one second forward on the 24-hour dial.
pub proof fn lemma_tick_advances_one_second(t: Time)
    requires
        t.is_valid(),
    ensures
        can_tick(t),
        ticked(t).is_valid(),
        ticked(t).seconds_of_day() == (t.seconds_of_day() + 1) % 86400,
{
}

/// Two valid times that fall on the same second of the day are the same time.
pub proof fn lemma_seconds_of_day_injective(a: Time, b: Time)
    requires
        a.is_valid(),
        b.is_valid(),
        a.seconds_of_day() == b.seconds_of_day(),
    ensures
        a == b,
{
    assert(a.hours == b.hours) by (nonlinear_arith)
        requires
            a.hours * 3600 + a.minutes * 60 + a.seconds == b.hours * 3600 + b.minutes * 60
                + b.seconds,
            a.minutes < 60,
            a.seconds < 60,
            b.minutes < 60,
            b.seconds < 60,
            a.hours < 24,
            b.hours < 24,
    ;
}

/// `n` ticks move a valid time `n` seconds forward on the 24-hour dial.
pub proof fn lemma_ticks_advance(t: Time, n: nat)
    requires
        t.is_valid(),
    ensures
        ticked_n(t, n).is_valid(),
        ticked_n(t, n).seconds_of_day() == (t.seconds_of_day() + n) % 86400,
    decreases n,
{
    if n > 0 {
        lemma_ticks_advance(t, (n - 1) as nat);
        lemma_tick_advances_one_second(ticked_n(t, (n - 1) as nat));
        assert(((t.seconds_of_day() + (n - 1)) % 86400 + 1) % 86400 == (t.seconds_of_day() + n)
            % 86400) by (nonlinear_arith)
            requires
                n >= 1,
        ;
    }
}

/// A day of ticks brings a valid time back to itself.
pub proof fn lemma_day_of_ticks_is_identity(t: Time)
    requires
        t.is_valid(),
    ensures
        ticked_n(t, 86400) == t,
{
    lemma_ticks_advance(t, 86400);
    assert(0 <= t.seconds_of_day() < 86400);
    lemma_seconds_of_day_injective(ticked_n(t, 86400), t);
}

/// No positive number of ticks short of a day brings a valid time back to
/// itself: a day is the clock's least period.
pub proof fn lemma_day_is_least_period(t: Time, n: nat)
    requires
        t.is_valid(),
        0 < n < 86400,
    ensures
        ticked_n(t, n) != t,
{
    lemma_ticks_advance(t, n);
    assert(0 <= t.seconds_of_day() < 86400);
    assert((t.seconds_of_day() + n) % 86400 != t.seconds_of_day());
}

/// Which of the two stored times the display shows.
#[derive(Clone, Copy, Debug, PartialEq, Eq, Structural)]
pub enum DisplayMode {
    ShowClock,
    ShowAlarm,
}

/// The clock time, the alarm time and what the display shows.
#[derive(Debug)]
pub struct TimeKeeper {
    pub clocktime: Time,
    pub alarmtime: Time,
    pub display_mode: DisplayMode,
}

impl TimeKeeper {
    /// Midnight on both times, showing the clock.
    pub fn new() -> (tk: Self)
        ensures
            tk.clocktime == (Time { hours: 0, minutes: 0, seconds: 0 }),
            tk.alarmtime == (Time { hours: 0, minutes: 0, seconds: 0 }),
            tk.display_mode == DisplayMode::ShowClock,
    {
        Self {
            clocktime: Time { hours: 0, minutes: 0, seconds: 0 },
            alarmtime: Time { hours: 0, minutes: 0, seconds: 0 },
            display_mode: DisplayMode::ShowClock,
        }
    }

    /// Whether a tick now would overflow no field.
    pub fn tick_fits(&self) -> (r: bool)
        ensures
            r == can_tick(self.clocktime),
    {
        let t = self.clocktime;
        t.seconds < 255 && (t.seconds < 59 || t.minutes < 255) && (t.seconds < 59 || t.minutes
            < 59 || t.hours < 255)
    }

    /// Advances the clock time by one second.
    pub fn tick(&mut self)
        requires
            can_tick(old(self).clocktime),
        ensures
            final(self).clocktime == ticked(old(self).clocktime),
            final(self).alarmtime == old(self).alarmtime,
            final(self).display_mode == old(self).display_mode,
    {
        self.clocktime.seconds += 1;
        if self.clocktime.seconds >= 60 {
            self.clocktime.seconds = 0;
            self.clocktime.minutes += 1;
            if self.clocktime.minutes >= 60 {
                self.clocktime.minutes = 0;
                self.clocktime.hours += 1;
                if self.clocktime.hours >= 24 {
                    self.clocktime.hours = 0;
                }
            }
        }
    }

    /// The clock is at the alarm's hour and minute.
    pub open spec fn at_alarm_time(self) -> bool {
        self.clocktime.hours == self.alarmtime.hours && self.clocktime.minutes
            == self.alarmtime.minutes
    }

    pub fn alarm_time_match(&self) -> (r: bool)
        ensures
            r == self.at_alarm_time(),
    {
        self.clocktime.hours == self.alarmtime.hours && self.clocktime.minutes
            == self.alarmtime.minutes
    }

    pub fn increment_time_hours(&mut self)
        requires
            old(self).clocktime.hours < 255,
        ensures
            final(self).clocktime == hours_incremented(old(self).clocktime),
            final(self).alarmtime == old(self).alarmtime,
            final(self).display_mode == old(self).display_mode,
    {
        self.clocktime.hours = (self.clocktime.hours + 1) % 24;
    }

    pub fn increment_time_minutes(&mut self)
        requires
            old(self).clocktime.minutes < 255,
        ensures
            final(self).clocktime == minutes_incremented(old(self).clocktime),
            final(self).alarmtime == old(self).alarmtime,
            final(self).display_mode == old(self).display_mode,
    {
        self.clocktime.minutes = (self.clocktime.minutes + 1) % 60;
    }

    pub fn increment_alarm_hours(&mut self)
        requires
            old(self).alarmtime.hours < 255,
        ensures
            final(self).alarmtime == hours_incremented(old(self).alarmtime),
            final(self).clocktime == old(self).clocktime,
            final(self).display_mode == old(self).display_mode,
    {
        self.alarmtime.hours = (self.alarmtime.hours + 1) % 24;
    }

    pub fn increment_alarm_minutes(&mut self)
        requires
            old(self).alarmtime.minutes < 255,
        ensures
            final(self).alarmtime == minutes_incremented(old(self).alarmtime),
            final(self).clocktime == old(self).clocktime,
            final(self).display_mode == old(self).display_mode,
    {
        self.alarmtime.minutes = (self.alarmtime.minutes + 1) % 60;
    }

    pub fn show_clock_time(&mut self)
        ensures
            final(self).display_mode == DisplayMode::ShowClock,
            final(self).clocktime == old(self).clocktime,
            final(self).alarmtime == old(self).alarmtime,
    {
        self.display_mode = DisplayMode::ShowClock;
    }

    pub fn show_alarm_time(&mut self)
        ensures
            final(self).display_mode == DisplayMode::ShowAlarm,
            final(self).clocktime == old(self).clocktime,
            final(self).alarmtime == old(self).alarmtime,
    {
        self.display_mode = DisplayMode::ShowAlarm;
    }

    /// The hour and minute of the time that the display mode selects.
    pub open spec fn shown(self) -> (u8, u8) {
        match self.display_mode {
            DisplayMode::ShowClock => (self.clocktime.hours, self.clocktime.minutes),
            DisplayMode::ShowAlarm => (self.alarmtime.hours, self.alarmtime.minutes),
        }
    }

    pub fn shown_hours_minutes(&self) -> (r: (u8, u8))
        ensures
            r == self.shown(),
    {
        match self.display_mode {
            DisplayMode::ShowClock => (self.clocktime.hours, self.clocktime.minutes),
            DisplayMode::ShowAlarm => (self.alarmtime.hours, self.alarmtime.minutes),
        }
    }
}

/// Setting the hours or the minutes moves that field one forward on its dial,
/// keeps a valid time valid and leaves the other fields alone.
pub proof fn lemma_settings_stay_valid(t: Time)
    requires
        t.is_valid(),
    ensures
        hours_incremented(t).is_valid(),
        minutes_incremented(t).is_valid(),
        hours_incremented(t).minutes == t.minutes,
        minutes_incremented(t).hours == t.hours,
        hours_incremented(t).seconds == t.seconds,
        minutes_incremented(t).seconds == t.seconds,
        hours_incremented(t).hours == (t.hours + 1) % 24,
        minutes_incremented(t).minutes == (t.minutes + 1) % 60,
{
}

} // verus!
