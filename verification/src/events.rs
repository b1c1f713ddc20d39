use vstd::prelude::*;

verus! {

/// Samples in a row at one level after which an input counts as settled.
pub const DEBOUNCE_COUNT: u32 = 8;

/// A push button and the number of consecutive samples it has held its level.
#[derive(Clone, Copy, Debug, PartialEq, Eq, Structural)]
pub enum Button {
    Pressed(u32),
    Released(u32),
}

/// The alarm on/off switch and the number of consecutive samples at its position.
#[derive(Clone, Copy, Debug, PartialEq, Eq, Structural)]
pub enum AlarmSwitch {
    On(u32),
    Off(u32),
}

/// The 12/24-hour switch and the number of consecutive samples at its position.
#[derive(Clone, Copy, Debug, PartialEq, Eq, Structural)]
pub enum FormatSwitch {
    H12(u32),
    H24(u32),
}

/// The count after one more sample at the same level, wrapping at `u32::MAX`.
pub open spec fn count_after(count: u32) -> u32 {
    if count == u32::MAX {
        0
    } else {
        (count + 1) as u32
    }
}

/// A button after one more sample, pressed or not: a sample at the old level
/// adds to the count, a change of level starts a new count at one.
pub open spec fn button_after(past: Button, pressed: bool) -> Button {
    match past {
        Button::Pressed(count) => if pressed {
            Button::Pressed(count_after(count))
        } else {
            Button::Released(1)
        },
        Button::Released(count) => if pressed {
            Button::Pressed(1)
        } else {
            Button::Released(count_after(count))
        },
    }
}

/// The alarm switch after one more sample, on or not, counted as a button is.
pub open spec fn alarm_switch_after(past: AlarmSwitch, on: bool) -> AlarmSwitch {
    match past {
        AlarmSwitch::On(count) => if on {
            AlarmSwitch::On(count_after(count))
        } else {
            AlarmSwitch::Off(1)
        },
        AlarmSwitch::Off(count) => if on {
            AlarmSwitch::On(1)
        } else {
            AlarmSwitch::Off(count_after(count))
        },
    }
}

/// The format switch after one more sample, at 12 hours or not, counted as a button is.
pub open spec fn format_switch_after(past: FormatSwitch, h12: bool) -> FormatSwitch {
    match past {
        FormatSwitch::H12(count) => if h12 {
            FormatSwitch::H12(count_after(count))
        } else {
            FormatSwitch::H24(1)
        },
        FormatSwitch::H24(count) => if h12 {
            FormatSwitch::H12(1)
        } else {
            FormatSwitch::H24(count_after(count))
        },
    }
}

/// A button after `n` more samples, all at the same level.
pub open spec fn button_after_n(past: Button, pressed: bool, n: nat) -> Button
    decreases n,
{
    if n == 0 {
        past
    } else {
        button_after(button_after_n(past, pressed, (n - 1) as nat), pressed)
    }
}

/// The button is at the given level.
pub open spec fn is_level(b: Button, pressed: bool) -> bool {
    if pressed {
        b is Pressed
    } else {
        b is Released
    }
}

pub fn update_button(past: Button, pressed: bool) -> (b: Button)
    ensures
        b == button_after(past, pressed),
{
    match past {
        Button::Pressed(count) => if pressed {
            Button::Pressed(count.wrapping_add(1))
        } else {
            Button::Released(1)
        },
        Button::Released(count) => if pressed {
            Button::Pressed(1)
        } else {
            Button::Released(count.wrapping_add(1))
        },
    }
}

pub fn update_alarm_switch(past: AlarmSwitch, on: bool) -> (s: AlarmSwitch)
    ensures
        s == alarm_switch_after(past, on),
{
    match past {
        AlarmSwitch::On(count) => if on {
            AlarmSwitch::On(count.wrapping_add(1))
        } else {
            AlarmSwitch::Off(1)
        },
        AlarmSwitch::Off(count) => if on {
            AlarmSwitch::On(1)
        } else {
            AlarmSwitch::Off(count.wrapping_add(1))
        },
    }
}

pub fn update_format_switch(past: FormatSwitch, h12: bool) -> (s: FormatSwitch)
    ensures
        s == format_switch_after(past, h12),
{
    match past {
        FormatSwitch::H12(count) => if h12 {
            FormatSwitch::H12(count.wrapping_add(1))
        } else {
            FormatSwitch::H24(1)
        },
        FormatSwitch::H24(count) => if h12 {
            FormatSwitch::H12(1)
        } else {
            FormatSwitch::H24(count.wrapping_add(1))
        },
    }
}

/// Holding a button at a new level for `n` samples counts it to `n`.
pub proof fn lemma_held_level_counts(past: Button, pressed: bool, n: nat)
    requires
        !is_level(past, pressed),
        1 <= n <= u32::MAX,
    ensures
        button_after_n(past, pressed, n) == (if pressed {
            Button::Pressed(n as u32)
        } else {
            Button::Released(n as u32)
        }),
    decreases n,
{
    if n > 1 {
        lemma_held_level_counts(past, pressed, (n - 1) as nat);
    } else {
        assert(button_after_n(past, pressed, 0) == past);
    }
}

/// While a button is held at a new level, the debounced count is reached at
/// exactly one sample: the one numbered `DEBOUNCE_COUNT`.
pub proof fn lemma_debounce_fires_once(past: Button, pressed: bool, n: nat)
    requires
        !is_level(past, pressed),
        1 <= n <= u32::MAX,
    ensures
        (button_after_n(past, pressed, n) == (if pressed {
            Button::Pressed(DEBOUNCE_COUNT)
        } else {
            Button::Released(DEBOUNCE_COUNT)
        })) <==> n == DEBOUNCE_COUNT,
{
    lemma_held_level_counts(past, pressed, n);
}

/// The alarm switch after `n` more samples, all at the same position.
pub open spec fn alarm_switch_after_n(past: AlarmSwitch, on: bool, n: nat) -> AlarmSwitch
    decreases n,
{
    if n == 0 {
        past
    } else {
        alarm_switch_after(alarm_switch_after_n(past, on, (n - 1) as nat), on)
    }
}

/// The format switch after `n` more samples, all at the same position.
pub open spec fn format_switch_after_n(past: FormatSwitch, h12: bool, n: nat) -> FormatSwitch
    decreases n,
{
    if n == 0 {
        past
    } else {
        format_switch_after(format_switch_after_n(past, h12, (n - 1) as nat), h12)
    }
}

/// Holding the alarm switch at a new position for `n` samples counts it to
/// `n`, so it reaches the debounce count at exactly one sample of the run.
pub proof fn lemma_held_alarm_switch_counts(past: AlarmSwitch, on: bool, n: nat)
    requires
        (if on { past is Off } else { past is On }),
        1 <= n <= u32::MAX,
    ensures
        alarm_switch_after_n(past, on, n) == (if on {
            AlarmSwitch::On(n as u32)
        } else {
            AlarmSwitch::Off(n as u32)
        }),
        (alarm_switch_after_n(past, on, n) == (if on {
            AlarmSwitch::On(DEBOUNCE_COUNT)
        } else {
            AlarmSwitch::Off(DEBOUNCE_COUNT)
        })) <==> n == DEBOUNCE_COUNT,
    decreases n,
{
    if n > 1 {
        lemma_held_alarm_switch_counts(past, on, (n - 1) as nat);
    } else {
        assert(alarm_switch_after_n(past, on, 0) == past);
    }
}

/// Holding the format switch at a new position for `n` samples counts it to
/// `n`, so it reaches the debounce count at exactly one sample of the run.
pub proof fn lemma_held_format_switch_counts(past: FormatSwitch, h12: bool, n: nat)
    requires
        (if h12 { past is H24 } else { past is H12 }),
        1 <= n <= u32::MAX,
    ensures
        format_switch_after_n(past, h12, n) == (if h12 {
            FormatSwitch::H12(n as u32)
        } else {
            FormatSwitch::H24(n as u32)
        }),
        (format_switch_after_n(past, h12, n) == (if h12 {
            FormatSwitch::H12(DEBOUNCE_COUNT)
        } else {
            FormatSwitch::H24(DEBOUNCE_COUNT)
        })) <==> n == DEBOUNCE_COUNT,
    decreases n,
{
    if n > 1 {
        lemma_held_format_switch_counts(past, h12, (n - 1) as nat);
    } else {
        assert(format_switch_after_n(past, h12, 0) == past);
    }
}

/// Every input of the alarm clock with its settle count.
#[derive(Clone, Copy, Debug, PartialEq, Eq, Structural)]
pub struct SystemEvents {
    pub time_but: Button,
    pub alarm_but: Button,
    pub hour_but: Button,
    pub min_but: Button,
    pub snooze_but: Button,
    pub alarm_sw: AlarmSwitch,
    pub fmt_sw: FormatSwitch,
}

impl SystemEvents {
    /// All buttons released, the alarm switch off, 24-hour format, every count zero.
    pub open spec fn initial() -> SystemEvents {
        SystemEvents {
            time_but: Button::Released(0),
            alarm_but: Button::Released(0),
            hour_but: Button::Released(0),
            min_but: Button::Released(0),
            snooze_but: Button::Released(0),
            alarm_sw: AlarmSwitch::Off(0),
            fmt_sw: FormatSwitch::H24(0),
        }
    }
}

impl Default for SystemEvents {
    fn default() -> (e: Self)
        ensures
            e == SystemEvents::initial(),
    {
        SystemEvents {
            time_but: Button::Released(0),
            alarm_but: Button::Released(0),
            hour_but: Button::Released(0),
            min_but: Button::Released(0),
            snooze_but: Button::Released(0),
            alarm_sw: AlarmSwitch::Off(0),
            fmt_sw: FormatSwitch::H24(0),
        }
    }
}

} // verus!
