use vstd::prelude::*;

use crate::events::{
    alarm_switch_after, alarm_switch_after_n, button_after, button_after_n, format_switch_after,
    format_switch_after_n, is_level, lemma_held_alarm_switch_counts,
    lemma_held_format_switch_counts, lemma_held_level_counts, update_alarm_switch,
    update_button, update_format_switch, AlarmSwitch, Button, FormatSwitch, SystemEvents,
};

verus! {

/// I2C address of the TCA6424 I/O expander.
pub const TCA6424_ADDR: u8 = 0x22;

/// Expander command bytes: input, output and configuration registers, with auto-increment.
pub const IN_PORT0: u8 = 0x80;
pub const IN_PORT1: u8 = 0x81;
pub const OUT_PORT0: u8 = 0x84;
pub const OUT_PORT1: u8 = 0x85;
pub const OUT_PORT2: u8 = 0x86;
pub const CONFIG_PORT0: u8 = 0x8C;

/// Pin directions (a set bit is an input): all of port 0 inputs, pins 6 and 7
/// of port 1 inputs, all of port 2 outputs.
pub const PORT0_DIR: u8 = 0xFF;
pub const PORT1_DIR: u8 = 0xC0;
pub const PORT2_DIR: u8 = 0x00;

/// Pins of expander port 0; pin k is bit `1 << k`.
#[derive(Clone, Copy, Debug, PartialEq, Eq, Structural)]
pub enum IoExpPort0 {
    AlarmSwitchOn,
    AlarmSwitchOff,
    P02,
    P03,
    AlarmButton,
    TimeButton,
    MinuteButton,
    HourButton,
}

/// Pins of expander port 1; pin k is bit `1 << k`.
#[derive(Clone, Copy, Debug, PartialEq, Eq, Structural)]
pub enum IoExpPort1 {
    Digit1,
    Digit2,
    Digit3,
    Digit4,
    Led,
    PmLed,
    FormatSwitch12,
    FormatSwitch24,
}

/// Pins of expander port 2, the display segments; pin k is bit `1 << k`.
#[derive(Clone, Copy, Debug, PartialEq, Eq, Structural)]
pub enum IoExpPort2 {
    SegA,
    SegB,
    SegC,
    SegD,
    SegE,
    SegF,
    Dp,
    SegG,
}

impl IoExpPort0 {
    pub open spec fn mask(self) -> u8 {
        match self {
            IoExpPort0::AlarmSwitchOn => 0x01,
            IoExpPort0::AlarmSwitchOff => 0x02,
            IoExpPort0::P02 => 0x04,
            IoExpPort0::P03 => 0x08,
            IoExpPort0::AlarmButton => 0x10,
            IoExpPort0::TimeButton => 0x20,
            IoExpPort0::MinuteButton => 0x40,
            IoExpPort0::HourButton => 0x80,
        }
    }

    pub fn bits(&self) -> (r: u8)
        ensures
            r == self.mask(),
    {
        match self {
            IoExpPort0::AlarmSwitchOn => 0x01,
            IoExpPort0::AlarmSwitchOff => 0x02,
            IoExpPort0::P02 => 0x04,
            IoExpPort0::P03 => 0x08,
            IoExpPort0::AlarmButton => 0x10,
            IoExpPort0::TimeButton => 0x20,
            IoExpPort0::MinuteButton => 0x40,
            IoExpPort0::HourButton => 0x80,
        }
    }
}

impl IoExpPort1 {
    pub open spec fn mask(self) -> u8 {
        match self {
            IoExpPort1::Digit1 => 0x01,
            IoExpPort1::Digit2 => 0x02,
            IoExpPort1::Digit3 => 0x04,
            IoExpPort1::Digit4 => 0x08,
            IoExpPort1::Led => 0x10,
            IoExpPort1::PmLed => 0x20,
            IoExpPort1::FormatSwitch12 => 0x40,
            IoExpPort1::FormatSwitch24 => 0x80,
        }
    }

    pub fn bits(&self) -> (r: u8)
        ensures
            r == self.mask(),
    {
        match self {
            IoExpPort1::Digit1 => 0x01,
            IoExpPort1::Digit2 => 0x02,
            IoExpPort1::Digit3 => 0x04,
            IoExpPort1::Digit4 => 0x08,
            IoExpPort1::Led => 0x10,
            IoExpPort1::PmLed => 0x20,
            IoExpPort1::FormatSwitch12 => 0x40,
            IoExpPort1::FormatSwitch24 => 0x80,
        }
    }
}

impl IoExpPort2 {
    pub open spec fn mask(self) -> u8 {
        match self {
            IoExpPort2::SegA => 0x01,
            IoExpPort2::SegB => 0x02,
            IoExpPort2::SegC => 0x04,
            IoExpPort2::SegD => 0x08,
            IoExpPort2::SegE => 0x10,
            IoExpPort2::SegF => 0x20,
            IoExpPort2::Dp => 0x40,
            IoExpPort2::SegG => 0x80,
        }
    }

    pub fn bits(&self) -> (r: u8)
        ensures
            r == self.mask(),
    {
        match self {
            IoExpPort2::SegA => 0x01,
            IoExpPort2::SegB => 0x02,
            IoExpPort2::SegC => 0x04,
            IoExpPort2::SegD => 0x08,
            IoExpPort2::SegE => 0x10,
            IoExpPort2::SegF => 0x20,
            IoExpPort2::Dp => 0x40,
            IoExpPort2::SegG => 0x80,
        }
    }
}

/// The command that sets the direction of all three ports.
pub fn expander_config_frame() -> (f: [u8; 4])
    ensures
        f@ == seq![CONFIG_PORT0, PORT0_DIR, PORT1_DIR, PORT2_DIR],
{
    [CONFIG_PORT0, PORT0_DIR, PORT1_DIR, PORT2_DIR]
}

/// An input pin reads low: inputs are active low.
pub open spec fn is_low(port: u8, mask: u8) -> bool {
    port & mask == 0
}

/// The inputs after one more sample of the expander's two input ports. The
/// snooze button is wired to the processor, not to the expander, and keeps its value.
pub open spec fn events_after(past: SystemEvents, port0: u8, port1: u8) -> SystemEvents {
    SystemEvents {
        time_but: button_after(past.time_but, is_low(port0, IoExpPort0::TimeButton.mask())),
        alarm_but: button_after(past.alarm_but, is_low(port0, IoExpPort0::AlarmButton.mask())),
        hour_but: button_after(past.hour_but, is_low(port0, IoExpPort0::HourButton.mask())),
        min_but: button_after(past.min_but, is_low(port0, IoExpPort0::MinuteButton.mask())),
        snooze_but: past.snooze_but,
        alarm_sw: alarm_switch_after(
            past.alarm_sw,
            is_low(port0, IoExpPort0::AlarmSwitchOn.mask()),
        ),
        fmt_sw: format_switch_after(
            past.fmt_sw,
            is_low(port1, IoExpPort1::FormatSwitch12.mask()),
        ),
    }
}

/// What the alarm clock remembers of the expander's inputs between two samples.
pub struct ExpanderInputs {
    pub past_events: SystemEvents,
}

impl ExpanderInputs {
    pub fn new() -> (s: Self)
        ensures
            s.past_events == SystemEvents::initial(),
    {
        ExpanderInputs { past_events: SystemEvents::default() }
    }

    /// Takes the values read from input ports 0 and 1, updates every
    /// expander input's count, remembers the result and returns it.
    pub fn get_expander_events(&mut self, port0: u8, port1: u8) -> (e: SystemEvents)
        ensures
            e == events_after(old(self).past_events, port0, port1),
            final(self).past_events == e,
    {
        let past = self.past_events;
        let events = SystemEvents {
            time_but: update_button(past.time_but, port0 & IoExpPort0::TimeButton.bits() == 0),
            alarm_but: update_button(past.alarm_but, port0 & IoExpPort0::AlarmButton.bits() == 0),
            hour_but: update_button(past.hour_but, port0 & IoExpPort0::HourButton.bits() == 0),
            min_but: update_button(past.min_but, port0 & IoExpPort0::MinuteButton.bits() == 0),
            snooze_but: past.snooze_but,
            alarm_sw: update_alarm_switch(
                past.alarm_sw,
                port0 & IoExpPort0::AlarmSwitchOn.bits() == 0,
            ),
            fmt_sw: update_format_switch(
                past.fmt_sw,
                port1 & IoExpPort1::FormatSwitch12.bits() == 0,
            ),
        };
        self.past_events = events;
        events
    }
}

/// The inputs after `n` more samples of the expander that all read the same two ports.
pub open spec fn events_after_n(past: SystemEvents, port0: u8, port1: u8, n: nat) -> SystemEvents
    decreases n,
{
    if n == 0 {
        past
    } else {
        events_after(events_after_n(past, port0, port1, (n - 1) as nat), port0, port1)
    }
}

/// Repeated samples of the same readings update each input on its own, as
/// that many samples of its own level.
pub proof fn lemma_events_after_n_per_input(past: SystemEvents, port0: u8, port1: u8, n: nat)
    ensures
        ({
            let e = events_after_n(past, port0, port1, n);
            &&& e.time_but == button_after_n(
                past.time_but,
                is_low(port0, IoExpPort0::TimeButton.mask()),
                n,
            )
            &&& e.alarm_but == button_after_n(
                past.alarm_but,
                is_low(port0, IoExpPort0::AlarmButton.mask()),
                n,
            )
            &&& e.hour_but == button_after_n(
                past.hour_but,
                is_low(port0, IoExpPort0::HourButton.mask()),
                n,
            )
            &&& e.min_but == button_after_n(
                past.min_but,
                is_low(port0, IoExpPort0::MinuteButton.mask()),
                n,
            )
            &&& e.snooze_but == past.snooze_but
            &&& e.alarm_sw == alarm_switch_after_n(
                past.alarm_sw,
                is_low(port0, IoExpPort0::AlarmSwitchOn.mask()),
                n,
            )
            &&& e.fmt_sw == format_switch_after_n(
                past.fmt_sw,
                is_low(port1, IoExpPort1::FormatSwitch12.mask()),
                n,
            )
        }),
    decreases n,
{
    if n > 0 {
        lemma_events_after_n_per_input(past, port0, port1, (n - 1) as nat);
    }
}

/// Over a run of `n` samples of the expander with the same readings, every
/// expander input whose level changed at the run's start counts the run's
/// length: the `j`-th sample of the run reports it with count `j`, so it
/// reaches the debounce count on exactly one sample of the run.
pub proof fn lemma_expander_run_counts(past: SystemEvents, port0: u8, port1: u8, n: nat)
    requires
        1 <= n <= u32::MAX,
    ensures
        ({
            let e = events_after_n(past, port0, port1, n);
            let time_low = is_low(port0, IoExpPort0::TimeButton.mask());
            let alarm_low = is_low(port0, IoExpPort0::AlarmButton.mask());
            let hour_low = is_low(port0, IoExpPort0::HourButton.mask());
            let min_low = is_low(port0, IoExpPort0::MinuteButton.mask());
            let on = is_low(port0, IoExpPort0::AlarmSwitchOn.mask());
            let h12 = is_low(port1, IoExpPort1::FormatSwitch12.mask());
            &&& !is_level(past.time_but, time_low) ==> e.time_but == (if time_low {
                Button::Pressed(n as u32)
            } else {
                Button::Released(n as u32)
            })
            &&& !is_level(past.alarm_but, alarm_low) ==> e.alarm_but == (if alarm_low {
                Button::Pressed(n as u32)
            } else {
                Button::Released(n as u32)
            })
            &&& !is_level(past.hour_but, hour_low) ==> e.hour_but == (if hour_low {
                Button::Pressed(n as u32)
            } else {
                Button::Released(n as u32)
            })
            &&& !is_level(past.min_but, min_low) ==> e.min_but == (if min_low {
                Button::Pressed(n as u32)
            } else {
                Button::Released(n as u32)
            })
            &&& (if on { past.alarm_sw is Off } else { past.alarm_sw is On }) ==> e.alarm_sw == (
            if on {
                AlarmSwitch::On(n as u32)
            } else {
                AlarmSwitch::Off(n as u32)
            })
            &&& (if h12 { past.fmt_sw is H24 } else { past.fmt_sw is H12 }) ==> e.fmt_sw == (
            if h12 {
                FormatSwitch::H12(n as u32)
            } else {
                FormatSwitch::H24(n as u32)
            })
            &&& e.snooze_but == past.snooze_but
        }),
{
    lemma_events_after_n_per_input(past, port0, port1, n);
    let time_low = is_low(port0, IoExpPort0::TimeButton.mask());
    let alarm_low = is_low(port0, IoExpPort0::AlarmButton.mask());
    let hour_low = is_low(port0, IoExpPort0::HourButton.mask());
    let min_low = is_low(port0, IoExpPort0::MinuteButton.mask());
    let on = is_low(port0, IoExpPort0::AlarmSwitchOn.mask());
    let h12 = is_low(port1, IoExpPort1::FormatSwitch12.mask());
    if !is_level(past.time_but, time_low) {
        lemma_held_level_counts(past.time_but, time_low, n);
    }
    if !is_level(past.alarm_but, alarm_low) {
        lemma_held_level_counts(past.alarm_but, alarm_low, n);
    }
    if !is_level(past.hour_but, hour_low) {
        lemma_held_level_counts(past.hour_but, hour_low, n);
    }
    if !is_level(past.min_but, min_low) {
        lemma_held_level_counts(past.min_but, min_low, n);
    }
    if (if on { past.alarm_sw is Off } else { past.alarm_sw is On }) {
        lemma_held_alarm_switch_counts(past.alarm_sw, on, n);
    }
    if (if h12 { past.fmt_sw is H24 } else { past.fmt_sw is H12 }) {
        lemma_held_format_switch_counts(past.fmt_sw, h12, n);
    }
}

} // verus!
