use ser_std::events::{
    update_alarm_switch, update_button, update_format_switch, AlarmSwitch, Button,
    FormatSwitch, SystemEvents, DEBOUNCE_COUNT,
};
use ser_std::io_expander::{ExpanderInputs, IoExpPort0, IoExpPort1};

#[test]
fn button_counts_samples_at_a_level() {
    assert_eq!(update_button(Button::Released(5), true), Button::Pressed(1));
    assert_eq!(update_button(Button::Pressed(5), true), Button::Pressed(6));
    assert_eq!(update_button(Button::Pressed(5), false), Button::Released(1));
    assert_eq!(update_button(Button::Released(5), false), Button::Released(6));
    assert_eq!(update_button(Button::Pressed(u32::MAX), true), Button::Pressed(0));
}

#[test]
fn switches_count_like_buttons() {
    assert_eq!(update_alarm_switch(AlarmSwitch::Off(3), true), AlarmSwitch::On(1));
    assert_eq!(update_alarm_switch(AlarmSwitch::On(3), true), AlarmSwitch::On(4));
    assert_eq!(update_alarm_switch(AlarmSwitch::On(3), false), AlarmSwitch::Off(1));
    assert_eq!(update_alarm_switch(AlarmSwitch::Off(u32::MAX), false), AlarmSwitch::Off(0));
    assert_eq!(update_format_switch(FormatSwitch::H24(9), true), FormatSwitch::H12(1));
    assert_eq!(update_format_switch(FormatSwitch::H12(9), true), FormatSwitch::H12(10));
    assert_eq!(update_format_switch(FormatSwitch::H12(9), false), FormatSwitch::H24(1));
    assert_eq!(update_format_switch(FormatSwitch::H24(9), false), FormatSwitch::H24(10));
}

#[test]
fn debounced_press_fires_once_per_hold() {
    let mut b = Button::Released(40);
    let mut fired = Vec::new();
    for n in 1u32..=50 {
        b = update_button(b, true);
        assert_eq!(b, Button::Pressed(n));
        if b == Button::Pressed(DEBOUNCE_COUNT) {
            fired.push(n);
        }
    }
    assert_eq!(fired, vec![8]);
}

#[test]
fn default_events_are_all_released_off_and_24_hour() {
    let e = SystemEvents::default();
    assert_eq!(e.time_but, Button::Released(0));
    assert_eq!(e.alarm_but, Button::Released(0));
    assert_eq!(e.hour_but, Button::Released(0));
    assert_eq!(e.min_but, Button::Released(0));
    assert_eq!(e.snooze_but, Button::Released(0));
    assert_eq!(e.alarm_sw, AlarmSwitch::Off(0));
    assert_eq!(e.fmt_sw, FormatSwitch::H24(0));
}

#[test]
fn pin_masks_follow_pin_numbers() {
    assert_eq!(IoExpPort0::AlarmSwitchOn.bits(), 0x01);
    assert_eq!(IoExpPort0::AlarmButton.bits(), 0x10);
    assert_eq!(IoExpPort0::TimeButton.bits(), 0x20);
    assert_eq!(IoExpPort0::MinuteButton.bits(), 0x40);
    assert_eq!(IoExpPort0::HourButton.bits(), 0x80);
    assert_eq!(IoExpPort1::PmLed.bits(), 0x20);
    assert_eq!(IoExpPort1::FormatSwitch12.bits(), 0x40);
}

#[test]
fn expander_inputs_are_active_low() {
    let mut inputs = ExpanderInputs::new();
    // time button (pin 5) and alarm switch on (pin 0) low, 12-hour switch (pin 6) low
    let e = inputs.get_expander_events(0xFF & !0x20 & !0x01, 0xFF & !0x40);
    assert_eq!(e.time_but, Button::Pressed(1));
    assert_eq!(e.alarm_but, Button::Released(1));
    assert_eq!(e.hour_but, Button::Released(1));
    assert_eq!(e.min_but, Button::Released(1));
    assert_eq!(e.snooze_but, Button::Released(0));
    assert_eq!(e.alarm_sw, AlarmSwitch::On(1));
    assert_eq!(e.fmt_sw, FormatSwitch::H12(1));
    assert_eq!(inputs.past_events, e);
    let e2 = inputs.get_expander_events(0xFF, 0xFF);
    assert_eq!(e2.time_but, Button::Released(1));
    assert_eq!(e2.alarm_but, Button::Released(2));
    assert_eq!(e2.alarm_sw, AlarmSwitch::Off(1));
    assert_eq!(e2.fmt_sw, FormatSwitch::H24(1));
}

#[test]
fn expander_snooze_button_keeps_its_value() {
    let mut inputs = ExpanderInputs::new();
    inputs.past_events.snooze_but = Button::Pressed(3);
    let e = inputs.get_expander_events(0x00, 0x00);
    assert_eq!(e.snooze_but, Button::Pressed(3));
    assert_eq!(e.hour_but, Button::Pressed(1));
    assert_eq!(e.min_but, Button::Pressed(1));
    assert_eq!(e.alarm_but, Button::Pressed(1));
}

#[test]
fn switches_count_the_length_of_a_run() {
    let mut sw = AlarmSwitch::Off(77);
    let mut f = FormatSwitch::H12(5);
    for n in 1u32..=20 {
        sw = update_alarm_switch(sw, true);
        f = update_format_switch(f, false);
        assert_eq!(sw, AlarmSwitch::On(n));
        assert_eq!(f, FormatSwitch::H24(n));
        assert_eq!(sw == AlarmSwitch::On(DEBOUNCE_COUNT), n == 8);
    }
}

#[test]
fn expander_run_counts_every_changed_input() {
    let mut inputs = ExpanderInputs::new();
    // everything low on port 0 and the 12-hour pin low on port 1
    for j in 1u32..=12 {
        let e = inputs.get_expander_events(0x00, 0x00);
        assert_eq!(e.time_but, Button::Pressed(j));
        assert_eq!(e.alarm_but, Button::Pressed(j));
        assert_eq!(e.hour_but, Button::Pressed(j));
        assert_eq!(e.min_but, Button::Pressed(j));
        assert_eq!(e.alarm_sw, AlarmSwitch::On(j));
        assert_eq!(e.fmt_sw, FormatSwitch::H12(j));
        assert_eq!(e.snooze_but, Button::Released(0));
    }
    for j in 1u32..=3 {
        let e = inputs.get_expander_events(0xFF, 0xFF);
        assert_eq!(e.time_but, Button::Released(j));
        assert_eq!(e.alarm_sw, AlarmSwitch::Off(j));
        assert_eq!(e.fmt_sw, FormatSwitch::H24(j));
    }
}
