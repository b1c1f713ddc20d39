use ser_std::alarm::{step, timer_int_callback, TickFlags, step_is_safe, Actions, State, ALARM_DUTY};
use ser_std::events::{AlarmSwitch, Button, FormatSwitch, SystemEvents};
use ser_std::time_keeper::{DisplayMode, Time, TimeKeeper};

fn idle() -> SystemEvents {
    SystemEvents {
        time_but: Button::Released(100),
        alarm_but: Button::Released(100),
        hour_but: Button::Released(100),
        min_but: Button::Released(100),
        snooze_but: Button::Released(100),
        alarm_sw: AlarmSwitch::Off(100),
        fmt_sw: FormatSwitch::H24(100),
    }
}

fn keeper(clock: (u8, u8), alarm: (u8, u8)) -> TimeKeeper {
    let mut tk = TimeKeeper::new();
    tk.clocktime = Time { hours: clock.0, minutes: clock.1, seconds: 0 };
    tk.alarmtime = Time { hours: alarm.0, minutes: alarm.1, seconds: 0 };
    tk
}

#[test]
fn unarmed_arms_on_settled_switch_and_silences() {
    let mut tk = keeper((6, 0), (7, 0));
    tk.show_alarm_time();
    let mut e = idle();
    let (next, act) = step(State::Unarmed, e, &mut tk, false);
    assert_eq!(next, State::Unarmed);
    assert_eq!(act, Actions { alarm_led: Some(false), buzzer_duty: Some(0), restart_snooze: false });
    assert_eq!(tk.display_mode, DisplayMode::ShowClock);
    e.alarm_sw = AlarmSwitch::On(8);
    assert_eq!(step(State::Unarmed, e, &mut tk, false).0, State::Armed);
    e.alarm_sw = AlarmSwitch::On(9);
    e.alarm_but = Button::Pressed(8);
    // the switch is on but not just settled: it decides, and the press is ignored
    assert_eq!(step(State::Unarmed, e, &mut tk, false).0, State::Unarmed);
}

#[test]
fn unarmed_enters_the_setting_modes() {
    let mut tk = keeper((6, 0), (7, 0));
    let mut e = idle();
    e.alarm_but = Button::Pressed(8);
    assert_eq!(step(State::Unarmed, e, &mut tk, false).0, State::SetAlarm);
    e.alarm_but = Button::Released(3);
    e.time_but = Button::Pressed(8);
    assert_eq!(step(State::Unarmed, e, &mut tk, false).0, State::SetTime);
    e.time_but = Button::Pressed(7);
    assert_eq!(step(State::Unarmed, e, &mut tk, false).0, State::Unarmed);
}

#[test]
fn armed_rings_at_the_alarm_time() {
    let mut tk = keeper((7, 0), (7, 0));
    let mut e = idle();
    e.alarm_sw = AlarmSwitch::On(50);
    let (next, act) = step(State::Armed, e, &mut tk, false);
    assert_eq!(next, State::Alarming);
    assert_eq!(act, Actions { alarm_led: Some(true), buzzer_duty: None, restart_snooze: false });
    let mut tk = keeper((7, 1), (7, 0));
    assert_eq!(step(State::Armed, e, &mut tk, false).0, State::Armed);
    e.alarm_sw = AlarmSwitch::Off(8);
    assert_eq!(step(State::Armed, e, &mut tk, false).0, State::Unarmed);
}

#[test]
fn alarming_snoozes_and_comes_back() {
    let mut tk = keeper((7, 0), (7, 0));
    let mut e = idle();
    e.alarm_sw = AlarmSwitch::On(50);
    let (next, act) = step(State::Alarming, e, &mut tk, false);
    assert_eq!(next, State::Alarming);
    assert_eq!(act.buzzer_duty, Some(ALARM_DUTY));
    assert!(!act.restart_snooze);
    e.snooze_but = Button::Pressed(8);
    let (next, act) = step(State::Alarming, e, &mut tk, false);
    assert_eq!(next, State::Snoozing);
    assert!(act.restart_snooze);
    e.snooze_but = Button::Pressed(9);
    let (next, act) = step(State::Snoozing, e, &mut tk, false);
    assert_eq!(next, State::Snoozing);
    assert_eq!(act.buzzer_duty, Some(0));
    assert_eq!(step(State::Snoozing, e, &mut tk, true).0, State::Alarming);
}

#[test]
fn switch_off_stops_ringing_and_snoozing() {
    let mut tk = keeper((7, 0), (7, 0));
    let mut e = idle();
    e.alarm_sw = AlarmSwitch::Off(8);
    assert_eq!(step(State::Alarming, e, &mut tk, false).0, State::Unarmed);
    assert_eq!(step(State::Snoozing, e, &mut tk, false).0, State::Unarmed);
    // a snooze that runs out at the same sample wins
    assert_eq!(step(State::Snoozing, e, &mut tk, true).0, State::Alarming);
}

#[test]
fn set_time_adjusts_the_clock_until_released() {
    let mut tk = keeper((23, 59), (7, 0));
    let mut e = idle();
    e.time_but = Button::Pressed(30);
    e.hour_but = Button::Pressed(8);
    e.min_but = Button::Pressed(8);
    let (next, act) = step(State::SetTime, e, &mut tk, false);
    assert_eq!(next, State::SetTime);
    assert_eq!(act, Actions { alarm_led: None, buzzer_duty: None, restart_snooze: false });
    assert_eq!(tk.clocktime, Time { hours: 0, minutes: 0, seconds: 0 });
    assert_eq!(tk.display_mode, DisplayMode::ShowClock);
    e.hour_but = Button::Pressed(9);
    e.min_but = Button::Released(1);
    e.time_but = Button::Released(8);
    assert_eq!(step(State::SetTime, e, &mut tk, false).0, State::Unarmed);
    assert_eq!(tk.clocktime, Time { hours: 0, minutes: 0, seconds: 0 });
}

#[test]
fn set_alarm_adjusts_the_alarm_until_released() {
    let mut tk = keeper((12, 0), (6, 30));
    let mut e = idle();
    e.alarm_but = Button::Pressed(30);
    e.min_but = Button::Pressed(8);
    assert_eq!(step(State::SetAlarm, e, &mut tk, false).0, State::SetAlarm);
    assert_eq!(tk.alarmtime, Time { hours: 6, minutes: 31, seconds: 0 });
    assert_eq!(tk.clocktime, Time { hours: 12, minutes: 0, seconds: 0 });
    assert_eq!(tk.display_mode, DisplayMode::ShowAlarm);
    e.alarm_but = Button::Released(8);
    assert_eq!(step(State::SetAlarm, e, &mut tk, false).0, State::Unarmed);
}

#[test]
fn step_safety_checks_only_the_increments_it_would_make() {
    let tk = keeper((255, 3), (4, 255));
    let mut e = idle();
    assert!(step_is_safe(State::SetTime, &e, &tk));
    e.hour_but = Button::Pressed(8);
    assert!(!step_is_safe(State::SetTime, &e, &tk));
    assert!(step_is_safe(State::SetAlarm, &e, &tk));
    e.min_but = Button::Pressed(8);
    assert!(!step_is_safe(State::SetAlarm, &e, &tk));
    assert!(step_is_safe(State::Armed, &e, &tk));
}

fn flags_for_tick(tick: u32) -> TickFlags {
    let mut counter = tick;
    let flags = timer_int_callback(&mut counter);
    assert_eq!(counter, tick.wrapping_add(1));
    flags
}

#[test]
fn timer_flags_follow_the_tick_count() {
    let f = flags_for_tick(0);
    assert!(f.every_5ms && f.every_second && f.every_5_minutes);
    let f = flags_for_tick(1);
    assert!(f.every_5ms && !f.every_second && !f.every_5_minutes);
    let f = flags_for_tick(200);
    assert!(f.every_second && !f.every_5_minutes);
    let f = flags_for_tick(10000);
    assert!(f.every_second && !f.every_5_minutes);
    let f = flags_for_tick(60000);
    assert!(f.every_second && f.every_5_minutes);
}

#[test]
fn one_second_flag_once_in_any_200_ticks() {
    for t in [0u32, 1, 199, 200, 12345, 4_000_000_000] {
        let raised: Vec<u32> = (0..200).filter(|i| flags_for_tick(t + i).every_second).collect();
        assert_eq!(raised, vec![(200 - t % 200) % 200]);
        assert!((0..200).all(|i| flags_for_tick(t + i).every_5ms));
    }
}

#[test]
fn timer_interrupt_counts_itself_and_wraps() {
    let mut tick = u32::MAX;
    let f = timer_int_callback(&mut tick);
    assert_eq!(tick, 0);
    assert!(f.every_5ms && !f.every_second && !f.every_5_minutes);
    let mut tick = 0u32;
    let mut seconds = 0;
    for _ in 0..1000 {
        if timer_int_callback(&mut tick).every_second {
            seconds += 1;
        }
    }
    assert_eq!(tick, 1000);
    assert_eq!(seconds, 5);
}
