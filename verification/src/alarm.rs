use vstd::prelude::*;

use crate::events::{AlarmSwitch, Button, SystemEvents, DEBOUNCE_COUNT};
use crate::time_keeper::{
    hours_incremented, minutes_incremented, DisplayMode, Time, TimeKeeper,
};

verus! {

/// The alarm clock's modes.
#[derive(Clone, Copy, Debug, PartialEq, Eq, Structural)]
pub enum State {
    Unarmed,
    Armed,
    Snoozing,
    Alarming,
    SetAlarm,
    SetTime,
}

/// What one step asks of the hardware: the alarm LED level, the buzzer duty,
/// and whether the snooze timer starts over.
#[derive(Clone, Copy, Debug, PartialEq, Eq, Structural)]
pub struct Actions {
    pub alarm_led: Option<bool>,
    pub buzzer_duty: Option<u32>,
    pub restart_snooze: bool,
}

/// Buzzer duty while the alarm sounds.
pub const ALARM_DUTY: u32 = 50;

/// The button has just been held down for the debounce count.
pub open spec fn settled_press(b: Button) -> bool {
    b == Button::Pressed(DEBOUNCE_COUNT)
}

/// The button has just been let go for the debounce count.
pub open spec fn settled_release(b: Button) -> bool {
    b == Button::Released(DEBOUNCE_COUNT)
}

/// The alarm switch has just been on for the debounce count.
pub open spec fn settled_on(s: AlarmSwitch) -> bool {
    s == AlarmSwitch::On(DEBOUNCE_COUNT)
}

/// The alarm switch has just been off for the debounce count.
pub open spec fn settled_off(s: AlarmSwitch) -> bool {
    s == AlarmSwitch::Off(DEBOUNCE_COUNT)
}

/// The next mode. Each mode looks at its inputs in a fixed order and the
/// first one that is in the deciding position (switch on or off, button
/// pressed) decides, by whether its count has just settled.
pub open spec fn next_state(
    state: State,
    e: SystemEvents,
    alarm_match: bool,
    snooze_elapsed: bool,
) -> State {
    match state {
        State::Unarmed => if e.alarm_sw is On {
            if settled_on(e.alarm_sw) { State::Armed } else { State::Unarmed }
        } else if e.alarm_but is Pressed {
            if settled_press(e.alarm_but) { State::SetAlarm } else { State::Unarmed }
        } else if e.time_but is Pressed {
            if settled_press(e.time_but) { State::SetTime } else { State::Unarmed }
        } else {
            State::Unarmed
        },
        State::Armed => if e.alarm_sw is Off {
            if settled_off(e.alarm_sw) { State::Unarmed } else { State::Armed }
        } else if e.alarm_but is Pressed {
            if settled_press(e.alarm_but) { State::SetAlarm } else { State::Armed }
        } else if e.time_but is Pressed {
            if settled_press(e.time_but) { State::SetTime } else { State::Armed }
        } else if alarm_match {
            State::Alarming
        } else {
            State::Armed
        },
        State::SetTime => if settled_release(e.time_but) {
            State::Unarmed
        } else {
            State::SetTime
        },
        State::SetAlarm => if settled_release(e.alarm_but) {
            State::Unarmed
        } else {
            State::SetAlarm
        },
        State::Alarming => if e.alarm_sw is Off {
            if settled_off(e.alarm_sw) { State::Unarmed } else { State::Alarming }
        } else if e.snooze_but is Pressed {
            if settled_press(e.snooze_but) { State::Snoozing } else { State::Alarming }
        } else {
            State::Alarming
        },
        State::Snoozing => if snooze_elapsed {
            State::Alarming
        } else if settled_off(e.alarm_sw) {
            State::Unarmed
        } else {
            State::Snoozing
        },
    }
}

/// What a step in `state` does to the LED, the buzzer and the snooze timer.
pub open spec fn step_actions(state: State, e: SystemEvents) -> Actions {
    match state {
        State::Unarmed => Actions { alarm_led: Some(false), buzzer_duty: Some(0), restart_snooze: false },
        State::Armed => Actions { alarm_led: Some(true), buzzer_duty: None, restart_snooze: false },
        State::Alarming => Actions {
            alarm_led: None,
            buzzer_duty: Some(ALARM_DUTY),
            restart_snooze: !(e.alarm_sw is Off) && settled_press(e.snooze_but),
        },
        State::Snoozing => Actions { alarm_led: None, buzzer_duty: Some(0), restart_snooze: false },
        _ => Actions { alarm_led: None, buzzer_duty: None, restart_snooze: false },
    }
}

/// `t` after the settled presses of the hour and minute buttons.
pub open spec fn set_by_buttons(t: Time, e: SystemEvents) -> Time {
    let t1 = if settled_press(e.hour_but) { hours_incremented(t) } else { t };
    if settled_press(e.min_but) { minutes_incremented(t1) } else { t1 }
}

/// The clock time, alarm time and display mode after a step in `state`.
pub open spec fn keeper_after(state: State, e: SystemEvents, tk: TimeKeeper) -> TimeKeeper {
    match state {
        State::Unarmed => TimeKeeper { display_mode: DisplayMode::ShowClock, ..tk },
        State::SetTime => TimeKeeper {
            clocktime: set_by_buttons(tk.clocktime, e),
            display_mode: DisplayMode::ShowClock,
            ..tk
        },
        State::SetAlarm => TimeKeeper {
            alarmtime: set_by_buttons(tk.alarmtime, e),
            display_mode: DisplayMode::ShowAlarm,
            ..tk
        },
        _ => tk,
    }
}

/// The presses that a step would act on do not overflow the field they add to.
pub open spec fn step_fits(state: State, e: SystemEvents, tk: TimeKeeper) -> bool {
    &&& state == State::SetTime && settled_press(e.hour_but) ==> tk.clocktime.hours < 255
    &&& state == State::SetTime && settled_press(e.min_but) ==> tk.clocktime.minutes < 255
    &&& state == State::SetAlarm && settled_press(e.hour_but) ==> tk.alarmtime.hours < 255
    &&& state == State::SetAlarm && settled_press(e.min_but) ==> tk.alarmtime.minutes < 255
}

/// Whether a step now would overflow no field.
pub fn step_is_safe(state: State, events: &SystemEvents, tk: &TimeKeeper) -> (r: bool)
    ensures
        r == step_fits(state, *events, *tk),
{
    let hour_press = match events.hour_but {
        Button::Pressed(count) => count == DEBOUNCE_COUNT,
        _ => false,
    };
    let min_press = match events.min_but {
        Button::Pressed(count) => count == DEBOUNCE_COUNT,
        _ => false,
    };
    match state {
        State::SetTime => (!hour_press || tk.clocktime.hours < 255) && (!min_press
            || tk.clocktime.minutes < 255),
        State::SetAlarm => (!hour_press || tk.alarmtime.hours < 255) && (!min_press
            || tk.alarmtime.minutes < 255),
        _ => true,
    }
}

/// One evaluation of the alarm clock's state machine: given the mode, the
/// latest inputs and whether the snooze period has run out, updates the time
/// keeper and returns the next mode and what to do to the hardware.
pub fn step(state: State, events: SystemEvents, tk: &mut TimeKeeper, snooze_elapsed: bool) -> (r: (
    State,
    Actions,
))
    requires
        step_fits(state, events, *old(tk)),
    ensures
        r.0 == next_state(state, events, old(tk).at_alarm_time(), snooze_elapsed),
        r.1 == step_actions(state, events),
        *final(tk) == keeper_after(state, events, *old(tk)),
{
    let quiet = Actions { alarm_led: None, buzzer_duty: None, restart_snooze: false };
    match state {
        State::Unarmed => {
            tk.show_clock_time();
            let next = match events.alarm_sw {
                AlarmSwitch::On(count) => {
                    if count == DEBOUNCE_COUNT {
                        State::Armed
                    } else {
                        State::Unarmed
                    }
                },
                _ => match events.alarm_but {
                    Button::Pressed(count) => {
                        if count == DEBOUNCE_COUNT {
                            State::SetAlarm
                        } else {
                            State::Unarmed
                        }
                    },
                    _ => match events.time_but {
                        Button::Pressed(count) => {
                            if count == DEBOUNCE_COUNT {
                                State::SetTime
                            } else {
                                State::Unarmed
                            }
                        },
                        _ => State::Unarmed,
                    },
                },
            };
            (next, Actions { alarm_led: Some(false), buzzer_duty: Some(0), restart_snooze: false })
        },
        State::Armed => {
            let next = match events.alarm_sw {
                AlarmSwitch::Off(count) => {
                    if count == DEBOUNCE_COUNT {
                        State::Unarmed
                    } else {
                        State::Armed
                    }
                },
                _ => match events.alarm_but {
                    Button::Pressed(count) => {
                        if count == DEBOUNCE_COUNT {
                            State::SetAlarm
                        } else {
                            State::Armed
                        }
                    },
                    _ => match events.time_but {
                        Button::Pressed(count) => {
                            if count == DEBOUNCE_COUNT {
                                State::SetTime
                            } else {
                                State::Armed
                            }
                        },
                        _ => {
                            if tk.alarm_time_match() {
                                State::Alarming
                            } else {
                                State::Armed
                            }
                        },
                    },
                },
            };
            (next, Actions { alarm_led: Some(true), buzzer_duty: None, restart_snooze: false })
        },
        State::SetTime => {
            tk.show_clock_time();
            if let Button::Pressed(count) = events.hour_but {
                if count == DEBOUNCE_COUNT {
                    tk.increment_time_hours();
                }
            }
            if let Button::Pressed(count) = events.min_but {
                if count == DEBOUNCE_COUNT {
                    tk.increment_time_minutes();
                }
            }
            let next = if let Button::Released(count) = events.time_but {
                if count == DEBOUNCE_COUNT {
                    State::Unarmed
                } else {
                    State::SetTime
                }
            } else {
                State::SetTime
            };
            (next, quiet)
        },
        State::SetAlarm => {
            tk.show_alarm_time();
            if let Button::Pressed(count) = events.hour_but {
                if count == DEBOUNCE_COUNT {
                    tk.increment_alarm_hours();
                }
            }
            if let Button::Pressed(count) = events.min_but {
                if count == DEBOUNCE_COUNT {
                    tk.increment_alarm_minutes();
                }
            }
            let next = if let Button::Released(count) = events.alarm_but {
                if count == DEBOUNCE_COUNT {
                    State::Unarmed
                } else {
                    State::SetAlarm
                }
            } else {
                State::SetAlarm
            };
            (next, quiet)
        },
        State::Alarming => {
            let mut restart = false;
            let next = match events.alarm_sw {
                AlarmSwitch::Off(count) => {
                    if count == DEBOUNCE_COUNT {
                        State::Unarmed
                    } else {
                        State::Alarming
                    }
                },
                _ => match events.snooze_but {
                    Button::Pressed(count) => {
                        if count == DEBOUNCE_COUNT {
                            restart = true;
                            State::Snoozing
                        } else {
                            State::Alarming
                        }
                    },
                    _ => State::Alarming,
                },
            };
            (next, Actions { alarm_led: None, buzzer_duty: Some(ALARM_DUTY), restart_snooze: restart })
        },
        State::Snoozing => {
            let next = if snooze_elapsed {
                State::Alarming
            } else {
                match events.alarm_sw {
                    AlarmSwitch::Off(count) => {
                        if count == DEBOUNCE_COUNT {
                            State::Unarmed
                        } else {
                            State::Snoozing
                        }
                    },
                    _ => State::Snoozing,
                }
            };
            (next, Actions { alarm_led: None, buzzer_duty: Some(0), restart_snooze: false })
        },
    }
}

/// A step keeps valid clock and alarm times valid, and a step from valid
/// times never overflows a field.
pub proof fn lemma_step_keeps_times_valid(state: State, e: SystemEvents, tk: TimeKeeper)
    requires
        tk.clocktime.is_valid(),
        tk.alarmtime.is_valid(),
    ensures
        step_fits(state, e, tk),
        keeper_after(state, e, tk).clocktime.is_valid(),
        keeper_after(state, e, tk).alarmtime.is_valid(),
{
}

/// The alarm starts ringing only from the armed mode at the alarm time, or
/// when a snooze runs out; it keeps ringing only from the ringing mode. An
/// armed clock left alone rings at the alarm time, and a snooze that runs out
/// rings again.
pub proof fn lemma_alarm_rings_only_when_due(
    state: State,
    e: SystemEvents,
    alarm_match: bool,
    snooze_elapsed: bool,
)
    ensures
        next_state(state, e, alarm_match, snooze_elapsed) == State::Alarming ==> {
            ||| state == State::Armed && alarm_match
            ||| state == State::Alarming
            ||| state == State::Snoozing && snooze_elapsed
        },
        state == State::Armed && e.alarm_sw is On && !(e.alarm_but is Pressed) && !(
        e.time_but is Pressed) && alarm_match ==> next_state(state, e, alarm_match, snooze_elapsed)
            == State::Alarming,
        state == State::Snoozing && snooze_elapsed ==> next_state(
            state,
            e,
            alarm_match,
            snooze_elapsed,
        ) == State::Alarming,
{
}

/// The buzzer sounds in the ringing mode and only there; the unarmed and
/// snoozing modes silence it; the alarm LED follows arming; the snooze timer
/// starts over exactly when a ringing alarm is snoozed.
pub proof fn lemma_outputs_follow_mode(
    state: State,
    e: SystemEvents,
    alarm_match: bool,
    snooze_elapsed: bool,
)
    ensures
        step_actions(state, e).buzzer_duty == Some(ALARM_DUTY) <==> state == State::Alarming,
        step_actions(state, e).buzzer_duty == Some(0u32) <==> (state == State::Unarmed || state
            == State::Snoozing),
        step_actions(state, e).alarm_led == Some(true) <==> state == State::Armed,
        step_actions(state, e).alarm_led == Some(false) <==> state == State::Unarmed,
        step_actions(state, e).restart_snooze <==> (state == State::Alarming && next_state(
            state,
            e,
            alarm_match,
            snooze_elapsed,
        ) == State::Snoozing),
{
}

/// A settled switch-off disarms the armed, ringing and snoozing modes (the
/// last unless its snooze has just run out), and a settled switch-on arms the
/// unarmed clock.
pub proof fn lemma_alarm_switch_decides(
    state: State,
    e: SystemEvents,
    alarm_match: bool,
    snooze_elapsed: bool,
)
    ensures
        settled_off(e.alarm_sw) && (state == State::Armed || state == State::Alarming || (state
            == State::Snoozing && !snooze_elapsed)) ==> next_state(
            state,
            e,
            alarm_match,
            snooze_elapsed,
        ) == State::Unarmed,
        settled_on(e.alarm_sw) && state == State::Unarmed ==> next_state(
            state,
            e,
            alarm_match,
            snooze_elapsed,
        ) == State::Armed,
{
}

/// The setting modes end, back to unarmed, on a settled release of the
/// button that entered them, and on nothing else.
pub proof fn lemma_setting_modes_exit(
    e: SystemEvents,
    alarm_match: bool,
    snooze_elapsed: bool,
)
    ensures
        next_state(State::SetTime, e, alarm_match, snooze_elapsed) != State::SetTime
            <==> settled_release(e.time_but),
        next_state(State::SetAlarm, e, alarm_match, snooze_elapsed) != State::SetAlarm
            <==> settled_release(e.alarm_but),
        next_state(State::SetTime, e, alarm_match, snooze_elapsed) != State::SetTime
            ==> next_state(State::SetTime, e, alarm_match, snooze_elapsed) == State::Unarmed,
        next_state(State::SetAlarm, e, alarm_match, snooze_elapsed) != State::SetAlarm
            ==> next_state(State::SetAlarm, e, alarm_match, snooze_elapsed) == State::Unarmed,
{
}

/// Timer interrupts per second: one every 5 ms.
pub const TICKS_PER_SECOND: u32 = 200;

/// Timer interrupts per snooze period: five minutes of 5 ms ticks.
pub const TICKS_PER_SNOOZE: u32 = 60000;

/// Which periodic flags the timer interrupt raises.
#[derive(Clone, Copy, Debug, PartialEq, Eq, Structural)]
pub struct TickFlags {
    pub every_5ms: bool,
    pub every_second: bool,
    pub every_5_minutes: bool,
}

/// The timer interrupt: counts itself in `tick` (wrapping at `u32::MAX`) and
/// returns the flags that the tick it counted, numbered from zero, raises.
pub fn timer_int_callback(tick: &mut u32) -> (f: TickFlags)
    ensures
        *final(tick) == (if *old(tick) == u32::MAX { 0 } else { (*old(tick) + 1) as u32 }),
        f.every_5ms,
        f.every_second == (*old(tick) % TICKS_PER_SECOND == 0),
        f.every_5_minutes == (*old(tick) % TICKS_PER_SNOOZE == 0),
{
    let t = *tick;
    *tick = t.wrapping_add(1);
    TickFlags {
        every_5ms: t % 1 == 0,
        every_second: t % TICKS_PER_SECOND == 0,
        every_5_minutes: t % TICKS_PER_SNOOZE == 0,
    }
}

/// Every snooze-period tick is also a whole-second tick.
pub proof fn lemma_snooze_ticks_fall_on_seconds(tick: u32)
    ensures
        tick % TICKS_PER_SNOOZE == 0 ==> tick % TICKS_PER_SECOND == 0,
{
    if tick % 60000 == 0 {
        assert(tick == (tick / 60000) * 60000);
        assert((tick / 60000) * 60000 == ((tick / 60000) * 300) * 200);
    }
}

proof fn lemma_one_multiple_in_window(t: int, i: int, p: int)
    requires
        p > 0,
        t >= 0,
        0 <= i < p,
    ensures
        ((t + i) % p == 0) <==> i == (p - t % p) % p,
{
    let q = t / p;
    let r = t % p;
    vstd::arithmetic::div_mod::lemma_fundamental_div_mod(t, p);
    assert(0 <= r < p);
    if r + i < p {
        vstd::arithmetic::div_mod::lemma_fundamental_div_mod_converse(t + i, p, q, r + i);
    } else {
        assert(t + i == (q + 1) * p + (r + i - p)) by (nonlinear_arith)
            requires
                t == p * q + r,
        ;
        vstd::arithmetic::div_mod::lemma_fundamental_div_mod_converse(t + i, p, q + 1, r + i - p);
    }
    if r == 0 {
        vstd::arithmetic::div_mod::lemma_mod_self_0(p);
    } else {
        vstd::arithmetic::div_mod::lemma_small_mod((p - r) as nat, p as nat);
    }
}

/// Of any 200 consecutive timer interrupts, exactly one raises the
/// one-second flag: the one whose tick number is the next multiple of 200.
/// Every one of them raises the 5 ms flag.
pub proof fn lemma_one_second_flag_once_per_200_ticks(t: u32, i: u32)
    requires
        t + 200 <= u32::MAX,
        i < 200,
    ensures
        ((t + i) as u32 % TICKS_PER_SECOND == 0) <==> i == (200 - t % 200) % 200,
{
    lemma_one_multiple_in_window(t as int, i as int, 200);
}

/// Of any 60000 consecutive timer interrupts (five minutes of them), exactly
/// one raises the snooze flag: the one whose tick number is the next multiple of 60000.
pub proof fn lemma_snooze_flag_once_per_60000_ticks(t: u32, i: u32)
    requires
        t + 60000 <= u32::MAX,
        i < 60000,
    ensures
        ((t + i) as u32 % TICKS_PER_SNOOZE == 0) <==> i == (60000 - t % 60000) % 60000,
{
    lemma_one_multiple_in_window(t as int, i as int, 60000);
}

/// The alarm time is reached exactly when the clock's hour and minute are the
/// alarm's hour and minute (seconds aside), so an armed clock moves to ringing
/// only at that hour and minute.
pub proof fn lemma_alarm_time_is_hour_and_minute(
    tk: TimeKeeper,
    e: SystemEvents,
    snooze_elapsed: bool,
)
    ensures
        tk.at_alarm_time() <==> (tk.clocktime.hours == tk.alarmtime.hours
            && tk.clocktime.minutes == tk.alarmtime.minutes),
        next_state(State::Armed, e, tk.at_alarm_time(), snooze_elapsed) == State::Alarming
            ==> tk.clocktime.hours == tk.alarmtime.hours && tk.clocktime.minutes
            == tk.alarmtime.minutes,
{
}

/// In a setting mode a settled hour press moves the set time's hour one
/// forward on the 24-hour dial, a settled minute press moves its minute one
/// forward on the 60-minute dial, seconds and the other time stay, and
/// without a settled press the set time stays.
pub proof fn lemma_setting_buttons_adjust(state: State, e: SystemEvents, tk: TimeKeeper)
    requires
        state == State::SetTime || state == State::SetAlarm,
        tk.clocktime.is_valid(),
        tk.alarmtime.is_valid(),
    ensures
        keeper_after(state, e, tk).display_mode == (if state == State::SetTime {
            DisplayMode::ShowClock
        } else {
            DisplayMode::ShowAlarm
        }),
        ({
            let before = if state == State::SetTime { tk.clocktime } else { tk.alarmtime };
            let after_tk = keeper_after(state, e, tk);
            let after = if state == State::SetTime { after_tk.clocktime } else { after_tk.alarmtime };
            &&& after.hours == (if settled_press(e.hour_but) {
                (before.hours + 1) % 24
            } else {
                before.hours as int
            })
            &&& after.minutes == (if settled_press(e.min_but) {
                (before.minutes + 1) % 60
            } else {
                before.minutes as int
            })
            &&& after.seconds == before.seconds
            &&& state == State::SetTime ==> after_tk.alarmtime == tk.alarmtime
            &&& state == State::SetAlarm ==> after_tk.clocktime == tk.clocktime
        }),
{
}

} // verus!
