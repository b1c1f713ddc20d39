//! Verified logic of the ESP32 example programs: the alarm clock's
//! timekeeping, RTC encoding, input debouncing, display multiplexing and
//! state machine, the real-time timer, and the small web and time helpers.

pub mod text;
pub mod time_keeper;
pub mod rtc;
pub mod events;
pub mod io_expander;
pub mod display;
pub mod alarm;
pub mod web;
pub mod real_time_timer;
pub mod time_sync;
pub mod button_press_counter;
pub mod led_fading;
pub mod http_client;
