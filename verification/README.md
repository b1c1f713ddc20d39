# ser_std

Verified logic of a set of ESP32 example programs (an I2C alarm clock, a
real-time timer, a small web server, NTP time display, and GPIO/ADC/PWM
demos), written in Verus.

- `src/` is the library that Verus checks:
  - `time_keeper` — clock and alarm times, the one-second tick and the setting buttons;
  - `rtc` — BCD encoding and the RTC's time registers;
  - `events` — debouncing of buttons and switches;
  - `io_expander` — the TCA6424 pins, registers and input sampling;
  - `display` — seven-segment patterns, digit multiplexing, 12/24-hour display, PM indicator;
  - `alarm` — the alarm clock's state machine and its timer flags;
  - `real_time_timer` — the elapsed-time counter and its printed line;
  - `web` — the served page;
  - `time_sync` — UTC time text through chrono;
  - `button_press_counter` — the button interrupt and the press count;
  - `led_fading` — the PWM duty sweep;
  - `http_client` — the HTTP client's report lines;
  - `text` — decimal numerals.
- `tests/` runs the library on concrete values.
- `app/` holds the programs themselves: peripherals, I2C transfers, Wi-Fi,
  HTTP, interrupts and main loops, calling the library for the decisions
  (the temperature formula, in floating point, stays there).
