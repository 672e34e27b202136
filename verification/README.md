# pasto

Firmware for a Quickmill espresso machine on the re-leva controller
(STM32L431CC, Embassy), split in two:

- `src/` — the verified library (`pasto`): the heater control state machine
  (idle auto-off, fault trip, preheat → coast → closed-loop phases, brew
  start detection), the heater state and LED behaviour tables, the Smith
  predictor's dead-time ring buffer, the binary telemetry frame encoder and
  the sanity-check verdicts. Every function carries a contract proved by
  Verus; the laws of the control loop, the delay line and the frame format
  are proof functions beside the code they speak of.
- `app/` — the firmware around it: hardware setup, the async tasks and
  channels, and the floating-point signal processing (PID, Kalman filter,
  state-space model, burst-firing accumulators, temperature classification).
- `tests/` — tests of the library on concrete values.

Temperatures and powers reach the library only as decisions (`TempBand`,
threshold flags) or as `f32`/`f64` bit patterns; instants are milliseconds
of the monotonic clock.
