use vstd::prelude::*;

use crate::heater::HeaterState;

verus! {

/// How a status LED behaves.
#[derive(Clone, Copy, Debug, PartialEq, Eq, Structural)]
pub enum LedMode {
    /// Dark until the state changes.
    Off,
    /// Lit until the state changes.
    On,
    /// Toggled every `toggle_ms` milliseconds until the state changes.
    Blink { toggle_ms: u32 },
}

/// LED1 indicates heater enabled / fault.
///
/// | HeaterState    | LED1 behaviour      |
/// |----------------|---------------------|
/// | Disabled       | off                 |
/// | Heating        | solid on            |
/// | AtSetpoint     | solid on            |
/// | AboveSetpoint  | solid on            |
/// | Preheating     | solid on            |
/// | Fault          | toggle every 250 ms | (2 Hz blink)
pub open spec fn spec_led1_mode(state: HeaterState) -> LedMode {
    match state {
        HeaterState::Disabled => LedMode::Off,
        HeaterState::Fault => LedMode::Blink { toggle_ms: 250 },
        _ => LedMode::On,
    }
}

/// LED2 indicates temperature vs setpoint.
///
/// | HeaterState    | LED2 behaviour      |
/// |----------------|---------------------|
/// | Disabled       | off                 |
/// | Heating        | solid on            | (below setpoint)
/// | AtSetpoint     | off                 |
/// | AboveSetpoint  | toggle every 250 ms | (2 Hz blink)
/// | Preheating     | toggle every 100 ms | (5 Hz blink)
/// | Fault          | off                 |
pub open spec fn spec_led2_mode(state: HeaterState) -> LedMode {
    match state {
        HeaterState::Disabled | HeaterState::AtSetpoint | HeaterState::Fault => LedMode::Off,
        HeaterState::Heating => LedMode::On,
        HeaterState::AboveSetpoint => LedMode::Blink { toggle_ms: 250 },
        HeaterState::Preheating => LedMode::Blink { toggle_ms: 100 },
    }
}

/// How LED1 shows `state`.
pub fn led1_mode(state: HeaterState) -> (mode: LedMode)
    ensures
        mode == spec_led1_mode(state),
{
    match state {
        HeaterState::Disabled => LedMode::Off,
        HeaterState::Heating
        | HeaterState::AtSetpoint
        | HeaterState::AboveSetpoint
        | HeaterState::Preheating => LedMode::On,
        HeaterState::Fault => LedMode::Blink { toggle_ms: 250 },
    }
}

/// How LED2 shows `state`.
pub fn led2_mode(state: HeaterState) -> (mode: LedMode)
    ensures
        mode == spec_led2_mode(state),
{
    match state {
        HeaterState::Disabled | HeaterState::AtSetpoint | HeaterState::Fault => LedMode::Off,
        HeaterState::Heating => LedMode::On,
        HeaterState::AboveSetpoint => LedMode::Blink { toggle_ms: 250 },
        HeaterState::Preheating => LedMode::Blink { toggle_ms: 100 },
    }
}

/// The level an LED in `mode` takes next, when it is `lit` now: steady
/// modes set their level, a blinking LED toggles.
pub fn next_led_level(mode: LedMode, lit: bool) -> (next: bool)
    ensures
        next == match mode {
            LedMode::Off => false,
            LedMode::On => true,
            LedMode::Blink { .. } => !lit,
        },
{
    match mode {
        LedMode::Off => false,
        LedMode::On => true,
        LedMode::Blink { .. } => !lit,
    }
}

/// LED1 is dark exactly when the heater is disabled, and blinks exactly on
/// a fault.
pub proof fn lemma_led1_shows_enabled_and_fault(state: HeaterState)
    ensures
        (spec_led1_mode(state) == LedMode::Off) <==> (state == HeaterState::Disabled),
        (spec_led1_mode(state) is Blink) <==> (state == HeaterState::Fault),
{
}

/// LED2 is lit steadily exactly while heating below the setpoint, and
/// blinks exactly above the setpoint or while warming up, faster for the
/// warm-up.
pub proof fn lemma_led2_shows_temperature(state: HeaterState)
    ensures
        (spec_led2_mode(state) == LedMode::On) <==> (state == HeaterState::Heating),
        (spec_led2_mode(state) is Blink) <==> (state == HeaterState::AboveSetpoint || state
            == HeaterState::Preheating),
        state == HeaterState::Preheating ==> spec_led2_mode(state)->toggle_ms < spec_led2_mode(
            HeaterState::AboveSetpoint,
        )->toggle_ms,
{
}

/// The blink rates: LED1 blinks at 2 Hz (toggle every 250 ms) on a fault;
/// LED2 blinks at 2 Hz above the setpoint and at 5 Hz (toggle every
/// 100 ms) while warming up.
pub proof fn lemma_blink_rates()
    ensures
        spec_led1_mode(HeaterState::Fault) == (LedMode::Blink { toggle_ms: 250 }),
        spec_led2_mode(HeaterState::AboveSetpoint) == (LedMode::Blink { toggle_ms: 250 }),
        spec_led2_mode(HeaterState::Preheating) == (LedMode::Blink { toggle_ms: 100 }),
{
}

} // verus!
