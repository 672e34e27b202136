use vstd::prelude::*;

verus! {

/// What the heater LEDs and the control loop report about the heater.
#[derive(Clone, Copy, Debug, PartialEq, Eq, Structural)]
pub enum HeaterState {
    /// Heater disabled by user
    Disabled,
    /// Actively heating toward setpoint
    Heating,
    /// At setpoint (within ±2 °C), heater idle (power below 5%)
    AtSetpoint,
    /// Temperature above setpoint + 2 °C (overshoot)
    AboveSetpoint,
    /// Actively warming open-loop before closed-loop trim engages -- covers
    /// both the preheat (full power) and coast (power off, waiting for the
    /// thermal lag to carry temp near setpoint) sub-phases
    Preheating,
    /// Temperature reading out of safe range
    Fault,
}

/// Where a temperature reading stands relative to the safe range and the
/// setpoint: below `TEMP_MIN` or above `TEMP_MAX` it is `OutOfRange`; else,
/// with `error = SETPOINT - temp`, `|error| < 2` is `NearSetpoint`,
/// `error < 0` is `AboveSetpoint` and anything else is `BelowSetpoint`.
#[derive(Clone, Copy, Debug, PartialEq, Eq, Structural)]
pub enum TempBand {
    OutOfRange,
    NearSetpoint,
    AboveSetpoint,
    BelowSetpoint,
}

pub open spec fn spec_heater_state(enabled: bool, band: TempBand, heater_idle: bool) -> HeaterState {
    if !enabled {
        HeaterState::Disabled
    } else {
        match band {
            TempBand::OutOfRange => HeaterState::Fault,
            TempBand::NearSetpoint => if heater_idle {
                HeaterState::AtSetpoint
            } else {
                HeaterState::Heating
            },
            TempBand::AboveSetpoint => HeaterState::AboveSetpoint,
            TempBand::BelowSetpoint => HeaterState::Heating,
        }
    }
}

/// The heater state shown for a heater that is `enabled` or not, with the
/// temperature in `band` and the heater power below 5% (`heater_idle`) or
/// not. The heater is at setpoint only when the temperature is near the
/// setpoint and the heater idles; near the setpoint under power it is still
/// heating.
pub fn determine_heater_state(enabled: bool, band: TempBand, heater_idle: bool) -> (state:
    HeaterState)
    ensures
        state == spec_heater_state(enabled, band, heater_idle),
{
    if !enabled {
        return HeaterState::Disabled;
    }
    match band {
        TempBand::OutOfRange => HeaterState::Fault,
        TempBand::NearSetpoint => if heater_idle {
            HeaterState::AtSetpoint
        } else {
            HeaterState::Heating
        },
        TempBand::AboveSetpoint => HeaterState::AboveSetpoint,
        TempBand::BelowSetpoint => HeaterState::Heating,
    }
}

/// The heater state table: a disabled heater shows `Disabled` whatever the
/// temperature; an enabled one shows `Fault` exactly for an out-of-range
/// reading, `AboveSetpoint` exactly above the setpoint, `AtSetpoint` exactly
/// near the setpoint while idle, and `Heating` below the setpoint or near it
/// under power.
pub proof fn lemma_heater_state_table(enabled: bool, band: TempBand, heater_idle: bool)
    ensures
        !enabled ==> spec_heater_state(enabled, band, heater_idle) == HeaterState::Disabled,
        enabled ==> spec_heater_state(enabled, band, heater_idle) != HeaterState::Disabled,
        enabled ==> ((spec_heater_state(enabled, band, heater_idle) == HeaterState::Fault) <==> band
            == TempBand::OutOfRange),
        enabled ==> ((spec_heater_state(enabled, band, heater_idle) == HeaterState::AboveSetpoint)
            <==> band == TempBand::AboveSetpoint),
        enabled ==> ((spec_heater_state(enabled, band, heater_idle) == HeaterState::AtSetpoint)
            <==> (band == TempBand::NearSetpoint && heater_idle)),
        enabled ==> ((spec_heater_state(enabled, band, heater_idle) == HeaterState::Heating) <==> (
        band == TempBand::BelowSetpoint || (band == TempBand::NearSetpoint && !heater_idle))),
        spec_heater_state(enabled, band, heater_idle) != HeaterState::Preheating,
{
}

} // verus!
