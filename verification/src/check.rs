use vstd::prelude::*;

verus! {

/// Individual check result of the machine sanity check.
#[derive(Clone, Copy, Debug, PartialEq, Eq, Structural)]
pub enum CheckResult {
    Pass,
    Fail,
    /// Needs the operator's observation (LEDs, pump sound, valve click).
    Visual,
}

/// Zero-crossing edges counted over one second pass when they come at
/// 80 to 140 per second (mains at 40 to 70 Hz, two edges per period).
pub fn zc_check_result(edges_per_s: u32) -> (r: CheckResult)
    ensures
        r == (if 80 <= edges_per_s <= 140 { CheckResult::Pass } else { CheckResult::Fail }),
{
    if edges_per_s >= 80 && edges_per_s <= 140 {
        CheckResult::Pass
    } else {
        CheckResult::Fail
    }
}

/// The heater check runs only when both the zero-crossing detector and the
/// temperature sensor passed; it needs both.
pub fn heater_check_possible(zc: CheckResult, temp: CheckResult) -> (b: bool)
    ensures
        b == (zc == CheckResult::Pass && temp == CheckResult::Pass),
{
    zc == CheckResult::Pass && temp == CheckResult::Pass
}

/// The overall result: only the automatic checks count, and all of them
/// must pass.
pub fn all_automatic_checks_passed(
    temp: CheckResult,
    zc: CheckResult,
    heater_button: CheckResult,
    pump_button: CheckResult,
    heater: CheckResult,
) -> (b: bool)
    ensures
        b == (temp == CheckResult::Pass && zc == CheckResult::Pass && heater_button
            == CheckResult::Pass && pump_button == CheckResult::Pass && heater == CheckResult::Pass),
{
    temp == CheckResult::Pass && zc == CheckResult::Pass && heater_button == CheckResult::Pass
        && pump_button == CheckResult::Pass && heater == CheckResult::Pass
}

} // verus!
