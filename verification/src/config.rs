use vstd::prelude::*;

verus! {

/// Idle auto-off: disable the heater this long after the last activity (heater
/// enable or pump use), exactly like a manual switch-off. Pump use resets the
/// timer; re-enabling is heater-switch only. 720 s = 12 min.
pub const HEATER_TIMEOUT_S: u32 = 720;

/// Safety-cap fallback (seconds): force the Preheat -> Coast transition
/// even if the measured-lead cutoff never fires.
pub const PREHEAT_MAX_S: u32 = 180;

/// Safety-cap fallback (seconds): force the Coast -> Closed transition even
/// if temp never gets within the coast exit margin of setpoint.
pub const COAST_MAX_S: u32 = 120;

} // verus!
