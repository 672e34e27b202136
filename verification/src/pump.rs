use vstd::prelude::*;

verus! {

/// What the pump is doing.
#[derive(Clone, Copy, Debug, PartialEq, Eq, Structural)]
pub enum PumpState {
    /// Pump disabled by user
    Disabled,
    /// Pump running
    Running,
}

} // verus!
