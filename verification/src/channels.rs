use vstd::prelude::*;

verus! {

/// Valve commands (pump switch task → valve task).
#[derive(Clone, Copy, Debug, PartialEq, Eq, Structural)]
pub enum ValveCommand {
    SetOpen(bool),
}

/// Switch events (switch task → control task).
#[derive(Clone, Copy, Debug, PartialEq, Eq, Structural)]
pub enum SwitchEvent {
    Toggle(bool),
}

} // verus!
