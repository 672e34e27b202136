use vstd::prelude::*;

verus! {

/// The 3-way brew valve solenoid. Its gate is driven high exactly while the
/// valve is open.
pub struct Valve {
    open: bool,
}

impl View for Valve {
    /// Whether the valve is open.
    type V = bool;

    closed spec fn view(&self) -> bool {
        self.open
    }
}

impl Valve {
    /// A valve that starts closed.
    pub fn new() -> (v: Self)
        ensures
            !v@,
    {
        Self { open: false }
    }

    /// Sets whether the valve is open; the result is whether its gate must
    /// be driven high.
    pub fn set_open(&mut self, open: bool) -> (gate_high: bool)
        ensures
            final(self)@ == open,
            gate_high == open,
    {
        self.open = open;
        open
    }

    pub fn is_open(&self) -> (b: bool)
        ensures
            b == self@,
    {
        self.open
    }
}

} // verus!
