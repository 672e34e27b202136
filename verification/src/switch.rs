use vstd::prelude::*;

verus! {

/// A push button that toggles a setting on every (debounced) press.
pub struct Switch {
    enabled: bool,
}

impl View for Switch {
    /// Whether the setting is on.
    type V = bool;

    closed spec fn view(&self) -> bool {
        self.enabled
    }
}

impl Switch {
    /// A switch whose setting starts off.
    pub fn new() -> (s: Self)
        ensures
            !s@,
    {
        Self { enabled: false }
    }

    pub fn is_enabled(&self) -> (b: bool)
        ensures
            b == self@,
    {
        self.enabled
    }

    /// One press: the setting flips.
    pub fn toggle(&mut self)
        ensures
            final(self)@ == !old(self)@,
    {
        self.enabled = !self.enabled;
    }
}

} // verus!
