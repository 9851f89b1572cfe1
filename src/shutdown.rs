use vstd::prelude::*;

verus! {

/// The process-wide signal that ends every open subscriber stream.
#[derive(Debug)]
pub struct Shutdown {
    fired: bool,
}

impl View for Shutdown {
    type V = bool;

    closed spec fn view(&self) -> bool {
        self.fired
    }
}

impl Shutdown {
    /// A signal that has not fired.
    pub fn new() -> (s: Shutdown)
        ensures
            !s@,
    {
        Shutdown { fired: false }
    }

    /// Fires the signal; firing again changes nothing.
    pub fn fire(&mut self)
        ensures
            final(self)@,
    {
        self.fired = true;
    }

    pub fn is_fired(&self) -> (r: bool)
        ensures
            r == self@,
    {
        self.fired
    }
}

} // verus!
