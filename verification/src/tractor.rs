//! A tractor: a cooldown placeholder for future farm machinery.

use vstd::prelude::*;

use crate::Time;

verus! {

#[derive(Clone, Copy, Debug, PartialEq, Eq, Structural)]
pub struct Tractor {
    pub wait: Time,
}

impl Tractor {
    pub fn new() -> (r: Tractor)
        ensures
            r == (Tractor { wait: 0 }),
    {
        Tractor { wait: 0 }
    }

    /// One step of cooldown, floored at zero.
    pub fn tick(&mut self)
        ensures
            final(self).wait == if old(self).wait > 0 {
                (old(self).wait - 1) as Time
            } else {
                0
            },
    {
        if self.wait > 0 {
            self.wait = self.wait - 1;
        }
    }

    pub fn is_ready(&self) -> (r: bool)
        ensures
            r == (self.wait == 0),
    {
        self.wait == 0
    }
}

} // verus!
