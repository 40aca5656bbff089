//! A counter of elapsed machine cycles.
use vstd::prelude::*;

verus! {

pub struct Clock {
    pub counter: u64,
}

impl Clock {
    pub fn new() -> (r: Clock)
        ensures
            r.counter == 0,
    {
        Clock { counter: 0 }
    }

    pub fn increment(&mut self)
        requires
            old(self).counter < u64::MAX,
        ensures
            final(self).counter == old(self).counter + 1,
    {
        self.counter = self.counter + 1;
    }
}

} // verus!
