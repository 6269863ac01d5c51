//! Iterators lesson: a hand-rolled counter that yields one through five.

use vstd::prelude::*;

verus! {

/// Counts upward and yields the values one through five, then nothing.
#[derive(Debug)]
pub struct Counter {
    pub count: u32,
}

impl Counter {
    /// A counter that has not yielded anything yet.
    pub fn new() -> (r: Counter)
        ensures
            r.count == 0,
    {
        Counter { count: 0 }
    }

    /// Advances the counter: the values one through five come out in
    /// order, and every later step yields nothing.
    pub fn next(&mut self) -> (r: Option<u32>)
        requires
            old(self).count < u32::MAX,
        ensures
            final(self).count == old(self).count + 1,
            r == if old(self).count + 1 < 6 {
                Some((old(self).count + 1) as u32)
            } else {
                None::<u32>
            },
    {
        self.count = self.count + 1;
        if self.count < 6 {
            Some(self.count)
        } else {
            None
        }
    }
}

} // verus!
