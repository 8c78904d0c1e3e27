//! Request ids: a counter that the session's owner keeps, in place of any
//! shared state.

use vstd::prelude::*;

verus! {

/// Hands out request ids in rising order, starting at 1.
#[derive(Clone, Copy, Debug)]
pub struct RequestIds {
    last: u64,
}

impl RequestIds {
    /// The id that was handed out last; 0 before the first.
    pub closed spec fn last(&self) -> u64 {
        self.last
    }

    /// A counter that has handed out nothing yet.
    pub fn new() -> (ids: RequestIds)
        ensures
            ids.last() == 0,
    {
        RequestIds { last: 0 }
    }

    /// Whether every id has been handed out.
    pub fn exhausted(&self) -> (spent: bool)
        ensures
            spent == (self.last() == u64::MAX),
    {
        self.last == u64::MAX
    }

    /// The next id: one more than the last, so greater than every id handed
    /// out before.
    pub fn inc(&mut self) -> (id: u64)
        requires
            old(self).last() < u64::MAX,
        ensures
            id == old(self).last() + 1,
            final(self).last() == id,
    {
        self.last = self.last + 1;
        self.last
    }
}

} // verus!
