//! The two players' symbols.

use vstd::prelude::*;

verus! {

/// One of the two players' symbols occupying a cell. The popped waiter of a
/// pairing is assigned `First`; `First` moves first.
#[derive(Clone, Copy, PartialEq, Eq, Structural, Debug)]
pub enum Mark {
    First,
    Second,
}

impl Mark {
    /// The other mark.
    pub open spec fn flip(self) -> Mark {
        match self {
            Mark::First => Mark::Second,
            Mark::Second => Mark::First,
        }
    }

    /// Total, pure function swapping the two marks.
    pub fn opposite(self) -> (r: Mark)
        ensures
            r == self.flip(),
    {
        match self {
            Mark::First => Mark::Second,
            Mark::Second => Mark::First,
        }
    }
}

} // verus!
