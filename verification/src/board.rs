//! The 3x3 board and its winning lines.

use vstd::prelude::*;
use crate::mark::Mark;

verus! {

/// Index triple of one of the eight winning lines, in the fixed order:
/// three rows, three columns, two diagonals.
pub open spec fn line_cells(k: int) -> (int, int, int) {
    if k == 0 {
        (0, 1, 2)
    } else if k == 1 {
        (3, 4, 5)
    } else if k == 2 {
        (6, 7, 8)
    } else if k == 3 {
        (0, 3, 6)
    } else if k == 4 {
        (1, 4, 7)
    } else if k == 5 {
        (2, 5, 8)
    } else if k == 6 {
        (0, 4, 8)
    } else {
        (2, 4, 6)
    }
}

/// All three cells of line `k` hold `m`.
pub open spec fn line_won(b: Seq<Option<Mark>>, k: int, m: Mark) -> bool {
    &&& b[line_cells(k).0] == Some(m)
    &&& b[line_cells(k).1] == Some(m)
    &&& b[line_cells(k).2] == Some(m)
}

/// Some winning line is completely occupied by `m`.
pub open spec fn wins(b: Seq<Option<Mark>>, m: Mark) -> bool {
    exists|k: int| 0 <= k < 8 && #[trigger] line_won(b, k, m)
}

/// Some mark has completed a winning line.
pub open spec fn has_winner(b: Seq<Option<Mark>>) -> bool {
    wins(b, Mark::First) || wins(b, Mark::Second)
}

/// The board a session starts from: nine empty cells.
pub open spec fn empty_board() -> Seq<Option<Mark>> {
    Seq::new(9, |i: int| None::<Mark>)
}

/// Ordered sequence of 9 cell states (row-major, 3 columns), each either
/// empty or a mark.
#[derive(Debug)]
pub struct Board {
    pub cells: Vec<Option<Mark>>,
}

impl View for Board {
    type V = Seq<Option<Mark>>;

    open spec fn view(&self) -> Seq<Option<Mark>> {
        self.cells@
    }
}

impl Board {
    /// A board value is well formed when it has exactly nine cells.
    pub open spec fn wf(self) -> bool {
        self@.len() == 9
    }

    /// A board with all nine cells empty.
    pub fn new() -> (b: Board)
        ensures
            b.wf(),
            b@ =~= empty_board(),
    {
        let mut cells: Vec<Option<Mark>> = Vec::new();
        let mut i: usize = 0;
        while i < 9
            invariant
                i <= 9,
                cells@.len() == i,
                forall|j: int| 0 <= j < i ==> cells@[j] is None,
            decreases 9 - i,
        {
            cells.push(None);
            i = i + 1;
        }
        Board { cells }
    }

    /// The state of one cell.
    pub fn get(&self, i: usize) -> (r: Option<Mark>)
        requires
            self.wf(),
            i < 9,
        ensures
            r == self@[i as int],
    {
        self.cells[i]
    }

    /// `true` iff cell `i` holds exactly `m`.
    pub fn is_mark(&self, i: usize, m: Mark) -> (r: bool)
        requires
            self.wf(),
            i < 9,
        ensures
            r == (self@[i as int] == Some(m)),
    {
        match self.cells[i] {
            Some(x) => x == m,
            None => false,
        }
    }

    /// Write `m` into cell `i`.
    pub fn set(&mut self, i: usize, m: Mark)
        requires
            old(self).wf(),
            i < 9,
        ensures
            final(self).wf(),
            final(self)@ == old(self)@.update(i as int, Some(m)),
    {
        self.cells.set(i, Some(m));
    }
}

} // verus!
