//! Authoritative per-session game state: board, turn, and assigned mark.

use vstd::prelude::*;
use crate::board::{Board, empty_board, has_winner, line_cells, line_won, wins};
use crate::mark::Mark;

verus! {

/// How many cells of `b` hold the mark `m`.
pub open spec fn count_of(b: Seq<Option<Mark>>, m: Mark) -> nat
    decreases b.len(),
{
    if b.len() == 0 {
        0
    } else {
        count_of(b.drop_last(), m) + (if b.last() == Some(m) {
            1nat
        } else {
            0nat
        })
    }
}

/// Overwriting one cell changes the count of each mark by the contribution
/// of the old and new cell values alone.
proof fn lemma_count_update(b: Seq<Option<Mark>>, i: int, v: Option<Mark>, m: Mark)
    requires
        0 <= i < b.len(),
    ensures
        count_of(b.update(i, v), m) + (if b[i] == Some(m) {
            1nat
        } else {
            0nat
        }) == count_of(b, m) + (if v == Some(m) {
            1nat
        } else {
            0nat
        }),
    decreases b.len(),
{
    if i == b.len() - 1 {
        assert(b.update(i, v).drop_last() =~= b.drop_last());
        assert(b.update(i, v).last() == v);
    } else {
        assert(b.update(i, v).drop_last() =~= b.drop_last().update(i, v));
        assert(b.update(i, v).last() == b.last());
        lemma_count_update(b.drop_last(), i, v, m);
    }
}

/// A board of empty cells holds no marks.
proof fn lemma_count_all_empty(b: Seq<Option<Mark>>, m: Mark)
    requires
        forall|j: int| 0 <= j < b.len() ==> b[j] is None,
    ensures
        count_of(b, m) == 0,
    decreases b.len(),
{
    if b.len() > 0 {
        lemma_count_all_empty(b.drop_last(), m);
    }
}

/// Count the cells of `b` holding `m`.
fn count_marks(b: &Board, m: Mark) -> (r: usize)
    requires
        b.wf(),
    ensures
        r == count_of(b@, m),
{
    let mut n: usize = 0;
    let mut i: usize = 0;
    while i < 9
        invariant
            b.wf(),
            i <= 9,
            n == count_of(b@.take(i as int), m),
            n <= i,
        decreases 9 - i,
    {
        proof {
            assert(b@.take(i + 1).drop_last() =~= b@.take(i as int));
            assert(b@.take(i + 1).last() == b@[i as int]);
        }
        if b.is_mark(i, m) {
            n = n + 1;
        }
        i = i + 1;
    }
    proof {
        assert(b@.take(9) =~= b@);
    }
    n
}

/// The cells of winning line `k`, in a form executable code can index with.
fn line_of(k: usize) -> (r: (usize, usize, usize))
    requires
        k < 8,
    ensures
        (r.0 as int, r.1 as int, r.2 as int) == line_cells(k as int),
        r.0 < 9 && r.1 < 9 && r.2 < 9,
{
    if k == 0 {
        (0, 1, 2)
    } else if k == 1 {
        (3, 4, 5)
    } else if k == 2 {
        (6, 7, 8)
    } else if k == 3 {
        (0, 3, 6)
    } else if k == 4 {
        (1, 4, 7)
    } else if k == 5 {
        (2, 5, 8)
    } else if k == 6 {
        (0, 4, 8)
    } else {
        (2, 4, 6)
    }
}

/// The board, whose move is legal next, and the mark assigned to the side
/// this replica serves. One value is owned per connection of a session; the
/// relay keeps the two replicas of a session in step.
#[derive(Debug)]
pub struct SessionState {
    /// The nine cells.
    pub board: Board,
    /// Whose move is legal next; authoritative.
    pub turn: Mark,
    /// The mark assigned to this connection's side.
    pub you: Mark,
}

impl SessionState {
    /// Turn alternation keeps the mark counts equal (First to move) or with
    /// one extra First (Second to move), so the explicit turn field and the
    /// turn derived from the counts agree.
    pub open spec fn balanced(self) -> bool {
        match self.turn {
            Mark::First => count_of(self.board@, Mark::First) == count_of(
                self.board@,
                Mark::Second,
            ),
            Mark::Second => count_of(self.board@, Mark::First) == count_of(
                self.board@,
                Mark::Second,
            ) + 1,
        }
    }

    pub open spec fn wf(self) -> bool {
        self.board.wf() && self.balanced()
    }

    /// A state just constructed for a fresh pairing: empty board, First to
    /// move, this side assigned `assigned`.
    pub open spec fn fresh(self, assigned: Mark) -> bool {
        &&& self.board@ == empty_board()
        &&& self.turn == Mark::First
        &&& self.you == assigned
    }

    /// State of a newly paired session for the side assigned `assigned`.
    pub fn new(assigned: Mark) -> (s: SessionState)
        ensures
            s.wf(),
            s.fresh(assigned),
    {
        let board = Board::new();
        proof {
            lemma_count_all_empty(board@, Mark::First);
            lemma_count_all_empty(board@, Mark::Second);
        }
        SessionState { board, turn: Mark::First, you: assigned }
    }

    /// A move is legal exactly when the cell is empty and the mark is the one
    /// whose move is legal next.
    pub open spec fn validate_spec(self, cell: int, m: Mark) -> bool {
        self.board@[cell] is None && m == self.turn
    }

    /// `true` iff `cell` is currently empty and `m == turn`. The executable
    /// check derives the turn from the mark counts on the board (equal
    /// counts: First's turn; otherwise Second's); under the balance invariant
    /// this agrees with the explicit `turn` field, which the contract speaks
    /// of.
    pub fn validate(&self, cell: usize, m: Mark) -> (r: bool)
        requires
            self.wf(),
            cell < 9,
        ensures
            r == self.validate_spec(cell as int, m),
    {
        match self.board.get(cell) {
            Some(_) => false,
            None => {
                let firsts = count_marks(&self.board, Mark::First);
                let seconds = count_marks(&self.board, Mark::Second);
                if firsts == seconds {
                    m == Mark::First
                } else {
                    m == Mark::Second
                }
            },
        }
    }

    /// Write `m` into `cell` and hand the turn to the opposite mark. The turn
    /// after a successful apply is the mark that did not just move.
    pub fn apply(&mut self, cell: usize, m: Mark)
        requires
            old(self).wf(),
            cell < 9,
            old(self).validate_spec(cell as int, m),
        ensures
            final(self).wf(),
            final(self).board@ == old(self).board@.update(cell as int, Some(m)),
            final(self).turn == m.flip(),
            final(self).you == old(self).you,
    {
        proof {
            lemma_count_update(self.board@, cell as int, Some(m), Mark::First);
            lemma_count_update(self.board@, cell as int, Some(m), Mark::Second);
        }
        self.board.set(cell, m);
        self.turn = m.opposite();
    }

    /// Scan the eight winning lines in the fixed order (rows, columns,
    /// diagonals) and return the first mark found occupying all three cells
    /// of a line; `None` iff no line is complete. A full board without a
    /// complete line is not a terminal outcome: the scan returns `None` and
    /// the session simply has no legal moves left.
    pub fn check_outcome(&self) -> (r: Option<Mark>)
        requires
            self.board.wf(),
        ensures
            r matches Some(m) ==> wins(self.board@, m),
            r is None ==> !has_winner(self.board@),
            has_winner(self.board@) ==> r is Some,
            forall|m: Mark| wins(self.board@, m) && !wins(self.board@, m.flip()) ==> r == Some(m),
    {
        let mut k: usize = 0;
        while k < 8
            invariant
                self.board.wf(),
                k <= 8,
                forall|j: int| 0 <= j < k ==> !#[trigger] line_won(self.board@, j, Mark::First),
                forall|j: int| 0 <= j < k ==> !#[trigger] line_won(self.board@, j, Mark::Second),
            decreases 8 - k,
        {
            let (a, b, c) = line_of(k);
            if self.board.is_mark(a, Mark::First) && self.board.is_mark(b, Mark::First)
                && self.board.is_mark(c, Mark::First) {
                proof {
                    assert(line_won(self.board@, k as int, Mark::First));
                }
                return Some(Mark::First);
            }
            if self.board.is_mark(a, Mark::Second) && self.board.is_mark(b, Mark::Second)
                && self.board.is_mark(c, Mark::Second) {
                proof {
                    assert(line_won(self.board@, k as int, Mark::Second));
                }
                return Some(Mark::Second);
            }
            k = k + 1;
        }
        None
    }
}

/// Idempotence of delivery: once a move has been applied to a cell, the same
/// cell validates against no mark any more, so a redelivered frame for it is
/// rejected and cannot be applied twice.
pub proof fn lemma_replay_rejected(
    pre: SessionState,
    post: SessionState,
    cell: int,
    m: Mark,
    m2: Mark,
)
    requires
        0 <= cell < 9,
        pre.board@.len() == 9,
        post.board@ == pre.board@.update(cell, Some(m)),
    ensures
        !post.validate_spec(cell, m2),
{
}

} // verus!
