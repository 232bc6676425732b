//! The client's side of a session: its board mirror, the socket-facing
//! plumbing decisions, and the meta-interface events.

use vstd::prelude::*;
use crate::board::Board;
use crate::codec::{decode, decode_spec, encode_spec, Envelope};
use crate::mark::Mark;

verus! {

/// A request to render one mark in one cell.
#[derive(Clone, Copy, PartialEq, Eq, Structural, Debug)]
pub struct DrawRequest {
    /// The mark to draw.
    pub who: Mark,
    /// The cell to draw it in.
    pub where_: usize,
}

/// Events for the meta interface around the board: an opponent was found,
/// or the game finished (`true` when this side won).
#[derive(Clone, Copy, PartialEq, Eq, Structural, Debug)]
pub enum MetaEvent {
    OpponentFound,
    GameFinished(bool),
}

/// What the client knows of its session.
#[derive(Debug)]
pub struct ClientState {
    /// The client's mirror of the board.
    pub board: Board,
    /// `Some(won)` once a game-finished notice arrived.
    pub game_finished: Option<bool>,
    /// Whether this side may send a move now.
    pub is_your_turn: bool,
    /// This side's mark.
    pub me: Mark,
}

impl ClientState {
    pub open spec fn wf(self) -> bool {
        self.board.wf()
    }

    /// The state a client starts in before its session-init arrives: empty
    /// board, not this side's turn, provisionally marked Second.
    pub fn new() -> (s: ClientState)
        ensures
            s.wf(),
            s.board@ == crate::board::empty_board(),
            s.game_finished is None,
            !s.is_your_turn,
            s.me == Mark::Second,
    {
        ClientState {
            board: Board::new(),
            game_finished: None,
            is_your_turn: false,
            me: Mark::Second,
        }
    }

    /// Fold one server envelope into the client state and say what to draw.
    /// A session-init assigning First makes it this side's turn as First (an
    /// assignment of Second leaves the provisional state as it is); a move
    /// is the opponent's, goes onto the mirror and hands the turn to this
    /// side; a game-finished notice only records the verdict.
    pub fn handle_server_message(&mut self, env: Envelope) -> (r: Option<DrawRequest>)
        requires
            old(self).wf(),
            env.wf(),
        ensures
            final(self).wf(),
            (match env {
                Envelope::SessionInit { assigned } => {
                    &&& (assigned == Mark::First ==> final(self).me == Mark::First
                        && final(self).is_your_turn)
                    &&& (assigned == Mark::Second ==> *final(self) == *old(self))
                    &&& final(self).board@ == old(self).board@
                    &&& final(self).game_finished == old(self).game_finished
                    &&& r is None
                },
                Envelope::Move { cell } => {
                    &&& final(self).board@ == old(self).board@.update(
                        cell as int,
                        Some(old(self).me.flip()),
                    )
                    &&& final(self).is_your_turn
                    &&& final(self).me == old(self).me
                    &&& final(self).game_finished == old(self).game_finished
                    &&& r == Some(
                        DrawRequest { who: old(self).me.flip(), where_: cell as usize },
                    )
                },
                Envelope::GameFinished { winning_side } => {
                    &&& final(self).game_finished == Some(winning_side)
                    &&& final(self).board@ == old(self).board@
                    &&& final(self).is_your_turn == old(self).is_your_turn
                    &&& final(self).me == old(self).me
                    &&& r is None
                },
            }),
    {
        match env {
            Envelope::SessionInit { assigned } => {
                match assigned {
                    Mark::First => {
                        self.me = Mark::First;
                        self.is_your_turn = true;
                    },
                    Mark::Second => {},
                }
                None
            },
            Envelope::Move { cell } => {
                let who = self.me.opposite();
                self.board.set(cell as usize, who);
                self.is_your_turn = true;
                Some(DrawRequest { who, where_: cell as usize })
            },
            Envelope::GameFinished { winning_side } => {
                self.game_finished = Some(winning_side);
                None
            },
        }
    }

    /// The player tries to mark `cell`: ignored unless it is this side's
    /// turn and the cell is still empty; otherwise the mark goes onto the
    /// mirror, the turn is given up, and the move envelope to send together
    /// with the draw request come back.
    pub fn play(&mut self, cell: usize) -> (r: Option<(Envelope, DrawRequest)>)
        requires
            old(self).wf(),
            cell < 9,
        ensures
            final(self).wf(),
            !old(self).is_your_turn ==> *final(self) == *old(self) && r is None,
            old(self).is_your_turn && old(self).board@[cell as int] is Some ==> *final(self)
                == *old(self) && r is None,
            old(self).is_your_turn && old(self).board@[cell as int] is None ==> ({
                &&& final(self).board@ == old(self).board@.update(
                    cell as int,
                    Some(old(self).me),
                )
                &&& !final(self).is_your_turn
                &&& final(self).me == old(self).me
                &&& final(self).game_finished == old(self).game_finished
                &&& r == Some(
                    (
                        Envelope::Move { cell: cell as u32 },
                        DrawRequest { who: old(self).me, where_: cell },
                    ),
                )
            }),
    {
        if !self.is_your_turn {
            return None;
        }
        match self.board.get(cell) {
            Some(_) => None,
            None => {
                let me = self.me;
                self.board.set(cell, me);
                self.is_your_turn = false;
                Some((Envelope::Move { cell: cell as u32 }, DrawRequest { who: me, where_: cell }))
            },
        }
    }
}

/// Where on the canvas a cell's sprite is drawn: the cell grid is row-major
/// with three columns, cells are 100 units apart, and the top-left cell's
/// centre is at (-100, 100).
pub fn cell_coordinates(cell: usize) -> (r: (i32, i32))
    requires
        cell < 9,
    ensures
        r.0 == -100 + 100 * ((cell as int) % 3),
        r.1 == 100 - 100 * ((cell as int) / 3),
{
    let col = (cell % 3) as i32;
    let row = (cell / 3) as i32;
    (-100 + 100 * col, 100 - 100 * row)
}

/// The cell addressed by a grid row and column (row-major, three columns).
pub fn cell_from_grid(row: usize, col: usize) -> (c: usize)
    requires
        row < 3,
        col < 3,
    ensures
        c == 3 * row + col,
        c < 9,
{
    3 * row + col
}

/// Whether any of a batch of meta events reports the opponent found.
pub open spec fn any_opponent_found(evs: Seq<MetaEvent>) -> bool {
    exists|i: int| 0 <= i < evs.len() && evs[i] == MetaEvent::OpponentFound
}

/// The verdict of the first game-finished event of a batch, if any.
pub open spec fn first_verdict(evs: Seq<MetaEvent>) -> Option<bool>
    decreases evs.len(),
{
    if evs.len() == 0 {
        None
    } else if evs[0] matches MetaEvent::GameFinished(w) {
        Some(evs[0]->GameFinished_0)
    } else {
        first_verdict(evs.drop_first())
    }
}

/// The meta interface around the board: the searching modal while queued
/// and the final modal once a game finished.
pub struct GameUI;

impl GameUI {
    /// The searching modal is dismissed as soon as some event of the batch
    /// says the opponent was found.
    pub fn dismiss_searching(events: &Vec<MetaEvent>) -> (r: bool)
        ensures
            r == any_opponent_found(events@),
    {
        let mut i: usize = 0;
        while i < events.len()
            invariant
                i <= events@.len(),
                forall|j: int| 0 <= j < i ==> events@[j] != MetaEvent::OpponentFound,
            decreases events@.len() - i,
        {
            match events[i] {
                MetaEvent::OpponentFound => {
                    return true;
                },
                _ => {},
            }
            i = i + 1;
        }
        false
    }

    /// The verdict the final modal reports: that of the first game-finished
    /// event of the batch, the later ones are ignored.
    pub fn finish_verdict(events: &Vec<MetaEvent>) -> (r: Option<bool>)
        ensures
            r == first_verdict(events@),
    {
        let mut i: usize = 0;
        proof {
            assert(events@.skip(0) =~= events@);
        }
        while i < events.len()
            invariant
                i <= events@.len(),
                first_verdict(events@) == first_verdict(events@.skip(i as int)),
            decreases events@.len() - i,
        {
            proof {
                assert(events@.skip(i as int).drop_first() =~= events@.skip(i + 1));
                assert(events@.skip(i as int)[0] == events@[i as int]);
            }
            match events[i] {
                MetaEvent::GameFinished(w) => {
                    return Some(w);
                },
                _ => {},
            }
            i = i + 1;
        }
        proof {
            assert(events@.skip(events@.len() as int).len() == 0);
        }
        None
    }

    /// The word the final modal shows for a verdict.
    pub fn finish_text(is_win: bool) -> (r: &'static str)
        ensures
            is_win ==> r@ == "won"@,
            !is_win ==> r@ == "lost"@,
    {
        if is_win {
            "won"
        } else {
            "lost"
        }
    }
}

/// The client's socket plumbing: what of an inbound byte frame reaches the
/// game, and which outbound messages reach the wire.
pub struct SocketPlugin;

/// An envelope received from the socket.
#[derive(Clone, Copy, PartialEq, Eq, Structural, Debug)]
pub struct SocketRecv(pub Envelope);

/// An envelope the game asks to send on the socket.
#[derive(Clone, Copy, PartialEq, Eq, Structural, Debug)]
pub struct SocketSend(pub Envelope);

impl SocketPlugin {
    /// Decode one inbound frame; a malformed frame is dropped.
    pub fn receive(frame: &[u8]) -> (r: Option<SocketRecv>)
        ensures
            (match decode_spec(frame@) {
                Ok(env) => r == Some(SocketRecv(env)),
                Err(_) => r is None,
            }),
    {
        match decode(frame) {
            Ok(env) => Some(SocketRecv(env)),
            Err(_) => None,
        }
    }

    /// The bytes to put on the wire for an outbound message: only moves into
    /// one of the nine cells are sent, everything else is dropped.
    pub fn outgoing(msg: &SocketSend) -> (r: Option<Vec<u8>>)
        ensures
            (match msg.0 {
                Envelope::Move { cell } => {
                    if cell < 9 {
                        r matches Some(bytes) && bytes@ == encode_spec(msg.0)
                    } else {
                        r is None
                    }
                },
                _ => r is None,
            }),
    {
        match msg.0 {
            Envelope::Move { cell } => {
                if cell < 9 {
                    Some(msg.0.encode())
                } else {
                    None
                }
            },
            _ => None,
        }
    }
}

} // verus!
