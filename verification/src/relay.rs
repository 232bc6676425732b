//! The connection relay and matchmaking hub.
//!
//! The hub is the decision core of the server: it owns the matchmaking queue
//! and, for every connection, that connection's phase — waiting, playing
//! with a peer, or closed. Each playing connection holds its own replica of
//! the session state, as the two relay halves of the original design do; a
//! validated move is applied to the mover's replica and then re-validated
//! and applied to the peer's replica before it is forwarded (defense in
//! depth), which keeps the two replicas of a session in step.
//!
//! The surrounding process drives the hub with three events — a connection
//! arrived, a frame arrived on a connection, a connection closed — and
//! performs the returned [`Outgoing`] deliveries on the transports.

use vstd::prelude::*;
use crate::board::has_winner;
use crate::codec::{decode, decode_spec, Envelope};
use crate::mark::Mark;
use crate::queue::{pair_step, MatchQueue, PairingOutcome};
use crate::session::SessionState;

verus! {

/// The life of one connection as the hub sees it.
#[derive(Debug)]
pub enum ConnPhase {
    /// Queued, awaiting pairing.
    Waiting,
    /// Paired: `peer` is the other connection of the session and `sess` is
    /// this connection's replica of the session state.
    Playing { peer: usize, sess: SessionState },
    /// Torn down; frames for it are dropped.
    Closed,
}

/// One envelope the hub asks the caller to deliver to a connection.
#[derive(Clone, Copy, PartialEq, Eq, Structural, Debug)]
pub struct Outgoing {
    /// The connection the envelope is addressed to.
    pub dest: usize,
    /// The envelope to encode and send on that connection's transport.
    pub env: Envelope,
}

/// Matchmaking queue plus the phase of every connection ever accepted,
/// indexed by connection identifier.
#[derive(Debug)]
pub struct Hub {
    /// Phase of connection `i`, at index `i`.
    pub conns: Vec<ConnPhase>,
    /// Identifiers of the connections waiting to be paired, oldest first.
    pub queue: MatchQueue,
}

impl Hub {
    /// Number of connections the hub has accepted.
    pub open spec fn n(self) -> int {
        self.conns@.len() as int
    }

    /// The session peer of connection `i`, if it is playing.
    pub open spec fn peer_of(self, i: int) -> Option<int> {
        match self.conns@[i] {
            ConnPhase::Playing { peer, .. } => Some(peer as int),
            _ => None,
        }
    }

    /// A playing connection points at a distinct playing peer that points
    /// back, and the two replicas agree on board and turn and carry opposite
    /// marks.
    pub open spec fn conn_ok(self, i: int) -> bool {
        match self.conns@[i] {
            ConnPhase::Playing { peer, sess } => {
                &&& sess.wf()
                &&& (peer as int) < self.n()
                &&& (peer as int) != i
                &&& (self.conns@[peer as int] matches ConnPhase::Playing { peer: p2, sess: s2 }
                    && (p2 as int) == i
                    && s2.board@ == sess.board@
                    && s2.turn == sess.turn
                    && s2.you == sess.you.flip())
            },
            _ => true,
        }
    }

    /// Every queued identifier names a waiting connection, and no identifier
    /// is queued twice.
    pub open spec fn queue_ok(self) -> bool {
        &&& forall|k: int|
            0 <= k < self.queue@.len() ==> ((#[trigger] self.queue@[k]) as int) < self.n()
                && self.conns@[self.queue@[k] as int] is Waiting
        &&& forall|k1: int, k2: int|
            0 <= k1 < k2 < self.queue@.len() ==> self.queue@[k1] != self.queue@[k2]
    }

    pub open spec fn wf(self) -> bool {
        &&& forall|i: int| 0 <= i < self.n() ==> #[trigger] self.conn_ok(i)
        &&& self.queue_ok()
    }

    /// A hub with no connections.
    pub fn new() -> (h: Hub)
        ensures
            h.wf(),
            h.conns@.len() == 0,
            h.queue@.len() == 0,
    {
        Hub { conns: Vec::new(), queue: MatchQueue::new() }
    }

    /// Accept a new connection and return its identifier together with the
    /// envelopes to deliver. If someone is waiting, the oldest waiter is
    /// paired with the caller — the waiter assigned First, the caller Second,
    /// both starting from a fresh session — and both sides are told their
    /// mark. Otherwise the caller is queued and receives nothing yet.
    pub fn connect(&mut self) -> (r: (usize, Vec<Outgoing>))
        requires
            old(self).wf(),
        ensures
            final(self).wf(),
            r.0 as int == old(self).n(),
            final(self).n() == old(self).n() + 1,
            final(self).queue@ == pair_step(old(self).queue@, r.0).0,
            old(self).queue@.len() == 0 ==> final(self).conns@ == old(self).conns@.push(
                ConnPhase::Waiting,
            ) && r.1@ == Seq::<Outgoing>::empty(),
            old(self).queue@.len() > 0 ==> ({
                let w = old(self).queue@[0] as int;
                &&& (final(self).conns@[w] matches ConnPhase::Playing { peer, sess }
                    && peer == r.0 && sess.wf() && sess.fresh(Mark::First))
                &&& (final(self).conns@[r.0 as int] matches ConnPhase::Playing { peer, sess }
                    && (peer as int) == w && sess.wf() && sess.fresh(Mark::Second))
                &&& (forall|j: int|
                    0 <= j < old(self).n() && j != w ==> final(self).conns@[j] == old(self).conns@[j])
                &&& r.1@ =~= seq![
                    Outgoing { dest: old(self).queue@[0], env: Envelope::SessionInit { assigned: Mark::First } },
                    Outgoing { dest: r.0, env: Envelope::SessionInit { assigned: Mark::Second } },
                ]
            }),
    {
        let id = self.conns.len();
        let ghost old_hub = *old(self);
        let outcome = self.queue.enqueue_or_pair(id);
        match outcome {
            PairingOutcome::Waiting => {
                self.conns.push(ConnPhase::Waiting);
                let msgs: Vec<Outgoing> = Vec::new();
                proof {
                    assert forall|i: int| 0 <= i < self.n() implies self.conn_ok(i) by {
                        if i < old_hub.n() {
                            assert(old_hub.conn_ok(i));
                        }
                    }
                    assert(msgs@ =~= Seq::<Outgoing>::empty());
                }
                (id, msgs)
            },
            PairingOutcome::Paired { opponent } => {
                proof {
                    assert(old_hub.queue@[0] == opponent);
                }
                let w_sess = SessionState::new(Mark::First);
                let my_sess = SessionState::new(Mark::Second);
                self.conns.set(opponent, ConnPhase::Playing { peer: id, sess: w_sess });
                self.conns.push(ConnPhase::Playing { peer: opponent, sess: my_sess });
                let mut msgs: Vec<Outgoing> = Vec::new();
                msgs.push(
                    Outgoing { dest: opponent, env: Envelope::SessionInit { assigned: Mark::First } },
                );
                msgs.push(
                    Outgoing { dest: id, env: Envelope::SessionInit { assigned: Mark::Second } },
                );
                proof {
                    let opp = opponent as int;
                    assert forall|i: int| 0 <= i < self.n() implies self.conn_ok(i) by {
                        if i != opp && i != id {
                            assert(old_hub.conn_ok(i));
                            match old_hub.conns@[i] {
                                ConnPhase::Playing { peer, .. } => {
                                    assert(old_hub.conns@[peer as int] matches ConnPhase::Playing {
                                        ..
                                    });
                                    assert((peer as int) != opp);
                                },
                                _ => {},
                            }
                        }
                    }
                    assert forall|k: int|
                        0 <= k < self.queue@.len() implies ((#[trigger] self.queue@[k]) as int)
                        < self.n() && self.conns@[self.queue@[k] as int] is Waiting by {
                        assert(old_hub.queue@[k + 1] == self.queue@[k]);
                        assert(old_hub.queue@[k + 1] != old_hub.queue@[0]);
                    }
                }
                (id, msgs)
            },
        }
    }

    /// Deliver one inbound wire frame from connection `id`. A frame that
    /// fails to decode, is not a move, arrives on a connection that is not
    /// playing, or names an occupied cell or a mark out of turn, is dropped:
    /// the hub is unchanged and nothing is emitted. A valid move is applied
    /// to both replicas of the session; if it completes a winning line, the
    /// mover is told it won and the peer that it lost, otherwise the move is
    /// forwarded to the peer. Nothing is ever addressed to a connection
    /// outside the mover's session, and no other session's state changes.
    pub fn deliver_frame(&mut self, id: usize, frame: &[u8]) -> (out: Vec<Outgoing>)
        requires
            old(self).wf(),
            (id as int) < old(self).n(),
        ensures
            final(self).wf(),
            final(self).n() == old(self).n(),
            final(self).queue@ == old(self).queue@,
            forall|x: int|
                0 <= x < out@.len() ==> (#[trigger] out@[x]).dest == id || Some(
                    out@[x].dest as int,
                ) == old(self).peer_of(id as int),
            forall|j: int|
                0 <= j < old(self).n() && j != id && Some(j) != old(self).peer_of(id as int)
                    ==> final(self).conns@[j] == old(self).conns@[j],
            (match decode_spec(frame@) {
                Ok(env) => match env {
                    Envelope::Move { cell } => match old(self).conns@[id as int] {
                        ConnPhase::Playing { peer, sess } => {
                            if sess.validate_spec(cell as int, sess.you) {
                                let b1 = sess.board@.update(cell as int, Some(sess.you));
                                let fin = has_winner(b1);
                                &&& (final(self).conns@[id as int] matches ConnPhase::Playing {
                                    peer: p,
                                    sess: s,
                                } && p == peer && s.board@ == b1 && s.turn == sess.you.flip()
                                    && s.you == sess.you)
                                &&& (final(self).conns@[peer as int] matches ConnPhase::Playing {
                                    peer: p,
                                    sess: s,
                                } && p == id && s.board@ == b1 && s.turn == sess.you.flip()
                                    && s.you == sess.you.flip())
                                &&& out@ =~= (if fin {
                                    seq![
                                        Outgoing {
                                            dest: id,
                                            env: Envelope::GameFinished { winning_side: true },
                                        },
                                        Outgoing {
                                            dest: peer,
                                            env: Envelope::GameFinished { winning_side: false },
                                        },
                                    ]
                                } else {
                                    seq![Outgoing { dest: peer, env: Envelope::Move { cell } }]
                                })
                            } else {
                                *final(self) == *old(self) && out@ == Seq::<Outgoing>::empty()
                            }
                        },
                        _ => *final(self) == *old(self) && out@ == Seq::<Outgoing>::empty(),
                    },
                    _ => *final(self) == *old(self) && out@ == Seq::<Outgoing>::empty(),
                },
                Err(_) => *final(self) == *old(self) && out@ == Seq::<Outgoing>::empty(),
            }),
    {
        let ghost old_hub = *old(self);
        let mut out: Vec<Outgoing> = Vec::new();
        proof {
            assert(out@ =~= Seq::<Outgoing>::empty());
        }
        let env = match decode(frame) {
            Ok(e) => e,
            Err(_) => {
                return out;
            },
        };
        let cell32 = match env {
            Envelope::Move { cell } => cell,
            _ => {
                return out;
            },
        };
        let cell = cell32 as usize;
        proof {
            assert(old_hub.conn_ok(id as int));
        }
        let (peer, you) = match &self.conns[id] {
            ConnPhase::Playing { peer, sess } => {
                let you = sess.you;
                if !sess.validate(cell, you) {
                    return out;
                }
                (*peer, you)
            },
            _ => {
                return out;
            },
        };
        let fin = match &mut self.conns[id] {
            ConnPhase::Playing { peer: _p, sess } => {
                sess.apply(cell, you);
                sess.check_outcome().is_some()
            },
            _ => false,
        };
        if fin {
            out.push(Outgoing { dest: id, env: Envelope::GameFinished { winning_side: true } });
        }
        proof {
            assert(self.conns@[peer as int] == old_hub.conns@[peer as int]);
        }
        match &mut self.conns[peer] {
            ConnPhase::Playing { peer: p2, sess: s2 } => {
                let m = s2.you.opposite();
                if s2.validate(cell, m) {
                    s2.apply(cell, m);
                    let fin2 = s2.check_outcome().is_some();
                    if fin2 {
                        out.push(
                            Outgoing {
                                dest: peer,
                                env: Envelope::GameFinished { winning_side: false },
                            },
                        );
                    } else {
                        out.push(Outgoing { dest: peer, env: Envelope::Move { cell: cell32 } });
                    }
                }
            },
            _ => {},
        };
        proof {
            let idi = id as int;
            let pi = peer as int;
            assert forall|i: int| 0 <= i < self.n() implies self.conn_ok(i) by {
                if i != idi && i != pi {
                    assert(old_hub.conn_ok(i));
                    match old_hub.conns@[i] {
                        ConnPhase::Playing { peer: q, .. } => {
                            assert(old_hub.conn_ok(q as int));
                        },
                        _ => {},
                    }
                }
            }
            assert forall|k: int|
                0 <= k < self.queue@.len() implies ((#[trigger] self.queue@[k]) as int) < self.n()
                && self.conns@[self.queue@[k] as int] is Waiting by {
                assert(old_hub.queue@[k] == self.queue@[k]);
            }
        }
        out
    }

    /// Tear down connection `id`: its phase becomes closed; if it was
    /// playing, its peer's phase is closed with it (the peer's relay must
    /// end too); if it was waiting, it is taken back out of the queue. No
    /// other connection and no other session is touched, and nothing is
    /// emitted.
    pub fn disconnect(&mut self, id: usize)
        requires
            old(self).wf(),
            (id as int) < old(self).n(),
        ensures
            final(self).wf(),
            final(self).n() == old(self).n(),
            final(self).conns@[id as int] is Closed,
            !final(self).queue@.contains(id),
            (match old(self).conns@[id as int] {
                ConnPhase::Playing { peer, .. } => {
                    &&& final(self).conns@[peer as int] is Closed
                    &&& (forall|j: int|
                        0 <= j < old(self).n() && j != id && j != (peer as int) ==> final(self).conns@[j] == old(self).conns@[j])
                    &&& final(self).queue@ == old(self).queue@
                },
                _ => {
                    &&& (forall|j: int|
                        0 <= j < old(self).n() && j != id ==> final(self).conns@[j] == old(self).conns@[j])
                    &&& (!old(self).queue@.contains(id) ==> final(self).queue@ == old(self).queue@)
                    &&& (old(self).queue@.contains(id) ==> exists|j: int|
                        0 <= j < old(self).queue@.len() && old(self).queue@[j] == id && final(self).queue@ == old(self).queue@.remove(j))
                },
            }),
    {
        let ghost old_hub = *old(self);
        proof {
            assert(old_hub.conn_ok(id as int));
        }
        let mut was_waiting = false;
        let mut peer_opt: Option<usize> = None;
        match &self.conns[id] {
            ConnPhase::Playing { peer, .. } => {
                peer_opt = Some(*peer);
            },
            ConnPhase::Waiting => {
                was_waiting = true;
            },
            ConnPhase::Closed => {},
        }
        self.conns.set(id, ConnPhase::Closed);
        match peer_opt {
            Some(p) => {
                self.conns.set(p, ConnPhase::Closed);
            },
            None => {},
        }
        if was_waiting {
            self.queue.remove_waiter(id);
        }
        proof {
            let idi = id as int;
            assert forall|i: int| 0 <= i < self.n() implies self.conn_ok(i) by {
                match self.conns@[i] {
                    ConnPhase::Playing { peer: q, .. } => {
                        assert(old_hub.conn_ok(i));
                        assert(old_hub.conn_ok(q as int));
                    },
                    _ => {},
                }
            }
            if !(old_hub.conns@[idi] is Waiting) {
                assert(!self.queue@.contains(id)) by {
                    if self.queue@.contains(id) {
                        let j = choose|j: int|
                            0 <= j < self.queue@.len() && self.queue@[j] == id;
                        assert(old_hub.queue@[j] == id);
                        assert(old_hub.conns@[idi] is Waiting);
                    }
                }
            }
        }
    }
}

} // verus!
