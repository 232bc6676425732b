//! The matchmaking queue: a FIFO of waiting connections.

use vstd::prelude::*;

verus! {

/// What `enqueue_or_pair` decided for the caller.
#[derive(Clone, Copy, PartialEq, Eq, Structural, Debug)]
pub enum PairingOutcome {
    /// No one was waiting; the caller was queued and must wait for a later
    /// arrival to pair with it.
    Waiting,
    /// The oldest waiter was popped and paired with the caller. The popped
    /// waiter is assigned First, the caller Second.
    Paired { opponent: usize },
}

/// One matchmaking step on the queue contents: an arrival either pops the
/// front waiter (queue non-empty) or is pushed at the back (queue empty).
pub open spec fn pair_step(q: Seq<usize>, caller: usize) -> (Seq<usize>, PairingOutcome) {
    if q.len() == 0 {
        (q.push(caller), PairingOutcome::Waiting)
    } else {
        (q.drop_first(), PairingOutcome::Paired { opponent: q[0] })
    }
}

/// Ordered sequence of waiting connections, strict FIFO: the first enqueued
/// is the first paired, as the opponent of the next arrival.
#[derive(Debug)]
pub struct MatchQueue {
    /// The waiting connections' identifiers, oldest first.
    pub waiting: Vec<usize>,
}

impl View for MatchQueue {
    type V = Seq<usize>;

    open spec fn view(&self) -> Seq<usize> {
        self.waiting@
    }
}

impl MatchQueue {
    /// An empty queue.
    pub fn new() -> (q: MatchQueue)
        ensures
            q@ == Seq::<usize>::empty(),
    {
        let q = MatchQueue { waiting: Vec::new() };
        proof {
            assert(q@ =~= Seq::<usize>::empty());
        }
        q
    }

    /// In one critical section: pop the front waiter and pair it with the
    /// caller, or push the caller as a new waiter if no one is queued.
    pub fn enqueue_or_pair(&mut self, caller: usize) -> (r: PairingOutcome)
        ensures
            final(self)@ == pair_step(old(self)@, caller).0,
            r == pair_step(old(self)@, caller).1,
    {
        if self.waiting.len() == 0 {
            self.waiting.push(caller);
            PairingOutcome::Waiting
        } else {
            let opponent = self.waiting.remove(0);
            proof {
                assert(final(self)@ =~= old(self)@.drop_first());
            }
            PairingOutcome::Paired { opponent }
        }
    }

    /// Take a waiter back out of the queue (its connection closed before a
    /// pairing): the first occurrence of `id` is removed, every other entry
    /// keeps its place and order.
    pub fn remove_waiter(&mut self, id: usize)
        ensures
            !old(self)@.contains(id) ==> final(self)@ == old(self)@,
            old(self)@.contains(id) ==> (exists|j: int|
                0 <= j < old(self)@.len() && old(self)@[j] == id && final(self)@ == old(
                    self,
                )@.remove(j)),
    {
        let mut i: usize = 0;
        while i < self.waiting.len()
            invariant
                i <= self.waiting.len(),
                self == old(self),
                forall|j: int| 0 <= j < i ==> old(self)@[j] != id,
            decreases self.waiting.len() - i,
        {
            if self.waiting[i] == id {
                self.waiting.remove(i);
                return ;
            }
            i = i + 1;
        }
        proof {
            assert(!old(self)@.contains(id));
        }
    }
}

/// Pairing is exactly one-to-one and FIFO: starting from an empty queue, a
/// first arrival waits, a second arrival pairs with the first, and a third
/// arrival waits again as the only queued connection.
pub proof fn lemma_pairing_fifo(w1: usize, w2: usize, w3: usize)
    ensures
        ({
            let (q1, r1) = pair_step(Seq::<usize>::empty(), w1);
            let (q2, r2) = pair_step(q1, w2);
            let (q3, r3) = pair_step(q2, w3);
            &&& r1 == PairingOutcome::Waiting
            &&& r2 == (PairingOutcome::Paired { opponent: w1 })
            &&& r3 == PairingOutcome::Waiting
            &&& q3 =~= seq![w3]
        }),
{
    let (q1, r1) = pair_step(Seq::<usize>::empty(), w1);
    let (q2, r2) = pair_step(q1, w2);
    assert(q1 =~= seq![w1]);
    assert(q2 =~= Seq::<usize>::empty());
}

} // verus!
