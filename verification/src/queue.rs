//! The outgoing-command queue: the single ordered channel every
//! outgoing reply is funneled through, so that the one consumer
//! transmits them in the order they were enqueued.
use vstd::prelude::*;
use crate::types::CecCommand;

verus! {

/// An unbounded FIFO queue of commands. Multiple producers enqueue at
/// the back; the one consumer dequeues at the front. FIFO order is
/// the only ordering guarantee: no priority, no coalescing.
pub struct OutgoingQueue {
    items: Vec<CecCommand>,
}

impl View for OutgoingQueue {
    type V = Seq<CecCommand>;

    closed spec fn view(&self) -> Seq<CecCommand> {
        self.items@
    }
}

impl OutgoingQueue {
    pub fn new() -> (r: OutgoingQueue)
        ensures
            r@ == Seq::<CecCommand>::empty(),
    {
        OutgoingQueue { items: Vec::new() }
    }

    /// Appends one command at the back; everything already queued
    /// stays where it is.
    pub fn enqueue(&mut self, command: CecCommand)
        ensures
            final(self)@ == old(self)@.push(command),
    {
        self.items.push(command);
    }

    /// Removes and returns the front command - the one enqueued
    /// earliest among those still queued - or nothing when the queue
    /// is empty.
    pub fn dequeue(&mut self) -> (r: Option<CecCommand>)
        ensures
            old(self)@.len() == 0 ==> r is None && final(self)@ == old(self)@,
            old(self)@.len() > 0 ==> (r matches Some(c) && c == old(self)@[0]
                && final(self)@ == old(self)@.subrange(1, old(self)@.len() as int)),
    {
        if self.items.len() == 0 {
            None
        } else {
            let front = self.items.remove(0);
            proof {
                assert(self@ =~= old(self)@.subrange(1, old(self)@.len() as int));
            }
            Some(front)
        }
    }

    pub fn len(&self) -> (r: usize)
        ensures
            r == self@.len(),
    {
        self.items.len()
    }

    pub fn is_empty(&self) -> (r: bool)
        ensures
            r == (self@.len() == 0),
    {
        self.items.len() == 0
    }
}

/// FIFO order of the outgoing queue: whatever was already queued, two
/// replies enqueued one after the other occupy consecutive positions
/// in enqueue order, and dequeuing always returns the front, so the
/// first is transmitted strictly before the second.
pub proof fn lemma_fifo_order(prior: Seq<CecCommand>, r1: CecCommand, r2: CecCommand)
    ensures
        prior.push(r1).push(r2)[prior.len() as int] == r1,
        prior.push(r1).push(r2)[prior.len() as int + 1] == r2,
{
}

} // verus!
