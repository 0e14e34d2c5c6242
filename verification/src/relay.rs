//! The caller-message relay.
//!
//! Client-streaming and bidirectional calls receive their outbound messages
//! asynchronously: the caller pushes them, at its own pace up to
//! backpressure, into a bounded, ordered relay keyed to the connection. The
//! connection owns the receiving end, drains it in arrival order, and tears
//! it down on terminal state. A commit closes the outbound half: no further
//! message is accepted, messages already queued are still delivered.

use vstd::prelude::*;

verus! {

/// How many caller messages the relay holds before backpressure.
pub const RELAY_CAPACITY: usize = 16;

/// The bounded, ordered, single-consumer relay of one connection.
pub struct MessageRelay {
    queue: Vec<String>,
    committed: bool,
}

impl MessageRelay {
    /// The queued messages, in arrival order.
    pub closed spec fn queue_seq(&self) -> Seq<Seq<char>> {
        self.queue@.map_values(|m: String| m@)
    }

    /// Whether the outbound half has been committed.
    pub closed spec fn is_committed(&self) -> bool {
        self.committed
    }

    /// The relay never holds more than its capacity.
    pub open spec fn wf(&self) -> bool {
        self.queue_seq().len() <= RELAY_CAPACITY
    }

    /// The outbound half is closed: committed with nothing left to drain.
    pub open spec fn outbound_closed(&self) -> bool {
        self.is_committed() && self.queue_seq().len() == 0
    }

    /// A fresh relay: empty, not committed.
    pub fn new() -> (r: MessageRelay)
        ensures
            r.wf(),
            !r.is_committed(),
            r.queue_seq().len() == 0,
    {
        MessageRelay { queue: Vec::new(), committed: false }
    }

    /// How many messages wait in the relay.
    pub fn len(&self) -> (n: usize)
        ensures
            n == self.queue_seq().len(),
    {
        self.queue.len()
    }

    /// Whether the outbound half has been committed.
    pub fn committed(&self) -> (r: bool)
        ensures
            r == self.is_committed(),
    {
        self.committed
    }

    /// Offer one caller message. It is accepted — appended in arrival
    /// order — unless the outbound half is committed or the relay is full;
    /// a refused message changes nothing.
    pub fn offer(&mut self, message: String) -> (accepted: bool)
        requires
            old(self).wf(),
        ensures
            final(self).wf(),
            final(self).is_committed() == old(self).is_committed(),
            accepted == (!old(self).is_committed() && old(self).queue_seq().len()
                < RELAY_CAPACITY),
            accepted ==> final(self).queue_seq() == old(self).queue_seq().push(message@),
            !accepted ==> final(self).queue_seq() == old(self).queue_seq(),
    {
        if self.committed || self.queue.len() >= RELAY_CAPACITY {
            return false;
        }
        self.queue.push(message);
        proof {
            assert(self.queue_seq() =~= old(self).queue_seq().push(
                self.queue@.last()@,
            ));
        }
        true
    }

    /// Close the outbound half: no further message will be accepted;
    /// queued messages stay to be drained.
    pub fn commit(&mut self)
        requires
            old(self).wf(),
        ensures
            final(self).wf(),
            final(self).is_committed(),
            final(self).queue_seq() == old(self).queue_seq(),
    {
        self.committed = true;
    }

    /// Drain the next message, in arrival order.
    pub fn take_next(&mut self) -> (r: Option<String>)
        requires
            old(self).wf(),
        ensures
            final(self).wf(),
            final(self).is_committed() == old(self).is_committed(),
            old(self).queue_seq().len() == 0 ==> (r is None && final(self).queue_seq()
                == old(self).queue_seq()),
            old(self).queue_seq().len() > 0 ==> (r matches Some(m) && m@ == old(
                self,
            ).queue_seq()[0] && final(self).queue_seq() == old(self).queue_seq().subrange(
                1,
                old(self).queue_seq().len() as int,
            )),
    {
        if self.queue.len() == 0 {
            return None;
        }
        let m = self.queue.remove(0);
        proof {
            assert(self.queue_seq() =~= old(self).queue_seq().subrange(
                1,
                old(self).queue_seq().len() as int,
            ));
        }
        Some(m)
    }
}

/// An empty request stream is valid: committing with no message queued
/// closes the outbound half at once, and nothing more is owed before the
/// response may arrive.
pub proof fn lemma_empty_commit_closes_outbound(r: MessageRelay)
    requires
        r.wf(),
        r.is_committed(),
        r.queue_seq().len() == 0,
    ensures
        r.outbound_closed(),
{
}

} // verus!
