//! Asynchronous, identity-addressed message delivery between agents
//! sharing one process-wide directory: per-agent inboxes and outboxes,
//! keyed by agent identity with overwrite-insert, and a timeout-bounded
//! delivery protocol with partial-failure aggregation.

pub mod error;
mod internal;

use vstd::prelude::*;

use crate::utils::store::distinct_keys;
use crate::utils::store::pairs_to_map;

pub use error::AbortedMessage;
pub use error::MessageError;
pub use error::MessageErrorKind;
pub use internal::AddressCollection;
pub use internal::MessageInterface;
pub use internal::inbox::AgentInbox;
pub use internal::outbox::AgentOutbox;

verus! {

/// A keyed message queue: a mapping from identity to the one pending
/// message under that identity, where a second message under the same
/// identity overwrites the first.
pub trait MessageQueue<M>: Sized {
    /// The pending messages, keyed by identity.
    spec fn queue(&self) -> Map<usize, M>;

    /// The queue's internal representation is well formed.
    spec fn queue_wf(&self) -> bool;

    /// Overwrite-insert: the message under `id` becomes `msg`.
    fn push(&mut self, id: usize, msg: M)
        requires
            old(self).queue_wf(),
        ensures
            final(self).queue_wf(),
            final(self).queue() == old(self).queue().insert(id, msg),
    ;

    /// Remove and return one arbitrary entry; which entry leaves is
    /// unspecified, so callers may rely only on membership.
    fn pop(&mut self) -> (r: Option<(usize, M)>)
        requires
            old(self).queue_wf(),
        ensures
            final(self).queue_wf(),
            match r {
                Some(p) => {
                    &&& old(self).queue().contains_pair(p.0, p.1)
                    &&& final(self).queue() == old(self).queue().remove(p.0)
                },
                None => {
                    &&& old(self).queue() == Map::<usize, M>::empty()
                    &&& final(self).queue() == old(self).queue()
                },
            },
    ;
}

/// Draining a keyed message queue: remove and return every pending
/// entry at once.
pub trait MessageFlush<M>: MessageQueue<M> {
    fn flush_messages(&mut self) -> (r: Vec<(usize, M)>)
        requires
            old(self).queue_wf(),
        ensures
            final(self).queue_wf(),
            final(self).queue() == Map::<usize, M>::empty(),
            distinct_keys(r@),
            pairs_to_map(r@) == old(self).queue(),
    ;
}

/// Reading a keyed message queue without consuming it.
pub trait Inbox<M>: MessageQueue<M> {
    fn read_msg(&self, id: usize) -> (r: Option<&M>)
        requires
            self.queue_wf(),
        ensures
            match r {
                Some(m) => self.queue().contains_pair(id, *m),
                None => !self.queue().dom().contains(id),
            },
    ;
}

/// Mailbox overwrite: pushing one message and then another from the
/// same sender, before any flush, leaves exactly the second one in the
/// queue under that sender's identity; there is no per-sender
/// buffering.  The two pushes act on the queue model that
/// `MessageQueue::push` ensures, so this holds of every inbox and
/// outbox state.
pub proof fn lemma_mailbox_overwrite<M>(q: Map<usize, M>, sender: usize, first: M, second: M)
    ensures
        q.insert(sender, first).insert(sender, second) == q.insert(sender, second),
        q.insert(sender, first).insert(sender, second)[sender] == second,
        q.insert(sender, first).insert(sender, second).dom() == q.dom().insert(sender),
{
    assert(q.insert(sender, first).insert(sender, second) =~= q.insert(sender, second));
    assert(q.insert(sender, first).insert(sender, second).dom() =~= q.dom().insert(sender));
}

/// Draining delivery of every pending entry through the shared address
/// directory.
pub trait Outbox<M>: Sized {
    type Output;

    /// The sender's internal representation is well formed.
    spec fn outbox_wf(&self) -> bool;

    /// Drain every pending entry and attempt a timeout-bounded,
    /// exclusive push of each into its recipient's inbox.
    fn try_send(&mut self, addresses: &mut AddressCollection<M>) -> (r: Self::Output)
        requires
            old(self).outbox_wf(),
            old(addresses).wf(),
        ensures
            final(self).outbox_wf(),
            final(addresses).wf(),
    ;
}

} // verus!
