//! The per-agent inbox: a mapping keyed by sender identity to the last
//! received message.  A new message from a sender overwrites an unread
//! one; there is no per-sender buffering, and iteration order carries
//! no meaning.

use vstd::prelude::*;

use crate::message::Inbox;
use crate::message::MessageFlush;
use crate::message::MessageQueue;
use crate::utils::store::KeyedStore;
use crate::utils::sync::GreedyCell;

verus! {

/// The messages an agent has received and not yet consumed, keyed by
/// sender identity.
#[derive(Debug)]
pub struct AgentInbox<M> {
    received_messages: KeyedStore<M>,
}

impl<M> AgentInbox<M> {
    /// Wrap the inbox in a guarded cell, so that concurrent pushes are
    /// serialized by the greedy lock.
    pub fn into_cell(self) -> (r: GreedyCell<Self>)
        ensures
            r.lock_state() is Free,
            r.stored() == self,
    {
        GreedyCell::new(self)
    }

    /// The received messages, for reading from outside.
    pub fn get_messages(&self) -> (r: &KeyedStore<M>)
        ensures
            r@ == self.queue(),
            self.queue_wf() ==> r.wf(),
    {
        &self.received_messages
    }
}

impl<M> Default for AgentInbox<M> {
    /// A fresh inbox is empty.
    fn default() -> (r: Self)
        ensures
            r.queue_wf(),
            r.queue() == Map::<usize, M>::empty(),
    {
        AgentInbox { received_messages: KeyedStore::new() }
    }
}

impl<M> MessageQueue<M> for AgentInbox<M> {
    closed spec fn queue(&self) -> Map<usize, M> {
        self.received_messages@
    }

    closed spec fn queue_wf(&self) -> bool {
        self.received_messages.wf()
    }

    fn push(&mut self, id: usize, msg: M) {
        self.received_messages.insert(id, msg);
    }

    fn pop(&mut self) -> (r: Option<(usize, M)>) {
        proof {
            self.received_messages.lemma_view();
            if self.received_messages.pairs().len() == 0 {
                assert(self.received_messages@ =~= Map::<usize, M>::empty());
            }
        }
        self.received_messages.pop()
    }
}

impl<M> MessageFlush<M> for AgentInbox<M> {
    fn flush_messages(&mut self) -> (r: Vec<(usize, M)>) {
        proof {
            self.received_messages.lemma_view();
        }
        self.received_messages.drain()
    }
}

impl<M> Inbox<M> for AgentInbox<M> {
    fn read_msg(&self, id: usize) -> (r: Option<&M>) {
        self.received_messages.get(id)
    }
}

} // verus!
