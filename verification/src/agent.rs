//! One simulated agent: its message interface, its current grid
//! position, its kind, and its identity.

use vstd::prelude::*;

use crate::context::GridPosition;
use crate::message::MessageInterface;

verus! {

/// One agent: a message interface, a grid position, a kind, and an
/// identity.
pub struct Agent<M, K> {
    comm: MessageInterface<M>,
    position: GridPosition,
    kind: K,
    id: usize,
}

impl<M, K> Agent<M, K> {
    /// Where the agent currently stands.
    pub closed spec fn spec_position(&self) -> GridPosition {
        self.position
    }

    /// The agent's kind.
    pub closed spec fn spec_kind(&self) -> K {
        self.kind
    }

    /// The agent's identity.
    pub closed spec fn spec_id(&self) -> usize {
        self.id
    }

    /// The agent's message interface.
    pub closed spec fn spec_comm(&self) -> MessageInterface<M> {
        self.comm
    }

    pub fn new(comm: MessageInterface<M>, position: GridPosition, kind: K, id: usize) -> (r: Self)
        ensures
            r.spec_comm() == comm,
            r.spec_position() == position,
            r.spec_kind() == kind,
            r.spec_id() == id,
    {
        Self { comm, position, kind, id }
    }

    /// The position the agent currently stands on.
    pub fn as_tile(&self) -> (r: GridPosition)
        ensures
            r == self.spec_position(),
    {
        self.position
    }

    /// Record that the agent now stands somewhere else.
    pub fn swap_stored_position_with(&mut self, new: GridPosition)
        ensures
            final(self).spec_position() == new,
            final(self).spec_kind() == old(self).spec_kind(),
            final(self).spec_id() == old(self).spec_id(),
            final(self).spec_comm() == old(self).spec_comm(),
    {
        self.position = new;
    }

    pub fn as_messenger(&self) -> (r: &MessageInterface<M>)
        ensures
            *r == self.spec_comm(),
    {
        &self.comm
    }

    /// The message interface, mutably, for queueing and flushing.
    pub fn as_messenger_mut(&mut self) -> (r: &mut MessageInterface<M>)
        ensures
            *r == old(self).spec_comm(),
            final(self).spec_comm() == *final(r),
            final(self).spec_position() == old(self).spec_position(),
            final(self).spec_kind() == old(self).spec_kind(),
            final(self).spec_id() == old(self).spec_id(),
    {
        &mut self.comm
    }

    pub fn as_kind(&self) -> (r: &K)
        ensures
            *r == self.spec_kind(),
    {
        &self.kind
    }

    pub fn get_id(&self) -> (r: usize)
        ensures
            r == self.spec_id(),
    {
        self.id
    }
}

} // verus!
