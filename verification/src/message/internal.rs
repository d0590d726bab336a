//! The internal mailbox machinery: the per-agent inbox and outbox, the
//! shared address directory, and the message interface that bundles one
//! agent's pair and registers it.

pub mod inbox;
pub mod outbox;

use vstd::prelude::*;

use super::MessageQueue;

pub use outbox::AddressCollection;

use inbox::AgentInbox;
use outbox::AgentOutbox;

verus! {

/// One agent's inbox and outbox, bundled.  Constructing the interface
/// registers the agent's inbox into the shared directory: it is the
/// sole mechanism by which an identity becomes reachable by other
/// agents' sends.  The inbox itself lives in the directory; the
/// interface records the address it was registered under.
pub struct MessageInterface<M> {
    /// The address under which this agent's inbox is registered in the
    /// shared directory.
    pub agent_inbox: usize,
    /// This agent's outbox.
    pub agent_outbox: AgentOutbox<M>,
}

impl<M> MessageInterface<M> {
    /// Build a fresh inbox and outbox pair for `id` and register the
    /// inbox into the shared directory; registering under an existing
    /// identity replaces the routing target.
    pub fn new(id: usize, addresses: &mut AddressCollection<M>) -> (r: Self)
        requires
            old(addresses).wf(),
        ensures
            final(addresses).wf(),
            final(addresses).addr_map().dom() == old(addresses).addr_map().dom().insert(id),
            final(addresses).addr_map()[id].lock_state() is Free,
            final(addresses).addr_map()[id].stored().queue_wf(),
            final(addresses).addr_map()[id].stored().queue() == Map::<usize, M>::empty(),
            forall|other: usize|
                other != id && old(addresses).addr_map().dom().contains(other) ==> final(addresses).addr_map()[other] == old(addresses).addr_map()[other],
            r.agent_inbox == id,
            r.agent_outbox.spec_identity() == id,
            r.agent_outbox.queue_wf(),
            r.agent_outbox.queue() == Map::<usize, M>::empty(),
    {
        let agent_inbox: AgentInbox<M> = AgentInbox::default();
        addresses.register(id, agent_inbox);
        let agent_outbox: AgentOutbox<M> = AgentOutbox::new(id);
        MessageInterface { agent_inbox: id, agent_outbox }
    }
}

} // verus!
