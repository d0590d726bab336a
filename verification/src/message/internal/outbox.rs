//! The per-agent outbox and the shared address directory.  Delivery
//! drains every pending entry exactly once: each recipient's inbox is
//! looked up in the directory and pushed to under a timeout-bounded
//! exclusive lock, and the entries whose lock attempt times out or whose
//! recipient is unregistered are aggregated into one send failure, never
//! retried by the core.

use vstd::prelude::*;

use crate::message::MessageFlush;
use crate::message::MessageQueue;
use crate::message::Outbox;
use crate::message::error::AbortedMessage;
use crate::message::error::MessageError;
use crate::message::error::MessageErrorKind;
use crate::utils::store::KeyedStore;
use crate::utils::store::distinct_keys;
use crate::utils::store::lemma_pairs_to_map_dom;
use crate::utils::store::lemma_pairs_to_map_index;
use crate::utils::store::pairs_to_map;
use crate::utils::sync::GreedyCell;
use crate::utils::sync::GreedyLock;

use super::inbox::AgentInbox;

verus! {

/// The default bound, in milliseconds, on one exclusive-push wait
/// during delivery.
pub const DEFAULT_SEND_TIMEOUT_MILLIS: u64 = 100;

/// A recipient delivery cannot reach under the directory `addrs`: the
/// identity is not registered, or the registered inbox is held.
pub open spec fn undeliverable<M>(
    addrs: Map<usize, GreedyCell<AgentInbox<M>>>,
    id: usize,
) -> bool {
    !addrs.dom().contains(id) || !(addrs[id].lock_state() is Free)
}

/// `ab` holds exactly one (sender, recipient, message) triple for each
/// pending entry whose recipient delivery could not reach.
pub open spec fn aborted_exactly<M>(
    ab: Seq<(usize, usize, M)>,
    sender: usize,
    unsent: Map<usize, M>,
    addrs: Map<usize, GreedyCell<AgentInbox<M>>>,
) -> bool {
    &&& forall|i: int, j: int|
        0 <= i < j < ab.len() ==> (#[trigger] ab[i]).1 != (#[trigger] ab[j]).1
    &&& forall|i: int|
        0 <= i < ab.len() ==> (#[trigger] ab[i]).0 == sender && unsent.contains_pair(
            ab[i].1,
            ab[i].2,
        ) && undeliverable(addrs, ab[i].1)
    &&& forall|id: usize|
        #[trigger] unsent.dom().contains(id) && undeliverable(addrs, id) ==> exists|i: int|
            0 <= i < ab.len() && #[trigger] ab[i] == (sender, id, unsent[id])
}

/// Some pair at or after position `from` carries the key `id`.
spec fn key_in_range<M>(p: Seq<(usize, M)>, from: int, id: usize) -> bool {
    exists|j: int| from <= j < p.len() && (#[trigger] p[j]).0 == id
}

/// The messages an agent has queued and not yet flushed, keyed by
/// recipient identity, together with the agent's own identity, which
/// every delivered message names as its sender.
#[derive(Debug)]
pub struct AgentOutbox<M> {
    unsent_messages: KeyedStore<M>,
    agent_identity: usize,
}

impl<M> AgentOutbox<M> {
    /// The identity every delivered message names as its sender.
    pub closed spec fn spec_identity(&self) -> usize {
        self.agent_identity
    }

    /// A fresh outbox for the agent `id`, with nothing pending.
    pub fn new(id: usize) -> (r: Self)
        ensures
            r.queue_wf(),
            r.queue() == Map::<usize, M>::empty(),
            r.spec_identity() == id,
    {
        AgentOutbox { unsent_messages: KeyedStore::new(), agent_identity: id }
    }

    /// The pending messages, for reading from outside.
    pub fn get_unsent_messages(&self) -> (r: &KeyedStore<M>)
        ensures
            r@ == self.queue(),
            self.queue_wf() ==> r.wf(),
    {
        &self.unsent_messages
    }

    /// Wrap the outbox in a guarded cell for shared access.
    pub fn into_cell(self) -> (r: GreedyCell<Self>)
        ensures
            r.lock_state() is Free,
            r.stored() == self,
    {
        GreedyCell::new(self)
    }
}

impl<M> MessageQueue<M> for AgentOutbox<M> {
    closed spec fn queue(&self) -> Map<usize, M> {
        self.unsent_messages@
    }

    closed spec fn queue_wf(&self) -> bool {
        self.unsent_messages.wf()
    }

    fn push(&mut self, id: usize, msg: M)
        ensures
            final(self).spec_identity() == old(self).spec_identity(),
    {
        self.unsent_messages.insert(id, msg);
    }

    fn pop(&mut self) -> (r: Option<(usize, M)>)
        ensures
            final(self).spec_identity() == old(self).spec_identity(),
    {
        proof {
            self.unsent_messages.lemma_view();
            if self.unsent_messages.pairs().len() == 0 {
                assert(self.unsent_messages@ =~= Map::<usize, M>::empty());
            }
        }
        self.unsent_messages.pop()
    }
}

impl<M> MessageFlush<M> for AgentOutbox<M> {
    fn flush_messages(&mut self) -> (r: Vec<(usize, M)>)
        ensures
            final(self).spec_identity() == old(self).spec_identity(),
    {
        proof {
            self.unsent_messages.lemma_view();
        }
        self.unsent_messages.drain()
    }
}

impl<M> Outbox<M> for AgentOutbox<M> {
    type Output = Result<(), MessageError<M>>;

    open spec fn outbox_wf(&self) -> bool {
        self.queue_wf()
    }

    /// Drain every pending entry; deliver each into its recipient's
    /// inbox under a timeout-bounded exclusive lock, and aggregate the
    /// entries that could not be delivered.  Every drained entry is
    /// consumed exactly once whatever its outcome: a failed delivery
    /// must be re-queued by the caller to be retried.
    #[verifier::rlimit(80)]
    fn try_send(&mut self, addresses: &mut AddressCollection<M>) -> (r: Result<
        (),
        MessageError<M>,
    >)
        ensures
            final(self).queue_wf(),
            final(self).queue() == Map::<usize, M>::empty(),
            final(self).spec_identity() == old(self).spec_identity(),
            final(addresses).addr_map().dom() == old(addresses).addr_map().dom(),
            forall|id: usize|
                old(addresses).addr_map().dom().contains(id) && !old(self).queue().dom().contains(
                    id,
                ) ==> final(addresses).addr_map()[id] == old(addresses).addr_map()[id],
            forall|id: usize|
                #[trigger] old(self).queue().dom().contains(id) && !undeliverable(
                    old(addresses).addr_map(),
                    id,
                ) ==> final(addresses).addr_map()[id].lock_state() is Free && final(addresses).addr_map()[id].stored().queue() == old(addresses).addr_map()[id].stored().queue(
                ).insert(old(self).spec_identity(), old(self).queue()[id]),
            forall|id: usize|
                #[trigger] old(self).queue().dom().contains(id) && old(addresses).addr_map().dom().contains(id) && undeliverable(old(addresses).addr_map(), id)
                    ==> final(addresses).addr_map()[id] == old(addresses).addr_map()[id],
            (r is Ok <==> (forall|id: usize|
                #[trigger] old(self).queue().dom().contains(id) ==> !undeliverable(
                    old(addresses).addr_map(),
                    id,
                ))),
            r matches Err(e) ==> e.aborted().len() > 0 && aborted_exactly(
                e.aborted(),
                old(self).spec_identity(),
                old(self).queue(),
                old(addresses).addr_map(),
            ),
    {
        let sender: usize = self.agent_identity;
        let mut pending: Vec<(usize, M)> = self.flush_messages();
        let ghost p0 = pending@;
        let ghost u = pairs_to_map(p0);
        let mut work: AddressCollection<M> = AddressCollection::default();
        core::mem::swap(addresses, &mut work);
        let ghost a0 = work.addr_map();
        let mut aborted: Vec<AbortedMessage<M>> = Vec::new();

        proof {
            assert(pending@ == p0.subrange(0, pending@.len() as int));
        }
        while pending.len() > 0
            invariant
                distinct_keys(p0),
                pending@.len() <= p0.len(),
                pending@ == p0.subrange(0, pending@.len() as int),
                work.wf(),
                work.addr_map().dom() == a0.dom(),
                forall|id: usize|
                    a0.dom().contains(id) && !key_in_range(p0, pending@.len() as int, id)
                        ==> work.addr_map()[id] == a0[id],
                forall|j: int|
                    pending@.len() <= j < p0.len() && !undeliverable(a0, (#[trigger] p0[j]).0)
                        ==> work.addr_map()[p0[j].0].lock_state() is Free
                        && work.addr_map()[p0[j].0].stored().queue() == a0[p0[j].0].stored().queue().insert(sender, p0[j].1),
                forall|j: int|
                    pending@.len() <= j < p0.len() && undeliverable(a0, (#[trigger] p0[j]).0)
                        && a0.dom().contains(p0[j].0) ==> work.addr_map()[p0[j].0] == a0[p0[j].0],
                aborted_invariant(p0, pending@.len() as int, a0, sender, aborted@),
            decreases pending.len(),
        {
            let ghost k = pending@.len() as int;
            let popped: Option<(usize, M)> = pending.pop();
            proof {
                assert(p0.subrange(0, k)[k - 1] == p0[k - 1]);
                assert(pending@ =~= p0.subrange(0, pending@.len() as int));
            }
            match popped {
                Some((recipient_id, message)) => {
                    let ghost j0 = k - 1;
                    proof {
                        assert(p0[j0] == (recipient_id, message));
                        // the popped key is fresh: every later position carries
                        // another key, so the registry still holds its original
                        // cell for this recipient
                        assert(!key_in_range(p0, k, recipient_id)) by {
                            assert forall|j: int|
                                k <= j < p0.len() implies (#[trigger] p0[j]).0
                                != recipient_id by {
                                assert(p0[j0].0 == recipient_id);
                            }
                        }
                    }
                    let ghost ab_before = aborted@;
                    let ghost work_before = work.addr_map();
                    proof {
                        assert(a0.dom().contains(recipient_id) ==> work_before[recipient_id]
                            == a0[recipient_id]);
                        assert(undeliverable(work_before, recipient_id) == undeliverable(
                            a0,
                            recipient_id,
                        ));
                    }
                    match deliver_one(&mut work, sender, recipient_id, message) {
                        Some(aborted_message) => {
                            let ghost stepped = aborted_message;
                            aborted.push(aborted_message);
                            proof {
                                lemma_aborted_step(p0, k, a0, sender, ab_before, aborted@, Some(stepped));
                            }
                        },
                        None => {
                            proof {
                                lemma_aborted_step(p0, k, a0, sender, ab_before, aborted@, None);
                            }
                        },
                    }
                },
                None => {
                    proof {
                        assert(false);  // the loop runs only while entries remain
                    }
                },
            }
        }
        proof {
            assert(pending@.len() == 0);
            lemma_try_send_wrapup(p0, u, a0, work.addr_map(), sender, aborted@);
        }
        core::mem::swap(addresses, &mut work);
        if aborted.is_empty() {
            Ok(())
        } else {
            let failure: MessageErrorKind<M> = MessageErrorKind::AbortedMessages(aborted);
            Err(MessageError::from(failure))
        }
    }
}

/// The delivery loop's bookkeeping of aborted deliveries: the recorded
/// triples correspond exactly, with pairwise-distinct recipients, to the
/// undeliverable recipients among the already-processed positions.
spec fn aborted_invariant<M>(
    p0: Seq<(usize, M)>,
    from: int,
    a0: Map<usize, GreedyCell<AgentInbox<M>>>,
    sender: usize,
    ab: Seq<AbortedMessage<M>>,
) -> bool {
    &&& forall|i1: int, i2: int|
        0 <= i1 < i2 < ab.len() ==> (#[trigger] ab[i1])@.1 != (#[trigger] ab[i2])@.1
    &&& forall|i: int|
        #![trigger ab[i]]
        0 <= i < ab.len() ==> ab[i]@.0 == sender && (exists|j: int|
            #![trigger p0[j]]
            from <= j < p0.len() && ab[i]@ == (sender, p0[j].0, p0[j].1) && undeliverable(
                a0,
                p0[j].0,
            ))
    &&& forall|j: int|
        #![trigger p0[j]]
        from <= j < p0.len() && undeliverable(a0, p0[j].0) ==> exists|i: int|
            #![trigger ab[i]]
            0 <= i < ab.len() && ab[i]@ == (sender, p0[j].0, p0[j].1)
}

/// One delivery step keeps the aborted-delivery bookkeeping exact.
#[verifier::rlimit(60)]
proof fn lemma_aborted_step<M>(
    p0: Seq<(usize, M)>,
    k: int,
    a0: Map<usize, GreedyCell<AgentInbox<M>>>,
    sender: usize,
    ab_before: Seq<AbortedMessage<M>>,
    ab_now: Seq<AbortedMessage<M>>,
    step: Option<AbortedMessage<M>>,
)
    requires
        0 < k <= p0.len(),
        distinct_keys(p0),
        aborted_invariant(p0, k, a0, sender, ab_before),
        match step {
            Some(a) => undeliverable(a0, p0[k - 1].0) && ab_now == ab_before.push(a) && a@ == (
            sender,
            p0[k - 1].0,
            p0[k - 1].1,
            ),
            None => !undeliverable(a0, p0[k - 1].0) && ab_now == ab_before,
        },
    ensures
        aborted_invariant(p0, k - 1, a0, sender, ab_now),
{
    match step {
        Some(a) => {
            assert forall|i1: int, i2: int|
                0 <= i1 < i2 < ab_now.len() implies (#[trigger] ab_now[i1])@.1 != (
            #[trigger] ab_now[i2])@.1 by {
                if i2 == ab_now.len() - 1 {
                    assert(ab_now[i1] == ab_before[i1]);
                    let j = choose|j: int|
                        #![trigger p0[j]]
                        k <= j < p0.len() && ab_before[i1]@ == (sender, p0[j].0, p0[j].1)
                            && undeliverable(a0, p0[j].0);
                    assert(p0[j].0 != p0[k - 1].0);
                }
            }
            assert forall|i: int| #![trigger ab_now[i]] 0 <= i < ab_now.len() implies ab_now[i]@.0
                == sender && (exists|j: int|
                #![trigger p0[j]]
                k - 1 <= j < p0.len() && ab_now[i]@ == (sender, p0[j].0, p0[j].1)
                    && undeliverable(a0, p0[j].0)) by {
                if i < ab_before.len() {
                    assert(ab_now[i] == ab_before[i]);
                    let j = choose|j: int|
                        #![trigger p0[j]]
                        k <= j < p0.len() && ab_before[i]@ == (sender, p0[j].0, p0[j].1)
                            && undeliverable(a0, p0[j].0);
                    assert(k - 1 <= j < p0.len() && ab_now[i]@ == (sender, p0[j].0, p0[j].1)
                        && undeliverable(a0, p0[j].0));
                } else {
                    assert(ab_now[i] == a);
                    let j = k - 1;
                    assert(k - 1 <= j < p0.len() && ab_now[i]@ == (sender, p0[j].0, p0[j].1)
                        && undeliverable(a0, p0[j].0));
                }
            }
            assert forall|j: int|
                #![trigger p0[j]]
                k - 1 <= j < p0.len() && undeliverable(a0, p0[j].0) implies exists|i: int|
                #![trigger ab_now[i]]
                0 <= i < ab_now.len() && ab_now[i]@ == (sender, p0[j].0, p0[j].1) by {
                if j == k - 1 {
                    let i = ab_now.len() - 1;
                    assert(0 <= i < ab_now.len() && ab_now[i]@ == (sender, p0[j].0, p0[j].1));
                } else {
                    let i = choose|i: int|
                        #![trigger ab_before[i]]
                        0 <= i < ab_before.len() && ab_before[i]@ == (sender, p0[j].0, p0[j].1);
                    assert(ab_now[i] == ab_before[i]);
                    assert(0 <= i < ab_now.len() && ab_now[i]@ == (sender, p0[j].0, p0[j].1));
                }
            }
        },
        None => {
            assert forall|i: int| #![trigger ab_now[i]] 0 <= i < ab_now.len() implies ab_now[i]@.0
                == sender && (exists|j: int|
                #![trigger p0[j]]
                k - 1 <= j < p0.len() && ab_now[i]@ == (sender, p0[j].0, p0[j].1)
                    && undeliverable(a0, p0[j].0)) by {
                assert(ab_now[i] == ab_before[i]);
                let j = choose|j: int|
                    #![trigger p0[j]]
                    k <= j < p0.len() && ab_before[i]@ == (sender, p0[j].0, p0[j].1)
                        && undeliverable(a0, p0[j].0);
                assert(k - 1 <= j < p0.len() && ab_now[i]@ == (sender, p0[j].0, p0[j].1)
                    && undeliverable(a0, p0[j].0));
            }
            assert forall|j: int|
                #![trigger p0[j]]
                k - 1 <= j < p0.len() && undeliverable(a0, p0[j].0) implies exists|i: int|
                #![trigger ab_now[i]]
                0 <= i < ab_now.len() && ab_now[i]@ == (sender, p0[j].0, p0[j].1) by {
                assert(j != k - 1);
                let i = choose|i: int|
                    #![trigger ab_before[i]]
                    0 <= i < ab_before.len() && ab_before[i]@ == (sender, p0[j].0, p0[j].1);
                assert(ab_now[i] == ab_before[i]);
                assert(0 <= i < ab_now.len() && ab_now[i]@ == (sender, p0[j].0, p0[j].1));
            }
        },
    }
}

/// Deliver one drained entry: look the recipient up in the directory and
/// attempt a timeout-bounded exclusive push into its inbox, handing back
/// the aborted-delivery record if the recipient is unregistered or its
/// inbox could not be locked in time.
fn deliver_one<M>(
    work: &mut AddressCollection<M>,
    sender: usize,
    recipient_id: usize,
    message: M,
) -> (r: Option<AbortedMessage<M>>)
    requires
        old(work).wf(),
    ensures
        final(work).wf(),
        final(work).addr_map().dom() == old(work).addr_map().dom(),
        forall|id: usize|
            id != recipient_id && old(work).addr_map().dom().contains(id) ==> final(work).addr_map()[id] == old(work).addr_map()[id],
        !undeliverable(old(work).addr_map(), recipient_id) ==> r is None && final(work).addr_map()[recipient_id].lock_state() is Free && final(work).addr_map()[recipient_id].stored().queue() == old(work).addr_map()[recipient_id].stored().queue().insert(sender, message),
        undeliverable(old(work).addr_map(), recipient_id) ==> (r matches Some(a) && a@ == (
        sender,
        recipient_id,
        message,
        )) && (old(work).addr_map().dom().contains(recipient_id) ==> final(work).addr_map()[recipient_id] == old(work).addr_map()[recipient_id]),
{
    proof {
        if old(work).addr_map().dom().contains(recipient_id) {
            assert(old(work).addr_map()[recipient_id].stored().queue_wf());
        }
    }
    if work.addresses.contains(recipient_id) {
        let cell: &mut GreedyCell<AgentInbox<M>> = work.addresses.get_mut(recipient_id);
        match cell.await_greedy_lock_with_timeout(DEFAULT_SEND_TIMEOUT_MILLIS) {
            Ok(()) => {
                {
                    let locked_inbox: &mut AgentInbox<M> = cell.locked_mut();
                    locked_inbox.push(sender, message);
                }
                cell.release_exclusive();
                None
            },
            Err(_) => Some(AbortedMessage::new(sender, recipient_id, message)),
        }
    } else {
        Some(AbortedMessage::new(sender, recipient_id, message))
    }
}

/// Lift the position-indexed facts the delivery loop maintains to the
/// identity-indexed facts the contract states.
proof fn lemma_try_send_wrapup<M>(
    p0: Seq<(usize, M)>,
    u: Map<usize, M>,
    a0: Map<usize, GreedyCell<AgentInbox<M>>>,
    a1: Map<usize, GreedyCell<AgentInbox<M>>>,
    sender: usize,
    ab: Seq<AbortedMessage<M>>,
)
    requires
        distinct_keys(p0),
        u == pairs_to_map(p0),
        a1.dom() == a0.dom(),
        forall|id: usize| a0.dom().contains(id) && !key_in_range(p0, 0, id) ==> a1[id] == a0[id],
        forall|j: int|
            0 <= j < p0.len() && !undeliverable(a0, (#[trigger] p0[j]).0) ==> a1[p0[j].0].lock_state() is Free && a1[p0[j].0].stored().queue() == a0[p0[j].0].stored().queue().insert(sender, p0[j].1),
        forall|j: int|
            0 <= j < p0.len() && undeliverable(a0, (#[trigger] p0[j]).0) && a0.dom().contains(
                p0[j].0,
            ) ==> a1[p0[j].0] == a0[p0[j].0],
        aborted_invariant(p0, 0, a0, sender, ab),
    ensures
        forall|id: usize|
            a0.dom().contains(id) && !u.dom().contains(id) ==> a1[id] == a0[id],
        forall|id: usize|
            #[trigger] u.dom().contains(id) && !undeliverable(a0, id) ==> a1[id].lock_state()
                is Free && a1[id].stored().queue() == a0[id].stored().queue().insert(
                sender,
                u[id],
            ),
        forall|id: usize|
            #[trigger] u.dom().contains(id) && a0.dom().contains(id) && undeliverable(a0, id)
                ==> a1[id] == a0[id],
        (ab.len() == 0 <==> (forall|id: usize|
            #[trigger] u.dom().contains(id) ==> !undeliverable(a0, id))),
        aborted_exactly(ab.map_values(|a: AbortedMessage<M>| a@), sender, u, a0),
{
    assert forall|id: usize|
        a0.dom().contains(id) && !u.dom().contains(id) implies a1[id] == a0[id] by {
        lemma_pairs_to_map_dom(p0, id);
    }
    assert forall|id: usize|
        #[trigger] u.dom().contains(id) && !undeliverable(a0, id) implies a1[id].lock_state()
        is Free && a1[id].stored().queue() == a0[id].stored().queue().insert(sender, u[id]) by {
        lemma_pairs_to_map_dom(p0, id);
        let j = choose|j: int| 0 <= j < p0.len() && (#[trigger] p0[j]).0 == id;
        lemma_pairs_to_map_index(p0, j);
    }
    assert forall|id: usize|
        #[trigger] u.dom().contains(id) && a0.dom().contains(id) && undeliverable(a0, id) implies
        a1[id] == a0[id] by {
        lemma_pairs_to_map_dom(p0, id);
        let j = choose|j: int| 0 <= j < p0.len() && (#[trigger] p0[j]).0 == id;
    }
    if ab.len() == 0 {
        assert forall|id: usize|
            #[trigger] u.dom().contains(id) implies !undeliverable(a0, id) by {
            lemma_pairs_to_map_dom(p0, id);
            let j = choose|j: int| 0 <= j < p0.len() && (#[trigger] p0[j]).0 == id;
        }
    } else {
        let j = choose|j: int|
            0 <= j < p0.len() && (ab[0])@ == (sender, p0[j].0, p0[j].1) && undeliverable(
                a0,
                p0[j].0,
            );
        lemma_pairs_to_map_dom(p0, p0[j].0);
        assert(u.dom().contains(p0[j].0) && undeliverable(a0, p0[j].0));
    }
    let abv = ab.map_values(|a: AbortedMessage<M>| a@);
    assert forall|i: int| 0 <= i < abv.len() implies (#[trigger] abv[i]).0 == sender
        && u.contains_pair(abv[i].1, abv[i].2) && undeliverable(a0, abv[i].1) by {
        assert(abv[i] == ab[i]@);
        let j = choose|j: int|
            0 <= j < p0.len() && (ab[i])@ == (sender, p0[j].0, p0[j].1) && undeliverable(
                a0,
                p0[j].0,
            );
        lemma_pairs_to_map_index(p0, j);
    }
    assert forall|id: usize|
        #[trigger] u.dom().contains(id) && undeliverable(a0, id) implies exists|i: int|
        0 <= i < abv.len() && #[trigger] abv[i] == (sender, id, u[id]) by {
        lemma_pairs_to_map_dom(p0, id);
        let j = choose|j: int| 0 <= j < p0.len() && (#[trigger] p0[j]).0 == id;
        lemma_pairs_to_map_index(p0, j);
        let i = choose|i: int|
            0 <= i < ab.len() && (#[trigger] ab[i])@ == (sender, p0[j].0, p0[j].1);
        assert(abv[i] == ab[i]@);
        assert(abv[i] == (sender, id, u[id]));
    }
    assert forall|i1: int, i2: int|
        0 <= i1 < i2 < abv.len() implies (#[trigger] abv[i1]).1 != (#[trigger] abv[i2]).1 by {
        assert(abv[i1] == ab[i1]@);
        assert(abv[i2] == ab[i2]@);
    }
}

/// The process-wide directory mapping agent identity to that agent's
/// guarded inbox; built incrementally as agents are created, with later
/// registration under an existing identity replacing the routing
/// target.  It owns every inbox it routes to.
#[derive(Debug)]
pub struct AddressCollection<M> {
    addresses: KeyedStore<GreedyCell<AgentInbox<M>>>,
}

impl<M> AddressCollection<M> {
    /// The directory's routing table.
    pub closed spec fn addr_map(&self) -> Map<usize, GreedyCell<AgentInbox<M>>> {
        self.addresses@
    }

    /// The directory's backing store is well formed.
    pub closed spec fn store_wf(&self) -> bool {
        self.addresses.wf()
    }

    /// Well-formed: the backing store is, and so is every inbox it
    /// routes to.
    pub open spec fn wf(&self) -> bool {
        &&& self.store_wf()
        &&& forall|id: usize|
            self.addr_map().dom().contains(id) ==> (
            #[trigger] self.addr_map()[id]).stored().queue_wf()
    }

    /// Wrap the directory in a guarded cell for shared access.
    pub fn into_cell(self) -> (r: GreedyCell<Self>)
        ensures
            r.lock_state() is Free,
            r.stored() == self,
    {
        GreedyCell::new(self)
    }

    /// Idempotent insert/overwrite: `id` now routes to `inbox`.
    pub fn register(&mut self, id: usize, inbox: AgentInbox<M>)
        requires
            old(self).wf(),
            inbox.queue_wf(),
        ensures
            final(self).wf(),
            final(self).addr_map().dom() == old(self).addr_map().dom().insert(id),
            final(self).addr_map()[id].lock_state() is Free,
            final(self).addr_map()[id].stored() == inbox,
            forall|other: usize|
                other != id && old(self).addr_map().dom().contains(other) ==> final(self).addr_map()[other] == old(self).addr_map()[other],
    {
        let cell: GreedyCell<AgentInbox<M>> = GreedyCell::new(inbox);
        self.addresses.insert(id, cell);
        proof {
            assert(self.addresses@.dom() =~= old(self).addr_map().dom().insert(id));
        }
    }

    /// The routing table itself, for direct mutation from outside.
    pub fn get_addresses(&mut self) -> (r: &mut KeyedStore<GreedyCell<AgentInbox<M>>>)
        ensures
            r@ == old(self).addr_map(),
            old(self).store_wf() ==> r.wf(),
            final(self).addr_map() == final(r)@,
            final(r).wf() ==> final(self).store_wf(),
    {
        &mut self.addresses
    }
}

impl<M> Default for AddressCollection<M> {
    /// A fresh directory routes nothing.
    fn default() -> (r: Self)
        ensures
            r.wf(),
            r.addr_map() == Map::<usize, GreedyCell<AgentInbox<M>>>::empty(),
    {
        AddressCollection { addresses: KeyedStore::new() }
    }
}

} // verus!
