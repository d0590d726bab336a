//! Identity and quantity seeding: each spawn seed hands out consecutive
//! identities for one kind of agent.

use vstd::prelude::*;

use crate::zombie::agents::Kind;

verus! {

/// Hands out consecutive identities for one kind.
pub struct SpawnSeed {
    pub count: usize,
    pub kind: Kind,
    pub quantity: usize,
}

impl SpawnSeed {
    pub fn new(kind: Kind, quantity: usize) -> (r: Self)
        ensures
            r.count == 0,
            r.kind == kind,
            r.quantity == quantity,
    {
        Self { count: 0, quantity, kind }
    }

    /// The next identity, counting up from zero.
    pub fn new_id(&mut self) -> (r: usize)
        requires
            old(self).count < usize::MAX,
        ensures
            r == old(self).count,
            final(self).count == old(self).count + 1,
            final(self).kind == old(self).kind,
            final(self).quantity == old(self).quantity,
    {
        let id: usize = self.count;
        self.count = self.count + 1;
        id
    }
}

} // verus!
