//! Seed strategies for the scenario world.

pub mod feature;
pub mod spawn;

use vstd::prelude::*;

use crate::context::grid::PointIndex;
use crate::zombie::agents::Kind;
use crate::zombie::agents::package::Package;
use feature::FeatureSeed;
use spawn::SpawnSeed;

verus! {

/// One kind's seeding run: consecutive identities from the spawn seed,
/// hooked into the shared features.
pub struct EnvironmentSeed {
    spawn: SpawnSeed,
    feature: FeatureSeed,
}

impl EnvironmentSeed {
    pub closed spec fn spec_spawn(&self) -> SpawnSeed {
        self.spawn
    }

    pub closed spec fn spec_feature(&self) -> FeatureSeed {
        self.feature
    }

    pub fn new(spawn: SpawnSeed, feature: FeatureSeed) -> (r: Self)
        ensures
            r.spec_spawn() == spawn,
            r.spec_feature() == feature,
    {
        Self { spawn, feature }
    }

    pub fn into_box(self) -> (r: Box<Self>)
        ensures
            *r == self,
    {
        Box::new(self)
    }

    /// Surrender the shared features, once the world is built.
    pub fn into_parts(self) -> (r: (SpawnSeed, FeatureSeed))
        ensures
            r.0 == self.spec_spawn(),
            r.1 == self.spec_feature(),
    {
        (self.spawn, self.feature)
    }

    pub fn kind(&self) -> (r: Kind)
        ensures
            r == self.spec_spawn().kind,
    {
        self.spawn.kind
    }

    pub fn quantity(&self) -> (r: usize)
        ensures
            r == self.spec_spawn().quantity,
    {
        self.spawn.quantity
    }

    /// Seed one agent: draw its identity, register its mailbox, claim a
    /// position, tally it on the observer, and bundle the package.
    pub fn seed(&mut self) -> (r: Package)
        requires
            old(self).spec_spawn().count < usize::MAX,
            old(self).spec_feature().wf(),
            old(self).spec_feature().spec_grid().spec_rows() > 0,
            old(self).spec_feature().spec_grid().spec_cols() > 0,
            old(self).spec_feature().spec_occupied() < usize::MAX,
            exists|idx: PointIndex|
                old(self).spec_feature().spec_grid().in_range(idx) && (#[trigger] old(self).spec_feature().spec_grid().spec_state_at(idx)) is Empty,
            old(self).spec_spawn().kind == Kind::Human ==> old(self).spec_feature().spec_observer().human_count < i64::MAX,
            old(self).spec_spawn().kind == Kind::Zombie ==> old(self).spec_feature().spec_observer().zombie_count < i64::MAX,
        ensures
            final(self).spec_feature().wf(),
            final(self).spec_spawn().kind == old(self).spec_spawn().kind,
            final(self).spec_spawn().quantity == old(self).spec_spawn().quantity,
            final(self).spec_spawn().count == old(self).spec_spawn().count + 1,
            final(self).spec_feature().spec_grid().spec_rows() == old(self).spec_feature().spec_grid().spec_rows(),
            final(self).spec_feature().spec_grid().spec_cols() == old(self).spec_feature().spec_grid().spec_cols(),
            final(self).spec_feature().spec_occupied() == old(self).spec_feature().spec_occupied()
                + 1,
            r.spec_id() == old(self).spec_spawn().count,
            r.spec_kind() == old(self).spec_spawn().kind,
            r.spec_alive(),
            final(self).spec_feature().spec_grid().in_range(r.spec_position().spec_tile()),
            old(self).spec_feature().spec_grid().spec_state_at(
                r.spec_position().spec_tile(),
            ) is Empty,
            final(self).spec_feature().spec_grid().spec_state_at(
                r.spec_position().spec_tile(),
            ) is Claimed,
            forall|other: PointIndex|
                old(self).spec_feature().spec_grid().in_range(other) && other
                    != r.spec_position().spec_tile() ==> final(self).spec_feature().spec_grid().spec_state_at(other) == old(self).spec_feature().spec_grid().spec_state_at(other),
            old(self).spec_spawn().kind == Kind::Human ==> final(self).spec_feature().spec_observer().human_count == old(self).spec_feature().spec_observer().human_count + 1 && final(self).spec_feature().spec_observer().zombie_count == old(self).spec_feature().spec_observer().zombie_count,
            old(self).spec_spawn().kind == Kind::Zombie ==> final(self).spec_feature().spec_observer().zombie_count == old(self).spec_feature().spec_observer().zombie_count + 1 && final(self).spec_feature().spec_observer().human_count == old(self).spec_feature().spec_observer().human_count,
            final(self).spec_feature().spec_addresses().addr_map().dom() == old(self).spec_feature().spec_addresses().addr_map().dom().insert(r.spec_id()),
            r.spec_comm().agent_inbox == r.spec_id(),
    {
        let id: usize = self.spawn.new_id();
        let kind: Kind = self.spawn.kind;
        let comm = self.feature.new_communicator(id);
        let position = self.feature.new_position();
        self.feature.new_observer(&kind);
        Package::new(comm, position, kind, id)
    }
}

} // verus!
