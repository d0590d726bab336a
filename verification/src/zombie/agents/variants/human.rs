//! The human variant: it moves, reports sightings to allies, shares
//! health with them, and skirmishes with zombies.

use vstd::prelude::*;

use crate::context::GridPosition;
use crate::context::grid::Grid;
use crate::message::AddressCollection;
use crate::message::MessageError;
use crate::message::MessageQueue;
use crate::message::Outbox;
use crate::zombie::agents::Agent;
use crate::zombie::agents::DeadOrAlive;
use crate::zombie::agents::GetPackage;
use crate::zombie::agents::Kind;
use crate::zombie::agents::Message;
use crate::zombie::agents::actions::interaction::Communication;
use crate::zombie::agents::actions::interaction::Restoration;
use crate::zombie::agents::actions::movement::Movement;
use crate::zombie::agents::actions::tile::Selection;
use crate::zombie::agents::package::Observer;
use crate::zombie::agents::package::Package;

verus! {

/// A human agent.
pub struct Human {
    kind: Kind,
    package: Package,
}

impl Human {
    /// Wrap a package as a human agent.
    pub fn new(package: Package) -> (r: Self)
        ensures
            r.spec_package() == package,
    {
        Self { kind: Kind::Human, package }
    }

    /// Pick the next tile, scoring the four neighbors with the drained
    /// sighting reports.
    pub fn select_tile(
        &self,
        grid: &Grid<usize>,
        roster: &Vec<Package>,
        observer: &Observer,
        addresses: &mut AddressCollection<Message>,
    ) -> (r: Option<GridPosition>)
        requires
            grid.wf(),
            grid.in_range(self.spec_package().spec_position().spec_tile()),
            old(addresses).wf(),
            old(addresses).addr_map().dom().contains(
                self.spec_package().spec_comm().agent_inbox,
            ),
            old(addresses).addr_map()[self.spec_package().spec_comm().agent_inbox].lock_state()
                is Free,
            0 <= observer.zombie_count,
        ensures
            final(addresses).wf(),
            final(addresses).addr_map().dom() == old(addresses).addr_map().dom(),
            r is Some,
            r matches Some(gp) ==> grid.in_range(gp.spec_tile()),
    {
        Selection::new(&self.package).select_tile_from_grid(grid, roster, observer, addresses)
    }

    /// Step onto the selected tile, which must be empty.
    pub fn walk_to(&mut self, new: GridPosition, grid: &mut Grid<usize>)
        requires
            old(grid).wf(),
            old(grid).in_range(old(self).spec_package().spec_position().spec_tile()),
            old(grid).in_range(new.spec_tile()),
            old(self).spec_package().spec_position().spec_tile() != new.spec_tile(),
            old(grid).spec_state_at(new.spec_tile()) is Empty,
        ensures
            final(grid).wf(),
            final(grid).spec_rows() == old(grid).spec_rows(),
            final(grid).spec_cols() == old(grid).spec_cols(),
            final(self).spec_package().spec_position() == new,
            final(grid).spec_state_at(new.spec_tile()) == old(grid).spec_state_at(
                old(self).spec_package().spec_position().spec_tile(),
            ),
            final(grid).spec_state_at(
                old(self).spec_package().spec_position().spec_tile(),
            ) is Empty,
    {
        Movement::new(new).step(&mut self.package, grid)
    }

    /// Report ally and enemy sightings to another agent and flush the
    /// outbox toward it.
    pub fn communicate_with(
        &mut self,
        other_id: usize,
        grid: &Grid<usize>,
        roster: &Vec<Package>,
        addresses: &mut AddressCollection<Message>,
    ) -> (r: Result<(), MessageError<Message>>)
        requires
            grid.wf(),
            grid.in_range(old(self).spec_package().spec_position().spec_tile()),
            old(self).spec_package().spec_comm().agent_outbox.queue_wf(),
            old(self).spec_package().spec_comm().agent_outbox.queue() == Map::<
                usize,
                Message,
            >::empty(),
            old(addresses).wf(),
        ensures
            final(addresses).wf(),
            final(addresses).addr_map().dom() == old(addresses).addr_map().dom(),
            final(self).spec_package().spec_comm().agent_outbox.queue_wf(),
            final(self).spec_package().spec_comm().agent_outbox.queue() == Map::<
                usize,
                Message,
            >::empty(),
    {
        let loaded = Communication::new(other_id, &self.package).find_allies(
            grid,
            roster,
        ).find_enemies(grid, roster);
        let messenger = self.package.as_messenger_mut();
        loaded.prepare(&mut messenger.agent_outbox);
        messenger.agent_outbox.try_send(addresses)
    }

    /// Give part of this human's health to an ally.
    pub fn give_health_to(&mut self, other: &mut Package)
        requires
            0 <= old(self).spec_package().spec_stats().health,
            old(other).spec_stats().health + old(self).spec_package().spec_stats().health / 10
                <= i64::MAX,
        ensures
            ({
                let h = old(self).spec_package().spec_stats().health as int;
                let gifted = h / 10;
                if h - gifted > h / 5 {
                    &&& final(self).spec_package().spec_stats().health == h - gifted
                    &&& final(other).spec_stats().health == old(other).spec_stats().health + gifted
                } else {
                    &&& final(self).spec_package().spec_stats().health == old(
                        self,
                    ).spec_package().spec_stats().health
                    &&& final(other).spec_stats().health == old(other).spec_stats().health
                }
            }),
    {
        Restoration::new().give_health(&mut self.package, other)
    }
}

impl GetPackage for Human {
    closed spec fn spec_package(&self) -> Package {
        self.package
    }

    fn get_package(&self) -> (r: &Package) {
        &self.package
    }

    fn get_package_mut(&mut self) -> (r: &mut Package) {
        &mut self.package
    }
}

impl DeadOrAlive for Human {

}

impl Agent for Human {
    fn get_id(&self) -> (r: usize) {
        self.package.get_id()
    }

    fn get_kind(&self) -> (r: &Kind) {
        self.package.as_kind()
    }

    fn kind_count(&self, observer: &Observer) -> (r: i64) {
        let is_human: bool = self.package.as_kind().is(&Kind::Human);
        if is_human {
            observer.human_count
        } else {
            observer.zombie_count
        }
    }
}

} // verus!
