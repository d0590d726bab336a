//! The zombie variant: it moves and skirmishes with humans.

use vstd::prelude::*;

use crate::context::GridPosition;
use crate::context::grid::Grid;
use crate::message::AddressCollection;
use crate::zombie::agents::Agent;
use crate::zombie::agents::DeadOrAlive;
use crate::zombie::agents::GetPackage;
use crate::zombie::agents::Kind;
use crate::zombie::agents::Message;
use crate::zombie::agents::actions::movement::Movement;
use crate::zombie::agents::actions::tile::Selection;
use crate::zombie::agents::package::Observer;
use crate::zombie::agents::package::Package;

verus! {

/// A zombie agent.
pub struct Zombie {
    package: Package,
}

impl Zombie {
    /// Wrap a package as a zombie agent.
    pub fn new(package: Package) -> (r: Self)
        ensures
            r.spec_package() == package,
    {
        Self { package }
    }

    /// Pick the next tile, scoring the four neighbors with the drained
    /// sighting reports.
    pub fn select_tile(
        &self,
        grid: &Grid<usize>,
        roster: &Vec<Package>,
        observer: &Observer,
        addresses: &mut AddressCollection<Message>,
    ) -> (r: Option<GridPosition>)
        requires
            grid.wf(),
            grid.in_range(self.spec_package().spec_position().spec_tile()),
            old(addresses).wf(),
            old(addresses).addr_map().dom().contains(
                self.spec_package().spec_comm().agent_inbox,
            ),
            old(addresses).addr_map()[self.spec_package().spec_comm().agent_inbox].lock_state()
                is Free,
            0 <= observer.zombie_count,
        ensures
            final(addresses).wf(),
            final(addresses).addr_map().dom() == old(addresses).addr_map().dom(),
            r is Some,
            r matches Some(gp) ==> grid.in_range(gp.spec_tile()),
    {
        Selection::new(&self.package).select_tile_from_grid(grid, roster, observer, addresses)
    }

    /// Step onto the selected tile, which must be empty.
    pub fn walk_to(&mut self, new: GridPosition, grid: &mut Grid<usize>)
        requires
            old(grid).wf(),
            old(grid).in_range(old(self).spec_package().spec_position().spec_tile()),
            old(grid).in_range(new.spec_tile()),
            old(self).spec_package().spec_position().spec_tile() != new.spec_tile(),
            old(grid).spec_state_at(new.spec_tile()) is Empty,
        ensures
            final(grid).wf(),
            final(grid).spec_rows() == old(grid).spec_rows(),
            final(grid).spec_cols() == old(grid).spec_cols(),
            final(self).spec_package().spec_position() == new,
            final(grid).spec_state_at(new.spec_tile()) == old(grid).spec_state_at(
                old(self).spec_package().spec_position().spec_tile(),
            ),
            final(grid).spec_state_at(
                old(self).spec_package().spec_position().spec_tile(),
            ) is Empty,
    {
        Movement::new(new).step(&mut self.package, grid)
    }
}

impl GetPackage for Zombie {
    closed spec fn spec_package(&self) -> Package {
        self.package
    }

    fn get_package(&self) -> (r: &Package) {
        &self.package
    }

    fn get_package_mut(&mut self) -> (r: &mut Package) {
        &mut self.package
    }
}

impl DeadOrAlive for Zombie {

}

impl Agent for Zombie {
    fn get_id(&self) -> (r: usize) {
        self.package.get_id()
    }

    fn get_kind(&self) -> (r: &Kind) {
        self.package.as_kind()
    }

    fn kind_count(&self, observer: &Observer) -> (r: i64) {
        let is_human: bool = self.package.as_kind().is(&Kind::Human);
        if is_human {
            observer.human_count
        } else {
            observer.zombie_count
        }
    }
}

} // verus!
