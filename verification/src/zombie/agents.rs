//! The scenario's agents: their kinds, their shared vital package, and
//! the traits every concrete agent variant offers.

pub mod actions;
pub mod message;
pub mod package;
pub mod variants;

use vstd::prelude::*;

use crate::context::grid::Grid;
use crate::context::grid::PointState;
use crate::zombie::agents::package::Observer;
use crate::zombie::agents::package::Package;

pub use message::Message;
pub use message::Report;
pub use message::ReportKind;

verus! {

/// The two sides of the scenario.
#[derive(Debug, Clone, Copy, PartialEq, Eq, Hash, Structural)]
pub enum Kind {
    Human,
    Zombie,
}

impl Kind {
    pub fn is(&self, target: &Self) -> (r: bool)
        ensures
            r <==> *self == *target,
    {
        self == target
    }
}

/// Every occupied point of the scenario grid names an agent of the
/// roster by index.
pub open spec fn grid_ids_valid(g: &Grid<usize>, roster: Seq<Package>) -> bool {
    forall|index: crate::context::grid::PointIndex|
        g.in_range(index) ==> ((#[trigger] g.spec_state_at(index)) matches PointState::Occupied(
            id,
        ) ==> id < roster.len())
}

/// Access to an agent's vital package.
pub trait GetPackage: Sized {
    spec fn spec_package(&self) -> Package;

    fn get_package(&self) -> (r: &Package)
        ensures
            *r == self.spec_package(),
    ;

    fn get_package_mut(&mut self) -> (r: &mut Package)
        ensures
            *r == old(self).spec_package(),
            final(self).spec_package() == *final(r),
    ;
}

/// Life and death of an agent: the scenario removes a fallen zombie
/// from play outright, while a fallen human only leaves the observer's
/// human count.
pub trait DeadOrAlive: GetPackage {
    fn is_alive(&self) -> (r: bool)
        ensures
            r == self.spec_package().spec_alive(),
    {
        self.get_package().as_life_switch().is_alive()
    }

    fn set_dead(&mut self, grid: &mut Grid<usize>, observer: &mut Observer)
        requires
            old(grid).wf(),
            old(grid).in_range(old(self).spec_package().spec_position().spec_tile()),
            i64::MIN < old(observer).human_count,
            i64::MIN < old(observer).zombie_count,
        ensures
            final(grid).wf(),
            final(grid).spec_rows() == old(grid).spec_rows(),
            final(grid).spec_cols() == old(grid).spec_cols(),
            old(self).spec_package().spec_kind() == Kind::Human ==> {
                &&& final(observer).human_count == old(observer).human_count - 1
                &&& final(observer).zombie_count == old(observer).zombie_count
                &&& *final(self) == *old(self)
                &&& *final(grid) == *old(grid)
            },
            old(self).spec_package().spec_kind() == Kind::Zombie ==> {
                &&& final(observer).zombie_count == old(observer).zombie_count - 1
                &&& final(observer).human_count == old(observer).human_count
                &&& !final(self).spec_package().spec_alive()
                &&& final(self).spec_package().spec_stats() == old(self).spec_package().spec_stats()
                &&& final(self).spec_package().spec_kind() == old(self).spec_package().spec_kind()
                &&& final(self).spec_package().spec_id() == old(self).spec_package().spec_id()
                &&& final(self).spec_package().spec_position() == old(self).spec_package().spec_position()
                &&& final(self).spec_package().spec_comm() == old(self).spec_package().spec_comm()
                &&& final(grid).spec_state_at(
                    old(self).spec_package().spec_position().spec_tile(),
                ) is Empty
                &&& forall|other: crate::context::grid::PointIndex|
                    old(grid).in_range(other) && other != old(self).spec_package().spec_position().spec_tile() ==> final(grid).spec_state_at(
                        other,
                    ) == old(grid).spec_state_at(other)
            },
    {
        let is_human: bool = {
            let package: &Package = self.get_package();
            package.as_kind().is(&Kind::Human)
        };
        if is_human {
            observer.adjust(-1, &Kind::Human);
        } else {
            let package: &mut Package = self.get_package_mut();
            if package.as_life_switch().is_alive() {
                package.as_life_switch_mut().set_dead();
            }
            let tile = package.as_tile();
            let _prior: PointState<usize> = tile.replace(grid, PointState::Empty);
            observer.adjust(-1, &Kind::Zombie);
        }
    }
}

/// What every concrete agent variant offers.
pub trait Agent: DeadOrAlive {
    fn get_id(&self) -> (r: usize)
        ensures
            r == self.spec_package().spec_id(),
    ;

    fn get_kind(&self) -> (r: &Kind)
        ensures
            *r == self.spec_package().spec_kind(),
    ;

    fn kind_count(&self, observer: &Observer) -> (r: i64)
        ensures
            self.spec_package().spec_kind() == Kind::Human ==> r == observer.human_count,
            self.spec_package().spec_kind() == Kind::Zombie ==> r == observer.zombie_count,
    ;
}

/// One turn of an agent, driven by the scenario's execution layer.
pub trait Action: Sized {
    fn act(&mut self);
}

} // verus!
