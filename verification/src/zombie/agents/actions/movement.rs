//! One agent stepping onto an adjacent empty tile: the grid state moves
//! from the old tile to the new one, and the agent's stored position
//! follows.

use vstd::prelude::*;

use crate::context::GridPosition;
use crate::context::grid::Grid;
use crate::context::grid::PointIndex;
use crate::zombie::agents::package::Package;

verus! {

/// A step onto one selected destination.
pub struct Movement {
    new: GridPosition,
}

impl Movement {
    /// The destination of this step.
    pub closed spec fn spec_new(&self) -> GridPosition {
        self.new
    }

    pub fn new(new: GridPosition) -> (r: Self)
        ensures
            r.spec_new() == new,
    {
        Movement { new }
    }

    /// Take the step: the destination must be empty, the grid state of
    /// the agent's tile moves there, and the agent records its new
    /// position.
    pub fn step(self, package: &mut Package, grid: &mut Grid<usize>)
        requires
            old(grid).wf(),
            old(grid).in_range(old(package).spec_position().spec_tile()),
            old(grid).in_range(self.spec_new().spec_tile()),
            old(package).spec_position().spec_tile() != self.spec_new().spec_tile(),
            old(grid).spec_state_at(self.spec_new().spec_tile()) is Empty,
        ensures
            final(grid).wf(),
            final(grid).spec_rows() == old(grid).spec_rows(),
            final(grid).spec_cols() == old(grid).spec_cols(),
            final(grid).spec_state_at(old(package).spec_position().spec_tile()) is Empty,
            final(grid).spec_state_at(self.spec_new().spec_tile()) == old(grid).spec_state_at(
                old(package).spec_position().spec_tile(),
            ),
            forall|other: PointIndex|
                old(grid).in_range(other) && other != old(package).spec_position().spec_tile()
                    && other != self.spec_new().spec_tile() ==> final(grid).spec_state_at(other)
                    == old(grid).spec_state_at(other),
            final(package).spec_position() == self.spec_new(),
            final(package).spec_kind() == old(package).spec_kind(),
            final(package).spec_id() == old(package).spec_id(),
            final(package).spec_stats() == old(package).spec_stats(),
            final(package).spec_alive() == old(package).spec_alive(),
            final(package).spec_comm() == old(package).spec_comm(),
    {
        let source: PointIndex = package.as_tile().get_tile();
        let dest: PointIndex = self.new.get_tile();
        grid.move_inner_between(source, dest);
        package.swap_stored_position_with(self.new);
    }
}

} // verus!
