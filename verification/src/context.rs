//! Spatial context: the grid and the position pairing that records where
//! an entity currently stands.

pub mod grid;

use vstd::prelude::*;

use crate::utils::sync::GreedyCell;
use grid::Grid;
use grid::Point;
use grid::PointIndex;
use grid::PointState;

verus! {

/// Where an entity currently is: the index of one point of the grid that
/// owns it.  The grid itself is passed alongside wherever a position is
/// resolved, so positions stay plain values and form no reference cycle.
#[derive(Clone, Copy, Debug, PartialEq, Eq, Structural)]
pub struct GridPosition {
    tile: PointIndex,
}

impl GridPosition {
    /// The index of the point this position stands on.
    pub closed spec fn spec_tile(&self) -> PointIndex {
        self.tile
    }

    pub fn new(tile: PointIndex) -> (r: Self)
        ensures
            r.spec_tile() == tile,
    {
        GridPosition { tile }
    }

    /// Wrap the position in a guarded cell for shared access.
    pub fn into_cell(self) -> (r: GreedyCell<Self>)
        ensures
            r.lock_state() is Free,
            r.stored() == self,
    {
        GreedyCell::new(self)
    }

    pub fn get_tile(&self) -> (r: PointIndex)
        ensures
            r == self.spec_tile(),
    {
        self.tile
    }

    /// Resolve the position to its point on the owning grid.
    pub fn borrow<'a, T>(&self, grid: &'a Grid<T>) -> (r: &'a Point<T>)
        requires
            grid.wf(),
            grid.in_range(self.spec_tile()),
        ensures
            r.idx() == self.spec_tile(),
            r.spec_state() == grid.spec_state_at(self.spec_tile()),
    {
        grid.point_at(self.tile.row, self.tile.col)
    }

    /// Swap a new state into this position's point on the owning grid,
    /// handing the old state back.
    pub fn replace<T>(&self, grid: &mut Grid<T>, new_value: PointState<T>) -> (r: PointState<T>)
        requires
            old(grid).wf(),
            old(grid).in_range(self.spec_tile()),
        ensures
            final(grid).wf(),
            final(grid).spec_rows() == old(grid).spec_rows(),
            final(grid).spec_cols() == old(grid).spec_cols(),
            r == old(grid).spec_state_at(self.spec_tile()),
            final(grid).spec_state_at(self.spec_tile()) == new_value,
            forall|other: PointIndex|
                old(grid).in_range(other) && other != self.spec_tile() ==> final(grid).spec_state_at(other) == old(grid).spec_state_at(other),
    {
        grid.replace_at(self.tile, new_value)
    }

    /// The dimensions of the owning grid.
    pub fn get_dimensions<T>(&self, grid: &Grid<T>) -> (r: (usize, usize))
        ensures
            r == (grid.spec_rows(), grid.spec_cols()),
    {
        grid.get_dimensions()
    }
}

} // verus!
