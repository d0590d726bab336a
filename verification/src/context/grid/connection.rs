//! The precomputed neighbor links of one grid point: exactly four
//! relations (north, east, south, west) to other point indices, with
//! wraparound at every edge, established once at grid construction.

use vstd::prelude::*;

use super::PointIndex;

verus! {

/// The index north of `index` on a torus with `rows` rows.
pub open spec fn north_of(index: PointIndex, rows: usize) -> PointIndex {
    PointIndex {
        row: if index.row > 0 {
            (index.row - 1) as usize
        } else {
            (rows - 1) as usize
        },
        col: index.col,
    }
}

/// The index south of `index` on a torus with `rows` rows.
pub open spec fn south_of(index: PointIndex, rows: usize) -> PointIndex {
    PointIndex {
        row: if index.row < rows - 1 {
            (index.row + 1) as usize
        } else {
            0
        },
        col: index.col,
    }
}

/// The index west of `index` on a torus with `cols` columns.
pub open spec fn west_of(index: PointIndex, cols: usize) -> PointIndex {
    PointIndex {
        row: index.row,
        col: if index.col > 0 {
            (index.col - 1) as usize
        } else {
            (cols - 1) as usize
        },
    }
}

/// The index east of `index` on a torus with `cols` columns.
pub open spec fn east_of(index: PointIndex, cols: usize) -> PointIndex {
    PointIndex {
        row: index.row,
        col: if index.col < cols - 1 {
            (index.col + 1) as usize
        } else {
            0
        },
    }
}

/// The four neighbor links that grid construction wires for `index`.
pub open spec fn spec_connection_of(index: PointIndex, rows: usize, cols: usize) -> Connection {
    Connection {
        north: north_of(index, rows),
        east: east_of(index, cols),
        south: south_of(index, rows),
        west: west_of(index, cols),
    }
}

/// Topology symmetry: on a torus every point is its east neighbor's west
/// neighbor and its north neighbor's south neighbor (and conversely),
/// including across the wraparound edges.
pub proof fn lemma_connection_symmetry(index: PointIndex, rows: usize, cols: usize)
    requires
        rows > 0,
        cols > 0,
        index.row < rows,
        index.col < cols,
    ensures
        west_of(east_of(index, cols), cols) == index,
        south_of(north_of(index, rows), rows) == index,
        east_of(west_of(index, cols), cols) == index,
        north_of(south_of(index, rows), rows) == index,
{
}

/// Exactly four neighbor relations to other points; non-owning indices
/// into the grid that owns every point, computed once and never
/// recomputed.
#[derive(Clone, Copy, Debug, PartialEq, Eq, Structural)]
pub struct Connection {
    pub north: PointIndex,
    pub east: PointIndex,
    pub south: PointIndex,
    pub west: PointIndex,
}

impl Connection {
    /// Wire the four neighbors of `index` on a `row` by `col` torus: the
    /// first row's north is the last row, the first column's west is the
    /// last column, and symmetrically for south and east.
    pub fn new(index: &PointIndex, row: usize, col: usize) -> (r: Self)
        requires
            row > 0,
            col > 0,
            index.row < row,
            index.col < col,
        ensures
            r == spec_connection_of(*index, row, col),
    {
        let max_row: usize = row - 1;
        let max_col: usize = col - 1;

        let south: PointIndex = if index.row < max_row {
            PointIndex { row: index.row + 1, col: index.col }
        } else {
            PointIndex { row: 0, col: index.col }
        };

        let north: PointIndex = if index.row > 0 {
            PointIndex { row: index.row - 1, col: index.col }
        } else {
            PointIndex { row: max_row, col: index.col }
        };

        let west: PointIndex = if index.col > 0 {
            PointIndex { row: index.row, col: index.col - 1 }
        } else {
            PointIndex { row: index.row, col: max_col }
        };

        let east: PointIndex = if index.col < max_col {
            PointIndex { row: index.row, col: index.col + 1 }
        } else {
            PointIndex { row: index.row, col: 0 }
        };

        Connection { north, east, south, west }
    }

    /// The four neighbor indices, in north, east, south, west order.
    pub fn get_connections(&self) -> (r: [PointIndex; 4])
        ensures
            r@ == seq![self.north, self.east, self.south, self.west],
    {
        [self.north, self.east, self.south, self.west]
    }
}

} // verus!
