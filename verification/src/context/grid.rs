//! A toroidal R by C lattice of independently stateful positions with
//! O(1) neighbor lookup and a wrapped distance metric.  The grid owns
//! every point in one row-major arena; neighbor links are precomputed
//! point indices, wired in a second pass at construction and never
//! recomputed.

mod connection;

use vstd::arithmetic::div_mod::lemma_div_pos_is_pos;
use vstd::arithmetic::div_mod::lemma_fundamental_div_mod;
use vstd::arithmetic::div_mod::lemma_fundamental_div_mod_converse;
use vstd::arithmetic::div_mod::lemma_mod_bound;
use vstd::arithmetic::div_mod::lemma_multiply_divide_lt;
use vstd::arithmetic::mul::lemma_mul_inequality;
use vstd::arithmetic::mul::lemma_mul_is_commutative;
use vstd::prelude::*;

use crate::utils::sync::GreedyCell;

pub use connection::Connection;
pub use connection::east_of;
pub use connection::lemma_connection_symmetry;
pub use connection::north_of;
pub use connection::south_of;
pub use connection::spec_connection_of;
pub use connection::west_of;

verus! {

/// The (row, col) identity of one point, unique per grid.
#[derive(Clone, Copy, Debug, PartialEq, Eq, Hash, Structural)]
pub struct PointIndex {
    pub row: usize,
    pub col: usize,
}

impl PointIndex {
    pub fn new(row: usize, col: usize) -> (r: Self)
        ensures
            r == (PointIndex { row, col }),
    {
        PointIndex { row, col }
    }

    /// The pair of coordinates this index stands for.
    pub fn as_dimensions(&self) -> (r: (usize, usize))
        ensures
            r == (self.row, self.col),
    {
        (self.row, self.col)
    }
}

/// What one position currently holds: a payload, a reservation staked
/// before the final payload is known, or nothing.
#[derive(Debug)]
pub enum PointState<T> {
    Occupied(T),
    Claimed,
    Empty,
}

impl<T> PointState<T> {
    pub fn is_empty(&self) -> (r: bool)
        ensures
            r <==> *self is Empty,
    {
        match self {
            PointState::Empty => true,
            _ => false,
        }
    }

    pub fn as_inner(&self) -> (r: Option<&T>)
        ensures
            r is Some <==> *self is Occupied,
            r matches Some(v) ==> *self == PointState::Occupied(*v),
    {
        match self {
            PointState::Occupied(inner) => Some(inner),
            _ => None,
        }
    }
}

/// Accessing a point's neighbors before the grid's wiring pass completed:
/// a construction-invariant violation, not a normal runtime condition.
#[derive(Clone, Copy, Debug, PartialEq, Eq, Structural)]
pub struct MissingConnections;

/// One position: a state variant and the fixed neighbor links computed
/// at grid construction.
#[derive(Debug)]
pub struct Point<T> {
    index: PointIndex,
    state: PointState<T>,
    connections: Option<Connection>,
}

impl<T> Point<T> {
    /// This point's identity.
    pub closed spec fn idx(&self) -> PointIndex {
        self.index
    }

    /// This point's current state.
    pub closed spec fn spec_state(&self) -> PointState<T> {
        self.state
    }

    /// This point's neighbor links, absent until the wiring pass.
    pub closed spec fn spec_connections(&self) -> Option<Connection> {
        self.connections
    }

    /// A fresh point: empty, with its neighbor links not yet wired.
    pub fn new(index: PointIndex) -> (r: Self)
        ensures
            r.idx() == index,
            r.spec_state() is Empty,
            r.spec_connections() is None,
    {
        Point { index, state: PointState::Empty, connections: None }
    }

    /// The four neighbor indices, or the missing-connections fault if the
    /// wiring pass has not run; the fault marks a construction-invariant
    /// violation and is unrecoverable.
    pub fn get_connections(&self) -> (r: Result<[PointIndex; 4], MissingConnections>)
        ensures
            self.spec_connections() matches Some(c) ==> r matches Ok(a) && a@ == seq![
                c.north,
                c.east,
                c.south,
                c.west,
            ],
            self.spec_connections() is None <==> r is Err,
    {
        match &self.connections {
            Some(c) => Ok(c.get_connections()),
            None => Err(MissingConnections),
        }
    }

    pub fn state(&self) -> (r: &PointState<T>)
        ensures
            *r == self.spec_state(),
    {
        &self.state
    }

    /// Swap in a new state and hand the old one back.
    pub fn replace(&mut self, new_value: PointState<T>) -> (r: PointState<T>)
        ensures
            r == old(self).spec_state(),
            final(self).spec_state() == new_value,
            final(self).idx() == old(self).idx(),
            final(self).spec_connections() == old(self).spec_connections(),
    {
        let mut taken: PointState<T> = new_value;
        core::mem::swap(&mut self.state, &mut taken);
        taken
    }

    /// Move this point's state into `new_position`, leaving this point
    /// empty.  The destination must be empty: installing over a non-empty
    /// position would silently discard its content.
    pub fn move_inner_into(&mut self, new_position: &mut Self)
        requires
            old(new_position).spec_state() is Empty,
        ensures
            final(self).spec_state() is Empty,
            final(new_position).spec_state() == old(self).spec_state(),
            final(self).idx() == old(self).idx(),
            final(self).spec_connections() == old(self).spec_connections(),
            final(new_position).idx() == old(new_position).idx(),
            final(new_position).spec_connections() == old(new_position).spec_connections(),
    {
        let taken: PointState<T> = self.replace(PointState::Empty);
        let _prior: PointState<T> = new_position.replace(taken);
    }

    pub fn get_idx(&self) -> (r: PointIndex)
        ensures
            r == self.idx(),
    {
        self.index
    }
}

/// The identity the arena assigns to offset `i` in row-major order.
pub open spec fn index_for(i: int, cols: usize) -> PointIndex {
    PointIndex { row: (i / (cols as int)) as usize, col: (i % (cols as int)) as usize }
}

/// The row-major offset of `index`.
pub open spec fn pos_of(index: PointIndex, cols: usize) -> int {
    (index.row as int) * (cols as int) + (index.col as int)
}

/// The point at offset `i` carries the right identity and fully wired
/// neighbor links.
pub open spec fn wf_point<T>(p: Point<T>, i: int, rows: usize, cols: usize) -> bool {
    &&& p.idx() == index_for(i, cols)
    &&& p.spec_connections() == Some(spec_connection_of(p.idx(), rows, cols))
}

/// In-range offsets and in-range indices correspond one to one.
proof fn lemma_pos_of_index(row: usize, col: usize, rows: usize, cols: usize)
    requires
        row < rows,
        col < cols,
    ensures
        0 <= (row as int) * (cols as int) + (col as int) < (rows as int) * (cols as int),
        index_for((row as int) * (cols as int) + (col as int), cols) == (PointIndex { row, col }),
{
    let i = (row as int) * (cols as int) + (col as int);
    lemma_fundamental_div_mod_converse(i, cols as int, row as int, col as int);
    lemma_mul_inequality(row as int + 1, rows as int, cols as int);
    assert((row as int + 1) * (cols as int) == (row as int) * (cols as int) + (cols as int))
        by (nonlinear_arith);
    assert((row as int) * (cols as int) >= 0) by (nonlinear_arith)
        requires
            row >= 0,
            cols >= 0,
    ;
}

/// Every offset below `rows * cols` decodes to an in-range identity that
/// encodes back to the same offset.
proof fn lemma_index_for_pos(i: int, rows: usize, cols: usize)
    requires
        cols > 0,
        0 <= i < (rows as int) * (cols as int),
    ensures
        index_for(i, cols).row < rows,
        index_for(i, cols).col < cols,
        pos_of(index_for(i, cols), cols) == i,
{
    let c = cols as int;
    lemma_fundamental_div_mod(i, c);
    lemma_mod_bound(i, c);
    lemma_div_pos_is_pos(i, c);
    lemma_mul_is_commutative(rows as int, c);
    lemma_multiply_divide_lt(i, c, rows as int);
    lemma_mul_is_commutative(i / c, c);
}

/// The square of the integer `n`'s floor square root, step by step: the
/// largest `r` with `r * r <= n`.
pub open spec fn spec_isqrt(n: int) -> int
    decreases n,
{
    if n < 1 {
        0
    } else {
        let r = spec_isqrt(n - 1);
        if (r + 1) * (r + 1) <= n {
            r + 1
        } else {
            r
        }
    }
}

/// The floor square root is bracketed by the neighboring squares.
pub proof fn lemma_isqrt_bounds(n: int)
    requires
        n >= 0,
    ensures
        spec_isqrt(n) >= 0,
        spec_isqrt(n) * spec_isqrt(n) <= n,
        n < (spec_isqrt(n) + 1) * (spec_isqrt(n) + 1),
    decreases n,
{
    if n >= 1 {
        lemma_isqrt_bounds(n - 1);
        let r = spec_isqrt(n - 1);
        if (r + 1) * (r + 1) <= n {
            assert(n < (r + 2) * (r + 2)) by (nonlinear_arith)
                requires
                    r >= 0,
                    n - 1 < (r + 1) * (r + 1),
            ;
        }
    }
}

/// The bracketing squares pin the floor square root down.
pub proof fn lemma_isqrt_unique(n: int, r: int)
    requires
        n >= 0,
        r >= 0,
        r * r <= n,
        n < (r + 1) * (r + 1),
    ensures
        r == spec_isqrt(n),
{
    lemma_isqrt_bounds(n);
    let s = spec_isqrt(n);
    assert(r == s) by (nonlinear_arith)
        requires
            r >= 0,
            s >= 0,
            r * r <= n,
            n < (r + 1) * (r + 1),
            s * s <= n,
            n < (s + 1) * (s + 1),
    ;
}

/// The per-axis wrapped delta on a torus: the shorter way around.
pub open spec fn spec_wrapped_delta(a: usize, b: usize, extent: usize) -> int {
    let d = if a >= b {
        a - b
    } else {
        b - a
    };
    if d <= extent - d {
        d
    } else {
        extent - d
    }
}

/// The squared Euclidean norm of the two wrapped deltas.
pub open spec fn spec_distance_sq(a: PointIndex, b: PointIndex, rows: usize, cols: usize) -> int {
    let dr = spec_wrapped_delta(a.row, b.row, rows);
    let dc = spec_wrapped_delta(a.col, b.col, cols);
    dr * dr + dc * dc
}

/// The toroidal distance: the wrapped per-axis deltas combined by the
/// Euclidean norm, truncated to an integer.
pub open spec fn spec_toroidal_distance(a: PointIndex, b: PointIndex, rows: usize, cols: usize) -> int {
    spec_isqrt(spec_distance_sq(a, b, rows, cols))
}

/// The toroidal distance is symmetric in its two points.
pub proof fn lemma_toroidal_distance_symmetric(a: PointIndex, b: PointIndex, rows: usize, cols: usize)
    ensures
        spec_toroidal_distance(a, b, rows, cols) == spec_toroidal_distance(b, a, rows, cols),
{
    assert(spec_wrapped_delta(a.row, b.row, rows) == spec_wrapped_delta(b.row, a.row, rows));
    assert(spec_wrapped_delta(a.col, b.col, cols) == spec_wrapped_delta(b.col, a.col, cols));
}

/// The floor square root of `n`, by bisection.
fn isqrt_u128(n: u128) -> (r: u128)
    ensures
        r as int == spec_isqrt(n as int),
{
    let mut lo: u128 = 0;
    let mut hi: u128 = 0x1_0000_0000_0000_0000;
    proof {
        assert((hi as int) * (hi as int) > n as int) by (nonlinear_arith)
            requires
                hi as int == 0x1_0000_0000_0000_0000,
                (n as int) < (0x1_0000_0000_0000_0000 * 0x1_0000_0000_0000_0000),
        ;
    }
    while lo + 1 < hi
        invariant
            lo < hi,
            hi <= 0x1_0000_0000_0000_0000,
            (lo as int) * (lo as int) <= n as int,
            (hi as int) * (hi as int) > n as int,
        decreases hi - lo,
    {
        let mid: u128 = lo + (hi - lo) / 2;
        proof {
            assert((mid as int) * (mid as int) < (0x1_0000_0000_0000_0000 * 0x1_0000_0000_0000_0000))
                by (nonlinear_arith)
                requires
                    0 <= (mid as int) < 0x1_0000_0000_0000_0000,
            ;
        }
        if mid * mid <= n {
            lo = mid;
        } else {
            hi = mid;
        }
    }
    proof {
        lemma_isqrt_unique(n as int, lo as int);
    }
    lo
}

/// The wrapped delta along one axis.
fn wrapped_delta(a: usize, b: usize, extent: usize) -> (r: usize)
    requires
        a < extent,
        b < extent,
    ensures
        r as int == spec_wrapped_delta(a, b, extent),
        2 * (r as int) <= extent as int,
    {
    let d: usize = if a >= b {
        a - b
    } else {
        b - a
    };
    if d <= extent - d {
        d
    } else {
        extent - d
    }
}


/// How many of the points hold nothing.
pub open spec fn count_empty_points<T>(points: Seq<Point<T>>) -> int
    decreases points.len(),
{
    if points.len() == 0 {
        0
    } else {
        count_empty_points(points.drop_last()) + (if points.last().spec_state() is Empty {
            1int
        } else {
            0int
        })
    }
}

/// Two pointwise equally-empty sequences count the same.
proof fn lemma_count_empty_congruent<T>(s1: Seq<Point<T>>, s2: Seq<Point<T>>)
    requires
        s1.len() == s2.len(),
        forall|j: int|
            0 <= j < s1.len() ==> ((#[trigger] s1[j]).spec_state() is Empty <==> (
            #[trigger] s2[j]).spec_state() is Empty),
    ensures
        count_empty_points(s1) == count_empty_points(s2),
    decreases s1.len(),
{
    if s1.len() > 0 {
        assert forall|j: int|
            0 <= j < s1.drop_last().len() implies ((#[trigger] s1.drop_last()[j]).spec_state()
            is Empty <==> (#[trigger] s2.drop_last()[j]).spec_state() is Empty) by {
            assert(s1[j].spec_state() is Empty <==> s2[j].spec_state() is Empty);
        }
        lemma_count_empty_congruent(s1.drop_last(), s2.drop_last());
        assert(s1[s1.len() - 1].spec_state() is Empty <==> s2[s2.len() - 1].spec_state()
            is Empty);
    }
}

/// Filling exactly one empty slot lowers the count by one.
proof fn lemma_count_empty_filled_one<T>(s1: Seq<Point<T>>, s2: Seq<Point<T>>, k: int)
    requires
        s1.len() == s2.len(),
        0 <= k < s1.len(),
        s1[k].spec_state() is Empty,
        !(s2[k].spec_state() is Empty),
        forall|j: int|
            0 <= j < s1.len() && j != k ==> ((#[trigger] s1[j]).spec_state() is Empty <==> (
            #[trigger] s2[j]).spec_state() is Empty),
    ensures
        count_empty_points(s2) == count_empty_points(s1) - 1,
    decreases s1.len(),
{
    if k == s1.len() - 1 {
        assert forall|j: int|
            0 <= j < s1.drop_last().len() implies ((#[trigger] s1.drop_last()[j]).spec_state()
            is Empty <==> (#[trigger] s2.drop_last()[j]).spec_state() is Empty) by {
            assert(s1[j].spec_state() is Empty <==> s2[j].spec_state() is Empty);
        }
        lemma_count_empty_congruent(s1.drop_last(), s2.drop_last());
    } else {
        assert forall|j: int|
            0 <= j < s1.drop_last().len() && j != k implies ((
        #[trigger] s1.drop_last()[j]).spec_state() is Empty <==> (
        #[trigger] s2.drop_last()[j]).spec_state() is Empty) by {
            assert(s1[j].spec_state() is Empty <==> s2[j].spec_state() is Empty);
        }
        assert(s1.drop_last()[k] == s1[k]);
        assert(s2.drop_last()[k] == s2[k]);
        lemma_count_empty_filled_one(s1.drop_last(), s2.drop_last(), k);
        assert(s1[s1.len() - 1].spec_state() is Empty <==> s2[s2.len() - 1].spec_state()
            is Empty);
    }
}

/// A sequence of nothing but empty points counts its whole length.
proof fn lemma_count_empty_all<T>(s: Seq<Point<T>>)
    requires
        forall|j: int| 0 <= j < s.len() ==> (#[trigger] s[j]).spec_state() is Empty,
    ensures
        count_empty_points(s) == s.len(),
    decreases s.len(),
{
    if s.len() > 0 {
        assert forall|j: int|
            0 <= j < s.drop_last().len() implies (#[trigger] s.drop_last()[j]).spec_state()
            is Empty by {
            assert(s[j].spec_state() is Empty);
        }
        lemma_count_empty_all(s.drop_last());
    }
}

/// A positive count names a witness.
proof fn lemma_count_empty_witness<T>(s: Seq<Point<T>>)
    requires
        count_empty_points(s) > 0,
    ensures
        exists|j: int| 0 <= j < s.len() && (#[trigger] s[j]).spec_state() is Empty,
    decreases s.len(),
{
    if s.len() > 0 {
        if s.last().spec_state() is Empty {
            assert(s[s.len() - 1].spec_state() is Empty);
        } else {
            lemma_count_empty_witness(s.drop_last());
            let j = choose|j: int|
                0 <= j < s.drop_last().len() && (#[trigger] s.drop_last()[j]).spec_state()
                    is Empty;
            assert(s[j].spec_state() is Empty);
        }
    }
}

/// A freshly well-formed grid whose points are all empty counts one
/// empty slot per point.
pub proof fn lemma_grid_full_of_empties<T>(g: Grid<T>)
    requires
        g.wf(),
        forall|index: PointIndex|
            g.in_range(index) ==> (#[trigger] g.spec_state_at(index)) is Empty,
    ensures
        count_empty_points(g.points_seq()) == g.points_seq().len(),
{
    let s = g.points_seq();
    if s.len() > 0 {
        proof_cols_positive(g);
        assert forall|j: int| 0 <= j < s.len() implies (#[trigger] s[j]).spec_state()
            is Empty by {
            lemma_index_for_pos(j, g.spec_rows(), g.spec_cols());
            assert(g.spec_state_at(index_for(j, g.spec_cols())) is Empty);
        }
    }
    lemma_count_empty_all(s);
}

/// A grid with an empty slot somewhere has an in-range empty point.
pub proof fn lemma_grid_has_empty<T>(g: Grid<T>)
    requires
        g.wf(),
        count_empty_points(g.points_seq()) > 0,
    ensures
        exists|index: PointIndex|
            g.in_range(index) && (#[trigger] g.spec_state_at(index)) is Empty,
{
    lemma_count_empty_witness(g.points_seq());
    let j = choose|j: int|
        0 <= j < g.points_seq().len() && (#[trigger] g.points_seq()[j]).spec_state() is Empty;
    proof_cols_positive(g);
    lemma_index_for_pos(j, g.spec_rows(), g.spec_cols());
    let index = index_for(j, g.spec_cols());
    assert(g.in_range(index) && g.spec_state_at(index) is Empty);
}

/// Claiming one empty point lowers the grid's empty count by one.
pub proof fn lemma_grid_claim_decrements<T>(g1: Grid<T>, g2: Grid<T>, t: PointIndex)
    requires
        g1.wf(),
        g2.wf(),
        g1.spec_rows() == g2.spec_rows(),
        g1.spec_cols() == g2.spec_cols(),
        g1.in_range(t),
        g1.spec_state_at(t) is Empty,
        !(g2.spec_state_at(t) is Empty),
        forall|other: PointIndex|
            g1.in_range(other) && other != t ==> g2.spec_state_at(other) == g1.spec_state_at(
                other,
            ),
    ensures
        count_empty_points(g2.points_seq()) == count_empty_points(g1.points_seq()) - 1,
{
    let s1 = g1.points_seq();
    let s2 = g2.points_seq();
    lemma_pos_of_index(t.row, t.col, g1.spec_rows(), g1.spec_cols());
    let k = pos_of(t, g1.spec_cols());
    assert(index_for(k, g1.spec_cols()) == t);
    assert forall|j: int|
        0 <= j < s1.len() && j != k implies ((#[trigger] s1[j]).spec_state() is Empty <==> (
    #[trigger] s2[j]).spec_state() is Empty) by {
        lemma_index_for_pos(j, g1.spec_rows(), g1.spec_cols());
        let index = index_for(j, g1.spec_cols());
        assert(index != t);
        assert(g2.spec_state_at(index) == g1.spec_state_at(index));
    }
    lemma_count_empty_filled_one(s1, s2, k);
}

/// A grid holding any point at all has columns.
proof fn proof_cols_positive<T>(g: Grid<T>)
    requires
        g.wf(),
        g.points_seq().len() > 0,
    ensures
        g.spec_cols() > 0,
        g.spec_rows() > 0,
{
    if g.spec_cols() == 0 || g.spec_rows() == 0 {
        assert((g.spec_rows() as int) * (g.spec_cols() as int) == 0) by (nonlinear_arith)
            requires
                g.spec_rows() == 0 || g.spec_cols() == 0,
        ;
    }
}

/// Topology symmetry over a wired grid: every point is its east
/// neighbor's west neighbor and its north neighbor's south neighbor,
/// including across the wraparound edges.
pub proof fn lemma_grid_topology_symmetry<T>(g: &Grid<T>, index: PointIndex)
    requires
        g.wf(),
        g.in_range(index),
    ensures
        g.points_seq()[pos_of(index, g.spec_cols())].spec_connections() matches Some(c)
            && g.in_range(c.east) && g.in_range(c.north) && (g.points_seq()[pos_of(
            c.east,
            g.spec_cols(),
        )].spec_connections() matches Some(ec) && ec.west == index) && (g.points_seq()[pos_of(
            c.north,
            g.spec_cols(),
        )].spec_connections() matches Some(nc) && nc.south == index),
{
    let rows = g.spec_rows();
    let cols = g.spec_cols();
    lemma_pos_of_index(index.row, index.col, rows, cols);
    let c = spec_connection_of(index, rows, cols);
    lemma_connection_symmetry(index, rows, cols);
    lemma_pos_of_index(c.east.row, c.east.col, rows, cols);
    lemma_pos_of_index(c.north.row, c.north.col, rows, cols);
}

/// Row-major dense storage of points, fixed dimensions, and a toroidal
/// distance function.  The dimensions never change after construction.
#[derive(Debug)]
pub struct Grid<T> {
    row: usize,
    col: usize,
    points: Vec<Point<T>>,
}

impl<T> Grid<T> {
    /// The number of rows.
    pub closed spec fn spec_rows(&self) -> usize {
        self.row
    }

    /// The number of columns.
    pub closed spec fn spec_cols(&self) -> usize {
        self.col
    }

    /// The arena of points, in row-major order.
    pub closed spec fn points_seq(&self) -> Seq<Point<T>> {
        self.points@
    }

    /// Well-formed: the arena holds exactly rows by cols points, each
    /// carrying its own identity and fully wired neighbor links.
    pub open spec fn wf(&self) -> bool {
        &&& (self.spec_rows() as int) * (self.spec_cols() as int) == self.points_seq().len()
        &&& forall|i: int|
            0 <= i < self.points_seq().len() ==> wf_point(
                #[trigger] self.points_seq()[i],
                i,
                self.spec_rows(),
                self.spec_cols(),
            )
    }

    /// The state of the point at `index`.
    pub open spec fn spec_state_at(&self, index: PointIndex) -> PointState<T> {
        self.points_seq()[pos_of(index, self.spec_cols())].spec_state()
    }

    /// An index lies on this grid.
    pub open spec fn in_range(&self, index: PointIndex) -> bool {
        index.row < self.spec_rows() && index.col < self.spec_cols()
    }

    /// Allocate all points first in row-major order, then wire each
    /// point's four neighbors with wraparound in a second pass.  There is
    /// no error path; degenerate dimensions produce an empty grid.
    pub fn new(row: usize, col: usize) -> (r: Self)
        requires
            (row as int) * (col as int) <= usize::MAX as int,
        ensures
            r.wf(),
            r.spec_rows() == row,
            r.spec_cols() == col,
            forall|index: PointIndex|
                r.in_range(index) ==> #[trigger] r.spec_state_at(index) is Empty,
    {
        proof {
            assert((row as int) * (col as int) >= 0) by (nonlinear_arith)
                requires
                    row >= 0,
                    col >= 0,
            ;
        }
        let total: usize = row * col;
        let mut points: Vec<Point<T>> = Vec::new();
        let mut i: usize = 0;
        while i < total
            invariant
                i <= total,
                total as int == (row as int) * (col as int),
                points@.len() == i,
                forall|j: int|
                    0 <= j < i ==> (#[trigger] points@[j]).idx() == index_for(j, col)
                        && points@[j].spec_state() is Empty && points@[j].spec_connections() is None,
            decreases total - i,
        {
            proof {
                if col == 0 {
                    assert(total as int == 0) by (nonlinear_arith)
                        requires
                            total as int == (row as int) * (col as int),
                            col == 0,
                    ;
                }
            }
            let r_i: usize = i / col;
            let c_i: usize = i % col;
            points.push(Point::new(PointIndex { row: r_i, col: c_i }));
            i = i + 1;
        }
        let mut k: usize = 0;
        while k < total
            invariant
                k <= total,
                total as int == (row as int) * (col as int),
                points@.len() == total,
                forall|j: int|
                    k <= j < total ==> (#[trigger] points@[j]).idx() == index_for(j, col)
                        && points@[j].spec_state() is Empty && points@[j].spec_connections() is None,
                forall|j: int|
                    0 <= j < k ==> wf_point(#[trigger] points@[j], j, row, col)
                        && points@[j].spec_state() is Empty,
            decreases total - k,
        {
            proof {
                if col == 0 {
                    assert(total as int == 0) by (nonlinear_arith)
                        requires
                            total as int == (row as int) * (col as int),
                            col == 0,
                    ;
                }
                lemma_index_for_pos(k as int, row, col);
            }
            let index: PointIndex = points[k].get_idx();
            let wired: Connection = Connection::new(&index, row, col);
            let p: &mut Point<T> = &mut points[k];
            p.connections = Some(wired);
            k = k + 1;
        }
        let r = Grid { row, col, points };
        proof {
            assert forall|index: PointIndex| r.in_range(index) implies #[trigger] r.spec_state_at(
                index,
            ) is Empty by {
                lemma_pos_of_index(index.row, index.col, row, col);
            }
        }
        r
    }

    /// Whether an index lies on this grid.
    pub fn is_in_range(&self, index: PointIndex) -> (r: bool)
        ensures
            r == self.in_range(index),
    {
        index.row < self.row && index.col < self.col
    }

    /// The fixed (rows, cols) dimensions.
    pub fn get_dimensions(&self) -> (r: (usize, usize))
        ensures
            r == (self.spec_rows(), self.spec_cols()),
    {
        (self.row, self.col)
    }

    /// Wrap the grid in a guarded cell for shared access.
    pub fn into_cell(self) -> (r: GreedyCell<Self>)
        ensures
            r.lock_state() is Free,
            r.stored() == self,
    {
        GreedyCell::new(self)
    }

    /// The point at (row, col).
    pub fn point_at(&self, row: usize, col: usize) -> (r: &Point<T>)
        requires
            self.wf(),
            row < self.spec_rows(),
            col < self.spec_cols(),
        ensures
            *r == self.points_seq()[pos_of(PointIndex { row, col }, self.spec_cols())],
            r.idx() == (PointIndex { row, col }),
            r.spec_state() == self.spec_state_at(PointIndex { row, col }),
            r.spec_connections() == Some(
                spec_connection_of(PointIndex { row, col }, self.spec_rows(), self.spec_cols()),
            ),
    {
        let n: usize = self.points.len();
        proof {
            lemma_pos_of_index(row, col, self.row, self.col);
        }
        let pos: usize = row * self.col + col;
        &self.points[pos]
    }

    /// Swap in a new state at `index` and hand the old one back.
    pub fn replace_at(&mut self, index: PointIndex, new_value: PointState<T>) -> (r: PointState<
        T,
    >)
        requires
            old(self).wf(),
            old(self).in_range(index),
        ensures
            final(self).wf(),
            final(self).spec_rows() == old(self).spec_rows(),
            final(self).spec_cols() == old(self).spec_cols(),
            r == old(self).spec_state_at(index),
            final(self).spec_state_at(index) == new_value,
            forall|other: PointIndex|
                old(self).in_range(other) && other != index ==> final(self).spec_state_at(other)
                    == old(self).spec_state_at(other),
    {
        let n: usize = self.points.len();
        proof {
            lemma_pos_of_index(index.row, index.col, self.row, self.col);
        }
        let pos: usize = index.row * self.col + index.col;
        let p: &mut Point<T> = &mut self.points[pos];
        let r = p.replace(new_value);
        proof {
            assert forall|other: PointIndex|
                old(self).in_range(other) && other != index implies final(self).spec_state_at(
                other,
            ) == old(self).spec_state_at(other) by {
                lemma_pos_of_index(other.row, other.col, self.row, self.col);
                lemma_pos_of_index(index.row, index.col, self.row, self.col);
                if pos_of(other, self.col) == pos_of(index, self.col) {
                    assert(index_for(pos_of(other, self.col), self.col) == other);
                    assert(other == index);
                }
            }
        }
        r
    }

    /// Move the state at `source` into `dest`, leaving the source empty.
    /// The destination must be empty: installing over a non-empty
    /// position would silently discard its content.
    pub fn move_inner_between(&mut self, source: PointIndex, dest: PointIndex)
        requires
            old(self).wf(),
            old(self).in_range(source),
            old(self).in_range(dest),
            source != dest,
            old(self).spec_state_at(dest) is Empty,
        ensures
            final(self).wf(),
            final(self).spec_rows() == old(self).spec_rows(),
            final(self).spec_cols() == old(self).spec_cols(),
            final(self).spec_state_at(source) is Empty,
            final(self).spec_state_at(dest) == old(self).spec_state_at(source),
            forall|other: PointIndex|
                old(self).in_range(other) && other != source && other != dest ==> final(self).spec_state_at(other) == old(self).spec_state_at(other),
    {
        let taken: PointState<T> = self.replace_at(source, PointState::Empty);
        let _prior: PointState<T> = self.replace_at(dest, taken);
    }

    /// The toroidal distance between two points of this grid: per-axis
    /// wrapped deltas combined by the Euclidean norm, truncated to an
    /// integer.  It is symmetric in its two arguments.
    pub fn toroidal_distance_between(&self, lhs: &Point<T>, rhs: &Point<T>) -> (r: usize)
        requires
            self.wf(),
            self.spec_rows() > 0,
            self.spec_cols() > 0,
            self.in_range(lhs.idx()),
            self.in_range(rhs.idx()),
        ensures
            r as int == spec_toroidal_distance(
                lhs.idx(),
                rhs.idx(),
                self.spec_rows(),
                self.spec_cols(),
            ),
    {
        let li: PointIndex = lhs.get_idx();
        let ri: PointIndex = rhs.get_idx();
        let dr: usize = wrapped_delta(li.row, ri.row, self.row);
        let dc: usize = wrapped_delta(li.col, ri.col, self.col);
        proof {
            assert(0 <= (dr as int) * (dr as int) && 0 <= (dc as int) * (dc as int) && (dr as int)
                * (dr as int) + (dc as int) * (dc as int) < (0x1_0000_0000_0000_0000
                * 0x1_0000_0000_0000_0000)) by (nonlinear_arith)
                requires
                    0 <= (dr as int) < 0x8000_0000_0000_0000,
                    0 <= (dc as int) < 0x8000_0000_0000_0000,
            ;
        }
        let dsq: u128 = (dr as u128) * (dr as u128) + (dc as u128) * (dc as u128);
        let root: u128 = isqrt_u128(dsq);
        proof {
            lemma_isqrt_bounds(dsq as int);
            assert(root as int <= usize::MAX as int) by (nonlinear_arith)
                requires
                    root as int >= 0,
                    (root as int) * (root as int) <= dsq as int,
                    dsq as int == (dr as int) * (dr as int) + (dc as int) * (dc as int),
                    0 <= dr as int <= usize::MAX as int,
                    0 <= dc as int <= usize::MAX as int,
                    2 * (dr as int) <= usize::MAX as int,
                    2 * (dc as int) <= usize::MAX as int,
            ;
        }
        root as usize
    }
}

} // verus!
