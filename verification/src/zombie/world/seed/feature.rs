//! The shared features every seeded agent hooks into: the address
//! directory, the grid, and the observer.  The feature seed owns them
//! while the world is being built.

use vstd::prelude::*;

use crate::context::GridPosition;
use crate::context::grid::Grid;
use crate::context::grid::PointIndex;
use crate::context::grid::PointState;
use crate::message::AddressCollection;
use crate::message::MessageInterface;
use crate::message::MessageQueue;
use crate::utils::random::draw_in_range;
use crate::zombie::agents::Kind;
use crate::zombie::agents::Message;
use crate::zombie::agents::package::Observer;

verus! {

/// The routing directory a seeded world shares.
pub struct MessageSeed {
    addresses: AddressCollection<Message>,
}

impl MessageSeed {
    /// The directory being built.
    pub closed spec fn spec_addresses(&self) -> AddressCollection<Message> {
        self.addresses
    }

    pub fn new(inner: AddressCollection<Message>) -> (r: Self)
        ensures
            r.spec_addresses() == inner,
    {
        MessageSeed { addresses: inner }
    }
}

/// The grid a seeded world shares, with a tally of claimed positions.
pub struct GridSeed {
    row: usize,
    col: usize,
    occupied_points: usize,
    grid: Grid<usize>,
}

impl GridSeed {
    /// The grid being populated.
    pub closed spec fn spec_grid(&self) -> Grid<usize> {
        self.grid
    }

    /// How many positions have been claimed so far.
    pub closed spec fn spec_occupied(&self) -> usize {
        self.occupied_points
    }

    pub open spec fn wf(&self) -> bool {
        self.spec_grid().wf()
    }

    pub fn new(grid: Grid<usize>) -> (r: Self)
        requires
            grid.wf(),
        ensures
            r.spec_grid() == grid,
            r.spec_occupied() == 0,
            r.wf(),
    {
        let (row, col): (usize, usize) = grid.get_dimensions();
        Self { occupied_points: 0, row, col, grid }
    }

    /// Claim one empty point: try a random position first, then scan
    /// from the top; some point must still be empty or the search could
    /// never end.
    fn unchecked_new_point(&mut self) -> (r: PointIndex)
        requires
            old(self).wf(),
            old(self).spec_grid().spec_rows() > 0,
            old(self).spec_grid().spec_cols() > 0,
            old(self).spec_occupied() < usize::MAX,
            exists|idx: PointIndex|
                old(self).spec_grid().in_range(idx) && (#[trigger] old(self).spec_grid().spec_state_at(
                    idx,
                )) is Empty,
        ensures
            final(self).wf(),
            final(self).spec_grid().spec_rows() == old(self).spec_grid().spec_rows(),
            final(self).spec_grid().spec_cols() == old(self).spec_grid().spec_cols(),
            final(self).spec_occupied() == old(self).spec_occupied() + 1,
            final(self).spec_grid().in_range(r),
            old(self).spec_grid().spec_state_at(r) is Empty,
            final(self).spec_grid().spec_state_at(r) is Claimed,
            forall|other: PointIndex|
                old(self).spec_grid().in_range(other) && other != r ==> final(self).spec_grid().spec_state_at(other) == old(self).spec_grid().spec_state_at(other),
    {
        let (rows, cols): (usize, usize) = self.grid.get_dimensions();
        let rng_row: usize = draw_in_range(0, rows);
        let rng_col: usize = draw_in_range(0, cols);
        let lucky: PointIndex = PointIndex { row: rng_row, col: rng_col };
        if self.grid.point_at(rng_row, rng_col).state().is_empty() {
            let _prior: PointState<usize> = self.grid.replace_at(lucky, PointState::Claimed);
            self.occupied_points = self.occupied_points + 1;
            return lucky;
        }
        let mut row: usize = 0;
        while row < rows
            invariant
                row <= rows,
                *self == *old(self),
                old(self).wf(),
                old(self).spec_occupied() < usize::MAX,
                (rows, cols) == (old(self).spec_grid().spec_rows(), old(self).spec_grid().spec_cols()),
                forall|idx: PointIndex|
                    idx.row < row && idx.col < cols ==> !((#[trigger] self.grid.spec_state_at(
                        idx,
                    )) is Empty),
            decreases rows - row,
        {
            let mut col: usize = 0;
            while col < cols
                invariant
                    row < rows,
                    col <= cols,
                    *self == *old(self),
                    old(self).wf(),
                    old(self).spec_occupied() < usize::MAX,
                    (rows, cols) == (old(self).spec_grid().spec_rows(), old(self).spec_grid().spec_cols()),
                    forall|idx: PointIndex|
                        idx.row < row && idx.col < cols ==> !((#[trigger] self.grid.spec_state_at(
                            idx,
                        )) is Empty),
                    forall|idx: PointIndex|
                        idx.row == row && idx.col < col ==> !((#[trigger] self.grid.spec_state_at(
                            idx,
                        )) is Empty),
                decreases cols - col,
            {
                let here: PointIndex = PointIndex { row, col };
                if self.grid.point_at(row, col).state().is_empty() {
                    let _prior: PointState<usize> = self.grid.replace_at(
                        here,
                        PointState::Claimed,
                    );
                    self.occupied_points = self.occupied_points + 1;
                    return here;
                }
                col = col + 1;
            }
            row = row + 1;
        }
        proof {
            let idx = choose|idx: PointIndex|
                old(self).spec_grid().in_range(idx) && (#[trigger] old(self).spec_grid().spec_state_at(idx)) is Empty;
            assert(!(self.grid.spec_state_at(idx) is Empty));
            assert(false);  // the scan covered the whole grid, against the witness
        }
        PointIndex { row: 0, col: 0 }
    }
}

/// The per-world observer seed.
struct ObserverSeed {
    observer: Observer,
}

impl ObserverSeed {
    fn new() -> (r: Self)
        ensures
            r.observer.human_count == 0,
            r.observer.zombie_count == 0,
    {
        Self { observer: Observer::new() }
    }
}

/// Everything a freshly seeded agent hooks into: the shared directory,
/// the shared grid, and the shared observer, owned here while the world
/// is being built and surrendered when it is done.
pub struct FeatureSeed {
    message: MessageSeed,
    grid_seed: GridSeed,
    observer: ObserverSeed,
}

impl FeatureSeed {
    pub closed spec fn spec_addresses(&self) -> AddressCollection<Message> {
        self.message.spec_addresses()
    }

    pub closed spec fn spec_grid(&self) -> Grid<usize> {
        self.grid_seed.spec_grid()
    }

    pub closed spec fn spec_occupied(&self) -> usize {
        self.grid_seed.spec_occupied()
    }

    pub closed spec fn spec_observer(&self) -> Observer {
        self.observer.observer
    }

    pub open spec fn wf(&self) -> bool {
        self.spec_addresses().wf() && self.spec_grid().wf()
    }

    pub fn new(message_seed: MessageSeed, grid_seed: GridSeed) -> (r: Self)
        requires
            message_seed.spec_addresses().wf(),
            grid_seed.wf(),
        ensures
            r.wf(),
            r.spec_addresses() == message_seed.spec_addresses(),
            r.spec_grid() == grid_seed.spec_grid(),
            r.spec_occupied() == grid_seed.spec_occupied(),
            r.spec_observer().human_count == 0,
            r.spec_observer().zombie_count == 0,
    {
        Self { message: message_seed, grid_seed, observer: ObserverSeed::new() }
    }

    /// Build and register a message interface for `id`.
    pub fn new_communicator(&mut self, id: usize) -> (r: MessageInterface<Message>)
        requires
            old(self).wf(),
        ensures
            final(self).wf(),
            final(self).spec_grid() == old(self).spec_grid(),
            final(self).spec_occupied() == old(self).spec_occupied(),
            final(self).spec_observer() == old(self).spec_observer(),
            final(self).spec_addresses().addr_map().dom() == old(self).spec_addresses().addr_map().dom().insert(id),
            final(self).spec_addresses().addr_map()[id].lock_state() is Free,
            final(self).spec_addresses().addr_map()[id].stored().queue() == Map::<
                usize,
                Message,
            >::empty(),
            forall|other: usize|
                other != id && old(self).spec_addresses().addr_map().dom().contains(other)
                    ==> final(self).spec_addresses().addr_map()[other] == old(self).spec_addresses().addr_map()[other],
            r.agent_inbox == id,
            r.agent_outbox.spec_identity() == id,
            r.agent_outbox.queue_wf(),
            r.agent_outbox.queue() == Map::<usize, Message>::empty(),
    {
        MessageInterface::new(id, &mut self.message.addresses)
    }

    /// Claim a still-empty position for a fresh agent.
    pub fn new_position(&mut self) -> (r: GridPosition)
        requires
            old(self).wf(),
            old(self).spec_grid().spec_rows() > 0,
            old(self).spec_grid().spec_cols() > 0,
            old(self).spec_occupied() < usize::MAX,
            exists|idx: PointIndex|
                old(self).spec_grid().in_range(idx) && (#[trigger] old(self).spec_grid().spec_state_at(idx)) is Empty,
        ensures
            final(self).wf(),
            final(self).spec_addresses() == old(self).spec_addresses(),
            final(self).spec_observer() == old(self).spec_observer(),
            final(self).spec_grid().spec_rows() == old(self).spec_grid().spec_rows(),
            final(self).spec_grid().spec_cols() == old(self).spec_grid().spec_cols(),
            final(self).spec_occupied() == old(self).spec_occupied() + 1,
            final(self).spec_grid().in_range(r.spec_tile()),
            old(self).spec_grid().spec_state_at(r.spec_tile()) is Empty,
            final(self).spec_grid().spec_state_at(r.spec_tile()) is Claimed,
            forall|other: PointIndex|
                old(self).spec_grid().in_range(other) && other != r.spec_tile() ==> final(self).spec_grid().spec_state_at(other) == old(self).spec_grid().spec_state_at(other),
    {
        let point: PointIndex = self.grid_seed.unchecked_new_point();
        GridPosition::new(point)
    }

    /// Tally a fresh agent of `kind` on the shared observer.
    pub fn new_observer(&mut self, kind: &Kind)
        requires
            old(self).wf(),
            *kind == Kind::Human ==> old(self).spec_observer().human_count < i64::MAX,
            *kind == Kind::Zombie ==> old(self).spec_observer().zombie_count < i64::MAX,
        ensures
            final(self).wf(),
            final(self).spec_addresses() == old(self).spec_addresses(),
            final(self).spec_grid() == old(self).spec_grid(),
            final(self).spec_occupied() == old(self).spec_occupied(),
            *kind == Kind::Human ==> final(self).spec_observer().human_count == old(self).spec_observer().human_count + 1 && final(self).spec_observer().zombie_count == old(self).spec_observer().zombie_count,
            *kind == Kind::Zombie ==> final(self).spec_observer().zombie_count == old(self).spec_observer().zombie_count + 1 && final(self).spec_observer().human_count == old(self).spec_observer().human_count,
    {
        self.observer.observer.adjust(1, kind);
    }

    /// The shared observer's current tallies.
    pub fn as_observer(&self) -> (r: &Observer)
        ensures
            *r == self.spec_observer(),
    {
        &self.observer.observer
    }

    /// Surrender the shared features, once the world is built.
    pub fn into_parts(self) -> (r: (AddressCollection<Message>, Grid<usize>, Observer))
        ensures
            r.0 == self.spec_addresses(),
            r.1 == self.spec_grid(),
            r.2 == self.spec_observer(),
    {
        (self.message.addresses, self.grid_seed.grid, self.observer.observer)
    }
}

} // verus!
