//! A fight between two adjacent agents.  Each blow reduces one
//! combatant's health by the gap between its own health and the other's
//! supported strength, where the support is half the strength of each
//! agent of the first combatant's kind standing next to the other.

use vstd::prelude::*;

use crate::context::grid::Grid;
use crate::context::grid::PointIndex;
use crate::context::grid::PointState;
use crate::context::grid::spec_connection_of;
use crate::zombie::agents::DeadOrAlive;
use crate::zombie::agents::Kind;
use crate::zombie::agents::package::Observer;
use crate::zombie::agents::package::Package;

verus! {

/// The largest magnitude a combat statistic may reach; it keeps every
/// intermediate sum far from the integer limits.
pub const STAT_BOUND: i64 = 0x1_0000_0000;

/// The magnitude of `x`.
pub open spec fn spec_abs(x: int) -> int {
    if x < 0 {
        -x
    } else {
        x
    }
}

/// The health one combatant loses to the other: the gap between its own
/// health and the other's supported strength, in magnitude.
pub open spec fn spec_reduction(lhs_health: int, rhs_strength: int, support: int) -> int {
    spec_abs(spec_abs(lhs_health) - (spec_abs(rhs_strength) + support))
}

/// What one tile contributes to a combatant's support: half the
/// strength of an agent of `kind` standing there, else nothing.
pub open spec fn spec_contribution(
    g: &Grid<usize>,
    roster: Seq<Package>,
    kind: Kind,
    t: PointIndex,
) -> int {
    if g.in_range(t) {
        match g.spec_state_at(t) {
            PointState::Occupied(id) => if id < roster.len() && roster[id as int].spec_kind()
                == kind {
                (roster[id as int].spec_stats().strength as int) / 2
            } else {
                0
            },
            _ => 0,
        }
    } else {
        0
    }
}

/// The support a combatant standing on `tile` draws from neighbors of
/// `kind`: the contributions of its four neighbor tiles.
pub open spec fn spec_adjacent_support(
    g: &Grid<usize>,
    roster: Seq<Package>,
    kind: Kind,
    tile: PointIndex,
) -> int {
    let c = spec_connection_of(tile, g.spec_rows(), g.spec_cols());
    spec_contribution(g, roster, kind, c.north) + spec_contribution(g, roster, kind, c.east)
        + spec_contribution(g, roster, kind, c.south) + spec_contribution(g, roster, kind, c.west)
}

/// A fight between two combatants.
pub struct Skirmish;

impl Skirmish {
    pub fn new() -> (r: Self)
        ensures
            true,
    {
        Skirmish
    }

    /// The support the agent of `kind` standing on `tile` lends: half
    /// the strength of each neighbor of that kind.
    pub fn adjacent_support(
        grid: &Grid<usize>,
        roster: &Vec<Package>,
        kind: &Kind,
        tile: PointIndex,
    ) -> (r: i64)
        requires
            grid.wf(),
            grid.in_range(tile),
            forall|i: int|
                0 <= i < roster@.len() ==> 0 <= (#[trigger] roster@[i]).spec_stats().strength
                    <= STAT_BOUND,
        ensures
            r == spec_adjacent_support(grid, roster@, *kind, tile),
            0 <= r <= 2 * (STAT_BOUND as int),
    {
        let point = grid.point_at(tile.row, tile.col);
        let connections: [PointIndex; 4] = match point.get_connections() {
            Ok(c) => c,
            Err(_) => {
                proof {
                    assert(false);  // a well-formed grid is fully wired
                }
                [tile, tile, tile, tile]
            },
        };
        let mut total: i64 = 0;
        let mut slot: usize = 0;
        let ghost c = spec_connection_of(tile, grid.spec_rows(), grid.spec_cols());
        let ghost targets = seq![c.north, c.east, c.south, c.west];
        while slot < 4
            invariant
                slot <= 4,
                c == spec_connection_of(tile, grid.spec_rows(), grid.spec_cols()),
                targets == seq![c.north, c.east, c.south, c.west],
                connections@ == targets,
                grid.wf(),
                grid.in_range(tile),
                forall|i: int|
                    0 <= i < roster@.len() ==> 0 <= (#[trigger] roster@[i]).spec_stats().strength
                        <= STAT_BOUND,
                total as int == partial_support(grid, roster@, *kind, targets, slot as int),
                0 <= total as int <= (slot as int) * ((STAT_BOUND as int) / 2),
            decreases 4 - slot,
        {
            let t: PointIndex = connections[slot];
            proof {
                assert(grid.in_range(c.north) && grid.in_range(c.east) && grid.in_range(c.south)
                    && grid.in_range(c.west));
                assert(t == targets[slot as int]);
                assert(grid.in_range(t));
            }
            let neighbor = grid.point_at(t.row, t.col);
            let mut contribution: i64 = 0;
            match neighbor.state() {
                PointState::Occupied(id) => {
                    let id: usize = *id;
                    if id < roster.len() {
                        let other: &Package = &roster[id];
                        if other.as_kind().is(kind) {
                            let strength: i64 = other.as_statistics().strength;
                            contribution = ((strength as u64) / 2) as i64;
                        }
                    }
                },
                _ => {},
            }
            proof {
                assert(0 <= contribution as int <= (STAT_BOUND as int) / 2);
                assert(contribution as int == spec_contribution(grid, roster@, *kind, t));
                assert(partial_support(grid, roster@, *kind, targets, slot as int + 1)
                    == partial_support(grid, roster@, *kind, targets, slot as int)
                    + spec_contribution(grid, roster@, *kind, targets[slot as int]));
                assert((slot as int + 1) * ((STAT_BOUND as int) / 2) == (slot as int) * ((
                STAT_BOUND as int) / 2) + ((STAT_BOUND as int) / 2)) by (nonlinear_arith);
                assert((slot as int) * ((STAT_BOUND as int) / 2) <= 3 * ((STAT_BOUND as int) / 2))
                    by (nonlinear_arith)
                    requires
                        0 <= slot as int <= 3,
                ;
            }
            total = total + contribution;
            slot = slot + 1;
        }
        proof {
            reveal_with_fuel(partial_support, 5);
        }
        total
    }

    /// The health `lhs` loses to `rhs` when `rhs` draws `support` from
    /// its neighbors.
    pub fn calculate_health_reduction(lhs: &Package, rhs: &Package, support: i64) -> (r: i64)
        requires
            spec_abs(lhs.spec_stats().health as int) <= STAT_BOUND as int,
            spec_abs(rhs.spec_stats().strength as int) <= STAT_BOUND as int,
            0 <= support <= 2 * (STAT_BOUND as int),
        ensures
            r as int == spec_reduction(
                lhs.spec_stats().health as int,
                rhs.spec_stats().strength as int,
                support as int,
            ),
            0 <= r <= 4 * (STAT_BOUND as int),
    {
        let lhs_health: i64 = {
            let h = lhs.as_statistics().health;
            if h < 0 {
                -h
            } else {
                h
            }
        };
        let rhs_strength: i64 = {
            let s = rhs.as_statistics().strength;
            if s < 0 {
                -s
            } else {
                s
            }
        };
        let gap: i64 = lhs_health - (rhs_strength + support);
        if gap < 0 {
            -gap
        } else {
            gap
        }
    }

    /// Strike once: `lhs` loses the calculated reduction against `rhs`.
    pub fn calculate_and_reduce(lhs: &mut Package, rhs: &Package, support: i64)
        requires
            spec_abs(old(lhs).spec_stats().health as int) <= STAT_BOUND as int,
            spec_abs(rhs.spec_stats().strength as int) <= STAT_BOUND as int,
            0 <= support <= 2 * (STAT_BOUND as int),
        ensures
            final(lhs).spec_stats().health == old(lhs).spec_stats().health - spec_reduction(
                old(lhs).spec_stats().health as int,
                rhs.spec_stats().strength as int,
                support as int,
            ),
            final(lhs).spec_stats().strength == old(lhs).spec_stats().strength,
            final(lhs).spec_kind() == old(lhs).spec_kind(),
            final(lhs).spec_id() == old(lhs).spec_id(),
            final(lhs).spec_position() == old(lhs).spec_position(),
            final(lhs).spec_alive() == old(lhs).spec_alive(),
            final(lhs).spec_comm() == old(lhs).spec_comm(),
    {
        let reduction: i64 = Self::calculate_health_reduction(lhs, rhs, support);
        Self::reduce_health(lhs, reduction);
    }

    /// Lower the target's health by `reduction`.
    pub fn reduce_health(target: &mut Package, reduction: i64)
        requires
            i64::MIN <= old(target).spec_stats().health - reduction <= i64::MAX,
        ensures
            final(target).spec_stats().health == old(target).spec_stats().health - reduction,
            final(target).spec_stats().strength == old(target).spec_stats().strength,
            final(target).spec_kind() == old(target).spec_kind(),
            final(target).spec_id() == old(target).spec_id(),
            final(target).spec_position() == old(target).spec_position(),
            final(target).spec_alive() == old(target).spec_alive(),
            final(target).spec_comm() == old(target).spec_comm(),
    {
        let health: i64 = target.as_statistics().health;
        target.as_statistics_mut().health = health - reduction;
    }

    /// Fight: alpha takes beta's blow; if beta's health was already
    /// spent it falls, otherwise beta takes alpha's blow in turn and
    /// alpha falls if its health is spent.  A fallen combatant leaves
    /// play as the death rules of its kind dictate.
    pub fn fight(
        self,
        alpha: &mut Package,
        beta: &mut Package,
        support_for_beta: i64,
        support_for_alpha: i64,
        grid: &mut Grid<usize>,
        observer: &mut Observer,
    )
        requires
            spec_abs(old(alpha).spec_stats().health as int) <= STAT_BOUND as int,
            spec_abs(old(beta).spec_stats().health as int) <= STAT_BOUND as int,
            spec_abs(old(alpha).spec_stats().strength as int) <= STAT_BOUND as int,
            spec_abs(old(beta).spec_stats().strength as int) <= STAT_BOUND as int,
            0 <= support_for_beta <= 2 * (STAT_BOUND as int),
            0 <= support_for_alpha <= 2 * (STAT_BOUND as int),
            old(grid).wf(),
            old(grid).in_range(old(alpha).spec_position().spec_tile()),
            old(grid).in_range(old(beta).spec_position().spec_tile()),
            i64::MIN < old(observer).human_count,
            i64::MIN < old(observer).zombie_count,
        ensures
            final(grid).wf(),
            final(grid).spec_rows() == old(grid).spec_rows(),
            final(grid).spec_cols() == old(grid).spec_cols(),
            final(alpha).spec_stats().health == old(alpha).spec_stats().health - spec_reduction(
                old(alpha).spec_stats().health as int,
                old(beta).spec_stats().strength as int,
                support_for_beta as int,
            ),
            old(beta).spec_stats().health < 1 ==> final(beta).spec_stats() == old(
                beta,
            ).spec_stats() && final(alpha).spec_alive() == old(alpha).spec_alive(),
            old(beta).spec_stats().health >= 1 ==> final(beta).spec_stats().health == old(
                beta,
            ).spec_stats().health - spec_reduction(
                old(beta).spec_stats().health as int,
                old(alpha).spec_stats().strength as int,
                support_for_alpha as int,
            ) && final(beta).spec_alive() == old(beta).spec_alive(),
    {
        Self::calculate_and_reduce(alpha, beta, support_for_beta);
        if beta.as_statistics().health < 1 {
            beta.set_dead(grid, observer);
        } else {
            Self::calculate_and_reduce(beta, alpha, support_for_alpha);
            if alpha.as_statistics().health < 1 {
                alpha.set_dead(grid, observer);
            }
        }
    }
}

/// The running sum over the first `upto` support targets.
spec fn partial_support(
    g: &Grid<usize>,
    roster: Seq<Package>,
    kind: Kind,
    targets: Seq<PointIndex>,
    upto: int,
) -> int
    decreases upto,
{
    if upto <= 0 {
        0
    } else {
        partial_support(g, roster, kind, targets, upto - 1) + spec_contribution(
            g,
            roster,
            kind,
            targets[upto - 1],
        )
    }
}

} // verus!
