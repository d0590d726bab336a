//! Picking the next tile: each of the four neighbor tiles is scored by
//! who stands on it, by the observer's tallies, and by the sighting
//! reports drained from the agent's own inbox; the best-scoring tile
//! wins.

use vstd::prelude::*;

use crate::context::GridPosition;
use crate::context::grid::Grid;
use crate::context::grid::PointIndex;
use crate::context::grid::PointState;
use crate::context::grid::spec_connection_of;
use crate::context::grid::spec_toroidal_distance;
use crate::message::AddressCollection;
use crate::message::AgentInbox;
use crate::message::MessageFlush;
use crate::message::MessageQueue;
use crate::utils::random::draw_in_range;
use crate::utils::sync::GreedyCell;
use crate::utils::sync::GreedyLock;
use crate::zombie::agents::Kind;
use crate::zombie::agents::Message;
use crate::zombie::agents::Report;
use crate::zombie::agents::ReportKind;
use crate::zombie::agents::package::Observer;
use crate::zombie::agents::package::Package;

verus! {

/// The most entries a report may carry, and the most reports one
/// evaluation folds in; both keep the running score far from the
/// integer limits.
pub const REPORT_BOUND: usize = 0x1000;

/// What standing agents contribute to a tile's score: a random bonus
/// for an ally, a fixed bonus or penalty for an enemy depending on the
/// evaluator's side and the observer's tallies.
pub open spec fn spec_kind_score(
    g: &Grid<usize>,
    roster: Seq<Package>,
    observer: Observer,
    target: PointIndex,
    own_kind: Kind,
    draw: int,
) -> int {
    match g.spec_state_at(target) {
        PointState::Occupied(id) => if id < roster.len() {
            if roster[id as int].spec_kind() == own_kind {
                draw
            } else if own_kind == Kind::Human {
                if observer.human_count > observer.zombie_count / 4 {
                    100
                } else {
                    -20
                }
            } else {
                100
            }
        } else {
            0
        },
        _ => 0,
    }
}

/// What one reported position contributes: a large bonus for the
/// evaluated tile itself, a small one for a tile closer to the sighting
/// than the evaluator stands.
pub open spec fn spec_modifier_contribution(
    g: &Grid<usize>,
    target: PointIndex,
    bench: int,
    idx: PointIndex,
    match_delta: int,
    closer_delta: int,
) -> int {
    if idx == target {
        match_delta
    } else if g.in_range(idx) && spec_toroidal_distance(target, idx, g.spec_rows(), g.spec_cols())
        < bench {
        closer_delta
    } else {
        0
    }
}

/// The contributions of every position of one report.
pub open spec fn spec_modifier_sum(
    g: &Grid<usize>,
    target: PointIndex,
    bench: int,
    inner: Seq<PointIndex>,
    match_delta: int,
    closer_delta: int,
) -> int
    decreases inner.len(),
{
    if inner.len() == 0 {
        0
    } else {
        spec_modifier_sum(g, target, bench, inner.drop_last(), match_delta, closer_delta)
            + spec_modifier_contribution(g, target, bench, inner.last(), match_delta, closer_delta)
    }
}

/// The deltas one report applies: allies pull gently, enemies pull
/// strongly or push away depending on the evaluator's side and the
/// observer's tallies.
pub open spec fn spec_report_deltas(observer: Observer, own_kind: Kind, report_kind: ReportKind) -> (
    int,
    int,
) {
    if report_kind == ReportKind::Allies {
        (20, 5)
    } else if own_kind == Kind::Human {
        if observer.human_count > observer.zombie_count / 4 {
            (30, 10)
        } else {
            (-20, -10)
        }
    } else {
        (30, 10)
    }
}

/// The total score a list of reports adds to a tile.
pub open spec fn spec_reports_sum(
    g: &Grid<usize>,
    observer: Observer,
    own_kind: Kind,
    target: PointIndex,
    bench: int,
    reports: Seq<Report>,
) -> int
    decreases reports.len(),
{
    if reports.len() == 0 {
        0
    } else {
        let deltas = spec_report_deltas(observer, own_kind, reports.last().spec_kind());
        spec_reports_sum(g, observer, own_kind, target, bench, reports.drop_last())
            + spec_modifier_sum(g, target, bench, reports.last().spec_inner(), deltas.0, deltas.1)
    }
}

/// One tile being scored for one evaluator.
#[derive(Clone, Copy)]
pub struct Evaluation {
    target: PointIndex,
    kind: Kind,
    score: i64,
}

impl Evaluation {
    pub closed spec fn spec_target(&self) -> PointIndex {
        self.target
    }

    pub closed spec fn spec_evaluator_kind(&self) -> Kind {
        self.kind
    }

    pub closed spec fn spec_score(&self) -> i64 {
        self.score
    }

    /// Start scoring `target` for an evaluator of `kind`, from zero.
    pub fn new(target: PointIndex, kind: Kind) -> (r: Self)
        ensures
            r.spec_target() == target,
            r.spec_evaluator_kind() == kind,
            r.spec_score() == 0,
    {
        Self { target, kind, score: 0 }
    }

    /// Score the tile: who stands on it, then every sighting report.
    /// The ally bonus is a fresh random draw in 10..15, so the result
    /// is pinned only up to that draw.
    pub fn evaluate_tile(
        self,
        grid: &Grid<usize>,
        roster: &Vec<Package>,
        observer: &Observer,
        own_tile: PointIndex,
        reports: &Vec<Report>,
    ) -> (r: i64)
        requires
            grid.wf(),
            grid.in_range(self.spec_target()),
            grid.in_range(own_tile),
            self.spec_score() == 0,
            0 <= observer.zombie_count,
            reports@.len() <= REPORT_BOUND,
            forall|i: int|
                0 <= i < reports@.len() ==> (#[trigger] reports@[i]).spec_inner().len()
                    <= REPORT_BOUND,
        ensures
            exists|draw: int|
                10 <= draw < 15 && r as int == spec_kind_score(
                    grid,
                    roster@,
                    *observer,
                    self.spec_target(),
                    self.spec_evaluator_kind(),
                    draw,
                ) + spec_reports_sum(
                    grid,
                    *observer,
                    self.spec_evaluator_kind(),
                    self.spec_target(),
                    spec_toroidal_distance(
                        self.spec_target(),
                        own_tile,
                        grid.spec_rows(),
                        grid.spec_cols(),
                    ),
                    reports@,
                ),
    {
        let ghost this0 = self;
        let scored = self.kind_step(grid, roster, observer);
        let ghost draw_used = choose|draw: int|
            10 <= draw < 15 && scored.spec_score() as int == spec_kind_score(
                grid,
                roster@,
                *observer,
                this0.spec_target(),
                this0.spec_evaluator_kind(),
                draw,
            );
        let finished = scored.proximity(grid, observer, own_tile, reports);
        proof {
            assert(10 <= draw_used < 15 && finished.spec_score() as int == spec_kind_score(
                grid,
                roster@,
                *observer,
                this0.spec_target(),
                this0.spec_evaluator_kind(),
                draw_used,
            ) + spec_reports_sum(
                grid,
                *observer,
                this0.spec_evaluator_kind(),
                this0.spec_target(),
                spec_toroidal_distance(
                    this0.spec_target(),
                    own_tile,
                    grid.spec_rows(),
                    grid.spec_cols(),
                ),
                reports@,
            ));
        }
        finished.score
    }

    /// Score who stands on the tile.
    fn kind_step(self, grid: &Grid<usize>, roster: &Vec<Package>, observer: &Observer) -> (r: Self)
        requires
            grid.wf(),
            grid.in_range(self.spec_target()),
            self.spec_score() == 0,
            0 <= observer.zombie_count,
        ensures
            r.spec_target() == self.spec_target(),
            r.spec_evaluator_kind() == self.spec_evaluator_kind(),
            exists|draw: int|
                10 <= draw < 15 && r.spec_score() as int == spec_kind_score(
                    grid,
                    roster@,
                    *observer,
                    self.spec_target(),
                    self.spec_evaluator_kind(),
                    draw,
                ),
            -20 <= r.spec_score() <= 100,
    {
        let mut this = self;
        let drawn: usize = draw_in_range(10, 15);
        let ghost draw = drawn as int;
        match grid.point_at(this.target.row, this.target.col).state() {
            PointState::Occupied(id) => {
                let id: usize = *id;
                if id < roster.len() {
                    let occupier: &Package = &roster[id];
                    if occupier.as_kind().is(&this.kind) {
                        this.score = this.score + drawn as i64;
                    } else if this.kind.is(&Kind::Human) {
                        let zc: i64 = observer.zombie_count;
                        let quarter: i64 = ((zc as u64) / 4) as i64;
                        if observer.human_count > quarter {
                            this.score = this.score + 100;
                        } else {
                            this.score = this.score - 20;
                        }
                    } else {
                        this.score = this.score + 100;
                    }
                }
            },
            _ => {},
        }
        proof {
            assert(10 <= draw < 15 && this.spec_score() as int == spec_kind_score(
                grid,
                roster@,
                *observer,
                self.spec_target(),
                self.spec_evaluator_kind(),
                draw,
            ));
        }
        this
    }

    /// Fold every sighting report into the score.
    fn proximity(
        self,
        grid: &Grid<usize>,
        observer: &Observer,
        own_tile: PointIndex,
        reports: &Vec<Report>,
    ) -> (r: Self)
        requires
            grid.wf(),
            grid.in_range(self.spec_target()),
            grid.in_range(own_tile),
            -20 <= self.spec_score() <= 100,
            0 <= observer.zombie_count,
            reports@.len() <= REPORT_BOUND,
            forall|i: int|
                0 <= i < reports@.len() ==> (#[trigger] reports@[i]).spec_inner().len()
                    <= REPORT_BOUND,
        ensures
            r.spec_target() == self.spec_target(),
            r.spec_evaluator_kind() == self.spec_evaluator_kind(),
            r.spec_score() as int == self.spec_score() + spec_reports_sum(
                grid,
                *observer,
                self.spec_evaluator_kind(),
                self.spec_target(),
                spec_toroidal_distance(
                    self.spec_target(),
                    own_tile,
                    grid.spec_rows(),
                    grid.spec_cols(),
                ),
                reports@,
            ),
    {
        let mut this = self;
        let benchmark: usize = grid.toroidal_distance_between(
            grid.point_at(this.target.row, this.target.col),
            grid.point_at(own_tile.row, own_tile.col),
        );
        let ghost rs = reports@;
        let mut i: usize = 0;
        while i < reports.len()
            invariant
                i <= rs.len(),
                reports@ == rs,
                rs.len() <= REPORT_BOUND,
                forall|j: int|
                    0 <= j < rs.len() ==> (#[trigger] rs[j]).spec_inner().len() <= REPORT_BOUND,
                grid.wf(),
                grid.in_range(this.target),
                grid.in_range(own_tile),
                0 <= observer.zombie_count,
                this.spec_target() == self.spec_target(),
                this.spec_evaluator_kind() == self.spec_evaluator_kind(),
                benchmark as int == spec_toroidal_distance(
                    self.spec_target(),
                    own_tile,
                    grid.spec_rows(),
                    grid.spec_cols(),
                ),
                this.spec_score() as int == self.spec_score() + spec_reports_sum(
                    grid,
                    *observer,
                    self.spec_evaluator_kind(),
                    self.spec_target(),
                    benchmark as int,
                    rs.subrange(0, i as int),
                ),
                spec_abs_i64(this.spec_score()) <= 100 + 122880 * (i as int),
            decreases rs.len() - i,
        {
            let report: &Report = &reports[i];
            let evaluation = DistanceEvaluation::new(benchmark, this);
            let stepped = evaluation.sort(report, grid, observer);
            proof {
                assert(rs.subrange(0, i + 1).drop_last() =~= rs.subrange(0, i as int));
                assert(rs.subrange(0, i + 1).last() == rs[i as int]);
            }
            this = stepped;
            i = i + 1;
        }
        proof {
            assert(rs.subrange(0, rs.len() as int) =~= rs);
        }
        this
    }
}

/// The magnitude of an i64, as an integer.
pub open spec fn spec_abs_i64(x: i64) -> int {
    if x < 0 {
        -(x as int)
    } else {
        x as int
    }
}

/// One report being folded into a tile's evaluation.
#[derive(Clone, Copy)]
pub struct DistanceEvaluation {
    benchmark_distance: usize,
    evaluation: Evaluation,
}

impl DistanceEvaluation {
    pub closed spec fn spec_benchmark(&self) -> usize {
        self.benchmark_distance
    }

    pub closed spec fn spec_evaluation(&self) -> Evaluation {
        self.evaluation
    }

    fn new(benchmark_distance: usize, evaluation: Evaluation) -> (r: Self)
        ensures
            r.spec_benchmark() == benchmark_distance,
            r.spec_evaluation() == evaluation,
    {
        Self { benchmark_distance, evaluation }
    }

    /// Apply the report with the deltas its kind and the observer's
    /// tallies dictate.
    fn sort(self, report: &Report, grid: &Grid<usize>, observer: &Observer) -> (r: Evaluation)
        requires
            grid.wf(),
            grid.in_range(self.spec_evaluation().spec_target()),
            0 <= observer.zombie_count,
            report.spec_inner().len() <= REPORT_BOUND,
            spec_abs_i64(self.spec_evaluation().spec_score()) <= 503316580,
        ensures
            r.spec_target() == self.spec_evaluation().spec_target(),
            r.spec_evaluator_kind() == self.spec_evaluation().spec_evaluator_kind(),
            ({
                let deltas = spec_report_deltas(
                    *observer,
                    self.spec_evaluation().spec_evaluator_kind(),
                    report.spec_kind(),
                );
                r.spec_score() as int == self.spec_evaluation().spec_score() + spec_modifier_sum(
                    grid,
                    self.spec_evaluation().spec_target(),
                    self.spec_benchmark() as int,
                    report.spec_inner(),
                    deltas.0,
                    deltas.1,
                )
            }),
            spec_abs_i64(r.spec_score()) <= spec_abs_i64(self.spec_evaluation().spec_score()) + 30
                * (report.spec_inner().len() as int),
    {
        let is_allies: bool = report.is(&ReportKind::Allies);
        if is_allies {
            self.ally(report, grid)
        } else {
            self.enemy(report, grid, observer)
        }
    }

    /// An enemy report pulls the evaluator toward the sighting, or
    /// pushes a beleaguered human away from it.
    fn enemy(self, report: &Report, grid: &Grid<usize>, observer: &Observer) -> (r: Evaluation)
        requires
            grid.wf(),
            grid.in_range(self.spec_evaluation().spec_target()),
            0 <= observer.zombie_count,
            report.spec_kind() != ReportKind::Allies,
            report.spec_inner().len() <= REPORT_BOUND,
            spec_abs_i64(self.spec_evaluation().spec_score()) <= 503316580,
        ensures
            r.spec_target() == self.spec_evaluation().spec_target(),
            r.spec_evaluator_kind() == self.spec_evaluation().spec_evaluator_kind(),
            ({
                let deltas = spec_report_deltas(
                    *observer,
                    self.spec_evaluation().spec_evaluator_kind(),
                    report.spec_kind(),
                );
                r.spec_score() as int == self.spec_evaluation().spec_score() + spec_modifier_sum(
                    grid,
                    self.spec_evaluation().spec_target(),
                    self.spec_benchmark() as int,
                    report.spec_inner(),
                    deltas.0,
                    deltas.1,
                )
            }),
            spec_abs_i64(r.spec_score()) <= spec_abs_i64(self.spec_evaluation().spec_score()) + 30
                * (report.spec_inner().len() as int),
    {
        let human: bool = self.evaluation.kind.is(&Kind::Human);
        if human {
            let zc: i64 = observer.zombie_count;
            let quarter: i64 = ((zc as u64) / 4) as i64;
            if observer.human_count > quarter {
                self.report_modifier(report, 30, 10, grid)
            } else {
                self.report_modifier(report, -20, -10, grid)
            }
        } else {
            self.report_modifier(report, 30, 10, grid)
        }
    }

    /// An ally report pulls the evaluator gently toward the sighting.
    fn ally(self, report: &Report, grid: &Grid<usize>) -> (r: Evaluation)
        requires
            grid.wf(),
            grid.in_range(self.spec_evaluation().spec_target()),
            report.spec_kind() == ReportKind::Allies,
            report.spec_inner().len() <= REPORT_BOUND,
            spec_abs_i64(self.spec_evaluation().spec_score()) <= 503316580,
        ensures
            r.spec_target() == self.spec_evaluation().spec_target(),
            r.spec_evaluator_kind() == self.spec_evaluation().spec_evaluator_kind(),
            r.spec_score() as int == self.spec_evaluation().spec_score() + spec_modifier_sum(
                grid,
                self.spec_evaluation().spec_target(),
                self.spec_benchmark() as int,
                report.spec_inner(),
                20,
                5,
            ),
            spec_abs_i64(r.spec_score()) <= spec_abs_i64(self.spec_evaluation().spec_score()) + 30
                * (report.spec_inner().len() as int),
    {
        self.report_modifier(report, 20, 5, grid)
    }

    /// Walk the reported positions: the evaluated tile itself earns the
    /// match delta, a tile closer to a sighting than the evaluator
    /// stands earns the closer delta.
    fn report_modifier(self, report: &Report, match_delta: i64, closer_delta: i64, grid: &Grid<
        usize,
    >) -> (r: Evaluation)
        requires
            grid.wf(),
            grid.in_range(self.spec_evaluation().spec_target()),
            -30 <= match_delta <= 30,
            -30 <= closer_delta <= 30,
            report.spec_inner().len() <= REPORT_BOUND,
            spec_abs_i64(self.spec_evaluation().spec_score()) <= 503316580,
        ensures
            r.spec_target() == self.spec_evaluation().spec_target(),
            r.spec_evaluator_kind() == self.spec_evaluation().spec_evaluator_kind(),
            r.spec_score() as int == self.spec_evaluation().spec_score() + spec_modifier_sum(
                grid,
                self.spec_evaluation().spec_target(),
                self.spec_benchmark() as int,
                report.spec_inner(),
                match_delta as int,
                closer_delta as int,
            ),
            spec_abs_i64(r.spec_score()) <= spec_abs_i64(self.spec_evaluation().spec_score()) + 30
                * (report.spec_inner().len() as int),
    {
        let mut evaluation: Evaluation = self.evaluation;
        let target: PointIndex = evaluation.target;
        let benchmark: usize = self.benchmark_distance;
        let others: &Vec<PointIndex> = report.as_inner();
        let ghost inner = others@;
        let (rows, cols): (usize, usize) = grid.get_dimensions();
        let mut i: usize = 0;
        while i < others.len()
            invariant
                i <= inner.len(),
                others@ == inner,
                inner.len() <= REPORT_BOUND,
                grid.wf(),
                grid.in_range(target),
                target == self.spec_evaluation().spec_target(),
                benchmark == self.spec_benchmark(),
                (rows, cols) == (grid.spec_rows(), grid.spec_cols()),
                -30 <= match_delta <= 30,
                -30 <= closer_delta <= 30,
                spec_abs_i64(self.spec_evaluation().spec_score()) <= 503316580,
                evaluation.spec_target() == self.spec_evaluation().spec_target(),
                evaluation.spec_evaluator_kind() == self.spec_evaluation().spec_evaluator_kind(),
                evaluation.spec_score() as int == self.spec_evaluation().spec_score()
                    + spec_modifier_sum(
                    grid,
                    target,
                    benchmark as int,
                    inner.subrange(0, i as int),
                    match_delta as int,
                    closer_delta as int,
                ),
                spec_abs_i64(evaluation.spec_score()) <= spec_abs_i64(
                    self.spec_evaluation().spec_score(),
                ) + 30 * (i as int),
            decreases inner.len() - i,
        {
            let other: PointIndex = others[i];
            if other.row == target.row && other.col == target.col {
                evaluation.score = evaluation.score + match_delta;
            } else if other.row < rows && other.col < cols {
                let reported_position = grid.point_at(other.row, other.col);
                let distance: usize = grid.toroidal_distance_between(
                    grid.point_at(target.row, target.col),
                    reported_position,
                );
                if distance < benchmark {
                    evaluation.score = evaluation.score + closer_delta;
                }
            }
            proof {
                assert(inner.subrange(0, i + 1).drop_last() =~= inner.subrange(0, i as int));
                assert(inner.subrange(0, i + 1).last() == inner[i as int]);
            }
            i = i + 1;
        }
        proof {
            assert(inner.subrange(0, inner.len() as int) =~= inner);
        }
        evaluation
    }
}

/// One agent picking its next tile.
pub struct Selection {
    own_tile: PointIndex,
    own_kind: Kind,
    own_inbox: usize,
}

impl Selection {
    pub closed spec fn spec_own_tile(&self) -> PointIndex {
        self.own_tile
    }

    pub closed spec fn spec_own_kind(&self) -> Kind {
        self.own_kind
    }

    pub closed spec fn spec_own_inbox(&self) -> usize {
        self.own_inbox
    }

    /// Start a selection from `package`'s point of view.
    pub fn new(package: &Package) -> (r: Self)
        ensures
            r.spec_own_tile() == package.spec_position().spec_tile(),
            r.spec_own_kind() == package.spec_kind(),
            r.spec_own_inbox() == package.spec_comm().agent_inbox,
    {
        Self {
            own_tile: package.as_tile().get_tile(),
            own_kind: *package.as_kind(),
            own_inbox: package.as_messenger().agent_inbox,
        }
    }

    /// Drain the agent's own inbox, score the four neighbor tiles with
    /// the drained reports, and pick the best; the winner is always one
    /// of the four neighbors.  Oversized reports are dropped to keep the
    /// scores within machine range, and the random ally bonus means the
    /// choice among the neighbors is pinned only up to the draws.
    pub fn select_tile_from_grid(
        self,
        grid: &Grid<usize>,
        roster: &Vec<Package>,
        observer: &Observer,
        addresses: &mut AddressCollection<Message>,
    ) -> (r: Option<GridPosition>)
        requires
            grid.wf(),
            grid.in_range(self.spec_own_tile()),
            old(addresses).wf(),
            old(addresses).addr_map().dom().contains(self.spec_own_inbox()),
            old(addresses).addr_map()[self.spec_own_inbox()].lock_state() is Free,
            0 <= observer.zombie_count,
        ensures
            final(addresses).wf(),
            final(addresses).addr_map().dom() == old(addresses).addr_map().dom(),
            final(addresses).addr_map()[self.spec_own_inbox()].lock_state() is Free,
            final(addresses).addr_map()[self.spec_own_inbox()].stored().queue() == Map::<
                usize,
                Message,
            >::empty(),
            forall|id: usize|
                id != self.spec_own_inbox() && old(addresses).addr_map().dom().contains(id)
                    ==> final(addresses).addr_map()[id] == old(addresses).addr_map()[id],
            r matches Some(gp) && grid.in_range(gp.spec_tile()) && ({
                let c = spec_connection_of(
                    self.spec_own_tile(),
                    grid.spec_rows(),
                    grid.spec_cols(),
                );
                gp.spec_tile() == c.north || gp.spec_tile() == c.east || gp.spec_tile() == c.south
                    || gp.spec_tile() == c.west
            }),
    {
        // drain the inbox under its exclusive lock
        let mut drained: Vec<(usize, Message)> = Vec::new();
        {
            let store = addresses.get_addresses();
            let cell: &mut GreedyCell<AgentInbox<Message>> = store.get_mut(self.own_inbox);
            cell.await_greedy_lock();
            {
                let inbox: &mut AgentInbox<Message> = cell.locked_mut();
                drained = inbox.flush_messages();
            }
            cell.release_exclusive();
        }
        let mut reports: Vec<Report> = Vec::new();
        while drained.len() > 0
            invariant
                reports@.len() <= drained@.len() + reports@.len(),
                reports@.len() <= REPORT_BOUND,
                forall|j: int|
                    0 <= j < reports@.len() ==> (#[trigger] reports@[j]).spec_inner().len()
                        <= REPORT_BOUND,
            decreases drained.len(),
        {
            match drained.pop() {
                Some((_, Message::Report(rep))) => {
                    if rep.as_inner().len() <= REPORT_BOUND && reports.len() < REPORT_BOUND {
                        reports.push(rep);
                    }
                },
                _ => {},
            }
        }
        // score the four neighbors and keep the best
        let own_point = grid.point_at(self.own_tile.row, self.own_tile.col);
        let connections: [PointIndex; 4] = match own_point.get_connections() {
            Ok(c) => c,
            Err(_) => {
                proof {
                    assert(false);  // a well-formed grid is fully wired
                }
                [self.own_tile, self.own_tile, self.own_tile, self.own_tile]
            },
        };
        let ghost c = spec_connection_of(self.own_tile, grid.spec_rows(), grid.spec_cols());
        proof {
            assert(grid.in_range(c.north) && grid.in_range(c.east) && grid.in_range(c.south)
                && grid.in_range(c.west));
        }
        let mut best_slot: usize = 0;
        let mut best_score: i64 = Evaluation::new(connections[0], self.own_kind).evaluate_tile(
            grid,
            roster,
            observer,
            self.own_tile,
            &reports,
        );
        let mut slot: usize = 1;
        while slot < 4
            invariant
                1 <= slot <= 4,
                best_slot < slot,
                connections@ == seq![c.north, c.east, c.south, c.west],
                c == spec_connection_of(self.own_tile, grid.spec_rows(), grid.spec_cols()),
                grid.wf(),
                grid.in_range(self.own_tile),
                grid.in_range(c.north) && grid.in_range(c.east) && grid.in_range(c.south)
                    && grid.in_range(c.west),
                self.spec_own_tile() == self.own_tile,
                0 <= observer.zombie_count,
                reports@.len() <= REPORT_BOUND,
                forall|j: int|
                    0 <= j < reports@.len() ==> (#[trigger] reports@[j]).spec_inner().len()
                        <= REPORT_BOUND,
            decreases 4 - slot,
        {
            let score: i64 = Evaluation::new(connections[slot], self.own_kind).evaluate_tile(
                grid,
                roster,
                observer,
                self.own_tile,
                &reports,
            );
            if score >= best_score {
                best_score = score;
                best_slot = slot;
            }
            slot = slot + 1;
        }
        let chosen: PointIndex = connections[best_slot];
        Some(GridPosition::new(chosen))
    }
}

} // verus!
