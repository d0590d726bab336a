//! One agent telling another what it sees: the tiles two steps around
//! it that hold allies or enemies, bundled into sighting reports and
//! queued for one recipient.

use vstd::prelude::*;

use crate::context::grid::Connection;
use crate::context::grid::Grid;
use crate::context::grid::PointIndex;
use crate::context::grid::PointState;
use crate::context::grid::spec_connection_of;
use crate::message::MessageQueue;
use crate::zombie::agents::Kind;
use crate::zombie::agents::Message;
use crate::zombie::agents::Report;
use crate::zombie::agents::ReportKind;
use crate::zombie::agents::package::Package;
use crate::message::AgentOutbox;

verus! {

/// The four neighbor indices a connection names, in north, east,
/// south, west order.
pub open spec fn four_of(c: Connection) -> Seq<PointIndex> {
    seq![c.north, c.east, c.south, c.west]
}

/// The sixteen tiles scanned for a report: the neighbors of each of the
/// observer's four neighbors.
pub open spec fn report_candidates(g: &Grid<usize>, own_tile: PointIndex) -> Seq<PointIndex> {
    let c = spec_connection_of(own_tile, g.spec_rows(), g.spec_cols());
    four_of(spec_connection_of(c.north, g.spec_rows(), g.spec_cols())) + four_of(
        spec_connection_of(c.east, g.spec_rows(), g.spec_cols()),
    ) + four_of(spec_connection_of(c.south, g.spec_rows(), g.spec_cols())) + four_of(
        spec_connection_of(c.west, g.spec_rows(), g.spec_cols()),
    )
}

/// A scanned tile makes the report when it is not the observer's own
/// tile and an agent stands there whose kind relates to the observer's
/// as asked: the same kind for an ally report, another for an enemy
/// report.
pub open spec fn report_keep(
    g: &Grid<usize>,
    roster: Seq<Package>,
    own_tile: PointIndex,
    own_kind: Kind,
    want_same: bool,
    t: PointIndex,
) -> bool {
    &&& t != own_tile
    &&& g.in_range(t)
    &&& match g.spec_state_at(t) {
        PointState::Occupied(id) => id < roster.len() && ((roster[id as int].spec_kind()
            == own_kind) <==> want_same),
        _ => false,
    }
}

/// The kept candidates, in scan order.
pub open spec fn spec_report(
    g: &Grid<usize>,
    roster: Seq<Package>,
    own_tile: PointIndex,
    own_kind: Kind,
    want_same: bool,
    cands: Seq<PointIndex>,
) -> Seq<PointIndex>
    decreases cands.len(),
{
    if cands.len() == 0 {
        Seq::empty()
    } else {
        spec_report(g, roster, own_tile, own_kind, want_same, cands.drop_last()) + (if report_keep(
            g,
            roster,
            own_tile,
            own_kind,
            want_same,
            cands.last(),
        ) {
            seq![cands.last()]
        } else {
            Seq::empty()
        })
    }
}

/// An observer's sighting reports being assembled for one recipient.
pub struct Communication {
    rc_id: usize,
    own_tile: PointIndex,
    own_kind: Kind,
    own_id: usize,
    loaded_messages: Vec<Message>,
}

impl Communication {
    /// The recipient the loaded reports are meant for.
    pub closed spec fn spec_rc_id(&self) -> usize {
        self.rc_id
    }

    pub closed spec fn spec_own_tile(&self) -> PointIndex {
        self.own_tile
    }

    pub closed spec fn spec_own_kind(&self) -> Kind {
        self.own_kind
    }

    pub closed spec fn spec_own_id(&self) -> usize {
        self.own_id
    }

    /// The messages loaded so far.
    pub closed spec fn spec_loaded(&self) -> Seq<Message> {
        self.loaded_messages@
    }

    /// Start assembling reports from `package`'s point of view, for the
    /// recipient `rc_id`.
    pub fn new(rc_id: usize, package: &Package) -> (r: Self)
        ensures
            r.spec_rc_id() == rc_id,
            r.spec_own_tile() == package.spec_position().spec_tile(),
            r.spec_own_kind() == package.spec_kind(),
            r.spec_own_id() == package.spec_id(),
            r.spec_loaded() == Seq::<Message>::empty(),
    {
        Self {
            rc_id,
            own_tile: package.as_tile().get_tile(),
            own_kind: *package.as_kind(),
            own_id: package.get_id(),
            loaded_messages: Vec::new(),
        }
    }

    /// Load an enemy-sighting report, if any enemy stands on the
    /// scanned tiles.
    pub fn find_enemies(self, grid: &Grid<usize>, roster: &Vec<Package>) -> (r: Self)
        requires
            grid.wf(),
            grid.in_range(self.spec_own_tile()),
        ensures
            r.spec_rc_id() == self.spec_rc_id(),
            r.spec_own_tile() == self.spec_own_tile(),
            r.spec_own_kind() == self.spec_own_kind(),
            r.spec_own_id() == self.spec_own_id(),
            ({
                let kept = spec_report(
                    grid,
                    roster@,
                    self.spec_own_tile(),
                    self.spec_own_kind(),
                    false,
                    report_candidates(grid, self.spec_own_tile()),
                );
                if kept.len() == 0 {
                    r.spec_loaded() == self.spec_loaded()
                } else {
                    exists|rep: Report|
                        r.spec_loaded() == self.spec_loaded().push(Message::Report(rep)) && (
                        #[trigger] rep.spec_kind()) == ReportKind::Enemies && rep.spec_inner()
                            == kept
                }
            }),
    {
        self.report(grid, roster, false, ReportKind::Enemies)
    }

    /// Load an ally-sighting report, if any ally stands on the scanned
    /// tiles.
    pub fn find_allies(self, grid: &Grid<usize>, roster: &Vec<Package>) -> (r: Self)
        requires
            grid.wf(),
            grid.in_range(self.spec_own_tile()),
        ensures
            r.spec_rc_id() == self.spec_rc_id(),
            r.spec_own_tile() == self.spec_own_tile(),
            r.spec_own_kind() == self.spec_own_kind(),
            r.spec_own_id() == self.spec_own_id(),
            ({
                let kept = spec_report(
                    grid,
                    roster@,
                    self.spec_own_tile(),
                    self.spec_own_kind(),
                    true,
                    report_candidates(grid, self.spec_own_tile()),
                );
                if kept.len() == 0 {
                    r.spec_loaded() == self.spec_loaded()
                } else {
                    exists|rep: Report|
                        r.spec_loaded() == self.spec_loaded().push(Message::Report(rep)) && (
                        #[trigger] rep.spec_kind()) == ReportKind::Allies && rep.spec_inner()
                            == kept
                }
            }),
    {
        self.report(grid, roster, true, ReportKind::Allies)
    }

    /// Scan the sixteen tiles two steps around the observer and keep
    /// the ones an agent of the asked kind relation stands on.
    fn report(self, grid: &Grid<usize>, roster: &Vec<Package>, want_same: bool, report_kind:
        ReportKind) -> (r: Self)
        requires
            grid.wf(),
            grid.in_range(self.spec_own_tile()),
        ensures
            r.spec_rc_id() == self.spec_rc_id(),
            r.spec_own_tile() == self.spec_own_tile(),
            r.spec_own_kind() == self.spec_own_kind(),
            r.spec_own_id() == self.spec_own_id(),
            ({
                let kept = spec_report(
                    grid,
                    roster@,
                    self.spec_own_tile(),
                    self.spec_own_kind(),
                    want_same,
                    report_candidates(grid, self.spec_own_tile()),
                );
                if kept.len() == 0 {
                    r.spec_loaded() == self.spec_loaded()
                } else {
                    exists|rep: Report|
                        r.spec_loaded() == self.spec_loaded().push(Message::Report(rep)) && (
                        #[trigger] rep.spec_kind()) == report_kind && rep.spec_inner() == kept
                }
            }),
    {
        let mut this = self;
        let own_point = grid.point_at(this.own_tile.row, this.own_tile.col);
        let first: [PointIndex; 4] = match own_point.get_connections() {
            Ok(c) => c,
            Err(_) => {
                proof {
                    assert(false);  // a well-formed grid is fully wired
                }
                [this.own_tile, this.own_tile, this.own_tile, this.own_tile]
            },
        };
        let ghost c0 = spec_connection_of(this.own_tile, grid.spec_rows(), grid.spec_cols());
        let ghost cands = report_candidates(grid, this.spec_own_tile());
        let mut candidates: Vec<PointIndex> = Vec::new();
        let mut quadrant: usize = 0;
        while quadrant < 4
            invariant
                quadrant <= 4,
                grid.wf(),
                grid.in_range(this.own_tile),
                c0 == spec_connection_of(this.own_tile, grid.spec_rows(), grid.spec_cols()),
                cands == report_candidates(grid, this.spec_own_tile()),
                this.spec_own_tile() == this.own_tile,
                first@ == four_of(c0),
                candidates@.len() == 4 * quadrant,
                candidates@ == cands.subrange(0, 4 * quadrant as int),
                forall|j: int|
                    0 <= j < candidates@.len() ==> grid.in_range(#[trigger] candidates@[j]),
            decreases 4 - quadrant,
        {
            let anchor: PointIndex = first[quadrant];
            proof {
                assert(grid.in_range(c0.north) && grid.in_range(c0.east) && grid.in_range(
                    c0.south,
                ) && grid.in_range(c0.west));
                assert(anchor == four_of(c0)[quadrant as int]);
            }
            let anchor_point = grid.point_at(anchor.row, anchor.col);
            let second: [PointIndex; 4] = match anchor_point.get_connections() {
                Ok(c) => c,
                Err(_) => {
                    proof {
                        assert(false);  // a well-formed grid is fully wired
                    }
                    [anchor, anchor, anchor, anchor]
                },
            };
            let ghost c1 = spec_connection_of(anchor, grid.spec_rows(), grid.spec_cols());
            proof {
                assert(grid.in_range(c1.north) && grid.in_range(c1.east) && grid.in_range(
                    c1.south,
                ) && grid.in_range(c1.west));
            }
            candidates.push(second[0]);
            candidates.push(second[1]);
            candidates.push(second[2]);
            candidates.push(second[3]);
            proof {
                lemma_candidate_quadrant(grid, this.spec_own_tile(), quadrant as int);
                assert(candidates@ =~= cands.subrange(0, 4 * (quadrant + 1) as int));
            }
            quadrant = quadrant + 1;
        }
        proof {
            assert(candidates@ =~= cands);
        }
        let mut reports: Vec<PointIndex> = Vec::new();
        let mut i: usize = 0;
        while i < candidates.len()
            invariant
                i <= candidates@.len(),
                grid.wf(),
                candidates@ == cands,
                this.spec_own_tile() == this.own_tile,
                this.spec_own_kind() == this.own_kind,
                forall|j: int|
                    0 <= j < candidates@.len() ==> grid.in_range(#[trigger] candidates@[j]),
                reports@ == spec_report(
                    grid,
                    roster@,
                    this.own_tile,
                    this.own_kind,
                    want_same,
                    cands.subrange(0, i as int),
                ),
            decreases candidates@.len() - i,
        {
            let t: PointIndex = candidates[i];
            let mut keep: bool = false;
            if !(t.row == this.own_tile.row && t.col == this.own_tile.col) {
                match grid.point_at(t.row, t.col).state() {
                    PointState::Occupied(id) => {
                        let id: usize = *id;
                        if id < roster.len() {
                            let same: bool = roster[id].as_kind().is(&this.own_kind);
                            keep = same == want_same;
                        }
                    },
                    _ => {},
                }
            }
            proof {
                assert(keep == report_keep(
                    grid,
                    roster@,
                    this.own_tile,
                    this.own_kind,
                    want_same,
                    t,
                ));
                assert(cands.subrange(0, i + 1).drop_last() =~= cands.subrange(0, i as int));
                assert(cands.subrange(0, i + 1).last() == cands[i as int]);
            }
            if keep {
                reports.push(t);
            }
            proof {
                assert(reports@ =~= spec_report(
                    grid,
                    roster@,
                    this.own_tile,
                    this.own_kind,
                    want_same,
                    cands.subrange(0, i + 1),
                ));
            }
            i = i + 1;
        }
        proof {
            assert(cands.subrange(0, cands.len() as int) =~= cands);
        }
        if reports.len() > 0 {
            let report_inner: Report = Report::new(report_kind, reports);
            this.loaded_messages.push(Message::Report(report_inner));
        }
        this
    }

    /// Queue every loaded message for the recipient.  The outbox is
    /// keyed by recipient, so of several loaded messages only the last
    /// one queued remains pending.
    pub fn prepare(self, outbox: &mut AgentOutbox<Message>)
        requires
            old(outbox).queue_wf(),
        ensures
            final(outbox).queue_wf(),
            final(outbox).spec_identity() == old(outbox).spec_identity(),
            self.spec_loaded().len() == 0 ==> final(outbox).queue() == old(outbox).queue(),
            self.spec_loaded().len() > 0 ==> final(outbox).queue() == old(outbox).queue().insert(
                self.spec_rc_id(),
                self.spec_loaded().last(),
            ),
    {
        let rc_id: usize = self.rc_id;
        let mut msgs: Vec<Message> = self.loaded_messages;
        let ghost ms = msgs@;
        let mut i: usize = 0;
        let n: usize = msgs.len();
        while i < n
            invariant
                i <= n,
                n == ms.len(),
                msgs@ == ms.subrange(i as int, ms.len() as int),
                outbox.queue_wf(),
                outbox.spec_identity() == old(outbox).spec_identity(),
                i == 0 ==> outbox.queue() == old(outbox).queue(),
                i > 0 ==> outbox.queue() == old(outbox).queue().insert(rc_id, ms[i - 1]),
            decreases n - i,
        {
            proof {
                assert(ms.subrange(i as int, ms.len() as int)[0] == ms[i as int]);
            }
            let msg: Message = msgs.remove(0);
            outbox.push(rc_id, msg);
            proof {
                assert(msgs@ =~= ms.subrange(i + 1, ms.len() as int));
                if i > 0 {
                    assert(old(outbox).queue().insert(rc_id, ms[i - 1]).insert(rc_id, ms[i as int])
                        =~= old(outbox).queue().insert(rc_id, ms[i as int]));
                }
            }
            i = i + 1;
        }
    }
}

/// The four candidates a quadrant contributes sit at the expected
/// offsets of the full candidate list.
proof fn lemma_candidate_quadrant(g: &Grid<usize>, own_tile: PointIndex, quadrant: int)
    requires
        0 <= quadrant < 4,
    ensures
        ({
            let c = spec_connection_of(own_tile, g.spec_rows(), g.spec_cols());
            let anchor = four_of(c)[quadrant];
            let cands = report_candidates(g, own_tile);
            forall|b: int|
                0 <= b < 4 ==> cands[4 * quadrant + b] == four_of(
                    spec_connection_of(anchor, g.spec_rows(), g.spec_cols()),
                )[b]
        }),
{
}

} // verus!
