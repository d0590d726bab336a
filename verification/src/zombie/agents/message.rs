//! What the scenario's agents say to each other: reports of ally and
//! enemy sightings, as lists of grid point indices.

use vstd::prelude::*;

use crate::context::grid::PointIndex;

verus! {

/// What a report is about.
#[derive(Debug, Clone, PartialEq, Eq, Structural)]
pub enum ReportKind {
    Allies,
    Enemies,
}

/// A sighting report: the kind of agents sighted and where they stood.
#[derive(Debug, Clone)]
pub struct Report {
    kind: ReportKind,
    inner: Vec<PointIndex>,
}

impl Report {
    /// What this report is about.
    pub closed spec fn spec_kind(&self) -> ReportKind {
        self.kind
    }

    /// The sighted positions.
    pub closed spec fn spec_inner(&self) -> Seq<PointIndex> {
        self.inner@
    }

    pub fn new(kind: ReportKind, inner: Vec<PointIndex>) -> (r: Self)
        ensures
            r.spec_kind() == kind,
            r.spec_inner() == inner@,
    {
        Self { inner, kind }
    }

    pub fn as_inner(&self) -> (r: &Vec<PointIndex>)
        ensures
            r@ == self.spec_inner(),
    {
        &self.inner
    }

    pub fn is(&self, target: &ReportKind) -> (r: bool)
        ensures
            r <==> self.spec_kind() == *target,
    {
        self.kind == *target
    }
}

/// One message between agents.
#[derive(Debug, Clone)]
pub enum Message {
    Report(Report),
}

} // verus!
