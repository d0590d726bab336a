//! The population framework: abstract seed strategies turned into
//! populated collections of agents.  The framework is generic glue
//! around the core: a seed hands out agents one at a time, and
//! populating an environment runs each seed for its configured quantity.

use vstd::prelude::*;

verus! {

/// Something that can be populated, consuming itself.
pub trait Population: Sized {
    type Output;

    fn populate(self) -> Self::Output;
}

/// A strategy that hands out agents one at a time, with a fixed kind
/// and a fixed quantity.
pub trait Seed: Sized {
    type Output;

    type Kind;

    /// The kind this seed produces, fixed over the seed's lifetime.
    spec fn spec_kind(&self) -> Self::Kind;

    /// How many agents this seed is meant to produce.
    spec fn spec_quantity(&self) -> usize;

    /// Hand out the next agent.  Seeding changes the strategy's internal
    /// state but never its kind or quantity.
    fn seed(&mut self) -> (r: Self::Output)
        ensures
            final(self).spec_kind() == old(self).spec_kind(),
            final(self).spec_quantity() == old(self).spec_quantity(),
    ;

    fn kind(&self) -> (r: Self::Kind)
        ensures
            r == self.spec_kind(),
    ;

    fn quantity(&self) -> (r: usize)
        ensures
            r == self.spec_quantity(),
    ;
}

/// Something that may carry a population plan exactly once.
pub trait Configuration: Sized {
    type Seed;

    fn population(&mut self) -> Option<Self::Seed>;
}

/// The population plan: the seeds to run, in order.
pub struct Demographics<S> {
    seeds: Vec<S>,
}

impl<S> Demographics<S> {
    /// The planned seeds, in order.
    pub closed spec fn seeds_seq(&self) -> Seq<S> {
        self.seeds@
    }

    pub fn new(inner: Vec<S>) -> (r: Self)
        ensures
            r.seeds_seq() == inner@,
    {
        Demographics { seeds: inner }
    }

    /// The planned seeds, surrendered for running.
    pub fn into_seeds(self) -> (r: Vec<S>)
        ensures
            r@ == self.seeds_seq(),
    {
        self.seeds
    }
}

} // verus!
