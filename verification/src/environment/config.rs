//! The environment's configuration: at most one population plan,
//! surrendered the first time it is asked for.

use vstd::prelude::*;

use super::population;
use super::population::Demographics;

verus! {

/// Carries an optional population plan for one environment.
pub struct Configuration<S> {
    population: Option<Demographics<S>>,
}

impl<S> Configuration<S> {
    /// The plan still waiting to be run, if any.
    pub closed spec fn spec_population(&self) -> Option<Demographics<S>> {
        self.population
    }

    /// Store a population plan for the next populate run.
    pub fn insert_dummy_population_field(&mut self, inner: Demographics<S>)
        ensures
            final(self).spec_population() == Some(inner),
    {
        self.population = Some(inner);
    }
}

impl<S> Default for Configuration<S> {
    /// A fresh configuration carries no plan.
    fn default() -> (r: Self)
        ensures
            r.spec_population() is None,
    {
        Configuration { population: None }
    }
}

impl<S> population::Configuration for Configuration<S> {
    type Seed = Demographics<S>;

    /// Surrender the plan: a second call finds nothing.
    fn population(&mut self) -> (r: Option<Demographics<S>>)
        ensures
            r == old(self).spec_population(),
            final(self).spec_population() is None,
    {
        let mut to_be_config: Option<Demographics<S>> = None;
        core::mem::swap(&mut self.population, &mut to_be_config);
        to_be_config
    }
}

} // verus!
