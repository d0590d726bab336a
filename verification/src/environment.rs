//! The environment: agent storage grouped by kind, populated from a
//! configured plan of seed strategies.

pub mod config;
pub mod population;

use vstd::prelude::*;

pub use config::Configuration;
pub use population::Demographics;
pub use population::Population;
pub use population::Seed;

use population::Configuration as PopulationSource;

verus! {

/// Agent storage: one group of agents per kind, in insertion order.
struct Storage<I, T>(Vec<(I, Vec<T>)>);

impl<I, T> Storage<I, T> {
    fn new(inner: Vec<(I, Vec<T>)>) -> (r: Self)
        ensures
            r.0@ == inner@,
    {
        Storage(inner)
    }
}

/// A populated world of agents, grouped by kind.
pub struct Environment<I, T, S> {
    agents: Storage<I, T>,
    config: config::Configuration<S>,
}

impl<I, T, S> Environment<I, T, S> {
    /// The stored agent groups, in insertion order.
    pub closed spec fn agents_seq(&self) -> Seq<(I, Vec<T>)> {
        self.agents.0@
    }

    /// The population plan still waiting to be run, if any.
    pub closed spec fn spec_population(&self) -> Option<Demographics<S>> {
        self.config.spec_population()
    }

    /// An empty environment carrying a configuration.
    pub fn new(config: config::Configuration<S>) -> (r: Self)
        ensures
            r.agents_seq() == Seq::<(I, Vec<T>)>::empty(),
            r.spec_population() == config.spec_population(),
    {
        Self { agents: Storage::new(Vec::new()), config }
    }

    /// The agent groups, mutably.
    pub fn iter_mut(&mut self) -> (r: &mut Vec<(I, Vec<T>)>)
        ensures
            r@ == old(self).agents_seq(),
            final(self).agents_seq() == final(r)@,
            final(self).spec_population() == old(self).spec_population(),
    {
        &mut self.agents.0
    }

    /// The agent groups.
    pub fn iter(&self) -> (r: &Vec<(I, Vec<T>)>)
        ensures
            r@ == self.agents_seq(),
    {
        &self.agents.0
    }

    /// Append one kind's group of agents.
    pub fn insert_agents(&mut self, kind: I, agents: Vec<T>)
        ensures
            final(self).agents_seq() == old(self).agents_seq().push((kind, agents)),
            final(self).spec_population() == old(self).spec_population(),
    {
        self.agents.0.push((kind, agents));
    }
}

impl<I, T, S: Seed<Kind = I, Output = T>> Population for Environment<I, T, S> {
    type Output = Option<Self>;

    /// Run every planned seed for its configured quantity, appending one
    /// group per seed; nothing to run means no populated environment.
    fn populate(self) -> (r: Option<Self>)
        ensures
            r is Some <==> self.spec_population() is Some,
            r matches Some(env) ==> env.spec_population() is None,
            self.spec_population() matches Some(d) ==> r matches Some(env) && {
                &&& env.agents_seq().len() == self.agents_seq().len() + d.seeds_seq().len()
                &&& forall|i: int|
                    0 <= i < self.agents_seq().len() ==> env.agents_seq()[i]
                        == self.agents_seq()[i]
                &&& forall|i: int|
                    0 <= i < d.seeds_seq().len() ==> (#[trigger] env.agents_seq()[self.agents_seq().len() + i]).0
                        == d.seeds_seq()[i].spec_kind() && env.agents_seq()[self.agents_seq().len()
                        + i].1@.len() == d.seeds_seq()[i].spec_quantity()
            },
    {
        let mut this = self;
        let planned: Option<Demographics<S>> = this.config.population();
        match planned {
            None => None,
            Some(demographics) => {
                let mut seeds: Vec<S> = demographics.into_seeds();
                let ghost ds = seeds@;
                let ghost base = this.agents.0@;
                proof {
                    assert(seeds@ =~= ds.subrange(ds.len() - seeds@.len(), ds.len() as int));
                }
                while seeds.len() > 0
                    invariant
                        seeds@.len() <= ds.len(),
                        seeds@ == ds.subrange(ds.len() - seeds@.len(), ds.len() as int),
                        this.agents.0@.len() == base.len() + ds.len() - seeds@.len(),
                        this.config.spec_population() is None,
                        forall|i: int| 0 <= i < base.len() ==> this.agents.0@[i] == base[i],
                        forall|i: int|
                            0 <= i < ds.len() - seeds@.len() ==> (#[trigger] this.agents.0@[base.len()
                                + i]).0 == ds[i].spec_kind() && this.agents.0@[base.len()
                                + i].1@.len() == ds[i].spec_quantity(),
                    decreases seeds.len(),
                {
                    let ghost processed = ds.len() - seeds@.len();
                    let mut generator: S = seeds.remove(0);
                    proof {
                        assert(ds.subrange(processed, ds.len() as int)[0] == ds[processed]);
                        assert(seeds@ =~= ds.subrange(ds.len() - seeds@.len(), ds.len() as int));
                    }
                    let quantity: usize = generator.quantity();
                    let ghost gk = generator.spec_kind();
                    let mut agents: Vec<T> = Vec::new();
                    let mut n: usize = 0;
                    while n < quantity
                        invariant
                            n <= quantity,
                            agents@.len() == n,
                            generator.spec_kind() == gk,
                            generator.spec_quantity() == quantity,
                        decreases quantity - n,
                    {
                        agents.push(generator.seed());
                        n = n + 1;
                    }
                    let kind: I = generator.kind();
                    this.agents.0.push((kind, agents));
                }
                proof {
                    assert(seeds@.len() == 0);
                }
                Some(this)
            },
        }
    }
}

} // verus!
