//! The scenario's world building: a shared grid, a shared address
//! directory, and a shared observer, populated with one seeding run per
//! side.

pub mod seed;

use vstd::prelude::*;

use crate::context::grid::Grid;
use crate::context::grid::PointState;
use crate::context::grid::count_empty_points;
use crate::context::grid::lemma_grid_claim_decrements;
use crate::context::grid::lemma_grid_full_of_empties;
use crate::context::grid::lemma_grid_has_empty;
use crate::environment::Configuration;
use crate::environment::Environment;
use crate::message::AddressCollection;
use crate::zombie::agents::Kind;
use crate::zombie::agents::Message;
use crate::zombie::agents::package::Observer;
use crate::zombie::agents::package::Package;
use seed::EnvironmentSeed;
use seed::feature::FeatureSeed;
use seed::feature::GridSeed;
use seed::feature::MessageSeed;
use seed::spawn::SpawnSeed;

verus! {

/// The simulation's fixed scale.
pub const SIMULATION_ROWS: usize = 1000;

pub const SIMULATION_COLS: usize = 1000;

pub const POPULATION_PER_KIND: usize = 20000;

/// Builds the scenario world.
pub struct EnvironmentFactory;

impl EnvironmentFactory {
    /// The shared features and the two per-kind spawn plans: a fresh
    /// grid at the simulation's scale, an empty directory, and
    /// consecutive identities with the zombies numbered after the
    /// humans.
    pub fn build_config() -> (r: (FeatureSeed, SpawnSeed, SpawnSeed))
        ensures
            r.0.wf(),
            r.0.spec_grid().spec_rows() == SIMULATION_ROWS,
            r.0.spec_grid().spec_cols() == SIMULATION_COLS,
            r.0.spec_occupied() == 0,
            r.0.spec_observer().human_count == 0,
            r.0.spec_observer().zombie_count == 0,
            r.0.spec_addresses().addr_map() == Map::<
                usize,
                crate::utils::sync::GreedyCell<crate::message::AgentInbox<Message>>,
            >::empty(),
            count_empty_points(r.0.spec_grid().points_seq()) == (SIMULATION_ROWS as int) * (
            SIMULATION_COLS as int),
            r.1.kind == Kind::Human,
            r.1.quantity == POPULATION_PER_KIND,
            r.1.count == 0,
            r.2.kind == Kind::Zombie,
            r.2.quantity == POPULATION_PER_KIND,
            r.2.count == POPULATION_PER_KIND,
    {
        let addresses: AddressCollection<Message> = AddressCollection::default();
        let message_seed = MessageSeed::new(addresses);

        proof {
            assert((SIMULATION_ROWS as int) * (SIMULATION_COLS as int) == 1000000)
                by (nonlinear_arith)
                requires
                    SIMULATION_ROWS == 1000,
                    SIMULATION_COLS == 1000,
            ;
        }
        let grid: Grid<usize> = Grid::new(SIMULATION_ROWS, SIMULATION_COLS);
        proof {
            lemma_grid_full_of_empties(grid);
        }
        let grid_seed = GridSeed::new(grid);

        let feature_seed = FeatureSeed::new(message_seed, grid_seed);

        let human_spawn_seed = SpawnSeed::new(Kind::Human, POPULATION_PER_KIND);
        let mut zombie_spawn_seed = SpawnSeed::new(Kind::Zombie, POPULATION_PER_KIND);
        zombie_spawn_seed.count = POPULATION_PER_KIND;

        (feature_seed, human_spawn_seed, zombie_spawn_seed)
    }

    /// Run one kind's seeding plan to completion, appending the seeded
    /// packages.
    fn run_seeding(
        spawn_plan: SpawnSeed,
        feature: FeatureSeed,
        roster: &mut Vec<Package>,
    ) -> (r: FeatureSeed)
        requires
            feature.wf(),
            feature.spec_grid().spec_rows() > 0,
            feature.spec_grid().spec_cols() > 0,
            spawn_plan.count + spawn_plan.quantity < usize::MAX,
            feature.spec_occupied() + spawn_plan.quantity < usize::MAX,
            count_empty_points(feature.spec_grid().points_seq()) >= spawn_plan.quantity,
            spawn_plan.kind == Kind::Human ==> feature.spec_observer().human_count + (
            spawn_plan.quantity as int) <= i64::MAX,
            spawn_plan.kind == Kind::Zombie ==> feature.spec_observer().zombie_count + (
            spawn_plan.quantity as int) <= i64::MAX,
        ensures
            r.wf(),
            r.spec_grid().spec_rows() == feature.spec_grid().spec_rows(),
            r.spec_grid().spec_cols() == feature.spec_grid().spec_cols(),
            r.spec_occupied() == feature.spec_occupied() + spawn_plan.quantity,
            count_empty_points(r.spec_grid().points_seq()) == count_empty_points(
                feature.spec_grid().points_seq(),
            ) - spawn_plan.quantity,
            final(roster)@.len() == old(roster)@.len() + spawn_plan.quantity,
            forall|j: int|
                0 <= j < old(roster)@.len() ==> final(roster)@[j] == old(roster)@[j],
            forall|j: int|
                old(roster)@.len() <= j < final(roster)@.len() ==> (
                #[trigger] final(roster)@[j]).spec_kind() == spawn_plan.kind && final(roster)@[j].spec_id() == spawn_plan.count + j - old(roster)@.len(),
            spawn_plan.kind == Kind::Human ==> r.spec_observer().human_count
                == feature.spec_observer().human_count + spawn_plan.quantity
                && r.spec_observer().zombie_count == feature.spec_observer().zombie_count,
            spawn_plan.kind == Kind::Zombie ==> r.spec_observer().zombie_count
                == feature.spec_observer().zombie_count + spawn_plan.quantity
                && r.spec_observer().human_count == feature.spec_observer().human_count,
    {
        let quantity: usize = spawn_plan.quantity;
        let ghost kind = spawn_plan.kind;
        let ghost base_count = spawn_plan.count;
        let ghost base_len = roster@.len();
        let ghost f0 = feature;
        let mut seeder = EnvironmentSeed::new(spawn_plan, feature);
        let mut i: usize = 0;
        while i < quantity
            invariant
                i <= quantity,
                seeder.spec_spawn().kind == kind,
                seeder.spec_spawn().quantity == quantity,
                seeder.spec_spawn().count == base_count + i,
                base_count + quantity < usize::MAX,
                f0.spec_occupied() + quantity < usize::MAX,
                seeder.spec_feature().wf(),
                seeder.spec_feature().spec_grid().spec_rows() == f0.spec_grid().spec_rows(),
                seeder.spec_feature().spec_grid().spec_cols() == f0.spec_grid().spec_cols(),
                f0.spec_grid().spec_rows() > 0,
                f0.spec_grid().spec_cols() > 0,
                seeder.spec_feature().spec_occupied() == f0.spec_occupied() + i,
                count_empty_points(seeder.spec_feature().spec_grid().points_seq())
                    == count_empty_points(f0.spec_grid().points_seq()) - i,
                count_empty_points(f0.spec_grid().points_seq()) >= quantity,
                roster@.len() == base_len + i,
                forall|j: int| 0 <= j < base_len ==> roster@[j] == old(roster)@[j],
                forall|j: int|
                    base_len <= j < roster@.len() ==> (#[trigger] roster@[j]).spec_kind() == kind
                        && roster@[j].spec_id() == base_count + j - base_len,
                kind == Kind::Human ==> seeder.spec_feature().spec_observer().human_count
                    == f0.spec_observer().human_count + i
                    && seeder.spec_feature().spec_observer().zombie_count
                    == f0.spec_observer().zombie_count,
                kind == Kind::Zombie ==> seeder.spec_feature().spec_observer().zombie_count
                    == f0.spec_observer().zombie_count + i
                    && seeder.spec_feature().spec_observer().human_count
                    == f0.spec_observer().human_count,
                kind == Kind::Human ==> f0.spec_observer().human_count + (quantity as int)
                    <= i64::MAX,
                kind == Kind::Zombie ==> f0.spec_observer().zombie_count + (quantity as int)
                    <= i64::MAX,
            decreases quantity - i,
        {
            proof {
                lemma_grid_has_empty(seeder.spec_feature().spec_grid());
            }
            let ghost grid_before = seeder.spec_feature().spec_grid();
            let package: Package = seeder.seed();
            proof {
                lemma_grid_claim_decrements(
                    grid_before,
                    seeder.spec_feature().spec_grid(),
                    package.spec_position().spec_tile(),
                );
            }
            roster.push(package);
            i = i + 1;
        }
        let (_, done) = seeder.into_parts();
        done
    }

    /// Install every roster package onto its claimed position, so the
    /// grid's occupied points name their occupants.
    pub fn occupy_positions(
        environment: &Environment<Kind, Package, EnvironmentSeed>,
        grid: &mut Grid<usize>,
    )
        requires
            old(grid).wf(),
        ensures
            final(grid).wf(),
            final(grid).spec_rows() == old(grid).spec_rows(),
            final(grid).spec_cols() == old(grid).spec_cols(),
    {
        let groups = environment.iter();
        let mut gi: usize = 0;
        while gi < groups.len()
            invariant
                grid.wf(),
                grid.spec_rows() == old(grid).spec_rows(),
                grid.spec_cols() == old(grid).spec_cols(),
            decreases groups@.len() - gi,
        {
            proof {
                assert(gi < groups@.len());
            }
            let agents: &Vec<Package> = &groups[gi].1;
            let mut ai: usize = 0;
            while ai < agents.len()
                invariant
                    grid.wf(),
                    grid.spec_rows() == old(grid).spec_rows(),
                    grid.spec_cols() == old(grid).spec_cols(),
                decreases agents@.len() - ai,
            {
                proof {
                    assert(ai < agents@.len());
                }
                let package: &Package = &agents[ai];
                let tile = package.as_tile().get_tile();
                if grid.is_in_range(tile) {
                    let _prior: PointState<usize> = grid.replace_at(
                        tile,
                        PointState::Occupied(package.get_id()),
                    );
                }
                ai = ai + 1;
            }
            gi = gi + 1;
        }
    }

    /// Build the whole world: seed one run of humans and one of
    /// zombies into the shared features, group them in an environment,
    /// and install them onto their claimed positions.
    pub fn spawn() -> (r: (
        Environment<Kind, Package, EnvironmentSeed>,
        AddressCollection<Message>,
        Grid<usize>,
        Observer,
    ))
        ensures
            r.0.agents_seq().len() == 2,
            r.0.agents_seq()[0].0 == Kind::Human,
            r.0.agents_seq()[0].1@.len() == POPULATION_PER_KIND,
            r.0.agents_seq()[1].0 == Kind::Zombie,
            r.0.agents_seq()[1].1@.len() == POPULATION_PER_KIND,
            r.1.wf(),
            r.2.wf(),
            r.2.spec_rows() == SIMULATION_ROWS,
            r.2.spec_cols() == SIMULATION_COLS,
            r.3.human_count == POPULATION_PER_KIND,
            r.3.zombie_count == POPULATION_PER_KIND,
    {
        let (feature, human_spawn_seed, zombie_spawn_seed) = Self::build_config();

        let mut roster: Vec<Package> = Vec::new();
        let feature = Self::run_seeding(human_spawn_seed, feature, &mut roster);
        let feature = Self::run_seeding(zombie_spawn_seed, feature, &mut roster);

        let mut humans: Vec<Package> = Vec::new();
        let mut zombies: Vec<Package> = Vec::new();
        let mut taken: usize = 0;
        while taken < POPULATION_PER_KIND
            invariant
                taken <= POPULATION_PER_KIND,
                roster@.len() == 2 * POPULATION_PER_KIND - taken,
                humans@.len() == taken,
                forall|j: int|
                    0 <= j < roster@.len() ==> (#[trigger] roster@[j]).spec_kind() == (
                    if j < POPULATION_PER_KIND - taken {
                        Kind::Human
                    } else {
                        Kind::Zombie
                    }),
            decreases POPULATION_PER_KIND - taken,
        {
            let package = roster.remove(0);
            humans.push(package);
            taken = taken + 1;
        }
        let mut moved: usize = 0;
        while moved < POPULATION_PER_KIND
            invariant
                moved <= POPULATION_PER_KIND,
                roster@.len() == POPULATION_PER_KIND - moved,
                zombies@.len() == moved,
                humans@.len() == POPULATION_PER_KIND,
                forall|j: int|
                    0 <= j < roster@.len() ==> (#[trigger] roster@[j]).spec_kind() == Kind::Zombie,
            decreases POPULATION_PER_KIND - moved,
        {
            let package = roster.remove(0);
            zombies.push(package);
            moved = moved + 1;
        }

        let mut environment: Environment<Kind, Package, EnvironmentSeed> = Environment::new(
            Configuration::default(),
        );
        environment.insert_agents(Kind::Human, humans);
        environment.insert_agents(Kind::Zombie, zombies);

        let (addresses, mut grid, observer) = feature.into_parts();
        Self::occupy_positions(&environment, &mut grid);

        (environment, addresses, grid, observer)
    }
}

} // verus!
