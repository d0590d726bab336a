//! The population framework: seeds run for their configured quantity,
//! grouped by kind.

use torus_sim::environment::Configuration;
use torus_sim::environment::Demographics;
use torus_sim::environment::Environment;
use torus_sim::environment::Population;
use torus_sim::environment::Seed;

#[derive(Default, Clone, Debug, PartialEq, Eq, Hash)]
struct TestAgent {
    id: usize,
}

#[derive(Debug, Clone, PartialEq, Eq, Hash)]
struct TestSeed {
    count: usize,
    kind: TestKind,
    quantity: usize,
}

impl TestSeed {
    fn new(kind: TestKind, quantity: usize) -> Self {
        TestSeed { count: 0, kind, quantity }
    }
}

impl Seed for TestSeed {
    type Output = TestAgent;
    type Kind = TestKind;

    fn spec_kind(&self) -> TestKind {
        self.kind.clone()
    }

    fn spec_quantity(&self) -> usize {
        self.quantity
    }

    fn seed(&mut self) -> TestAgent {
        let id = self.count;
        self.count += 1;
        TestAgent { id }
    }

    fn kind(&self) -> TestKind {
        self.kind.clone()
    }

    fn quantity(&self) -> usize {
        self.quantity
    }
}

#[derive(Debug, Clone, PartialEq, Eq, Hash)]
enum TestKind {
    A,
    B,
    C,
}

fn spawn_populated_environment() -> Environment<TestKind, TestAgent, TestSeed> {
    let population_map = Demographics::new(vec![
        TestSeed::new(TestKind::A, 10),
        TestSeed::new(TestKind::B, 20),
        TestSeed::new(TestKind::C, 30),
    ]);

    let mut config: Configuration<TestSeed> = Configuration::default();
    config.insert_dummy_population_field(population_map);

    Environment::new(config).populate().unwrap()
}

#[test]
fn test_agent_id_increment() {
    let populated_environment = spawn_populated_environment();

    for (_, agents) in populated_environment.iter().iter() {
        for (expected_id, agent) in agents.iter().enumerate() {
            assert_eq!(agent.id, expected_id)
        }
    }
}

#[test]
fn test_environment_population() {
    let populated_environment = spawn_populated_environment();

    let mut expected_agent_storge: Vec<(TestKind, Vec<TestAgent>)> = Vec::new();
    expected_agent_storge.push((TestKind::A, Vec::new()));
    expected_agent_storge.push((TestKind::B, Vec::new()));
    expected_agent_storge.push((TestKind::C, Vec::new()));

    for i in 0..10 {
        expected_agent_storge[0].1.push(TestAgent { id: i });
    }
    for i in 0..20 {
        expected_agent_storge[1].1.push(TestAgent { id: i });
    }
    for i in 0..30 {
        expected_agent_storge[2].1.push(TestAgent { id: i });
    }

    assert_eq!(populated_environment.iter(), &expected_agent_storge);
}

#[test]
fn test_populate_without_plan_yields_nothing() {
    let config: Configuration<TestSeed> = Configuration::default();
    let env: Environment<TestKind, TestAgent, TestSeed> = Environment::new(config);
    assert!(env.populate().is_none());
}
