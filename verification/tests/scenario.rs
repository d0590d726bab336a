//! The human-versus-zombie scenario layer: statistics, combat
//! arithmetic, restoration, movement, sighting reports, and seeding.

use torus_sim::context::grid::Grid;
use torus_sim::context::grid::PointIndex;
use torus_sim::context::grid::PointState;
use torus_sim::context::GridPosition;
use torus_sim::message::AddressCollection;
use torus_sim::message::MessageQueue;
use torus_sim::message::MessageInterface;
use torus_sim::zombie::agents::actions::interaction::Communication;
use torus_sim::zombie::agents::actions::interaction::Restoration;
use torus_sim::zombie::agents::actions::interaction::Skirmish;
use torus_sim::zombie::agents::actions::movement::Movement;
use torus_sim::zombie::agents::package::Package;
use torus_sim::zombie::agents::package::Observer;
use torus_sim::zombie::agents::package::Statistics;
use torus_sim::zombie::agents::Agent;
use torus_sim::zombie::agents::DeadOrAlive;
use torus_sim::zombie::agents::Kind;
use torus_sim::zombie::agents::Message;
use torus_sim::zombie::world::seed::feature::FeatureSeed;
use torus_sim::zombie::world::seed::feature::GridSeed;
use torus_sim::zombie::world::seed::feature::MessageSeed;
use torus_sim::zombie::world::seed::spawn::SpawnSeed;
use torus_sim::zombie::agents::actions::tile::Selection;
use torus_sim::zombie::agents::variants::human::Human;
use torus_sim::zombie::agents::variants::zombie::Zombie;
use torus_sim::zombie::world::seed::EnvironmentSeed;

fn package_at(
    addresses: &mut AddressCollection<Message>,
    id: usize,
    kind: Kind,
    row: usize,
    col: usize,
) -> Package {
    let comm = MessageInterface::new(id, addresses);
    Package::new(comm, GridPosition::new(PointIndex::new(row, col)), kind, id)
}

#[test]
fn test_statistics_ranges_and_variety() {
    let mut healths = Vec::new();
    for _ in 0..50 {
        let human = Statistics::random(&Kind::Human);
        assert!((1..25).contains(&human.health));
        assert!((1..100).contains(&human.strength));
        let zombie = Statistics::random(&Kind::Zombie);
        assert!((1..50).contains(&zombie.health));
        assert!((1..25).contains(&zombie.strength));
        healths.push(human.health);
    }
    let first = healths[0];
    assert!(healths.iter().any(|h| *h != first));
}

#[test]
fn test_restoration_transfers_a_tenth() {
    let mut addresses: AddressCollection<Message> = AddressCollection::default();
    let mut giver = package_at(&mut addresses, 0, Kind::Human, 0, 0);
    let mut receiver = package_at(&mut addresses, 1, Kind::Human, 0, 1);
    giver.as_statistics_mut().health = 20;
    receiver.as_statistics_mut().health = 3;

    Restoration::new().give_health(&mut giver, &mut receiver);

    assert_eq!(giver.as_statistics().health, 18);
    assert_eq!(receiver.as_statistics().health, 5);
}

#[test]
fn test_restoration_keeps_a_poor_giver_whole() {
    let mut addresses: AddressCollection<Message> = AddressCollection::default();
    let mut giver = package_at(&mut addresses, 0, Kind::Human, 0, 0);
    let mut receiver = package_at(&mut addresses, 1, Kind::Human, 0, 1);
    // a tenth of 0 is 0, and 0 - 0 is not above 0 / 5, so nothing moves
    giver.as_statistics_mut().health = 0;
    receiver.as_statistics_mut().health = 3;

    Restoration::new().give_health(&mut giver, &mut receiver);

    assert_eq!(giver.as_statistics().health, 0);
    assert_eq!(receiver.as_statistics().health, 3);
}

#[test]
fn test_skirmish_reduction_formula() {
    let mut addresses: AddressCollection<Message> = AddressCollection::default();
    let mut lhs = package_at(&mut addresses, 0, Kind::Human, 0, 0);
    let mut rhs = package_at(&mut addresses, 1, Kind::Zombie, 0, 1);
    lhs.as_statistics_mut().health = 10;
    rhs.as_statistics_mut().strength = 4;
    assert_eq!(Skirmish::calculate_health_reduction(&lhs, &rhs, 0), 6);
    // the magnitude of the gap: 10 - (4 + 9) is -3
    assert_eq!(Skirmish::calculate_health_reduction(&lhs, &rhs, 9), 3);

    rhs.as_statistics_mut().health = 100;
    lhs.as_statistics_mut().strength = 30;
    Skirmish::new().fight(
        &mut lhs,
        &mut rhs,
        0,
        0,
        &mut Grid::new(3, 3),
        &mut Observer::new(),
    );
    // lhs takes |10 - 4| = 6; rhs survives the check and takes |100 - 30| = 70
    assert_eq!(lhs.as_statistics().health, 4);
    assert_eq!(rhs.as_statistics().health, 30);
}

#[test]
fn test_adjacent_support_halves_ally_strength() {
    let mut addresses: AddressCollection<Message> = AddressCollection::default();
    let mut grid: Grid<usize> = Grid::new(5, 5);
    let mut roster = Vec::new();
    let mut ally = package_at(&mut addresses, 0, Kind::Zombie, 1, 2);
    ally.as_statistics_mut().strength = 10;
    roster.push(ally);
    // the ally of the defender's attackers stands north of (2, 2)
    grid.replace_at(PointIndex::new(1, 2), PointState::Occupied(0));

    let support = Skirmish::adjacent_support(&grid, &roster, &Kind::Zombie, PointIndex::new(2, 2));
    assert_eq!(support, 5);
    let none = Skirmish::adjacent_support(&grid, &roster, &Kind::Human, PointIndex::new(2, 2));
    assert_eq!(none, 0);
}

#[test]
fn test_movement_moves_state_and_position() {
    let mut addresses: AddressCollection<Message> = AddressCollection::default();
    let mut grid: Grid<usize> = Grid::new(4, 4);
    let mut walker = package_at(&mut addresses, 3, Kind::Human, 1, 1);
    grid.replace_at(PointIndex::new(1, 1), PointState::Occupied(3));

    let destination = GridPosition::new(PointIndex::new(1, 2));
    Movement::new(destination).step(&mut walker, &mut grid);

    assert!(grid.point_at(1, 1).state().is_empty());
    assert!(matches!(grid.point_at(1, 2).state(), PointState::Occupied(3)));
    assert_eq!(walker.as_tile().get_tile(), PointIndex::new(1, 2));
}

#[test]
fn test_communication_reports_enemies_two_steps_out() {
    let mut addresses: AddressCollection<Message> = AddressCollection::default();
    let mut grid: Grid<usize> = Grid::new(7, 7);
    let mut roster = Vec::new();

    let observer_package = package_at(&mut addresses, 0, Kind::Human, 3, 3);
    grid.replace_at(PointIndex::new(3, 3), PointState::Occupied(0));
    let enemy = package_at(&mut addresses, 1, Kind::Zombie, 3, 5);
    grid.replace_at(PointIndex::new(3, 5), PointState::Occupied(1));
    roster.push(observer_package);
    roster.push(enemy);

    let loaded = Communication::new(1, &roster[0])
        .find_allies(&grid, &roster)
        .find_enemies(&grid, &roster);
    let mut outbox = torus_sim::message::AgentOutbox::new(0);
    loaded.prepare(&mut outbox);

    // the only sighting is the enemy at (3, 5), two steps east
    let pending = outbox.get_unsent_messages();
    assert_eq!(pending.len(), 1);
    let Message::Report(report) = pending.get(1).unwrap();
    assert_eq!(report.as_inner(), &vec![PointIndex::new(3, 5)]);
}

#[test]
fn test_set_dead_removes_a_zombie_from_play() {
    let mut addresses: AddressCollection<Message> = AddressCollection::default();
    let mut grid: Grid<usize> = Grid::new(3, 3);
    let mut observer = Observer::new();
    observer.adjust(1, &Kind::Zombie);

    let mut fallen = package_at(&mut addresses, 0, Kind::Zombie, 2, 2);
    grid.replace_at(PointIndex::new(2, 2), PointState::Occupied(0));

    fallen.set_dead(&mut grid, &mut observer);

    assert!(!fallen.as_life_switch().is_alive());
    assert!(grid.point_at(2, 2).state().is_empty());
    assert_eq!(observer.zombie_count, 0);
}

#[test]
fn test_seeding_claims_and_registers() {
    let addresses: AddressCollection<Message> = AddressCollection::default();
    let grid: Grid<usize> = Grid::new(4, 4);
    let feature = FeatureSeed::new(MessageSeed::new(addresses), GridSeed::new(grid));
    let spawn = SpawnSeed::new(Kind::Human, 3);
    let mut seeder = EnvironmentSeed::new(spawn, feature);

    assert_eq!(seeder.kind(), Kind::Human);
    assert_eq!(seeder.quantity(), 3);

    let first = seeder.seed();
    let second = seeder.seed();
    assert_eq!(first.get_id(), 0);
    assert_eq!(second.get_id(), 1);
    assert_eq!(*first.as_kind(), Kind::Human);
    assert!(first.as_life_switch().is_alive());

    let (_, feature) = seeder.into_parts();
    let (mut directory, seeded_grid, observer) = feature.into_parts();
    assert_eq!(observer.human_count, 2);
    let tile = first.as_tile().get_tile();
    assert!(matches!(seeded_grid.point_at(tile.row, tile.col).state(), PointState::Claimed));
    assert!(directory.get_addresses().contains(0));
    assert!(directory.get_addresses().contains(1));
}

#[test]
fn test_selection_picks_a_neighbor() {
    let mut addresses: AddressCollection<Message> = AddressCollection::default();
    let mut grid: Grid<usize> = Grid::new(3, 3);
    let mut roster = Vec::new();
    let chooser = package_at(&mut addresses, 0, Kind::Human, 1, 1);
    grid.replace_at(PointIndex::new(1, 1), PointState::Occupied(0));
    roster.push(chooser);
    let observer = Observer::new();

    let picked = Selection::new(&roster[0])
        .select_tile_from_grid(&grid, &roster, &observer, &mut addresses)
        .expect("a wired grid always offers four neighbors");

    let tile = picked.get_tile();
    let neighbors = [
        PointIndex::new(0, 1),
        PointIndex::new(1, 2),
        PointIndex::new(2, 1),
        PointIndex::new(1, 0),
    ];
    assert!(neighbors.contains(&tile));
    // the selection drained the chooser's inbox
    let inbox = addresses.get_addresses().get(0).unwrap().read();
    assert!(inbox.get_messages().is_empty());
}

#[test]
fn test_variants_wrap_their_packages() {
    let mut addresses: AddressCollection<Message> = AddressCollection::default();
    let human = Human::new(package_at(&mut addresses, 4, Kind::Human, 0, 0));
    let zombie = Zombie::new(package_at(&mut addresses, 9, Kind::Zombie, 0, 1));

    assert_eq!(human.get_id(), 4);
    assert_eq!(zombie.get_id(), 9);
    assert_eq!(*human.get_kind(), Kind::Human);
    assert_eq!(*zombie.get_kind(), Kind::Zombie);
    assert!(human.is_alive());
    assert!(zombie.is_alive());

    let mut observer = Observer::new();
    observer.adjust(3, &Kind::Human);
    observer.adjust(7, &Kind::Zombie);
    assert_eq!(human.kind_count(&observer), 3);
    assert_eq!(zombie.kind_count(&observer), 7);
}
