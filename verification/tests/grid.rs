//! The toroidal topology: wiring, wraparound, state transitions, and
//! the wrapped distance metric.

use torus_sim::context::grid::Grid;
use torus_sim::context::grid::MissingConnections;
use torus_sim::context::grid::Point;
use torus_sim::context::grid::PointIndex;
use torus_sim::context::grid::PointState;

fn connection_of(grid: &Grid<()>, src_row: usize, src_col: usize) -> [PointIndex; 4] {
    grid.point_at(src_row, src_col)
        .get_connections()
        .expect("expected connections for the point")
}

#[test]
fn test_east_connection() {
    let grid: Grid<()> = Grid::new(5, 5);
    assert_eq!(PointIndex::new(2, 3), connection_of(&grid, 2, 2)[1]);
}

#[test]
fn test_east_edge_connection() {
    let grid: Grid<()> = Grid::new(5, 5);
    assert_eq!(PointIndex::new(1, 0), connection_of(&grid, 1, 4)[1]);
}

#[test]
fn test_west_connection() {
    let grid: Grid<()> = Grid::new(5, 5);
    assert_eq!(PointIndex::new(2, 1), connection_of(&grid, 2, 2)[3]);
}

#[test]
fn test_west_edge_connection() {
    let grid: Grid<()> = Grid::new(5, 5);
    assert_eq!(PointIndex::new(2, 4), connection_of(&grid, 2, 0)[3]);
}

#[test]
fn test_north_connection() {
    let grid: Grid<()> = Grid::new(5, 5);
    assert_eq!(PointIndex::new(1, 2), connection_of(&grid, 2, 2)[0]);
}

#[test]
fn test_north_edge_connection() {
    let grid: Grid<()> = Grid::new(5, 5);
    assert_eq!(PointIndex::new(4, 3), connection_of(&grid, 0, 3)[0]);
}

#[test]
fn test_south_connection() {
    let grid: Grid<()> = Grid::new(5, 5);
    assert_eq!(PointIndex::new(3, 2), connection_of(&grid, 2, 2)[2]);
}

#[test]
fn test_south_edge_connection() {
    let grid: Grid<()> = Grid::new(5, 5);
    assert_eq!(PointIndex::new(0, 1), connection_of(&grid, 4, 1)[2]);
}

#[test]
fn test_grid_index() {
    let grid: Grid<()> = Grid::new(5, 5);

    let source_point = grid.point_at(2, 2);
    let expected_point: Point<()> = Point::new(PointIndex::new(2, 2));

    assert_eq!(source_point.get_idx(), expected_point.get_idx());
}

#[test]
fn test_get_connections() {
    let grid: Grid<()> = Grid::new(5, 5);

    let test_connections = connection_of(&grid, 2, 2);

    let expected_connections = [
        grid.point_at(1, 2).get_idx(),
        grid.point_at(2, 3).get_idx(),
        grid.point_at(3, 2).get_idx(),
        grid.point_at(2, 1).get_idx(),
    ];

    assert_eq!(test_connections, expected_connections);
}

#[test]
fn test_move_into() {
    let mut grid: Grid<()> = Grid::new(5, 5);

    grid.replace_at(PointIndex::new(2, 2), PointState::Occupied(()));

    match grid.point_at(2, 2).state() {
        PointState::Occupied(_) => {}
        _ => panic!("Point was not occupied!"),
    }

    grid.move_inner_between(PointIndex::new(2, 2), PointIndex::new(3, 3));

    println!("{:?}", grid.point_at(3, 3));
    println!("{:?}", grid.point_at(2, 2));
    assert!(grid.point_at(2, 2).state().is_empty());
    assert!(matches!(grid.point_at(3, 3).state(), PointState::Occupied(())));
}

#[test]
fn test_distance() {
    let grid: Grid<()> = Grid::new(5, 5);

    let test = grid.toroidal_distance_between(grid.point_at(4, 4), grid.point_at(0, 0));

    assert_eq!(test, 1);
}

#[test]
fn test_distance_truncates_norm() {
    let grid: Grid<()> = Grid::new(5, 5);

    // both axes wrap to a delta of 2; the Euclidean norm of (2, 2) is
    // about 2.83 and truncates to 2
    assert_eq!(
        grid.toroidal_distance_between(grid.point_at(0, 0), grid.point_at(2, 2)),
        2
    );
    // symmetry, including across the wraparound
    for (a, b) in [((4usize, 4usize), (0usize, 0usize)), ((1, 4), (3, 0)), ((0, 2), (4, 2))] {
        let forward = grid.toroidal_distance_between(grid.point_at(a.0, a.1), grid.point_at(b.0, b.1));
        let backward = grid.toroidal_distance_between(grid.point_at(b.0, b.1), grid.point_at(a.0, a.1));
        assert_eq!(forward, backward);
    }
}

#[test]
fn test_topology_symmetry_everywhere() {
    let grid: Grid<()> = Grid::new(5, 5);

    for row in 0..5 {
        for col in 0..5 {
            let here = PointIndex::new(row, col);
            let [north, east, _south, _west] = connection_of(&grid, row, col);
            // east(point).west == point
            assert_eq!(connection_of(&grid, east.row, east.col)[3], here);
            // north(point).south == point
            assert_eq!(connection_of(&grid, north.row, north.col)[2], here);
        }
    }
}

#[test]
fn test_replace_returns_prior_state() {
    let mut grid: Grid<u32> = Grid::new(3, 3);

    let prior = grid.replace_at(PointIndex::new(1, 1), PointState::Occupied(7));
    assert!(matches!(prior, PointState::Empty));
    assert!(matches!(grid.point_at(1, 1).state(), PointState::Occupied(7)));

    let prior = grid.replace_at(PointIndex::new(1, 1), PointState::Claimed);
    assert!(matches!(prior, PointState::Occupied(7)));
}

#[test]
fn test_unwired_point_has_no_connections() {
    let lone: Point<()> = Point::new(PointIndex::new(0, 0));
    assert_eq!(lone.get_connections(), Err(MissingConnections));
}

#[test]
fn test_degenerate_grid_is_empty() {
    let grid: Grid<()> = Grid::new(0, 5);
    assert_eq!(grid.get_dimensions(), (0, 5));
    let other: Grid<()> = Grid::new(5, 0);
    assert_eq!(other.get_dimensions(), (5, 0));
}
