use liquid_sim::grid::Grid;
use liquid_sim::neighbors::{flow_ring, get_flow, get_pressure, pressure_ring, DIRS};

fn numbered(width: usize, height: usize) -> Grid<i32> {
    Grid::from_fn(width, height, &|x: usize, y: usize| (10 * y + x) as i32).unwrap()
}

#[test]
fn dirs_are_axes_first_then_diagonals() {
    assert_eq!(
        DIRS,
        [(0, 1), (1, 0), (0, -1), (-1, 0), (-1, 1), (1, 1), (1, -1), (-1, -1)]
    );
}

#[test]
fn neighbor_inside_the_grid() {
    let grid = numbered(3, 3);
    assert_eq!(grid.neighbor(&(1, 1), &(0, 0)), Some((1, 1)));
    assert_eq!(grid.neighbor(&(1, 1), &(1, -1)), Some((2, 0)));
    assert_eq!(grid.neighbor(&(0, 0), &(2, 2)), Some((2, 2)));
    assert_eq!(grid.neighbor(&(2, 2), &(-2, -2)), Some((0, 0)));
}

#[test]
fn neighbor_past_each_edge() {
    let grid = numbered(3, 2);
    assert_eq!(grid.neighbor(&(0, 0), &(-1, 0)), None);
    assert_eq!(grid.neighbor(&(0, 0), &(0, -1)), None);
    assert_eq!(grid.neighbor(&(2, 1), &(1, 0)), None);
    assert_eq!(grid.neighbor(&(2, 1), &(0, 1)), None);
    assert_eq!(grid.neighbor(&(2, 1), &(1, 1)), None);
    assert_eq!(grid.neighbor(&(1, 1), &(i32::MIN, 0)), None);
    assert_eq!(grid.neighbor(&(1, 1), &(0, i32::MAX)), None);
}

#[test]
fn pressure_read_inside_yields_the_neighbour() {
    let grid = numbered(3, 3);
    assert_eq!(get_pressure(&grid, &(1, 1), &(0, 0)), 11);
    assert_eq!(get_pressure(&grid, &(1, 1), &(0, 1)), 21);
    assert_eq!(get_pressure(&grid, &(1, 1), &(1, 0)), 12);
    assert_eq!(get_pressure(&grid, &(1, 1), &(0, -1)), 1);
    assert_eq!(get_pressure(&grid, &(1, 1), &(-1, 0)), 10);
    assert_eq!(get_pressure(&grid, &(1, 1), &(-1, 1)), 20);
    assert_eq!(get_pressure(&grid, &(1, 1), &(1, 1)), 22);
    assert_eq!(get_pressure(&grid, &(1, 1), &(1, -1)), 2);
    assert_eq!(get_pressure(&grid, &(1, 1), &(-1, -1)), 0);
}

#[test]
fn pressure_read_past_an_edge_yields_the_centre() {
    let grid = numbered(3, 3);
    assert_eq!(get_pressure(&grid, &(0, 1), &(-1, 0)), 10);
    assert_eq!(get_pressure(&grid, &(2, 1), &(1, 0)), 12);
    assert_eq!(get_pressure(&grid, &(1, 0), &(0, -1)), 1);
    assert_eq!(get_pressure(&grid, &(1, 2), &(0, 1)), 21);
}

#[test]
fn pressure_read_past_a_corner_yields_the_centre() {
    let grid = numbered(3, 3);
    assert_eq!(get_pressure(&grid, &(0, 0), &(-1, -1)), 0);
    assert_eq!(get_pressure(&grid, &(2, 0), &(1, -1)), 2);
    assert_eq!(get_pressure(&grid, &(0, 2), &(-1, 1)), 20);
    assert_eq!(get_pressure(&grid, &(2, 2), &(1, 1)), 22);
    assert_eq!(get_pressure(&grid, &(2, 2), &(1, -1)), 22);
    assert_eq!(get_pressure(&grid, &(2, 2), &(-1, 1)), 22);
}

#[test]
fn pressure_read_past_the_edge_is_the_cell_not_its_mirror() {
    let grid = numbered(4, 2);
    assert_eq!(get_pressure(&grid, &(3, 0), &(1, 0)), 3);
    assert_eq!(get_pressure(&grid, &(3, 1), &(0, 1)), 13);
    assert_eq!(get_pressure(&grid, &(0, 1), &(-1, 1)), 10);
}

#[test]
fn flow_read_inside_yields_the_neighbour() {
    let grid = numbered(3, 3);
    assert_eq!(get_flow(&grid, &(1, 1), &(0, 0), -7), 11);
    assert_eq!(get_flow(&grid, &(1, 1), &(0, 1), -7), 21);
    assert_eq!(get_flow(&grid, &(1, 1), &(1, 0), -7), 12);
    assert_eq!(get_flow(&grid, &(1, 1), &(0, -1), -7), 1);
    assert_eq!(get_flow(&grid, &(1, 1), &(-1, 0), -7), 10);
    assert_eq!(get_flow(&grid, &(1, 1), &(-1, 1), -7), 20);
    assert_eq!(get_flow(&grid, &(1, 1), &(1, 1), -7), 22);
    assert_eq!(get_flow(&grid, &(1, 1), &(1, -1), -7), 2);
    assert_eq!(get_flow(&grid, &(1, 1), &(-1, -1), -7), 0);
}

#[test]
fn flow_read_past_the_edge_yields_zero() {
    let grid = Grid::new(3, 3, (5.0f32, 6.0f32)).unwrap();
    let zero = (0.0f32, 0.0f32);
    assert_eq!(get_flow(&grid, &(0, 1), &(-1, 0), zero), zero);
    assert_eq!(get_flow(&grid, &(2, 1), &(1, 0), zero), zero);
    assert_eq!(get_flow(&grid, &(1, 0), &(0, -1), zero), zero);
    assert_eq!(get_flow(&grid, &(1, 2), &(0, 1), zero), zero);
    assert_eq!(get_flow(&grid, &(0, 0), &(-1, -1), zero), zero);
    assert_eq!(get_flow(&grid, &(2, 0), &(1, -1), zero), zero);
    assert_eq!(get_flow(&grid, &(0, 2), &(-1, 1), zero), zero);
    assert_eq!(get_flow(&grid, &(2, 2), &(1, 1), zero), zero);
    assert_eq!(get_flow(&grid, &(1, 1), &(1, 1), zero), (5.0, 6.0));
}

#[test]
fn pressure_ring_follows_dirs() {
    let grid = numbered(3, 3);
    assert_eq!(pressure_ring(&grid, &(1, 1)), [21, 12, 1, 10, 20, 22, 2, 0]);
    assert_eq!(pressure_ring(&grid, &(0, 0)), [10, 1, 0, 0, 0, 11, 0, 0]);
    assert_eq!(pressure_ring(&grid, &(2, 2)), [22, 22, 12, 21, 22, 22, 22, 11]);
}

#[test]
fn flow_ring_follows_dirs() {
    let grid = numbered(3, 3);
    assert_eq!(flow_ring(&grid, &(1, 1), -7), [21, 12, 1, 10, 20, 22, 2, 0]);
    assert_eq!(flow_ring(&grid, &(0, 0), -7), [10, 1, -7, -7, -7, 11, -7, -7]);
    assert_eq!(flow_ring(&grid, &(2, 2), -7), [-7, -7, 12, 21, -7, -7, -7, 11]);
}

#[test]
fn rings_of_a_single_cell_grid() {
    let grid = Grid::new(1, 1, 4i32).unwrap();
    assert_eq!(pressure_ring(&grid, &(0, 0)), [4; 8]);
    assert_eq!(flow_ring(&grid, &(0, 0), 0), [0; 8]);
}
