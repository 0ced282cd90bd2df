use liquid_sim::grid::{Grid, GridError};
use liquid_sim::lattice::{seed_pressure, Lattice};
use std::cell::RefCell;

#[test]
fn new_fills_every_cell() {
    let grid = Grid::new(4, 3, 7u32).unwrap();
    assert_eq!(grid.width(), 4);
    assert_eq!(grid.height(), 3);
    for y in 0..3 {
        for x in 0..4 {
            assert_eq!(*grid.get(x, y), 7);
        }
    }
}

#[test]
fn new_rejects_zero_width() {
    assert_eq!(Grid::new(0, 3, 1u8).unwrap_err(), GridError::EmptyDimension);
}

#[test]
fn new_rejects_zero_height() {
    assert_eq!(Grid::new(3, 0, 1u8).unwrap_err(), GridError::EmptyDimension);
}

#[test]
fn new_rejects_zero_by_zero() {
    assert_eq!(Grid::new(0, 0, 1u8).unwrap_err(), GridError::EmptyDimension);
}

#[test]
fn new_rejects_a_cell_count_past_usize() {
    assert_eq!(Grid::new(usize::MAX, 2, ()).unwrap_err(), GridError::TooLarge);
    assert_eq!(Grid::new(2, usize::MAX, ()).unwrap_err(), GridError::TooLarge);
}

#[test]
fn from_fn_rejects_bad_dimensions() {
    let cell = |x: usize, y: usize| (x, y);
    assert_eq!(Grid::from_fn(0, 5, &cell).unwrap_err(), GridError::EmptyDimension);
    assert_eq!(Grid::from_fn(5, 0, &cell).unwrap_err(), GridError::EmptyDimension);
    let unit = |_x: usize, _y: usize| ();
    assert_eq!(Grid::from_fn(usize::MAX, 2, &unit).unwrap_err(), GridError::TooLarge);
}

#[test]
fn from_fn_puts_each_value_in_its_cell() {
    let grid = Grid::from_fn(5, 2, &|x: usize, y: usize| 10 * y + x).unwrap();
    assert_eq!(grid.width(), 5);
    assert_eq!(grid.height(), 2);
    for y in 0..2 {
        for x in 0..5 {
            assert_eq!(*grid.get(x, y), 10 * y + x);
        }
    }
}

#[test]
fn from_fn_walks_row_by_row() {
    let order: RefCell<Vec<(usize, usize)>> = RefCell::new(Vec::new());
    let grid = Grid::from_fn(
        3,
        2,
        &|x: usize, y: usize| {
            order.borrow_mut().push((x, y));
            0u8
        },
    )
    .unwrap();
    assert_eq!(grid.width(), 3);
    assert_eq!(*order.borrow(), vec![(0, 0), (1, 0), (2, 0), (0, 1), (1, 1), (2, 1)]);
}

#[test]
fn set_changes_one_cell_only() {
    let mut grid = Grid::from_fn(3, 4, &|x: usize, y: usize| (x, y)).unwrap();
    grid.set(2, 1, (9, 9));
    for y in 0..4 {
        for x in 0..3 {
            let want = if (x, y) == (2, 1) { (9, 9) } else { (x, y) };
            assert_eq!(*grid.get(x, y), want);
        }
    }
    assert_eq!(grid.width(), 3);
    assert_eq!(grid.height(), 4);
}

#[test]
fn set_and_get_on_a_wide_and_a_tall_grid() {
    let mut wide = Grid::new(7, 1, 0i32).unwrap();
    wide.set(6, 0, 5);
    assert_eq!(*wide.get(6, 0), 5);
    assert_eq!(*wide.get(5, 0), 0);
    let mut tall = Grid::new(1, 7, 0i32).unwrap();
    tall.set(0, 6, 5);
    assert_eq!(*tall.get(0, 6), 5);
    assert_eq!(*tall.get(0, 5), 0);
}

#[test]
fn grids_compare_by_shape_and_cells() {
    let a = Grid::new(2, 3, 1u8).unwrap();
    let mut b = Grid::new(2, 3, 1u8).unwrap();
    assert_eq!(a, b);
    b.set(1, 2, 4);
    assert_ne!(a, b);
    assert_ne!(Grid::new(3, 2, 1u8).unwrap(), a);
    assert_eq!(a.clone(), a);
}

#[test]
fn lattice_keeps_the_three_fields() {
    let pressure = Grid::new(3, 2, 1.5f32).unwrap();
    let flow = Grid::new(3, 2, (1.0f32, 2.0f32)).unwrap();
    let flow_prev = Grid::new(3, 2, (3.0f32, 4.0f32)).unwrap();
    let lattice = Lattice::new(pressure, flow, flow_prev).unwrap();
    assert_eq!(*lattice.pressure().get(2, 1), 1.5);
    assert_eq!(*lattice.flow().get(2, 1), (1.0, 2.0));
    assert_eq!(*lattice.flow_prev().get(2, 1), (3.0, 4.0));
}

#[test]
fn lattice_rejects_a_flow_of_another_shape() {
    let pressure = Grid::new(3, 2, 0.0f32).unwrap();
    let flow = Grid::new(2, 3, (0.0f32, 0.0f32)).unwrap();
    let flow_prev = Grid::new(2, 3, (0.0f32, 0.0f32)).unwrap();
    assert!(matches!(Lattice::new(pressure, flow, flow_prev), Err(GridError::ShapeMismatch)));
}

#[test]
fn lattice_rejects_a_snapshot_of_another_shape() {
    let pressure = Grid::new(3, 2, 0.0f32).unwrap();
    let flow = Grid::new(3, 2, (0.0f32, 0.0f32)).unwrap();
    let flow_prev = Grid::new(3, 3, (0.0f32, 0.0f32)).unwrap();
    assert!(matches!(Lattice::new(pressure, flow, flow_prev), Err(GridError::ShapeMismatch)));
}

#[test]
fn lattice_rejects_a_wider_pressure() {
    let pressure = Grid::new(4, 2, 0.0f32).unwrap();
    let flow = Grid::new(3, 2, (0.0f32, 0.0f32)).unwrap();
    let flow_prev = Grid::new(3, 2, (0.0f32, 0.0f32)).unwrap();
    assert!(matches!(Lattice::new(pressure, flow, flow_prev), Err(GridError::ShapeMismatch)));
}

#[test]
fn seed_overrides_the_middle_cell_only() {
    let grid = seed_pressure(5, 4, &|x: usize, y: usize| (10 * y + x) as i64, -1i64).unwrap();
    for y in 0..4 {
        for x in 0..5 {
            let want = if (x, y) == (2, 2) { -1 } else { (10 * y + x) as i64 };
            assert_eq!(*grid.get(x, y), want);
        }
    }
}

#[test]
fn seed_of_a_single_cell_is_the_hotspot() {
    let grid = seed_pressure(1, 1, &|_x: usize, _y: usize| 3u8, 9u8).unwrap();
    assert_eq!(*grid.get(0, 0), 9);
}

#[test]
fn seed_rejects_bad_dimensions() {
    let profile = |_x: usize, _y: usize| 0u8;
    assert_eq!(seed_pressure(0, 4, &profile, 1).unwrap_err(), GridError::EmptyDimension);
    assert_eq!(seed_pressure(4, 0, &profile, 1).unwrap_err(), GridError::EmptyDimension);
    let unit = |_x: usize, _y: usize| ();
    assert_eq!(seed_pressure(usize::MAX, 2, &unit, ()).unwrap_err(), GridError::TooLarge);
}
