use liquid_sim::grid::Grid;
use liquid_sim::observe::pixels;

#[test]
fn fold_visits_cells_in_row_major_order() {
    let grid = Grid::from_fn(3, 2, &|x: usize, y: usize| (3 * y + x + 1) as u64).unwrap();
    let digits = grid.fold(0u64, &|acc: u64, item: u64| acc * 10 + item);
    assert_eq!(digits, 123456);
}

#[test]
fn fold_of_a_single_cell() {
    let grid = Grid::new(1, 1, 5i32).unwrap();
    assert_eq!(grid.fold(100, &|acc: i32, item: i32| acc - item), 95);
}

#[test]
fn fold_sums_the_pressure() {
    let mut pressure = Grid::new(3, 3, 100.0f32).unwrap();
    pressure.set(1, 1, 24.5);
    assert_eq!(pressure.fold(0.0f32, &|sum: f32, p: f32| sum + p), 824.5);
}

#[test]
fn fold_collects_every_cell_once() {
    let grid = Grid::from_fn(4, 3, &|x: usize, y: usize| (x, y)).unwrap();
    let seen = grid.fold(Vec::new(), &|mut seen: Vec<(usize, usize)>, item: (usize, usize)| {
        seen.push(item);
        seen
    });
    let mut want = Vec::new();
    for y in 0..3 {
        for x in 0..4 {
            want.push((x, y));
        }
    }
    assert_eq!(seen, want);
}

#[test]
fn pixels_pairs_the_two_fields_cell_by_cell() {
    let pressure = Grid::from_fn(3, 2, &|x: usize, y: usize| (10 * y + x) as i32).unwrap();
    let flow = Grid::from_fn(3, 2, &|x: usize, y: usize| (x as i32, -(y as i32))).unwrap();
    let image = pixels(&pressure, &flow, &|p: i32, f: (i32, i32)| (p, f.0, f.1));
    assert_eq!(
        image,
        vec![
            vec![(0, 0, 0), (1, 1, 0), (2, 2, 0)],
            vec![(10, 0, -1), (11, 1, -1), (12, 2, -1)],
        ]
    );
}

#[test]
fn pixels_of_a_single_column() {
    let pressure = Grid::new(1, 3, 2u8).unwrap();
    let flow = Grid::new(1, 3, 3u8).unwrap();
    let image = pixels(&pressure, &flow, &|p: u8, f: u8| p * f);
    assert_eq!(image, vec![vec![6], vec![6], vec![6]]);
}
