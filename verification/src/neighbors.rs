//! The eight neighbours of a cell, and what a read yields when a neighbour
//! lies outside the grid.
//!
//! Pressure and flow treat the edge differently on purpose. A pressure read
//! past the edge yields the value of the cell that asked, so no gradient
//! arises across the edge. A flow read past the edge yields the caller's
//! zero, so the edge absorbs flow.

use vstd::prelude::*;
use crate::grid::Grid;

verus! {

/// The offsets `(dx, dy)` of the eight neighbours, in the order in which
/// every kernel visits them: the four along the axes, then the four
/// diagonals.
pub const DIRS: [(i32, i32); 8] = [
    (0, 1),
    (1, 0),
    (0, -1),
    (-1, 0),
    (-1, 1),
    (1, 1),
    (1, -1),
    (-1, -1),
];

/// Whether `(dx, dy)` leads from a cell to one of the eight cells around it.
pub open spec fn adjacent(dx: int, dy: int) -> bool {
    -1 <= dx <= 1 && -1 <= dy <= 1 && !(dx == 0 && dy == 0)
}

/// The offset of neighbour `i` as a pair of mathematical integers.
pub open spec fn dir(i: int) -> (int, int) {
    (DIRS[i].0 as int, DIRS[i].1 as int)
}

impl<T> Grid<T> {
    /// The value read at `(x + dx, y + dy)` under the pressure policy: the
    /// cell there if there is one, else the value of `(x, y)` itself.
    pub open spec fn clamped(&self, x: int, y: int, dx: int, dy: int) -> T {
        if self.in_bounds(x + dx, y + dy) {
            self.at(x + dx, y + dy)
        } else {
            self.at(x, y)
        }
    }

    /// The value read at `(x + dx, y + dy)` under the flow policy: the cell
    /// there if there is one, else `zero`.
    pub open spec fn absorbed(&self, x: int, y: int, dx: int, dy: int, zero: T) -> T {
        if self.in_bounds(x + dx, y + dy) {
            self.at(x + dx, y + dy)
        } else {
            zero
        }
    }

    /// The eight pressure reads around `(x, y)`, in the order of `DIRS`.
    pub open spec fn clamped_ring(&self, x: int, y: int) -> [T; 8] {
        [
            self.clamped(x, y, dir(0).0, dir(0).1),
            self.clamped(x, y, dir(1).0, dir(1).1),
            self.clamped(x, y, dir(2).0, dir(2).1),
            self.clamped(x, y, dir(3).0, dir(3).1),
            self.clamped(x, y, dir(4).0, dir(4).1),
            self.clamped(x, y, dir(5).0, dir(5).1),
            self.clamped(x, y, dir(6).0, dir(6).1),
            self.clamped(x, y, dir(7).0, dir(7).1),
        ]
    }

    /// The eight flow reads around `(x, y)`, in the order of `DIRS`.
    pub open spec fn absorbed_ring(&self, x: int, y: int, zero: T) -> [T; 8] {
        [
            self.absorbed(x, y, dir(0).0, dir(0).1, zero),
            self.absorbed(x, y, dir(1).0, dir(1).1, zero),
            self.absorbed(x, y, dir(2).0, dir(2).1, zero),
            self.absorbed(x, y, dir(3).0, dir(3).1, zero),
            self.absorbed(x, y, dir(4).0, dir(4).1, zero),
            self.absorbed(x, y, dir(5).0, dir(5).1, zero),
            self.absorbed(x, y, dir(6).0, dir(6).1, zero),
            self.absorbed(x, y, dir(7).0, dir(7).1, zero),
        ]
    }

    /// The cell at `pos + delta`, if the grid has one.
    pub fn neighbor(&self, pos: &(usize, usize), delta: &(i32, i32)) -> (cell: Option<
        (usize, usize),
    >)
        requires
            self.wf(),
        ensures
            match cell {
                Some(q) => {
                    &&& q.0 == pos.0 + delta.0
                    &&& q.1 == pos.1 + delta.1
                    &&& self.in_bounds(q.0 as int, q.1 as int)
                },
                None => !self.in_bounds(pos.0 + delta.0, pos.1 + delta.1),
            },
    {
        let x: i128 = pos.0 as i128 + delta.0 as i128;
        let y: i128 = pos.1 as i128 + delta.1 as i128;
        if x < 0 || y < 0 {
            return None;
        }
        if x >= self.width() as i128 || y >= self.height() as i128 {
            return None;
        }
        Some((x as usize, y as usize))
    }
}

/// Reads the pressure at `pos + delta`. Past the edge the read yields the
/// value of `pos` itself.
pub fn get_pressure<T: Copy>(pressure: &Grid<T>, pos: &(usize, usize), delta: &(i32, i32)) -> (value:
    T)
    requires
        pressure.wf(),
        pressure.in_bounds(pos.0 as int, pos.1 as int),
    ensures
        value == pressure.clamped(pos.0 as int, pos.1 as int, delta.0 as int, delta.1 as int),
        !pressure.in_bounds(pos.0 + delta.0, pos.1 + delta.1) ==> value == pressure.at(
            pos.0 as int,
            pos.1 as int,
        ),
{
    match pressure.neighbor(pos, delta) {
        Some(q) => *pressure.get(q.0, q.1),
        None => *pressure.get(pos.0, pos.1),
    }
}

/// Reads the flow at `pos + delta`. Past the edge the read yields `zero`.
pub fn get_flow<T: Copy>(flow: &Grid<T>, pos: &(usize, usize), delta: &(i32, i32), zero: T) -> (value:
    T)
    requires
        flow.wf(),
        flow.in_bounds(pos.0 as int, pos.1 as int),
    ensures
        value == flow.absorbed(pos.0 as int, pos.1 as int, delta.0 as int, delta.1 as int, zero),
        !flow.in_bounds(pos.0 + delta.0, pos.1 + delta.1) ==> value == zero,
{
    match flow.neighbor(pos, delta) {
        Some(q) => *flow.get(q.0, q.1),
        None => zero,
    }
}

/// Gathers the eight pressure reads around `pos`, in the order of `DIRS`.
pub fn pressure_ring<T: Copy>(pressure: &Grid<T>, pos: &(usize, usize)) -> (ring: [T; 8])
    requires
        pressure.wf(),
        pressure.in_bounds(pos.0 as int, pos.1 as int),
    ensures
        ring == pressure.clamped_ring(pos.0 as int, pos.1 as int),
{
    let ring = [
        get_pressure(pressure, pos, &DIRS[0]),
        get_pressure(pressure, pos, &DIRS[1]),
        get_pressure(pressure, pos, &DIRS[2]),
        get_pressure(pressure, pos, &DIRS[3]),
        get_pressure(pressure, pos, &DIRS[4]),
        get_pressure(pressure, pos, &DIRS[5]),
        get_pressure(pressure, pos, &DIRS[6]),
        get_pressure(pressure, pos, &DIRS[7]),
    ];
    assert(ring =~= pressure.clamped_ring(pos.0 as int, pos.1 as int));
    ring
}

/// Gathers the eight flow reads around `pos`, in the order of `DIRS`.
pub fn flow_ring<T: Copy>(flow: &Grid<T>, pos: &(usize, usize), zero: T) -> (ring: [T; 8])
    requires
        flow.wf(),
        flow.in_bounds(pos.0 as int, pos.1 as int),
    ensures
        ring == flow.absorbed_ring(pos.0 as int, pos.1 as int, zero),
{
    let ring = [
        get_flow(flow, pos, &DIRS[0], zero),
        get_flow(flow, pos, &DIRS[1], zero),
        get_flow(flow, pos, &DIRS[2], zero),
        get_flow(flow, pos, &DIRS[3], zero),
        get_flow(flow, pos, &DIRS[4], zero),
        get_flow(flow, pos, &DIRS[5], zero),
        get_flow(flow, pos, &DIRS[6], zero),
        get_flow(flow, pos, &DIRS[7], zero),
    ];
    assert(ring =~= flow.absorbed_ring(pos.0 as int, pos.1 as int, zero));
    ring
}

/// `DIRS` names each of the eight cells around a cell exactly once: every
/// offset with both parts in `-1..=1`, other than `(0, 0)`, is one entry,
/// and no two entries are equal. The first four entries move along one
/// axis, the last four along both.
pub proof fn lemma_dirs_are_the_eight_neighbours()
    ensures
        forall|dx: int, dy: int| #[trigger]
            adjacent(dx, dy) ==> exists|i: int| 0 <= i < 8 && #[trigger] dir(i) == (dx, dy),
        forall|i: int, j: int| 0 <= i < j < 8 ==> dir(i) != dir(j),
        forall|i: int| 0 <= i < 4 ==> ((#[trigger] dir(i)).0 == 0) != (dir(i).1 == 0),
        forall|i: int| 4 <= i < 8 ==> (#[trigger] dir(i)).0 != 0 && dir(i).1 != 0,
{
    assert(dir(0) == (0int, 1int));
    assert(dir(1) == (1int, 0int));
    assert(dir(2) == (0int, -1int));
    assert(dir(3) == (-1int, 0int));
    assert(dir(4) == (-1int, 1int));
    assert(dir(5) == (1int, 1int));
    assert(dir(6) == (1int, -1int));
    assert(dir(7) == (-1int, -1int));
}

} // verus!
