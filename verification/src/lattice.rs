//! The state of a simulation: a pressure field, a flow field and the
//! snapshot of the flow that the diffusion pass reads, all of one shape.

use vstd::prelude::*;
use crate::grid::{Grid, GridError};
use crate::pass::{flow_rule_total, heat_rule_total, pressure_rule_total, ticked, update};

verus! {

/// The three fields of a simulation. They have one shape from the moment
/// the lattice is made, and keep it.
#[derive(Clone, Debug, PartialEq)]
pub struct Lattice<P, V> {
    pressure: Grid<P>,
    flow: Grid<V>,
    flow_prev: Grid<V>,
}

impl<P, V> Lattice<P, V> {
    /// The pressure field.
    pub closed spec fn pressure_field(&self) -> Grid<P> {
        self.pressure
    }

    /// The flow field.
    pub closed spec fn flow_field(&self) -> Grid<V> {
        self.flow
    }

    /// The snapshot of the flow that the next diffusion pass reads.
    pub closed spec fn snapshot_field(&self) -> Grid<V> {
        self.flow_prev
    }

    /// The three fields are well formed and have one shape.
    pub open spec fn wf(&self) -> bool {
        &&& self.pressure_field().wf()
        &&& self.flow_field().wf()
        &&& self.snapshot_field().wf()
        &&& self.pressure_field().same_shape(&self.flow_field())
        &&& self.snapshot_field().same_shape(&self.flow_field())
    }

    /// Puts three fields together. They must have one shape; if they do
    /// not, the lattice is not made.
    pub fn new(pressure: Grid<P>, flow: Grid<V>, flow_prev: Grid<V>) -> (made: Result<
        Lattice<P, V>,
        GridError,
    >)
        requires
            pressure.wf(),
            flow.wf(),
            flow_prev.wf(),
        ensures
            match made {
                Ok(lattice) => {
                    &&& lattice.wf()
                    &&& lattice.pressure_field() == pressure
                    &&& lattice.flow_field() == flow
                    &&& lattice.snapshot_field() == flow_prev
                    &&& pressure.same_shape(&flow)
                    &&& flow_prev.same_shape(&flow)
                },
                Err(error) => {
                    &&& error == GridError::ShapeMismatch
                    &&& !(pressure.same_shape(&flow) && flow_prev.same_shape(&flow))
                },
            },
    {
        let width: usize = flow.width();
        let height: usize = flow.height();
        if pressure.width() != width || pressure.height() != height {
            return Err(GridError::ShapeMismatch);
        }
        if flow_prev.width() != width || flow_prev.height() != height {
            return Err(GridError::ShapeMismatch);
        }
        Ok(Lattice { pressure, flow, flow_prev })
    }

    /// The pressure field.
    pub fn pressure(&self) -> (field: &Grid<P>)
        ensures
            *field == self.pressure_field(),
    {
        &self.pressure
    }

    /// The flow field.
    pub fn flow(&self) -> (field: &Grid<V>)
        ensures
            *field == self.flow_field(),
    {
        &self.flow
    }

    /// The snapshot of the flow that the next diffusion pass reads.
    pub fn flow_prev(&self) -> (field: &Grid<V>)
        ensures
            *field == self.snapshot_field(),
    {
        &self.flow_prev
    }

    /// One tick, and the exchange of the two flow buffers that follows it:
    /// the pressure is advanced; the flow that the tick leaves behind
    /// becomes the snapshot, and the old snapshot becomes the flow.
    pub fn tick<FK: Fn(P, [P; 8], V) -> V, PK: Fn(P, [V; 8]) -> P, HK: Fn(V, [V; 8]) -> V>(
        &mut self,
        zero: V,
        flow_rule: &FK,
        pressure_rule: &PK,
        heat_rule: &HK,
    ) where P: Copy, V: Copy
        requires
            old(self).wf(),
            flow_rule_total(*flow_rule),
            pressure_rule_total(*pressure_rule),
            heat_rule_total(*heat_rule),
        ensures
            final(self).wf(),
            final(self).flow_field() == old(self).snapshot_field(),
            ticked(
                *flow_rule,
                *pressure_rule,
                *heat_rule,
                zero,
                old(self).pressure_field(),
                old(self).flow_field(),
                old(self).snapshot_field(),
                final(self).pressure_field(),
                final(self).snapshot_field(),
            ),
    {
        update(
            &mut self.pressure,
            &mut self.flow,
            &self.flow_prev,
            zero,
            flow_rule,
            pressure_rule,
            heat_rule,
        );
        std::mem::swap(&mut self.flow, &mut self.flow_prev);
    }
}

/// Builds the pressure field a simulation starts from: cell `(x, y)` holds
/// what `profile` returns for `(x, y)`, but for the cell in the middle,
/// `(width / 2, height / 2)`, which holds `hotspot` whatever the profile
/// says.
pub fn seed_pressure<T, F: Fn(usize, usize) -> T>(
    width: usize,
    height: usize,
    profile: &F,
    hotspot: T,
) -> (made: Result<Grid<T>, GridError>)
    requires
        forall|x: usize, y: usize| x < width && y < height ==> profile.requires((x, y)),
    ensures
        match made {
            Ok(grid) => {
                &&& grid.wf()
                &&& grid.cols() == width
                &&& grid.rows() == height
                &&& width * height <= usize::MAX
                &&& grid.at(width as int / 2, height as int / 2) == hotspot
                &&& forall|x: usize, y: usize|
                    x < width && y < height && !(x == width / 2 && y == height / 2)
                        ==> profile.ensures((x, y), #[trigger] grid.at(x as int, y as int))
            },
            Err(GridError::EmptyDimension) => width == 0 || height == 0,
            Err(GridError::TooLarge) => width > 0 && height > 0 && width * height > usize::MAX,
            Err(GridError::ShapeMismatch) => false,
        },
{
    match Grid::from_fn(width, height, profile) {
        Ok(mut grid) => {
            grid.set(width / 2, height / 2, hotspot);
            Ok(grid)
        },
        Err(error) => Err(error),
    }
}

} // verus!
