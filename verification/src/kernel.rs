//! The three per-cell kernels. Each gathers what the rule of its pass reads
//! around one cell, under the edge policy of the field it reads, and hands
//! it to the rule. The rule computes the new value of the cell; the kernel
//! returns it, and the pass writes it.

use vstd::prelude::*;
use crate::grid::Grid;
use crate::neighbors::{flow_ring, pressure_ring};

verus! {

/// `out` is a value that the flow rule may return for cell `(x, y)`: the
/// rule is given the pressure of the cell, the eight pressure reads around
/// it, and the flow `held` by the cell.
pub open spec fn flow_step<P, V, K: Fn(P, [P; 8], V) -> V>(
    rule: K,
    pressure: Grid<P>,
    x: int,
    y: int,
    held: V,
    out: V,
) -> bool {
    rule.ensures((pressure.at(x, y), pressure.clamped_ring(x, y), held), out)
}

/// The flow rule accepts what it is given for cell `(x, y)`.
pub open spec fn flow_step_ready<P, V, K: Fn(P, [P; 8], V) -> V>(
    rule: K,
    pressure: Grid<P>,
    x: int,
    y: int,
    held: V,
) -> bool {
    rule.requires((pressure.at(x, y), pressure.clamped_ring(x, y), held))
}

/// `out` is a value that the pressure rule may return for cell `(x, y)`:
/// the rule is given the pressure `held` by the cell and the eight flow
/// reads around it.
pub open spec fn pressure_step<P, V, K: Fn(P, [V; 8]) -> P>(
    rule: K,
    flow: Grid<V>,
    zero: V,
    x: int,
    y: int,
    held: P,
    out: P,
) -> bool {
    rule.ensures((held, flow.absorbed_ring(x, y, zero)), out)
}

/// The pressure rule accepts what it is given for cell `(x, y)`.
pub open spec fn pressure_step_ready<P, V, K: Fn(P, [V; 8]) -> P>(
    rule: K,
    flow: Grid<V>,
    zero: V,
    x: int,
    y: int,
    held: P,
) -> bool {
    rule.requires((held, flow.absorbed_ring(x, y, zero)))
}

/// `out` is a value that the diffusion rule may return for cell `(x, y)`:
/// the rule is given the flow of the cell in the snapshot and the eight
/// flow reads around it in the snapshot.
pub open spec fn heat_step<V, K: Fn(V, [V; 8]) -> V>(
    rule: K,
    old_flow: Grid<V>,
    zero: V,
    x: int,
    y: int,
    out: V,
) -> bool {
    rule.ensures((old_flow.at(x, y), old_flow.absorbed_ring(x, y, zero)), out)
}

/// The diffusion rule accepts what it is given for cell `(x, y)`.
pub open spec fn heat_step_ready<V, K: Fn(V, [V; 8]) -> V>(
    rule: K,
    old_flow: Grid<V>,
    zero: V,
    x: int,
    y: int,
) -> bool {
    rule.requires((old_flow.at(x, y), old_flow.absorbed_ring(x, y, zero)))
}

/// The new flow of the cell at `pos`, which now holds `flow`. The rule sees
/// the pressure field only, read with the pressure policy at the edge.
pub fn flow_kernel<P: Copy, V, K: Fn(P, [P; 8], V) -> V>(
    pressure: &Grid<P>,
    flow: V,
    pos: (usize, usize),
    rule: &K,
) -> (new_flow: V)
    requires
        pressure.wf(),
        pressure.in_bounds(pos.0 as int, pos.1 as int),
        flow_step_ready(*rule, *pressure, pos.0 as int, pos.1 as int, flow),
    ensures
        flow_step(*rule, *pressure, pos.0 as int, pos.1 as int, flow, new_flow),
{
    let this_pressure = *pressure.get(pos.0, pos.1);
    let around = pressure_ring(pressure, &pos);
    rule(this_pressure, around, flow)
}

/// The new pressure of the cell at `pos`, which now holds `pressure`. The
/// rule sees the flow around the cell, read with the flow policy at the
/// edge.
pub fn pressure_kernel<P, V: Copy, K: Fn(P, [V; 8]) -> P>(
    pressure: P,
    flow: &Grid<V>,
    pos: (usize, usize),
    zero: V,
    rule: &K,
) -> (new_pressure: P)
    requires
        flow.wf(),
        flow.in_bounds(pos.0 as int, pos.1 as int),
        pressure_step_ready(*rule, *flow, zero, pos.0 as int, pos.1 as int, pressure),
    ensures
        pressure_step(*rule, *flow, zero, pos.0 as int, pos.1 as int, pressure, new_pressure),
{
    let around = flow_ring(flow, &pos, zero);
    rule(pressure, around)
}

/// The smoothed flow of the cell at `pos`. The rule sees the snapshot
/// `old_flow` only: the cell itself and the flow around it, read with the
/// flow policy at the edge.
pub fn heat_kernel<V: Copy, K: Fn(V, [V; 8]) -> V>(
    old_flow: &Grid<V>,
    pos: (usize, usize),
    zero: V,
    rule: &K,
) -> (new_flow: V)
    requires
        old_flow.wf(),
        old_flow.in_bounds(pos.0 as int, pos.1 as int),
        heat_step_ready(*rule, *old_flow, zero, pos.0 as int, pos.1 as int),
    ensures
        heat_step(*rule, *old_flow, zero, pos.0 as int, pos.1 as int, new_flow),
{
    let this_flow = *old_flow.get(pos.0, pos.1);
    let around = flow_ring(old_flow, &pos, zero);
    rule(this_flow, around)
}

} // verus!
