//! The three passes of a tick, and the tick itself.
//!
//! A pass visits every cell once, row by row from the top and from left to
//! right within a row, and replaces the cell's value by what the kernel of
//! the pass returns for it. No kernel reads the field that its pass writes,
//! other than the one cell it is about to replace, so what a pass leaves in
//! a cell does not depend on the cells visited before it.

use vstd::prelude::*;
use crate::grid::Grid;
use crate::kernel::{
    flow_kernel,
    flow_step,
    flow_step_ready,
    heat_kernel,
    heat_step,
    heat_step_ready,
    pressure_kernel,
    pressure_step,
    pressure_step_ready,
};

verus! {

/// Whether a row-major walk that is about to visit `(x, y)` has already
/// visited `(xx, yy)`.
pub open spec fn visited(xx: int, yy: int, x: int, y: int) -> bool {
    yy < y || (yy == y && xx < x)
}

/// `after` is a flow field that the flow pass may leave behind when it
/// starts from `before`: it has the shape of `before`, and each cell holds
/// what the rule returns for that cell of `before` under `pressure`.
pub open spec fn flow_updated<P, V, K: Fn(P, [P; 8], V) -> V>(
    rule: K,
    pressure: Grid<P>,
    before: Grid<V>,
    after: Grid<V>,
) -> bool {
    &&& after.same_shape(&before)
    &&& forall|x: int, y: int|
        before.in_bounds(x, y) ==> flow_step(
            rule,
            pressure,
            x,
            y,
            before.at(x, y),
            #[trigger] after.at(x, y),
        )
}

/// `after` is a pressure field that the pressure pass may leave behind when
/// it starts from `before`: it has the shape of `before`, and each cell
/// holds what the rule returns for that cell of `before` under `flow`.
pub open spec fn pressure_updated<P, V, K: Fn(P, [V; 8]) -> P>(
    rule: K,
    flow: Grid<V>,
    zero: V,
    before: Grid<P>,
    after: Grid<P>,
) -> bool {
    &&& after.same_shape(&before)
    &&& forall|x: int, y: int|
        before.in_bounds(x, y) ==> pressure_step(
            rule,
            flow,
            zero,
            x,
            y,
            before.at(x, y),
            #[trigger] after.at(x, y),
        )
}

/// `after` is a flow field that the diffusion pass may leave behind when it
/// reads the snapshot `old_flow`: it has the shape of the snapshot, and
/// each cell holds what the rule returns for that cell of the snapshot.
pub open spec fn heat_updated<V, K: Fn(V, [V; 8]) -> V>(
    rule: K,
    old_flow: Grid<V>,
    zero: V,
    after: Grid<V>,
) -> bool {
    &&& after.same_shape(&old_flow)
    &&& forall|x: int, y: int|
        old_flow.in_bounds(x, y) ==> heat_step(rule, old_flow, zero, x, y, #[trigger] after.at(x, y))
}

/// The flow pass: every cell of `flow` is replaced by what `rule` returns
/// for it, given the pressure around it.
pub fn update_flow<P: Copy, V: Copy, K: Fn(P, [P; 8], V) -> V>(
    pressure: &Grid<P>,
    flow: &mut Grid<V>,
    rule: &K,
)
    requires
        pressure.wf(),
        old(flow).wf(),
        pressure.same_shape(old(flow)),
        forall|x: int, y: int|
            old(flow).in_bounds(x, y) ==> flow_step_ready(
                *rule,
                *pressure,
                x,
                y,
                #[trigger] old(flow).at(x, y),
            ),
    ensures
        final(flow).wf(),
        flow_updated(*rule, *pressure, *old(flow), *final(flow)),
{
    let width: usize = pressure.width();
    let height: usize = pressure.height();
    let ghost before = *flow;
    let mut y: usize = 0;
    while y < height
        invariant
            pressure.wf(),
            flow.wf(),
            before.wf(),
            pressure.same_shape(&before),
            flow.same_shape(&before),
            width == before.cols(),
            height == before.rows(),
            y <= height,
            forall|xx: int, yy: int|
                before.in_bounds(xx, yy) ==> flow_step_ready(
                    *rule,
                    *pressure,
                    xx,
                    yy,
                    #[trigger] before.at(xx, yy),
                ),
            forall|xx: int, yy: int|
                before.in_bounds(xx, yy) && visited(xx, yy, 0, y as int) ==> flow_step(
                    *rule,
                    *pressure,
                    xx,
                    yy,
                    before.at(xx, yy),
                    #[trigger] flow.at(xx, yy),
                ),
            forall|xx: int, yy: int|
                before.in_bounds(xx, yy) && !visited(xx, yy, 0, y as int) ==> #[trigger] flow.at(
                    xx,
                    yy,
                ) == before.at(xx, yy),
        decreases height - y,
    {
        let mut x: usize = 0;
        while x < width
            invariant
                pressure.wf(),
                flow.wf(),
                before.wf(),
                pressure.same_shape(&before),
                flow.same_shape(&before),
                width == before.cols(),
                height == before.rows(),
                y < height,
                x <= width,
                forall|xx: int, yy: int|
                    before.in_bounds(xx, yy) ==> flow_step_ready(
                        *rule,
                        *pressure,
                        xx,
                        yy,
                        #[trigger] before.at(xx, yy),
                    ),
                forall|xx: int, yy: int|
                    before.in_bounds(xx, yy) && visited(xx, yy, x as int, y as int) ==> flow_step(
                        *rule,
                        *pressure,
                        xx,
                        yy,
                        before.at(xx, yy),
                        #[trigger] flow.at(xx, yy),
                    ),
                forall|xx: int, yy: int|
                    before.in_bounds(xx, yy) && !visited(xx, yy, x as int, y as int)
                        ==> #[trigger] flow.at(xx, yy) == before.at(xx, yy),
            decreases width - x,
        {
            let pos: (usize, usize) = (x, y);
            let held = *flow.get(x, y);
            let new_flow = flow_kernel(pressure, held, pos, rule);
            flow.set(x, y, new_flow);
            x += 1;
        }
        y += 1;
    }
}

/// The pressure pass: every cell of `pressure` is replaced by what `rule`
/// returns for it, given the flow around it.
pub fn update_pressure<P: Copy, V: Copy, K: Fn(P, [V; 8]) -> P>(
    pressure: &mut Grid<P>,
    flow: &Grid<V>,
    zero: V,
    rule: &K,
)
    requires
        old(pressure).wf(),
        flow.wf(),
        flow.same_shape(old(pressure)),
        forall|x: int, y: int|
            old(pressure).in_bounds(x, y) ==> pressure_step_ready(
                *rule,
                *flow,
                zero,
                x,
                y,
                #[trigger] old(pressure).at(x, y),
            ),
    ensures
        final(pressure).wf(),
        pressure_updated(*rule, *flow, zero, *old(pressure), *final(pressure)),
{
    let width: usize = pressure.width();
    let height: usize = pressure.height();
    let ghost before = *pressure;
    let mut y: usize = 0;
    while y < height
        invariant
            pressure.wf(),
            flow.wf(),
            before.wf(),
            flow.same_shape(&before),
            pressure.same_shape(&before),
            width == before.cols(),
            height == before.rows(),
            y <= height,
            forall|xx: int, yy: int|
                before.in_bounds(xx, yy) ==> pressure_step_ready(
                    *rule,
                    *flow,
                    zero,
                    xx,
                    yy,
                    #[trigger] before.at(xx, yy),
                ),
            forall|xx: int, yy: int|
                before.in_bounds(xx, yy) && visited(xx, yy, 0, y as int) ==> pressure_step(
                    *rule,
                    *flow,
                    zero,
                    xx,
                    yy,
                    before.at(xx, yy),
                    #[trigger] pressure.at(xx, yy),
                ),
            forall|xx: int, yy: int|
                before.in_bounds(xx, yy) && !visited(xx, yy, 0, y as int)
                    ==> #[trigger] pressure.at(xx, yy) == before.at(xx, yy),
        decreases height - y,
    {
        let mut x: usize = 0;
        while x < width
            invariant
                pressure.wf(),
                flow.wf(),
                before.wf(),
                flow.same_shape(&before),
                pressure.same_shape(&before),
                width == before.cols(),
                height == before.rows(),
                y < height,
                x <= width,
                forall|xx: int, yy: int|
                    before.in_bounds(xx, yy) ==> pressure_step_ready(
                        *rule,
                        *flow,
                        zero,
                        xx,
                        yy,
                        #[trigger] before.at(xx, yy),
                    ),
                forall|xx: int, yy: int|
                    before.in_bounds(xx, yy) && visited(xx, yy, x as int, y as int)
                        ==> pressure_step(
                        *rule,
                        *flow,
                        zero,
                        xx,
                        yy,
                        before.at(xx, yy),
                        #[trigger] pressure.at(xx, yy),
                    ),
                forall|xx: int, yy: int|
                    before.in_bounds(xx, yy) && !visited(xx, yy, x as int, y as int)
                        ==> #[trigger] pressure.at(xx, yy) == before.at(xx, yy),
            decreases width - x,
        {
            let pos: (usize, usize) = (x, y);
            let held = *pressure.get(x, y);
            let new_pressure = pressure_kernel(held, flow, pos, zero, rule);
            pressure.set(x, y, new_pressure);
            x += 1;
        }
        y += 1;
    }
}

/// The diffusion pass: every cell of `flow` is replaced by what `rule`
/// returns for that cell of the snapshot `old_flow`. What `flow` held
/// before the pass is not read.
pub fn update_heat<V: Copy, K: Fn(V, [V; 8]) -> V>(
    old_flow: &Grid<V>,
    flow: &mut Grid<V>,
    zero: V,
    rule: &K,
)
    requires
        old_flow.wf(),
        old(flow).wf(),
        old_flow.same_shape(old(flow)),
        forall|x: int, y: int|
            #![trigger old_flow.at(x, y)]
            old_flow.in_bounds(x, y) ==> heat_step_ready(*rule, *old_flow, zero, x, y),
    ensures
        final(flow).wf(),
        heat_updated(*rule, *old_flow, zero, *final(flow)),
{
    let width: usize = flow.width();
    let height: usize = flow.height();
    let mut y: usize = 0;
    while y < height
        invariant
            old_flow.wf(),
            flow.wf(),
            flow.same_shape(old_flow),
            width == old_flow.cols(),
            height == old_flow.rows(),
            y <= height,
            forall|xx: int, yy: int|
                #![trigger old_flow.at(xx, yy)]
                old_flow.in_bounds(xx, yy) ==> heat_step_ready(*rule, *old_flow, zero, xx, yy),
            forall|xx: int, yy: int|
                old_flow.in_bounds(xx, yy) && visited(xx, yy, 0, y as int) ==> heat_step(
                    *rule,
                    *old_flow,
                    zero,
                    xx,
                    yy,
                    #[trigger] flow.at(xx, yy),
                ),
        decreases height - y,
    {
        let mut x: usize = 0;
        while x < width
            invariant
                old_flow.wf(),
                flow.wf(),
                flow.same_shape(old_flow),
                width == old_flow.cols(),
                height == old_flow.rows(),
                y < height,
                x <= width,
                forall|xx: int, yy: int|
                    #![trigger old_flow.at(xx, yy)]
                    old_flow.in_bounds(xx, yy) ==> heat_step_ready(*rule, *old_flow, zero, xx, yy),
                forall|xx: int, yy: int|
                    old_flow.in_bounds(xx, yy) && visited(xx, yy, x as int, y as int)
                        ==> heat_step(*rule, *old_flow, zero, xx, yy, #[trigger] flow.at(xx, yy)),
            decreases width - x,
        {
            let pos: (usize, usize) = (x, y);
            let new_flow = heat_kernel(old_flow, pos, zero, rule);
            flow.set(x, y, new_flow);
            x += 1;
        }
        y += 1;
    }
}

/// The flow rule accepts every input.
pub open spec fn flow_rule_total<P, V, K: Fn(P, [P; 8], V) -> V>(rule: K) -> bool {
    forall|center: P, around: [P; 8], held: V| rule.requires((center, around, held))
}

/// The pressure rule accepts every input.
pub open spec fn pressure_rule_total<P, V, K: Fn(P, [V; 8]) -> P>(rule: K) -> bool {
    forall|held: P, around: [V; 8]| rule.requires((held, around))
}

/// The diffusion rule accepts every input.
pub open spec fn heat_rule_total<V, K: Fn(V, [V; 8]) -> V>(rule: K) -> bool {
    forall|center: V, around: [V; 8]| rule.requires((center, around))
}

/// One tick may lead from the pressure `pressure0`, the flow `flow0` and
/// the snapshot `flow_prev` to the pressure `pressure1` and the flow
/// `flow1`: there is a flow field `mid` that the flow pass may make of
/// `flow0`, `pressure1` is what the pressure pass may make of `pressure0`
/// under `mid`, and `flow1` is what the diffusion pass may make of the
/// snapshot.
pub open spec fn ticked<
    P,
    V,
    FK: Fn(P, [P; 8], V) -> V,
    PK: Fn(P, [V; 8]) -> P,
    HK: Fn(V, [V; 8]) -> V,
>(
    flow_rule: FK,
    pressure_rule: PK,
    heat_rule: HK,
    zero: V,
    pressure0: Grid<P>,
    flow0: Grid<V>,
    flow_prev: Grid<V>,
    pressure1: Grid<P>,
    flow1: Grid<V>,
) -> bool {
    &&& heat_updated(heat_rule, flow_prev, zero, flow1)
    &&& exists|mid: Grid<V>|
        {
            &&& mid.wf()
            &&& #[trigger] flow_updated(flow_rule, pressure0, flow0, mid)
            &&& pressure_updated(pressure_rule, mid, zero, pressure0, pressure1)
        }
}

/// One tick: the flow pass on `flow`, then the pressure pass on `pressure`
/// under the flow just made, then the diffusion pass, which reads the
/// snapshot `flow_prev` and writes `flow`.
pub fn update<
    P: Copy,
    V: Copy,
    FK: Fn(P, [P; 8], V) -> V,
    PK: Fn(P, [V; 8]) -> P,
    HK: Fn(V, [V; 8]) -> V,
>(
    pressure: &mut Grid<P>,
    flow: &mut Grid<V>,
    flow_prev: &Grid<V>,
    zero: V,
    flow_rule: &FK,
    pressure_rule: &PK,
    heat_rule: &HK,
)
    requires
        old(pressure).wf(),
        old(flow).wf(),
        flow_prev.wf(),
        old(pressure).same_shape(old(flow)),
        flow_prev.same_shape(old(flow)),
        flow_rule_total(*flow_rule),
        pressure_rule_total(*pressure_rule),
        heat_rule_total(*heat_rule),
    ensures
        final(pressure).wf(),
        final(flow).wf(),
        ticked(
            *flow_rule,
            *pressure_rule,
            *heat_rule,
            zero,
            *old(pressure),
            *old(flow),
            *flow_prev,
            *final(pressure),
            *final(flow),
        ),
{
    update_flow(pressure, flow, flow_rule);
    let ghost mid = *flow;
    update_pressure(pressure, flow, zero, pressure_rule);
    update_heat(flow_prev, flow, zero, heat_rule);
    assert(flow_updated(*flow_rule, *old(pressure), *old(flow), mid));
}

} // verus!
