//! What holds of the passes whatever the rules compute, given only how a
//! rule behaves on the simplest inputs.
//!
//! The library does not know the arithmetic of a rule. Each law below
//! therefore names, as a hypothesis, the one fact about the rule that it
//! rests on, and proves the rest: which values the rule is handed at each
//! cell, the edge included.

use vstd::prelude::*;
use crate::grid::Grid;
use crate::pass::{flow_updated, heat_updated, pressure_updated, ticked};

verus! {

/// Every cell of `grid` holds `value`.
pub open spec fn uniform<T>(grid: Grid<T>, value: T) -> bool {
    forall|x: int, y: int| grid.in_bounds(x, y) ==> #[trigger] grid.at(x, y) == value
}

/// The ring of eight reads that all yield `value`.
pub open spec fn flat<T>(value: T) -> [T; 8] {
    [value, value, value, value, value, value, value, value]
}

/// `(x, y)` is a cell of `grid` whose eight neighbours are all cells of
/// `grid`.
pub open spec fn interior<T>(grid: Grid<T>, x: int, y: int) -> bool {
    1 <= x < grid.cols() - 1 && 1 <= y < grid.rows() - 1
}

/// A flow rule that leaves the flow of a cell as it is whenever the eight
/// pressure reads around the cell equal the pressure of the cell.
pub open spec fn flow_rule_rests_on_flat<P, V, K: Fn(P, [P; 8], V) -> V>(rule: K) -> bool {
    forall|center: P, held: V, out: V| #[trigger]
        rule.ensures((center, flat(center), held), out) ==> out == held
}

/// A pressure rule that leaves the pressure of a cell as it is whenever
/// the eight flow reads around the cell all yield `zero`.
pub open spec fn pressure_rule_rests_on_zero<P, V, K: Fn(P, [V; 8]) -> P>(rule: K, zero: V) -> bool {
    forall|held: P, out: P| #[trigger] rule.ensures((held, flat(zero)), out) ==> out == held
}

/// A diffusion rule that returns the flow of a cell whenever the eight
/// flow reads around the cell equal it.
pub open spec fn heat_rule_rests_on_flat<V, K: Fn(V, [V; 8]) -> V>(rule: K) -> bool {
    forall|center: V, out: V| #[trigger] rule.ensures((center, flat(center)), out) ==> out == center
}

/// A flow rule that returns one value for one input.
pub open spec fn flow_rule_deterministic<P, V, K: Fn(P, [P; 8], V) -> V>(rule: K) -> bool {
    forall|center: P, around: [P; 8], held: V, a: V, b: V|
        #![trigger rule.ensures((center, around, held), a), rule.ensures((center, around, held), b)]
        rule.ensures((center, around, held), a) && rule.ensures((center, around, held), b) ==> a
            == b
}

/// A pressure rule that returns one value for one input.
pub open spec fn pressure_rule_deterministic<P, V, K: Fn(P, [V; 8]) -> P>(rule: K) -> bool {
    forall|held: P, around: [V; 8], a: P, b: P|
        #![trigger rule.ensures((held, around), a), rule.ensures((held, around), b)]
        rule.ensures((held, around), a) && rule.ensures((held, around), b) ==> a == b
}

/// A diffusion rule that returns one value for one input.
pub open spec fn heat_rule_deterministic<V, K: Fn(V, [V; 8]) -> V>(rule: K) -> bool {
    forall|center: V, around: [V; 8], a: V, b: V|
        #![trigger rule.ensures((center, around), a), rule.ensures((center, around), b)]
        rule.ensures((center, around), a) && rule.ensures((center, around), b) ==> a == b
}

/// Two well-formed grids of one shape that agree cell by cell have the
/// same rows.
pub proof fn lemma_same_cells_same_view<T>(a: Grid<T>, b: Grid<T>)
    requires
        a.wf(),
        b.wf(),
        a.same_shape(&b),
        forall|x: int, y: int| a.in_bounds(x, y) ==> #[trigger] a.at(x, y) == b.at(x, y),
    ensures
        a@ == b@,
{
    assert forall|y: int| 0 <= y < a@.len() implies #[trigger] a@[y] == b@[y] by {
        assert forall|x: int| 0 <= x < a@[y].len() implies a@[y][x] == b@[y][x] by {
            assert(a.in_bounds(x, y));
            assert(a.at(x, y) == b.at(x, y));
        }
        assert(a@[y] =~= b@[y]);
    }
    assert(a@ =~= b@);
}

/// In a uniform pressure field the eight pressure reads around any cell
/// yield the value of the field, at the edge and in the corners too: a
/// read past the edge yields the pressure of the cell that asked.
pub proof fn lemma_uniform_pressure_reads_flat<T>(pressure: Grid<T>, level: T, x: int, y: int)
    requires
        pressure.wf(),
        uniform(pressure, level),
        pressure.in_bounds(x, y),
    ensures
        pressure.clamped_ring(x, y) == flat(level),
{
    assert(pressure.at(x, y) == level);
    assert(pressure.clamped_ring(x, y) =~= flat(level));
}

/// In a flow field that holds `zero` everywhere the eight flow reads around
/// any cell yield `zero`: inside the grid because the cells hold it, past
/// the edge because the edge yields it.
pub proof fn lemma_zero_flow_reads_flat<T>(flow: Grid<T>, zero: T, x: int, y: int)
    requires
        flow.wf(),
        uniform(flow, zero),
    ensures
        flow.absorbed_ring(x, y, zero) == flat(zero),
{
    assert(flow.absorbed_ring(x, y, zero) =~= flat(zero));
}

/// In a uniform flow field the eight flow reads around an interior cell
/// yield the value of the field.
pub proof fn lemma_uniform_flow_reads_flat_inside<T>(flow: Grid<T>, level: T, zero: T, x: int, y: int)
    requires
        flow.wf(),
        uniform(flow, level),
        interior(flow, x, y),
    ensures
        flow.absorbed_ring(x, y, zero) == flat(level),
{
    assert(flow.absorbed_ring(x, y, zero) =~= flat(level));
}

/// The flow pass under a uniform pressure field leaves the flow field as
/// it was, for every flow rule that rests where the pressure around a cell
/// equals the pressure of the cell.
pub proof fn lemma_uniform_pressure_keeps_flow<P, V, K: Fn(P, [P; 8], V) -> V>(
    rule: K,
    pressure: Grid<P>,
    level: P,
    before: Grid<V>,
    after: Grid<V>,
)
    requires
        pressure.wf(),
        before.wf(),
        after.wf(),
        pressure.same_shape(&before),
        uniform(pressure, level),
        flow_rule_rests_on_flat(rule),
        flow_updated(rule, pressure, before, after),
    ensures
        after@ == before@,
{
    assert forall|x: int, y: int| after.in_bounds(x, y) implies #[trigger] after.at(x, y)
        == before.at(x, y) by {
        lemma_uniform_pressure_reads_flat(pressure, level, x, y);
    }
    lemma_same_cells_same_view(after, before);
}

/// The pressure pass under a flow field that holds `zero` everywhere
/// leaves the pressure field as it was, for every pressure rule that rests
/// where the flow around a cell is `zero`.
pub proof fn lemma_zero_flow_keeps_pressure<P, V, K: Fn(P, [V; 8]) -> P>(
    rule: K,
    flow: Grid<V>,
    zero: V,
    before: Grid<P>,
    after: Grid<P>,
)
    requires
        flow.wf(),
        before.wf(),
        after.wf(),
        uniform(flow, zero),
        pressure_rule_rests_on_zero(rule, zero),
        pressure_updated(rule, flow, zero, before, after),
    ensures
        after@ == before@,
{
    assert forall|x: int, y: int| after.in_bounds(x, y) implies #[trigger] after.at(x, y)
        == before.at(x, y) by {
        lemma_zero_flow_reads_flat(flow, zero, x, y);
    }
    lemma_same_cells_same_view(after, before);
}

/// The diffusion pass on a uniform snapshot leaves the value of the
/// snapshot in every interior cell, for every diffusion rule that rests
/// where the flow around a cell equals the flow of the cell. A cell on the
/// edge has neighbours past the edge, which read as `zero`: it keeps the
/// value only if the value is `zero`.
pub proof fn lemma_uniform_flow_diffuses_to_itself<V, K: Fn(V, [V; 8]) -> V>(
    rule: K,
    old_flow: Grid<V>,
    level: V,
    zero: V,
    after: Grid<V>,
    x: int,
    y: int,
)
    requires
        old_flow.wf(),
        after.wf(),
        uniform(old_flow, level),
        heat_rule_rests_on_flat(rule),
        heat_updated(rule, old_flow, zero, after),
        old_flow.in_bounds(x, y),
        interior(old_flow, x, y) || level == zero,
    ensures
        after.at(x, y) == level,
{
    if interior(old_flow, x, y) {
        lemma_uniform_flow_reads_flat_inside(old_flow, level, zero, x, y);
    } else {
        lemma_zero_flow_reads_flat(old_flow, zero, x, y);
    }
    assert(old_flow.at(x, y) == level);
    let _ = after.at(x, y);
}

/// The diffusion pass on a snapshot that holds `zero` everywhere leaves a
/// field equal to the snapshot.
pub proof fn lemma_zero_flow_diffuses_to_itself<V, K: Fn(V, [V; 8]) -> V>(
    rule: K,
    old_flow: Grid<V>,
    zero: V,
    after: Grid<V>,
)
    requires
        old_flow.wf(),
        after.wf(),
        uniform(old_flow, zero),
        heat_rule_rests_on_flat(rule),
        heat_updated(rule, old_flow, zero, after),
    ensures
        after@ == old_flow@,
{
    assert forall|x: int, y: int| after.in_bounds(x, y) implies #[trigger] after.at(x, y)
        == old_flow.at(x, y) by {
        lemma_uniform_flow_diffuses_to_itself(rule, old_flow, zero, zero, after, x, y);
    }
    lemma_same_cells_same_view(after, old_flow);
}

/// With a deterministic flow rule the flow pass has one outcome.
pub proof fn lemma_flow_pass_deterministic<P, V, K: Fn(P, [P; 8], V) -> V>(
    rule: K,
    pressure: Grid<P>,
    before: Grid<V>,
    a: Grid<V>,
    b: Grid<V>,
)
    requires
        before.wf(),
        a.wf(),
        b.wf(),
        flow_rule_deterministic(rule),
        flow_updated(rule, pressure, before, a),
        flow_updated(rule, pressure, before, b),
    ensures
        a@ == b@,
{
    assert forall|x: int, y: int| a.in_bounds(x, y) implies #[trigger] a.at(x, y) == b.at(x, y) by {
        let _ = b.at(x, y);
    }
    lemma_same_cells_same_view(a, b);
}

/// With a deterministic pressure rule the pressure pass has one outcome.
pub proof fn lemma_pressure_pass_deterministic<P, V, K: Fn(P, [V; 8]) -> P>(
    rule: K,
    flow: Grid<V>,
    zero: V,
    before: Grid<P>,
    a: Grid<P>,
    b: Grid<P>,
)
    requires
        before.wf(),
        a.wf(),
        b.wf(),
        pressure_rule_deterministic(rule),
        pressure_updated(rule, flow, zero, before, a),
        pressure_updated(rule, flow, zero, before, b),
    ensures
        a@ == b@,
{
    assert forall|x: int, y: int| a.in_bounds(x, y) implies #[trigger] a.at(x, y) == b.at(x, y) by {
        let _ = b.at(x, y);
    }
    lemma_same_cells_same_view(a, b);
}

/// With a deterministic diffusion rule the diffusion pass has one outcome.
pub proof fn lemma_heat_pass_deterministic<V, K: Fn(V, [V; 8]) -> V>(
    rule: K,
    old_flow: Grid<V>,
    zero: V,
    a: Grid<V>,
    b: Grid<V>,
)
    requires
        old_flow.wf(),
        a.wf(),
        b.wf(),
        heat_rule_deterministic(rule),
        heat_updated(rule, old_flow, zero, a),
        heat_updated(rule, old_flow, zero, b),
    ensures
        a@ == b@,
{
    assert forall|x: int, y: int| a.in_bounds(x, y) implies #[trigger] a.at(x, y) == b.at(x, y) by {
        let _ = b.at(x, y);
    }
    lemma_same_cells_same_view(a, b);
}

/// What the pressure pass may leave behind depends on the rows of the flow
/// field only.
pub proof fn lemma_pressure_pass_reads_view<P, V, K: Fn(P, [V; 8]) -> P>(
    rule: K,
    flow_a: Grid<V>,
    flow_b: Grid<V>,
    zero: V,
    before: Grid<P>,
    after: Grid<P>,
)
    requires
        flow_a@ == flow_b@,
        pressure_updated(rule, flow_a, zero, before, after),
    ensures
        pressure_updated(rule, flow_b, zero, before, after),
{
    assert forall|x: int, y: int| before.in_bounds(x, y) implies crate::kernel::pressure_step(
        rule,
        flow_b,
        zero,
        x,
        y,
        before.at(x, y),
        #[trigger] after.at(x, y),
    ) by {
        assert(flow_a.absorbed_ring(x, y, zero) =~= flow_b.absorbed_ring(x, y, zero));
    }
}

/// A tick is a function of the state it starts from: with deterministic
/// rules, two ticks from one pressure field, one flow field and one
/// snapshot end in the same pressure field and the same flow field.
pub proof fn lemma_tick_deterministic<
    P,
    V,
    FK: Fn(P, [P; 8], V) -> V,
    PK: Fn(P, [V; 8]) -> P,
    HK: Fn(V, [V; 8]) -> V,
>(
    flow_rule: FK,
    pressure_rule: PK,
    heat_rule: HK,
    zero: V,
    pressure0: Grid<P>,
    flow0: Grid<V>,
    flow_prev: Grid<V>,
    pressure_a: Grid<P>,
    flow_a: Grid<V>,
    pressure_b: Grid<P>,
    flow_b: Grid<V>,
)
    requires
        pressure0.wf(),
        flow0.wf(),
        flow_prev.wf(),
        pressure_a.wf(),
        flow_a.wf(),
        pressure_b.wf(),
        flow_b.wf(),
        flow_rule_deterministic(flow_rule),
        pressure_rule_deterministic(pressure_rule),
        heat_rule_deterministic(heat_rule),
        ticked(
            flow_rule,
            pressure_rule,
            heat_rule,
            zero,
            pressure0,
            flow0,
            flow_prev,
            pressure_a,
            flow_a,
        ),
        ticked(
            flow_rule,
            pressure_rule,
            heat_rule,
            zero,
            pressure0,
            flow0,
            flow_prev,
            pressure_b,
            flow_b,
        ),
    ensures
        pressure_a@ == pressure_b@,
        flow_a@ == flow_b@,
{
    lemma_heat_pass_deterministic(heat_rule, flow_prev, zero, flow_a, flow_b);
    let mid_a = choose|mid: Grid<V>|
        {
            &&& mid.wf()
            &&& #[trigger] flow_updated(flow_rule, pressure0, flow0, mid)
            &&& pressure_updated(pressure_rule, mid, zero, pressure0, pressure_a)
        };
    let mid_b = choose|mid: Grid<V>|
        {
            &&& mid.wf()
            &&& #[trigger] flow_updated(flow_rule, pressure0, flow0, mid)
            &&& pressure_updated(pressure_rule, mid, zero, pressure0, pressure_b)
        };
    lemma_flow_pass_deterministic(flow_rule, pressure0, flow0, mid_a, mid_b);
    lemma_pressure_pass_reads_view(pressure_rule, mid_b, mid_a, zero, pressure0, pressure_b);
    lemma_pressure_pass_deterministic(
        pressure_rule,
        mid_a,
        zero,
        pressure0,
        pressure_a,
        pressure_b,
    );
}

} // verus!
