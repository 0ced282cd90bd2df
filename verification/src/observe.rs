//! What a simulation hands out after a tick: a fold over the cells of a
//! field, in row-major order, and an image of the pressure and the flow,
//! cell by cell. What is accumulated and how a cell is painted is the
//! caller's.

use vstd::prelude::*;
use vstd::arithmetic::div_mod::lemma_fundamental_div_mod_converse;
use crate::grid::{lemma_cell_index_bounds, Grid};

verus! {

/// `total` is a value that folding `step` over `items`, first item first
/// and starting from `start`, may end in.
pub open spec fn folded<A, T, F: Fn(A, T) -> A>(step: F, items: Seq<T>, start: A, total: A) -> bool
    decreases items.len(),
{
    if items.len() == 0 {
        total == start
    } else {
        exists|before: A|
            {
                &&& folded(step, items.drop_last(), start, before)
                &&& #[trigger] step.ensures((before, items.last()), total)
            }
    }
}

/// A fold that may end in `before` goes on by one item to any value that
/// `step` may return for `before` and the item.
pub proof fn lemma_fold_one_more<A, T, F: Fn(A, T) -> A>(
    step: F,
    items: Seq<T>,
    item: T,
    start: A,
    before: A,
    total: A,
)
    requires
        folded(step, items, start, before),
        step.ensures((before, item), total),
    ensures
        folded(step, items.push(item), start, total),
{
    let longer = items.push(item);
    assert(longer.drop_last() =~= items);
    assert(step.ensures((before, longer.last()), total));
}

/// A fold over no items ends where it started; a fold over some items is a
/// fold over all but the last, followed by one step on the last.
pub proof fn lemma_fold_last_step<A, T, F: Fn(A, T) -> A>(
    step: F,
    items: Seq<T>,
    start: A,
    total: A,
)
    requires
        folded(step, items, start, total),
    ensures
        items.len() == 0 ==> total == start,
        items.len() > 0 ==> exists|before: A|
            {
                &&& folded(step, items.drop_last(), start, before)
                &&& #[trigger] step.ensures((before, items.last()), total)
            },
{
}

/// With a step that returns one value for one input, a fold has one
/// outcome.
pub proof fn lemma_fold_deterministic<A, T, F: Fn(A, T) -> A>(
    step: F,
    items: Seq<T>,
    start: A,
    a: A,
    b: A,
)
    requires
        forall|acc: A, item: T, x: A, y: A|
            #![trigger step.ensures((acc, item), x), step.ensures((acc, item), y)]
            step.ensures((acc, item), x) && step.ensures((acc, item), y) ==> x == y,
        folded(step, items, start, a),
        folded(step, items, start, b),
    ensures
        a == b,
    decreases items.len(),
{
    if items.len() > 0 {
        let before_a = choose|before: A|
            {
                &&& folded(step, items.drop_last(), start, before)
                &&& #[trigger] step.ensures((before, items.last()), a)
            };
        let before_b = choose|before: A|
            {
                &&& folded(step, items.drop_last(), start, before)
                &&& #[trigger] step.ensures((before, items.last()), b)
            };
        lemma_fold_deterministic(step, items.drop_last(), start, before_a, before_b);
    }
}

/// The place of cell `(x, y)` in the row-major order of a grid `w` wide
/// leads back to `x` and `y`.
proof fn lemma_row_major_place(w: int, x: int, y: int)
    requires
        0 <= x < w,
        0 <= y,
    ensures
        (y * w + x) % w == x,
        (y * w + x) / w == y,
{
    lemma_fundamental_div_mod_converse(y * w + x, w, y, x);
}

/// The cells before `(0, y + 1)` are the cells before `(w, y)`.
proof fn lemma_row_major_wrap(w: int, y: int)
    by (nonlinear_arith)
    ensures
        (y + 1) * w == y * w + w,
        y * w == w * y,
{
}

impl<T> Grid<T> {
    /// The cells of the grid in row-major order: the top row from left to
    /// right, then the next row, down to the bottom row.
    pub open spec fn row_major(&self) -> Seq<T> {
        Seq::new(
            (self.cols() * self.rows()) as nat,
            |i: int| self.at(i % (self.cols() as int), i / (self.cols() as int)),
        )
    }

    /// Folds `step` over the cells of the grid in row-major order,
    /// starting from `start`.
    pub fn fold<A, F: Fn(A, T) -> A>(&self, start: A, step: &F) -> (total: A) where T: Copy
        requires
            self.wf(),
            forall|acc: A, item: T| step.requires((acc, item)),
        ensures
            folded(*step, self.row_major(), start, total),
    {
        let width: usize = self.width();
        let height: usize = self.height();
        let ghost cells = self.row_major();
        let mut total = start;
        let mut y: usize = 0;
        proof {
            assert(cells.take(0) =~= Seq::<T>::empty());
        }
        while y < height
            invariant
                self.wf(),
                width == self.cols(),
                height == self.rows(),
                cells == self.row_major(),
                cells.len() == width * height,
                y <= height,
                forall|acc: A, item: T| step.requires((acc, item)),
                0 <= y * width <= cells.len(),
                folded(*step, cells.take(y * width), start, total),
            decreases height - y,
        {
            let mut x: usize = 0;
            while x < width
                invariant
                    self.wf(),
                    width == self.cols(),
                    height == self.rows(),
                    cells == self.row_major(),
                    cells.len() == width * height,
                    y < height,
                    x <= width,
                    forall|acc: A, item: T| step.requires((acc, item)),
                    0 <= y * width + x <= cells.len(),
                    folded(*step, cells.take(y * width + x), start, total),
                decreases width - x,
            {
                let item = *self.get(x, y);
                let ghost place = y * width + x;
                let ghost before = total;
                total = step(total, item);
                proof {
                    lemma_cell_index_bounds(width as int, height as int, x as int, y as int);
                    lemma_row_major_place(width as int, x as int, y as int);
                    assert(cells[place] == item);
                    assert(cells.take(place + 1) =~= cells.take(place).push(item));
                    lemma_fold_one_more(*step, cells.take(place), item, start, before, total);
                }
                x += 1;
            }
            proof {
                lemma_row_major_wrap(width as int, y as int);
            }
            y += 1;
        }
        proof {
            lemma_row_major_wrap(width as int, height as int);
            assert(cells.take(cells.len() as int) =~= cells);
        }
        total
    }
}

/// Paints an image of the two fields: pixel `(x, y)` is what `shade`
/// returns for the pressure and the flow of cell `(x, y)`. The image is a
/// list of rows, top row first.
pub fn pixels<P: Copy, V: Copy, C, S: Fn(P, V) -> C>(
    pressure: &Grid<P>,
    flow: &Grid<V>,
    shade: &S,
) -> (image: Vec<Vec<C>>)
    requires
        pressure.wf(),
        flow.wf(),
        pressure.same_shape(flow),
        forall|x: int, y: int|
            pressure.in_bounds(x, y) ==> shade.requires((#[trigger] pressure.at(x, y), flow.at(x, y))),
    ensures
        image@.len() == pressure.rows(),
        forall|y: int| 0 <= y < image@.len() ==> (#[trigger] image@[y])@.len() == pressure.cols(),
        forall|x: int, y: int|
            pressure.in_bounds(x, y) ==> shade.ensures(
                (pressure.at(x, y), flow.at(x, y)),
                #[trigger] image@[y]@[x],
            ),
{
    let width: usize = pressure.width();
    let height: usize = pressure.height();
    let mut image: Vec<Vec<C>> = Vec::new();
    let mut y: usize = 0;
    while y < height
        invariant
            pressure.wf(),
            flow.wf(),
            pressure.same_shape(flow),
            width == pressure.cols(),
            height == pressure.rows(),
            y <= height,
            image@.len() == y,
            forall|x: int, y: int|
                pressure.in_bounds(x, y) ==> shade.requires(
                    (#[trigger] pressure.at(x, y), flow.at(x, y)),
                ),
            forall|yy: int| 0 <= yy < y ==> (#[trigger] image@[yy])@.len() == width,
            forall|xx: int, yy: int|
                0 <= xx < width && 0 <= yy < y ==> shade.ensures(
                    (pressure.at(xx, yy), flow.at(xx, yy)),
                    #[trigger] image@[yy]@[xx],
                ),
        decreases height - y,
    {
        let mut row: Vec<C> = Vec::new();
        let mut x: usize = 0;
        while x < width
            invariant
                pressure.wf(),
                flow.wf(),
                pressure.same_shape(flow),
                width == pressure.cols(),
                height == pressure.rows(),
                y < height,
                x <= width,
                row@.len() == x,
                forall|x: int, y: int|
                    pressure.in_bounds(x, y) ==> shade.requires(
                        (#[trigger] pressure.at(x, y), flow.at(x, y)),
                    ),
                forall|xx: int|
                    0 <= xx < x ==> shade.ensures(
                        (pressure.at(xx, y as int), flow.at(xx, y as int)),
                        #[trigger] row@[xx],
                    ),
            decreases width - x,
        {
            let p = *pressure.get(x, y);
            let v = *flow.get(x, y);
            row.push(shade(p, v));
            x += 1;
        }
        image.push(row);
        y += 1;
    }
    image
}

} // verus!
