//! A rectangular grid of cells, stored row by row in one buffer.

use vstd::prelude::*;

verus! {

/// Why a grid could not be built, or why grids could not be used together.
#[derive(Clone, Copy, Debug, PartialEq, Eq, Structural)]
pub enum GridError {
    /// The width or the height is zero.
    EmptyDimension,
    /// The number of cells does not fit in `usize`.
    TooLarge,
    /// Two grids that must have one shape have different shapes.
    ShapeMismatch,
}

/// A grid of fixed width and height. Cell `(x, y)` is column `x` of row `y`.
#[derive(Clone, Debug, PartialEq)]
pub struct Grid<T> {
    width: usize,
    height: usize,
    cells: Vec<T>,
}

/// Every row of `rows` has the length of the first, and there is at least
/// one row and one column.
pub open spec fn rectangular<T>(rows: Seq<Seq<T>>) -> bool {
    &&& rows.len() > 0
    &&& rows[0].len() > 0
    &&& forall|y: int| 0 <= y < rows.len() ==> (#[trigger] rows[y]).len() == rows[0].len()
}

/// The place of cell `(x, y)` in a row-major buffer of rows `w` wide.
pub open spec fn cell_index(w: int, x: int, y: int) -> int {
    y * w + x
}

/// A cell of a `w` by `h` grid has its place inside the buffer.
pub proof fn lemma_cell_index_bounds(w: int, h: int, x: int, y: int)
    by (nonlinear_arith)
    requires
        0 <= x < w,
        0 <= y < h,
    ensures
        0 <= cell_index(w, x, y) < w * h,
{
}

/// Two different cells have different places in the buffer.
proof fn lemma_cell_index_injective(w: int, x1: int, y1: int, x2: int, y2: int)
    by (nonlinear_arith)
    requires
        0 <= x1 < w,
        0 <= x2 < w,
        0 <= y1,
        0 <= y2,
        cell_index(w, x1, y1) == cell_index(w, x2, y2),
    ensures
        x1 == x2,
        y1 == y2,
{
}

/// The place after the last cell of a row is the first place of the next
/// row, and the place after the last row is the size of the buffer.
proof fn lemma_cell_index_next_row(w: int, y: int)
    by (nonlinear_arith)
    ensures
        cell_index(w, w, y) == cell_index(w, 0, y + 1),
        cell_index(w, 0, y) == w * y,
{
}

impl<T> View for Grid<T> {
    type V = Seq<Seq<T>>;

    /// The rows of the grid, top row first, each from left to right.
    closed spec fn view(&self) -> Seq<Seq<T>> {
        Seq::new(
            self.height as nat,
            |y: int| Seq::new(self.width as nat, |x: int| self.cells@[cell_index(self.width as int, x, y)]),
        )
    }
}

impl<T> Grid<T> {
    /// The buffer holds exactly one value for each cell.
    pub closed spec fn buffer_ok(&self) -> bool {
        &&& self.width > 0
        &&& self.height > 0
        &&& self.cells.len() == self.width * self.height
    }

    /// The grid is well formed: its buffer matches its shape, and its view
    /// is a non-empty rectangle.
    pub open spec fn wf(&self) -> bool {
        &&& self.buffer_ok()
        &&& rectangular(self@)
    }

    /// Number of columns.
    pub open spec fn cols(&self) -> nat {
        self@[0].len()
    }

    /// Number of rows.
    pub open spec fn rows(&self) -> nat {
        self@.len()
    }

    /// Whether `(x, y)` names a cell of the grid.
    pub open spec fn in_bounds(&self, x: int, y: int) -> bool {
        0 <= x < self.cols() && 0 <= y < self.rows()
    }

    /// The value of cell `(x, y)`.
    pub open spec fn at(&self, x: int, y: int) -> T {
        self@[y][x]
    }

    /// Whether the two grids have the same number of columns and of rows.
    pub open spec fn same_shape<U>(&self, other: &Grid<U>) -> bool {
        self.cols() == other.cols() && self.rows() == other.rows()
    }

    proof fn lemma_shape(&self)
        requires
            self.buffer_ok(),
        ensures
            rectangular(self@),
            self.cols() == self.width,
            self.rows() == self.height,
            forall|x: int, y: int|
                0 <= x < self.width && 0 <= y < self.height ==> 0 <= #[trigger] cell_index(
                    self.width as int,
                    x,
                    y,
                ) < self.cells@.len(),
            forall|x: int, y: int|
                0 <= x < self.width && 0 <= y < self.height ==> #[trigger] self.at(x, y)
                    == self.cells@[cell_index(self.width as int, x, y)],
    {
        assert forall|x: int, y: int| 0 <= x < self.width && 0 <= y < self.height implies 0
            <= #[trigger] cell_index(self.width as int, x, y) < self.cells@.len() by {
            lemma_cell_index_bounds(self.width as int, self.height as int, x, y);
        }
    }

    /// Builds a grid of `width` by `height` cells that all hold `fill`.
    pub fn new(width: usize, height: usize, fill: T) -> (made: Result<Grid<T>, GridError>)
        where T: Copy
        ensures
            match made {
                Ok(grid) => {
                    &&& grid.wf()
                    &&& grid.cols() == width
                    &&& grid.rows() == height
                    &&& width * height <= usize::MAX
                    &&& forall|x: int, y: int| grid.in_bounds(x, y) ==> #[trigger] grid.at(x, y) == fill
                },
                Err(GridError::EmptyDimension) => width == 0 || height == 0,
                Err(GridError::TooLarge) => width > 0 && height > 0 && width * height > usize::MAX,
                Err(GridError::ShapeMismatch) => false,
            },
    {
        if width == 0 || height == 0 {
            return Err(GridError::EmptyDimension);
        }
        let count: usize = match width.checked_mul(height) {
            Some(count) => count,
            None => {
                return Err(GridError::TooLarge);
            },
        };
        let mut cells: Vec<T> = Vec::new();
        while cells.len() < count
            invariant
                cells@.len() <= count,
                forall|i: int| 0 <= i < cells@.len() ==> cells@[i] == fill,
            decreases count - cells@.len(),
        {
            cells.push(fill);
        }
        let grid = Grid { width, height, cells };
        proof {
            grid.lemma_shape();
        }
        Ok(grid)
    }

    /// Builds a grid of `width` by `height` cells in which cell `(x, y)`
    /// holds what `cell` returns for `(x, y)`. The cells are computed row by
    /// row from the top, each row from left to right.
    pub fn from_fn<F: Fn(usize, usize) -> T>(width: usize, height: usize, cell: &F) -> (made: Result<
        Grid<T>,
        GridError,
    >)
        requires
            forall|x: usize, y: usize| x < width && y < height ==> cell.requires((x, y)),
        ensures
            match made {
                Ok(grid) => {
                    &&& grid.wf()
                    &&& grid.cols() == width
                    &&& grid.rows() == height
                    &&& width * height <= usize::MAX
                    &&& forall|x: usize, y: usize|
                        x < width && y < height ==> cell.ensures(
                            (x, y),
                            #[trigger] grid.at(x as int, y as int),
                        )
                },
                Err(GridError::EmptyDimension) => width == 0 || height == 0,
                Err(GridError::TooLarge) => width > 0 && height > 0 && width * height > usize::MAX,
                Err(GridError::ShapeMismatch) => false,
            },
    {
        if width == 0 || height == 0 {
            return Err(GridError::EmptyDimension);
        }
        let count: usize = match width.checked_mul(height) {
            Some(count) => count,
            None => {
                return Err(GridError::TooLarge);
            },
        };
        let mut cells: Vec<T> = Vec::new();
        let mut y: usize = 0;
        while y < height
            invariant
                width > 0,
                count == width * height,
                y <= height,
                cells@.len() == cell_index(width as int, 0, y as int),
                forall|x: usize, y: usize| x < width && y < height ==> cell.requires((x, y)),
                forall|xx: usize, yy: usize|
                    xx < width && yy < y ==> {
                        let place = #[trigger] cell_index(width as int, xx as int, yy as int);
                        0 <= place < cells@.len() && cell.ensures((xx, yy), cells@[place])
                    },
            decreases height - y,
        {
            let mut x: usize = 0;
            while x < width
                invariant
                    width > 0,
                    count == width * height,
                    y < height,
                    x <= width,
                    cells@.len() == cell_index(width as int, x as int, y as int),
                    forall|x: usize, y: usize| x < width && y < height ==> cell.requires((x, y)),
                    forall|xx: usize, yy: usize|
                        xx < width && (yy < y || (yy == y && xx < x)) ==> {
                            let place = #[trigger] cell_index(width as int, xx as int, yy as int);
                            0 <= place < cells@.len() && cell.ensures((xx, yy), cells@[place])
                        },
                decreases width - x,
            {
                let value = cell(x, y);
                cells.push(value);
                x += 1;
            }
            proof {
                lemma_cell_index_next_row(width as int, y as int);
            }
            y += 1;
        }
        let grid = Grid { width, height, cells };
        proof {
            lemma_cell_index_next_row(width as int, height as int);
            grid.lemma_shape();
            assert forall|x: usize, y: usize| x < width && y < height implies cell.ensures(
                (x, y),
                #[trigger] grid.at(x as int, y as int),
            ) by {
                assert(cell.ensures((x, y), grid.cells@[cell_index(width as int, x as int, y as int)]));
            }
        }
        Ok(grid)
    }

    /// Number of columns.
    pub fn width(&self) -> (w: usize)
        requires
            self.wf(),
        ensures
            w == self.cols(),
            w > 0,
    {
        proof {
            self.lemma_shape();
        }
        self.width
    }

    /// Number of rows.
    pub fn height(&self) -> (h: usize)
        requires
            self.wf(),
        ensures
            h == self.rows(),
            h > 0,
    {
        proof {
            self.lemma_shape();
        }
        self.height
    }

    /// The value of cell `(x, y)`.
    pub fn get(&self, x: usize, y: usize) -> (value: &T)
        requires
            self.wf(),
            self.in_bounds(x as int, y as int),
        ensures
            *value == self.at(x as int, y as int),
    {
        proof {
            self.lemma_shape();
            lemma_cell_index_bounds(self.width as int, self.height as int, x as int, y as int);
        }
        &self.cells[y * self.width + x]
    }

    /// Writes `value` into cell `(x, y)`; every other cell keeps its value.
    pub fn set(&mut self, x: usize, y: usize, value: T)
        requires
            old(self).wf(),
            old(self).in_bounds(x as int, y as int),
        ensures
            final(self).wf(),
            final(self)@ == old(self)@.update(y as int, old(self)@[y as int].update(x as int, value)),
            final(self).same_shape(old(self)),
            forall|xx: int, yy: int|
                old(self).in_bounds(xx, yy) ==> #[trigger] final(self).at(xx, yy) == if xx == x && yy
                    == y {
                    value
                } else {
                    old(self).at(xx, yy)
                },
    {
        proof {
            self.lemma_shape();
            lemma_cell_index_bounds(self.width as int, self.height as int, x as int, y as int);
        }
        let ghost before = *self;
        let i: usize = y * self.width + x;
        self.cells.set(i, value);
        proof {
            self.lemma_shape();
            let after = *self;
            let want = before@.update(y as int, before@[y as int].update(x as int, value));
            assert forall|xx: int, yy: int|
                0 <= yy < after@.len() && 0 <= xx < after@[yy].len() implies after@[yy][xx]
                == want[yy][xx] by {
                lemma_cell_index_bounds(self.width as int, self.height as int, xx, yy);
                if (xx != x || yy != y) && cell_index(self.width as int, xx, yy) == i {
                    lemma_cell_index_injective(self.width as int, xx, yy, x as int, y as int);
                }
            }
            assert(after@ =~~= want);
        }
    }
}

} // verus!
