//! The density grid: a square occupancy grid of saturating byte counters,
//! held in an `ndarray::Array2<u8>`.
use ndarray::Array2;
use vstd::prelude::*;

verus! {

/// A square density grid. The counters live in an `ndarray::Array2<u8>`,
/// whose type Verus cannot be told of; what the library knows of it is
/// `grid_cells`.
#[verifier::external_body]
pub struct DensityGrid {
    cells: Array2<u8>,
}

/// The counters of a grid, row by row.
pub uninterp spec fn grid_cells(g: DensityGrid) -> Seq<Seq<u8>>;

/// Relies on `ndarray::ArrayBase::zeros`: a `n` by `n` array whose cells are
/// all zero. It panics only where the number of cells overflows `isize`.
#[verifier::external_body]
fn zeros_square(n: usize) -> (r: DensityGrid)
    requires
        n * n <= isize::MAX,
    ensures
        grid_cells(r) == Seq::new(n as nat, |_i: int| Seq::new(n as nat, |_j: int| 0u8)),
{
    DensityGrid { cells: Array2::zeros((n, n)) }
}

/// Relies on `ndarray::ArrayBase::dim`: the number of rows and the number of
/// columns, which every row has.
#[verifier::external_body]
pub(crate) fn grid_dim(a: &DensityGrid) -> (r: (usize, usize))
    ensures
        r.0 == grid_cells(*a).len(),
        forall|i: int| 0 <= i < r.0 ==> #[trigger] grid_cells(*a)[i].len() == r.1,
{
    a.cells.dim()
}

/// Relies on `Index<[usize; 2]>` of `ndarray::ArrayBase`: the cell at a row
/// and a column inside the array.
#[verifier::external_body]
pub(crate) fn grid_get(a: &DensityGrid, row: usize, col: usize) -> (r: u8)
    requires
        row < grid_cells(*a).len(),
        col < grid_cells(*a)[row as int].len(),
    ensures
        r == grid_cells(*a)[row as int][col as int],
{
    a.cells[[row, col]]
}

/// Relies on `IndexMut<[usize; 2]>` of `ndarray::ArrayBase`: writing one cell
/// inside the array leaves the others as they were.
#[verifier::external_body]
fn grid_set(a: &mut DensityGrid, row: usize, col: usize, v: u8)
    requires
        row < grid_cells(*old(a)).len(),
        col < grid_cells(*old(a))[row as int].len(),
    ensures
        grid_cells(*final(a)) == grid_cells(*old(a)).update(
            row as int,
            grid_cells(*old(a))[row as int].update(col as int, v),
        ),
{
    a.cells[[row, col]] = v;
}

/// How many of `cells` fall on the cell at `row` and `col`; a cell is written
/// `(column, row)`.
pub open spec fn hits(cells: Seq<(i64, i64)>, row: int, col: int) -> nat
    decreases cells.len(),
{
    if cells.len() == 0 {
        0
    } else {
        hits(cells.drop_last(), row, col) + if cells.last().0 == col && cells.last().1 == row {
            1nat
        } else {
            0nat
        }
    }
}

/// A count clamped to what a byte holds.
pub open spec fn saturate(n: nat) -> u8 {
    if n > 255 {
        255u8
    } else {
        n as u8
    }
}

/// The density grid of `cells` at a resolution: `res` rows of `res` columns,
/// each the saturated number of cells that fall on it. Cells outside the grid
/// are not counted.
pub open spec fn density(res: nat, cells: Seq<(i64, i64)>) -> Seq<Seq<u8>> {
    Seq::new(res, |row: int| Seq::new(res, |col: int| saturate(hits(cells, row, col))))
}

/// Bins grid cells, each `(column, row)`, into a `resolution` by `resolution`
/// grid of counters that stop at 255. Cells outside the grid are skipped.
pub fn count(resolution: usize, cells: &Vec<(i64, i64)>) -> (r: DensityGrid)
    requires
        resolution * resolution <= isize::MAX,
    ensures
        grid_cells(r) == density(resolution as nat, cells@),
{
    proof {
        if resolution > 0 {
            assert(resolution <= resolution * resolution) by (nonlinear_arith)
                requires resolution > 0;
        }
    }
    let res = resolution as i64;
    let mut g = zeros_square(resolution);
    assert(grid_cells(g) =~~= density(resolution as nat, cells@.take(0)));
    let mut k: usize = 0;
    while k < cells.len()
        invariant
            k <= cells.len(),
            res == resolution,
            grid_cells(g) == density(resolution as nat, cells@.take(k as int)),
        decreases cells.len() - k,
    {
        let (col, row) = cells[k];
        let ghost before = grid_cells(g);
        if 0 <= row && row < res && 0 <= col && col < res {
            let cur = grid_get(&g, row as usize, col as usize);
            if cur < 255 {
                grid_set(&mut g, row as usize, col as usize, cur + 1);
            }
        }
        proof {
            let next = cells@.take(k + 1);
            assert(next.drop_last() =~= cells@.take(k as int));
            assert(next.last() == (col, row));
            assert forall|i: int, j: int| #[trigger] hits(next, i, j) == hits(
                cells@.take(k as int),
                i,
                j,
            ) + if col == j && row == i {
                1nat
            } else {
                0nat
            } by {}
            assert(grid_cells(g) =~~= density(resolution as nat, next));
        }
        k += 1;
    }
    assert(cells@.take(cells.len() as int) =~= cells@);
    g
}

impl DensityGrid {
    /// The number of rows, which is also the number of columns of a grid
    /// that `count` made.
    pub fn rows(&self) -> (r: usize)
        ensures
            r == grid_cells(*self).len(),
    {
        grid_dim(self).0
    }

    /// The counter at a row and a column.
    pub fn get(&self, row: usize, col: usize) -> (r: u8)
        requires
            row < grid_cells(*self).len(),
            col < grid_cells(*self)[row as int].len(),
        ensures
            r == grid_cells(*self)[row as int][col as int],
    {
        grid_get(self, row, col)
    }
}

/// With no bodies, the grid is `res` by `res` and every counter is zero.
pub proof fn lemma_empty_grid_is_zero(res: nat)
    ensures
        density(res, Seq::empty()).len() == res,
        forall|i: int| 0 <= i < res ==> (#[trigger] density(res, Seq::empty())[i]).len() == res,
        forall|i: int, j: int|
            0 <= i < res && 0 <= j < res ==> #[trigger] density(res, Seq::empty())[i][j] == 0,
{
}

/// A single body whose cell lies inside the grid raises exactly that counter
/// to one and leaves every other at zero.
pub proof fn lemma_single_body_one_cell(res: nat, cell: (i64, i64))
    requires
        0 <= cell.0 < res,
        0 <= cell.1 < res,
    ensures
        density(res, seq![cell])[cell.1 as int][cell.0 as int] == 1,
        forall|i: int, j: int|
            0 <= i < res && 0 <= j < res && (i != cell.1 || j != cell.0)
                ==> #[trigger] density(res, seq![cell])[i][j] == 0,
{
    let one = seq![cell];
    assert(one.drop_last() =~= Seq::<(i64, i64)>::empty());
    assert forall|i: int, j: int| #[trigger] hits(one, i, j) == if cell.0 == j && cell.1 == i {
        1nat
    } else {
        0nat
    } by {
        assert(hits(one.drop_last(), i, j) == 0);
        assert(one.last() == cell);
    }
}

} // verus!
