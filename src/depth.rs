//! The per-cell depth grid of the rasterizer, kept in an `ndarray` array.
use vstd::prelude::*;

verus! {

/// A depth grid: one entry per cell, `None` standing for "nothing drawn yet"
/// (infinitely far away). The entries live in an `ndarray` array of shape
/// `(columns, rows)`, indexed by `(x, y)`.
#[verifier::external_body]
pub struct DepthGrid {
    cells: ndarray::Array2<Option<i64>>,
}

/// What a depth grid holds, as columns indexed by `x`, each indexed by `y`.
pub uninterp spec fn grid_cells(g: DepthGrid) -> Seq<Seq<Option<i64>>>;

/// A grid of `w` columns of `h` entries each, all `None`.
pub open spec fn cleared_cells(w: nat, h: nat) -> Seq<Seq<Option<i64>>> {
    Seq::new(w, |x: int| Seq::new(h, |y: int| None::<i64>))
}

/// Every column of `cells` holds `h` entries.
pub open spec fn columns_of_len(cells: Seq<Seq<Option<i64>>>, h: nat) -> bool {
    forall|x: int| 0 <= x < cells.len() ==> #[trigger] cells[x].len() == h
}

/// A `w` by `h` grid can be allocated: each axis, and the number of
/// entries, is at most `isize::MAX / 32`, so that the entries (an
/// `Option<i64>` takes well under 32 bytes) fit in `isize::MAX` bytes.
pub open spec fn grid_allocatable(w: int, h: int) -> bool {
    &&& w <= isize::MAX / 32
    &&& h <= isize::MAX / 32
    &&& w * h <= isize::MAX / 32
}

/// Relies on `ndarray::Array2::from_elem`: an array of shape `(w, h)` whose
/// entries are all the given element. It panics when the product of the
/// non-zero axis lengths passes `isize::MAX`, and its buffer of `w * h`
/// entries panics when it would pass `isize::MAX` bytes; `requires` rules
/// out both, for either axis zero or not.
#[verifier::external_body]
pub(crate) fn grid_new(w: usize, h: usize) -> (g: DepthGrid)
    requires
        grid_allocatable(w as int, h as int),
    ensures
        grid_cells(g) == cleared_cells(w as nat, h as nat),
{
    DepthGrid { cells: ndarray::Array2::from_elem((w, h), None) }
}

/// Relies on `ndarray::ArrayBase::dim`: the pattern `(columns, rows)` of a
/// two-dimensional array.
#[verifier::external_body]
pub(crate) fn grid_dim(g: &DepthGrid) -> (r: (usize, usize))
    ensures
        r.0 == grid_cells(*g).len(),
        columns_of_len(grid_cells(*g), r.1 as nat),
{
    g.cells.dim()
}

/// Relies on `ndarray::ArrayBase::fill`: every entry becomes the given value,
/// the shape is kept.
#[verifier::external_body]
pub(crate) fn grid_fill(g: &mut DepthGrid, v: Option<i64>)
    ensures
        grid_cells(*final(g)).len() == grid_cells(*old(g)).len(),
        forall|x: int|
            0 <= x < grid_cells(*old(g)).len() ==> #[trigger] grid_cells(*final(g))[x]
                == Seq::new(grid_cells(*old(g))[x].len(), |y: int| v),
{
    g.cells.fill(v)
}

/// Relies on ndarray's `Index<(usize, usize)>` for a two-dimensional array,
/// which panics out of bounds (ruled out by `requires`).
#[verifier::external_body]
pub(crate) fn grid_get(g: &DepthGrid, x: usize, y: usize) -> (r: Option<i64>)
    requires
        x < grid_cells(*g).len(),
        y < grid_cells(*g)[x as int].len(),
    ensures
        r == grid_cells(*g)[x as int][y as int],
{
    g.cells[(x, y)]
}

/// Relies on ndarray's `IndexMut<(usize, usize)>` for a two-dimensional array,
/// which panics out of bounds (ruled out by `requires`).
#[verifier::external_body]
pub(crate) fn grid_set(g: &mut DepthGrid, x: usize, y: usize, v: Option<i64>)
    requires
        x < grid_cells(*old(g)).len(),
        y < grid_cells(*old(g))[x as int].len(),
    ensures
        grid_cells(*final(g)) == grid_cells(*old(g)).update(
            x as int,
            grid_cells(*old(g))[x as int].update(y as int, v),
        ),
{
    g.cells[(x, y)] = v;
}

} // verus!
