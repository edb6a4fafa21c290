//! One frame of rasterization, as a specification: a depth test per cell,
//! folded over the cells of each triangle's box and over the triangles in
//! mesh order. The executable fill that meets it.
use vstd::prelude::*;
use crate::depth::{DepthGrid, cleared_cells, columns_of_len, grid_cells, grid_get, grid_set};
use crate::geometry::{
    CELL, ClipVertex, NDC_ONE, Rgb, ScreenPoint, ScreenVertex, box_x_end, box_x_start, box_y_end,
    box_y_start, cell_center, cell_of, in_triangle, is_point_in_triangle, screen_x, screen_y,
    vertex_in_range,
};
use crate::mesh::Mesh;
use crate::panel::PanelDims;

verus! {

/// "Set cell `(x, y)` to `color` and write a blank glyph there."
#[derive(Clone, Copy, Debug, PartialEq, Eq, Structural)]
pub struct PaintCommand {
    pub x: u16,
    pub y: u16,
    pub color: Rgb,
}

/// A triangle in screen space with the colour it paints.
#[derive(Clone, Copy, Debug, PartialEq, Eq, Structural)]
pub struct ScreenTriangle {
    pub a: ScreenVertex,
    pub b: ScreenVertex,
    pub c: ScreenVertex,
    pub color: Rgb,
}

/// The state of a frame being drawn: the depth grid, indexed relative to
/// the panel origin, and the paint commands issued so far.
pub struct FrameState {
    pub cells: Seq<Seq<Option<i64>>>,
    pub paints: Seq<PaintCommand>,
}

/// Depth of a triangle, compared across triangles: the sum of its vertex
/// depths, which orders triangles as their mean depth does.
pub open spec fn triangle_depth(t: ScreenTriangle) -> int {
    t.a.z + t.b.z + t.c.z
}

/// The depth test: strictly nearer than what the cell holds; an empty cell
/// is infinitely far.
pub open spec fn nearer(d: int, cell: Option<i64>) -> bool {
    match cell {
        None => true,
        Some(b) => d < b,
    }
}

/// Cell `(x, y)` against triangle `t`: where its centre is inside and the
/// triangle is nearer, the depth is stored and the cell painted.
pub open spec fn paint_pixel(st: FrameState, dims: PanelDims, t: ScreenTriangle, x: int, y: int) -> FrameState {
    let column = st.cells[x - dims.x];
    let d = triangle_depth(t);
    if in_triangle(cell_center(x, y), t.a, t.b, t.c) && nearer(d, column[y - dims.y]) {
        FrameState {
            cells: st.cells.update(x - dims.x, column.update(y - dims.y, Some(d as i64))),
            paints: st.paints.push(PaintCommand { x: x as u16, y: y as u16, color: t.color }),
        }
    } else {
        st
    }
}

/// Cells `x0 .. x` of row `y`, left to right.
pub open spec fn paint_span(st: FrameState, dims: PanelDims, t: ScreenTriangle, y: int, x0: int, x: int) -> FrameState
    decreases x - x0,
{
    if x <= x0 {
        st
    } else {
        paint_pixel(paint_span(st, dims, t, y, x0, x - 1), dims, t, x - 1, y)
    }
}

/// Rows `y0 .. y` of the triangle's box, top to bottom.
pub open spec fn paint_rows(st: FrameState, dims: PanelDims, t: ScreenTriangle, y0: int, y: int) -> FrameState
    decreases y - y0,
{
    if y <= y0 {
        st
    } else {
        paint_span(
            paint_rows(st, dims, t, y0, y - 1),
            dims,
            t,
            y - 1,
            box_x_start(t.a, t.b, t.c, dims),
            box_x_end(t.a, t.b, t.c, dims),
        )
    }
}

/// Every cell of the triangle's box, clamped to the panel.
pub open spec fn paint_triangle(st: FrameState, dims: PanelDims, t: ScreenTriangle) -> FrameState {
    paint_rows(st, dims, t, box_y_start(t.a, t.b, t.c, dims), box_y_end(t.a, t.b, t.c, dims))
}

/// A projected vertex mapped onto the panel.
pub open spec fn screen_vertex(v: ClipVertex, dims: PanelDims) -> ScreenVertex {
    ScreenVertex { x: screen_x(v, dims) as i64, y: screen_y(v, dims) as i64, z: v.z as i64 }
}

/// Triangle `k` of the mesh on screen; it paints the colour of its first vertex.
pub open spec fn mesh_triangle(mesh: Mesh, vertices: Seq<ClipVertex>, dims: PanelDims, k: int) -> ScreenTriangle {
    let i0 = mesh.indices@[3 * k] as int;
    let i1 = mesh.indices@[3 * k + 1] as int;
    let i2 = mesh.indices@[3 * k + 2] as int;
    ScreenTriangle {
        a: screen_vertex(vertices[i0], dims),
        b: screen_vertex(vertices[i1], dims),
        c: screen_vertex(vertices[i2], dims),
        color: mesh.colors@[i0],
    }
}

/// The first `k` triangles of the mesh, in mesh order.
pub open spec fn paint_mesh(st: FrameState, dims: PanelDims, mesh: Mesh, vertices: Seq<ClipVertex>, k: int) -> FrameState
    decreases k,
{
    if k <= 0 {
        st
    } else {
        paint_triangle(paint_mesh(st, dims, mesh, vertices, k - 1), dims, mesh_triangle(mesh, vertices, dims, k - 1))
    }
}

/// A whole frame, from the grid left by the previous one: nothing on a
/// degenerate panel; otherwise the grid is cleared to the panel's extent and
/// every triangle drawn.
pub open spec fn frame(previous: Seq<Seq<Option<i64>>>, dims: PanelDims, mesh: Mesh, vertices: Seq<ClipVertex>) -> FrameState {
    if dims.is_degenerate() {
        FrameState { cells: previous, paints: Seq::empty() }
    } else {
        paint_mesh(
            FrameState { cells: cleared_cells(dims.w as nat, dims.h as nat), paints: Seq::empty() },
            dims,
            mesh,
            vertices,
            mesh.triangle_count() as int,
        )
    }
}

/// The colour of the last paint command issued for cell `(x, y)`, if any.
pub open spec fn last_paint_at(paints: Seq<PaintCommand>, x: int, y: int) -> Option<Rgb>
    decreases paints.len(),
{
    if paints.len() == 0 {
        None
    } else if paints.last().x == x && paints.last().y == y {
        Some(paints.last().color)
    } else {
        last_paint_at(paints.drop_last(), x, y)
    }
}

/// Cell `(x, y)` lies in the panel.
pub open spec fn in_panel(dims: PanelDims, x: int, y: int) -> bool {
    dims.x <= x < dims.x + dims.w && dims.y <= y < dims.y + dims.h
}

/// What a frame state says of cell `(x, y)`: its depth and its last paint.
pub open spec fn cell_state(st: FrameState, dims: PanelDims, x: int, y: int) -> (Option<i64>, Option<Rgb>) {
    (st.cells[x - dims.x][y - dims.y], last_paint_at(st.paints, x, y))
}

/// The depth test of triangle `t` on a cell whose depth and last paint are `cur`.
pub open spec fn cell_effect(cur: (Option<i64>, Option<Rgb>), t: ScreenTriangle, x: int, y: int) -> (Option<i64>, Option<Rgb>) {
    if in_triangle(cell_center(x, y), t.a, t.b, t.c) && nearer(triangle_depth(t), cur.0) {
        (Some(triangle_depth(t) as i64), Some(t.color))
    } else {
        cur
    }
}

/// Triangle `t` covers cell `(x, y)`: the cell is in its scanned box and its
/// centre is classified inside.
pub open spec fn covers(t: ScreenTriangle, dims: PanelDims, x: int, y: int) -> bool {
    &&& box_x_start(t.a, t.b, t.c, dims) <= x < box_x_end(t.a, t.b, t.c, dims)
    &&& box_y_start(t.a, t.b, t.c, dims) <= y < box_y_end(t.a, t.b, t.c, dims)
    &&& in_triangle(cell_center(x, y), t.a, t.b, t.c)
}

proof fn lemma_pixel_cell(st: FrameState, dims: PanelDims, t: ScreenTriangle, px: int, py: int, x: int, y: int)
    requires
        dims.fits(),
        grid_fits(st.cells, dims),
        in_panel(dims, px, py),
        in_panel(dims, x, y),
    ensures
        grid_fits(paint_pixel(st, dims, t, px, py).cells, dims),
        cell_state(paint_pixel(st, dims, t, px, py), dims, x, y) == if px == x && py == y {
            cell_effect(cell_state(st, dims, x, y), t, x, y)
        } else {
            cell_state(st, dims, x, y)
        },
{
    let s = paint_pixel(st, dims, t, px, py);
    if s != st {
        assert(s.paints.drop_last() == st.paints);
        assert forall|i: int| 0 <= i < s.cells.len() implies #[trigger] s.cells[i].len() == dims.h by {
            if i != px - dims.x {
            }
        }
    }
}

proof fn lemma_span_cell(st: FrameState, dims: PanelDims, t: ScreenTriangle, py: int, x0: int, x1: int, x: int, y: int)
    requires
        dims.fits(),
        grid_fits(st.cells, dims),
        dims.x <= x0,
        x1 <= dims.x + dims.w,
        dims.y <= py < dims.y + dims.h,
        in_panel(dims, x, y),
    ensures
        grid_fits(paint_span(st, dims, t, py, x0, x1).cells, dims),
        cell_state(paint_span(st, dims, t, py, x0, x1), dims, x, y) == if py == y && x0 <= x < x1 {
            cell_effect(cell_state(st, dims, x, y), t, x, y)
        } else {
            cell_state(st, dims, x, y)
        },
    decreases x1 - x0,
{
    if x1 > x0 {
        lemma_span_cell(st, dims, t, py, x0, x1 - 1, x, y);
        lemma_pixel_cell(paint_span(st, dims, t, py, x0, x1 - 1), dims, t, x1 - 1, py, x, y);
    }
}

proof fn lemma_rows_cell(st: FrameState, dims: PanelDims, t: ScreenTriangle, y0: int, y1: int, x: int, y: int)
    requires
        dims.fits(),
        grid_fits(st.cells, dims),
        dims.y <= y0,
        y1 <= dims.y + dims.h,
        in_panel(dims, x, y),
    ensures
        grid_fits(paint_rows(st, dims, t, y0, y1).cells, dims),
        cell_state(paint_rows(st, dims, t, y0, y1), dims, x, y) == if y0 <= y < y1 && box_x_start(t.a, t.b, t.c, dims) <= x
            < box_x_end(t.a, t.b, t.c, dims) {
            cell_effect(cell_state(st, dims, x, y), t, x, y)
        } else {
            cell_state(st, dims, x, y)
        },
    decreases y1 - y0,
{
    if y1 > y0 {
        lemma_rows_cell(st, dims, t, y0, y1 - 1, x, y);
        lemma_span_cell(
            paint_rows(st, dims, t, y0, y1 - 1),
            dims,
            t,
            y1 - 1,
            box_x_start(t.a, t.b, t.c, dims),
            box_x_end(t.a, t.b, t.c, dims),
            x,
            y,
        );
    }
}

/// Drawing a triangle changes cell `(x, y)` only by its own depth test, and
/// only where the cell is in the triangle's box; the grid keeps its extent.
pub proof fn lemma_triangle_cell(st: FrameState, dims: PanelDims, t: ScreenTriangle, x: int, y: int)
    requires
        dims.fits(),
        grid_fits(st.cells, dims),
        in_panel(dims, x, y),
    ensures
        grid_fits(paint_triangle(st, dims, t).cells, dims),
        cell_state(paint_triangle(st, dims, t), dims, x, y) == if box_y_start(t.a, t.b, t.c, dims) <= y < box_y_end(
            t.a,
            t.b,
            t.c,
            dims,
        ) && box_x_start(t.a, t.b, t.c, dims) <= x < box_x_end(t.a, t.b, t.c, dims) {
            cell_effect(cell_state(st, dims, x, y), t, x, y)
        } else {
            cell_state(st, dims, x, y)
        },
{
    lemma_rows_cell(st, dims, t, box_y_start(t.a, t.b, t.c, dims), box_y_end(t.a, t.b, t.c, dims), x, y);
}

/// Of two triangles that both cover cell `(x, y)`, the nearer one is the last
/// to paint the cell and leaves its depth there, whichever of the two is drawn
/// first: provided it is nearer than what the cell held before (an empty
/// cell, at the start of a frame, is infinitely far).
pub proof fn lemma_nearer_triangle_wins(
    st: FrameState,
    dims: PanelDims,
    near: ScreenTriangle,
    far: ScreenTriangle,
    x: int,
    y: int,
)
    requires
        dims.fits(),
        grid_fits(st.cells, dims),
        in_panel(dims, x, y),
        covers(near, dims, x, y),
        covers(far, dims, x, y),
        triangle_depth(near) < triangle_depth(far),
        i64::MIN <= triangle_depth(near) <= i64::MAX,
        i64::MIN <= triangle_depth(far) <= i64::MAX,
        nearer(triangle_depth(near), st.cells[x - dims.x][y - dims.y]),
    ensures
        last_paint_at(paint_triangle(paint_triangle(st, dims, near), dims, far).paints, x, y) == Some(near.color),
        last_paint_at(paint_triangle(paint_triangle(st, dims, far), dims, near).paints, x, y) == Some(near.color),
        paint_triangle(paint_triangle(st, dims, near), dims, far).cells[x - dims.x][y - dims.y] == Some(
            triangle_depth(near) as i64,
        ),
        paint_triangle(paint_triangle(st, dims, far), dims, near).cells[x - dims.x][y - dims.y] == Some(
            triangle_depth(near) as i64,
        ),
{
    lemma_triangle_cell(st, dims, near, x, y);
    lemma_triangle_cell(paint_triangle(st, dims, near), dims, far, x, y);
    lemma_triangle_cell(st, dims, far, x, y);
    lemma_triangle_cell(paint_triangle(st, dims, far), dims, near, x, y);
}

/// In a frame of a mesh of two triangles that both cover cell `(x, y)` at
/// different depths, the last command painting the cell carries the colour
/// of the nearer triangle, whichever of the two the indices list first.
pub proof fn lemma_frame_nearer_triangle_wins(
    previous: Seq<Seq<Option<i64>>>,
    dims: PanelDims,
    mesh: Mesh,
    vertices: Seq<ClipVertex>,
    x: int,
    y: int,
)
    requires
        dims.fits(),
        !dims.is_degenerate(),
        mesh.wf(),
        mesh.triangle_count() == 2,
        vertices.len() == mesh.vertex_count(),
        in_panel(dims, x, y),
        covers(mesh_triangle(mesh, vertices, dims, 0), dims, x, y),
        covers(mesh_triangle(mesh, vertices, dims, 1), dims, x, y),
        triangle_depth(mesh_triangle(mesh, vertices, dims, 0)) != triangle_depth(mesh_triangle(mesh, vertices, dims, 1)),
    ensures
        ({
            let t0 = mesh_triangle(mesh, vertices, dims, 0);
            let t1 = mesh_triangle(mesh, vertices, dims, 1);
            last_paint_at(frame(previous, dims, mesh, vertices).paints, x, y) == Some(
                if triangle_depth(t0) < triangle_depth(t1) { t0.color } else { t1.color },
            )
        }),
{
    let t0 = mesh_triangle(mesh, vertices, dims, 0);
    let t1 = mesh_triangle(mesh, vertices, dims, 1);
    let st = FrameState { cells: cleared_cells(dims.w as nat, dims.h as nat), paints: Seq::empty() };
    assert(paint_mesh(st, dims, mesh, vertices, 0) == st);
    assert(paint_mesh(st, dims, mesh, vertices, 1) == paint_triangle(st, dims, t0));
    assert(paint_mesh(st, dims, mesh, vertices, 2) == paint_triangle(paint_triangle(st, dims, t0), dims, t1));
    assert(frame(previous, dims, mesh, vertices) == paint_triangle(paint_triangle(st, dims, t0), dims, t1));
    assert(grid_fits(st.cells, dims));
    assert(st.cells[x - dims.x][y - dims.y] == None::<i64>);
    if triangle_depth(t0) < triangle_depth(t1) {
        lemma_nearer_triangle_wins(st, dims, t0, t1, x, y);
    } else {
        lemma_nearer_triangle_wins(st, dims, t1, t0, x, y);
    }
}

/// A frame's paint commands do not depend on the depth grid left by earlier
/// frames: with the same mesh, projection and panel, two draws in a row
/// issue the same commands.
pub proof fn lemma_frame_ignores_previous_grid(
    first: Seq<Seq<Option<i64>>>,
    second: Seq<Seq<Option<i64>>>,
    dims: PanelDims,
    mesh: Mesh,
    vertices: Seq<ClipVertex>,
)
    ensures
        frame(first, dims, mesh, vertices).paints == frame(second, dims, mesh, vertices).paints,
        !dims.is_degenerate() ==> frame(first, dims, mesh, vertices) == frame(second, dims, mesh, vertices),
{
}

/// The grid has the panel's extent.
pub open spec fn grid_fits(cells: Seq<Seq<Option<i64>>>, dims: PanelDims) -> bool {
    cells.len() == dims.w && columns_of_len(cells, dims.h as nat)
}

/// Paints one triangle into the grid and the command list, as `paint_triangle` states.
pub fn fill_triangle(grid: &mut DepthGrid, out: &mut Vec<PaintCommand>, dims: PanelDims, t: ScreenTriangle)
    requires
        dims.fits(),
        grid_fits(grid_cells(*old(grid)), dims),
        vertex_in_range(t.a),
        vertex_in_range(t.b),
        vertex_in_range(t.c),
    ensures
        grid_fits(grid_cells(*final(grid)), dims),
        (FrameState { cells: grid_cells(*final(grid)), paints: final(out)@ }) == paint_triangle(
            FrameState { cells: grid_cells(*old(grid)), paints: old(out)@ },
            dims,
            t,
        ),
{
    let ghost st0 = FrameState { cells: grid_cells(*grid), paints: out@ };
    let d: i64 = t.a.z + t.b.z + t.c.z;
    let ax = cell_of(t.a.x);
    let bx = cell_of(t.b.x);
    let cx = cell_of(t.c.x);
    let ay = cell_of(t.a.y);
    let by = cell_of(t.b.y);
    let cy = cell_of(t.c.y);
    let mut x_start = if ax <= bx && ax <= cx { ax } else if bx <= cx { bx } else { cx };
    if x_start < dims.x as i64 {
        x_start = dims.x as i64;
    }
    let mut x_end = if ax >= bx && ax >= cx { ax } else if bx >= cx { bx } else { cx };
    x_end = x_end + 1;
    if x_end > dims.x as i64 + dims.w as i64 {
        x_end = dims.x as i64 + dims.w as i64;
    }
    let mut y_start = if ay <= by && ay <= cy { ay } else if by <= cy { by } else { cy };
    if y_start < dims.y as i64 {
        y_start = dims.y as i64;
    }
    let mut y_end = if ay >= by && ay >= cy { ay } else if by >= cy { by } else { cy };
    y_end = y_end + 1;
    if y_end > dims.y as i64 + dims.h as i64 {
        y_end = dims.y as i64 + dims.h as i64;
    }
    assert(x_start == box_x_start(t.a, t.b, t.c, dims));
    assert(x_end == box_x_end(t.a, t.b, t.c, dims));
    assert(y_start == box_y_start(t.a, t.b, t.c, dims));
    assert(y_end == box_y_end(t.a, t.b, t.c, dims));
    let mut py = y_start;
    while py < y_end
        invariant
            dims.fits(),
            vertex_in_range(t.a),
            vertex_in_range(t.b),
            vertex_in_range(t.c),
            d == triangle_depth(t),
            x_start == box_x_start(t.a, t.b, t.c, dims),
            x_end == box_x_end(t.a, t.b, t.c, dims),
            y_end == box_y_end(t.a, t.b, t.c, dims),
            dims.x <= x_start,
            x_end <= dims.x + dims.w,
            dims.y <= y_start <= py,
            y_end <= dims.y + dims.h,
            py <= y_end || py == y_start,
            grid_fits(grid_cells(*grid), dims),
            (FrameState { cells: grid_cells(*grid), paints: out@ }) == paint_rows(st0, dims, t, y_start as int, py as int),
        decreases y_end - py,
    {
        let ghost row0 = FrameState { cells: grid_cells(*grid), paints: out@ };
        let mut px = x_start;
        while px < x_end
            invariant
                dims.fits(),
                vertex_in_range(t.a),
                vertex_in_range(t.b),
                vertex_in_range(t.c),
                d == triangle_depth(t),
                dims.x <= x_start <= px,
                x_end <= dims.x + dims.w,
                px <= x_end || px == x_start,
                dims.y <= py < y_end,
                y_end <= dims.y + dims.h,
                grid_fits(grid_cells(*grid), dims),
                (FrameState { cells: grid_cells(*grid), paints: out@ }) == paint_span(row0, dims, t, py as int, x_start as int, px as int),
            decreases x_end - px,
        {
            let point = ScreenPoint { x: CELL * px + NDC_ONE, y: CELL * py + NDC_ONE };
            assert(point == cell_center(px as int, py as int));
            if is_point_in_triangle(point, t.a, t.b, t.c) {
                let ix = (px - dims.x as i64) as usize;
                let iy = (py - dims.y as i64) as usize;
                let current = grid_get(grid, ix, iy);
                let is_nearer = match current {
                    None => true,
                    Some(b) => d < b,
                };
                if is_nearer {
                    grid_set(grid, ix, iy, Some(d));
                    out.push(PaintCommand { x: px as u16, y: py as u16, color: t.color });
                    assert(grid_fits(grid_cells(*grid), dims)) by {
                        assert forall|i: int| 0 <= i < grid_cells(*grid).len() implies #[trigger] grid_cells(*grid)[i].len() == dims.h by {
                            if i != ix {
                            }
                        }
                    }
                }
            }
            px = px + 1;
        }
        py = py + 1;
    }
}

} // verus!
