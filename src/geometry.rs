//! Fixed-point screen geometry: mapping normalized device coordinates onto a
//! panel, the edge function, triangle membership and bounding boxes.
use vstd::prelude::*;
use crate::panel::PanelDims;

verus! {

/// One unit of normalized device coordinates, in fixed point.
pub const NDC_ONE: i64 = 4096;

/// One cell of screen space, in fixed point: the `[-1, 1]` range of normalized
/// device coordinates maps onto `w` cells, so a cell is `2 * NDC_ONE` units
/// and every mapped coordinate is exact.
pub const CELL: i64 = 8192;

/// Largest magnitude of a screen-space coordinate that the edge function takes.
pub const SCREEN_LIMIT: i64 = 0x4_0000_0000_0000;

/// A vertex after the view and projection transforms: normalized device
/// coordinates `x` and `y`, `NDC_ONE` standing for 1.0, and a depth `z` in
/// any fixed-point scale shared by the whole mesh (smaller is nearer).
#[derive(Clone, Copy, Debug, PartialEq, Eq, Structural)]
pub struct ClipVertex {
    pub x: i32,
    pub y: i32,
    pub z: i32,
}

/// A vertex in screen space, in units of `1 / CELL` of a cell, with its depth.
#[derive(Clone, Copy, Debug, PartialEq, Eq, Structural)]
pub struct ScreenVertex {
    pub x: i64,
    pub y: i64,
    pub z: i64,
}

/// A point in screen space, in units of `1 / CELL` of a cell.
#[derive(Clone, Copy, Debug, PartialEq, Eq, Structural)]
pub struct ScreenPoint {
    pub x: i64,
    pub y: i64,
}

/// A colour of a terminal cell.
#[derive(Clone, Copy, Debug, PartialEq, Eq, Structural)]
pub struct Rgb {
    pub r: u8,
    pub g: u8,
    pub b: u8,
}

/// Screen `x` of a vertex: `(x + 1) / 2 * w + dims.x` in cells.
pub open spec fn screen_x(v: ClipVertex, dims: PanelDims) -> int {
    (v.x + NDC_ONE) * dims.w + CELL * dims.x
}

/// Screen `y` of a vertex: `h - (y + 1) / 2 * h + dims.y` in cells; rows grow
/// downwards while device `y` grows upwards.
pub open spec fn screen_y(v: ClipVertex, dims: PanelDims) -> int {
    (NDC_ONE - v.y) * dims.h + CELL * dims.y
}

/// Within the range on which the edge function is computed exactly.
pub open spec fn point_in_range(x: int, y: int) -> bool {
    -SCREEN_LIMIT <= x <= SCREEN_LIMIT && -SCREEN_LIMIT <= y <= SCREEN_LIMIT
}

pub open spec fn vertex_in_range(v: ScreenVertex) -> bool {
    point_in_range(v.x as int, v.y as int) && i32::MIN <= v.z <= i32::MAX
}

/// Signed area spanned by `p - s` and `e - s`: the determinant of the 2x2
/// matrix with these two columns.
pub open spec fn edge_area(p: ScreenPoint, s: ScreenVertex, e: ScreenVertex) -> int {
    (p.x - s.x) * (e.y - s.y) - (e.x - s.x) * (p.y - s.y)
}

/// Membership of a point in the triangle `a, b, c` (clockwise): a zero area
/// on any edge counts as inside; otherwise all three areas are negative.
pub open spec fn in_triangle(p: ScreenPoint, a: ScreenVertex, b: ScreenVertex, c: ScreenVertex) -> bool {
    edge_area(p, a, b) == 0 || edge_area(p, b, c) == 0 || edge_area(p, c, a) == 0 || (
    edge_area(p, a, b) < 0 && edge_area(p, b, c) < 0 && edge_area(p, c, a) < 0)
}

/// The cell index of a screen coordinate, truncated toward zero and never
/// below zero.
pub open spec fn cell_index(s: int) -> int {
    if s < 0 {
        0
    } else {
        s / (CELL as int)
    }
}

pub open spec fn min3(a: int, b: int, c: int) -> int {
    if a <= b && a <= c {
        a
    } else if b <= c {
        b
    } else {
        c
    }
}

pub open spec fn max3(a: int, b: int, c: int) -> int {
    if a >= b && a >= c {
        a
    } else if b >= c {
        b
    } else {
        c
    }
}

/// First column scanned for a triangle: its leftmost vertex cell, not left of the panel.
pub open spec fn box_x_start(a: ScreenVertex, b: ScreenVertex, c: ScreenVertex, dims: PanelDims) -> int {
    let m = min3(cell_index(a.x as int), cell_index(b.x as int), cell_index(c.x as int));
    if m < dims.x { dims.x as int } else { m }
}

/// One past the last column scanned: one past its rightmost vertex cell, not
/// right of the panel.
pub open spec fn box_x_end(a: ScreenVertex, b: ScreenVertex, c: ScreenVertex, dims: PanelDims) -> int {
    let m = max3(cell_index(a.x as int), cell_index(b.x as int), cell_index(c.x as int)) + 1;
    if m > dims.x + dims.w { dims.x + dims.w } else { m }
}

/// First row scanned for a triangle.
pub open spec fn box_y_start(a: ScreenVertex, b: ScreenVertex, c: ScreenVertex, dims: PanelDims) -> int {
    let m = min3(cell_index(a.y as int), cell_index(b.y as int), cell_index(c.y as int));
    if m < dims.y { dims.y as int } else { m }
}

/// One past the last row scanned.
pub open spec fn box_y_end(a: ScreenVertex, b: ScreenVertex, c: ScreenVertex, dims: PanelDims) -> int {
    let m = max3(cell_index(a.y as int), cell_index(b.y as int), cell_index(c.y as int)) + 1;
    if m > dims.y + dims.h { dims.y + dims.h } else { m }
}

/// The centre of cell `(x, y)`.
pub open spec fn cell_center(x: int, y: int) -> ScreenPoint {
    ScreenPoint { x: (CELL * x + NDC_ONE) as i64, y: (CELL * y + NDC_ONE) as i64 }
}

/// Maps a vertex onto the panel: exact, with its depth kept.
pub fn to_screen(v: ClipVertex, dims: PanelDims) -> (r: ScreenVertex)
    ensures
        r.x == screen_x(v, dims),
        r.y == screen_y(v, dims),
        r.z == v.z,
        vertex_in_range(r),
{
    let sx = v.x as i64 + NDC_ONE;
    let sy = NDC_ONE - v.y as i64;
    let w = dims.w as i64;
    let h = dims.h as i64;
    assert(-0x1_0000_0000 * 0x1_0000 <= sx * w <= 0x1_0000_0000 * 0x1_0000) by (nonlinear_arith)
        requires
            -0x1_0000_0000 <= sx <= 0x1_0000_0000,
            0 <= w <= 0x1_0000,
    ;
    assert(-0x1_0000_0000 * 0x1_0000 <= sy * h <= 0x1_0000_0000 * 0x1_0000) by (nonlinear_arith)
        requires
            -0x1_0000_0000 <= sy <= 0x1_0000_0000,
            0 <= h <= 0x1_0000,
    ;
    ScreenVertex {
        x: sx * w + CELL * (dims.x as i64),
        y: sy * h + CELL * (dims.y as i64),
        z: v.z as i64,
    }
}

/// Signed area spanned by `p - s` and `e - s`, computed exactly.
pub fn signed_area(p: ScreenPoint, s: ScreenVertex, e: ScreenVertex) -> (r: i128)
    requires
        point_in_range(p.x as int, p.y as int),
        vertex_in_range(s),
        vertex_in_range(e),
    ensures
        r == edge_area(p, s, e),
{
    let px = p.x as i128 - s.x as i128;
    let py = p.y as i128 - s.y as i128;
    let ex = e.x as i128 - s.x as i128;
    let ey = e.y as i128 - s.y as i128;
    assert(-0x10_0000_0000_0000 * 0x10_0000_0000_0000 <= px * ey <= 0x10_0000_0000_0000
        * 0x10_0000_0000_0000) by (nonlinear_arith)
        requires
            -0x10_0000_0000_0000 <= px <= 0x10_0000_0000_0000,
            -0x10_0000_0000_0000 <= ey <= 0x10_0000_0000_0000,
    ;
    assert(-0x10_0000_0000_0000 * 0x10_0000_0000_0000 <= ex * py <= 0x10_0000_0000_0000
        * 0x10_0000_0000_0000) by (nonlinear_arith)
        requires
            -0x10_0000_0000_0000 <= ex <= 0x10_0000_0000_0000,
            -0x10_0000_0000_0000 <= py <= 0x10_0000_0000_0000,
    ;
    px * ey - ex * py
}

/// Whether `point` lies in the clockwise triangle `a, b, c`. A zero signed
/// area on any edge, tested in the order `a->b`, `b->c`, `c->a`, counts as
/// inside before the other edges are looked at; otherwise the point is inside
/// exactly when all three areas are negative.
pub fn is_point_in_triangle(point: ScreenPoint, a: ScreenVertex, b: ScreenVertex, c: ScreenVertex) -> (r: bool)
    requires
        point_in_range(point.x as int, point.y as int),
        vertex_in_range(a),
        vertex_in_range(b),
        vertex_in_range(c),
    ensures
        r == in_triangle(point, a, b, c),
        edge_area(point, a, b) == 0 ==> r,
        edge_area(point, a, b) < 0 && edge_area(point, b, c) < 0 && edge_area(point, c, a) < 0 ==> r,
        (edge_area(point, a, b) > 0 || edge_area(point, b, c) > 0 || edge_area(point, c, a) > 0)
            && edge_area(point, a, b) != 0 && edge_area(point, b, c) != 0 && edge_area(point, c, a)
            != 0 ==> !r,
{
    let ab = signed_area(point, a, b);
    if ab == 0 {
        return true;
    }
    let bc = signed_area(point, b, c);
    if bc == 0 {
        return true;
    }
    let ca = signed_area(point, c, a);
    if ca == 0 {
        return true;
    }
    ab < 0 && bc < 0 && ca < 0
}

/// Cell index of a screen coordinate, as `cell_index` states.
pub fn cell_of(s: i64) -> (r: i64)
    ensures
        r == cell_index(s as int),
        0 <= r,
{
    if s < 0 {
        0
    } else {
        s / CELL
    }
}

} // verus!
