//! Exact raster tests for flat shapes on the screen plane. Shapes are given
//! in twentieths of the screen unit; every test is decided in exact
//! integer arithmetic.

use crate::screen::{pixel_point, pixel_to_device, DevicePoint, MAX_SIDE};
use vstd::prelude::*;

verus! {

/// Bound on the coordinates and radii of shapes, in twentieths.
pub const COORD_LIMIT: i64 = 1024;

/// A shape vertex or centre, in twentieths of the screen unit.
#[derive(Debug, Clone, Copy, PartialEq, Eq, Structural)]
pub struct ShapePoint {
    pub x: i64,
    pub y: i64,
}

/// A disc, its centre and radius in twentieths.
#[derive(Debug, Clone, Copy, PartialEq, Eq, Structural)]
pub struct Circle {
    pub center: ShapePoint,
    pub radius: i64,
}

/// A triangle, its corners in twentieths.
#[derive(Debug, Clone, Copy, PartialEq, Eq, Structural)]
pub struct Triangle {
    pub p0: ShapePoint,
    pub p1: ShapePoint,
    pub p2: ShapePoint,
}

impl ShapePoint {
    pub open spec fn wf(&self) -> bool {
        -COORD_LIMIT <= self.x <= COORD_LIMIT && -COORD_LIMIT <= self.y <= COORD_LIMIT
    }
}

impl Circle {
    pub open spec fn wf(&self) -> bool {
        self.center.wf() && 0 <= self.radius <= COORD_LIMIT
    }
}

impl Triangle {
    pub open spec fn wf(&self) -> bool {
        self.p0.wf() && self.p1.wf() && self.p2.wf()
    }
}

/// Twenty times x − a.x/20, times `x_den`: the x offset from `a` with the
/// denominators cleared.
pub open spec fn offset_x(a: ShapePoint, p: DevicePoint) -> int {
    20 * p.x_num - a.x * p.x_den
}

/// The y offset from `a` with the denominators cleared.
pub open spec fn offset_y(a: ShapePoint, p: DevicePoint) -> int {
    20 * p.y_num - a.y * p.y_den
}

/// (x − cx)² + (y − cy)² ≤ r², multiplied through by (20·x_den·y_den)².
pub open spec fn in_circle(c: Circle, p: DevicePoint) -> bool {
    let dx = offset_x(c.center, p);
    let dy = offset_y(c.center, p);
    dx * dx * (p.y_den * p.y_den) + dy * dy * (p.x_den * p.x_den) <= c.radius * c.radius * (
    p.x_den * p.x_den) * (p.y_den * p.y_den)
}

/// The edge function (a − b) × (p − b), multiplied by 400·x_den·y_den: its
/// sign says on which side of the line through `b` and `a` the point lies.
pub open spec fn edge(a: ShapePoint, b: ShapePoint, p: DevicePoint) -> int {
    (a.x - b.x) * p.x_den * offset_y(b, p) - (a.y - b.y) * p.y_den * offset_x(b, p)
}

/// The barycentric sign test: the point is out when the edge functions of
/// the first two edges have strictly opposite signs; else it is in when
/// the third is zero or has the sign of their sum.
pub open spec fn in_triangle(t: Triangle, p: DevicePoint) -> bool {
    let s = edge(t.p0, t.p2, p);
    let v = edge(t.p1, t.p0, p);
    let d = edge(t.p2, t.p1, p);
    if (s < 0) != (v < 0) && s != 0 && v != 0 {
        false
    } else {
        d == 0 || (d < 0) == (s + v <= 0)
    }
}

/// The disc tested by `is_pixel_in_circle`: centre (0, 0), radius 0.3.
pub open spec fn screen_circle() -> Circle {
    Circle { center: ShapePoint { x: 0, y: 0 }, radius: 6 }
}

/// The triangle tested by `is_pixel_in_triangle`: corners (-0.4, 0.4),
/// (0.8, 0.5) and (-0.75, -0.75).
pub open spec fn screen_triangle() -> Triangle {
    Triangle {
        p0: ShapePoint { x: -8i64, y: 8 },
        p1: ShapePoint { x: 16, y: 10 },
        p2: ShapePoint { x: -15i64, y: -15i64 },
    }
}

/// |a·b| ≤ A·B whenever |a| ≤ A and |b| ≤ B.
proof fn lemma_mul_bound(a: int, b: int, bound_a: int, bound_b: int)
    requires
        -bound_a <= a <= bound_a,
        -bound_b <= b <= bound_b,
    ensures
        -(bound_a * bound_b) <= a * b <= bound_a * bound_b,
{
    assert(-(bound_a * bound_b) <= a * b <= bound_a * bound_b) by (nonlinear_arith)
        requires
            -bound_a <= a <= bound_a,
            -bound_b <= b <= bound_b,
    ;
}

/// The offset of `p` from `a` along each axis, denominators cleared.
fn offsets(a: ShapePoint, p: DevicePoint) -> (r: (i128, i128))
    requires
        a.wf(),
        p.wf(),
    ensures
        r.0 == offset_x(a, p),
        r.1 == offset_y(a, p),
        -0x10_0000_0000 <= r.0 <= 0x10_0000_0000,
        -0x10_0000_0000 <= r.1 <= 0x10_0000_0000,
{
    proof {
        lemma_mul_bound(a.x as int, p.x_den as int, 1024, 0x200_0000);
        lemma_mul_bound(a.y as int, p.y_den as int, 1024, 0x200_0000);
    }
    let dx = 20 * (p.x_num as i128) - (a.x as i128) * (p.x_den as i128);
    let dy = 20 * (p.y_num as i128) - (a.y as i128) * (p.y_den as i128);
    (dx, dy)
}

/// The edge function of `p` against the edge from `b` to `a`.
fn edge_value(a: ShapePoint, b: ShapePoint, p: DevicePoint) -> (r: i128)
    requires
        a.wf(),
        b.wf(),
        p.wf(),
    ensures
        r == edge(a, b, p),
        -0x4_0000_0000_0000_0000_0000 <= r <= 0x4_0000_0000_0000_0000_0000,
{
    let (ox, oy) = offsets(b, p);
    let ex = (a.x as i128) - (b.x as i128);
    let ey = (a.y as i128) - (b.y as i128);
    proof {
        lemma_mul_bound(ex as int, p.x_den as int, 2048, 0x200_0000);
        lemma_mul_bound(ey as int, p.y_den as int, 2048, 0x200_0000);
        lemma_mul_bound(ex * p.x_den, oy as int, 0x10_0000_0000, 0x10_0000_0000);
        lemma_mul_bound(ey * p.y_den, ox as int, 0x10_0000_0000, 0x10_0000_0000);
    }
    ex * (p.x_den as i128) * oy - ey * (p.y_den as i128) * ox
}

/// Whether `point` lies in the closed disc `circle`.
pub fn is_point_in_circle(circle: Circle, point: DevicePoint) -> (r: bool)
    requires
        circle.wf(),
        point.wf(),
    ensures
        r == in_circle(circle, point),
{
    let (dx, dy) = offsets(circle.center, point);
    let xd = point.x_den as i128;
    let yd = point.y_den as i128;
    let rad = circle.radius as i128;
    proof {
        lemma_mul_bound(dx as int, dx as int, 0x10_0000_0000, 0x10_0000_0000);
        lemma_mul_bound(dy as int, dy as int, 0x10_0000_0000, 0x10_0000_0000);
        lemma_mul_bound(xd as int, xd as int, 0x200_0000, 0x200_0000);
        lemma_mul_bound(yd as int, yd as int, 0x200_0000, 0x200_0000);
        lemma_mul_bound(dx * dx, yd * yd, 0x100_0000_0000_0000_0000, 0x4_0000_0000_0000);
        lemma_mul_bound(dy * dy, xd * xd, 0x100_0000_0000_0000_0000, 0x4_0000_0000_0000);
        lemma_mul_bound(rad as int, rad as int, 1024, 1024);
        lemma_mul_bound(rad * rad, xd * xd, 0x10_0000, 0x4_0000_0000_0000);
        lemma_mul_bound(rad * rad * (xd * xd), yd * yd, 0x40_0000_0000_0000_0000, 0x4_0000_0000_0000);
    }
    dx * dx * (yd * yd) + dy * dy * (xd * xd) <= rad * rad * (xd * xd) * (yd * yd)
}

/// Whether `p` passes the barycentric sign test of triangle `t`.
pub fn is_point_in_triangle(t: Triangle, p: DevicePoint) -> (r: bool)
    requires
        t.wf(),
        p.wf(),
    ensures
        r == in_triangle(t, p),
{
    let s = edge_value(t.p0, t.p2, p);
    let v = edge_value(t.p1, t.p0, p);
    if (s < 0) != (v < 0) && s != 0 && v != 0 {
        return false;
    }
    let d = edge_value(t.p2, t.p1, p);
    d == 0 || (d < 0) == (s + v <= 0)
}

/// Whether pixel (`row`, `column`) of a `row_size` by `col_size` image lies
/// in the disc of radius 0.3 about the screen's centre.
pub fn is_pixel_in_circle(row: usize, column: usize, row_size: usize, col_size: usize) -> (r: bool)
    requires
        row < row_size <= MAX_SIDE,
        column < col_size <= MAX_SIDE,
    ensures
        r == in_circle(
            screen_circle(),
            pixel_point(row as nat, column as nat, row_size as nat, col_size as nat),
        ),
{
    let point = pixel_to_device(row, column, row_size, col_size);
    let circle = Circle { center: ShapePoint { x: 0, y: 0 }, radius: 6 };
    is_point_in_circle(circle, point)
}

/// Whether pixel (`row`, `column`) of a `row_size` by `col_size` image lies
/// in the triangle with corners (-0.4, 0.4), (0.8, 0.5) and (-0.75, -0.75).
pub fn is_pixel_in_triangle(row: usize, column: usize, row_size: usize, col_size: usize) -> (r: bool)
    requires
        row < row_size <= MAX_SIDE,
        column < col_size <= MAX_SIDE,
    ensures
        r == in_triangle(
            screen_triangle(),
            pixel_point(row as nat, column as nat, row_size as nat, col_size as nat),
        ),
{
    let point = pixel_to_device(row, column, row_size, col_size);
    let triangle = Triangle {
        p0: ShapePoint { x: -8, y: 8 },
        p1: ShapePoint { x: 16, y: 10 },
        p2: ShapePoint { x: -15, y: -15 },
    };
    is_point_in_triangle(triangle, point)
}

} // verus!
