//! Shapes and affine transforms.
//!
//! Shapes are immutable value types without identity; every variant can be
//! rendered by a fill operation and, where geometrically meaningful, a
//! stroke operation (a line supports stroke only). Coordinates are
//! micro-pixels (`1_000_000` units per pixel); angles are milli-degrees.
//!
//! Affine arithmetic is saturating fixed point: every product is truncated
//! toward zero at micro precision and clamped to [`AFFINE_SAT`], a bound a
//! billion pixels out, so transforms are total functions and no scene
//! coordinate can overflow.

use vstd::prelude::*;

verus! {

/// A point in micro-pixels.
#[derive(Debug, Clone, Copy, PartialEq, Eq, Structural)]
pub struct Point {
    pub x: i64,
    pub y: i64,
}

impl Point {
    /// Builds a point from micro-pixel coordinates.
    pub fn new(x: i64, y: i64) -> (p: Point)
        ensures
            p == (Point { x, y }),
    {
        Point { x, y }
    }
}

/// A drawable shape. Immutable value type, no identity.
#[derive(Debug, Clone, PartialEq, Eq)]
pub enum Shape {
    /// Axis-aligned rectangle with top-left corner `a`.
    Rectangle { a: Point, w: i64, h: i64 },
    /// Circle around `center`.
    Circle { center: Point, radius: i64 },
    /// Ellipse around `center`, rotated by `rotation` milli-degrees.
    Ellipse { center: Point, radius_x: i64, radius_y: i64, rotation: i64 },
    /// Rectangle with corners `a` and `b` and rounded corners.
    RoundedRectangle { a: Point, b: Point, radius: i64 },
    /// A straight line segment; supports stroke only.
    Line { start: Point, end: Point },
    /// A closed polygon.
    Polygon { points: Vec<Point> },
    /// An open polyline.
    Path { points: Vec<Point> },
}

impl Shape {
    /// A rectangle from its top-left corner, width and height.
    pub fn rectangle(a: Point, w: i64, h: i64) -> (s: Shape)
        ensures
            s == (Shape::Rectangle { a, w, h }),
    {
        Shape::Rectangle { a, w, h }
    }

    /// A circle from its center and radius.
    pub fn circle(center: Point, radius: i64) -> (s: Shape)
        ensures
            s == (Shape::Circle { center, radius }),
    {
        Shape::Circle { center, radius }
    }

    /// A line from its two end points.
    pub fn line(start: Point, end: Point) -> (s: Shape)
        ensures
            s == (Shape::Line { start, end }),
    {
        Shape::Line { start, end }
    }

    /// A closed polygon from its corner points.
    pub fn polygon(points: Vec<Point>) -> (s: Shape)
        ensures
            s == (Shape::Polygon { points }),
    {
        Shape::Polygon { points }
    }

    /// An open polyline from its points.
    pub fn path(points: Vec<Point>) -> (s: Shape)
        ensures
            s == (Shape::Path { points }),
    {
        Shape::Path { points }
    }
}

/// Saturation bound of affine arithmetic: one billion pixels, in
/// micro-pixels.
pub const AFFINE_SAT: i64 = 1_000_000_000_000_000;

/// `v` clamped to `[-AFFINE_SAT, AFFINE_SAT]`.
pub open spec fn spec_sat(v: int) -> i64 {
    if v > AFFINE_SAT {
        AFFINE_SAT
    } else if v < -AFFINE_SAT {
        (-AFFINE_SAT) as i64
    } else {
        v as i64
    }
}

/// The absolute value of `v`.
pub open spec fn spec_abs(v: int) -> int {
    if v >= 0 {
        v
    } else {
        -v
    }
}

/// Saturating fixed-point product of a micro-unit coefficient and a
/// coordinate: `c * v / 1_000_000`, truncated toward zero and clamped.
pub open spec fn spec_coeff_mul(c: i64, v: i64) -> i64 {
    let mag = (spec_abs(c as int) * spec_abs(v as int)) / 1_000_000;
    if (c < 0) != (v < 0) {
        spec_sat(-mag)
    } else {
        spec_sat(mag)
    }
}

/// A 2D affine transform
/// `(x, y) -> (xx*x + xy*y + dx, yx*x + yy*y + dy)`.
/// The linear part is in micro units (1_000_000 == 1.0); the translation is
/// in micro-pixels.
#[derive(Debug, Clone, Copy, PartialEq, Eq, Structural)]
pub struct Affine {
    pub xx: i64,
    pub xy: i64,
    pub yx: i64,
    pub yy: i64,
    pub dx: i64,
    pub dy: i64,
}

/// Where the transform sends the x coordinate of `p`.
pub open spec fn spec_apply_x(m: Affine, p: Point) -> i64 {
    spec_sat(spec_coeff_mul(m.xx, p.x) + spec_coeff_mul(m.xy, p.y) + m.dx)
}

/// Where the transform sends the y coordinate of `p`.
pub open spec fn spec_apply_y(m: Affine, p: Point) -> i64 {
    spec_sat(spec_coeff_mul(m.yx, p.x) + spec_coeff_mul(m.yy, p.y) + m.dy)
}

/// The absolute value of `v`, as a magnitude.
fn abs_u128(v: i64) -> (r: u128)
    ensures
        r == spec_abs(v as int),
{
    if v < 0 {
        (-(v as i128)) as u128
    } else {
        v as u128
    }
}

/// Saturating fixed-point product of a micro-unit coefficient and a
/// coordinate.
fn coeff_mul(c: i64, v: i64) -> (r: i64)
    ensures
        r == spec_coeff_mul(c, v),
        -AFFINE_SAT <= r <= AFFINE_SAT,
{
    let ca = abs_u128(c);
    let va = abs_u128(v);
    proof {
        assert(ca * va <= 0x8000_0000_0000_0000u128 * 0x8000_0000_0000_0000u128)
            by (nonlinear_arith)
            requires
                0 <= ca <= 0x8000_0000_0000_0000u128,
                0 <= va <= 0x8000_0000_0000_0000u128,
        ;
    }
    let mag: u128 = (ca * va) / 1_000_000;
    let capped: i64 = if mag > AFFINE_SAT as u128 {
        AFFINE_SAT
    } else {
        mag as i64
    };
    if (c < 0) != (v < 0) {
        -capped
    } else {
        capped
    }
}

/// `v` clamped to `[-AFFINE_SAT, AFFINE_SAT]`.
fn sat_i128(v: i128) -> (r: i64)
    ensures
        r == spec_sat(v as int),
        -AFFINE_SAT <= r <= AFFINE_SAT,
{
    if v > AFFINE_SAT as i128 {
        AFFINE_SAT
    } else if v < -(AFFINE_SAT as i128) {
        -AFFINE_SAT
    } else {
        v as i64
    }
}

impl Affine {
    /// The identity transform.
    pub fn identity() -> (m: Affine)
        ensures
            m == (Affine { xx: 1_000_000, xy: 0, yx: 0, yy: 1_000_000, dx: 0, dy: 0 }),
    {
        Affine { xx: 1_000_000, xy: 0, yx: 0, yy: 1_000_000, dx: 0, dy: 0 }
    }

    /// A pure translation by `(dx, dy)` micro-pixels.
    pub fn translate(dx: i64, dy: i64) -> (m: Affine)
        ensures
            m == (Affine { xx: 1_000_000, xy: 0, yx: 0, yy: 1_000_000, dx, dy }),
    {
        Affine { xx: 1_000_000, xy: 0, yx: 0, yy: 1_000_000, dx, dy }
    }

    /// A scale by micro-unit factors.
    pub fn scale(sx: i64, sy: i64) -> (m: Affine)
        ensures
            m == (Affine { xx: sx, xy: 0, yx: 0, yy: sy, dx: 0, dy: 0 }),
    {
        Affine { xx: sx, xy: 0, yx: 0, yy: sy, dx: 0, dy: 0 }
    }

    /// A rotation given by the micro-unit sine and cosine of its angle.
    pub fn rotation_parts(sin: i64, cos: i64) -> (m: Affine)
        requires
            sin != i64::MIN,
        ensures
            m == (Affine { xx: cos, xy: (-sin) as i64, yx: sin, yy: cos, dx: 0, dy: 0 }),
    {
        Affine { xx: cos, xy: -sin, yx: sin, yy: cos, dx: 0, dy: 0 }
    }

    /// Applies the transform to a point.
    pub fn apply(&self, p: Point) -> (q: Point)
        ensures
            q.x == spec_apply_x(*self, p),
            q.y == spec_apply_y(*self, p),
    {
        let x = coeff_mul(self.xx, p.x) as i128 + coeff_mul(self.xy, p.y) as i128 + self.dx
            as i128;
        let y = coeff_mul(self.yx, p.x) as i128 + coeff_mul(self.yy, p.y) as i128 + self.dy
            as i128;
        Point { x: sat_i128(x), y: sat_i128(y) }
    }

    /// Composes two transforms: applying the result is applying `other`
    /// first, then `self`.
    pub fn compose(&self, other: &Affine) -> (m: Affine)
        ensures
            m.xx == spec_sat(spec_coeff_mul(self.xx, other.xx) + spec_coeff_mul(self.xy, other.yx)),
            m.xy == spec_sat(spec_coeff_mul(self.xx, other.xy) + spec_coeff_mul(self.xy, other.yy)),
            m.yx == spec_sat(spec_coeff_mul(self.yx, other.xx) + spec_coeff_mul(self.yy, other.yx)),
            m.yy == spec_sat(spec_coeff_mul(self.yx, other.xy) + spec_coeff_mul(self.yy, other.yy)),
            m.dx == spec_apply_x(*self, Point { x: other.dx, y: other.dy }),
            m.dy == spec_apply_y(*self, Point { x: other.dx, y: other.dy }),
    {
        let t = self.apply(Point { x: other.dx, y: other.dy });
        Affine {
            xx: sat_i128(
                coeff_mul(self.xx, other.xx) as i128 + coeff_mul(self.xy, other.yx) as i128,
            ),
            xy: sat_i128(
                coeff_mul(self.xx, other.xy) as i128 + coeff_mul(self.xy, other.yy) as i128,
            ),
            yx: sat_i128(
                coeff_mul(self.yx, other.xx) as i128 + coeff_mul(self.yy, other.yx) as i128,
            ),
            yy: sat_i128(
                coeff_mul(self.yx, other.xy) as i128 + coeff_mul(self.yy, other.yy) as i128,
            ),
            dx: t.x,
            dy: t.y,
        }
    }
}

} // verus!
