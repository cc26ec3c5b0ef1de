//! Stimulus transformations.
//!
//! A [`Transformation2D`] describes how a stimulus is placed: identity,
//! translations whose distances are device-independent [`Size`] values,
//! rotations about a point, scales, raw matrices, and products of
//! transformations. It is evaluated to a concrete [`Affine`] only at draw
//! or hit-test time, against the window's current pixel size and screen
//! calibration, so stored transformations never bake in raw pixels.

use vstd::prelude::*;

use crate::geometry::spec_eval_size;
use crate::geometry::PhysicalScreen;
use crate::geometry::PixelSize;
use crate::geometry::Size;
use crate::geometry::DENSITY_LIMIT;
use crate::geometry::DISTANCE_LIMIT;
use crate::shapes::Affine;
use crate::shapes::Point;
use crate::trig::cos_mdeg;
use crate::trig::sin_mdeg;
use crate::trig::spec_cos_mdeg;
use crate::trig::spec_sin_mdeg;

verus! {

/// A 2D transformation of a stimulus, kept in device-independent form.
#[derive(Debug, PartialEq, Eq)]
pub enum Transformation2D {
    /// Leaves coordinates unchanged.
    Identity,
    /// Moves by the two lengths.
    Translation(Size, Size),
    /// Rotates by the angle (milli-degrees, counterclockwise) about the
    /// point given by the two lengths.
    RotationPoint(i64, Size, Size),
    /// Scales by micro-unit factors about the origin.
    Scale(i64, i64),
    /// An explicit affine matrix.
    Matrix(Affine),
    /// Applies the right transformation first, then the left.
    Product(Box<Transformation2D>, Box<Transformation2D>),
}

/// The affine matrix of the rotation by `angle` milli-degrees about
/// `(cx, cy)` micro-pixels: translate to the origin, rotate, translate
/// back.
pub open spec fn spec_rotation_about(angle: i64, cx: i64, cy: i64) -> Affine {
    let rot = Affine {
        xx: spec_cos_mdeg(angle) as i64,
        xy: (-spec_sin_mdeg(angle)) as i64,
        yx: spec_sin_mdeg(angle) as i64,
        yy: spec_cos_mdeg(angle) as i64,
        dx: 0,
        dy: 0,
    };
    spec_compose(
        spec_compose(
            Affine { xx: 1_000_000, xy: 0, yx: 0, yy: 1_000_000, dx: cx, dy: cy },
            rot,
        ),
        Affine { xx: 1_000_000, xy: 0, yx: 0, yy: 1_000_000, dx: (-cx) as i64, dy: (-cy) as i64 },
    )
}

/// The matrix product of two affine transforms, in the toolkit's
/// saturating fixed point.
pub open spec fn spec_compose(a: Affine, b: Affine) -> Affine {
    Affine {
        xx: crate::shapes::spec_sat(
            crate::shapes::spec_coeff_mul(a.xx, b.xx) + crate::shapes::spec_coeff_mul(a.xy, b.yx),
        ),
        xy: crate::shapes::spec_sat(
            crate::shapes::spec_coeff_mul(a.xx, b.xy) + crate::shapes::spec_coeff_mul(a.xy, b.yy),
        ),
        yx: crate::shapes::spec_sat(
            crate::shapes::spec_coeff_mul(a.yx, b.xx) + crate::shapes::spec_coeff_mul(a.yy, b.yx),
        ),
        yy: crate::shapes::spec_sat(
            crate::shapes::spec_coeff_mul(a.yx, b.xy) + crate::shapes::spec_coeff_mul(a.yy, b.yy),
        ),
        dx: crate::shapes::spec_apply_x(a, Point { x: b.dx, y: b.dy }),
        dy: crate::shapes::spec_apply_y(a, Point { x: b.dx, y: b.dy }),
    }
}

/// The affine matrix a transformation evaluates to on a given window and
/// screen calibration.
pub open spec fn spec_eval_transform(
    t: Transformation2D,
    win: PixelSize,
    screen: PhysicalScreen,
) -> Affine
    decreases t,
{
    match t {
        Transformation2D::Identity => Affine {
            xx: 1_000_000,
            xy: 0,
            yx: 0,
            yy: 1_000_000,
            dx: 0,
            dy: 0,
        },
        Transformation2D::Translation(x, y) => Affine {
            xx: 1_000_000,
            xy: 0,
            yx: 0,
            yy: 1_000_000,
            dx: spec_eval_size(x, win, screen),
            dy: spec_eval_size(y, win, screen),
        },
        Transformation2D::RotationPoint(angle, x, y) => spec_rotation_about(
            angle,
            spec_eval_size(x, win, screen),
            spec_eval_size(y, win, screen),
        ),
        Transformation2D::Scale(sx, sy) => Affine { xx: sx, xy: 0, yx: 0, yy: sy, dx: 0, dy: 0 },
        Transformation2D::Matrix(m) => m,
        Transformation2D::Product(a, b) => spec_compose(
            spec_eval_transform(*a, win, screen),
            spec_eval_transform(*b, win, screen),
        ),
    }
}

impl Clone for Transformation2D {
    /// Clones produce an equal transformation.
    fn clone(&self) -> (r: Self)
        ensures
            r == *self,
        decreases *self,
    {
        match self {
            Transformation2D::Identity => Transformation2D::Identity,
            Transformation2D::Translation(x, y) => Transformation2D::Translation(*x, *y),
            Transformation2D::RotationPoint(angle, x, y) => Transformation2D::RotationPoint(
                *angle,
                *x,
                *y,
            ),
            Transformation2D::Scale(sx, sy) => Transformation2D::Scale(*sx, *sy),
            Transformation2D::Matrix(m) => Transformation2D::Matrix(*m),
            Transformation2D::Product(a, b) => Transformation2D::Product(
                Box::new((**a).clone()),
                Box::new((**b).clone()),
            ),
        }
    }
}

impl Transformation2D {
    /// The identity transformation.
    pub fn identity() -> (t: Transformation2D)
        ensures
            t == Transformation2D::Identity,
    {
        Transformation2D::Identity
    }

    /// Composes two transformations: the result applies `other` first,
    /// then `self`.
    pub fn after(self, other: Transformation2D) -> (t: Transformation2D)
        ensures
            t == Transformation2D::Product(Box::new(self), Box::new(other)),
    {
        Transformation2D::Product(Box::new(self), Box::new(other))
    }

    /// Evaluates the transformation to a concrete affine matrix for the
    /// given window size and screen calibration.
    pub fn eval(&self, win: PixelSize, screen: PhysicalScreen) -> (m: Affine)
        requires
            screen.pixel_density_upmm <= DENSITY_LIMIT,
            screen.viewing_distance_um <= DISTANCE_LIMIT,
        ensures
            m == spec_eval_transform(*self, win, screen),
        decreases *self,
    {
        match self {
            Transformation2D::Identity => Affine::identity(),
            Transformation2D::Translation(x, y) => Affine::translate(
                x.eval(win, screen),
                y.eval(win, screen),
            ),
            Transformation2D::RotationPoint(angle, x, y) => {
                let cx = x.eval(win, screen);
                let cy = y.eval(win, screen);
                let s = sin_mdeg(*angle);
                let c = cos_mdeg(*angle);
                let rot = Affine::rotation_parts(s, c);
                let to_center = Affine::translate(cx, cy);
                let from_center = Affine::translate(-cx, -cy);
                to_center.compose(&rot).compose(&from_center)
            },
            Transformation2D::Scale(sx, sy) => Affine::scale(*sx, *sy),
            Transformation2D::Matrix(m) => *m,
            Transformation2D::Product(a, b) => {
                let ma = a.eval(win, screen);
                let mb = b.eval(win, screen);
                ma.compose(&mb)
            },
        }
    }
}

} // verus!
