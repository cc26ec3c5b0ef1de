//! Device-independent geometry: pixel sizes, physical-screen calibration and
//! the `Size` unit system.
//!
//! Every length-bearing stimulus parameter is a [`Size`] (pixels, physical
//! millimeters/centimeters/inches, degrees of visual angle, or
//! viewport-relative) and is evaluated to pixels only at draw time, using the
//! window's current pixel size and its [`PhysicalScreen`] calibration. Raw
//! pixel values are never baked into stored stimulus parameters.
//!
//! Fixed-point conventions: lengths evaluate to micro-pixels
//! (`MICRO == 1_000_000` units per pixel); physical lengths are carried in
//! micrometers; dimensionless ratios (viewport fractions, matrix entries)
//! are in micro units as well.

use vstd::prelude::*;

use crate::shapes::spec_sat;
use crate::shapes::AFFINE_SAT;

verus! {

/// Pi scaled by one billion, the precision used for angular sizes.
pub const PI_NANO: u64 = 3_141_592_654;

/// Calibration densities beyond this (a hundred thousand pixels per
/// millimeter, in micro-pixels) are out of range for unit evaluation.
pub const DENSITY_LIMIT: u64 = 100_000_000_000;

/// Viewing distances beyond this (a thousand kilometers, in micrometers)
/// are out of range for unit evaluation.
pub const DISTANCE_LIMIT: u64 = 1_000_000_000_000;

/// Fixed-point scale for ratios and lengths: `MICRO` units are 1.0 (for
/// lengths, one pixel).
pub const MICRO: i64 = 1_000_000;

/// The size of a window or texture in whole pixels.
#[derive(Debug, Clone, Copy, PartialEq, Eq, Structural)]
pub struct PixelSize {
    pub width: u32,
    pub height: u32,
}

impl PixelSize {
    /// Builds a pixel size from a width and a height.
    pub fn new(width: u32, height: u32) -> (s: PixelSize)
        ensures
            s.width == width,
            s.height == height,
    {
        PixelSize { width, height }
    }

    /// The size as a `(width, height)` pair.
    pub fn as_tuple(&self) -> (t: (u32, u32))
        ensures
            t.0 == self.width,
            t.1 == self.height,
    {
        (self.width, self.height)
    }
}

/// Physical properties of the display: pixel density and viewing distance.
///
/// Pure value type; it is recomputed only on an explicit resize with a new
/// physical width. Densities are micro-pixels per millimeter; distances and
/// physical lengths are micrometers.
#[derive(Debug, Clone, Copy, PartialEq, Eq, Structural)]
pub struct PhysicalScreen {
    /// Pixel density of the screen in micro-pixels per millimeter.
    pub pixel_density_upmm: u64,
    /// Viewing distance in micrometers.
    pub viewing_distance_um: u64,
}

/// Pixel density, in micro-pixels per millimeter, of a screen that shows
/// `width_px` pixels over `width_um` micrometers.
pub open spec fn spec_density_upmm(width_px: u32, width_um: u64) -> int {
    width_px * 1_000_000_000 / width_um as int
}

impl PhysicalScreen {
    /// Calibrates a screen from its width in pixels and micrometers.
    pub fn new(width_px: u32, width_um: u64, viewing_distance_um: u64) -> (s: PhysicalScreen)
        requires
            width_um > 0,
        ensures
            s.pixel_density_upmm == spec_density_upmm(width_px, width_um),
            s.viewing_distance_um == viewing_distance_um,
    {
        let density: u64 = (width_px as u64 * 1_000_000_000) / width_um;
        PhysicalScreen { pixel_density_upmm: density, viewing_distance_um }
    }

    /// The physical width, in micrometers, of `width_px` pixels on this
    /// screen.
    pub fn width(&self, width_px: u32) -> (w_um: u64)
        requires
            self.pixel_density_upmm > 0,
        ensures
            w_um == width_px * 1_000_000_000 / self.pixel_density_upmm as int,
    {
        (width_px as u64 * 1_000_000_000) / self.pixel_density_upmm
    }

    /// The physical height, in micrometers, of `height_px` pixels on this
    /// screen.
    pub fn height(&self, height_px: u32) -> (h_um: u64)
        requires
            self.pixel_density_upmm > 0,
        ensures
            h_um == height_px * 1_000_000_000 / self.pixel_density_upmm as int,
    {
        (height_px as u64 * 1_000_000_000) / self.pixel_density_upmm
    }

    /// The physical size of the screen in micrometers, width then height.
    pub fn size(&self, width_px: u32, height_px: u32) -> (s: (u64, u64))
        requires
            self.pixel_density_upmm > 0,
        ensures
            s.0 == width_px * 1_000_000_000 / self.pixel_density_upmm as int,
            s.1 == height_px * 1_000_000_000 / self.pixel_density_upmm as int,
    {
        (self.width(width_px), self.height(height_px))
    }

    /// Recalibrates the pixel density from a new physical width; the viewing
    /// distance is kept.
    pub fn set_pixel_density(&mut self, width_px: u32, width_um: u64)
        requires
            width_um > 0,
        ensures
            final(self).pixel_density_upmm == spec_density_upmm(width_px, width_um),
            final(self).viewing_distance_um == old(self).viewing_distance_um,
    {
        self.pixel_density_upmm = (width_px as u64 * 1_000_000_000) / width_um;
    }
}

/// A device-independent length. Each variant stores micro units of its own
/// unit (`1_000_000` is one pixel, millimeter, centimeter, inch, degree of
/// visual angle, or one full viewport extent).
#[derive(Debug, Clone, Copy, PartialEq, Eq, Structural)]
pub enum Size {
    /// A length in pixels.
    Pixels(i64),
    /// A physical length in millimeters.
    Millimeters(i64),
    /// A physical length in centimeters.
    Centimeters(i64),
    /// A physical length in inches.
    Inches(i64),
    /// An angular size in degrees of visual angle, converted through the
    /// viewing distance (`size = angle_in_radians * distance`).
    Degrees(i64),
    /// A fraction of the window width.
    ScreenWidth(i64),
    /// A fraction of the window height.
    ScreenHeight(i64),
}

/// A length in pixels.
pub fn px(v: i64) -> (s: Size)
    ensures
        s == Size::Pixels(v),
{
    Size::Pixels(v)
}

/// A physical length in millimeters.
pub fn mm(v: i64) -> (s: Size)
    ensures
        s == Size::Millimeters(v),
{
    Size::Millimeters(v)
}

/// A physical length in centimeters.
pub fn cm(v: i64) -> (s: Size)
    ensures
        s == Size::Centimeters(v),
{
    Size::Centimeters(v)
}

/// A physical length in inches.
pub fn inches(v: i64) -> (s: Size)
    ensures
        s == Size::Inches(v),
{
    Size::Inches(v)
}

/// An angular size in degrees of visual angle.
pub fn deg(v: i64) -> (s: Size)
    ensures
        s == Size::Degrees(v),
{
    Size::Degrees(v)
}

/// A fraction of the window width.
pub fn vw(v: i64) -> (s: Size)
    ensures
        s == Size::ScreenWidth(v),
{
    Size::ScreenWidth(v)
}

/// A fraction of the window height.
pub fn vh(v: i64) -> (s: Size)
    ensures
        s == Size::ScreenHeight(v),
{
    Size::ScreenHeight(v)
}

/// A user-facing shape whose coordinates are device-independent lengths,
/// evaluated to pixels only at draw time.
#[derive(Debug, Clone, PartialEq, Eq)]
pub enum Shape {
    /// A circle of the given radius around `(x, y)`.
    Circle { x: Size, y: Size, radius: Size },
    /// An axis-aligned rectangle with top-left corner `(x, y)`.
    Rectangle { x: Size, y: Size, width: Size, height: Size },
    /// An axis-aligned ellipse around `(x, y)`.
    Ellipse { x: Size, y: Size, radius_x: Size, radius_y: Size },
    /// A line segment.
    Line { x1: Size, y1: Size, x2: Size, y2: Size },
    /// A closed polygon.
    Polygon { points: Vec<(Size, Size)> },
    /// An open polyline.
    Path { points: Vec<(Size, Size)> },
}

impl Shape {
    /// A circle of the given radius around `(x, y)`.
    pub fn circle(x: Size, y: Size, radius: Size) -> (s: Shape)
        ensures
            s == (Shape::Circle { x, y, radius }),
    {
        Shape::Circle { x, y, radius }
    }

    /// An axis-aligned rectangle with top-left corner `(x, y)`.
    pub fn rectangle(x: Size, y: Size, width: Size, height: Size) -> (s: Shape)
        ensures
            s == (Shape::Rectangle { x, y, width, height }),
    {
        Shape::Rectangle { x, y, width, height }
    }

    /// An axis-aligned ellipse around `(x, y)`.
    pub fn ellipse(x: Size, y: Size, radius_x: Size, radius_y: Size) -> (s: Shape)
        ensures
            s == (Shape::Ellipse { x, y, radius_x, radius_y }),
    {
        Shape::Ellipse { x, y, radius_x, radius_y }
    }

    /// A line segment.
    pub fn line(x1: Size, y1: Size, x2: Size, y2: Size) -> (s: Shape)
        ensures
            s == (Shape::Line { x1, y1, x2, y2 }),
    {
        Shape::Line { x1, y1, x2, y2 }
    }

    /// A closed polygon.
    pub fn polygon(points: Vec<(Size, Size)>) -> (s: Shape)
        ensures
            s == (Shape::Polygon { points }),
    {
        Shape::Polygon { points }
    }

    /// An open polyline.
    pub fn path(points: Vec<(Size, Size)>) -> (s: Shape)
        ensures
            s == (Shape::Path { points }),
    {
        Shape::Path { points }
    }
}

/// `v * num / den`, truncated toward zero and clamped to the affine
/// saturation bound.
pub open spec fn spec_muldiv_sat(v: i64, num: u64, den: u64) -> i64 {
    let mag = (spec_abs_i64(v) * num) / (den as int);
    if v < 0 {
        spec_sat(-mag)
    } else {
        spec_sat(mag)
    }
}

/// The absolute value of `v`.
pub open spec fn spec_abs_i64(v: i64) -> int {
    if v >= 0 {
        v as int
    } else {
        -(v as int)
    }
}

/// `v * num / den`, truncated toward zero and clamped.
fn muldiv_sat(v: i64, num: u64, den: u64) -> (r: i64)
    requires
        den > 0,
    ensures
        r == spec_muldiv_sat(v, num, den),
        -AFFINE_SAT <= r <= AFFINE_SAT,
{
    let va: u128 = if v < 0 {
        (-(v as i128)) as u128
    } else {
        v as u128
    };
    proof {
        assert(va * num <= 0x1_0000_0000_0000_0000u128 * 0xffff_ffff_ffff_ffffu64) by (
        nonlinear_arith)
            requires
                va <= 0x1_0000_0000_0000_0000u128,
                num <= 0xffff_ffff_ffff_ffffu64,
        ;
    }
    let mag: u128 = (va * num as u128) / (den as u128);
    let capped: i64 = if mag > AFFINE_SAT as u128 {
        AFFINE_SAT
    } else {
        mag as i64
    };
    if v < 0 {
        -capped
    } else {
        capped
    }
}

/// What a [`Size`] evaluates to in micro-pixels on a given window and
/// screen calibration.
pub open spec fn spec_eval_size(s: Size, win: PixelSize, screen: PhysicalScreen) -> i64 {
    match s {
        Size::Pixels(v) => spec_sat(v as int),
        Size::Millimeters(v) => spec_muldiv_sat(v, screen.pixel_density_upmm, 1_000_000),
        Size::Centimeters(v) => spec_muldiv_sat(v, screen.pixel_density_upmm, 100_000),
        Size::Inches(v) => spec_muldiv_sat(
            spec_muldiv_sat(v, 254, 10),
            screen.pixel_density_upmm,
            1_000_000,
        ),
        Size::Degrees(v) => spec_eval_degrees(v, win, screen),
        Size::ScreenWidth(v) => spec_muldiv_sat(v, win.width as u64, 1),
        Size::ScreenHeight(v) => spec_muldiv_sat(v, win.height as u64, 1),
    }
}

/// Micro-pixels subtended by `v` micro-degrees of visual angle: the angle
/// in micro-radians, times the viewing distance, times the pixel density.
pub open spec fn spec_eval_degrees(v: i64, win: PixelSize, screen: PhysicalScreen) -> i64 {
    let urad = (spec_abs_i64(v) * PI_NANO) / 180_000_000_000;
    let arc = (urad * screen.viewing_distance_um) / 1_000;
    let mag = (arc * screen.pixel_density_upmm) / 1_000_000;
    if v < 0 {
        spec_sat(-mag)
    } else {
        spec_sat(mag)
    }
}

impl Size {
    /// Evaluates this length to micro-pixels using the window's current
    /// pixel size and physical-screen calibration.
    pub fn eval(&self, win: PixelSize, screen: PhysicalScreen) -> (r: i64)
        requires
            screen.pixel_density_upmm <= DENSITY_LIMIT,
            screen.viewing_distance_um <= DISTANCE_LIMIT,
        ensures
            r == spec_eval_size(*self, win, screen),
            -AFFINE_SAT <= r <= AFFINE_SAT,
    {
        match self {
            Size::Pixels(v) => if *v > AFFINE_SAT {
                AFFINE_SAT
            } else if *v < -AFFINE_SAT {
                -AFFINE_SAT
            } else {
                *v
            },
            Size::Millimeters(v) => muldiv_sat(*v, screen.pixel_density_upmm, 1_000_000),
            Size::Centimeters(v) => muldiv_sat(*v, screen.pixel_density_upmm, 100_000),
            Size::Inches(v) => muldiv_sat(
                muldiv_sat(*v, 254, 10),
                screen.pixel_density_upmm,
                1_000_000,
            ),
            Size::Degrees(v) => eval_degrees(*v, win, screen),
            Size::ScreenWidth(v) => muldiv_sat(*v, win.width as u64, 1),
            Size::ScreenHeight(v) => muldiv_sat(*v, win.height as u64, 1),
        }
    }
}

/// Micro-pixels subtended by `v` micro-degrees of visual angle.
fn eval_degrees(v: i64, win: PixelSize, screen: PhysicalScreen) -> (r: i64)
    requires
        screen.pixel_density_upmm <= DENSITY_LIMIT,
        screen.viewing_distance_um <= DISTANCE_LIMIT,
    ensures
        r == spec_eval_degrees(v, win, screen),
        -AFFINE_SAT <= r <= AFFINE_SAT,
{
    let va: u128 = if v < 0 {
        (-(v as i128)) as u128
    } else {
        v as u128
    };
    proof {
        assert(va * PI_NANO <= 0x1_0000_0000_0000_0000u128 * 3_141_592_654u64) by (nonlinear_arith)
            requires
                va <= 0x1_0000_0000_0000_0000u128,
        ;
    }
    let urad: u128 = (va * PI_NANO as u128) / 180_000_000_000;
    proof {
        vstd::arithmetic::div_mod::lemma_div_is_ordered(
            va * PI_NANO as int,
            0x1_0000_0000_0000_0000u128 as int * 3_141_592_654u64 as int,
            180_000_000_000,
        );
        assert(urad * screen.viewing_distance_um <= 321_956_420_401_022_010u128
            * 1_000_000_000_000u128) by (nonlinear_arith)
            requires
                urad <= 321_956_420_401_022_010u128,
                screen.viewing_distance_um <= 1_000_000_000_000u64,
        ;
    }
    let arc: u128 = (urad * screen.viewing_distance_um as u128) / 1_000;
    proof {
        vstd::arithmetic::div_mod::lemma_div_is_ordered(
            urad * screen.viewing_distance_um as int,
            321_956_420_401_022_010u128 as int * 1_000_000_000_000u128 as int,
            1_000,
        );
        assert(arc * screen.pixel_density_upmm <= 321_956_420_401_022_010u128 * 1_000_000_000u128
            * 100_000_000_000u128) by (nonlinear_arith)
            requires
                arc <= 321_956_420_401_022_010u128 * 1_000_000_000u128,
                screen.pixel_density_upmm <= 100_000_000_000u64,
        ;
    }
    let mag: u128 = (arc * screen.pixel_density_upmm as u128) / 1_000_000;
    let capped: i64 = if mag > AFFINE_SAT as u128 {
        AFFINE_SAT
    } else {
        mag as i64
    };
    if v < 0 {
        -capped
    } else {
        capped
    }
}

} // verus!
