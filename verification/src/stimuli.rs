//! Stimuli: the drawable objects of a frame.
//!
//! Every stimulus exposes one uniform contract — an identity, a visibility
//! toggle, animations, a transformation, parameter access by name, a
//! hit-test, and `draw`, which appends the stimulus's draw commands to a
//! scene. The presentation loop never special-cases a stimulus kind; the
//! closed set of kinds lives in [`DynamicStimulus`].
//!
//! What `draw` appends is pinned down by `matches_commands` predicates:
//! a stimulus appends exactly its own command run, and a hidden stimulus
//! appends nothing.

use vstd::prelude::*;

use crate::bitmaps::fresh_id;
use crate::bitmaps::DynamicBitmap;
use crate::color::ColorSpace;
use crate::color::LinRgba;
use crate::color::RGBA;
use crate::geometry::spec_eval_size;
use crate::geometry::PhysicalScreen;
use crate::geometry::PixelSize;
use crate::geometry::Shape;
use crate::geometry::Size;
use crate::geometry::DENSITY_LIMIT;
use crate::geometry::DISTANCE_LIMIT;
use crate::scene::Brush;
use crate::scene::DrawCommand;
use crate::scene::EdgeModes;
use crate::scene::Extend;
use crate::scene::ImageFitMode;
use crate::scene::ImageSampling;
use crate::scene::Scene;
use crate::scene::StrokeStyle;
use crate::shapes::spec_apply_x;
use crate::shapes::spec_apply_y;
use crate::shapes::spec_sat;
use crate::shapes::Affine;
use crate::shapes::Point;
use crate::shapes::AFFINE_SAT;
use crate::transform::spec_eval_transform;
use crate::transform::Transformation2D;

verus! {

/// The fill of a pattern stimulus.
#[derive(Debug, Clone, Copy, PartialEq, Eq, Structural)]
pub enum FillPattern {
    /// A uniform fill color.
    Uniform,
    /// Alternating one-pixel stripes of fill and background color.
    Stripes,
    /// A sinusoidal blend of fill and background color.
    Sinosoidal,
    /// A two-by-two checkerboard of fill and background color.
    Checkerboard,
}

/// Names of the parameters a stimulus exposes for get/set access and for
/// animation.
#[derive(Debug, Clone, Copy, PartialEq, Eq, Structural)]
pub enum ParamName {
    X,
    Y,
    Width,
    Height,
    Rotation,
    Opacity,
    ImageX,
    ImageY,
    PhaseX,
    PhaseY,
    PatternSize,
    PatternRotation,
    StrokeWidth,
    Alpha,
    FillColor,
    BackgroundColor,
    StrokeColor,
}

/// A parameter value: a length, a plain micro-unit number, or a color.
#[derive(Debug, Clone, Copy, PartialEq, Eq, Structural)]
pub enum StimulusParamValue {
    Size(Size),
    Num(i64),
    Color(LinRgba),
}

/// A linear animation of one numeric parameter over wall-clock time
/// (microseconds).
#[derive(Debug, Clone, Copy, PartialEq, Eq, Structural)]
pub struct Animation {
    /// The parameter the animation drives.
    pub param: ParamName,
    /// The value at the start, in micro units.
    pub from_value: i64,
    /// The value at the end, in micro units.
    pub to_value: i64,
    /// When the animation starts, in microseconds.
    pub start_us: u64,
    /// How long it runs, in microseconds.
    pub duration_us: u64,
}

/// Animation endpoints stay within the saturation bound, so interpolation
/// cannot overflow.
pub open spec fn animation_wf(a: Animation) -> bool {
    &&& -AFFINE_SAT <= a.from_value <= AFFINE_SAT
    &&& -AFFINE_SAT <= a.to_value <= AFFINE_SAT
}

/// The value of an animation at time `now`: its start value before it
/// begins, its end value after it completes, and the linear interpolation
/// in between (truncated toward zero).
pub open spec fn spec_animation_value(a: Animation, now_us: u64) -> i64 {
    if now_us <= a.start_us {
        a.from_value
    } else if now_us >= a.start_us + a.duration_us || a.duration_us == 0 {
        a.to_value
    } else {
        let elapsed = now_us - a.start_us;
        let diff = a.to_value - a.from_value;
        (a.from_value + spec_div_trunc(diff * elapsed, a.duration_us as int)) as i64
    }
}

/// Integer division truncated toward zero.
pub open spec fn spec_div_trunc(num: int, den: int) -> int {
    if num >= 0 {
        num / den
    } else {
        -((-num) / den)
    }
}

/// The value of an animation at time `now`.
pub fn animation_value(a: &Animation, now_us: u64) -> (v: i64)
    requires
        animation_wf(*a),
    ensures
        v == spec_animation_value(*a, now_us),
        -AFFINE_SAT <= v <= AFFINE_SAT,
{
    if now_us <= a.start_us {
        a.from_value
    } else if now_us - a.start_us >= a.duration_us || a.duration_us == 0 {
        a.to_value
    } else {
        let elapsed: u64 = now_us - a.start_us;
        let diff: i128 = a.to_value as i128 - a.from_value as i128;
        let mag: u128 = if diff < 0 {
            (-diff) as u128
        } else {
            diff as u128
        };
        proof {
            assert(mag * elapsed <= 2_000_000_000_000_000u128 * 0xffff_ffff_ffff_ffffu64) by (
            nonlinear_arith)
                requires
                    mag <= 2_000_000_000_000_000u128,
                    elapsed <= 0xffff_ffff_ffff_ffffu64,
            ;
            vstd::arithmetic::div_mod::lemma_div_is_ordered(
                mag * elapsed,
                2_000_000_000_000_000u128 * 0xffff_ffff_ffff_ffffu64,
                a.duration_us as int,
            );
            assert((mag * elapsed) / (a.duration_us as int) <= mag) by (nonlinear_arith)
                requires
                    elapsed < a.duration_us,
                    0 < a.duration_us,
                    0 <= mag,
            ;
        }
        let q: u128 = (mag * elapsed as u128) / (a.duration_us as u128);
        proof {
            if diff < 0 {
                vstd::arithmetic::mul::lemma_mul_unary_negation(
                    diff as int,
                    elapsed as int,
                );
            }
        }
        let step: i64 = if diff < 0 {
            -(q as i128) as i64
        } else {
            q as i64
        };
        a.from_value + step
    }
}

/// Truncated-toward-zero remainder of a micro-degree phase within a full
/// turn.
pub open spec fn spec_phase_rem(phase: i64) -> int {
    spec_div_rem_trunc(phase as int, 360_000_000)
}

/// Truncated-toward-zero remainder.
pub open spec fn spec_div_rem_trunc(num: int, den: int) -> int {
    if num >= 0 {
        num % den
    } else {
        -((-num) % den)
    }
}

/// How far a micro-degree phase shifts a pattern of the given micro-pixel
/// period: `(phase % 360) / 360` of the period, truncated toward zero.
pub open spec fn spec_phase_shift(phase: i64, period: i64) -> i64 {
    let rem = spec_phase_rem(phase);
    let num = rem * period;
    spec_sat(spec_div_trunc(num, 360_000_000))
}

/// How far a micro-degree phase shifts a pattern of the given period.
fn phase_shift(phase: i64, period: i64) -> (r: i64)
    requires
        -AFFINE_SAT <= period <= AFFINE_SAT,
    ensures
        r == spec_phase_shift(phase, period),
        -AFFINE_SAT <= r <= AFFINE_SAT,
{
    let pmag: u64 = if phase < 0 {
        (-(phase as i128)) as u64
    } else {
        phase as u64
    };
    let rmag: u64 = pmag % 360_000_000;
    let permag: u64 = if period < 0 {
        (-period) as u64
    } else {
        period as u64
    };
    proof {
        assert(rmag * permag <= 360_000_000u64 * 1_000_000_000_000_000u64) by (nonlinear_arith)
            requires
                rmag < 360_000_000u64,
                permag <= 1_000_000_000_000_000u64,
        ;
    }
    let nmag: u128 = (rmag as u128) * (permag as u128);
    let qmag: u128 = nmag / 360_000_000;
    proof {
        vstd::arithmetic::div_mod::lemma_div_is_ordered(
            nmag as int,
            360_000_000u64 as int * 1_000_000_000_000_000u64 as int,
            360_000_000,
        );
    }
    proof {
        let remi = spec_phase_rem(phase);
        let num = remi * period;
        vstd::arithmetic::mul::lemma_mul_unary_negation(remi, period as int);
        vstd::arithmetic::mul::lemma_mul_unary_negation(rmag as int, period as int);
        assert(rmag == if phase < 0 {
            -remi
        } else {
            remi
        });
        assert(num == if (phase < 0) != (period < 0) {
            -((rmag as int) * (permag as int))
        } else {
            (rmag as int) * (permag as int)
        }) by (nonlinear_arith)
            requires
                rmag == (if phase < 0 {
                    -remi
                } else {
                    remi
                }),
                permag == (if period < 0 {
                    -(period as int)
                } else {
                    period as int
                }),
                num == remi * period,
                rmag >= 0,
                permag >= 0,
        ;
    }
    let q: i64 = qmag as i64;
    if (phase < 0) != (period < 0) {
        -q
    } else {
        q
    }
}

/// Where an anchored box's top-left corner lands: `(x, y)` is interpreted
/// as the anchor point of a `w` by `h` box.
#[derive(Debug, Clone, Copy, PartialEq, Eq, Structural)]
pub enum Anchor {
    Center,
    TopLeft,
    TopRight,
    BottomLeft,
    BottomRight,
}

/// Half of `v`, truncated toward zero.
pub open spec fn spec_half(v: i64) -> int {
    spec_div_trunc(v as int, 2)
}

/// Half of `v`, truncated toward zero.
fn half(v: i64) -> (r: i64)
    ensures
        r == spec_half(v),
{
    let mag: u64 = if v < 0 {
        (-(v as i128)) as u64
    } else {
        v as u64
    };
    let h = mag / 2;
    if v < 0 {
        -(h as i128) as i64
    } else {
        h as i64
    }
}

/// The top-left corner of a `w` by `h` box anchored at `(x, y)`.
pub open spec fn spec_anchor_top_left(a: Anchor, x: i64, y: i64, w: i64, h: i64) -> (int, int) {
    match a {
        Anchor::Center => (x - spec_half(w), y - spec_half(h)),
        Anchor::TopLeft => (x as int, y as int),
        Anchor::TopRight => (x - w, y as int),
        Anchor::BottomLeft => (x as int, y - h),
        Anchor::BottomRight => (x - w, y - h),
    }
}

impl Anchor {
    /// The top-left corner of a `w` by `h` box anchored at `(x, y)`.
    pub fn to_top_left(&self, x: i64, y: i64, w: i64, h: i64) -> (r: (i64, i64))
        requires
            -AFFINE_SAT <= x <= AFFINE_SAT,
            -AFFINE_SAT <= y <= AFFINE_SAT,
            -AFFINE_SAT <= w <= AFFINE_SAT,
            -AFFINE_SAT <= h <= AFFINE_SAT,
        ensures
            r.0 == spec_anchor_top_left(*self, x, y, w, h).0,
            r.1 == spec_anchor_top_left(*self, x, y, w, h).1,
    {
        match self {
            Anchor::Center => (x - half(w), y - half(h)),
            Anchor::TopLeft => (x, y),
            Anchor::TopRight => (x - w, y),
            Anchor::BottomLeft => (x, y - h),
            Anchor::BottomRight => (x - w, y - h),
        }
    }
}

/// A linear color as the backend color type, tagged linear.
pub open spec fn spec_lin_to_rgba(c: LinRgba) -> RGBA {
    RGBA { r: c.r, g: c.g, b: c.b, a: c.a, encoding: crate::color::ColorEncoding::Linear }
}

/// A linear color as the backend color type, tagged linear.
pub fn lin_to_rgba(c: LinRgba) -> (r: RGBA)
    ensures
        r == spec_lin_to_rgba(c),
{
    RGBA::new_linear(c.r, c.g, c.b, c.a)
}

/// The parameters of a pattern stimulus.
#[derive(Debug, Clone, PartialEq, Eq)]
pub struct PatternParams {
    /// The shape to display.
    pub shape: Shape,
    /// The x coordinate of the stimulus origin.
    pub x: Size,
    /// The y coordinate of the stimulus origin.
    pub y: Size,
    /// The horizontal pattern phase in micro-degrees.
    pub phase_x: i64,
    /// The vertical pattern phase in micro-degrees.
    pub phase_y: i64,
    /// The pattern period.
    pub pattern_size: Size,
    /// The fill (foreground) color.
    pub fill_color: LinRgba,
    /// The background color of the pattern.
    pub background_color: LinRgba,
    /// The pattern rotation in milli-degrees.
    pub pattern_rotation: i64,
    /// The stroke style.
    pub stroke_style: StrokeStyle,
    /// The stroke color.
    pub stroke_color: LinRgba,
    /// The stroke width.
    pub stroke_width: Size,
    /// An optional alpha override in micro units.
    pub alpha: Option<i64>,
}

/// A stimulus that displays a shape, filled uniformly or with a repeating
/// pattern built from its fill and background colors.
#[derive(Debug)]
pub struct PatternStimulus {
    /// The stimulus identity.
    pub id: u128,
    /// Its parameters.
    pub params: PatternParams,
    /// The fill pattern kind.
    pub fill_pattern: FillPattern,
    /// The bitmap handle of the pattern tile, for patterned fills.
    pub pattern_image: Option<DynamicBitmap>,
    /// The linear pixel data of the pattern tile (RGBA micro units,
    /// row-major), for the embedding to upload.
    pub pattern_data: Vec<i64>,
    /// The stimulus transformation.
    pub transform: Transformation2D,
    /// Its animations, in registration order.
    pub animations: Vec<Animation>,
    /// Whether the stimulus is drawn.
    pub visible: bool,
}

/// The linear RGBA pixel data of a pattern tile, in micro units: a 2x1
/// fill/background pair for stripes, a 2x2 fill/background checkerboard,
/// and nothing for a uniform fill.
pub open spec fn spec_pattern_pixel_data(fill: LinRgba, bg: LinRgba, p: FillPattern) -> Seq<i64> {
    match p {
        FillPattern::Stripes => seq![fill.r, fill.g, fill.b, fill.a, bg.r, bg.g, bg.b, bg.a],
        FillPattern::Checkerboard => seq![
            fill.r,
            fill.g,
            fill.b,
            fill.a,
            bg.r,
            bg.g,
            bg.b,
            bg.a,
            bg.r,
            bg.g,
            bg.b,
            bg.a,
            fill.r,
            fill.g,
            fill.b,
            fill.a,
        ],
        _ => Seq::empty(),
    }
}

/// Builds the pattern tile pixel data for a fill pattern.
pub fn pattern_pixel_data(fill: LinRgba, bg: LinRgba, p: FillPattern) -> (r: Vec<i64>)
    ensures
        r@ == spec_pattern_pixel_data(fill, bg, p),
{
    match p {
        FillPattern::Stripes => {
            let v = vec![fill.r, fill.g, fill.b, fill.a, bg.r, bg.g, bg.b, bg.a];
            proof {
                assert(v@ =~= spec_pattern_pixel_data(fill, bg, p));
            }
            v
        },
        FillPattern::Checkerboard => {
            let v = vec![
                fill.r,
                fill.g,
                fill.b,
                fill.a,
                bg.r,
                bg.g,
                bg.b,
                bg.a,
                bg.r,
                bg.g,
                bg.b,
                bg.a,
                fill.r,
                fill.g,
                fill.b,
                fill.a,
            ];
            proof {
                assert(v@ =~= spec_pattern_pixel_data(fill, bg, p));
            }
            v
        },
        _ => {
            let v = Vec::new();
            proof {
                assert(v@ =~= spec_pattern_pixel_data(fill, bg, p));
            }
            v
        },
    }
}

/// The rotation matrix of a pattern, about the origin.
pub open spec fn spec_rotation_affine(angle_mdeg: i64) -> Affine {
    Affine {
        xx: crate::trig::spec_cos_mdeg(angle_mdeg) as i64,
        xy: (-crate::trig::spec_sin_mdeg(angle_mdeg)) as i64,
        yx: crate::trig::spec_sin_mdeg(angle_mdeg) as i64,
        yy: crate::trig::spec_cos_mdeg(angle_mdeg) as i64,
        dx: 0,
        dy: 0,
    }
}

/// The brush a pattern stimulus fills with: its fill color for a uniform
/// fill, and a repeating image brush over its pattern tile otherwise,
/// shifted by the phases and rotated by the pattern rotation.
pub open spec fn spec_pattern_fill_brush(
    s: PatternStimulus,
    win: PixelSize,
    screen: PhysicalScreen,
) -> Brush {
    if s.fill_pattern == FillPattern::Uniform {
        Brush::Solid(spec_lin_to_rgba(s.params.fill_color))
    } else {
        let xo = spec_eval_size(s.params.x, win, screen);
        let yo = spec_eval_size(s.params.y, win, screen);
        let psize = spec_eval_size(s.params.pattern_size, win, screen);
        Brush::Image {
            image: s.pattern_image->0,
            start: Point {
                x: (xo + spec_phase_shift(s.params.phase_x, psize)) as i64,
                y: (yo + spec_phase_shift(s.params.phase_y, psize)) as i64,
            },
            fit_mode: ImageFitMode::Exact { width: psize, height: psize },
            sampling: ImageSampling::Nearest,
            edge_mode: EdgeModes { horizontal: Extend::Repeat, vertical: Extend::Repeat },
            transform: Some(spec_rotation_affine(s.params.pattern_rotation)),
            alpha: s.params.alpha,
        }
    }
}

/// The stroke brush of a pattern stimulus: its solid stroke color.
pub open spec fn spec_pattern_stroke_brush(s: PatternStimulus) -> Brush {
    Brush::Solid(spec_lin_to_rgba(s.params.stroke_color))
}

/// The stroke style of a pattern stimulus: its evaluated stroke width.
pub open spec fn spec_pattern_stroke_style(
    s: PatternStimulus,
    win: PixelSize,
    screen: PhysicalScreen,
) -> StrokeStyle {
    StrokeStyle { width: spec_eval_size(s.params.stroke_width, win, screen) }
}

/// The points of a polygon or path, evaluated to micro-pixels and moved by
/// the stimulus origin.
pub open spec fn spec_offset_points(
    pts: Seq<(Size, Size)>,
    xo: i64,
    yo: i64,
    win: PixelSize,
    screen: PhysicalScreen,
) -> Seq<Point> {
    pts.map_values(
        |p: (Size, Size)|
            Point {
                x: (spec_eval_size(p.0, win, screen) + xo) as i64,
                y: (spec_eval_size(p.1, win, screen) + yo) as i64,
            },
    )
}

/// How many commands a visible pattern stimulus draws: a stroke for a
/// line, a fill then a stroke for everything else.
pub open spec fn spec_pattern_cmd_count(s: PatternStimulus) -> int {
    match s.params.shape {
        Shape::Line { .. } => 1,
        _ => 2,
    }
}

/// `cmds` is exactly what this pattern stimulus draws: the evaluated shape
/// filled with the pattern brush and stroked with the stroke brush (stroke
/// only for a line), in that order, with no transform and default
/// blending.
pub open spec fn pattern_commands_match(
    s: PatternStimulus,
    win: PixelSize,
    screen: PhysicalScreen,
    cmds: Seq<DrawCommand>,
) -> bool {
    let xo = spec_eval_size(s.params.x, win, screen);
    let yo = spec_eval_size(s.params.y, win, screen);
    let fill = spec_pattern_fill_brush(s, win, screen);
    let sbrush = spec_pattern_stroke_brush(s);
    let sstyle = spec_pattern_stroke_style(s, win, screen);
    match s.params.shape {
        Shape::Circle { x, y, radius } => {
            let c = Point {
                x: (spec_eval_size(x, win, screen) + xo) as i64,
                y: (spec_eval_size(y, win, screen) + yo) as i64,
            };
            let sh = crate::shapes::Shape::Circle {
                center: c,
                radius: spec_eval_size(radius, win, screen),
            };
            cmds =~= seq![
                DrawCommand::FillShape { shape: sh, brush: fill, transform: None, blend_mode: None },
                DrawCommand::StrokeShape {
                    shape: sh,
                    brush: sbrush,
                    style: sstyle,
                    transform: None,
                    blend_mode: None,
                },
            ]
        },
        Shape::Rectangle { x, y, width, height } => {
            let a = Point {
                x: (spec_eval_size(x, win, screen) + xo) as i64,
                y: (spec_eval_size(y, win, screen) + yo) as i64,
            };
            let sh = crate::shapes::Shape::Rectangle {
                a,
                w: spec_eval_size(width, win, screen),
                h: spec_eval_size(height, win, screen),
            };
            cmds =~= seq![
                DrawCommand::FillShape { shape: sh, brush: fill, transform: None, blend_mode: None },
                DrawCommand::StrokeShape {
                    shape: sh,
                    brush: sbrush,
                    style: sstyle,
                    transform: None,
                    blend_mode: None,
                },
            ]
        },
        Shape::Line { x1, y1, x2, y2 } => {
            let p1 = Point {
                x: (spec_eval_size(x1, win, screen) + xo) as i64,
                y: (spec_eval_size(y1, win, screen) + yo) as i64,
            };
            let p2 = Point {
                x: (spec_eval_size(x2, win, screen) + xo) as i64,
                y: (spec_eval_size(y2, win, screen) + yo) as i64,
            };
            let sh = crate::shapes::Shape::Line { start: p1, end: p2 };
            cmds =~= seq![
                DrawCommand::StrokeShape {
                    shape: sh,
                    brush: sbrush,
                    style: sstyle,
                    transform: None,
                    blend_mode: None,
                },
            ]
        },
        Shape::Polygon { points } => {
            let expected = spec_offset_points(points@, xo, yo, win, screen);
            &&& cmds.len() == 2
            &&& (cmds[0] matches DrawCommand::FillShape {
                shape: crate::shapes::Shape::Polygon { points: pv },
                brush: b,
                transform: t,
                blend_mode: bm,
            } && pv@ == expected && b == fill && t is None && bm is None)
            &&& (cmds[1] matches DrawCommand::StrokeShape {
                shape: crate::shapes::Shape::Polygon { points: pv },
                brush: b,
                style: st,
                transform: t,
                blend_mode: bm,
            } && pv@ == expected && b == sbrush && st == sstyle && t is None && bm is None)
        },
        Shape::Path { points } => {
            let expected = spec_offset_points(points@, xo, yo, win, screen);
            &&& cmds.len() == 2
            &&& (cmds[0] matches DrawCommand::FillShape {
                shape: crate::shapes::Shape::Path { points: pv },
                brush: b,
                transform: t,
                blend_mode: bm,
            } && pv@ == expected && b == fill && t is None && bm is None)
            &&& (cmds[1] matches DrawCommand::StrokeShape {
                shape: crate::shapes::Shape::Path { points: pv },
                brush: b,
                style: st,
                transform: t,
                blend_mode: bm,
            } && pv@ == expected && b == sbrush && st == sstyle && t is None && bm is None)
        },
        Shape::Ellipse { .. } => false,
    }
}

impl PatternStimulus {
    /// A patterned fill has a pattern tile; a uniform fill has none; and
    /// animations stay within the interpolation bound.
    pub open spec fn wf(&self) -> bool {
        &&& ((self.fill_pattern == FillPattern::Stripes || self.fill_pattern
            == FillPattern::Checkerboard) <==> self.pattern_image is Some)
        &&& forall|i: int|
            0 <= i < self.animations@.len() ==> animation_wf(#[trigger] self.animations@[i])
    }

    /// The stimulus can be drawn: sinusoidal fills and ellipse outlines
    /// are not yet renderable.
    pub open spec fn drawable(&self) -> bool {
        &&& self.fill_pattern != FillPattern::Sinosoidal
        &&& !(self.params.shape is Ellipse)
    }

    /// Builds a pattern stimulus. For a striped fill the pattern tile is a
    /// two-by-one image of the fill and background colors; for a
    /// checkerboard it is the two-by-two alternation; a uniform fill needs
    /// no tile. Sinusoidal fills are not yet renderable.
    pub fn new(
        shape: Shape,
        x: Size,
        y: Size,
        phase_x: i64,
        phase_y: i64,
        pattern_size: Size,
        fill_color: LinRgba,
        background_color: LinRgba,
        pattern: FillPattern,
        pattern_rotation: i64,
        stroke_style: StrokeStyle,
        stroke_color: LinRgba,
        stroke_width: Size,
        alpha: Option<i64>,
        transform: Transformation2D,
    ) -> (s: PatternStimulus)
        requires
            pattern != FillPattern::Sinosoidal,
        ensures
            s.params == (PatternParams {
                shape,
                x,
                y,
                phase_x,
                phase_y,
                pattern_size,
                fill_color,
                background_color,
                pattern_rotation,
                stroke_style,
                stroke_color,
                stroke_width,
                alpha,
            }),
            s.fill_pattern == pattern,
            s.transform == transform,
            s.visible == true,
            s.animations@.len() == 0,
            s.wf(),
            s.pattern_data@ == spec_pattern_pixel_data(fill_color, background_color, pattern),
            pattern == FillPattern::Stripes ==> (s.pattern_image matches Some(b) && b
                matches DynamicBitmap::Raster(rb) && rb.width == 2 && rb.height == 1
                && rb.color_space == ColorSpace::LinearSrgb),
            pattern == FillPattern::Checkerboard ==> (s.pattern_image matches Some(b) && b
                matches DynamicBitmap::Raster(rb) && rb.width == 2 && rb.height == 2
                && rb.color_space == ColorSpace::LinearSrgb),
    {
        let pattern_data = pattern_pixel_data(fill_color, background_color, pattern);
        let pattern_image = match pattern {
            FillPattern::Uniform => None,
            FillPattern::Stripes => Some(DynamicBitmap::new_raster(2, 1, ColorSpace::LinearSrgb)),
            FillPattern::Checkerboard => Some(
                DynamicBitmap::new_raster(2, 2, ColorSpace::LinearSrgb),
            ),
            FillPattern::Sinosoidal => None,
        };
        PatternStimulus {
            id: fresh_id(),
            params: PatternParams {
                shape,
                x,
                y,
                phase_x,
                phase_y,
                pattern_size,
                fill_color,
                background_color,
                pattern_rotation,
                stroke_style,
                stroke_color,
                stroke_width,
                alpha,
            },
            fill_pattern: pattern,
            pattern_image,
            pattern_data,
            transform,
            animations: Vec::new(),
            visible: true,
        }
    }

    /// Appends this stimulus's draw commands to the scene: nothing when
    /// hidden, otherwise exactly its fill and stroke (stroke only for a
    /// line), leaving everything already recorded, the scene's layers and
    /// its background untouched.
    pub fn draw(&self, scene: &mut Scene, win: PixelSize, screen: PhysicalScreen)
        requires
            old(scene).wf(),
            self.wf(),
            self.drawable(),
            screen.pixel_density_upmm <= DENSITY_LIMIT,
            screen.viewing_distance_um <= DISTANCE_LIMIT,
        ensures
            final(scene).wf(),
            final(scene).width == old(scene).width,
            final(scene).height == old(scene).height,
            final(scene).bg_color == old(scene).bg_color,
            final(scene).open_layers == old(scene).open_layers,
            !self.visible ==> final(scene).commands@ == old(scene).commands@,
            self.visible ==> final(scene).commands@.len() == old(scene).commands@.len()
                + spec_pattern_cmd_count(*self),
            self.visible ==> final(scene).commands@.take(old(scene).commands@.len() as int) == old(
                scene,
            ).commands@,
            self.visible ==> pattern_commands_match(
                *self,
                win,
                screen,
                final(scene).commands@.skip(old(scene).commands@.len() as int),
            ),
    {
        if !self.visible {
            return ;
        }
        let ghost n0 = scene.commands@.len() as int;
        let xo = self.params.x.eval(win, screen);
        let yo = self.params.y.eval(win, screen);
        let psize = self.params.pattern_size.eval(win, screen);
        let fill_brush: Brush = match self.fill_pattern {
            FillPattern::Uniform => Brush::Solid(lin_to_rgba(self.params.fill_color)),
            FillPattern::Sinosoidal => vstd::pervasive::unreached(),
            _ => {
                let img = match &self.pattern_image {
                    Some(b) => b.clone(),
                    None => vstd::pervasive::unreached(),
                };
                let s = crate::trig::sin_mdeg(self.params.pattern_rotation);
                let c = crate::trig::cos_mdeg(self.params.pattern_rotation);
                Brush::Image {
                    image: img,
                    start: Point {
                        x: xo + phase_shift(self.params.phase_x, psize),
                        y: yo + phase_shift(self.params.phase_y, psize),
                    },
                    fit_mode: ImageFitMode::Exact { width: psize, height: psize },
                    sampling: ImageSampling::Nearest,
                    edge_mode: EdgeModes { horizontal: Extend::Repeat, vertical: Extend::Repeat },
                    transform: Some(Affine::rotation_parts(s, c)),
                    alpha: self.params.alpha,
                }
            },
        };
        let stroke_brush = Brush::Solid(lin_to_rgba(self.params.stroke_color));
        let stroke_style = StrokeStyle::new(self.params.stroke_width.eval(win, screen));
        match &self.params.shape {
            Shape::Circle { x, y, radius } => {
                let c = Point { x: x.eval(win, screen) + xo, y: y.eval(win, screen) + yo };
                let r = radius.eval(win, screen);
                let sh = crate::shapes::Shape::Circle { center: c, radius: r };
                scene.draw_shape_fill(sh, fill_brush, None, None);
                let sh2 = crate::shapes::Shape::Circle { center: c, radius: r };
                scene.draw_shape_stroke(sh2, stroke_brush, stroke_style, None, None);
                proof {
                    assert(scene.commands@.take(n0) =~= old(scene).commands@);
                    assert(pattern_commands_match(*self, win, screen, scene.commands@.skip(n0)));
                }
            },
            Shape::Rectangle { x, y, width, height } => {
                let a = Point { x: x.eval(win, screen) + xo, y: y.eval(win, screen) + yo };
                let w = width.eval(win, screen);
                let h = height.eval(win, screen);
                let sh = crate::shapes::Shape::Rectangle { a, w, h };
                scene.draw_shape_fill(sh, fill_brush, None, None);
                let sh2 = crate::shapes::Shape::Rectangle { a, w, h };
                scene.draw_shape_stroke(sh2, stroke_brush, stroke_style, None, None);
                proof {
                    assert(scene.commands@.take(n0) =~= old(scene).commands@);
                    assert(pattern_commands_match(*self, win, screen, scene.commands@.skip(n0)));
                }
            },
            Shape::Line { x1, y1, x2, y2 } => {
                let p1 = Point { x: x1.eval(win, screen) + xo, y: y1.eval(win, screen) + yo };
                let p2 = Point { x: x2.eval(win, screen) + xo, y: y2.eval(win, screen) + yo };
                let sh = crate::shapes::Shape::Line { start: p1, end: p2 };
                scene.draw_shape_stroke(sh, stroke_brush, stroke_style, None, None);
                proof {
                    assert(scene.commands@.take(n0) =~= old(scene).commands@);
                    assert(pattern_commands_match(*self, win, screen, scene.commands@.skip(n0)));
                }
            },
            Shape::Polygon { points } => {
                let pts1 = offset_points(points, xo, yo, win, screen);
                let pts2 = offset_points(points, xo, yo, win, screen);
                scene.draw_shape_fill(
                    crate::shapes::Shape::Polygon { points: pts1 },
                    fill_brush,
                    None,
                    None,
                );
                scene.draw_shape_stroke(
                    crate::shapes::Shape::Polygon { points: pts2 },
                    stroke_brush,
                    stroke_style,
                    None,
                    None,
                );
                proof {
                    assert(scene.commands@.take(n0) =~= old(scene).commands@);
                    assert(scene.commands@.skip(n0).len() == 2);
                    assert(pattern_commands_match(*self, win, screen, scene.commands@.skip(n0)));
                }
            },
            Shape::Path { points } => {
                let pts1 = offset_points(points, xo, yo, win, screen);
                let pts2 = offset_points(points, xo, yo, win, screen);
                scene.draw_shape_fill(
                    crate::shapes::Shape::Path { points: pts1 },
                    fill_brush,
                    None,
                    None,
                );
                scene.draw_shape_stroke(
                    crate::shapes::Shape::Path { points: pts2 },
                    stroke_brush,
                    stroke_style,
                    None,
                    None,
                );
                proof {
                    assert(scene.commands@.take(n0) =~= old(scene).commands@);
                    assert(scene.commands@.skip(n0).len() == 2);
                    assert(pattern_commands_match(*self, win, screen, scene.commands@.skip(n0)));
                }
            },
            Shape::Ellipse { .. } => {
                proof {
                    assert(false);
                }
            },
        }
    }
}

/// Whether the transformed point lies inside the pattern stimulus's shape:
/// the stimulus's transformation is applied to the point, which is then
/// tested against the evaluated shape (moved by the stimulus origin).
/// Lines, paths and polygons report no containment.
pub open spec fn spec_pattern_contains(
    s: PatternStimulus,
    px: Size,
    py: Size,
    win: PixelSize,
    screen: PhysicalScreen,
) -> bool {
    let m = spec_eval_transform(s.transform, win, screen);
    let p = Point { x: spec_eval_size(px, win, screen), y: spec_eval_size(py, win, screen) };
    let tx = spec_apply_x(m, p) as int;
    let ty = spec_apply_y(m, p) as int;
    let xo = spec_eval_size(s.params.x, win, screen) as int;
    let yo = spec_eval_size(s.params.y, win, screen) as int;
    match s.params.shape {
        Shape::Rectangle { x, y, width, height } => {
            let rx = spec_eval_size(x, win, screen) + xo;
            let ry = spec_eval_size(y, win, screen) + yo;
            let w = spec_eval_size(width, win, screen) as int;
            let h = spec_eval_size(height, win, screen) as int;
            rx <= tx <= rx + w && ry <= ty <= ry + h
        },
        Shape::Circle { x, y, radius } => {
            let cx = spec_eval_size(x, win, screen) + xo;
            let cy = spec_eval_size(y, win, screen) + yo;
            let r = spec_eval_size(radius, win, screen) as int;
            let dx = tx - cx;
            let dy = ty - cy;
            dx * dx + dy * dy <= r * r
        },
        Shape::Ellipse { x, y, radius_x, radius_y } => {
            let cx = spec_eval_size(x, win, screen) + xo;
            let cy = spec_eval_size(y, win, screen) + yo;
            let rx = spec_eval_size(radius_x, win, screen) as int;
            let ry = spec_eval_size(radius_y, win, screen) as int;
            let dx = tx - cx;
            let dy = ty - cy;
            rx > 0 && ry > 0 && ((dx * dx * 1_000_000) / (rx * rx) + (dy * dy * 1_000_000) / (ry
                * ry)) <= 1_000_000
        },
        _ => false,
    }
}

/// What a pattern stimulus reports for each parameter name.
pub open spec fn spec_pattern_get_param(s: PatternStimulus, name: ParamName) -> Option<
    StimulusParamValue,
> {
    match name {
        ParamName::X => Some(StimulusParamValue::Size(s.params.x)),
        ParamName::Y => Some(StimulusParamValue::Size(s.params.y)),
        ParamName::PatternSize => Some(StimulusParamValue::Size(s.params.pattern_size)),
        ParamName::StrokeWidth => Some(StimulusParamValue::Size(s.params.stroke_width)),
        ParamName::PhaseX => Some(StimulusParamValue::Num(s.params.phase_x)),
        ParamName::PhaseY => Some(StimulusParamValue::Num(s.params.phase_y)),
        ParamName::PatternRotation => Some(StimulusParamValue::Num(s.params.pattern_rotation)),
        ParamName::Alpha => match s.params.alpha {
            Some(a) => Some(StimulusParamValue::Num(a)),
            None => None,
        },
        ParamName::FillColor => Some(StimulusParamValue::Color(s.params.fill_color)),
        ParamName::BackgroundColor => Some(StimulusParamValue::Color(s.params.background_color)),
        ParamName::StrokeColor => Some(StimulusParamValue::Color(s.params.stroke_color)),
        _ => None,
    }
}

/// How a pattern stimulus's parameters change when one is set. A length
/// parameter accepts a length or a plain number of pixels; a value of the
/// wrong kind, or an unknown name, changes nothing.
pub open spec fn spec_pattern_set_param(
    p: PatternParams,
    name: ParamName,
    v: StimulusParamValue,
) -> PatternParams {
    match (name, v) {
        (ParamName::X, StimulusParamValue::Size(sz)) => PatternParams { x: sz, ..p },
        (ParamName::X, StimulusParamValue::Num(n)) => PatternParams { x: Size::Pixels(n), ..p },
        (ParamName::Y, StimulusParamValue::Size(sz)) => PatternParams { y: sz, ..p },
        (ParamName::Y, StimulusParamValue::Num(n)) => PatternParams { y: Size::Pixels(n), ..p },
        (ParamName::PatternSize, StimulusParamValue::Size(sz)) => PatternParams {
            pattern_size: sz,
            ..p
        },
        (ParamName::PatternSize, StimulusParamValue::Num(n)) => PatternParams {
            pattern_size: Size::Pixels(n),
            ..p
        },
        (ParamName::StrokeWidth, StimulusParamValue::Size(sz)) => PatternParams {
            stroke_width: sz,
            ..p
        },
        (ParamName::StrokeWidth, StimulusParamValue::Num(n)) => PatternParams {
            stroke_width: Size::Pixels(n),
            ..p
        },
        (ParamName::PhaseX, StimulusParamValue::Num(n)) => PatternParams { phase_x: n, ..p },
        (ParamName::PhaseY, StimulusParamValue::Num(n)) => PatternParams { phase_y: n, ..p },
        (ParamName::PatternRotation, StimulusParamValue::Num(n)) => PatternParams {
            pattern_rotation: n,
            ..p
        },
        (ParamName::Alpha, StimulusParamValue::Num(n)) => PatternParams { alpha: Some(n), ..p },
        (ParamName::FillColor, StimulusParamValue::Color(c)) => PatternParams {
            fill_color: c,
            ..p
        },
        (ParamName::BackgroundColor, StimulusParamValue::Color(c)) => PatternParams {
            background_color: c,
            ..p
        },
        (ParamName::StrokeColor, StimulusParamValue::Color(c)) => PatternParams {
            stroke_color: c,
            ..p
        },
        _ => p,
    }
}

/// A pattern stimulus's parameters after its animations, oldest first,
/// have each driven their numeric parameter to its value at `now`.
pub open spec fn spec_pattern_params_after(
    p: PatternParams,
    anims: Seq<Animation>,
    now_us: u64,
) -> PatternParams
    decreases anims.len(),
{
    if anims.len() == 0 {
        p
    } else {
        let prev = spec_pattern_params_after(p, anims.drop_last(), now_us);
        spec_pattern_set_param(
            prev,
            anims.last().param,
            StimulusParamValue::Num(spec_animation_value(anims.last(), now_us)),
        )
    }
}

/// Driving parameters with animations never changes the shape.
pub proof fn lemma_pattern_fold_preserves_shape(p: PatternParams, anims: Seq<Animation>, now_us: u64)
    ensures
        spec_pattern_params_after(p, anims, now_us).shape == p.shape,
    decreases anims.len(),
{
    if anims.len() > 0 {
        lemma_pattern_fold_preserves_shape(p, anims.drop_last(), now_us);
    }
}

impl PatternStimulus {
    /// The stimulus identity.
    pub fn uuid(&self) -> (r: u128)
        ensures
            r == self.id,
    {
        self.id
    }

    /// Whether the stimulus is drawn.
    pub fn visible(&self) -> (r: bool)
        ensures
            r == self.visible,
    {
        self.visible
    }

    /// Shows or hides the stimulus.
    pub fn set_visible(&mut self, visible: bool)
        ensures
            *final(self) == (PatternStimulus { visible, ..*old(self) }),
    {
        self.visible = visible;
    }

    /// The stimulus transformation.
    pub fn transformation(&self) -> (t: Transformation2D)
        ensures
            t == self.transform,
    {
        self.transform.clone()
    }

    /// Replaces the stimulus transformation.
    pub fn set_transformation(&mut self, t: Transformation2D)
        ensures
            *final(self) == (PatternStimulus { transform: t, ..*old(self) }),
    {
        self.transform = t;
    }

    /// Composes a transformation on top of the current one (the current
    /// one applies first).
    pub fn add_transformation(&mut self, t: Transformation2D)
        ensures
            final(self).transform == Transformation2D::Product(
                Box::new(t),
                Box::new(old(self).transform),
            ),
            *final(self) == (PatternStimulus { transform: final(self).transform, ..*old(self) }),
    {
        let prev = self.transformation();
        self.transform = t.after(prev);
    }

    /// Registers an animation.
    pub fn add_animation(&mut self, a: Animation)
        requires
            animation_wf(a),
        ensures
            final(self).animations@ == old(self).animations@.push(a),
            *final(self) == (PatternStimulus { animations: final(self).animations, ..*old(self) }),
            old(self).wf() ==> final(self).wf(),
    {
        self.animations.push(a);
    }

    /// The parameter value for a name, or `None` when the stimulus has no
    /// such parameter.
    pub fn get_param(&self, name: ParamName) -> (r: Option<StimulusParamValue>)
        ensures
            r == spec_pattern_get_param(*self, name),
    {
        match name {
            ParamName::X => Some(StimulusParamValue::Size(self.params.x)),
            ParamName::Y => Some(StimulusParamValue::Size(self.params.y)),
            ParamName::PatternSize => Some(StimulusParamValue::Size(self.params.pattern_size)),
            ParamName::StrokeWidth => Some(StimulusParamValue::Size(self.params.stroke_width)),
            ParamName::PhaseX => Some(StimulusParamValue::Num(self.params.phase_x)),
            ParamName::PhaseY => Some(StimulusParamValue::Num(self.params.phase_y)),
            ParamName::PatternRotation => Some(
                StimulusParamValue::Num(self.params.pattern_rotation),
            ),
            ParamName::Alpha => match self.params.alpha {
                Some(a) => Some(StimulusParamValue::Num(a)),
                None => None,
            },
            ParamName::FillColor => Some(StimulusParamValue::Color(self.params.fill_color)),
            ParamName::BackgroundColor => Some(
                StimulusParamValue::Color(self.params.background_color),
            ),
            ParamName::StrokeColor => Some(StimulusParamValue::Color(self.params.stroke_color)),
            _ => None,
        }
    }

    /// Sets the parameter with the given name; a value of the wrong kind,
    /// or an unknown name, changes nothing. The pattern tile is not
    /// rebuilt: it keeps the colors the stimulus was created with.
    pub fn set_param(&mut self, name: ParamName, v: StimulusParamValue)
        ensures
            final(self).params == spec_pattern_set_param(old(self).params, name, v),
            *final(self) == (PatternStimulus { params: final(self).params, ..*old(self) }),
    {
        apply_pattern_param(&mut self.params, name, v);
    }

    /// Advances every animation to `now` and applies its value to its
    /// parameter, in registration order.
    pub fn update_animations(&mut self, now_us: u64)
        requires
            old(self).wf(),
        ensures
            final(self).params == spec_pattern_params_after(
                old(self).params,
                old(self).animations@,
                now_us,
            ),
            *final(self) == (PatternStimulus { params: final(self).params, ..*old(self) }),
            final(self).params.shape == old(self).params.shape,
            final(self).wf(),
            final(self).drawable() == old(self).drawable(),
    {
        proof {
            lemma_pattern_fold_preserves_shape(self.params, self.animations@, now_us);
        }
        let n = self.animations.len();
        let mut i: usize = 0;
        let ghost p0 = self.params;
        proof {
            assert(self.animations@.take(0) =~= Seq::<Animation>::empty());
        }
        while i < n
            invariant
                i <= n == self.animations@.len(),
                forall|k: int|
                    0 <= k < self.animations@.len() ==> animation_wf(
                        #[trigger] self.animations@[k],
                    ),
                self.params == spec_pattern_params_after(
                    p0,
                    self.animations@.take(i as int),
                    now_us,
                ),
                *self == (PatternStimulus { params: self.params, ..*old(self) }),
            decreases n - i,
        {
            let a = self.animations[i];
            let v = animation_value(&a, now_us);
            apply_pattern_param(&mut self.params, a.param, StimulusParamValue::Num(v));
            proof {
                assert(self.animations@.take(i + 1).drop_last() =~= self.animations@.take(i as int));
            }
            i = i + 1;
        }
        proof {
            assert(self.animations@.take(n as int) =~= self.animations@);
        }
    }

    /// Whether the given point lies inside the stimulus's shape, after the
    /// stimulus's transformation is applied to the point.
    pub fn contains(&self, px: Size, py: Size, win: PixelSize, screen: PhysicalScreen) -> (r: bool)
        requires
            screen.pixel_density_upmm <= DENSITY_LIMIT,
            screen.viewing_distance_um <= DISTANCE_LIMIT,
        ensures
            r == spec_pattern_contains(*self, px, py, win, screen),
    {
        let m = self.transform.eval(win, screen);
        let p = Point { x: px.eval(win, screen), y: py.eval(win, screen) };
        let t = m.apply(p);
        let xo = self.params.x.eval(win, screen);
        let yo = self.params.y.eval(win, screen);
        match &self.params.shape {
            Shape::Rectangle { x, y, width, height } => {
                let rx: i128 = x.eval(win, screen) as i128 + xo as i128;
                let ry: i128 = y.eval(win, screen) as i128 + yo as i128;
                let w: i128 = width.eval(win, screen) as i128;
                let h: i128 = height.eval(win, screen) as i128;
                rx <= t.x as i128 && t.x as i128 <= rx + w && ry <= t.y as i128 && t.y as i128 <= ry
                    + h
            },
            Shape::Circle { x, y, radius } => {
                let cx: i128 = x.eval(win, screen) as i128 + xo as i128;
                let cy: i128 = y.eval(win, screen) as i128 + yo as i128;
                let r: i128 = radius.eval(win, screen) as i128;
                let dx: i128 = t.x as i128 - cx;
                let dy: i128 = t.y as i128 - cy;
                sq_bounded(dx) + sq_bounded(dy) <= sq_bounded(r)
            },
            Shape::Ellipse { x, y, radius_x, radius_y } => {
                let cx: i128 = x.eval(win, screen) as i128 + xo as i128;
                let cy: i128 = y.eval(win, screen) as i128 + yo as i128;
                let rx: i128 = radius_x.eval(win, screen) as i128;
                let ry: i128 = radius_y.eval(win, screen) as i128;
                let dx: i128 = t.x as i128 - cx;
                let dy: i128 = t.y as i128 - cy;
                if rx > 0 && ry > 0 {
                    let sdx = sq_bounded(dx);
                    let sdy = sq_bounded(dy);
                    let srx = sq_bounded(rx);
                    let sry = sq_bounded(ry);
                    proof {
                        assert(srx > 0 && sry > 0) by (nonlinear_arith)
                            requires
                                rx > 0,
                                ry > 0,
                                srx == rx * rx,
                                sry == ry * ry,
                        ;
                        vstd::arithmetic::div_mod::lemma_div_nonincreasing(
                            sdx * 1_000_000,
                            srx as int,
                        );
                        vstd::arithmetic::div_mod::lemma_div_nonincreasing(
                            sdy * 1_000_000,
                            sry as int,
                        );
                    }
                    let qx = (sdx * 1_000_000) / srx;
                    let qy = (sdy * 1_000_000) / sry;
                    qx + qy <= 1_000_000
                } else {
                    false
                }
            },
            _ => false,
        }
    }
}

/// Law: a rectangle stimulus contains its own center point under the
/// identity transformation (and, by the hit-test's shape, any point of its
/// box), for pixel-denominated parameters within a billion pixels.
pub proof fn lemma_rectangle_contains_center(
    s: PatternStimulus,
    rx: i64,
    ry: i64,
    w: i64,
    h: i64,
    xo: i64,
    yo: i64,
    win: PixelSize,
    screen: PhysicalScreen,
)
    requires
        s.params.shape == (Shape::Rectangle {
            x: Size::Pixels(rx),
            y: Size::Pixels(ry),
            width: Size::Pixels(w),
            height: Size::Pixels(h),
        }),
        s.params.x == Size::Pixels(xo),
        s.params.y == Size::Pixels(yo),
        s.transform == Transformation2D::Identity,
        0 <= w <= AFFINE_SAT,
        0 <= h <= AFFINE_SAT,
        -AFFINE_SAT <= rx <= AFFINE_SAT,
        -AFFINE_SAT <= ry <= AFFINE_SAT,
        -AFFINE_SAT <= xo <= AFFINE_SAT,
        -AFFINE_SAT <= yo <= AFFINE_SAT,
        -AFFINE_SAT <= rx + xo + w / 2,
        rx + xo + w / 2 <= AFFINE_SAT,
        -AFFINE_SAT <= ry + yo + h / 2,
        ry + yo + h / 2 <= AFFINE_SAT,
    ensures
        spec_pattern_contains(
            s,
            Size::Pixels((rx + xo + w / 2) as i64),
            Size::Pixels((ry + yo + h / 2) as i64),
            win,
            screen,
        ),
{
    let px = (rx + xo + w / 2) as i64;
    let py = (ry + yo + h / 2) as i64;
    lemma_identity_apply(px, py, win, screen, s.transform);
    assert(w / 2 >= 0 && w / 2 <= w && h / 2 >= 0 && h / 2 <= h);
}

/// Law: a circle stimulus contains its own center point under the
/// identity transformation, whatever its radius, for pixel-denominated
/// parameters within a billion pixels.
pub proof fn lemma_circle_contains_center(
    s: PatternStimulus,
    cx: i64,
    cy: i64,
    radius: i64,
    xo: i64,
    yo: i64,
    win: PixelSize,
    screen: PhysicalScreen,
)
    requires
        s.params.shape == (Shape::Circle {
            x: Size::Pixels(cx),
            y: Size::Pixels(cy),
            radius: Size::Pixels(radius),
        }),
        s.params.x == Size::Pixels(xo),
        s.params.y == Size::Pixels(yo),
        s.transform == Transformation2D::Identity,
        0 <= radius <= AFFINE_SAT,
        -AFFINE_SAT <= cx <= AFFINE_SAT,
        -AFFINE_SAT <= cy <= AFFINE_SAT,
        -AFFINE_SAT <= xo <= AFFINE_SAT,
        -AFFINE_SAT <= yo <= AFFINE_SAT,
        -AFFINE_SAT <= cx + xo <= AFFINE_SAT,
        -AFFINE_SAT <= cy + yo <= AFFINE_SAT,
    ensures
        spec_pattern_contains(
            s,
            Size::Pixels((cx + xo) as i64),
            Size::Pixels((cy + yo) as i64),
            win,
            screen,
        ),
{
    let px = (cx + xo) as i64;
    let py = (cy + yo) as i64;
    lemma_identity_apply(px, py, win, screen, s.transform);
    assert(0 * 0 == 0) by (nonlinear_arith);
    assert(radius * radius >= 0) by (nonlinear_arith);
}

/// Applying the identity transformation leaves a bounded point unchanged.
proof fn lemma_identity_apply(
    px: i64,
    py: i64,
    win: PixelSize,
    screen: PhysicalScreen,
    t: Transformation2D,
)
    requires
        t == Transformation2D::Identity,
        -AFFINE_SAT <= px <= AFFINE_SAT,
        -AFFINE_SAT <= py <= AFFINE_SAT,
    ensures
        spec_apply_x(spec_eval_transform(t, win, screen), Point { x: px, y: py }) == px,
        spec_apply_y(spec_eval_transform(t, win, screen), Point { x: px, y: py }) == py,
{
    let m = spec_eval_transform(t, win, screen);
    lemma_unit_coeff_mul(px);
    lemma_unit_coeff_mul(py);
    vstd::arithmetic::mul::lemma_mul_basics(crate::shapes::spec_abs(px as int));
    vstd::arithmetic::mul::lemma_mul_basics(crate::shapes::spec_abs(py as int));
    assert(crate::shapes::spec_abs(0int) == 0);
    vstd::arithmetic::div_mod::lemma_div_of0(1_000_000);
    assert(crate::shapes::spec_coeff_mul(0, px) == 0);
    assert(crate::shapes::spec_coeff_mul(0, py) == 0);
}

/// Multiplying by the unit coefficient returns the value, within the
/// saturation bound.
proof fn lemma_unit_coeff_mul(v: i64)
    requires
        -AFFINE_SAT <= v <= AFFINE_SAT,
    ensures
        crate::shapes::spec_coeff_mul(1_000_000, v) == v,
{
    let m = crate::shapes::spec_abs(1_000_000int) * crate::shapes::spec_abs(v as int);
    assert(m == 1_000_000 * crate::shapes::spec_abs(v as int));
    vstd::arithmetic::div_mod::lemma_div_by_multiple(crate::shapes::spec_abs(v as int), 1_000_000);
    assert((1_000_000 * crate::shapes::spec_abs(v as int)) / 1_000_000 == crate::shapes::spec_abs(
        v as int,
    ));
}

/// Applies one parameter update to pattern parameters, in place.
fn apply_pattern_param(p: &mut PatternParams, name: ParamName, v: StimulusParamValue)
    ensures
        *final(p) == spec_pattern_set_param(*old(p), name, v),
{
    match (name, v) {
        (ParamName::X, StimulusParamValue::Size(sz)) => {
            p.x = sz;
        },
        (ParamName::X, StimulusParamValue::Num(n)) => {
            p.x = Size::Pixels(n);
        },
        (ParamName::Y, StimulusParamValue::Size(sz)) => {
            p.y = sz;
        },
        (ParamName::Y, StimulusParamValue::Num(n)) => {
            p.y = Size::Pixels(n);
        },
        (ParamName::PatternSize, StimulusParamValue::Size(sz)) => {
            p.pattern_size = sz;
        },
        (ParamName::PatternSize, StimulusParamValue::Num(n)) => {
            p.pattern_size = Size::Pixels(n);
        },
        (ParamName::StrokeWidth, StimulusParamValue::Size(sz)) => {
            p.stroke_width = sz;
        },
        (ParamName::StrokeWidth, StimulusParamValue::Num(n)) => {
            p.stroke_width = Size::Pixels(n);
        },
        (ParamName::PhaseX, StimulusParamValue::Num(n)) => {
            p.phase_x = n;
        },
        (ParamName::PhaseY, StimulusParamValue::Num(n)) => {
            p.phase_y = n;
        },
        (ParamName::PatternRotation, StimulusParamValue::Num(n)) => {
            p.pattern_rotation = n;
        },
        (ParamName::Alpha, StimulusParamValue::Num(n)) => {
            p.alpha = Some(n);
        },
        (ParamName::FillColor, StimulusParamValue::Color(c)) => {
            p.fill_color = c;
        },
        (ParamName::BackgroundColor, StimulusParamValue::Color(c)) => {
            p.background_color = c;
        },
        (ParamName::StrokeColor, StimulusParamValue::Color(c)) => {
            p.stroke_color = c;
        },
        _ => {},
    }
}

/// The square of a bounded value.
fn sq_bounded(v: i128) -> (r: i128)
    requires
        -4_000_000_000_000_000 <= v <= 4_000_000_000_000_000,
    ensures
        r == v * v,
        0 <= r <= 16_000_000_000_000_000_000_000_000_000_000,
{
    proof {
        assert(v * v <= 16_000_000_000_000_000_000_000_000_000_000 && v * v >= 0) by (
        nonlinear_arith)
            requires
                -4_000_000_000_000_000i128 <= v <= 4_000_000_000_000_000i128,
        ;
    }
    v * v
}

/// Evaluates polygon or path points to micro-pixels, moved by the origin.
fn offset_points(
    points: &Vec<(Size, Size)>,
    xo: i64,
    yo: i64,
    win: PixelSize,
    screen: PhysicalScreen,
) -> (r: Vec<Point>)
    requires
        -AFFINE_SAT <= xo <= AFFINE_SAT,
        -AFFINE_SAT <= yo <= AFFINE_SAT,
        screen.pixel_density_upmm <= DENSITY_LIMIT,
        screen.viewing_distance_um <= DISTANCE_LIMIT,
    ensures
        r@ == spec_offset_points(points@, xo, yo, win, screen),
{
    let ghost f = |p: (Size, Size)|
        Point {
            x: (spec_eval_size(p.0, win, screen) + xo) as i64,
            y: (spec_eval_size(p.1, win, screen) + yo) as i64,
        };
    let n = points.len();
    let mut out: Vec<Point> = Vec::new();
    let mut i: usize = 0;
    proof {
        assert(out@ =~= points@.take(0).map_values(f));
    }
    while i < n
        invariant
            i <= n == points@.len(),
            -AFFINE_SAT <= xo <= AFFINE_SAT,
            -AFFINE_SAT <= yo <= AFFINE_SAT,
            screen.pixel_density_upmm <= DENSITY_LIMIT,
            screen.viewing_distance_um <= DISTANCE_LIMIT,
            forall|p: (Size, Size)| #[trigger]
                f(p) == (Point {
                    x: (spec_eval_size(p.0, win, screen) + xo) as i64,
                    y: (spec_eval_size(p.1, win, screen) + yo) as i64,
                }),
            out@ == points@.take(i as int).map_values(f),
        decreases n - i,
    {
        let (sx, sy) = points[i];
        out.push(Point { x: sx.eval(win, screen) + xo, y: sy.eval(win, screen) + yo });
        proof {
            assert(out@ =~= points@.take(i + 1).map_values(f));
        }
        i = i + 1;
    }
    proof {
        assert(points@.take(n as int) =~= points@);
        assert(out@ =~= spec_offset_points(points@, xo, yo, win, screen));
    }
    out
}


/// The parameters of an image stimulus.
#[derive(Debug, Clone, Copy, PartialEq, Eq, Structural)]
pub struct ImageParams {
    /// The x position of the stimulus anchor.
    pub x: Size,
    /// The y position of the stimulus anchor.
    pub y: Size,
    /// The width of the stimulus.
    pub width: Size,
    /// The height of the stimulus.
    pub height: Size,
    /// The rotation of the stimulus in milli-degrees.
    pub rotation: i64,
    /// The opacity in micro units, 0 transparent to 1_000_000 opaque.
    pub opacity: i64,
    /// The x offset of the image within the stimulus.
    pub image_x: Size,
    /// The y offset of the image within the stimulus.
    pub image_y: Size,
}

/// A stimulus that displays a bitmap image in an anchored, rotated box.
#[derive(Debug)]
pub struct ImageStimulus {
    /// The stimulus identity.
    pub id: u128,
    /// Its parameters.
    pub params: ImageParams,
    /// The image to display.
    pub image: DynamicBitmap,
    /// How `(x, y)` anchors the box.
    pub anchor: Anchor,
    /// The stimulus transformation.
    pub transformation: Transformation2D,
    /// Its animations, in registration order.
    pub animations: Vec<Animation>,
    /// Whether the stimulus is drawn.
    pub visible: bool,
}

/// The one command a visible image stimulus draws: its box, anchored at
/// the evaluated position, filled with the image brush, under the
/// stimulus's transformation composed with its rotation about the
/// (unanchored) position.
pub open spec fn image_commands_match(
    s: ImageStimulus,
    win: PixelSize,
    screen: PhysicalScreen,
    cmds: Seq<DrawCommand>,
) -> bool {
    let x = spec_eval_size(s.params.x, win, screen);
    let y = spec_eval_size(s.params.y, win, screen);
    let w = spec_eval_size(s.params.width, win, screen);
    let h = spec_eval_size(s.params.height, win, screen);
    let corner = spec_anchor_top_left(s.anchor, x, y, w, h);
    let ax = corner.0 as i64;
    let ay = corner.1 as i64;
    let iox = spec_eval_size(s.params.image_x, win, screen);
    let ioy = spec_eval_size(s.params.image_y, win, screen);
    let tm = crate::transform::spec_compose(
        spec_eval_transform(s.transformation, win, screen),
        crate::transform::spec_rotation_about(s.params.rotation, x, y),
    );
    cmds =~= seq![
        DrawCommand::FillShape {
            shape: crate::shapes::Shape::Rectangle { a: Point { x: ax, y: ay }, w, h },
            brush: Brush::Image {
                image: s.image,
                start: Point { x: (ax + iox) as i64, y: (ay + ioy) as i64 },
                fit_mode: ImageFitMode::Exact { width: w, height: h },
                sampling: ImageSampling::Linear,
                edge_mode: EdgeModes { horizontal: Extend::Pad, vertical: Extend::Pad },
                transform: None,
                alpha: Some(s.params.opacity),
            },
            transform: Some(tm),
            blend_mode: None,
        },
    ]
}

/// Whether the transformed point lies inside the image stimulus's
/// unanchored, unrotated box (the hit-test transforms the point by the
/// stimulus transformation only; the draw-time rotation is not applied).
pub open spec fn spec_image_contains(
    s: ImageStimulus,
    px: Size,
    py: Size,
    win: PixelSize,
    screen: PhysicalScreen,
) -> bool {
    let m = spec_eval_transform(s.transformation, win, screen);
    let p = Point { x: spec_eval_size(px, win, screen), y: spec_eval_size(py, win, screen) };
    let tx = spec_apply_x(m, p) as int;
    let ty = spec_apply_y(m, p) as int;
    let ix = spec_eval_size(s.params.x, win, screen) as int;
    let iy = spec_eval_size(s.params.y, win, screen) as int;
    let w = spec_eval_size(s.params.width, win, screen) as int;
    let h = spec_eval_size(s.params.height, win, screen) as int;
    ix <= tx <= ix + w && iy <= ty <= iy + h
}

/// What an image stimulus reports for each parameter name.
pub open spec fn spec_image_get_param(s: ImageStimulus, name: ParamName) -> Option<
    StimulusParamValue,
> {
    match name {
        ParamName::X => Some(StimulusParamValue::Size(s.params.x)),
        ParamName::Y => Some(StimulusParamValue::Size(s.params.y)),
        ParamName::Width => Some(StimulusParamValue::Size(s.params.width)),
        ParamName::Height => Some(StimulusParamValue::Size(s.params.height)),
        ParamName::Rotation => Some(StimulusParamValue::Num(s.params.rotation)),
        ParamName::Opacity => Some(StimulusParamValue::Num(s.params.opacity)),
        ParamName::ImageX => Some(StimulusParamValue::Size(s.params.image_x)),
        ParamName::ImageY => Some(StimulusParamValue::Size(s.params.image_y)),
        _ => None,
    }
}

/// How an image stimulus's parameters change when one is set.
pub open spec fn spec_image_set_param(
    p: ImageParams,
    name: ParamName,
    v: StimulusParamValue,
) -> ImageParams {
    match (name, v) {
        (ParamName::X, StimulusParamValue::Size(sz)) => ImageParams { x: sz, ..p },
        (ParamName::X, StimulusParamValue::Num(n)) => ImageParams { x: Size::Pixels(n), ..p },
        (ParamName::Y, StimulusParamValue::Size(sz)) => ImageParams { y: sz, ..p },
        (ParamName::Y, StimulusParamValue::Num(n)) => ImageParams { y: Size::Pixels(n), ..p },
        (ParamName::Width, StimulusParamValue::Size(sz)) => ImageParams { width: sz, ..p },
        (ParamName::Width, StimulusParamValue::Num(n)) => ImageParams {
            width: Size::Pixels(n),
            ..p
        },
        (ParamName::Height, StimulusParamValue::Size(sz)) => ImageParams { height: sz, ..p },
        (ParamName::Height, StimulusParamValue::Num(n)) => ImageParams {
            height: Size::Pixels(n),
            ..p
        },
        (ParamName::Rotation, StimulusParamValue::Num(n)) => ImageParams { rotation: n, ..p },
        (ParamName::Opacity, StimulusParamValue::Num(n)) => ImageParams { opacity: n, ..p },
        (ParamName::ImageX, StimulusParamValue::Size(sz)) => ImageParams { image_x: sz, ..p },
        (ParamName::ImageX, StimulusParamValue::Num(n)) => ImageParams {
            image_x: Size::Pixels(n),
            ..p
        },
        (ParamName::ImageY, StimulusParamValue::Size(sz)) => ImageParams { image_y: sz, ..p },
        (ParamName::ImageY, StimulusParamValue::Num(n)) => ImageParams {
            image_y: Size::Pixels(n),
            ..p
        },
        _ => p,
    }
}

/// An image stimulus's parameters after its animations, oldest first, have
/// each driven their numeric parameter to its value at `now`.
pub open spec fn spec_image_params_after(
    p: ImageParams,
    anims: Seq<Animation>,
    now_us: u64,
) -> ImageParams
    decreases anims.len(),
{
    if anims.len() == 0 {
        p
    } else {
        let prev = spec_image_params_after(p, anims.drop_last(), now_us);
        spec_image_set_param(
            prev,
            anims.last().param,
            StimulusParamValue::Num(spec_animation_value(anims.last(), now_us)),
        )
    }
}

/// Applies one parameter update to image parameters, in place.
fn apply_image_param(p: &mut ImageParams, name: ParamName, v: StimulusParamValue)
    ensures
        *final(p) == spec_image_set_param(*old(p), name, v),
{
    match (name, v) {
        (ParamName::X, StimulusParamValue::Size(sz)) => {
            p.x = sz;
        },
        (ParamName::X, StimulusParamValue::Num(n)) => {
            p.x = Size::Pixels(n);
        },
        (ParamName::Y, StimulusParamValue::Size(sz)) => {
            p.y = sz;
        },
        (ParamName::Y, StimulusParamValue::Num(n)) => {
            p.y = Size::Pixels(n);
        },
        (ParamName::Width, StimulusParamValue::Size(sz)) => {
            p.width = sz;
        },
        (ParamName::Width, StimulusParamValue::Num(n)) => {
            p.width = Size::Pixels(n);
        },
        (ParamName::Height, StimulusParamValue::Size(sz)) => {
            p.height = sz;
        },
        (ParamName::Height, StimulusParamValue::Num(n)) => {
            p.height = Size::Pixels(n);
        },
        (ParamName::Rotation, StimulusParamValue::Num(n)) => {
            p.rotation = n;
        },
        (ParamName::Opacity, StimulusParamValue::Num(n)) => {
            p.opacity = n;
        },
        (ParamName::ImageX, StimulusParamValue::Size(sz)) => {
            p.image_x = sz;
        },
        (ParamName::ImageX, StimulusParamValue::Num(n)) => {
            p.image_x = Size::Pixels(n);
        },
        (ParamName::ImageY, StimulusParamValue::Size(sz)) => {
            p.image_y = sz;
        },
        (ParamName::ImageY, StimulusParamValue::Num(n)) => {
            p.image_y = Size::Pixels(n);
        },
        _ => {},
    }
}

impl ImageStimulus {
    /// Animations stay within the interpolation bound.
    pub open spec fn wf(&self) -> bool {
        forall|i: int| 0 <= i < self.animations@.len() ==> animation_wf(#[trigger] self.animations@[i])
    }

    /// Builds an image stimulus from a decoded bitmap handle.
    pub fn from_image(
        image: DynamicBitmap,
        params: ImageParams,
        transform: Option<Transformation2D>,
        anchor: Anchor,
    ) -> (s: ImageStimulus)
        ensures
            s.params == params,
            s.image == image,
            s.anchor == anchor,
            s.transformation == (match transform {
                Some(t) => t,
                None => Transformation2D::Identity,
            }),
            s.visible == true,
            s.animations@.len() == 0,
            s.wf(),
    {
        let transformation = match transform {
            Some(t) => t,
            None => Transformation2D::identity(),
        };
        ImageStimulus {
            id: fresh_id(),
            params,
            image,
            anchor,
            transformation,
            animations: Vec::new(),
            visible: true,
        }
    }

    /// The stimulus identity.
    pub fn uuid(&self) -> (r: u128)
        ensures
            r == self.id,
    {
        self.id
    }

    /// Whether the stimulus is drawn.
    pub fn visible(&self) -> (r: bool)
        ensures
            r == self.visible,
    {
        self.visible
    }

    /// Shows or hides the stimulus.
    pub fn set_visible(&mut self, visible: bool)
        ensures
            *final(self) == (ImageStimulus { visible, ..*old(self) }),
    {
        self.visible = visible;
    }

    /// The stimulus transformation.
    pub fn transformation(&self) -> (t: Transformation2D)
        ensures
            t == self.transformation,
    {
        self.transformation.clone()
    }

    /// Replaces the stimulus transformation.
    pub fn set_transformation(&mut self, t: Transformation2D)
        ensures
            *final(self) == (ImageStimulus { transformation: t, ..*old(self) }),
    {
        self.transformation = t;
    }

    /// Composes a transformation on top of the current one (the current
    /// one applies first).
    pub fn add_transformation(&mut self, t: Transformation2D)
        ensures
            final(self).transformation == Transformation2D::Product(
                Box::new(t),
                Box::new(old(self).transformation),
            ),
            *final(self) == (ImageStimulus {
                transformation: final(self).transformation,
                ..*old(self)
            }),
    {
        let prev = self.transformation();
        self.transformation = t.after(prev);
    }

    /// Registers an animation.
    pub fn add_animation(&mut self, a: Animation)
        requires
            animation_wf(a),
        ensures
            final(self).animations@ == old(self).animations@.push(a),
            *final(self) == (ImageStimulus { animations: final(self).animations, ..*old(self) }),
            old(self).wf() ==> final(self).wf(),
    {
        self.animations.push(a);
    }

    /// The parameter value for a name, or `None` when the stimulus has no
    /// such parameter.
    pub fn get_param(&self, name: ParamName) -> (r: Option<StimulusParamValue>)
        ensures
            r == spec_image_get_param(*self, name),
    {
        match name {
            ParamName::X => Some(StimulusParamValue::Size(self.params.x)),
            ParamName::Y => Some(StimulusParamValue::Size(self.params.y)),
            ParamName::Width => Some(StimulusParamValue::Size(self.params.width)),
            ParamName::Height => Some(StimulusParamValue::Size(self.params.height)),
            ParamName::Rotation => Some(StimulusParamValue::Num(self.params.rotation)),
            ParamName::Opacity => Some(StimulusParamValue::Num(self.params.opacity)),
            ParamName::ImageX => Some(StimulusParamValue::Size(self.params.image_x)),
            ParamName::ImageY => Some(StimulusParamValue::Size(self.params.image_y)),
            _ => None,
        }
    }

    /// Sets the parameter with the given name; a value of the wrong kind,
    /// or an unknown name, changes nothing.
    pub fn set_param(&mut self, name: ParamName, v: StimulusParamValue)
        ensures
            final(self).params == spec_image_set_param(old(self).params, name, v),
            *final(self) == (ImageStimulus { params: final(self).params, ..*old(self) }),
    {
        apply_image_param(&mut self.params, name, v);
    }

    /// Advances every animation to `now` and applies its value to its
    /// parameter, in registration order.
    pub fn update_animations(&mut self, now_us: u64)
        requires
            old(self).wf(),
        ensures
            final(self).params == spec_image_params_after(
                old(self).params,
                old(self).animations@,
                now_us,
            ),
            *final(self) == (ImageStimulus { params: final(self).params, ..*old(self) }),
            final(self).wf(),
    {
        let n = self.animations.len();
        let mut i: usize = 0;
        let ghost p0 = self.params;
        proof {
            assert(self.animations@.take(0) =~= Seq::<Animation>::empty());
        }
        while i < n
            invariant
                i <= n == self.animations@.len(),
                forall|k: int|
                    0 <= k < self.animations@.len() ==> animation_wf(
                        #[trigger] self.animations@[k],
                    ),
                self.params == spec_image_params_after(p0, self.animations@.take(i as int), now_us),
                *self == (ImageStimulus { params: self.params, ..*old(self) }),
            decreases n - i,
        {
            let a = self.animations[i];
            let v = animation_value(&a, now_us);
            apply_image_param(&mut self.params, a.param, StimulusParamValue::Num(v));
            proof {
                assert(self.animations@.take(i + 1).drop_last() =~= self.animations@.take(i as int));
            }
            i = i + 1;
        }
        proof {
            assert(self.animations@.take(n as int) =~= self.animations@);
        }
    }

    /// Appends this stimulus's one draw command to the scene: nothing when
    /// hidden, otherwise its image-filled box, leaving everything already
    /// recorded, the scene's layers and its background untouched.
    #[verifier::rlimit(60)]
    pub fn draw(&self, scene: &mut Scene, win: PixelSize, screen: PhysicalScreen)
        requires
            old(scene).wf(),
            self.wf(),
            screen.pixel_density_upmm <= DENSITY_LIMIT,
            screen.viewing_distance_um <= DISTANCE_LIMIT,
        ensures
            final(scene).wf(),
            final(scene).width == old(scene).width,
            final(scene).height == old(scene).height,
            final(scene).bg_color == old(scene).bg_color,
            final(scene).open_layers == old(scene).open_layers,
            !self.visible ==> final(scene).commands@ == old(scene).commands@,
            self.visible ==> final(scene).commands@.len() == old(scene).commands@.len() + 1,
            self.visible ==> final(scene).commands@.take(old(scene).commands@.len() as int) == old(
                scene,
            ).commands@,
            self.visible ==> image_commands_match(
                *self,
                win,
                screen,
                final(scene).commands@.skip(old(scene).commands@.len() as int),
            ),
    {
        if !self.visible {
            return ;
        }
        let ghost n0 = scene.commands@.len() as int;
        let x = self.params.x.eval(win, screen);
        let y = self.params.y.eval(win, screen);
        let w = self.params.width.eval(win, screen);
        let h = self.params.height.eval(win, screen);
        let (ax, ay) = self.anchor.to_top_left(x, y, w, h);
        let iox = self.params.image_x.eval(win, screen);
        let ioy = self.params.image_y.eval(win, screen);
        let s = crate::trig::sin_mdeg(self.params.rotation);
        let c = crate::trig::cos_mdeg(self.params.rotation);
        let rot = Affine::translate(x, y).compose(&Affine::rotation_parts(s, c)).compose(
            &Affine::translate(-x, -y),
        );
        let tm = self.transformation.eval(win, screen).compose(&rot);
        scene.draw_shape_fill(
            crate::shapes::Shape::Rectangle { a: Point { x: ax, y: ay }, w, h },
            Brush::Image {
                image: self.image.clone(),
                start: Point { x: ax + iox, y: ay + ioy },
                fit_mode: ImageFitMode::Exact { width: w, height: h },
                sampling: ImageSampling::Linear,
                edge_mode: EdgeModes { horizontal: Extend::Pad, vertical: Extend::Pad },
                transform: None,
                alpha: Some(self.params.opacity),
            },
            Some(tm),
            None,
        );
        proof {
            assert(scene.commands@.take(n0) =~= old(scene).commands@);
            assert(image_commands_match(*self, win, screen, scene.commands@.skip(n0)));
        }
    }

    /// Whether the given point lies inside the stimulus's box, after the
    /// stimulus's transformation is applied to the point.
    pub fn contains(&self, px: Size, py: Size, win: PixelSize, screen: PhysicalScreen) -> (r: bool)
        requires
            screen.pixel_density_upmm <= DENSITY_LIMIT,
            screen.viewing_distance_um <= DISTANCE_LIMIT,
        ensures
            r == spec_image_contains(*self, px, py, win, screen),
    {
        let m = self.transformation.eval(win, screen);
        let p = Point { x: px.eval(win, screen), y: py.eval(win, screen) };
        let t = m.apply(p);
        let ix: i128 = self.params.x.eval(win, screen) as i128;
        let iy: i128 = self.params.y.eval(win, screen) as i128;
        let w: i128 = self.params.width.eval(win, screen) as i128;
        let h: i128 = self.params.height.eval(win, screen) as i128;
        ix <= t.x as i128 && t.x as i128 <= ix + w && iy <= t.y as i128 && t.y as i128 <= iy + h
    }
}

/// One stimulus of any kind, exposing the uniform draw contract.
#[derive(Debug)]
pub enum DynamicStimulus {
    /// A shape with a uniform or patterned fill.
    Pattern(PatternStimulus),
    /// A bitmap image.
    Image(ImageStimulus),
}

impl DynamicStimulus {
    /// Well-formedness of the underlying stimulus.
    pub open spec fn wf(&self) -> bool {
        match self {
            DynamicStimulus::Pattern(s) => s.wf(),
            DynamicStimulus::Image(s) => s.wf(),
        }
    }

    /// The stimulus can be drawn.
    pub open spec fn drawable(&self) -> bool {
        match self {
            DynamicStimulus::Pattern(s) => s.drawable(),
            DynamicStimulus::Image(_) => true,
        }
    }

    /// Whether the stimulus is drawn.
    pub open spec fn spec_visible(&self) -> bool {
        match self {
            DynamicStimulus::Pattern(s) => s.visible,
            DynamicStimulus::Image(s) => s.visible,
        }
    }

    /// How many commands the stimulus draws when visible.
    pub open spec fn spec_cmd_count(&self) -> int {
        match self {
            DynamicStimulus::Pattern(s) => spec_pattern_cmd_count(*s),
            DynamicStimulus::Image(_) => 1,
        }
    }

    /// `cmds` is exactly what this stimulus draws when visible, and empty
    /// when it is hidden.
    pub open spec fn commands_match(
        &self,
        win: PixelSize,
        screen: PhysicalScreen,
        cmds: Seq<DrawCommand>,
    ) -> bool {
        if self.spec_visible() {
            match self {
                DynamicStimulus::Pattern(s) => pattern_commands_match(*s, win, screen, cmds),
                DynamicStimulus::Image(s) => image_commands_match(*s, win, screen, cmds),
            }
        } else {
            cmds.len() == 0
        }
    }

    /// How many commands the stimulus appends: none when hidden.
    pub open spec fn spec_drawn_len(&self) -> int {
        if self.spec_visible() {
            self.spec_cmd_count()
        } else {
            0
        }
    }

    /// The stimulus identity.
    pub fn uuid(&self) -> (r: u128)
        ensures
            r == self.spec_uuid(),
    {
        match self {
            DynamicStimulus::Pattern(s) => s.uuid(),
            DynamicStimulus::Image(s) => s.uuid(),
        }
    }

    /// The stimulus identity.
    pub open spec fn spec_uuid(&self) -> u128 {
        match self {
            DynamicStimulus::Pattern(s) => s.id,
            DynamicStimulus::Image(s) => s.id,
        }
    }

    /// Whether the stimulus is drawn.
    pub fn visible(&self) -> (r: bool)
        ensures
            r == self.spec_visible(),
    {
        match self {
            DynamicStimulus::Pattern(s) => s.visible(),
            DynamicStimulus::Image(s) => s.visible(),
        }
    }

    /// Shows or hides the stimulus.
    pub fn set_visible(&mut self, visible: bool)
        ensures
            final(self).spec_visible() == visible,
            old(self).wf() ==> final(self).wf(),
            final(self).drawable() == old(self).drawable(),
    {
        match self {
            DynamicStimulus::Pattern(s) => s.set_visible(visible),
            DynamicStimulus::Image(s) => s.set_visible(visible),
        }
    }

    /// Advances every animation of the stimulus to `now`.
    pub fn update_animations(&mut self, now_us: u64)
        requires
            old(self).wf(),
        ensures
            final(self).wf(),
            final(self).spec_visible() == old(self).spec_visible(),
            final(self).drawable() == old(self).drawable(),
    {
        match self {
            DynamicStimulus::Pattern(s) => s.update_animations(now_us),
            DynamicStimulus::Image(s) => s.update_animations(now_us),
        }
    }

    /// Appends this stimulus's draw commands to the scene: nothing when
    /// hidden, exactly its own command run otherwise, leaving everything
    /// already recorded, the scene's layers and its background untouched.
    pub fn draw(&self, scene: &mut Scene, win: PixelSize, screen: PhysicalScreen)
        requires
            old(scene).wf(),
            self.wf(),
            self.drawable(),
            screen.pixel_density_upmm <= DENSITY_LIMIT,
            screen.viewing_distance_um <= DISTANCE_LIMIT,
        ensures
            final(scene).wf(),
            final(scene).width == old(scene).width,
            final(scene).height == old(scene).height,
            final(scene).bg_color == old(scene).bg_color,
            final(scene).open_layers == old(scene).open_layers,
            final(scene).commands@.len() == old(scene).commands@.len() + self.spec_drawn_len(),
            final(scene).commands@.take(old(scene).commands@.len() as int) == old(scene).commands@,
            self.commands_match(
                win,
                screen,
                final(scene).commands@.skip(old(scene).commands@.len() as int),
            ),
    {
        let ghost n0 = scene.commands@.len() as int;
        match self {
            DynamicStimulus::Pattern(s) => s.draw(scene, win, screen),
            DynamicStimulus::Image(s) => s.draw(scene, win, screen),
        }
        proof {
            if !self.spec_visible() {
                assert(scene.commands@.take(n0) =~= old(scene).commands@);
                assert(scene.commands@.skip(n0) =~= Seq::<DrawCommand>::empty());
            }
        }
    }

    /// Whether the given point lies inside the stimulus, after the
    /// stimulus's transformation is applied to the point.
    pub fn contains(&self, px: Size, py: Size, win: PixelSize, screen: PhysicalScreen) -> (r: bool)
        requires
            screen.pixel_density_upmm <= DENSITY_LIMIT,
            screen.viewing_distance_um <= DISTANCE_LIMIT,
        ensures
            r == self.spec_contains(px, py, win, screen),
    {
        match self {
            DynamicStimulus::Pattern(s) => s.contains(px, py, win, screen),
            DynamicStimulus::Image(s) => s.contains(px, py, win, screen),
        }
    }

    /// Whether the given point lies inside the stimulus.
    pub open spec fn spec_contains(
        &self,
        px: Size,
        py: Size,
        win: PixelSize,
        screen: PhysicalScreen,
    ) -> bool {
        match self {
            DynamicStimulus::Pattern(s) => spec_pattern_contains(*s, px, py, win, screen),
            DynamicStimulus::Image(s) => spec_image_contains(*s, px, py, win, screen),
        }
    }

    /// The parameter value for a name, or `None` when the stimulus has no
    /// such parameter.
    pub fn get_param(&self, name: ParamName) -> (r: Option<StimulusParamValue>)
        ensures
            r == (match self {
                DynamicStimulus::Pattern(s) => spec_pattern_get_param(*s, name),
                DynamicStimulus::Image(s) => spec_image_get_param(*s, name),
            }),
    {
        match self {
            DynamicStimulus::Pattern(s) => s.get_param(name),
            DynamicStimulus::Image(s) => s.get_param(name),
        }
    }

    /// Sets the parameter with the given name; a value of the wrong kind,
    /// or an unknown name, changes nothing.
    pub fn set_param(&mut self, name: ParamName, v: StimulusParamValue)
        requires
            old(self).wf(),
        ensures
            final(self).wf(),
            final(self).spec_visible() == old(self).spec_visible(),
            match (*old(self), *final(self)) {
                (DynamicStimulus::Pattern(s0), DynamicStimulus::Pattern(s1)) => s1.params
                    == spec_pattern_set_param(s0.params, name, v),
                (DynamicStimulus::Image(s0), DynamicStimulus::Image(s1)) => s1.params
                    == spec_image_set_param(s0.params, name, v),
                _ => false,
            },
    {
        match self {
            DynamicStimulus::Pattern(s) => s.set_param(name, v),
            DynamicStimulus::Image(s) => s.set_param(name, v),
        }
    }

    /// Registers an animation on the stimulus.
    pub fn add_animation(&mut self, a: Animation)
        requires
            animation_wf(a),
            old(self).wf(),
        ensures
            final(self).wf(),
            final(self).spec_visible() == old(self).spec_visible(),
    {
        match self {
            DynamicStimulus::Pattern(s) => s.add_animation(a),
            DynamicStimulus::Image(s) => s.add_animation(a),
        }
    }

    /// The stimulus transformation.
    pub fn transformation(&self) -> (t: Transformation2D)
        ensures
            t == (match self {
                DynamicStimulus::Pattern(s) => s.transform,
                DynamicStimulus::Image(s) => s.transformation,
            }),
    {
        match self {
            DynamicStimulus::Pattern(s) => s.transformation(),
            DynamicStimulus::Image(s) => s.transformation(),
        }
    }

    /// Replaces the stimulus transformation.
    pub fn set_transformation(&mut self, t: Transformation2D)
        ensures
            old(self).wf() ==> final(self).wf(),
            final(self).spec_visible() == old(self).spec_visible(),
    {
        match self {
            DynamicStimulus::Pattern(s) => s.set_transformation(t),
            DynamicStimulus::Image(s) => s.set_transformation(t),
        }
    }

    /// Composes a transformation on top of the current one.
    pub fn add_transformation(&mut self, t: Transformation2D)
        ensures
            old(self).wf() ==> final(self).wf(),
            final(self).spec_visible() == old(self).spec_visible(),
    {
        match self {
            DynamicStimulus::Pattern(s) => s.add_transformation(t),
            DynamicStimulus::Image(s) => s.add_transformation(t),
        }
    }
}

} // verus!
