//! The scene: one frame's worth of recorded, backend-agnostic draw
//! commands.
//!
//! A scene is a mutable, single-use accumulator. Operations are recorded,
//! never rasterized at record time; a renderer backend materializes them
//! when the scene is handed to it, exactly once, after which the scene is
//! discarded. Draw order is significant: later commands composite over
//! earlier ones with the given blend mode (source-over by default). Layer
//! pushes and pops must balance; the scene tracks the open-layer depth and
//! a scene is well formed when every prefix of its command list closes no
//! more layers than it opened.

use vstd::prelude::*;

use crate::bitmaps::DynamicBitmap;
use crate::color::RGBA;
use crate::shapes::Affine;
use crate::shapes::Point;
use crate::shapes::Shape;

verus! {

/// How a brush or layer composites over what is already drawn.
#[derive(Debug, Clone, Copy, PartialEq, Eq, Structural)]
pub enum BlendMode {
    SourceOver,
    Clear,
    Source,
    Destination,
    DestinationOver,
    SourceIn,
    DestinationIn,
    SourceOut,
    DestinationOut,
    SourceAtop,
    DestinationAtop,
    Xor,
    Plus,
    Modulate,
    Multiply,
    Screen,
    Overlay,
    Darken,
    Lighten,
}

/// What happens when an image or gradient is sampled beyond its edge.
#[derive(Debug, Clone, Copy, PartialEq, Eq, Structural)]
pub enum Extend {
    /// The edge color is repeated.
    Pad,
    /// The source tiles.
    Repeat,
    /// The source tiles, mirrored.
    Reflect,
}

/// How an image brush is scaled into its target.
#[derive(Debug, Clone, Copy, PartialEq, Eq, Structural)]
pub enum ImageFitMode {
    /// The image keeps its own pixel size.
    Original,
    /// The image is scaled to exactly this size, in micro-pixels.
    Exact { width: i64, height: i64 },
}

/// How an image brush is sampled.
#[derive(Debug, Clone, Copy, PartialEq, Eq, Structural)]
pub enum ImageSampling {
    Nearest,
    Linear,
}

/// The horizontal and vertical edge policies of an image brush.
#[derive(Debug, Clone, Copy, PartialEq, Eq, Structural)]
pub struct EdgeModes {
    pub horizontal: Extend,
    pub vertical: Extend,
}

/// The geometry of a gradient.
#[derive(Debug, Clone, Copy, PartialEq, Eq, Structural)]
pub enum GradientKind {
    /// Colors run from `start` to `end`.
    Linear { start: Point, end: Point },
    /// Colors run outward from `center`.
    Radial { center: Point, radius: i64 },
    /// Colors sweep around `center` between two milli-degree angles.
    Sweep { center: Point, start_angle: i64, end_angle: i64 },
}

/// A gradient color stop: an offset in micro units of `[0, 1]` and a color.
#[derive(Debug, Clone, Copy, PartialEq, Eq, Structural)]
pub struct GradientStop {
    pub offset: u32,
    pub color: RGBA,
}

/// Gradient stops are a valid ramp: offsets within `[0, 1]` and
/// non-decreasing.
pub open spec fn gradient_stops_wf(stops: Seq<GradientStop>) -> bool {
    &&& forall|i: int| 0 <= i < stops.len() ==> #[trigger] stops[i].offset <= 1_000_000
    &&& forall|i: int, j: int|
        0 <= i <= j < stops.len() ==> #[trigger] stops[i].offset <= #[trigger] stops[j].offset
}

/// A gradient paint source.
#[derive(Debug, Clone, PartialEq, Eq)]
pub struct Gradient {
    pub extend: Extend,
    pub kind: GradientKind,
    pub stops: Vec<GradientStop>,
}

impl Gradient {
    /// Builds a gradient, validating that the stops form an ordered ramp
    /// with offsets in `[0, 1]`.
    pub fn new(extend: Extend, kind: GradientKind, stops: Vec<GradientStop>) -> (r: Option<
        Gradient,
    >)
        ensures
            r is Some <==> gradient_stops_wf(stops@),
            r matches Some(g) ==> g == (Gradient { extend, kind, stops }),
    {
        let n = stops.len();
        let mut i: usize = 0;
        let mut prev: u32 = 0;
        while i < n
            invariant
                i <= n == stops@.len(),
                forall|k: int| 0 <= k < i ==> #[trigger] stops@[k].offset <= 1_000_000,
                forall|k: int, l: int|
                    0 <= k <= l < i ==> #[trigger] stops@[k].offset <= #[trigger] stops@[l].offset,
                i > 0 ==> prev == stops@[i - 1].offset,
            decreases n - i,
        {
            let off = stops[i].offset;
            if off > 1_000_000 {
                return None;
            }
            if i > 0 && off < prev {
                return None;
            }
            prev = off;
            i = i + 1;
        }
        Some(Gradient { extend, kind, stops })
    }
}

/// A paint source for a fill or stroke.
#[derive(Debug, Clone, PartialEq, Eq)]
pub enum Brush {
    /// A uniform color.
    Solid(RGBA),
    /// A gradient.
    Gradient(Gradient),
    /// An image, positioned and scaled.
    Image {
        /// The bitmap to sample.
        image: DynamicBitmap,
        /// Where the image's origin lands, in micro-pixels.
        start: Point,
        /// How the image is scaled.
        fit_mode: ImageFitMode,
        /// How the image is sampled.
        sampling: ImageSampling,
        /// Horizontal and vertical edge policy.
        edge_mode: EdgeModes,
        /// An extra transform on the brush.
        transform: Option<Affine>,
        /// An alpha override in micro units, if any.
        alpha: Option<i64>,
    },
}

/// Stroke parameters; the width is in micro-pixels.
#[derive(Debug, Clone, Copy, PartialEq, Eq, Structural)]
pub struct StrokeStyle {
    pub width: i64,
}

impl StrokeStyle {
    /// A stroke style of the given micro-pixel width.
    pub fn new(width: i64) -> (s: StrokeStyle)
        ensures
            s == (StrokeStyle { width }),
    {
        StrokeStyle { width }
    }
}

impl Default for StrokeStyle {
    /// The default stroke is one pixel wide.
    fn default() -> (s: StrokeStyle)
        ensures
            s == (StrokeStyle { width: 1_000_000 }),
    {
        StrokeStyle { width: 1_000_000 }
    }
}

/// A positioned glyph of a glyph run.
#[derive(Debug, Clone, Copy, PartialEq, Eq, Structural)]
pub struct Glyph {
    /// The glyph id in its font.
    pub id: u16,
    /// The glyph position relative to the run origin, in micro-pixels.
    pub position: Point,
}

/// One recorded draw operation.
#[derive(Debug, Clone, PartialEq, Eq)]
pub enum DrawCommand {
    /// Fill a shape with a brush.
    FillShape {
        shape: Shape,
        brush: Brush,
        transform: Option<Affine>,
        blend_mode: Option<BlendMode>,
    },
    /// Stroke a shape's outline with a brush.
    StrokeShape {
        shape: Shape,
        brush: Brush,
        style: StrokeStyle,
        transform: Option<Affine>,
        blend_mode: Option<BlendMode>,
    },
    /// Draw a glyph run of the font identified by `font_id` at `font_size`
    /// micro-pixels.
    Glyphs {
        position: Point,
        glyphs: Vec<Glyph>,
        font_id: u128,
        font_size: i64,
        brush: Brush,
        alpha: Option<i64>,
        transform: Option<Affine>,
        blend_mode: Option<BlendMode>,
    },
    /// Open a composition layer; everything drawn until the matching pop is
    /// composited as one with `blend_mode` and `alpha`, clipped to `clip`.
    PushLayer {
        blend_mode: BlendMode,
        clip: Shape,
        clip_transform: Option<Affine>,
        layer_transform: Option<Affine>,
        alpha: i64,
    },
    /// Close the innermost open layer.
    PopLayer,
}

/// The number of layers a command opens (+1), closes (-1) or leaves (0).
pub open spec fn command_depth_delta(c: DrawCommand) -> int {
    match c {
        DrawCommand::PushLayer { .. } => 1,
        DrawCommand::PopLayer => -1,
        _ => 0,
    }
}

/// The number of layers left open after this command sequence.
pub open spec fn commands_depth(s: Seq<DrawCommand>) -> int
    decreases s.len(),
{
    if s.len() == 0 {
        0
    } else {
        commands_depth(s.drop_last()) + command_depth_delta(s.last())
    }
}

/// Every prefix of the command sequence closes no more layers than it
/// opened.
pub open spec fn commands_balanced_prefixes(s: Seq<DrawCommand>) -> bool {
    forall|i: int| 0 <= i <= s.len() ==> commands_depth(#[trigger] s.take(i)) >= 0
}

/// One frame's worth of recorded draw commands.
#[derive(Debug)]
pub struct Scene {
    /// Width of the target in pixels.
    pub width: u32,
    /// Height of the target in pixels.
    pub height: u32,
    /// The background color the target is cleared to.
    pub bg_color: RGBA,
    /// The recorded commands, in draw order.
    pub commands: Vec<DrawCommand>,
    /// The number of layers currently open.
    pub open_layers: usize,
}

impl Scene {
    /// A scene is well formed when its open-layer count matches its
    /// commands and no prefix over-closes.
    pub open spec fn wf(&self) -> bool {
        &&& self.open_layers == commands_depth(self.commands@)
        &&& commands_balanced_prefixes(self.commands@)
    }

    /// All layers opened in this scene have been closed.
    pub open spec fn balanced(&self) -> bool {
        self.open_layers == 0
    }

    /// Creates a fresh scene for one presented sub-frame. It starts with no
    /// commands, no open layers, and a white background, and is consumed by
    /// exactly one renderer invocation.
    pub fn new(width: u32, height: u32) -> (s: Scene)
        ensures
            s.width == width,
            s.height == height,
            s.commands@ == Seq::<DrawCommand>::empty(),
            s.open_layers == 0,
            s.bg_color == RGBA::spec_white(),
            s.wf(),
            s.balanced(),
    {
        let s = Scene {
            width,
            height,
            bg_color: RGBA::white(),
            commands: Vec::new(),
            open_layers: 0,
        };
        proof {
            assert(s.commands@.take(0) =~= Seq::<DrawCommand>::empty());
        }
        s
    }

    /// The width of the scene's target in pixels.
    pub fn width(&self) -> (w: u32)
        ensures
            w == self.width,
    {
        self.width
    }

    /// The height of the scene's target in pixels.
    pub fn height(&self) -> (h: u32)
        ensures
            h == self.height,
    {
        self.height
    }

    /// Sets the background color the target is cleared to.
    pub fn set_bg_color(&mut self, color: RGBA)
        ensures
            final(self).bg_color == color,
            final(self).commands == old(self).commands,
            final(self).open_layers == old(self).open_layers,
            final(self).width == old(self).width,
            final(self).height == old(self).height,
    {
        self.bg_color = color;
    }

    /// The background color the target is cleared to.
    pub fn bg_color(&self) -> (c: RGBA)
        ensures
            c == self.bg_color,
    {
        self.bg_color
    }

    /// Records one command, leaving everything else unchanged.
    fn record(&mut self, c: DrawCommand)
        requires
            old(self).wf(),
            command_depth_delta(c) == 1 ==> old(self).open_layers < usize::MAX,
            command_depth_delta(c) == -1 ==> old(self).open_layers > 0,
        ensures
            final(self).commands@ == old(self).commands@.push(c),
            final(self).open_layers == old(self).open_layers + command_depth_delta(c),
            final(self).width == old(self).width,
            final(self).height == old(self).height,
            final(self).bg_color == old(self).bg_color,
            final(self).wf(),
    {
        proof {
            let s = self.commands@.push(c);
            assert(s.drop_last() =~= self.commands@);
            assert forall|i: int| 0 <= i <= s.len() implies commands_depth(
                #[trigger] s.take(i),
            ) >= 0 by {
                if i < s.len() {
                    assert(s.take(i) =~= self.commands@.take(i));
                } else {
                    assert(s.take(i) =~= s);
                }
            }
        }
        match c {
            DrawCommand::PushLayer { .. } => {
                self.open_layers = self.open_layers + 1;
            },
            DrawCommand::PopLayer => {
                self.open_layers = self.open_layers - 1;
            },
            _ => {},
        }
        self.commands.push(c);
    }

    /// Records a fill of `shape` with `brush`. The blend mode defaults to
    /// source-over when `None`.
    pub fn draw_shape_fill(
        &mut self,
        shape: Shape,
        brush: Brush,
        transform: Option<Affine>,
        blend_mode: Option<BlendMode>,
    )
        requires
            old(self).wf(),
        ensures
            final(self).commands@ == old(self).commands@.push(
                DrawCommand::FillShape { shape, brush, transform, blend_mode },
            ),
            final(self).open_layers == old(self).open_layers,
            final(self).width == old(self).width,
            final(self).height == old(self).height,
            final(self).bg_color == old(self).bg_color,
            final(self).wf(),
    {
        self.record(DrawCommand::FillShape { shape, brush, transform, blend_mode });
    }

    /// Records a stroke of `shape`'s outline with `brush` and `style`.
    pub fn draw_shape_stroke(
        &mut self,
        shape: Shape,
        brush: Brush,
        style: StrokeStyle,
        transform: Option<Affine>,
        blend_mode: Option<BlendMode>,
    )
        requires
            old(self).wf(),
        ensures
            final(self).commands@ == old(self).commands@.push(
                DrawCommand::StrokeShape { shape, brush, style, transform, blend_mode },
            ),
            final(self).open_layers == old(self).open_layers,
            final(self).width == old(self).width,
            final(self).height == old(self).height,
            final(self).bg_color == old(self).bg_color,
            final(self).wf(),
    {
        self.record(DrawCommand::StrokeShape { shape, brush, style, transform, blend_mode });
    }

    /// Records a glyph run.
    pub fn draw_glyphs(
        &mut self,
        position: Point,
        glyphs: Vec<Glyph>,
        font_id: u128,
        font_size: i64,
        brush: Brush,
        alpha: Option<i64>,
        transform: Option<Affine>,
        blend_mode: Option<BlendMode>,
    )
        requires
            old(self).wf(),
        ensures
            final(self).commands@ == old(self).commands@.push(
                DrawCommand::Glyphs {
                    position,
                    glyphs,
                    font_id,
                    font_size,
                    brush,
                    alpha,
                    transform,
                    blend_mode,
                },
            ),
            final(self).open_layers == old(self).open_layers,
            final(self).width == old(self).width,
            final(self).height == old(self).height,
            final(self).bg_color == old(self).bg_color,
            final(self).wf(),
    {
        self.record(
            DrawCommand::Glyphs {
                position,
                glyphs,
                font_id,
                font_size,
                brush,
                alpha,
                transform,
                blend_mode,
            },
        );
    }

    /// Opens a composition layer.
    pub fn start_layer(
        &mut self,
        blend_mode: BlendMode,
        clip: Shape,
        clip_transform: Option<Affine>,
        layer_transform: Option<Affine>,
        alpha: i64,
    )
        requires
            old(self).wf(),
            old(self).open_layers < usize::MAX,
        ensures
            final(self).commands@ == old(self).commands@.push(
                DrawCommand::PushLayer { blend_mode, clip, clip_transform, layer_transform, alpha },
            ),
            final(self).open_layers == old(self).open_layers + 1,
            final(self).width == old(self).width,
            final(self).height == old(self).height,
            final(self).bg_color == old(self).bg_color,
            final(self).wf(),
    {
        self.record(
            DrawCommand::PushLayer { blend_mode, clip, clip_transform, layer_transform, alpha },
        );
    }

    /// Closes the innermost open layer. There must be one: pushes and pops
    /// must balance.
    pub fn end_layer(&mut self)
        requires
            old(self).wf(),
            old(self).open_layers > 0,
        ensures
            final(self).commands@ == old(self).commands@.push(DrawCommand::PopLayer),
            final(self).open_layers == old(self).open_layers - 1,
            final(self).width == old(self).width,
            final(self).height == old(self).height,
            final(self).bg_color == old(self).bg_color,
            final(self).wf(),
    {
        self.record(DrawCommand::PopLayer);
    }
}

} // verus!
