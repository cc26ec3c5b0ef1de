//! Stimuli: hit-testing, parameters, animations, pattern tiles and the
//! scene ordering guarantee.

use psydk::color::LinRgba;
use psydk::geometry::PhysicalScreen;
use psydk::geometry::PixelSize;
use psydk::geometry::Shape;
use psydk::geometry::Size;
use psydk::scene::DrawCommand;
use psydk::scene::StrokeStyle;
use psydk::stimuli::pattern_pixel_data;
use psydk::stimuli::Anchor;
use psydk::stimuli::Animation;
use psydk::stimuli::DynamicStimulus;
use psydk::stimuli::FillPattern;
use psydk::stimuli::ImageParams;
use psydk::stimuli::ImageStimulus;
use psydk::stimuli::ParamName;
use psydk::stimuli::PatternStimulus;
use psydk::stimuli::StimulusParamValue;
use psydk::bitmaps::DynamicBitmap;
use psydk::color::ColorSpace;
use psydk::frame::Frame;
use psydk::transform::Transformation2D;

const PX: i64 = 1_000_000;

fn screen() -> PhysicalScreen {
    PhysicalScreen::new(800, 300_000, 1_000_000)
}

fn win() -> PixelSize {
    PixelSize::new(800, 600)
}

fn rect_stimulus(x: i64, y: i64, w: i64, h: i64) -> PatternStimulus {
    PatternStimulus::new(
        Shape::Rectangle {
            x: Size::Pixels(x * PX),
            y: Size::Pixels(y * PX),
            width: Size::Pixels(w * PX),
            height: Size::Pixels(h * PX),
        },
        Size::Pixels(0),
        Size::Pixels(0),
        0,
        0,
        Size::Pixels(100 * PX),
        LinRgba::new(PX, 0, 0, PX),
        LinRgba::new(0, 0, 0, PX),
        FillPattern::Uniform,
        0,
        StrokeStyle::new(PX),
        LinRgba::new(0, 0, 0, PX),
        Size::Pixels(0),
        None,
        Transformation2D::Identity,
    )
}

#[test]
fn rectangle_contains_center_and_not_far_points() {
    // A rectangle at x=0, y=0, width=100, height=100 with the identity
    // transform contains (0, 0) — its own corner-origin point — and a
    // point at its center, but not (1000, 1000).
    let s = rect_stimulus(0, 0, 100, 100);
    assert!(s.contains(Size::Pixels(0), Size::Pixels(0), win(), screen()));
    assert!(s.contains(Size::Pixels(50 * PX), Size::Pixels(50 * PX), win(), screen()));
    assert!(s.contains(Size::Pixels(100 * PX), Size::Pixels(100 * PX), win(), screen()));
    assert!(!s.contains(Size::Pixels(1000 * PX), Size::Pixels(1000 * PX), win(), screen()));
    assert!(!s.contains(Size::Pixels(-PX), Size::Pixels(0), win(), screen()));
}

#[test]
fn circle_contains_center_and_not_outside() {
    let s = PatternStimulus::new(
        Shape::Circle {
            x: Size::Pixels(10 * PX),
            y: Size::Pixels(20 * PX),
            radius: Size::Pixels(5 * PX),
        },
        Size::Pixels(0),
        Size::Pixels(0),
        0,
        0,
        Size::Pixels(100 * PX),
        LinRgba::new(PX, 0, 0, PX),
        LinRgba::new(0, 0, 0, PX),
        FillPattern::Uniform,
        0,
        StrokeStyle::new(PX),
        LinRgba::new(0, 0, 0, PX),
        Size::Pixels(0),
        None,
        Transformation2D::Identity,
    );
    assert!(s.contains(Size::Pixels(10 * PX), Size::Pixels(20 * PX), win(), screen()));
    assert!(s.contains(Size::Pixels(13 * PX), Size::Pixels(20 * PX), win(), screen()));
    assert!(!s.contains(Size::Pixels(16 * PX), Size::Pixels(20 * PX), win(), screen()));
}

#[test]
fn image_stimulus_contains_its_box() {
    let bitmap = DynamicBitmap::new_raster(64, 64, ColorSpace::Srgb);
    let s = ImageStimulus::from_image(
        bitmap,
        ImageParams {
            x: Size::Pixels(0),
            y: Size::Pixels(0),
            width: Size::Pixels(100 * PX),
            height: Size::Pixels(100 * PX),
            rotation: 0,
            opacity: PX,
            image_x: Size::Pixels(0),
            image_y: Size::Pixels(0),
        },
        None,
        Anchor::Center,
    );
    assert!(s.contains(Size::Pixels(0), Size::Pixels(0), win(), screen()));
    assert!(s.contains(Size::Pixels(100 * PX), Size::Pixels(100 * PX), win(), screen()));
    assert!(!s.contains(Size::Pixels(1000 * PX), Size::Pixels(1000 * PX), win(), screen()));
}

#[test]
fn pattern_tiles_hold_the_fill_and_background_colors() {
    let fg = LinRgba::new(PX, 0, 0, PX);
    let bg = LinRgba::new(0, PX, 0, PX);
    let stripes = pattern_pixel_data(fg, bg, FillPattern::Stripes);
    assert_eq!(stripes, vec![PX, 0, 0, PX, 0, PX, 0, PX]);
    let checker = pattern_pixel_data(fg, bg, FillPattern::Checkerboard);
    assert_eq!(checker.len(), 16);
    assert_eq!(&checker[0..4], &[PX, 0, 0, PX]);
    assert_eq!(&checker[4..8], &[0, PX, 0, PX]);
    assert_eq!(&checker[8..12], &[0, PX, 0, PX]);
    assert_eq!(&checker[12..16], &[PX, 0, 0, PX]);
    assert!(pattern_pixel_data(fg, bg, FillPattern::Uniform).is_empty());

    let s = PatternStimulus::new(
        Shape::Rectangle {
            x: Size::Pixels(0),
            y: Size::Pixels(0),
            width: Size::Pixels(10 * PX),
            height: Size::Pixels(10 * PX),
        },
        Size::Pixels(0),
        Size::Pixels(0),
        0,
        0,
        Size::Pixels(100 * PX),
        fg,
        bg,
        FillPattern::Checkerboard,
        0,
        StrokeStyle::new(PX),
        LinRgba::new(0, 0, 0, PX),
        Size::Pixels(0),
        None,
        Transformation2D::Identity,
    );
    assert!(s.pattern_image.is_some());
    assert_eq!(s.pattern_data, checker);
}

#[test]
fn parameters_read_back_what_was_set() {
    let mut s = rect_stimulus(0, 0, 100, 100);
    assert_eq!(
        s.get_param(ParamName::FillColor),
        Some(StimulusParamValue::Color(LinRgba::new(PX, 0, 0, PX)))
    );
    s.set_param(ParamName::X, StimulusParamValue::Size(Size::Millimeters(5 * PX)));
    assert_eq!(
        s.get_param(ParamName::X),
        Some(StimulusParamValue::Size(Size::Millimeters(5 * PX)))
    );
    // A value of the wrong kind changes nothing.
    s.set_param(ParamName::PhaseX, StimulusParamValue::Color(LinRgba::new(0, 0, 0, 0)));
    assert_eq!(s.get_param(ParamName::PhaseX), Some(StimulusParamValue::Num(0)));
    // An image-only parameter is unknown to a pattern stimulus.
    assert_eq!(s.get_param(ParamName::Opacity), None);
}

#[test]
fn animations_interpolate_linearly() {
    let mut s = rect_stimulus(0, 0, 100, 100);
    s.add_animation(Animation {
        param: ParamName::PhaseX,
        from_value: 0,
        to_value: 360_000_000,
        start_us: 1_000,
        duration_us: 1_000_000,
    });
    // Before the start the parameter holds the start value.
    s.update_animations(500);
    assert_eq!(s.get_param(ParamName::PhaseX), Some(StimulusParamValue::Num(0)));
    // Half way through, half the range.
    s.update_animations(501_000);
    assert_eq!(
        s.get_param(ParamName::PhaseX),
        Some(StimulusParamValue::Num(180_000_000))
    );
    // After the end, the end value.
    s.update_animations(2_000_000);
    assert_eq!(
        s.get_param(ParamName::PhaseX),
        Some(StimulusParamValue::Num(360_000_000))
    );
}

#[test]
fn hidden_stimuli_draw_nothing_and_order_is_insertion_order() {
    let mut frame = Frame::new(LinRgba::new(0, 0, 0, PX));
    let mut hidden = rect_stimulus(0, 0, 10, 10);
    hidden.set_visible(false);
    frame.add(DynamicStimulus::Pattern(rect_stimulus(0, 0, 100, 100)));
    frame.add(DynamicStimulus::Pattern(hidden));
    let line = PatternStimulus::new(
        Shape::Line {
            x1: Size::Pixels(0),
            y1: Size::Pixels(0),
            x2: Size::Pixels(10 * PX),
            y2: Size::Pixels(10 * PX),
        },
        Size::Pixels(0),
        Size::Pixels(0),
        0,
        0,
        Size::Pixels(100 * PX),
        LinRgba::new(PX, 0, 0, PX),
        LinRgba::new(0, 0, 0, PX),
        FillPattern::Uniform,
        0,
        StrokeStyle::new(PX),
        LinRgba::new(0, PX, 0, PX),
        Size::Pixels(0),
        None,
        Transformation2D::Identity,
    );
    frame.add(DynamicStimulus::Pattern(line));

    let scene = frame.build_scene(800, 600, 0, win(), screen());
    // Rectangle: fill then stroke; hidden: nothing; line: stroke only.
    assert_eq!(scene.commands.len(), 3);
    assert!(matches!(scene.commands[0], DrawCommand::FillShape { .. }));
    assert!(matches!(scene.commands[1], DrawCommand::StrokeShape { .. }));
    assert!(matches!(scene.commands[2], DrawCommand::StrokeShape { .. }));
    assert_eq!(scene.open_layers, 0);
}

#[test]
fn anchors_place_the_box() {
    assert_eq!(Anchor::TopLeft.to_top_left(10, 20, 100, 50), (10, 20));
    assert_eq!(Anchor::Center.to_top_left(10, 20, 100, 50), (-40, -5));
    assert_eq!(Anchor::BottomRight.to_top_left(10, 20, 100, 50), (-90, -30));
}
