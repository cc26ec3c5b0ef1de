//! Window state: lifecycle, geometry, event handlers and the scene
//! accumulator.

use psydk::color::LinRgba;
use psydk::color::ColorFormat;
use psydk::color::RGBA;
use psydk::errors::PsydkError;
use psydk::geometry::deg;
use psydk::geometry::mm;
use psydk::geometry::px;
use psydk::geometry::vh;
use psydk::geometry::vw;
use psydk::geometry::PhysicalScreen;
use psydk::geometry::PixelSize;
use psydk::geometry::Size;
use psydk::scene::BlendMode;
use psydk::scene::Brush;
use psydk::scene::Gradient;
use psydk::scene::GradientKind;
use psydk::scene::GradientStop;
use psydk::scene::Extend;
use psydk::scene::Scene;
use psydk::shapes::Affine;
use psydk::shapes::Point;
use psydk::shapes::Shape;
use psydk::window::EventKind;
use psydk::window::WindowLifecycle;
use psydk::window::WindowState;

const PX: i64 = 1_000_000;

fn screen() -> PhysicalScreen {
    // 800 px over 30 cm: 2.666... px/mm; viewing distance one meter.
    PhysicalScreen::new(800, 300_000, 1_000_000)
}

#[test]
fn physical_screen_calibration() {
    let s = screen();
    // 800 px / 300 mm = 2.6666 px per mm, in micro-pixels per millimeter.
    assert_eq!(s.pixel_density_upmm, 2_666_666);
    // The screen width reads back as 300 mm (in micrometers, truncated).
    let w = s.width(800);
    assert!((w as i64 - 300_000).abs() <= 1, "width was {}", w);
}

#[test]
fn size_units_evaluate_to_pixels() {
    let s = screen();
    let w = PixelSize::new(800, 600);
    assert_eq!(px(5 * PX).eval(w, s), 5 * PX);
    // 3 mm at 2.666 px/mm is 8 px (within rounding of the density).
    let three_mm = mm(3 * PX).eval(w, s);
    assert!((three_mm - 8 * PX).abs() < 10_000, "3 mm was {}", three_mm);
    // The full viewport width is 800 px.
    assert_eq!(vw(PX).eval(w, s), 800 * PX);
    assert_eq!(vh(PX).eval(w, s), 600 * PX);
    assert_eq!(vw(500_000).eval(w, s), 400 * PX);
    // One degree at one meter subtends about 17.45 mm, about 46.5 px.
    let one_deg = deg(PX).eval(w, s) as f64 / PX as f64;
    let expected = (std::f64::consts::PI / 180.0) * 1000.0 * (800.0 / 300.0);
    assert!(
        (one_deg - expected).abs() < 0.05,
        "1 degree was {} px, expected about {}",
        one_deg,
        expected
    );
}

#[test]
fn window_lifecycle_and_cursor_state() {
    let mut w = WindowState::new(
        PixelSize::new(800, 600),
        ColorFormat::UNorm8,
        screen(),
        None,
        true,
    )
    .unwrap();
    assert_eq!(w.lifecycle, WindowLifecycle::Open);
    assert!(w.cursor_visible());
    w.set_cursor_visible(false);
    assert!(!w.cursor_visible());
    assert_eq!(w.mouse_position(), None);
    w.set_mouse_position(Some(Point { x: 5 * PX, y: -3 * PX }));
    assert_eq!(w.mouse_position(), Some(Point { x: 5 * PX, y: -3 * PX }));
    w.set_bg_color(LinRgba::new(0, 0, 0, PX));
    assert_eq!(w.bg_color(), LinRgba::new(0, 0, 0, PX));
    w.close();
    assert_eq!(w.lifecycle, WindowLifecycle::Closed);
}

#[test]
fn event_handlers_register_dispatch_and_remove() {
    let mut w = WindowState::new(
        PixelSize::new(800, 600),
        ColorFormat::UNorm8,
        screen(),
        None,
        true,
    )
    .unwrap();
    let a = w.add_event_handler(EventKind::KeyPress);
    let b = w.add_event_handler(EventKind::Onset);
    let c = w.add_event_handler(EventKind::KeyPress);
    assert_ne!(a, b);
    assert_ne!(b, c);
    assert_ne!(a, c);
    assert_eq!(w.handlers_for(EventKind::KeyPress), vec![a, c]);
    assert_eq!(w.handlers_for(EventKind::Onset), vec![b]);
    w.remove_event_handler(a);
    assert_eq!(w.handlers_for(EventKind::KeyPress), vec![c]);
    assert_eq!(w.handlers_for(EventKind::MouseWheel), Vec::<u64>::new());
}

#[test]
fn scene_records_commands_in_order_with_balanced_layers() {
    let mut scene = Scene::new(800, 600);
    assert_eq!(scene.width(), 800);
    assert_eq!(scene.height(), 600);
    assert_eq!(scene.bg_color(), RGBA::white());
    scene.set_bg_color(RGBA::black());
    assert_eq!(scene.bg_color(), RGBA::black());

    let sh = Shape::rectangle(Point::new(0, 0), 10 * PX, 10 * PX);
    scene.start_layer(BlendMode::SourceOver, sh.clone(), None, None, PX);
    scene.draw_shape_fill(sh, Brush::Solid(RGBA::white()), None, None);
    scene.end_layer();
    assert_eq!(scene.commands.len(), 3);
    assert_eq!(scene.open_layers, 0);
}

#[test]
fn gradient_stops_must_form_an_ordered_ramp() {
    let kind = GradientKind::Linear {
        start: Point::new(0, 0),
        end: Point::new(PX, 0),
    };
    let good = vec![
        GradientStop { offset: 0, color: RGBA::black() },
        GradientStop { offset: 500_000, color: RGBA::gray() },
        GradientStop { offset: 1_000_000, color: RGBA::white() },
    ];
    assert!(Gradient::new(Extend::Pad, kind, good).is_some());
    let out_of_range = vec![GradientStop { offset: 1_000_001, color: RGBA::black() }];
    assert!(Gradient::new(Extend::Pad, kind, out_of_range).is_none());
    let unordered = vec![
        GradientStop { offset: 700_000, color: RGBA::black() },
        GradientStop { offset: 200_000, color: RGBA::white() },
    ];
    assert!(Gradient::new(Extend::Pad, kind, unordered).is_none());
}

#[test]
fn affine_transforms_compose_and_apply() {
    let t = Affine::translate(10 * PX, 5 * PX);
    let p = t.apply(Point::new(PX, PX));
    assert_eq!(p, Point::new(11 * PX, 6 * PX));
    let s = Affine::scale(2_000_000, 3_000_000);
    let q = s.apply(Point::new(PX, PX));
    assert_eq!(q, Point::new(2 * PX, 3 * PX));
    // Compose applies the right transform first.
    let ts = t.compose(&s);
    let r = ts.apply(Point::new(PX, PX));
    assert_eq!(r, Point::new(12 * PX, 8 * PX));
    let id = Affine::identity();
    assert_eq!(id.apply(Point::new(7, -9)), Point::new(7, -9));
}

#[test]
fn ndc_matrix_scales_by_two_over_extent() {
    let m = psydk::window::transformation_matrix_to_ndc(800, 600);
    // 2/800 = 0.0025, 2/600 = 0.003333... in micro units.
    assert_eq!(m.xx, 2500);
    assert_eq!(m.yy, 3333);
    // The right edge of the screen (x = 400 px) maps to 1.0 in NDC.
    let p = m.apply(Point::new(400 * PX, 300 * PX));
    assert_eq!(p.x, PX);
    assert!((p.y - PX).abs() < 1000);
}

#[test]
fn lin_rgba_default_is_transparent_black() {
    assert_eq!(LinRgba::default(), LinRgba::new(0, 0, 0, 0));
}

#[test]
fn errors_expose_message_and_recoverability() {
    let e = PsydkError::ParameterError("bad call".to_string());
    assert_eq!(e.message(), "bad call");
    assert!(e.recoverable());
    assert!(!PsydkError::TimingError("late".to_string()).recoverable());
}
