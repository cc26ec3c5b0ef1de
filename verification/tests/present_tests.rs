//! The repeat/timing state machine: parameter validation, pedantic mode,
//! frame-id assignment and the presentation scenarios.

use psydk::color::ColorFormat;
use psydk::color::LinRgba;
use psydk::errors::PsydkError;
use psydk::frame::Frame;
use psydk::geometry::PhysicalScreen;
use psydk::geometry::PixelSize;
use psydk::geometry::Shape;
use psydk::geometry::Size;
use psydk::present::resolve_repeat_count;
use psydk::scene::DrawCommand;
use psydk::scene::StrokeStyle;
use psydk::stimuli::DynamicStimulus;
use psydk::stimuli::FillPattern;
use psydk::stimuli::PatternStimulus;
use psydk::transform::Transformation2D;
use psydk::window::EventKind;
use psydk::window::WindowState;

fn test_screen() -> PhysicalScreen {
    // 800 px over 30 cm, one meter viewing distance.
    PhysicalScreen::new(800, 300_000, 1_000_000)
}

fn test_window() -> WindowState {
    WindowState::new(
        PixelSize::new(800, 600),
        ColorFormat::UNorm8,
        test_screen(),
        None,
        true,
    )
    .expect("window state must build without a LUT")
}

fn full_window_rectangle() -> DynamicStimulus {
    DynamicStimulus::Pattern(PatternStimulus::new(
        Shape::Rectangle {
            x: Size::ScreenWidth(-500_000),
            y: Size::ScreenHeight(-500_000),
            width: Size::ScreenWidth(1_000_000),
            height: Size::ScreenHeight(1_000_000),
        },
        Size::Pixels(0),
        Size::Pixels(0),
        0,
        0,
        Size::Pixels(100_000_000),
        LinRgba::new(1_000_000, 1_000_000, 1_000_000, 1_000_000),
        LinRgba::new(0, 0, 0, 1_000_000),
        FillPattern::Uniform,
        0,
        StrokeStyle::new(0),
        LinRgba::new(0, 0, 0, 0),
        Size::Pixels(0),
        None,
        Transformation2D::Identity,
    ))
}

#[test]
fn both_repeat_parameters_always_fail() {
    // Whatever else is set, giving both repeat_frames and repeat_time is a
    // parameter error.
    for pedantic in [true, false] {
        for refresh in [0u32, 60_000, 144_000] {
            let r = resolve_repeat_count(Some(3), Some(1_000_000), refresh, pedantic);
            match r {
                Err(PsydkError::ParameterError(_)) => {}
                other => panic!("expected a parameter error, got {:?}", other),
            }
        }
    }
}

#[test]
fn repeat_time_multiple_of_frame_time_is_accepted() {
    // One second at 60 Hz is exactly 60 frames.
    assert_eq!(resolve_repeat_count(None, Some(1_000_000), 60_000, true), Ok(60));
    // Half a second at 60 Hz is exactly 30 frames.
    assert_eq!(resolve_repeat_count(None, Some(500_000), 60_000, true), Ok(30));
}

#[test]
fn fractional_repeat_time_fails_under_pedantic_mode() {
    // One second at 59.94 Hz is 59.94 frames: not within 1e-4 of an
    // integer, so pedantic mode rejects it...
    let r = resolve_repeat_count(None, Some(1_000_000), 59_940, true);
    match r {
        Err(PsydkError::ParameterError(_)) => {}
        other => panic!("expected a parameter error, got {:?}", other),
    }
    // ...and with pedantic mode off the same call rounds to nearest.
    assert_eq!(resolve_repeat_count(None, Some(1_000_000), 59_940, false), Ok(60));
    // Rounding is to nearest: 59.4 frames round down to 59.
    assert_eq!(resolve_repeat_count(None, Some(991_000), 59_940, false), Ok(59));
}

#[test]
fn repeat_defaults_to_one_presentation() {
    assert_eq!(resolve_repeat_count(None, None, 60_000, true), Ok(1));
    assert_eq!(resolve_repeat_count(Some(5), None, 60_000, true), Ok(5));
}

#[test]
fn frame_ids_increase_by_one() {
    let mut w = test_window();
    let frame = w.get_frame();
    let p1 = w
        .plan_present(&frame, None, None, 60_000, None, true)
        .expect("first present must plan");
    let (_, _) = w.finish_present(None, 1_000);
    let p2 = w
        .plan_present(&frame, None, None, 60_000, None, true)
        .expect("second present must plan");
    let (_, _) = w.finish_present(None, 2_000);
    let p3 = w
        .plan_present(&frame, None, None, 60_000, None, true)
        .expect("third present must plan");
    assert_eq!(p1.frame_id, 1);
    assert_eq!(p2.frame_id, p1.frame_id + 1);
    assert_eq!(p3.frame_id, p2.frame_id + 1);
}

#[test]
fn present_rejection_leaves_no_bookkeeping() {
    let mut w = test_window();
    let frame = w.get_frame();
    let r = w.plan_present(&frame, Some(3), Some(1_000_000), 60_000, None, true);
    assert!(matches!(r, Err(PsydkError::ParameterError(_))));
    // The rejected call performed no work: the next accepted call gets the
    // first frame id.
    let p = w
        .plan_present(&frame, None, None, 60_000, None, true)
        .expect("plan after rejection");
    assert_eq!(p.frame_id, 1);
}

#[test]
fn single_present_scenario() {
    // A window (800x600, windowed), a frame with one solid rectangle
    // covering it, presented with all repeat arguments at default: exactly
    // one iteration, a returned onset, no error.
    let mut w = test_window();
    let mut frame = w.get_frame();
    frame.add(full_window_rectangle());
    let onset_handler = frame.add_event_handler(EventKind::Onset);

    let plan = w
        .plan_present(&frame, None, None, 60_000, None, true)
        .expect("present must be accepted");
    assert_eq!(plan.iterations, 1);

    let mut iterations = 0u32;
    let size = w.size();
    for i in 0..plan.iterations {
        let scene = frame.build_scene(
            size.width,
            size.height,
            1_000 + i as u64,
            size,
            test_screen(),
        );
        // The solid rectangle records its fill and its stroke.
        assert_eq!(scene.commands.len(), 2);
        assert!(matches!(scene.commands[0], DrawCommand::FillShape { .. }));
        iterations += 1;
    }
    assert_eq!(iterations, 1);

    let (onset, fired) = w.finish_present(None, 42_000);
    assert_eq!(onset, 42_000);
    assert_eq!(fired, vec![onset_handler]);
}

#[test]
fn five_iteration_present_scenario() {
    // The same setup presented with repeat_frames = 5: exactly five
    // sequential scene builds, each reusing the same frame's stimulus
    // list.
    let mut w = test_window();
    let mut frame = w.get_frame();
    frame.add(full_window_rectangle());

    let plan = w
        .plan_present(&frame, Some(5), None, 60_000, None, true)
        .expect("present must be accepted");
    assert_eq!(plan.iterations, 5);

    let size = w.size();
    let mut iterations = 0u32;
    for i in 0..plan.iterations {
        let scene = frame.build_scene(
            size.width,
            size.height,
            1_000 + i as u64,
            size,
            test_screen(),
        );
        assert_eq!(scene.commands.len(), 2);
        assert_eq!(frame.stimuli.len(), 1);
        iterations += 1;
    }
    assert_eq!(iterations, 5);

    let (onset, _) = w.finish_present(Some(7_000), 42_000);
    assert_eq!(onset, 7_000);
}

#[test]
fn confirmed_onset_takes_precedence() {
    let mut w = test_window();
    let frame = w.get_frame();
    w.plan_present(&frame, None, None, 60_000, None, true)
        .expect("plan");
    let (onset, _) = w.finish_present(Some(500), 900);
    assert_eq!(onset, 500);
}

#[test]
fn pedantic_override_per_call() {
    let mut w = test_window();
    let frame = w.get_frame();
    // Config says pedantic, the call opts out: the fractional duration is
    // accepted and rounded.
    let plan = w
        .plan_present(&frame, None, Some(1_000_000), 59_940, Some(false), true)
        .expect("non-pedantic call must be accepted");
    assert_eq!(plan.iterations, 60);
}
