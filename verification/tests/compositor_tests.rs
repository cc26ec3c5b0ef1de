//! The gamma/LUT compositor: LUT validation, planar reshaping, the default
//! sRGB table, and resize behavior.

use psydk::color::ColorFormat;
use psydk::compositor::check_lut_dimensions;
use psydk::compositor::default_lut_data;
use psydk::compositor::planar_lut_data;
use psydk::compositor::CompositorState;
use psydk::compositor::GammaParams;
use psydk::compositor::LutImage;
use psydk::errors::PsydkError;
use psydk::geometry::PhysicalScreen;
use psydk::geometry::PixelSize;
use psydk::window::WindowState;

fn lut_image(width: u32, height: u32) -> LutImage {
    let data = vec![0u8; (3 * width * height) as usize];
    LutImage::new(width, height, data).expect("consistent data must be accepted")
}

#[test]
fn lut_image_data_length_is_validated() {
    assert!(LutImage::new(256, 256, vec![0u8; 3 * 256 * 256]).is_ok());
    match LutImage::new(256, 256, vec![0u8; 100]) {
        Err(PsydkError::DecodeError(_)) => {}
        other => panic!("expected a decode error, got {:?}", other),
    }
}

#[test]
fn lut_dimensions_other_than_256_by_256_fail() {
    assert!(check_lut_dimensions(&lut_image(256, 256)).is_ok());
    for (w, h) in [(255u32, 256u32), (256, 255), (128, 128), (512, 512), (1, 1)] {
        match check_lut_dimensions(&lut_image(w, h)) {
            Err(PsydkError::ResourceError(_)) => {}
            other => panic!("{}x{} must fail validation, got {:?}", w, h, other),
        }
    }
}

#[test]
fn bad_lut_fails_before_any_compositor_state_is_built() {
    let bad = lut_image(255, 256);
    match CompositorState::new(PixelSize::new(800, 600), Some(&bad), true) {
        Err(PsydkError::ResourceError(_)) => {}
        other => panic!("expected a resource error, got {:?}", other),
    }
    // The same failure propagates out of window construction.
    let screen = PhysicalScreen::new(800, 300_000, 1_000_000);
    assert!(WindowState::new(
        PixelSize::new(800, 600),
        ColorFormat::UNorm8,
        screen,
        Some(&bad),
        true
    )
    .is_err());
}

#[test]
fn planar_reshaping_separates_channels() {
    // Build a 256x256 image whose pixel i has channels (1, 2, 3) for even
    // i and (10, 20, 30) for odd i.
    let mut data = Vec::with_capacity(3 * 65536);
    for i in 0..65536usize {
        if i % 2 == 0 {
            data.extend([1u8, 2, 3]);
        } else {
            data.extend([10u8, 20, 30]);
        }
    }
    let img = LutImage::new(256, 256, data).unwrap();
    let planar = planar_lut_data(&img);
    assert_eq!(planar.len(), 3 * 65536);
    assert_eq!(planar[0], 1);
    assert_eq!(planar[1], 10);
    assert_eq!(planar[65536], 2);
    assert_eq!(planar[65537], 20);
    assert_eq!(planar[2 * 65536], 3);
    assert_eq!(planar[2 * 65536 + 1], 30);
}

#[test]
fn default_lut_is_the_srgb_encode_table() {
    let table = default_lut_data();
    assert_eq!(table.len(), 3 * 65536);
    // All three layers are identical.
    for i in [0usize, 1, 1000, 32768, 65535] {
        assert_eq!(table[i], table[65536 + i]);
        assert_eq!(table[i], table[2 * 65536 + i]);
    }
    // The table is the sRGB encode of i/65536, scaled to 8 bits; compare
    // against a double-precision reference within one code value.
    for i in (0..65536usize).step_by(127) {
        let x = i as f64 / 65536.0;
        let y = if x <= 0.0031308 {
            12.92 * x
        } else {
            1.055 * x.powf(1.0 / 2.4) - 0.055
        };
        let want = (y * 255.0).round();
        let got = table[i] as f64;
        assert!(
            (got - want).abs() <= 1.0,
            "entry {} is {} but the reference gives {}",
            i,
            got,
            want
        );
    }
    // Endpoints and monotonicity.
    assert_eq!(table[0], 0);
    assert_eq!(table[65535], 255);
    for i in 1..65536usize {
        assert!(table[i - 1] <= table[i]);
    }
}

#[test]
fn gamma_params_reflect_the_correction_switch() {
    let on = GammaParams::new(true);
    assert_eq!(on.correction, 1);
    assert_eq!(on.texture_width, 256);
    assert_eq!(on.texture_height, 256);
    let off = GammaParams::new(false);
    assert_eq!(off.correction, 0);
}

#[test]
fn resize_updates_dimensions_and_keeps_lut_contents() {
    let screen = PhysicalScreen::new(800, 300_000, 1_000_000);
    let mut w = WindowState::new(
        PixelSize::new(800, 600),
        ColorFormat::UNorm8,
        screen,
        None,
        true,
    )
    .unwrap();
    let lut_before = w.compositor.lut_data.clone();
    w.resize(PixelSize::new(1024, 768));
    // The window reports the new size and the compositor's bound
    // intermediate texture matches before the next present.
    assert_eq!(w.size().as_tuple(), (1024, 768));
    assert_eq!(w.config.width, 1024);
    assert_eq!(w.config.height, 768);
    assert_eq!(w.compositor.size.as_tuple(), (1024, 768));
    // The LUT contents are not recomputed on resize.
    assert_eq!(w.compositor.lut_data, lut_before);
}
