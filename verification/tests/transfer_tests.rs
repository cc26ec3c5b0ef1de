//! Numeric checks of the fixed-point sRGB transfer functions against a
//! double-precision reference implementation of the standard piecewise
//! curves.

use psydk::color::LinRgba;
use psydk::transfer::linear_to_srgb_channel;
use psydk::transfer::srgb_to_linear_channel;
use psydk::transfer::CHANNEL_ONE;

fn reference_decode(c: f64) -> f64 {
    if c <= 0.04045 {
        c / 12.92
    } else {
        ((c + 0.055) / 1.055).powf(2.4)
    }
}

fn reference_encode(l: f64) -> f64 {
    if l <= 0.0031308 {
        12.92 * l
    } else {
        1.055 * l.powf(1.0 / 2.4) - 0.055
    }
}

#[test]
fn decode_matches_reference_within_tolerance() {
    let mut c: u32 = 0;
    while c <= CHANNEL_ONE {
        let got = srgb_to_linear_channel(c) as f64;
        let want = reference_decode(c as f64 / 1_000_000.0) * 1_000_000.0;
        assert!(
            (got - want).abs() < 100.0,
            "decode({}) = {} vs reference {}",
            c,
            got,
            want
        );
        c += 997;
    }
}

#[test]
fn encode_matches_reference_within_tolerance() {
    let mut l: u32 = 0;
    while l <= CHANNEL_ONE {
        let got = linear_to_srgb_channel(l) as f64;
        let want = reference_encode(l as f64 / 1_000_000.0) * 1_000_000.0;
        assert!(
            (got - want).abs() < 100.0,
            "encode({}) = {} vs reference {}",
            l,
            got,
            want
        );
        l += 997;
    }
}

#[test]
fn transfer_round_trip_within_tolerance() {
    // The round-trip law: decoding an sRGB channel and encoding it again
    // returns the original within 1e-4 (100 micro units), over a dense
    // sweep plus the segment boundaries.
    let mut samples: Vec<u32> = (0..=1000u32).map(|k| k * 1000).collect();
    samples.extend([1, 2, 3, 40449, 40450, 40451, 999_999, 1_000_000]);
    for c in samples {
        let rt = linear_to_srgb_channel(srgb_to_linear_channel(c));
        let diff = (rt as i64 - c as i64).abs();
        assert!(diff <= 100, "round trip of {} gave {} (diff {})", c, rt, diff);
    }
}

#[test]
fn transfer_endpoints_are_exact() {
    assert_eq!(srgb_to_linear_channel(0), 0);
    assert_eq!(srgb_to_linear_channel(1_000_000), 1_000_000);
    assert_eq!(linear_to_srgb_channel(0), 0);
    assert_eq!(linear_to_srgb_channel(1_000_000), 1_000_000);
}

#[test]
fn from_srgba_decodes_channels_and_keeps_alpha() {
    let c = LinRgba::from_srgba(500_000, 500_000, 500_000, 750_000);
    // 0.5 sRGB decodes to about 0.2140 linear.
    let want = reference_decode(0.5) * 1_000_000.0;
    assert!((c.r as f64 - want).abs() < 100.0);
    assert_eq!(c.r, c.g);
    assert_eq!(c.g, c.b);
    assert_eq!(c.a, 750_000);
}

#[test]
fn css_color_parsing_normalizes_to_linear() {
    let red = LinRgba::from_str("red").expect("red must parse");
    assert_eq!(red.r, 1_000_000);
    assert_eq!(red.g, 0);
    assert_eq!(red.b, 0);
    assert_eq!(red.a, 1_000_000);

    let hex = LinRgba::from_str("#ff0000").expect("hex red must parse");
    assert_eq!(hex.r, red.r);

    assert!(LinRgba::from_str("no-such-color").is_err());
}

#[test]
fn channel_to_u8_rounds_and_saturates() {
    let c = LinRgba::new(1_000_000, 0, 500_000, 2_000_000);
    assert_eq!(c.r_u8(), 255);
    assert_eq!(c.g_u8(), 0);
    assert_eq!(c.b_u8(), 128);
    assert_eq!(c.a_u8(), 255);
    let d = LinRgba::new(-5, 0, 0, 0);
    assert_eq!(d.r_u8(), 0);
}
