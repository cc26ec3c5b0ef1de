//! Color types.
//!
//! All blending arithmetic must happen in linear space, so every color that
//! enters the toolkit is normalized to a linear RGBA value ([`LinRgba`]).
//! Colors may arrive as direct linear values, as sRGB values (decoded with
//! the standard transfer function on entry) or as CSS color strings (parsed,
//! then sRGB-decoded). Channels are fixed-point micro units
//! (`1_000_000 == 1.0`).

use vstd::prelude::*;

use crate::errors::PsydkError;
use crate::errors::PsydkResult;
use crate::transfer::spec_srgb_to_linear;
use crate::transfer::spec_linear_to_srgb;
use crate::transfer::srgb_to_linear_channel;
use crate::transfer::linear_to_srgb_channel;
use crate::transfer::CHANNEL_ONE;

verus! {

/// Whether channel values carry the sRGB transfer function or are linear.
#[derive(Debug, Clone, Copy, PartialEq, Eq, Structural)]
pub enum ColorEncoding {
    /// RGB color space without transfer function (linear).
    Linear,
    /// RGB color space with sRGB transfer function.
    Srgb,
}

/// Per-channel storage format of a texture.
#[derive(Debug, Clone, Copy, PartialEq, Eq, Structural)]
pub enum ColorFormat {
    /// 8-bit unsigned integer per channel.
    UNorm8,
    /// 10-bit unsigned integer per channel.
    UNorm10,
    /// 16-bit unsigned integer per channel.
    UNorm16,
    /// 16-bit floating point per channel.
    Float16,
}

/// Color space tag attached to bitmap data handed to a renderer backend.
#[derive(Debug, Clone, Copy, PartialEq, Eq, Structural)]
pub enum ColorSpace {
    LinearSrgb,
    Srgb,
}

/// A linear RGBA color; channels are micro units, 1.0 == 1_000_000.
#[derive(Debug, Clone, Copy, PartialEq, Eq, Structural)]
pub struct LinRgba {
    pub r: i64,
    pub g: i64,
    pub b: i64,
    pub a: i64,
}

/// A micro-unit channel lies in the nominal `[0, 1]` range.
pub open spec fn channel_in_range(c: i64) -> bool {
    0 <= c <= CHANNEL_ONE
}

/// All four channels lie in the nominal `[0, 1]` range.
pub open spec fn color_in_range(c: LinRgba) -> bool {
    channel_in_range(c.r) && channel_in_range(c.g) && channel_in_range(c.b) && channel_in_range(
        c.a,
    )
}

/// The micro-unit value of an 8-bit channel, rounded to nearest.
pub open spec fn spec_u8_to_micro(c: u8) -> u32 {
    ((2 * c * 1_000_000 + 255) / 510) as u32
}

/// An 8-bit channel code value has been parsed from a CSS color string: the
/// `(r, g, b, a)` bytes that `csscolorparser` reports for the string, or
/// `None` when the string is not a CSS color.
pub uninterp spec fn css_color_of(s: Seq<char>) -> Option<(u8, u8, u8, u8)>;

/// Relies on `csscolorparser::parse`, whose result depends on the string
/// alone, and on `csscolorparser::Color::to_rgba8`, which scales each
/// channel to `0..=255`.
#[verifier::external_body]
fn parse_css_color(s: &str) -> (r: Option<(u8, u8, u8, u8)>)
    ensures
        r == css_color_of(s@),
{
    match csscolorparser::parse(s) {
        Ok(c) => {
            let [cr, cg, cb, ca] = c.to_rgba8();
            Some((cr, cg, cb, ca))
        },
        Err(_) => None,
    }
}

/// The micro-unit value of an 8-bit channel, rounded to nearest.
fn u8_to_micro(c: u8) -> (m: u32)
    ensures
        m == spec_u8_to_micro(c),
        m <= CHANNEL_ONE,
{
    ((2 * c as u64 * 1_000_000 + 255) / 510) as u32
}

impl Default for LinRgba {
    /// The default color is fully transparent black.
    fn default() -> (c: LinRgba)
        ensures
            c == (LinRgba { r: 0, g: 0, b: 0, a: 0 }),
    {
        LinRgba { r: 0, g: 0, b: 0, a: 0 }
    }
}

impl LinRgba {
    /// Builds a linear color directly from micro-unit channels.
    pub fn new(r: i64, g: i64, b: i64, a: i64) -> (c: LinRgba)
        ensures
            c == (LinRgba { r, g, b, a }),
    {
        LinRgba { r, g, b, a }
    }

    /// Decodes an sRGB color (micro-unit channels) to linear. The alpha
    /// channel carries no transfer function and is kept as given.
    pub fn from_srgba(r: u32, g: u32, b: u32, a: u32) -> (c: LinRgba)
        requires
            r <= CHANNEL_ONE,
            g <= CHANNEL_ONE,
            b <= CHANNEL_ONE,
            a <= CHANNEL_ONE,
        ensures
            c.r == spec_srgb_to_linear(r),
            c.g == spec_srgb_to_linear(g),
            c.b == spec_srgb_to_linear(b),
            c.a == a,
            color_in_range(c),
    {
        LinRgba {
            r: srgb_to_linear_channel(r) as i64,
            g: srgb_to_linear_channel(g) as i64,
            b: srgb_to_linear_channel(b) as i64,
            a: a as i64,
        }
    }

    /// Parses a CSS color string and decodes it from sRGB to linear.
    /// Returns a parameter error for a string that is not a CSS color.
    pub fn from_str(css_color_str: &str) -> (c: PsydkResult<LinRgba>)
        ensures
            c is Ok <==> css_color_of(css_color_str@) is Some,
            c matches Ok(v) ==> {
                let (pr, pg, pb, pa) = css_color_of(css_color_str@)->0;
                &&& v.r == spec_srgb_to_linear(spec_u8_to_micro(pr))
                &&& v.g == spec_srgb_to_linear(spec_u8_to_micro(pg))
                &&& v.b == spec_srgb_to_linear(spec_u8_to_micro(pb))
                &&& v.a == spec_u8_to_micro(pa)
                &&& color_in_range(v)
            },
            c matches Err(e) ==> e matches PsydkError::ParameterError(_),
    {
        match parse_css_color(css_color_str) {
            Some((pr, pg, pb, pa)) => Ok(
                LinRgba::from_srgba(
                    u8_to_micro(pr),
                    u8_to_micro(pg),
                    u8_to_micro(pb),
                    u8_to_micro(pa),
                ),
            ),
            None => Err(PsydkError::ParameterError("Failed to parse color".to_owned())),
        }
    }

    /// The red channel in micro units.
    pub fn r(&self) -> (v: i64)
        ensures
            v == self.r,
    {
        self.r
    }

    /// The green channel in micro units.
    pub fn g(&self) -> (v: i64)
        ensures
            v == self.g,
    {
        self.g
    }

    /// The blue channel in micro units.
    pub fn b(&self) -> (v: i64)
        ensures
            v == self.b,
    {
        self.b
    }

    /// The alpha channel in micro units.
    pub fn a(&self) -> (v: i64)
        ensures
            v == self.a,
    {
        self.a
    }

    /// The red channel as an 8-bit code value.
    pub fn r_u8(&self) -> (v: u8)
        ensures
            v == spec_micro_to_u8(self.r),
    {
        micro_to_u8(self.r)
    }

    /// The green channel as an 8-bit code value.
    pub fn g_u8(&self) -> (v: u8)
        ensures
            v == spec_micro_to_u8(self.g),
    {
        micro_to_u8(self.g)
    }

    /// The blue channel as an 8-bit code value.
    pub fn b_u8(&self) -> (v: u8)
        ensures
            v == spec_micro_to_u8(self.b),
    {
        micro_to_u8(self.b)
    }

    /// The alpha channel as an 8-bit code value.
    pub fn a_u8(&self) -> (v: u8)
        ensures
            v == spec_micro_to_u8(self.a),
    {
        micro_to_u8(self.a)
    }
}

/// A micro-unit channel scaled to `0..=255`, rounded to nearest and
/// saturated at the ends.
pub open spec fn spec_micro_to_u8(c: i64) -> u8 {
    if c <= 0 {
        0u8
    } else if (2 * c * 255 + 1_000_000) / 2_000_000 >= 255 {
        255u8
    } else {
        ((2 * c * 255 + 1_000_000) / 2_000_000) as u8
    }
}

/// A micro-unit channel scaled to `0..=255`, rounded to nearest and
/// saturated at the ends.
pub fn micro_to_u8(c: i64) -> (v: u8)
    ensures
        v == spec_micro_to_u8(c),
{
    if c <= 0 {
        0
    } else {
        let q = (2 * c as i128 * 255 + 1_000_000) / 2_000_000;
        if q >= 255 {
            255
        } else {
            q as u8
        }
    }
}

/// A color with an explicit encoding tag, as handed to renderer backends.
#[allow(non_camel_case_types)]
#[derive(Debug, Clone, Copy, PartialEq, Eq, Structural)]
pub struct RGBA {
    pub r: i64,
    pub g: i64,
    pub b: i64,
    pub a: i64,
    pub encoding: ColorEncoding,
}

impl RGBA {
    /// Builds a linear-encoded color from micro-unit channels.
    pub fn new_linear(r: i64, g: i64, b: i64, a: i64) -> (c: RGBA)
        ensures
            c == (RGBA { r, g, b, a, encoding: ColorEncoding::Linear }),
    {
        RGBA { r, g, b, a, encoding: ColorEncoding::Linear }
    }

    /// Builds a color from micro-unit channels and an explicit encoding.
    pub fn new(r: i64, g: i64, b: i64, a: i64, encoding: ColorEncoding) -> (c: RGBA)
        ensures
            c == (RGBA { r, g, b, a, encoding }),
    {
        RGBA { r, g, b, a, encoding }
    }

    /// The encoding tag of this color.
    pub fn color_encoding(&self) -> (e: ColorEncoding)
        ensures
            e == self.encoding,
    {
        self.encoding
    }

    /// The channels encoded to sRGB (the alpha channel is kept linear), in
    /// micro units. The channels must lie in the nominal `[0, 1]` range.
    pub fn as_srgba(&self) -> (s: (u32, u32, u32, i64))
        requires
            channel_in_range(self.r),
            channel_in_range(self.g),
            channel_in_range(self.b),
        ensures
            s.0 == spec_linear_to_srgb(self.r as u32),
            s.1 == spec_linear_to_srgb(self.g as u32),
            s.2 == spec_linear_to_srgb(self.b as u32),
            s.3 == self.a,
    {
        (
            linear_to_srgb_channel(self.r as u32),
            linear_to_srgb_channel(self.g as u32),
            linear_to_srgb_channel(self.b as u32),
            self.a,
        )
    }

    /// Opaque white, tagged sRGB.
    pub open spec fn spec_white() -> RGBA {
        RGBA { r: 1_000_000, g: 1_000_000, b: 1_000_000, a: 1_000_000, encoding: ColorEncoding::Srgb }
    }

    /// Opaque white, tagged sRGB.
    pub fn white() -> (c: RGBA)
        ensures
            c == (RGBA {
                r: 1_000_000,
                g: 1_000_000,
                b: 1_000_000,
                a: 1_000_000,
                encoding: ColorEncoding::Srgb,
            }),
    {
        RGBA { r: 1_000_000, g: 1_000_000, b: 1_000_000, a: 1_000_000, encoding: ColorEncoding::Srgb }
    }

    /// Opaque black, tagged sRGB.
    pub fn black() -> (c: RGBA)
        ensures
            c == (RGBA { r: 0, g: 0, b: 0, a: 1_000_000, encoding: ColorEncoding::Srgb }),
    {
        RGBA { r: 0, g: 0, b: 0, a: 1_000_000, encoding: ColorEncoding::Srgb }
    }

    /// Opaque mid gray, tagged sRGB.
    pub fn gray() -> (c: RGBA)
        ensures
            c == (RGBA {
                r: 500_000,
                g: 500_000,
                b: 500_000,
                a: 1_000_000,
                encoding: ColorEncoding::Srgb,
            }),
    {
        RGBA { r: 500_000, g: 500_000, b: 500_000, a: 1_000_000, encoding: ColorEncoding::Srgb }
    }

    /// Fully transparent black, tagged sRGB.
    pub fn transparent() -> (c: RGBA)
        ensures
            c == (RGBA { r: 0, g: 0, b: 0, a: 0, encoding: ColorEncoding::Srgb }),
    {
        RGBA { r: 0, g: 0, b: 0, a: 0, encoding: ColorEncoding::Srgb }
    }
}

/// A value that converts into a linear RGBA color; the normalized form of
/// the toolkit's color input surface (direct linear values, sRGB tuples and
/// CSS strings all normalize to the same [`LinRgba`]).
#[derive(Debug, Clone, Copy, PartialEq, Eq, Structural)]
pub struct IntoLinRgba(pub LinRgba);

impl IntoLinRgba {
    /// Wraps already-linear micro-unit channels.
    pub fn new(r: i64, g: i64, b: i64, a: i64) -> (c: IntoLinRgba)
        ensures
            c.0 == (LinRgba { r, g, b, a }),
    {
        IntoLinRgba(LinRgba { r, g, b, a })
    }

    /// The normalized linear color.
    pub fn into_lin_rgba(self) -> (c: LinRgba)
        ensures
            c == self.0,
    {
        self.0
    }
}

} // verus!
