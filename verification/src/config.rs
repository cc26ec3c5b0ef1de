//! Global experiment configuration: pedantic-mode default, debug flag and
//! the internal/display color pipeline settings.

use vstd::prelude::*;

verus! {

/// Color depth used for the internal (intermediate) render texture.
#[derive(Debug, Clone, Copy, PartialEq, Eq, Structural)]
pub enum InternalColorDepth {
    /// 8-bit unsigned integer per channel.
    UNorm8,
    /// 10-bit unsigned integer per channel.
    UNorm10,
    /// 16-bit unsigned integer per channel.
    UNorm16,
    /// 16-bit floating point per channel.
    F16,
}

impl Default for InternalColorDepth {
    /// The intermediate texture defaults to 16-bit float channels.
    fn default() -> (d: InternalColorDepth)
        ensures
            d == InternalColorDepth::F16,
    {
        InternalColorDepth::F16
    }
}

/// Color format of the presentable display surface.
#[derive(Debug, Clone, Copy, PartialEq, Eq, Structural)]
pub enum DisplayColorFormat {
    /// 8-bit unsigned integer for red, green, blue.
    Rgb888Unorm,
    /// 10-bit unsigned integer for red, green, blue.
    Rgb101010Unorm,
}

impl Default for DisplayColorFormat {
    fn default() -> (f: DisplayColorFormat)
        ensures
            f == DisplayColorFormat::Rgb888Unorm,
    {
        DisplayColorFormat::Rgb888Unorm
    }
}

/// Encoding of the internal (intermediate) render texture.
#[derive(Debug, Clone, PartialEq, Eq, Structural)]
pub enum InternalColorEncoding {
    /// RGB color space without transfer function (linear).
    Linear,
    /// RGB color space with sRGB transfer function.
    Srgb,
}

impl Default for InternalColorEncoding {
    /// Stimulus drawing reasons in linear space, so the internal encoding
    /// defaults to linear.
    fn default() -> (e: InternalColorEncoding)
        ensures
            e == InternalColorEncoding::Linear,
    {
        InternalColorEncoding::Linear
    }
}

/// A per-channel lookup table mapping linear intensity to a display code
/// value.
#[derive(Debug, Clone, PartialEq, Eq)]
pub enum GammaLUT {
    /// Mapping to 8-bit unsigned integer code values.
    EightBit(Vec<u8>),
    /// Mapping to 10-bit unsigned integer code values.
    TenBit(Vec<u16>),
}

/// Encoding applied by the compositor pass before present.
#[derive(Debug, Clone, PartialEq, Eq)]
pub enum DisplayColorEncoding {
    /// Linear encoding (no correction).
    Linear,
    /// Colors encoded with the sRGB transfer function.
    Srgb,
    /// Custom LUT encoding. Requires the internal encoding to be linear.
    CustomLut(GammaLUT),
}

impl Default for DisplayColorEncoding {
    fn default() -> (e: DisplayColorEncoding)
        ensures
            e == DisplayColorEncoding::Srgb,
    {
        DisplayColorEncoding::Srgb
    }
}

/// The global configuration for an experiment.
#[derive(Debug, Clone, PartialEq, Eq)]
pub struct ExperimentConfig {
    /// Pedantic mode: reject non-integer repeat-frame resolutions instead of
    /// rounding them.
    pub pedantic: bool,
    /// Debug mode.
    pub debug: bool,
    /// Internal color depth.
    pub internal_color_depth: InternalColorDepth,
    /// Internal color encoding.
    pub internal_color_encoding: InternalColorEncoding,
    /// Display color format.
    pub display_color_format: DisplayColorFormat,
    /// Display color encoding.
    pub display_color_encoding: DisplayColorEncoding,
}

impl Default for ExperimentConfig {
    /// Pedantic mode is on by default: silent timing drift is rejected
    /// unless the caller explicitly opts out.
    fn default() -> (c: ExperimentConfig)
        ensures
            c.pedantic == true,
            c.debug == false,
            c.internal_color_depth == InternalColorDepth::F16,
            c.internal_color_encoding == InternalColorEncoding::Linear,
            c.display_color_format == DisplayColorFormat::Rgb888Unorm,
            c.display_color_encoding == DisplayColorEncoding::Srgb,
    {
        ExperimentConfig {
            pedantic: true,
            debug: false,
            internal_color_depth: InternalColorDepth::F16,
            internal_color_encoding: InternalColorEncoding::Linear,
            display_color_format: DisplayColorFormat::Rgb888Unorm,
            display_color_encoding: DisplayColorEncoding::Srgb,
        }
    }
}

} // verus!
