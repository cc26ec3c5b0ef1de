//! The gamma/LUT compositor pass.
//!
//! A fixed second GPU pass samples the intermediate scene texture, applies
//! a per-channel lookup-table-based encoding (or passes linear values
//! through), and writes into the presentable surface texture. The table is
//! a 3-layer 256x256 texture array, one layer per channel: a 65536-entry
//! 1D lookup table reshaped to 2D for texture-fetch efficiency. Color
//! values entering the pass are linear; this pass is the only place where
//! sRGB or custom encoding is applied.
//!
//! This module holds everything about that pass that is plain data: the
//! uniform parameter block, LUT image validation (a calibration image must
//! be exactly 256x256, checked before any GPU upload), the
//! interleaved-to-planar reshaping of a LUT image, the default sRGB encode
//! table, and the compositor state that a resize must rebuild (the
//! intermediate texture dimensions change; the LUT contents do not).

use vstd::prelude::*;

use crate::color::spec_micro_to_u8;
use crate::errors::PsydkError;
use crate::errors::PsydkResult;
use crate::geometry::PixelSize;
use crate::transfer::spec_linear_to_srgb;
use crate::transfer::linear_to_srgb_channel;
use crate::color::micro_to_u8;

verus! {

/// Side length of each LUT texture layer.
pub const LUT_DIM: u32 = 256;

/// Entries per LUT channel layer (`LUT_DIM * LUT_DIM`).
pub const LUT_LAYER_LEN: usize = 65536;

/// The uniform parameter block of the compositor pipeline.
#[derive(Debug, Clone, Copy, PartialEq, Eq, Structural)]
pub struct GammaParams {
    /// 1 when the lookup-table correction is applied, 0 when bypassed.
    pub correction: u32,
    /// Width of each LUT texture layer.
    pub texture_width: u32,
    /// Height of each LUT texture layer.
    pub texture_height: u32,
}

impl GammaParams {
    /// The parameter block for a pass with correction on or off.
    pub fn new(encode_gamma: bool) -> (p: GammaParams)
        ensures
            p.correction == (if encode_gamma {
                1u32
            } else {
                0u32
            }),
            p.texture_width == LUT_DIM,
            p.texture_height == LUT_DIM,
    {
        GammaParams {
            correction: if encode_gamma {
                1
            } else {
                0
            },
            texture_width: LUT_DIM,
            texture_height: LUT_DIM,
        }
    }
}

/// Gamma options of a window: whether the compositor encodes at all, and
/// an optional custom calibration LUT image (the standard sRGB table is
/// used when none is given).
#[derive(Debug, Clone, PartialEq, Eq)]
pub struct GammaOptions {
    /// Whether the compositor pass applies an encoding.
    pub encode_gamma: bool,
    /// A custom calibration LUT image, if any.
    pub lut: Option<LutImage>,
}

/// A decoded calibration LUT image: interleaved 8-bit RGB rows.
#[derive(Debug, Clone, PartialEq, Eq)]
pub struct LutImage {
    pub width: u32,
    pub height: u32,
    pub data: Vec<u8>,
}

impl LutImage {
    /// The pixel data holds exactly three bytes per pixel.
    pub open spec fn wf(&self) -> bool {
        self.data@.len() == 3 * self.width * self.height
    }

    /// Wraps decoded RGB data, rejecting data whose length does not match
    /// the claimed dimensions.
    pub fn new(width: u32, height: u32, data: Vec<u8>) -> (r: PsydkResult<LutImage>)
        ensures
            r is Ok <==> data@.len() == 3 * width * height,
            r matches Ok(img) ==> img == (LutImage { width, height, data }) && img.wf(),
            r matches Err(e) ==> e matches PsydkError::DecodeError(_),
    {
        proof {
            assert((width as u128) * (height as u128) <= 0xffff_ffffu128 * 0xffff_ffffu128) by (
            nonlinear_arith)
                requires
                    width as u128 <= 0xffff_ffffu128,
                    height as u128 <= 0xffff_ffffu128,
            ;
        }
        let area: u128 = (width as u128) * (height as u128);
        let expected: u128 = 3 * area;
        proof {
            assert(expected == 3 * width * height) by (nonlinear_arith)
                requires
                    area == (width as int) * (height as int),
                    expected == 3 * area,
            ;
        }
        if (data.len() as u128) == expected {
            Ok(LutImage { width, height, data })
        } else {
            Err(PsydkError::DecodeError("LUT image data does not match its dimensions".to_owned()))
        }
    }

    /// The channel `c` of pixel `i` (row-major).
    pub open spec fn spec_channel(&self, i: int, c: int) -> u8 {
        self.data@[3 * i + c]
    }
}

/// An externally supplied calibration LUT image must be exactly 256x256
/// pixels; any other dimensions is a hard input-validation error, raised
/// before any GPU upload happens.
pub fn check_lut_dimensions(img: &LutImage) -> (r: PsydkResult<()>)
    ensures
        r is Ok <==> (img.width == LUT_DIM && img.height == LUT_DIM),
        r matches Err(e) ==> e matches PsydkError::ResourceError(_),
{
    if img.width == LUT_DIM && img.height == LUT_DIM {
        Ok(())
    } else {
        Err(
            PsydkError::ResourceError(
                "a calibration LUT image must be exactly 256x256 pixels".to_owned(),
            ),
        )
    }
}

/// Reshapes an interleaved 256x256 RGB image into the planar layout of the
/// LUT texture array: first all 65536 red bytes, then green, then blue.
pub fn planar_lut_data(img: &LutImage) -> (r: Vec<u8>)
    requires
        img.wf(),
        img.width == LUT_DIM,
        img.height == LUT_DIM,
    ensures
        r@.len() == 3 * LUT_LAYER_LEN,
        forall|j: int|
            0 <= j < 3 * LUT_LAYER_LEN ==> #[trigger] r@[j] == img.spec_channel(
                j % (LUT_LAYER_LEN as int),
                j / (LUT_LAYER_LEN as int),
            ),
{
    let mut out: Vec<u8> = Vec::new();
    let mut c: usize = 0;
    while c < 3
        invariant
            c <= 3,
            img.wf(),
            img.width == LUT_DIM,
            img.height == LUT_DIM,
            out@.len() == c * LUT_LAYER_LEN,
            forall|j: int|
                0 <= j < out@.len() ==> #[trigger] out@[j] == img.spec_channel(
                    j % (LUT_LAYER_LEN as int),
                    j / (LUT_LAYER_LEN as int),
                ),
        decreases 3 - c,
    {
        let mut i: usize = 0;
        while i < LUT_LAYER_LEN
            invariant
                c < 3,
                i <= LUT_LAYER_LEN,
                img.wf(),
                img.width == LUT_DIM,
                img.height == LUT_DIM,
                out@.len() == c * LUT_LAYER_LEN + i,
                forall|j: int|
                    0 <= j < out@.len() ==> #[trigger] out@[j] == img.spec_channel(
                        j % (LUT_LAYER_LEN as int),
                        j / (LUT_LAYER_LEN as int),
                    ),
            decreases LUT_LAYER_LEN - i,
        {
            proof {
                let j = (c * LUT_LAYER_LEN + i) as int;
                assert(j % (LUT_LAYER_LEN as int) == i && j / (LUT_LAYER_LEN as int) == c) by (
                nonlinear_arith)
                    requires
                        j == c * LUT_LAYER_LEN + i,
                        0 <= i < LUT_LAYER_LEN,
                        0 <= c < 3,
                ;
            }
            out.push(img.data[3 * i + c]);
            i = i + 1;
        }
        c = c + 1;
    }
    out
}

/// Entry `i` of the default encode table: the sRGB encoding of `i/65536`,
/// scaled to an 8-bit code value.
pub open spec fn spec_default_lut_entry(i: int) -> u8 {
    spec_micro_to_u8(spec_linear_to_srgb(((i * 1_000_000) / 65536) as u32) as i64)
}

/// Builds the default LUT: the standard sRGB inverse EOTF (encode) table,
/// identical in all three channel layers.
pub fn default_lut_data() -> (r: Vec<u8>)
    ensures
        r@.len() == 3 * LUT_LAYER_LEN,
        forall|j: int|
            0 <= j < 3 * LUT_LAYER_LEN ==> #[trigger] r@[j] == spec_default_lut_entry(
                j % (LUT_LAYER_LEN as int),
            ),
{
    let mut layer: Vec<u8> = Vec::new();
    let mut i: usize = 0;
    while i < LUT_LAYER_LEN
        invariant
            i <= LUT_LAYER_LEN,
            layer@.len() == i,
            forall|k: int| 0 <= k < i ==> #[trigger] layer@[k] == spec_default_lut_entry(k),
        decreases LUT_LAYER_LEN - i,
    {
        let x: u32 = ((i as u64 * 1_000_000) / 65536) as u32;
        let y = linear_to_srgb_channel(x);
        layer.push(micro_to_u8(y as i64));
        i = i + 1;
    }
    let mut out: Vec<u8> = Vec::new();
    let mut c: usize = 0;
    while c < 3
        invariant
            c <= 3,
            layer@.len() == LUT_LAYER_LEN,
            forall|k: int| 0 <= k < LUT_LAYER_LEN ==> #[trigger] layer@[k] == spec_default_lut_entry(k),
            out@.len() == c * LUT_LAYER_LEN,
            forall|j: int|
                0 <= j < out@.len() ==> #[trigger] out@[j] == spec_default_lut_entry(
                    j % (LUT_LAYER_LEN as int),
                ),
        decreases 3 - c,
    {
        let mut k: usize = 0;
        while k < LUT_LAYER_LEN
            invariant
                c < 3,
                k <= LUT_LAYER_LEN,
                layer@.len() == LUT_LAYER_LEN,
                forall|j: int|
                    0 <= j < LUT_LAYER_LEN ==> #[trigger] layer@[j] == spec_default_lut_entry(j),
                out@.len() == c * LUT_LAYER_LEN + k,
                forall|j: int|
                    0 <= j < out@.len() ==> #[trigger] out@[j] == spec_default_lut_entry(
                        j % (LUT_LAYER_LEN as int),
                    ),
            decreases LUT_LAYER_LEN - k,
        {
            proof {
                let j = (c * LUT_LAYER_LEN + k) as int;
                assert(j % (LUT_LAYER_LEN as int) == k) by (nonlinear_arith)
                    requires
                        j == c * LUT_LAYER_LEN + k,
                        0 <= k < LUT_LAYER_LEN,
                        0 <= c < 3,
                ;
            }
            out.push(layer[k]);
            k = k + 1;
        }
        c = c + 1;
    }
    out
}

/// The state of the compositor pass for one window: the dimensions of the
/// bound intermediate texture, whether correction is applied, and the LUT
/// texture contents.
#[derive(Debug, Clone, PartialEq, Eq)]
pub struct CompositorState {
    /// Dimensions of the intermediate texture the pass samples; they must
    /// match the window surface.
    pub size: PixelSize,
    /// Whether the lookup-table correction is applied.
    pub encode_gamma: bool,
    /// The uniform parameter block.
    pub params: GammaParams,
    /// The planar contents of the 3-layer LUT texture.
    pub lut_data: Vec<u8>,
}

impl CompositorState {
    /// The LUT data always holds three full layers.
    pub open spec fn wf(&self) -> bool {
        self.lut_data@.len() == 3 * LUT_LAYER_LEN
    }

    /// Builds the compositor state for a window.
    ///
    /// A supplied calibration image must be exactly 256x256; any other
    /// dimensions fail with a resource error before its data is reshaped or
    /// uploaded. Without one, the standard sRGB encode table is installed.
    pub fn new(size: PixelSize, lut: Option<&LutImage>, encode_gamma: bool) -> (r: PsydkResult<
        CompositorState,
    >)
        requires
            lut matches Some(img) ==> img.wf(),
        ensures
            r is Ok <==> match lut {
                Some(img) => img.width == LUT_DIM && img.height == LUT_DIM,
                None => true,
            },
            r matches Ok(s) ==> {
                &&& s.size == size
                &&& s.encode_gamma == encode_gamma
                &&& s.params.correction == (if encode_gamma {
                    1u32
                } else {
                    0u32
                })
                &&& s.params.texture_width == LUT_DIM
                &&& s.params.texture_height == LUT_DIM
                &&& s.wf()
                &&& match lut {
                    Some(img) => forall|j: int|
                        0 <= j < 3 * LUT_LAYER_LEN ==> #[trigger] s.lut_data@[j]
                            == img.spec_channel(
                            j % (LUT_LAYER_LEN as int),
                            j / (LUT_LAYER_LEN as int),
                        ),
                    None => forall|j: int|
                        0 <= j < 3 * LUT_LAYER_LEN ==> #[trigger] s.lut_data@[j]
                            == spec_default_lut_entry(j % (LUT_LAYER_LEN as int)),
                }
            },
            r matches Err(e) ==> e matches PsydkError::ResourceError(_),
    {
        let lut_data = match lut {
            Some(img) => {
                check_lut_dimensions(img)?;
                planar_lut_data(img)
            },
            None => default_lut_data(),
        };
        Ok(
            CompositorState {
                size,
                encode_gamma,
                params: GammaParams::new(encode_gamma),
                lut_data,
            },
        )
    }

    /// Rebuilds the pass for a new window size: the intermediate texture
    /// dimensions change with the window, the LUT contents are not
    /// recomputed.
    pub fn resize(&mut self, width: u32, height: u32)
        ensures
            final(self).size.width == width,
            final(self).size.height == height,
            final(self).encode_gamma == old(self).encode_gamma,
            final(self).params == old(self).params,
            final(self).lut_data == old(self).lut_data,
    {
        self.size = PixelSize { width, height };
    }

    /// The dimensions of the bound intermediate texture.
    pub fn size(&self) -> (s: PixelSize)
        ensures
            s == self.size,
    {
        self.size
    }
}

} // verus!
