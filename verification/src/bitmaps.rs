//! Opaque, backend-tagged bitmap handles.
//!
//! A bitmap is created once from decoded image data (or wraps a GPU
//! texture), is never mutated afterwards, and is referenced by image
//! brushes. Identity is by handle id, standing in for the reference
//! comparison that backend objects use. A bitmap is either raster data
//! owned by the renderer backend or backed by a GPU texture whose contents
//! may be streamed into in place (the handle identity and metadata never
//! change).

use vstd::prelude::*;

use crate::color::ColorSpace;

verus! {

/// Relies on `uuid::Uuid::new_v4` (random) via `Uuid::as_u128`; nothing is
/// assumed of the value.
#[verifier::external_body]
pub(crate) fn fresh_id() -> u128 {
    uuid::Uuid::new_v4().as_u128()
}

/// Capabilities common to every bitmap handle, whatever backend owns it.
pub trait Bitmap {
    /// The handle id standing for the bitmap's identity.
    fn id(&self) -> u128;

    /// The width of the image in pixels.
    fn width(&self) -> u32;

    /// The height of the image in pixels.
    fn height(&self) -> u32;
}

/// A bitmap whose decoded raster data is owned by the renderer backend.
#[derive(Debug, PartialEq, Eq)]
pub struct RasterBitmap {
    pub handle: u128,
    pub width: u32,
    pub height: u32,
    pub color_space: ColorSpace,
}

/// A bitmap backed by a GPU texture; its texture contents may be
/// overwritten in place by streaming writes, but handle and metadata are
/// immutable.
#[derive(Debug, PartialEq, Eq)]
pub struct GpuTextureBitmap {
    pub handle: u128,
    pub width: u32,
    pub height: u32,
    pub color_space: ColorSpace,
}

impl Bitmap for RasterBitmap {
    fn id(&self) -> u128 {
        self.handle
    }

    fn width(&self) -> u32 {
        self.width
    }

    fn height(&self) -> u32 {
        self.height
    }
}

impl Bitmap for GpuTextureBitmap {
    fn id(&self) -> u128 {
        self.handle
    }

    fn width(&self) -> u32 {
        self.width
    }

    fn height(&self) -> u32 {
        self.height
    }
}

/// A bitmap handle tagged with the kind of backend resource behind it.
#[derive(Debug, PartialEq, Eq)]
pub enum DynamicBitmap {
    /// Raster data owned by the renderer backend.
    Raster(RasterBitmap),
    /// Backed by a GPU texture.
    GpuTexture(GpuTextureBitmap),
}

impl Clone for RasterBitmap {
    /// Clones produce an equal handle (the same identity).
    fn clone(&self) -> (r: Self)
        ensures
            r == *self,
    {
        RasterBitmap {
            handle: self.handle,
            width: self.width,
            height: self.height,
            color_space: self.color_space,
        }
    }
}

impl Clone for GpuTextureBitmap {
    /// Clones produce an equal handle (the same identity).
    fn clone(&self) -> (r: Self)
        ensures
            r == *self,
    {
        GpuTextureBitmap {
            handle: self.handle,
            width: self.width,
            height: self.height,
            color_space: self.color_space,
        }
    }
}

impl Clone for DynamicBitmap {
    /// Clones produce an equal handle (the same identity).
    fn clone(&self) -> (r: Self)
        ensures
            r == *self,
    {
        match self {
            DynamicBitmap::Raster(b) => DynamicBitmap::Raster(b.clone()),
            DynamicBitmap::GpuTexture(b) => DynamicBitmap::GpuTexture(b.clone()),
        }
    }
}

impl DynamicBitmap {
    /// Wraps freshly decoded raster data of the given dimensions.
    pub fn new_raster(width: u32, height: u32, color_space: ColorSpace) -> (b: DynamicBitmap)
        ensures
            b matches DynamicBitmap::Raster(r) && r.width == width && r.height == height
                && r.color_space == color_space,
    {
        DynamicBitmap::Raster(RasterBitmap { handle: fresh_id(), width, height, color_space })
    }

    /// Wraps a GPU texture of the given dimensions.
    pub fn new_gpu_texture(width: u32, height: u32, color_space: ColorSpace) -> (b: DynamicBitmap)
        ensures
            b matches DynamicBitmap::GpuTexture(r) && r.width == width && r.height == height
                && r.color_space == color_space,
    {
        DynamicBitmap::GpuTexture(GpuTextureBitmap { handle: fresh_id(), width, height, color_space })
    }

    /// The raster handle behind this bitmap, if it is one. This is the
    /// "does this bitmap belong to this backend" boundary: a tagged test,
    /// not an open-ended downcast.
    pub fn try_as(&self) -> (r: Option<&RasterBitmap>)
        ensures
            match self {
                DynamicBitmap::Raster(b) => r == Some(b),
                DynamicBitmap::GpuTexture(_) => r is None,
            },
    {
        match self {
            DynamicBitmap::Raster(b) => Some(b),
            DynamicBitmap::GpuTexture(_) => None,
        }
    }

    /// The GPU-texture handle behind this bitmap, if it is one.
    pub fn try_as_gpu_texture(&self) -> (r: Option<&GpuTextureBitmap>)
        ensures
            match self {
                DynamicBitmap::GpuTexture(b) => r == Some(b),
                DynamicBitmap::Raster(_) => r is None,
            },
    {
        match self {
            DynamicBitmap::GpuTexture(b) => Some(b),
            DynamicBitmap::Raster(_) => None,
        }
    }

    /// The handle id standing for the bitmap's identity.
    pub fn id(&self) -> (r: u128)
        ensures
            r == self.spec_id(),
    {
        match self {
            DynamicBitmap::Raster(b) => b.handle,
            DynamicBitmap::GpuTexture(b) => b.handle,
        }
    }

    /// The handle id of either variant.
    pub open spec fn spec_id(&self) -> u128 {
        match self {
            DynamicBitmap::Raster(b) => b.handle,
            DynamicBitmap::GpuTexture(b) => b.handle,
        }
    }
}

/// An image stimulus resource: a decoded bitmap handle.
#[derive(Debug, PartialEq, Eq)]
pub struct Image(pub DynamicBitmap);

impl Clone for Image {
    /// Clones produce an equal handle (the same identity).
    fn clone(&self) -> (r: Self)
        ensures
            r == *self,
    {
        Image(self.0.clone())
    }
}

/// A value that converts into an [`Image`].
#[derive(Debug, PartialEq, Eq)]
pub struct IntoImage(pub Image);

impl Clone for IntoImage {
    /// Clones produce an equal handle (the same identity).
    fn clone(&self) -> (r: Self)
        ensures
            r == *self,
    {
        IntoImage(self.0.clone())
    }
}

} // verus!
