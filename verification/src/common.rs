//! Plain value types shared by every component of the chain.

use vstd::prelude::*;

verus! {

/// The dimensions of an image in texels.
#[derive(Clone, Copy, Debug, PartialEq, Eq, Structural)]
pub struct Size {
    pub width: u32,
    pub height: u32,
}

impl Size {
    pub fn new(width: u32, height: u32) -> (size: Size)
        ensures
            size == (Size { width, height }),
    {
        Size { width, height }
    }

    /// The larger of the two dimensions.
    pub open spec fn longest(self) -> nat {
        if self.width >= self.height {
            self.width as nat
        } else {
            self.height as nat
        }
    }
}

/// Pixel format tag of an image. `Unknown` stands for "no preference";
/// wherever an image is allocated it is replaced by `R8G8B8A8Unorm`.
#[derive(Clone, Copy, Debug, PartialEq, Eq, Structural)]
pub enum ImageFormat {
    Unknown,
    R8Unorm,
    R8Uint,
    R8Sint,
    R8G8Unorm,
    R8G8Uint,
    R8G8Sint,
    R8G8B8A8Unorm,
    R8G8B8A8Uint,
    R8G8B8A8Sint,
    R8G8B8A8Srgb,
    A2B10G10R10UnormPack32,
    A2B10G10R10UintPack32,
    R16Uint,
    R16Sint,
    R16Sfloat,
    R16G16Uint,
    R16G16Sint,
    R16G16Sfloat,
    R16G16B16A16Uint,
    R16G16B16A16Sint,
    R16G16B16A16Sfloat,
    R32Uint,
    R32Sint,
    R32Sfloat,
    R32G32Uint,
    R32G32Sint,
    R32G32Sfloat,
    R32G32B32A32Uint,
    R32G32B32A32Sint,
    R32G32B32A32Sfloat,
}

impl ImageFormat {
    /// The format an allocation uses for this tag.
    pub open spec fn resolved(self) -> ImageFormat {
        if self == ImageFormat::Unknown {
            ImageFormat::R8G8B8A8Unorm
        } else {
            self
        }
    }

    /// Replaces `Unknown` by the chain's default, linear RGBA8.
    pub fn or_default(self) -> (format: ImageFormat)
        ensures
            format == self.resolved(),
            format != ImageFormat::Unknown,
    {
        if self == ImageFormat::Unknown {
            ImageFormat::R8G8B8A8Unorm
        } else {
            self
        }
    }
}

/// Texel filter of a sampler.
#[derive(Clone, Copy, Debug, PartialEq, Eq, Structural)]
pub enum FilterMode {
    Linear,
    Nearest,
}

/// Addressing of a sampler outside the unit square.
#[derive(Clone, Copy, Debug, PartialEq, Eq, Structural)]
pub enum WrapMode {
    ClampToBorder,
    ClampToEdge,
    Repeat,
    MirroredRepeat,
    MirroredClamp,
}

} // verus!
