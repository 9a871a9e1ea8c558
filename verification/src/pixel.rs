//! Pixel format descriptors and the capability tags of pixel types.
//!
//! A pixel type is a compile-time tag that exposes a pure descriptor of its
//! texel layout. Two marker capabilities decide which pixel types may stand in a
//! color slot: a member must be both color-capable (legal as a framebuffer
//! color attachment) and render-capable (legal to sample back during
//! rendering). The constraint is static: a type lacking a capability cannot
//! be used as a slot member at all.

use vstd::prelude::*;

verus! {

/// How a channel's numeric values are encoded.
#[derive(Clone, Copy, Debug, PartialEq, Eq, Structural)]
pub enum Encoding {
    /// Unsigned integers normalized to the unit interval on sampling.
    NormUnsigned,
    /// Signed integers normalized on sampling.
    NormSigned,
    /// Plain unsigned integers.
    Unsigned,
    /// Plain signed integers.
    Signed,
    /// Floating-point values.
    Floating,
}

/// An immutable texel descriptor: channel count, per-channel bit depth and
/// numeric encoding. Obtained from a pixel type's descriptor query; never
/// mutated.
#[derive(Clone, Copy, Debug, PartialEq, Eq, Structural)]
pub struct PixelFormat {
    pub channels: u32,
    pub bits_per_channel: u32,
    pub encoding: Encoding,
}

/// A pixel type: a compile-time tag that knows its texel descriptor.
pub trait Pixel: Sized {
    /// The descriptor, as a mathematical value.
    spec fn spec_format() -> PixelFormat;

    /// The descriptor of this pixel type. Pure and side-effect free: every
    /// call returns the same value.
    fn pixel_format() -> (f: PixelFormat)
        ensures
            f == Self::spec_format(),
    ;
}

/// Capability tag: the pixel type is legal as a framebuffer color attachment.
pub trait ColorPixel: Pixel {}

/// Capability tag: the pixel type is legal to sample back during rendering.
pub trait RenderablePixel: Pixel {}

/// Capability tag: the pixel type is legal as a depth attachment. Depth
/// formats carry no color capability, so they can never stand in a color
/// slot.
pub trait DepthPixel: Pixel {}

/// One red channel, 32-bit floating point.
pub struct R32F;

impl Pixel for R32F {
    open spec fn spec_format() -> PixelFormat {
        PixelFormat { channels: 1, bits_per_channel: 32, encoding: Encoding::Floating }
    }

    fn pixel_format() -> (f: PixelFormat) {
        PixelFormat { channels: 1, bits_per_channel: 32, encoding: Encoding::Floating }
    }
}

impl ColorPixel for R32F {}

impl RenderablePixel for R32F {}

/// Red and green channels, 32-bit floating point.
pub struct RG32F;

impl Pixel for RG32F {
    open spec fn spec_format() -> PixelFormat {
        PixelFormat { channels: 2, bits_per_channel: 32, encoding: Encoding::Floating }
    }

    fn pixel_format() -> (f: PixelFormat) {
        PixelFormat { channels: 2, bits_per_channel: 32, encoding: Encoding::Floating }
    }
}

impl ColorPixel for RG32F {}

impl RenderablePixel for RG32F {}

/// Red, green and blue channels, 32-bit floating point.
pub struct RGB32F;

impl Pixel for RGB32F {
    open spec fn spec_format() -> PixelFormat {
        PixelFormat { channels: 3, bits_per_channel: 32, encoding: Encoding::Floating }
    }

    fn pixel_format() -> (f: PixelFormat) {
        PixelFormat { channels: 3, bits_per_channel: 32, encoding: Encoding::Floating }
    }
}

impl ColorPixel for RGB32F {}

impl RenderablePixel for RGB32F {}

/// Red, green, blue and alpha channels, 32-bit floating point.
pub struct RGBA32F;

impl Pixel for RGBA32F {
    open spec fn spec_format() -> PixelFormat {
        PixelFormat { channels: 4, bits_per_channel: 32, encoding: Encoding::Floating }
    }

    fn pixel_format() -> (f: PixelFormat) {
        PixelFormat { channels: 4, bits_per_channel: 32, encoding: Encoding::Floating }
    }
}

impl ColorPixel for RGBA32F {}

impl RenderablePixel for RGBA32F {}

/// One red channel, 8-bit unsigned integer, normalized on sampling.
pub struct NormR8UI;

impl Pixel for NormR8UI {
    open spec fn spec_format() -> PixelFormat {
        PixelFormat { channels: 1, bits_per_channel: 8, encoding: Encoding::NormUnsigned }
    }

    fn pixel_format() -> (f: PixelFormat) {
        PixelFormat { channels: 1, bits_per_channel: 8, encoding: Encoding::NormUnsigned }
    }
}

impl ColorPixel for NormR8UI {}

impl RenderablePixel for NormR8UI {}

/// Red, green and blue channels, 8-bit unsigned integers, normalized on
/// sampling.
pub struct NormRGB8UI;

impl Pixel for NormRGB8UI {
    open spec fn spec_format() -> PixelFormat {
        PixelFormat { channels: 3, bits_per_channel: 8, encoding: Encoding::NormUnsigned }
    }

    fn pixel_format() -> (f: PixelFormat) {
        PixelFormat { channels: 3, bits_per_channel: 8, encoding: Encoding::NormUnsigned }
    }
}

impl ColorPixel for NormRGB8UI {}

impl RenderablePixel for NormRGB8UI {}

/// Red, green, blue and alpha channels, 8-bit unsigned integers, normalized
/// on sampling.
pub struct NormRGBA8UI;

impl Pixel for NormRGBA8UI {
    open spec fn spec_format() -> PixelFormat {
        PixelFormat { channels: 4, bits_per_channel: 8, encoding: Encoding::NormUnsigned }
    }

    fn pixel_format() -> (f: PixelFormat) {
        PixelFormat { channels: 4, bits_per_channel: 8, encoding: Encoding::NormUnsigned }
    }
}

impl ColorPixel for NormRGBA8UI {}

impl RenderablePixel for NormRGBA8UI {}

/// One depth channel, 32-bit floating point. Depth-capable only: not a legal
/// color-slot member.
pub struct Depth32F;

impl Pixel for Depth32F {
    open spec fn spec_format() -> PixelFormat {
        PixelFormat { channels: 1, bits_per_channel: 32, encoding: Encoding::Floating }
    }

    fn pixel_format() -> (f: PixelFormat) {
        PixelFormat { channels: 1, bits_per_channel: 32, encoding: Encoding::Floating }
    }
}

impl DepthPixel for Depth32F {}

} // verus!
