//! The pluggable GPU backend, specified at its boundary.
//!
//! A backend allocates native framebuffer representations, creates textures
//! and binds them to a framebuffer at a given color-attachment index. Its
//! contract is stated over a ghost log of [`BackendCall`] values: every
//! operation appends exactly one record of itself, successful or not, and
//! nothing else. The color-slot layer's own contracts then pin down the exact
//! call sequence a reification performs.
//!
//! A backend is free to reject any texture creation or any attachment; the
//! color-slot layer promises nothing about which outcome comes back, only
//! about what it does with each outcome.

use vstd::prelude::*;

use crate::pixel::PixelFormat;

verus! {

/// A two-dimensional target size, in texels.
#[derive(Clone, Copy, Debug, PartialEq, Eq, Structural)]
pub struct Size {
    pub width: u32,
    pub height: u32,
}

/// How a texture is filtered when minified.
#[derive(Clone, Copy, Debug, PartialEq, Eq, Structural)]
pub enum MinFilter {
    Nearest,
    Linear,
}

/// How a texture is filtered when magnified.
#[derive(Clone, Copy, Debug, PartialEq, Eq, Structural)]
pub enum MagFilter {
    Nearest,
    Linear,
}

/// How out-of-range texture coordinates wrap.
#[derive(Clone, Copy, Debug, PartialEq, Eq, Structural)]
pub enum Wrap {
    ClampToEdge,
    Repeat,
    MirroredRepeat,
}

/// A sampling configuration: filtering and wrap policy of a texture.
#[derive(Clone, Copy, Debug, PartialEq, Eq, Structural)]
pub struct Sampler {
    pub wrap_s: Wrap,
    pub wrap_t: Wrap,
    pub min_filter: MinFilter,
    pub mag_filter: MagFilter,
}

impl Default for Sampler {
    /// Clamped wrapping with nearest minification and linear magnification.
    fn default() -> (s: Sampler)
        ensures
            s.wrap_s == Wrap::ClampToEdge,
            s.wrap_t == Wrap::ClampToEdge,
            s.min_filter == MinFilter::Nearest,
            s.mag_filter == MagFilter::Linear,
    {
        Sampler {
            wrap_s: Wrap::ClampToEdge,
            wrap_t: Wrap::ClampToEdge,
            min_filter: MinFilter::Nearest,
            mag_filter: MagFilter::Linear,
        }
    }
}

/// The backend rejected a requested texture: the size, format, mip-map and
/// sampler combination is unsupported.
#[derive(Clone, Copy, Debug, PartialEq, Eq, Structural)]
pub enum TextureError {
    CreationRejected,
}

/// The backend rejected binding a created texture to a framebuffer at an
/// attachment index, for instance because its attachment count is exceeded.
#[derive(Clone, Copy, Debug, PartialEq, Eq, Structural)]
pub enum AttachmentError {
    AttachmentRejected,
}

/// One backend operation, as recorded in the backend's call log. Each
/// fallible record notes whether the backend accepted the call.
#[derive(Clone, Copy, Debug, PartialEq, Eq, Structural)]
pub enum BackendCall {
    /// A native framebuffer representation was allocated.
    FramebufferCreation { size: Size },
    /// A texture creation was requested.
    TextureCreation { format: PixelFormat, size: Size, mipmaps: usize, ok: bool },
    /// Binding a texture of the given format at the given color-attachment
    /// index was requested.
    ColorAttachment { format: PixelFormat, index: usize, ok: bool },
}

/// A backend-native image resource, as handed out by texture creation.
#[derive(Clone, Copy, Debug, PartialEq, Eq, Structural)]
pub struct RawTexture {
    pub format: PixelFormat,
    pub size: Size,
    pub mipmaps: usize,
    pub sampler: Sampler,
}

/// A backend-native framebuffer representation, as handed out by framebuffer
/// allocation.
#[derive(Clone, Copy, Debug, PartialEq, Eq, Structural)]
pub struct FramebufferRepr {
    pub size: Size,
}

/// A GPU backend: allocates framebuffer representations, creates textures and
/// attaches them. The contract of every operation says that it appends
/// exactly its own record to the call log; whether a fallible operation
/// succeeds is the backend's choice alone.
pub trait Backend: Sized {
    /// The calls this backend has performed so far, oldest first.
    spec fn log(&self) -> Seq<BackendCall>;

    /// Allocates a native framebuffer representation of the given size.
    fn new_framebuffer(&mut self, size: Size) -> (fb: FramebufferRepr)
        ensures
            final(self).log() == old(self).log().push((BackendCall::FramebufferCreation { size })),
            fb.size == size,
    ;

    /// Requests a texture of the given format, size, mip-map count and
    /// sampler. On success the returned resource carries exactly what was
    /// requested.
    fn create_texture(
        &mut self,
        format: PixelFormat,
        size: Size,
        mipmaps: usize,
        sampler: &Sampler,
    ) -> (r: Result<RawTexture, TextureError>)
        ensures
            match r {
                Ok(t) => final(self).log() == old(self).log().push(
                    (BackendCall::TextureCreation { format, size, mipmaps, ok: true }),
                ) && t == (RawTexture { format, size, mipmaps, sampler: *sampler }),
                Err(_) => final(self).log() == old(self).log().push(
                    (BackendCall::TextureCreation { format, size, mipmaps, ok: false }),
                ),
            },
    ;

    /// Requests binding `texture` to `framebuffer` at color-attachment index
    /// `attachment_index`. The caller is responsible for handing in
    /// sequential, non-overlapping indices within one reification pass; the
    /// backend does not re-check them.
    fn attach_color_texture(
        &mut self,
        framebuffer: &mut FramebufferRepr,
        texture: &RawTexture,
        attachment_index: usize,
    ) -> (r: Result<(), AttachmentError>)
        ensures
            *final(framebuffer) == *old(framebuffer),
            match r {
                Ok(_) => final(self).log() == old(self).log().push(
                    (BackendCall::ColorAttachment {
                        format: texture.format,
                        index: attachment_index,
                        ok: true,
                    }),
                ),
                Err(_) => final(self).log() == old(self).log().push(
                    (BackendCall::ColorAttachment {
                        format: texture.format,
                        index: attachment_index,
                        ok: false,
                    }),
                ),
            },
    ;
}

} // verus!
