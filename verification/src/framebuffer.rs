//! Framebuffers: a native representation plus the reified color slot.
//!
//! A [`Framebuffer`] owns the backend's native framebuffer representation and
//! the textures its color-slot shape reified, created at attachment indices
//! `0, 1, …` in the shape's declaration order. Construction is atomic: on any
//! failure during reification the whole construction fails and no value is
//! returned — a caller never observes a partially attached framebuffer.
//! There is no in-place resize: resizing constructs an entirely new
//! framebuffer at the new size and discards the old one.

use vstd::prelude::*;

use crate::backend::{AttachmentError, Backend, BackendCall, FramebufferRepr, Sampler, Size,
    TextureError};
use crate::pixel::PixelFormat;
use crate::slot::{failure_suffix, success_trace, ColorSlot};

verus! {

/// Why a framebuffer construction failed: the one rejected backend call,
/// wrapped. There is no local recovery or retry.
#[derive(Clone, Copy, Debug, PartialEq, Eq, Structural)]
pub enum FramebufferError {
    /// The backend rejected a member's texture creation.
    TextureCreation(TextureError),
    /// The backend rejected attaching a member's created texture.
    Attachment(AttachmentError),
}

/// An off-screen rendering surface: the native representation and the
/// reified color textures of shape `S`.
pub struct Framebuffer<B: Backend, S: ColorSlot<B>> {
    pub repr: FramebufferRepr,
    pub color_textures: S::ColorTextures,
    pub size: Size,
    pub mipmaps: usize,
}

impl<B: Backend, S: ColorSlot<B>> Framebuffer<B, S> {
    /// The native representation has this framebuffer's size and the color
    /// textures are the shape's, created at that size and mip-map count.
    pub open spec fn wf(self) -> bool {
        &&& self.repr.size == self.size
        &&& S::textures_wf(self.size, self.mipmaps, self.color_textures)
    }

    /// Allocates a native framebuffer of the given size, then reifies the
    /// shape's color slot into it starting at attachment index 0.
    ///
    /// On success the backend performed the allocation followed by exactly
    /// the shape's [`success_trace`]. On failure the construction fails as a
    /// whole: the log ends in the failed member's calls ([`failure_suffix`])
    /// and nothing of the framebuffer survives.
    pub fn new(ctx: &mut B, size: Size, mipmaps: usize, sampler: &Sampler) -> (r: Result<
        Framebuffer<B, S>,
        FramebufferError,
    >)
        requires
            S::spec_formats().len() <= usize::MAX,
        ensures
            match r {
                Ok(fb) => final(ctx).log() == old(ctx).log().push(
                    (BackendCall::FramebufferCreation { size }),
                ) + success_trace(S::spec_formats(), size, mipmaps, 0) && fb.wf() && fb.size
                    == size && fb.mipmaps == mipmaps,
                Err(e) => old(ctx).log().push((BackendCall::FramebufferCreation { size }))
                    .is_prefix_of(final(ctx).log()) && failure_suffix(
                    final(ctx).log().skip(old(ctx).log().len() as int + 1),
                    e,
                    S::spec_formats(),
                    size,
                    mipmaps,
                    0,
                ),
            },
    {
        let mut repr = ctx.new_framebuffer(size);
        match S::reify_color_textures(ctx, size, mipmaps, sampler, &mut repr, 0) {
            Ok(textures) => Ok(
                Framebuffer { repr, color_textures: textures, size, mipmaps },
            ),
            Err(e) => Err(e),
        }
    }

    /// The ordered pixel formats of this framebuffer's color slot, for
    /// validating backend support before allocation. Pure: identical on
    /// every call.
    pub fn color_formats() -> (v: Vec<PixelFormat>)
        ensures
            v@ == S::spec_formats(),
    {
        S::color_formats()
    }

    /// The reified color textures, in the shape's declaration order.
    pub fn color_slot(&self) -> (t: &S::ColorTextures)
        ensures
            *t == self.color_textures,
    {
        &self.color_textures
    }

    /// Constructs a new framebuffer of the new size with the same shape,
    /// mip-map count and sampler, consuming and discarding this one. The new
    /// framebuffer's textures are freshly created at attachment indices
    /// `0, 1, …`; nothing of the old framebuffer is mutated or reused.
    pub fn resize(self, ctx: &mut B, new_size: Size, sampler: &Sampler) -> (r: Result<
        Framebuffer<B, S>,
        FramebufferError,
    >)
        requires
            S::spec_formats().len() <= usize::MAX,
        ensures
            match r {
                Ok(fb) => final(ctx).log() == old(ctx).log().push(
                    (BackendCall::FramebufferCreation { size: new_size }),
                ) + success_trace(S::spec_formats(), new_size, self.mipmaps, 0) && fb.wf()
                    && fb.size == new_size && fb.mipmaps == self.mipmaps,
                Err(e) => old(ctx).log().push(
                    (BackendCall::FramebufferCreation { size: new_size }),
                ).is_prefix_of(final(ctx).log()) && failure_suffix(
                    final(ctx).log().skip(old(ctx).log().len() as int + 1),
                    e,
                    S::spec_formats(),
                    new_size,
                    self.mipmaps,
                    0,
                ),
            },
    {
        Framebuffer::<B, S>::new(ctx, new_size, self.mipmaps, sampler)
    }
}

} // verus!
