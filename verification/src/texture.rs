//! Owned GPU-side textures, typed by their pixel format.
//!
//! A [`Texture`] owns the backend-native image resource a color slot created
//! for one of its members. The pixel type parameter ties the resource to the
//! format it was created with: a well-formed texture's descriptor is exactly
//! its pixel type's descriptor.

use core::marker::PhantomData;
use vstd::prelude::*;

use crate::backend::{Backend, BackendCall, RawTexture, Sampler, Size, TextureError};
use crate::pixel::Pixel;

verus! {

/// An owned GPU-side image resource of pixel type `P`.
pub struct Texture<P: Pixel> {
    pub raw: RawTexture,
    pub pixel: PhantomData<P>,
}

impl<P: Pixel> Texture<P> {
    /// The resource was created with this pixel type's format, at the given
    /// size and mip-map count.
    pub open spec fn wf(&self, size: Size, mipmaps: usize) -> bool {
        &&& self.raw.format == P::spec_format()
        &&& self.raw.size == size
        &&& self.raw.mipmaps == mipmaps
    }

    /// Creates a texture of pixel type `P` via the backend. Exactly one
    /// creation call is recorded, successful or not.
    pub fn new<B: Backend>(
        ctx: &mut B,
        size: Size,
        mipmaps: usize,
        sampler: Sampler,
    ) -> (r: Result<Texture<P>, TextureError>)
        ensures
            match r {
                Ok(t) => final(ctx).log() == old(ctx).log().push(
                    (BackendCall::TextureCreation {
                        format: P::spec_format(),
                        size,
                        mipmaps,
                        ok: true,
                    }),
                ) && t.wf(size, mipmaps) && t.raw.sampler == sampler,
                Err(_) => final(ctx).log() == old(ctx).log().push(
                    (BackendCall::TextureCreation {
                        format: P::spec_format(),
                        size,
                        mipmaps,
                        ok: false,
                    }),
                ),
            },
    {
        let format = P::pixel_format();
        match ctx.create_texture(format, size, mipmaps, &sampler) {
            Ok(raw) => Ok(Texture { raw, pixel: PhantomData }),
            Err(e) => Err(e),
        }
    }

    /// The descriptor this texture was created with.
    pub fn pixel_format(&self) -> (f: crate::pixel::PixelFormat)
        ensures
            f == self.raw.format,
    {
        self.raw.format
    }
}

} // verus!
