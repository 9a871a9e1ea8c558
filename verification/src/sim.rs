//! A scripted in-memory backend.
//!
//! [`SimBackend`] implements [`Backend`] without a GPU: it records every call
//! and decides each fallible call from a script of outcomes, indexed by the
//! call's position in the log. Calls past the end of the script succeed. It
//! exercises the color-slot layer deterministically, failure paths included.

use vstd::prelude::*;

use crate::backend::{
    AttachmentError, Backend, BackendCall, FramebufferRepr, RawTexture, Sampler, Size,
    TextureError,
};
use crate::pixel::PixelFormat;

verus! {

/// An in-memory backend driven by a script of outcomes.
pub struct SimBackend {
    /// For each call position, whether a fallible call at that position
    /// succeeds; positions past the end succeed.
    script: Vec<bool>,
    /// Every call performed so far, oldest first.
    calls: Vec<BackendCall>,
}

impl SimBackend {
    /// A backend that accepts every call.
    pub fn new() -> (b: SimBackend)
        ensures
            b.log() == Seq::<BackendCall>::empty(),
    {
        SimBackend { script: Vec::new(), calls: Vec::new() }
    }

    /// A backend whose fallible call at position `i` of the log succeeds
    /// exactly when `script[i]` is true; positions past the end succeed.
    pub fn with_script(script: Vec<bool>) -> (b: SimBackend)
        ensures
            b.log() == Seq::<BackendCall>::empty(),
    {
        SimBackend { script, calls: Vec::new() }
    }

    /// The calls performed so far, oldest first.
    pub fn calls(&self) -> (c: &Vec<BackendCall>)
        ensures
            c@ == self.log(),
    {
        &self.calls
    }

    /// Whether the fallible call about to be recorded succeeds.
    fn next_outcome(&self) -> (ok: bool)
        ensures
            ok == self.spec_next_outcome(),
    {
        if self.calls.len() < self.script.len() {
            self.script[self.calls.len()]
        } else {
            true
        }
    }

    /// The scripted outcome of the next fallible call.
    spec fn spec_next_outcome(&self) -> bool {
        if self.calls@.len() < self.script@.len() {
            self.script@[self.calls@.len() as int]
        } else {
            true
        }
    }
}

impl Backend for SimBackend {
    closed spec fn log(&self) -> Seq<BackendCall> {
        self.calls@
    }

    fn new_framebuffer(&mut self, size: Size) -> (fb: FramebufferRepr) {
        self.calls.push(BackendCall::FramebufferCreation { size });
        FramebufferRepr { size }
    }

    fn create_texture(
        &mut self,
        format: PixelFormat,
        size: Size,
        mipmaps: usize,
        sampler: &Sampler,
    ) -> (r: Result<RawTexture, TextureError>) {
        let ok = self.next_outcome();
        self.calls.push(BackendCall::TextureCreation { format, size, mipmaps, ok });
        if ok {
            Ok(RawTexture { format, size, mipmaps, sampler: *sampler })
        } else {
            Err(TextureError::CreationRejected)
        }
    }

    fn attach_color_texture(
        &mut self,
        framebuffer: &mut FramebufferRepr,
        texture: &RawTexture,
        attachment_index: usize,
    ) -> (r: Result<(), AttachmentError>) {
        let ok = self.next_outcome();
        self.calls.push(BackendCall::ColorAttachment {
            format: texture.format,
            index: attachment_index,
            ok,
        });
        if ok {
            Ok(())
        } else {
            Err(AttachmentError::AttachmentRejected)
        }
    }
}

} // verus!
