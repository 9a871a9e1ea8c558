//! The tuple color slots: one sequencing impl per arity, two to twelve.
//!
//! Each tuple of color- and render-capable pixel types is itself a color
//! slot. Every arity repeats the same algorithm — create and attach the
//! members left to right, incrementing the attachment index between members,
//! stopping at the first rejected call — but each arity is a structurally
//! distinct type, so each gets its own impl. A shape of arity one is the
//! single-format slot, not a one-element tuple.
//!
//! The index increment deliberately happens before the next member's
//! creation call, never after it: the running index a member is attached at
//! is always the caller's starting index plus the member's position.

use vstd::prelude::*;

use crate::backend::{Backend, FramebufferRepr, Sampler, Size};
use crate::framebuffer::FramebufferError;
use crate::pixel::{ColorPixel, PixelFormat, RenderablePixel};
use crate::slot::{
    lemma_success_trace_empty, reify_member, success_trace, ColorSlot,
};
use crate::texture::Texture;

verus! {

impl<B: Backend, P0: ColorPixel + RenderablePixel, P1: ColorPixel + RenderablePixel> ColorSlot<B> for (P0, P1) {
    type ColorTextures = (Texture<P0>, Texture<P1>);

    /// The members' formats, in declaration order.
    open spec fn spec_formats() -> Seq<PixelFormat> {
        seq![P0::spec_format(), P1::spec_format()]
    }

    open spec fn textures_wf(size: Size, mipmaps: usize, t: (Texture<P0>, Texture<P1>)) -> bool {
        t.0.wf(size, mipmaps) && t.1.wf(size, mipmaps)
    }

    fn color_formats() -> (v: Vec<PixelFormat>) {
        let mut v: Vec<PixelFormat> = Vec::new();
        v.push(P0::pixel_format());
        v.push(P1::pixel_format());
        proof {
            assert(v@ =~= <(P0, P1) as ColorSlot<B>>::spec_formats());
        }
        v
    }

    fn reify_color_textures(
        ctx: &mut B,
        size: Size,
        mipmaps: usize,
        sampler: &Sampler,
        framebuffer: &mut FramebufferRepr,
        attachment_index: usize,
    ) -> (r: Result<(Texture<P0>, Texture<P1>), FramebufferError>) {
        let ghost formats = <(P0, P1) as ColorSlot<B>>::spec_formats();
        let ghost base = ctx.log();
        let ghost start = attachment_index as int;
        let mut index = attachment_index;
        proof {
            assert(formats.take(0) =~= Seq::<PixelFormat>::empty());
            lemma_success_trace_empty(size, mipmaps, start);
            assert(ctx.log() =~= base + success_trace(formats.take(0), size, mipmaps, start));
        }
        let t0 = match reify_member::<B, P0>(
            ctx,
            size,
            mipmaps,
            sampler,
            framebuffer,
            index,
            Ghost(formats),
            Ghost(0),
            Ghost(start),
            Ghost(base),
        ) {
            Ok(t) => t,
            Err(e) => return Err(e),
        };
        index = index + 1;
        let t1 = match reify_member::<B, P1>(
            ctx,
            size,
            mipmaps,
            sampler,
            framebuffer,
            index,
            Ghost(formats),
            Ghost(1),
            Ghost(start),
            Ghost(base),
        ) {
            Ok(t) => t,
            Err(e) => return Err(e),
        };
        proof {
            assert(formats.take(2) =~= formats);
        }
        Ok((t0, t1))
    }
}

impl<B: Backend, P0: ColorPixel + RenderablePixel, P1: ColorPixel + RenderablePixel, P2: ColorPixel + RenderablePixel> ColorSlot<B> for (P0, P1, P2) {
    type ColorTextures = (Texture<P0>, Texture<P1>, Texture<P2>);

    /// The members' formats, in declaration order.
    open spec fn spec_formats() -> Seq<PixelFormat> {
        seq![P0::spec_format(), P1::spec_format(), P2::spec_format()]
    }

    open spec fn textures_wf(size: Size, mipmaps: usize, t: (Texture<P0>, Texture<P1>, Texture<P2>)) -> bool {
        t.0.wf(size, mipmaps) && t.1.wf(size, mipmaps) && t.2.wf(size, mipmaps)
    }

    fn color_formats() -> (v: Vec<PixelFormat>) {
        let mut v: Vec<PixelFormat> = Vec::new();
        v.push(P0::pixel_format());
        v.push(P1::pixel_format());
        v.push(P2::pixel_format());
        proof {
            assert(v@ =~= <(P0, P1, P2) as ColorSlot<B>>::spec_formats());
        }
        v
    }

    fn reify_color_textures(
        ctx: &mut B,
        size: Size,
        mipmaps: usize,
        sampler: &Sampler,
        framebuffer: &mut FramebufferRepr,
        attachment_index: usize,
    ) -> (r: Result<(Texture<P0>, Texture<P1>, Texture<P2>), FramebufferError>) {
        let ghost formats = <(P0, P1, P2) as ColorSlot<B>>::spec_formats();
        let ghost base = ctx.log();
        let ghost start = attachment_index as int;
        let mut index = attachment_index;
        proof {
            assert(formats.take(0) =~= Seq::<PixelFormat>::empty());
            lemma_success_trace_empty(size, mipmaps, start);
            assert(ctx.log() =~= base + success_trace(formats.take(0), size, mipmaps, start));
        }
        let t0 = match reify_member::<B, P0>(
            ctx,
            size,
            mipmaps,
            sampler,
            framebuffer,
            index,
            Ghost(formats),
            Ghost(0),
            Ghost(start),
            Ghost(base),
        ) {
            Ok(t) => t,
            Err(e) => return Err(e),
        };
        index = index + 1;
        let t1 = match reify_member::<B, P1>(
            ctx,
            size,
            mipmaps,
            sampler,
            framebuffer,
            index,
            Ghost(formats),
            Ghost(1),
            Ghost(start),
            Ghost(base),
        ) {
            Ok(t) => t,
            Err(e) => return Err(e),
        };
        index = index + 1;
        let t2 = match reify_member::<B, P2>(
            ctx,
            size,
            mipmaps,
            sampler,
            framebuffer,
            index,
            Ghost(formats),
            Ghost(2),
            Ghost(start),
            Ghost(base),
        ) {
            Ok(t) => t,
            Err(e) => return Err(e),
        };
        proof {
            assert(formats.take(3) =~= formats);
        }
        Ok((t0, t1, t2))
    }
}

impl<B: Backend, P0: ColorPixel + RenderablePixel, P1: ColorPixel + RenderablePixel, P2: ColorPixel + RenderablePixel, P3: ColorPixel + RenderablePixel> ColorSlot<B> for (P0, P1, P2, P3) {
    type ColorTextures = (Texture<P0>, Texture<P1>, Texture<P2>, Texture<P3>);

    /// The members' formats, in declaration order.
    open spec fn spec_formats() -> Seq<PixelFormat> {
        seq![P0::spec_format(), P1::spec_format(), P2::spec_format(), P3::spec_format()]
    }

    open spec fn textures_wf(size: Size, mipmaps: usize, t: (Texture<P0>, Texture<P1>, Texture<P2>, Texture<P3>)) -> bool {
        t.0.wf(size, mipmaps) && t.1.wf(size, mipmaps) && t.2.wf(size, mipmaps) && t.3.wf(size, mipmaps)
    }

    fn color_formats() -> (v: Vec<PixelFormat>) {
        let mut v: Vec<PixelFormat> = Vec::new();
        v.push(P0::pixel_format());
        v.push(P1::pixel_format());
        v.push(P2::pixel_format());
        v.push(P3::pixel_format());
        proof {
            assert(v@ =~= <(P0, P1, P2, P3) as ColorSlot<B>>::spec_formats());
        }
        v
    }

    fn reify_color_textures(
        ctx: &mut B,
        size: Size,
        mipmaps: usize,
        sampler: &Sampler,
        framebuffer: &mut FramebufferRepr,
        attachment_index: usize,
    ) -> (r: Result<(Texture<P0>, Texture<P1>, Texture<P2>, Texture<P3>), FramebufferError>) {
        let ghost formats = <(P0, P1, P2, P3) as ColorSlot<B>>::spec_formats();
        let ghost base = ctx.log();
        let ghost start = attachment_index as int;
        let mut index = attachment_index;
        proof {
            assert(formats.take(0) =~= Seq::<PixelFormat>::empty());
            lemma_success_trace_empty(size, mipmaps, start);
            assert(ctx.log() =~= base + success_trace(formats.take(0), size, mipmaps, start));
        }
        let t0 = match reify_member::<B, P0>(
            ctx,
            size,
            mipmaps,
            sampler,
            framebuffer,
            index,
            Ghost(formats),
            Ghost(0),
            Ghost(start),
            Ghost(base),
        ) {
            Ok(t) => t,
            Err(e) => return Err(e),
        };
        index = index + 1;
        let t1 = match reify_member::<B, P1>(
            ctx,
            size,
            mipmaps,
            sampler,
            framebuffer,
            index,
            Ghost(formats),
            Ghost(1),
            Ghost(start),
            Ghost(base),
        ) {
            Ok(t) => t,
            Err(e) => return Err(e),
        };
        index = index + 1;
        let t2 = match reify_member::<B, P2>(
            ctx,
            size,
            mipmaps,
            sampler,
            framebuffer,
            index,
            Ghost(formats),
            Ghost(2),
            Ghost(start),
            Ghost(base),
        ) {
            Ok(t) => t,
            Err(e) => return Err(e),
        };
        index = index + 1;
        let t3 = match reify_member::<B, P3>(
            ctx,
            size,
            mipmaps,
            sampler,
            framebuffer,
            index,
            Ghost(formats),
            Ghost(3),
            Ghost(start),
            Ghost(base),
        ) {
            Ok(t) => t,
            Err(e) => return Err(e),
        };
        proof {
            assert(formats.take(4) =~= formats);
        }
        Ok((t0, t1, t2, t3))
    }
}

impl<B: Backend, P0: ColorPixel + RenderablePixel, P1: ColorPixel + RenderablePixel, P2: ColorPixel + RenderablePixel, P3: ColorPixel + RenderablePixel, P4: ColorPixel + RenderablePixel> ColorSlot<B> for (P0, P1, P2, P3, P4) {
    type ColorTextures = (Texture<P0>, Texture<P1>, Texture<P2>, Texture<P3>, Texture<P4>);

    /// The members' formats, in declaration order.
    open spec fn spec_formats() -> Seq<PixelFormat> {
        seq![P0::spec_format(), P1::spec_format(), P2::spec_format(), P3::spec_format(), P4::spec_format()]
    }

    open spec fn textures_wf(size: Size, mipmaps: usize, t: (Texture<P0>, Texture<P1>, Texture<P2>, Texture<P3>, Texture<P4>)) -> bool {
        t.0.wf(size, mipmaps) && t.1.wf(size, mipmaps) && t.2.wf(size, mipmaps) && t.3.wf(size, mipmaps) && t.4.wf(size, mipmaps)
    }

    fn color_formats() -> (v: Vec<PixelFormat>) {
        let mut v: Vec<PixelFormat> = Vec::new();
        v.push(P0::pixel_format());
        v.push(P1::pixel_format());
        v.push(P2::pixel_format());
        v.push(P3::pixel_format());
        v.push(P4::pixel_format());
        proof {
            assert(v@ =~= <(P0, P1, P2, P3, P4) as ColorSlot<B>>::spec_formats());
        }
        v
    }

    fn reify_color_textures(
        ctx: &mut B,
        size: Size,
        mipmaps: usize,
        sampler: &Sampler,
        framebuffer: &mut FramebufferRepr,
        attachment_index: usize,
    ) -> (r: Result<(Texture<P0>, Texture<P1>, Texture<P2>, Texture<P3>, Texture<P4>), FramebufferError>) {
        let ghost formats = <(P0, P1, P2, P3, P4) as ColorSlot<B>>::spec_formats();
        let ghost base = ctx.log();
        let ghost start = attachment_index as int;
        let mut index = attachment_index;
        proof {
            assert(formats.take(0) =~= Seq::<PixelFormat>::empty());
            lemma_success_trace_empty(size, mipmaps, start);
            assert(ctx.log() =~= base + success_trace(formats.take(0), size, mipmaps, start));
        }
        let t0 = match reify_member::<B, P0>(
            ctx,
            size,
            mipmaps,
            sampler,
            framebuffer,
            index,
            Ghost(formats),
            Ghost(0),
            Ghost(start),
            Ghost(base),
        ) {
            Ok(t) => t,
            Err(e) => return Err(e),
        };
        index = index + 1;
        let t1 = match reify_member::<B, P1>(
            ctx,
            size,
            mipmaps,
            sampler,
            framebuffer,
            index,
            Ghost(formats),
            Ghost(1),
            Ghost(start),
            Ghost(base),
        ) {
            Ok(t) => t,
            Err(e) => return Err(e),
        };
        index = index + 1;
        let t2 = match reify_member::<B, P2>(
            ctx,
            size,
            mipmaps,
            sampler,
            framebuffer,
            index,
            Ghost(formats),
            Ghost(2),
            Ghost(start),
            Ghost(base),
        ) {
            Ok(t) => t,
            Err(e) => return Err(e),
        };
        index = index + 1;
        let t3 = match reify_member::<B, P3>(
            ctx,
            size,
            mipmaps,
            sampler,
            framebuffer,
            index,
            Ghost(formats),
            Ghost(3),
            Ghost(start),
            Ghost(base),
        ) {
            Ok(t) => t,
            Err(e) => return Err(e),
        };
        index = index + 1;
        let t4 = match reify_member::<B, P4>(
            ctx,
            size,
            mipmaps,
            sampler,
            framebuffer,
            index,
            Ghost(formats),
            Ghost(4),
            Ghost(start),
            Ghost(base),
        ) {
            Ok(t) => t,
            Err(e) => return Err(e),
        };
        proof {
            assert(formats.take(5) =~= formats);
        }
        Ok((t0, t1, t2, t3, t4))
    }
}

impl<B: Backend, P0: ColorPixel + RenderablePixel, P1: ColorPixel + RenderablePixel, P2: ColorPixel + RenderablePixel, P3: ColorPixel + RenderablePixel, P4: ColorPixel + RenderablePixel, P5: ColorPixel + RenderablePixel> ColorSlot<B> for (P0, P1, P2, P3, P4, P5) {
    type ColorTextures = (Texture<P0>, Texture<P1>, Texture<P2>, Texture<P3>, Texture<P4>, Texture<P5>);

    /// The members' formats, in declaration order.
    open spec fn spec_formats() -> Seq<PixelFormat> {
        seq![P0::spec_format(), P1::spec_format(), P2::spec_format(), P3::spec_format(), P4::spec_format(), P5::spec_format()]
    }

    open spec fn textures_wf(size: Size, mipmaps: usize, t: (Texture<P0>, Texture<P1>, Texture<P2>, Texture<P3>, Texture<P4>, Texture<P5>)) -> bool {
        t.0.wf(size, mipmaps) && t.1.wf(size, mipmaps) && t.2.wf(size, mipmaps) && t.3.wf(size, mipmaps) && t.4.wf(size, mipmaps) && t.5.wf(size, mipmaps)
    }

    fn color_formats() -> (v: Vec<PixelFormat>) {
        let mut v: Vec<PixelFormat> = Vec::new();
        v.push(P0::pixel_format());
        v.push(P1::pixel_format());
        v.push(P2::pixel_format());
        v.push(P3::pixel_format());
        v.push(P4::pixel_format());
        v.push(P5::pixel_format());
        proof {
            assert(v@ =~= <(P0, P1, P2, P3, P4, P5) as ColorSlot<B>>::spec_formats());
        }
        v
    }

    fn reify_color_textures(
        ctx: &mut B,
        size: Size,
        mipmaps: usize,
        sampler: &Sampler,
        framebuffer: &mut FramebufferRepr,
        attachment_index: usize,
    ) -> (r: Result<(Texture<P0>, Texture<P1>, Texture<P2>, Texture<P3>, Texture<P4>, Texture<P5>), FramebufferError>) {
        let ghost formats = <(P0, P1, P2, P3, P4, P5) as ColorSlot<B>>::spec_formats();
        let ghost base = ctx.log();
        let ghost start = attachment_index as int;
        let mut index = attachment_index;
        proof {
            assert(formats.take(0) =~= Seq::<PixelFormat>::empty());
            lemma_success_trace_empty(size, mipmaps, start);
            assert(ctx.log() =~= base + success_trace(formats.take(0), size, mipmaps, start));
        }
        let t0 = match reify_member::<B, P0>(
            ctx,
            size,
            mipmaps,
            sampler,
            framebuffer,
            index,
            Ghost(formats),
            Ghost(0),
            Ghost(start),
            Ghost(base),
        ) {
            Ok(t) => t,
            Err(e) => return Err(e),
        };
        index = index + 1;
        let t1 = match reify_member::<B, P1>(
            ctx,
            size,
            mipmaps,
            sampler,
            framebuffer,
            index,
            Ghost(formats),
            Ghost(1),
            Ghost(start),
            Ghost(base),
        ) {
            Ok(t) => t,
            Err(e) => return Err(e),
        };
        index = index + 1;
        let t2 = match reify_member::<B, P2>(
            ctx,
            size,
            mipmaps,
            sampler,
            framebuffer,
            index,
            Ghost(formats),
            Ghost(2),
            Ghost(start),
            Ghost(base),
        ) {
            Ok(t) => t,
            Err(e) => return Err(e),
        };
        index = index + 1;
        let t3 = match reify_member::<B, P3>(
            ctx,
            size,
            mipmaps,
            sampler,
            framebuffer,
            index,
            Ghost(formats),
            Ghost(3),
            Ghost(start),
            Ghost(base),
        ) {
            Ok(t) => t,
            Err(e) => return Err(e),
        };
        index = index + 1;
        let t4 = match reify_member::<B, P4>(
            ctx,
            size,
            mipmaps,
            sampler,
            framebuffer,
            index,
            Ghost(formats),
            Ghost(4),
            Ghost(start),
            Ghost(base),
        ) {
            Ok(t) => t,
            Err(e) => return Err(e),
        };
        index = index + 1;
        let t5 = match reify_member::<B, P5>(
            ctx,
            size,
            mipmaps,
            sampler,
            framebuffer,
            index,
            Ghost(formats),
            Ghost(5),
            Ghost(start),
            Ghost(base),
        ) {
            Ok(t) => t,
            Err(e) => return Err(e),
        };
        proof {
            assert(formats.take(6) =~= formats);
        }
        Ok((t0, t1, t2, t3, t4, t5))
    }
}

impl<B: Backend, P0: ColorPixel + RenderablePixel, P1: ColorPixel + RenderablePixel, P2: ColorPixel + RenderablePixel, P3: ColorPixel + RenderablePixel, P4: ColorPixel + RenderablePixel, P5: ColorPixel + RenderablePixel, P6: ColorPixel + RenderablePixel> ColorSlot<B> for (P0, P1, P2, P3, P4, P5, P6) {
    type ColorTextures = (Texture<P0>, Texture<P1>, Texture<P2>, Texture<P3>, Texture<P4>, Texture<P5>, Texture<P6>);

    /// The members' formats, in declaration order.
    open spec fn spec_formats() -> Seq<PixelFormat> {
        seq![P0::spec_format(), P1::spec_format(), P2::spec_format(), P3::spec_format(), P4::spec_format(), P5::spec_format(), P6::spec_format()]
    }

    open spec fn textures_wf(size: Size, mipmaps: usize, t: (Texture<P0>, Texture<P1>, Texture<P2>, Texture<P3>, Texture<P4>, Texture<P5>, Texture<P6>)) -> bool {
        t.0.wf(size, mipmaps) && t.1.wf(size, mipmaps) && t.2.wf(size, mipmaps) && t.3.wf(size, mipmaps) && t.4.wf(size, mipmaps) && t.5.wf(size, mipmaps) && t.6.wf(size, mipmaps)
    }

    fn color_formats() -> (v: Vec<PixelFormat>) {
        let mut v: Vec<PixelFormat> = Vec::new();
        v.push(P0::pixel_format());
        v.push(P1::pixel_format());
        v.push(P2::pixel_format());
        v.push(P3::pixel_format());
        v.push(P4::pixel_format());
        v.push(P5::pixel_format());
        v.push(P6::pixel_format());
        proof {
            assert(v@ =~= <(P0, P1, P2, P3, P4, P5, P6) as ColorSlot<B>>::spec_formats());
        }
        v
    }

    fn reify_color_textures(
        ctx: &mut B,
        size: Size,
        mipmaps: usize,
        sampler: &Sampler,
        framebuffer: &mut FramebufferRepr,
        attachment_index: usize,
    ) -> (r: Result<(Texture<P0>, Texture<P1>, Texture<P2>, Texture<P3>, Texture<P4>, Texture<P5>, Texture<P6>), FramebufferError>) {
        let ghost formats = <(P0, P1, P2, P3, P4, P5, P6) as ColorSlot<B>>::spec_formats();
        let ghost base = ctx.log();
        let ghost start = attachment_index as int;
        let mut index = attachment_index;
        proof {
            assert(formats.take(0) =~= Seq::<PixelFormat>::empty());
            lemma_success_trace_empty(size, mipmaps, start);
            assert(ctx.log() =~= base + success_trace(formats.take(0), size, mipmaps, start));
        }
        let t0 = match reify_member::<B, P0>(
            ctx,
            size,
            mipmaps,
            sampler,
            framebuffer,
            index,
            Ghost(formats),
            Ghost(0),
            Ghost(start),
            Ghost(base),
        ) {
            Ok(t) => t,
            Err(e) => return Err(e),
        };
        index = index + 1;
        let t1 = match reify_member::<B, P1>(
            ctx,
            size,
            mipmaps,
            sampler,
            framebuffer,
            index,
            Ghost(formats),
            Ghost(1),
            Ghost(start),
            Ghost(base),
        ) {
            Ok(t) => t,
            Err(e) => return Err(e),
        };
        index = index + 1;
        let t2 = match reify_member::<B, P2>(
            ctx,
            size,
            mipmaps,
            sampler,
            framebuffer,
            index,
            Ghost(formats),
            Ghost(2),
            Ghost(start),
            Ghost(base),
        ) {
            Ok(t) => t,
            Err(e) => return Err(e),
        };
        index = index + 1;
        let t3 = match reify_member::<B, P3>(
            ctx,
            size,
            mipmaps,
            sampler,
            framebuffer,
            index,
            Ghost(formats),
            Ghost(3),
            Ghost(start),
            Ghost(base),
        ) {
            Ok(t) => t,
            Err(e) => return Err(e),
        };
        index = index + 1;
        let t4 = match reify_member::<B, P4>(
            ctx,
            size,
            mipmaps,
            sampler,
            framebuffer,
            index,
            Ghost(formats),
            Ghost(4),
            Ghost(start),
            Ghost(base),
        ) {
            Ok(t) => t,
            Err(e) => return Err(e),
        };
        index = index + 1;
        let t5 = match reify_member::<B, P5>(
            ctx,
            size,
            mipmaps,
            sampler,
            framebuffer,
            index,
            Ghost(formats),
            Ghost(5),
            Ghost(start),
            Ghost(base),
        ) {
            Ok(t) => t,
            Err(e) => return Err(e),
        };
        index = index + 1;
        let t6 = match reify_member::<B, P6>(
            ctx,
            size,
            mipmaps,
            sampler,
            framebuffer,
            index,
            Ghost(formats),
            Ghost(6),
            Ghost(start),
            Ghost(base),
        ) {
            Ok(t) => t,
            Err(e) => return Err(e),
        };
        proof {
            assert(formats.take(7) =~= formats);
        }
        Ok((t0, t1, t2, t3, t4, t5, t6))
    }
}

impl<B: Backend, P0: ColorPixel + RenderablePixel, P1: ColorPixel + RenderablePixel, P2: ColorPixel + RenderablePixel, P3: ColorPixel + RenderablePixel, P4: ColorPixel + RenderablePixel, P5: ColorPixel + RenderablePixel, P6: ColorPixel + RenderablePixel, P7: ColorPixel + RenderablePixel> ColorSlot<B> for (P0, P1, P2, P3, P4, P5, P6, P7) {
    type ColorTextures = (Texture<P0>, Texture<P1>, Texture<P2>, Texture<P3>, Texture<P4>, Texture<P5>, Texture<P6>, Texture<P7>);

    /// The members' formats, in declaration order.
    open spec fn spec_formats() -> Seq<PixelFormat> {
        seq![P0::spec_format(), P1::spec_format(), P2::spec_format(), P3::spec_format(), P4::spec_format(), P5::spec_format(), P6::spec_format(), P7::spec_format()]
    }

    open spec fn textures_wf(size: Size, mipmaps: usize, t: (Texture<P0>, Texture<P1>, Texture<P2>, Texture<P3>, Texture<P4>, Texture<P5>, Texture<P6>, Texture<P7>)) -> bool {
        t.0.wf(size, mipmaps) && t.1.wf(size, mipmaps) && t.2.wf(size, mipmaps) && t.3.wf(size, mipmaps) && t.4.wf(size, mipmaps) && t.5.wf(size, mipmaps) && t.6.wf(size, mipmaps) && t.7.wf(size, mipmaps)
    }

    fn color_formats() -> (v: Vec<PixelFormat>) {
        let mut v: Vec<PixelFormat> = Vec::new();
        v.push(P0::pixel_format());
        v.push(P1::pixel_format());
        v.push(P2::pixel_format());
        v.push(P3::pixel_format());
        v.push(P4::pixel_format());
        v.push(P5::pixel_format());
        v.push(P6::pixel_format());
        v.push(P7::pixel_format());
        proof {
            assert(v@ =~= <(P0, P1, P2, P3, P4, P5, P6, P7) as ColorSlot<B>>::spec_formats());
        }
        v
    }

    fn reify_color_textures(
        ctx: &mut B,
        size: Size,
        mipmaps: usize,
        sampler: &Sampler,
        framebuffer: &mut FramebufferRepr,
        attachment_index: usize,
    ) -> (r: Result<(Texture<P0>, Texture<P1>, Texture<P2>, Texture<P3>, Texture<P4>, Texture<P5>, Texture<P6>, Texture<P7>), FramebufferError>) {
        let ghost formats = <(P0, P1, P2, P3, P4, P5, P6, P7) as ColorSlot<B>>::spec_formats();
        let ghost base = ctx.log();
        let ghost start = attachment_index as int;
        let mut index = attachment_index;
        proof {
            assert(formats.take(0) =~= Seq::<PixelFormat>::empty());
            lemma_success_trace_empty(size, mipmaps, start);
            assert(ctx.log() =~= base + success_trace(formats.take(0), size, mipmaps, start));
        }
        let t0 = match reify_member::<B, P0>(
            ctx,
            size,
            mipmaps,
            sampler,
            framebuffer,
            index,
            Ghost(formats),
            Ghost(0),
            Ghost(start),
            Ghost(base),
        ) {
            Ok(t) => t,
            Err(e) => return Err(e),
        };
        index = index + 1;
        let t1 = match reify_member::<B, P1>(
            ctx,
            size,
            mipmaps,
            sampler,
            framebuffer,
            index,
            Ghost(formats),
            Ghost(1),
            Ghost(start),
            Ghost(base),
        ) {
            Ok(t) => t,
            Err(e) => return Err(e),
        };
        index = index + 1;
        let t2 = match reify_member::<B, P2>(
            ctx,
            size,
            mipmaps,
            sampler,
            framebuffer,
            index,
            Ghost(formats),
            Ghost(2),
            Ghost(start),
            Ghost(base),
        ) {
            Ok(t) => t,
            Err(e) => return Err(e),
        };
        index = index + 1;
        let t3 = match reify_member::<B, P3>(
            ctx,
            size,
            mipmaps,
            sampler,
            framebuffer,
            index,
            Ghost(formats),
            Ghost(3),
            Ghost(start),
            Ghost(base),
        ) {
            Ok(t) => t,
            Err(e) => return Err(e),
        };
        index = index + 1;
        let t4 = match reify_member::<B, P4>(
            ctx,
            size,
            mipmaps,
            sampler,
            framebuffer,
            index,
            Ghost(formats),
            Ghost(4),
            Ghost(start),
            Ghost(base),
        ) {
            Ok(t) => t,
            Err(e) => return Err(e),
        };
        index = index + 1;
        let t5 = match reify_member::<B, P5>(
            ctx,
            size,
            mipmaps,
            sampler,
            framebuffer,
            index,
            Ghost(formats),
            Ghost(5),
            Ghost(start),
            Ghost(base),
        ) {
            Ok(t) => t,
            Err(e) => return Err(e),
        };
        index = index + 1;
        let t6 = match reify_member::<B, P6>(
            ctx,
            size,
            mipmaps,
            sampler,
            framebuffer,
            index,
            Ghost(formats),
            Ghost(6),
            Ghost(start),
            Ghost(base),
        ) {
            Ok(t) => t,
            Err(e) => return Err(e),
        };
        index = index + 1;
        let t7 = match reify_member::<B, P7>(
            ctx,
            size,
            mipmaps,
            sampler,
            framebuffer,
            index,
            Ghost(formats),
            Ghost(7),
            Ghost(start),
            Ghost(base),
        ) {
            Ok(t) => t,
            Err(e) => return Err(e),
        };
        proof {
            assert(formats.take(8) =~= formats);
        }
        Ok((t0, t1, t2, t3, t4, t5, t6, t7))
    }
}

impl<B: Backend, P0: ColorPixel + RenderablePixel, P1: ColorPixel + RenderablePixel, P2: ColorPixel + RenderablePixel, P3: ColorPixel + RenderablePixel, P4: ColorPixel + RenderablePixel, P5: ColorPixel + RenderablePixel, P6: ColorPixel + RenderablePixel, P7: ColorPixel + RenderablePixel, P8: ColorPixel + RenderablePixel> ColorSlot<B> for (P0, P1, P2, P3, P4, P5, P6, P7, P8) {
    type ColorTextures = (Texture<P0>, Texture<P1>, Texture<P2>, Texture<P3>, Texture<P4>, Texture<P5>, Texture<P6>, Texture<P7>, Texture<P8>);

    /// The members' formats, in declaration order.
    open spec fn spec_formats() -> Seq<PixelFormat> {
        seq![P0::spec_format(), P1::spec_format(), P2::spec_format(), P3::spec_format(), P4::spec_format(), P5::spec_format(), P6::spec_format(), P7::spec_format(), P8::spec_format()]
    }

    open spec fn textures_wf(size: Size, mipmaps: usize, t: (Texture<P0>, Texture<P1>, Texture<P2>, Texture<P3>, Texture<P4>, Texture<P5>, Texture<P6>, Texture<P7>, Texture<P8>)) -> bool {
        t.0.wf(size, mipmaps) && t.1.wf(size, mipmaps) && t.2.wf(size, mipmaps) && t.3.wf(size, mipmaps) && t.4.wf(size, mipmaps) && t.5.wf(size, mipmaps) && t.6.wf(size, mipmaps) && t.7.wf(size, mipmaps) && t.8.wf(size, mipmaps)
    }

    fn color_formats() -> (v: Vec<PixelFormat>) {
        let mut v: Vec<PixelFormat> = Vec::new();
        v.push(P0::pixel_format());
        v.push(P1::pixel_format());
        v.push(P2::pixel_format());
        v.push(P3::pixel_format());
        v.push(P4::pixel_format());
        v.push(P5::pixel_format());
        v.push(P6::pixel_format());
        v.push(P7::pixel_format());
        v.push(P8::pixel_format());
        proof {
            assert(v@ =~= <(P0, P1, P2, P3, P4, P5, P6, P7, P8) as ColorSlot<B>>::spec_formats());
        }
        v
    }

    fn reify_color_textures(
        ctx: &mut B,
        size: Size,
        mipmaps: usize,
        sampler: &Sampler,
        framebuffer: &mut FramebufferRepr,
        attachment_index: usize,
    ) -> (r: Result<(Texture<P0>, Texture<P1>, Texture<P2>, Texture<P3>, Texture<P4>, Texture<P5>, Texture<P6>, Texture<P7>, Texture<P8>), FramebufferError>) {
        let ghost formats = <(P0, P1, P2, P3, P4, P5, P6, P7, P8) as ColorSlot<B>>::spec_formats();
        let ghost base = ctx.log();
        let ghost start = attachment_index as int;
        let mut index = attachment_index;
        proof {
            assert(formats.take(0) =~= Seq::<PixelFormat>::empty());
            lemma_success_trace_empty(size, mipmaps, start);
            assert(ctx.log() =~= base + success_trace(formats.take(0), size, mipmaps, start));
        }
        let t0 = match reify_member::<B, P0>(
            ctx,
            size,
            mipmaps,
            sampler,
            framebuffer,
            index,
            Ghost(formats),
            Ghost(0),
            Ghost(start),
            Ghost(base),
        ) {
            Ok(t) => t,
            Err(e) => return Err(e),
        };
        index = index + 1;
        let t1 = match reify_member::<B, P1>(
            ctx,
            size,
            mipmaps,
            sampler,
            framebuffer,
            index,
            Ghost(formats),
            Ghost(1),
            Ghost(start),
            Ghost(base),
        ) {
            Ok(t) => t,
            Err(e) => return Err(e),
        };
        index = index + 1;
        let t2 = match reify_member::<B, P2>(
            ctx,
            size,
            mipmaps,
            sampler,
            framebuffer,
            index,
            Ghost(formats),
            Ghost(2),
            Ghost(start),
            Ghost(base),
        ) {
            Ok(t) => t,
            Err(e) => return Err(e),
        };
        index = index + 1;
        let t3 = match reify_member::<B, P3>(
            ctx,
            size,
            mipmaps,
            sampler,
            framebuffer,
            index,
            Ghost(formats),
            Ghost(3),
            Ghost(start),
            Ghost(base),
        ) {
            Ok(t) => t,
            Err(e) => return Err(e),
        };
        index = index + 1;
        let t4 = match reify_member::<B, P4>(
            ctx,
            size,
            mipmaps,
            sampler,
            framebuffer,
            index,
            Ghost(formats),
            Ghost(4),
            Ghost(start),
            Ghost(base),
        ) {
            Ok(t) => t,
            Err(e) => return Err(e),
        };
        index = index + 1;
        let t5 = match reify_member::<B, P5>(
            ctx,
            size,
            mipmaps,
            sampler,
            framebuffer,
            index,
            Ghost(formats),
            Ghost(5),
            Ghost(start),
            Ghost(base),
        ) {
            Ok(t) => t,
            Err(e) => return Err(e),
        };
        index = index + 1;
        let t6 = match reify_member::<B, P6>(
            ctx,
            size,
            mipmaps,
            sampler,
            framebuffer,
            index,
            Ghost(formats),
            Ghost(6),
            Ghost(start),
            Ghost(base),
        ) {
            Ok(t) => t,
            Err(e) => return Err(e),
        };
        index = index + 1;
        let t7 = match reify_member::<B, P7>(
            ctx,
            size,
            mipmaps,
            sampler,
            framebuffer,
            index,
            Ghost(formats),
            Ghost(7),
            Ghost(start),
            Ghost(base),
        ) {
            Ok(t) => t,
            Err(e) => return Err(e),
        };
        index = index + 1;
        let t8 = match reify_member::<B, P8>(
            ctx,
            size,
            mipmaps,
            sampler,
            framebuffer,
            index,
            Ghost(formats),
            Ghost(8),
            Ghost(start),
            Ghost(base),
        ) {
            Ok(t) => t,
            Err(e) => return Err(e),
        };
        proof {
            assert(formats.take(9) =~= formats);
        }
        Ok((t0, t1, t2, t3, t4, t5, t6, t7, t8))
    }
}

impl<B: Backend, P0: ColorPixel + RenderablePixel, P1: ColorPixel + RenderablePixel, P2: ColorPixel + RenderablePixel, P3: ColorPixel + RenderablePixel, P4: ColorPixel + RenderablePixel, P5: ColorPixel + RenderablePixel, P6: ColorPixel + RenderablePixel, P7: ColorPixel + RenderablePixel, P8: ColorPixel + RenderablePixel, P9: ColorPixel + RenderablePixel> ColorSlot<B> for (P0, P1, P2, P3, P4, P5, P6, P7, P8, P9) {
    type ColorTextures = (Texture<P0>, Texture<P1>, Texture<P2>, Texture<P3>, Texture<P4>, Texture<P5>, Texture<P6>, Texture<P7>, Texture<P8>, Texture<P9>);

    /// The members' formats, in declaration order.
    open spec fn spec_formats() -> Seq<PixelFormat> {
        seq![P0::spec_format(), P1::spec_format(), P2::spec_format(), P3::spec_format(), P4::spec_format(), P5::spec_format(), P6::spec_format(), P7::spec_format(), P8::spec_format(), P9::spec_format()]
    }

    open spec fn textures_wf(size: Size, mipmaps: usize, t: (Texture<P0>, Texture<P1>, Texture<P2>, Texture<P3>, Texture<P4>, Texture<P5>, Texture<P6>, Texture<P7>, Texture<P8>, Texture<P9>)) -> bool {
        t.0.wf(size, mipmaps) && t.1.wf(size, mipmaps) && t.2.wf(size, mipmaps) && t.3.wf(size, mipmaps) && t.4.wf(size, mipmaps) && t.5.wf(size, mipmaps) && t.6.wf(size, mipmaps) && t.7.wf(size, mipmaps) && t.8.wf(size, mipmaps) && t.9.wf(size, mipmaps)
    }

    fn color_formats() -> (v: Vec<PixelFormat>) {
        let mut v: Vec<PixelFormat> = Vec::new();
        v.push(P0::pixel_format());
        v.push(P1::pixel_format());
        v.push(P2::pixel_format());
        v.push(P3::pixel_format());
        v.push(P4::pixel_format());
        v.push(P5::pixel_format());
        v.push(P6::pixel_format());
        v.push(P7::pixel_format());
        v.push(P8::pixel_format());
        v.push(P9::pixel_format());
        proof {
            assert(v@ =~= <(P0, P1, P2, P3, P4, P5, P6, P7, P8, P9) as ColorSlot<B>>::spec_formats());
        }
        v
    }

    fn reify_color_textures(
        ctx: &mut B,
        size: Size,
        mipmaps: usize,
        sampler: &Sampler,
        framebuffer: &mut FramebufferRepr,
        attachment_index: usize,
    ) -> (r: Result<(Texture<P0>, Texture<P1>, Texture<P2>, Texture<P3>, Texture<P4>, Texture<P5>, Texture<P6>, Texture<P7>, Texture<P8>, Texture<P9>), FramebufferError>) {
        let ghost formats = <(P0, P1, P2, P3, P4, P5, P6, P7, P8, P9) as ColorSlot<B>>::spec_formats();
        let ghost base = ctx.log();
        let ghost start = attachment_index as int;
        let mut index = attachment_index;
        proof {
            assert(formats.take(0) =~= Seq::<PixelFormat>::empty());
            lemma_success_trace_empty(size, mipmaps, start);
            assert(ctx.log() =~= base + success_trace(formats.take(0), size, mipmaps, start));
        }
        let t0 = match reify_member::<B, P0>(
            ctx,
            size,
            mipmaps,
            sampler,
            framebuffer,
            index,
            Ghost(formats),
            Ghost(0),
            Ghost(start),
            Ghost(base),
        ) {
            Ok(t) => t,
            Err(e) => return Err(e),
        };
        index = index + 1;
        let t1 = match reify_member::<B, P1>(
            ctx,
            size,
            mipmaps,
            sampler,
            framebuffer,
            index,
            Ghost(formats),
            Ghost(1),
            Ghost(start),
            Ghost(base),
        ) {
            Ok(t) => t,
            Err(e) => return Err(e),
        };
        index = index + 1;
        let t2 = match reify_member::<B, P2>(
            ctx,
            size,
            mipmaps,
            sampler,
            framebuffer,
            index,
            Ghost(formats),
            Ghost(2),
            Ghost(start),
            Ghost(base),
        ) {
            Ok(t) => t,
            Err(e) => return Err(e),
        };
        index = index + 1;
        let t3 = match reify_member::<B, P3>(
            ctx,
            size,
            mipmaps,
            sampler,
            framebuffer,
            index,
            Ghost(formats),
            Ghost(3),
            Ghost(start),
            Ghost(base),
        ) {
            Ok(t) => t,
            Err(e) => return Err(e),
        };
        index = index + 1;
        let t4 = match reify_member::<B, P4>(
            ctx,
            size,
            mipmaps,
            sampler,
            framebuffer,
            index,
            Ghost(formats),
            Ghost(4),
            Ghost(start),
            Ghost(base),
        ) {
            Ok(t) => t,
            Err(e) => return Err(e),
        };
        index = index + 1;
        let t5 = match reify_member::<B, P5>(
            ctx,
            size,
            mipmaps,
            sampler,
            framebuffer,
            index,
            Ghost(formats),
            Ghost(5),
            Ghost(start),
            Ghost(base),
        ) {
            Ok(t) => t,
            Err(e) => return Err(e),
        };
        index = index + 1;
        let t6 = match reify_member::<B, P6>(
            ctx,
            size,
            mipmaps,
            sampler,
            framebuffer,
            index,
            Ghost(formats),
            Ghost(6),
            Ghost(start),
            Ghost(base),
        ) {
            Ok(t) => t,
            Err(e) => return Err(e),
        };
        index = index + 1;
        let t7 = match reify_member::<B, P7>(
            ctx,
            size,
            mipmaps,
            sampler,
            framebuffer,
            index,
            Ghost(formats),
            Ghost(7),
            Ghost(start),
            Ghost(base),
        ) {
            Ok(t) => t,
            Err(e) => return Err(e),
        };
        index = index + 1;
        let t8 = match reify_member::<B, P8>(
            ctx,
            size,
            mipmaps,
            sampler,
            framebuffer,
            index,
            Ghost(formats),
            Ghost(8),
            Ghost(start),
            Ghost(base),
        ) {
            Ok(t) => t,
            Err(e) => return Err(e),
        };
        index = index + 1;
        let t9 = match reify_member::<B, P9>(
            ctx,
            size,
            mipmaps,
            sampler,
            framebuffer,
            index,
            Ghost(formats),
            Ghost(9),
            Ghost(start),
            Ghost(base),
        ) {
            Ok(t) => t,
            Err(e) => return Err(e),
        };
        proof {
            assert(formats.take(10) =~= formats);
        }
        Ok((t0, t1, t2, t3, t4, t5, t6, t7, t8, t9))
    }
}

impl<B: Backend, P0: ColorPixel + RenderablePixel, P1: ColorPixel + RenderablePixel, P2: ColorPixel + RenderablePixel, P3: ColorPixel + RenderablePixel, P4: ColorPixel + RenderablePixel, P5: ColorPixel + RenderablePixel, P6: ColorPixel + RenderablePixel, P7: ColorPixel + RenderablePixel, P8: ColorPixel + RenderablePixel, P9: ColorPixel + RenderablePixel, P10: ColorPixel + RenderablePixel> ColorSlot<B> for (P0, P1, P2, P3, P4, P5, P6, P7, P8, P9, P10) {
    type ColorTextures = (Texture<P0>, Texture<P1>, Texture<P2>, Texture<P3>, Texture<P4>, Texture<P5>, Texture<P6>, Texture<P7>, Texture<P8>, Texture<P9>, Texture<P10>);

    /// The members' formats, in declaration order.
    open spec fn spec_formats() -> Seq<PixelFormat> {
        seq![P0::spec_format(), P1::spec_format(), P2::spec_format(), P3::spec_format(), P4::spec_format(), P5::spec_format(), P6::spec_format(), P7::spec_format(), P8::spec_format(), P9::spec_format(), P10::spec_format()]
    }

    open spec fn textures_wf(size: Size, mipmaps: usize, t: (Texture<P0>, Texture<P1>, Texture<P2>, Texture<P3>, Texture<P4>, Texture<P5>, Texture<P6>, Texture<P7>, Texture<P8>, Texture<P9>, Texture<P10>)) -> bool {
        t.0.wf(size, mipmaps) && t.1.wf(size, mipmaps) && t.2.wf(size, mipmaps) && t.3.wf(size, mipmaps) && t.4.wf(size, mipmaps) && t.5.wf(size, mipmaps) && t.6.wf(size, mipmaps) && t.7.wf(size, mipmaps) && t.8.wf(size, mipmaps) && t.9.wf(size, mipmaps) && t.10.wf(size, mipmaps)
    }

    fn color_formats() -> (v: Vec<PixelFormat>) {
        let mut v: Vec<PixelFormat> = Vec::new();
        v.push(P0::pixel_format());
        v.push(P1::pixel_format());
        v.push(P2::pixel_format());
        v.push(P3::pixel_format());
        v.push(P4::pixel_format());
        v.push(P5::pixel_format());
        v.push(P6::pixel_format());
        v.push(P7::pixel_format());
        v.push(P8::pixel_format());
        v.push(P9::pixel_format());
        v.push(P10::pixel_format());
        proof {
            assert(v@ =~= <(P0, P1, P2, P3, P4, P5, P6, P7, P8, P9, P10) as ColorSlot<B>>::spec_formats());
        }
        v
    }

    fn reify_color_textures(
        ctx: &mut B,
        size: Size,
        mipmaps: usize,
        sampler: &Sampler,
        framebuffer: &mut FramebufferRepr,
        attachment_index: usize,
    ) -> (r: Result<(Texture<P0>, Texture<P1>, Texture<P2>, Texture<P3>, Texture<P4>, Texture<P5>, Texture<P6>, Texture<P7>, Texture<P8>, Texture<P9>, Texture<P10>), FramebufferError>) {
        let ghost formats = <(P0, P1, P2, P3, P4, P5, P6, P7, P8, P9, P10) as ColorSlot<B>>::spec_formats();
        let ghost base = ctx.log();
        let ghost start = attachment_index as int;
        let mut index = attachment_index;
        proof {
            assert(formats.take(0) =~= Seq::<PixelFormat>::empty());
            lemma_success_trace_empty(size, mipmaps, start);
            assert(ctx.log() =~= base + success_trace(formats.take(0), size, mipmaps, start));
        }
        let t0 = match reify_member::<B, P0>(
            ctx,
            size,
            mipmaps,
            sampler,
            framebuffer,
            index,
            Ghost(formats),
            Ghost(0),
            Ghost(start),
            Ghost(base),
        ) {
            Ok(t) => t,
            Err(e) => return Err(e),
        };
        index = index + 1;
        let t1 = match reify_member::<B, P1>(
            ctx,
            size,
            mipmaps,
            sampler,
            framebuffer,
            index,
            Ghost(formats),
            Ghost(1),
            Ghost(start),
            Ghost(base),
        ) {
            Ok(t) => t,
            Err(e) => return Err(e),
        };
        index = index + 1;
        let t2 = match reify_member::<B, P2>(
            ctx,
            size,
            mipmaps,
            sampler,
            framebuffer,
            index,
            Ghost(formats),
            Ghost(2),
            Ghost(start),
            Ghost(base),
        ) {
            Ok(t) => t,
            Err(e) => return Err(e),
        };
        index = index + 1;
        let t3 = match reify_member::<B, P3>(
            ctx,
            size,
            mipmaps,
            sampler,
            framebuffer,
            index,
            Ghost(formats),
            Ghost(3),
            Ghost(start),
            Ghost(base),
        ) {
            Ok(t) => t,
            Err(e) => return Err(e),
        };
        index = index + 1;
        let t4 = match reify_member::<B, P4>(
            ctx,
            size,
            mipmaps,
            sampler,
            framebuffer,
            index,
            Ghost(formats),
            Ghost(4),
            Ghost(start),
            Ghost(base),
        ) {
            Ok(t) => t,
            Err(e) => return Err(e),
        };
        index = index + 1;
        let t5 = match reify_member::<B, P5>(
            ctx,
            size,
            mipmaps,
            sampler,
            framebuffer,
            index,
            Ghost(formats),
            Ghost(5),
            Ghost(start),
            Ghost(base),
        ) {
            Ok(t) => t,
            Err(e) => return Err(e),
        };
        index = index + 1;
        let t6 = match reify_member::<B, P6>(
            ctx,
            size,
            mipmaps,
            sampler,
            framebuffer,
            index,
            Ghost(formats),
            Ghost(6),
            Ghost(start),
            Ghost(base),
        ) {
            Ok(t) => t,
            Err(e) => return Err(e),
        };
        index = index + 1;
        let t7 = match reify_member::<B, P7>(
            ctx,
            size,
            mipmaps,
            sampler,
            framebuffer,
            index,
            Ghost(formats),
            Ghost(7),
            Ghost(start),
            Ghost(base),
        ) {
            Ok(t) => t,
            Err(e) => return Err(e),
        };
        index = index + 1;
        let t8 = match reify_member::<B, P8>(
            ctx,
            size,
            mipmaps,
            sampler,
            framebuffer,
            index,
            Ghost(formats),
            Ghost(8),
            Ghost(start),
            Ghost(base),
        ) {
            Ok(t) => t,
            Err(e) => return Err(e),
        };
        index = index + 1;
        let t9 = match reify_member::<B, P9>(
            ctx,
            size,
            mipmaps,
            sampler,
            framebuffer,
            index,
            Ghost(formats),
            Ghost(9),
            Ghost(start),
            Ghost(base),
        ) {
            Ok(t) => t,
            Err(e) => return Err(e),
        };
        index = index + 1;
        let t10 = match reify_member::<B, P10>(
            ctx,
            size,
            mipmaps,
            sampler,
            framebuffer,
            index,
            Ghost(formats),
            Ghost(10),
            Ghost(start),
            Ghost(base),
        ) {
            Ok(t) => t,
            Err(e) => return Err(e),
        };
        proof {
            assert(formats.take(11) =~= formats);
        }
        Ok((t0, t1, t2, t3, t4, t5, t6, t7, t8, t9, t10))
    }
}

impl<B: Backend, P0: ColorPixel + RenderablePixel, P1: ColorPixel + RenderablePixel, P2: ColorPixel + RenderablePixel, P3: ColorPixel + RenderablePixel, P4: ColorPixel + RenderablePixel, P5: ColorPixel + RenderablePixel, P6: ColorPixel + RenderablePixel, P7: ColorPixel + RenderablePixel, P8: ColorPixel + RenderablePixel, P9: ColorPixel + RenderablePixel, P10: ColorPixel + RenderablePixel, P11: ColorPixel + RenderablePixel> ColorSlot<B> for (P0, P1, P2, P3, P4, P5, P6, P7, P8, P9, P10, P11) {
    type ColorTextures = (Texture<P0>, Texture<P1>, Texture<P2>, Texture<P3>, Texture<P4>, Texture<P5>, Texture<P6>, Texture<P7>, Texture<P8>, Texture<P9>, Texture<P10>, Texture<P11>);

    /// The members' formats, in declaration order.
    open spec fn spec_formats() -> Seq<PixelFormat> {
        seq![P0::spec_format(), P1::spec_format(), P2::spec_format(), P3::spec_format(), P4::spec_format(), P5::spec_format(), P6::spec_format(), P7::spec_format(), P8::spec_format(), P9::spec_format(), P10::spec_format(), P11::spec_format()]
    }

    open spec fn textures_wf(size: Size, mipmaps: usize, t: (Texture<P0>, Texture<P1>, Texture<P2>, Texture<P3>, Texture<P4>, Texture<P5>, Texture<P6>, Texture<P7>, Texture<P8>, Texture<P9>, Texture<P10>, Texture<P11>)) -> bool {
        t.0.wf(size, mipmaps) && t.1.wf(size, mipmaps) && t.2.wf(size, mipmaps) && t.3.wf(size, mipmaps) && t.4.wf(size, mipmaps) && t.5.wf(size, mipmaps) && t.6.wf(size, mipmaps) && t.7.wf(size, mipmaps) && t.8.wf(size, mipmaps) && t.9.wf(size, mipmaps) && t.10.wf(size, mipmaps) && t.11.wf(size, mipmaps)
    }

    fn color_formats() -> (v: Vec<PixelFormat>) {
        let mut v: Vec<PixelFormat> = Vec::new();
        v.push(P0::pixel_format());
        v.push(P1::pixel_format());
        v.push(P2::pixel_format());
        v.push(P3::pixel_format());
        v.push(P4::pixel_format());
        v.push(P5::pixel_format());
        v.push(P6::pixel_format());
        v.push(P7::pixel_format());
        v.push(P8::pixel_format());
        v.push(P9::pixel_format());
        v.push(P10::pixel_format());
        v.push(P11::pixel_format());
        proof {
            assert(v@ =~= <(P0, P1, P2, P3, P4, P5, P6, P7, P8, P9, P10, P11) as ColorSlot<B>>::spec_formats());
        }
        v
    }

    fn reify_color_textures(
        ctx: &mut B,
        size: Size,
        mipmaps: usize,
        sampler: &Sampler,
        framebuffer: &mut FramebufferRepr,
        attachment_index: usize,
    ) -> (r: Result<(Texture<P0>, Texture<P1>, Texture<P2>, Texture<P3>, Texture<P4>, Texture<P5>, Texture<P6>, Texture<P7>, Texture<P8>, Texture<P9>, Texture<P10>, Texture<P11>), FramebufferError>) {
        let ghost formats = <(P0, P1, P2, P3, P4, P5, P6, P7, P8, P9, P10, P11) as ColorSlot<B>>::spec_formats();
        let ghost base = ctx.log();
        let ghost start = attachment_index as int;
        let mut index = attachment_index;
        proof {
            assert(formats.take(0) =~= Seq::<PixelFormat>::empty());
            lemma_success_trace_empty(size, mipmaps, start);
            assert(ctx.log() =~= base + success_trace(formats.take(0), size, mipmaps, start));
        }
        let t0 = match reify_member::<B, P0>(
            ctx,
            size,
            mipmaps,
            sampler,
            framebuffer,
            index,
            Ghost(formats),
            Ghost(0),
            Ghost(start),
            Ghost(base),
        ) {
            Ok(t) => t,
            Err(e) => return Err(e),
        };
        index = index + 1;
        let t1 = match reify_member::<B, P1>(
            ctx,
            size,
            mipmaps,
            sampler,
            framebuffer,
            index,
            Ghost(formats),
            Ghost(1),
            Ghost(start),
            Ghost(base),
        ) {
            Ok(t) => t,
            Err(e) => return Err(e),
        };
        index = index + 1;
        let t2 = match reify_member::<B, P2>(
            ctx,
            size,
            mipmaps,
            sampler,
            framebuffer,
            index,
            Ghost(formats),
            Ghost(2),
            Ghost(start),
            Ghost(base),
        ) {
            Ok(t) => t,
            Err(e) => return Err(e),
        };
        index = index + 1;
        let t3 = match reify_member::<B, P3>(
            ctx,
            size,
            mipmaps,
            sampler,
            framebuffer,
            index,
            Ghost(formats),
            Ghost(3),
            Ghost(start),
            Ghost(base),
        ) {
            Ok(t) => t,
            Err(e) => return Err(e),
        };
        index = index + 1;
        let t4 = match reify_member::<B, P4>(
            ctx,
            size,
            mipmaps,
            sampler,
            framebuffer,
            index,
            Ghost(formats),
            Ghost(4),
            Ghost(start),
            Ghost(base),
        ) {
            Ok(t) => t,
            Err(e) => return Err(e),
        };
        index = index + 1;
        let t5 = match reify_member::<B, P5>(
            ctx,
            size,
            mipmaps,
            sampler,
            framebuffer,
            index,
            Ghost(formats),
            Ghost(5),
            Ghost(start),
            Ghost(base),
        ) {
            Ok(t) => t,
            Err(e) => return Err(e),
        };
        index = index + 1;
        let t6 = match reify_member::<B, P6>(
            ctx,
            size,
            mipmaps,
            sampler,
            framebuffer,
            index,
            Ghost(formats),
            Ghost(6),
            Ghost(start),
            Ghost(base),
        ) {
            Ok(t) => t,
            Err(e) => return Err(e),
        };
        index = index + 1;
        let t7 = match reify_member::<B, P7>(
            ctx,
            size,
            mipmaps,
            sampler,
            framebuffer,
            index,
            Ghost(formats),
            Ghost(7),
            Ghost(start),
            Ghost(base),
        ) {
            Ok(t) => t,
            Err(e) => return Err(e),
        };
        index = index + 1;
        let t8 = match reify_member::<B, P8>(
            ctx,
            size,
            mipmaps,
            sampler,
            framebuffer,
            index,
            Ghost(formats),
            Ghost(8),
            Ghost(start),
            Ghost(base),
        ) {
            Ok(t) => t,
            Err(e) => return Err(e),
        };
        index = index + 1;
        let t9 = match reify_member::<B, P9>(
            ctx,
            size,
            mipmaps,
            sampler,
            framebuffer,
            index,
            Ghost(formats),
            Ghost(9),
            Ghost(start),
            Ghost(base),
        ) {
            Ok(t) => t,
            Err(e) => return Err(e),
        };
        index = index + 1;
        let t10 = match reify_member::<B, P10>(
            ctx,
            size,
            mipmaps,
            sampler,
            framebuffer,
            index,
            Ghost(formats),
            Ghost(10),
            Ghost(start),
            Ghost(base),
        ) {
            Ok(t) => t,
            Err(e) => return Err(e),
        };
        index = index + 1;
        let t11 = match reify_member::<B, P11>(
            ctx,
            size,
            mipmaps,
            sampler,
            framebuffer,
            index,
            Ghost(formats),
            Ghost(11),
            Ghost(start),
            Ghost(base),
        ) {
            Ok(t) => t,
            Err(e) => return Err(e),
        };
        proof {
            assert(formats.take(12) =~= formats);
        }
        Ok((t0, t1, t2, t3, t4, t5, t6, t7, t8, t9, t10, t11))
    }
}

/// A tuple of 2 members lists exactly its members' formats: one per
/// member, in declaration order.
pub proof fn lemma_tuple2_format_list<
    B: Backend,
    P0: ColorPixel + RenderablePixel,
    P1: ColorPixel + RenderablePixel,
>()
    ensures
        <(P0, P1) as ColorSlot<B>>::spec_formats().len() == 2,
        <(P0, P1) as ColorSlot<B>>::spec_formats()[0] == P0::spec_format(),
        <(P0, P1) as ColorSlot<B>>::spec_formats()[1] == P1::spec_format(),
{
}

/// A tuple of 3 members lists exactly its members' formats: one per
/// member, in declaration order.
pub proof fn lemma_tuple3_format_list<
    B: Backend,
    P0: ColorPixel + RenderablePixel,
    P1: ColorPixel + RenderablePixel,
    P2: ColorPixel + RenderablePixel,
>()
    ensures
        <(P0, P1, P2) as ColorSlot<B>>::spec_formats().len() == 3,
        <(P0, P1, P2) as ColorSlot<B>>::spec_formats()[0] == P0::spec_format(),
        <(P0, P1, P2) as ColorSlot<B>>::spec_formats()[1] == P1::spec_format(),
        <(P0, P1, P2) as ColorSlot<B>>::spec_formats()[2] == P2::spec_format(),
{
}

/// A tuple of 4 members lists exactly its members' formats: one per
/// member, in declaration order.
pub proof fn lemma_tuple4_format_list<
    B: Backend,
    P0: ColorPixel + RenderablePixel,
    P1: ColorPixel + RenderablePixel,
    P2: ColorPixel + RenderablePixel,
    P3: ColorPixel + RenderablePixel,
>()
    ensures
        <(P0, P1, P2, P3) as ColorSlot<B>>::spec_formats().len() == 4,
        <(P0, P1, P2, P3) as ColorSlot<B>>::spec_formats()[0] == P0::spec_format(),
        <(P0, P1, P2, P3) as ColorSlot<B>>::spec_formats()[1] == P1::spec_format(),
        <(P0, P1, P2, P3) as ColorSlot<B>>::spec_formats()[2] == P2::spec_format(),
        <(P0, P1, P2, P3) as ColorSlot<B>>::spec_formats()[3] == P3::spec_format(),
{
}

/// A tuple of 5 members lists exactly its members' formats: one per
/// member, in declaration order.
pub proof fn lemma_tuple5_format_list<
    B: Backend,
    P0: ColorPixel + RenderablePixel,
    P1: ColorPixel + RenderablePixel,
    P2: ColorPixel + RenderablePixel,
    P3: ColorPixel + RenderablePixel,
    P4: ColorPixel + RenderablePixel,
>()
    ensures
        <(P0, P1, P2, P3, P4) as ColorSlot<B>>::spec_formats().len() == 5,
        <(P0, P1, P2, P3, P4) as ColorSlot<B>>::spec_formats()[0] == P0::spec_format(),
        <(P0, P1, P2, P3, P4) as ColorSlot<B>>::spec_formats()[1] == P1::spec_format(),
        <(P0, P1, P2, P3, P4) as ColorSlot<B>>::spec_formats()[2] == P2::spec_format(),
        <(P0, P1, P2, P3, P4) as ColorSlot<B>>::spec_formats()[3] == P3::spec_format(),
        <(P0, P1, P2, P3, P4) as ColorSlot<B>>::spec_formats()[4] == P4::spec_format(),
{
}

/// A tuple of 6 members lists exactly its members' formats: one per
/// member, in declaration order.
pub proof fn lemma_tuple6_format_list<
    B: Backend,
    P0: ColorPixel + RenderablePixel,
    P1: ColorPixel + RenderablePixel,
    P2: ColorPixel + RenderablePixel,
    P3: ColorPixel + RenderablePixel,
    P4: ColorPixel + RenderablePixel,
    P5: ColorPixel + RenderablePixel,
>()
    ensures
        <(P0, P1, P2, P3, P4, P5) as ColorSlot<B>>::spec_formats().len() == 6,
        <(P0, P1, P2, P3, P4, P5) as ColorSlot<B>>::spec_formats()[0] == P0::spec_format(),
        <(P0, P1, P2, P3, P4, P5) as ColorSlot<B>>::spec_formats()[1] == P1::spec_format(),
        <(P0, P1, P2, P3, P4, P5) as ColorSlot<B>>::spec_formats()[2] == P2::spec_format(),
        <(P0, P1, P2, P3, P4, P5) as ColorSlot<B>>::spec_formats()[3] == P3::spec_format(),
        <(P0, P1, P2, P3, P4, P5) as ColorSlot<B>>::spec_formats()[4] == P4::spec_format(),
        <(P0, P1, P2, P3, P4, P5) as ColorSlot<B>>::spec_formats()[5] == P5::spec_format(),
{
}

/// A tuple of 7 members lists exactly its members' formats: one per
/// member, in declaration order.
pub proof fn lemma_tuple7_format_list<
    B: Backend,
    P0: ColorPixel + RenderablePixel,
    P1: ColorPixel + RenderablePixel,
    P2: ColorPixel + RenderablePixel,
    P3: ColorPixel + RenderablePixel,
    P4: ColorPixel + RenderablePixel,
    P5: ColorPixel + RenderablePixel,
    P6: ColorPixel + RenderablePixel,
>()
    ensures
        <(P0, P1, P2, P3, P4, P5, P6) as ColorSlot<B>>::spec_formats().len() == 7,
        <(P0, P1, P2, P3, P4, P5, P6) as ColorSlot<B>>::spec_formats()[0] == P0::spec_format(),
        <(P0, P1, P2, P3, P4, P5, P6) as ColorSlot<B>>::spec_formats()[1] == P1::spec_format(),
        <(P0, P1, P2, P3, P4, P5, P6) as ColorSlot<B>>::spec_formats()[2] == P2::spec_format(),
        <(P0, P1, P2, P3, P4, P5, P6) as ColorSlot<B>>::spec_formats()[3] == P3::spec_format(),
        <(P0, P1, P2, P3, P4, P5, P6) as ColorSlot<B>>::spec_formats()[4] == P4::spec_format(),
        <(P0, P1, P2, P3, P4, P5, P6) as ColorSlot<B>>::spec_formats()[5] == P5::spec_format(),
        <(P0, P1, P2, P3, P4, P5, P6) as ColorSlot<B>>::spec_formats()[6] == P6::spec_format(),
{
}

/// A tuple of 8 members lists exactly its members' formats: one per
/// member, in declaration order.
pub proof fn lemma_tuple8_format_list<
    B: Backend,
    P0: ColorPixel + RenderablePixel,
    P1: ColorPixel + RenderablePixel,
    P2: ColorPixel + RenderablePixel,
    P3: ColorPixel + RenderablePixel,
    P4: ColorPixel + RenderablePixel,
    P5: ColorPixel + RenderablePixel,
    P6: ColorPixel + RenderablePixel,
    P7: ColorPixel + RenderablePixel,
>()
    ensures
        <(P0, P1, P2, P3, P4, P5, P6, P7) as ColorSlot<B>>::spec_formats().len() == 8,
        <(P0, P1, P2, P3, P4, P5, P6, P7) as ColorSlot<B>>::spec_formats()[0] == P0::spec_format(),
        <(P0, P1, P2, P3, P4, P5, P6, P7) as ColorSlot<B>>::spec_formats()[1] == P1::spec_format(),
        <(P0, P1, P2, P3, P4, P5, P6, P7) as ColorSlot<B>>::spec_formats()[2] == P2::spec_format(),
        <(P0, P1, P2, P3, P4, P5, P6, P7) as ColorSlot<B>>::spec_formats()[3] == P3::spec_format(),
        <(P0, P1, P2, P3, P4, P5, P6, P7) as ColorSlot<B>>::spec_formats()[4] == P4::spec_format(),
        <(P0, P1, P2, P3, P4, P5, P6, P7) as ColorSlot<B>>::spec_formats()[5] == P5::spec_format(),
        <(P0, P1, P2, P3, P4, P5, P6, P7) as ColorSlot<B>>::spec_formats()[6] == P6::spec_format(),
        <(P0, P1, P2, P3, P4, P5, P6, P7) as ColorSlot<B>>::spec_formats()[7] == P7::spec_format(),
{
}

/// A tuple of 9 members lists exactly its members' formats: one per
/// member, in declaration order.
pub proof fn lemma_tuple9_format_list<
    B: Backend,
    P0: ColorPixel + RenderablePixel,
    P1: ColorPixel + RenderablePixel,
    P2: ColorPixel + RenderablePixel,
    P3: ColorPixel + RenderablePixel,
    P4: ColorPixel + RenderablePixel,
    P5: ColorPixel + RenderablePixel,
    P6: ColorPixel + RenderablePixel,
    P7: ColorPixel + RenderablePixel,
    P8: ColorPixel + RenderablePixel,
>()
    ensures
        <(P0, P1, P2, P3, P4, P5, P6, P7, P8) as ColorSlot<B>>::spec_formats().len() == 9,
        <(P0, P1, P2, P3, P4, P5, P6, P7, P8) as ColorSlot<B>>::spec_formats()[0] == P0::spec_format(),
        <(P0, P1, P2, P3, P4, P5, P6, P7, P8) as ColorSlot<B>>::spec_formats()[1] == P1::spec_format(),
        <(P0, P1, P2, P3, P4, P5, P6, P7, P8) as ColorSlot<B>>::spec_formats()[2] == P2::spec_format(),
        <(P0, P1, P2, P3, P4, P5, P6, P7, P8) as ColorSlot<B>>::spec_formats()[3] == P3::spec_format(),
        <(P0, P1, P2, P3, P4, P5, P6, P7, P8) as ColorSlot<B>>::spec_formats()[4] == P4::spec_format(),
        <(P0, P1, P2, P3, P4, P5, P6, P7, P8) as ColorSlot<B>>::spec_formats()[5] == P5::spec_format(),
        <(P0, P1, P2, P3, P4, P5, P6, P7, P8) as ColorSlot<B>>::spec_formats()[6] == P6::spec_format(),
        <(P0, P1, P2, P3, P4, P5, P6, P7, P8) as ColorSlot<B>>::spec_formats()[7] == P7::spec_format(),
        <(P0, P1, P2, P3, P4, P5, P6, P7, P8) as ColorSlot<B>>::spec_formats()[8] == P8::spec_format(),
{
}

/// A tuple of 10 members lists exactly its members' formats: one per
/// member, in declaration order.
pub proof fn lemma_tuple10_format_list<
    B: Backend,
    P0: ColorPixel + RenderablePixel,
    P1: ColorPixel + RenderablePixel,
    P2: ColorPixel + RenderablePixel,
    P3: ColorPixel + RenderablePixel,
    P4: ColorPixel + RenderablePixel,
    P5: ColorPixel + RenderablePixel,
    P6: ColorPixel + RenderablePixel,
    P7: ColorPixel + RenderablePixel,
    P8: ColorPixel + RenderablePixel,
    P9: ColorPixel + RenderablePixel,
>()
    ensures
        <(P0, P1, P2, P3, P4, P5, P6, P7, P8, P9) as ColorSlot<B>>::spec_formats().len() == 10,
        <(P0, P1, P2, P3, P4, P5, P6, P7, P8, P9) as ColorSlot<B>>::spec_formats()[0] == P0::spec_format(),
        <(P0, P1, P2, P3, P4, P5, P6, P7, P8, P9) as ColorSlot<B>>::spec_formats()[1] == P1::spec_format(),
        <(P0, P1, P2, P3, P4, P5, P6, P7, P8, P9) as ColorSlot<B>>::spec_formats()[2] == P2::spec_format(),
        <(P0, P1, P2, P3, P4, P5, P6, P7, P8, P9) as ColorSlot<B>>::spec_formats()[3] == P3::spec_format(),
        <(P0, P1, P2, P3, P4, P5, P6, P7, P8, P9) as ColorSlot<B>>::spec_formats()[4] == P4::spec_format(),
        <(P0, P1, P2, P3, P4, P5, P6, P7, P8, P9) as ColorSlot<B>>::spec_formats()[5] == P5::spec_format(),
        <(P0, P1, P2, P3, P4, P5, P6, P7, P8, P9) as ColorSlot<B>>::spec_formats()[6] == P6::spec_format(),
        <(P0, P1, P2, P3, P4, P5, P6, P7, P8, P9) as ColorSlot<B>>::spec_formats()[7] == P7::spec_format(),
        <(P0, P1, P2, P3, P4, P5, P6, P7, P8, P9) as ColorSlot<B>>::spec_formats()[8] == P8::spec_format(),
        <(P0, P1, P2, P3, P4, P5, P6, P7, P8, P9) as ColorSlot<B>>::spec_formats()[9] == P9::spec_format(),
{
}

/// A tuple of 11 members lists exactly its members' formats: one per
/// member, in declaration order.
pub proof fn lemma_tuple11_format_list<
    B: Backend,
    P0: ColorPixel + RenderablePixel,
    P1: ColorPixel + RenderablePixel,
    P2: ColorPixel + RenderablePixel,
    P3: ColorPixel + RenderablePixel,
    P4: ColorPixel + RenderablePixel,
    P5: ColorPixel + RenderablePixel,
    P6: ColorPixel + RenderablePixel,
    P7: ColorPixel + RenderablePixel,
    P8: ColorPixel + RenderablePixel,
    P9: ColorPixel + RenderablePixel,
    P10: ColorPixel + RenderablePixel,
>()
    ensures
        <(P0, P1, P2, P3, P4, P5, P6, P7, P8, P9, P10) as ColorSlot<B>>::spec_formats().len() == 11,
        <(P0, P1, P2, P3, P4, P5, P6, P7, P8, P9, P10) as ColorSlot<B>>::spec_formats()[0] == P0::spec_format(),
        <(P0, P1, P2, P3, P4, P5, P6, P7, P8, P9, P10) as ColorSlot<B>>::spec_formats()[1] == P1::spec_format(),
        <(P0, P1, P2, P3, P4, P5, P6, P7, P8, P9, P10) as ColorSlot<B>>::spec_formats()[2] == P2::spec_format(),
        <(P0, P1, P2, P3, P4, P5, P6, P7, P8, P9, P10) as ColorSlot<B>>::spec_formats()[3] == P3::spec_format(),
        <(P0, P1, P2, P3, P4, P5, P6, P7, P8, P9, P10) as ColorSlot<B>>::spec_formats()[4] == P4::spec_format(),
        <(P0, P1, P2, P3, P4, P5, P6, P7, P8, P9, P10) as ColorSlot<B>>::spec_formats()[5] == P5::spec_format(),
        <(P0, P1, P2, P3, P4, P5, P6, P7, P8, P9, P10) as ColorSlot<B>>::spec_formats()[6] == P6::spec_format(),
        <(P0, P1, P2, P3, P4, P5, P6, P7, P8, P9, P10) as ColorSlot<B>>::spec_formats()[7] == P7::spec_format(),
        <(P0, P1, P2, P3, P4, P5, P6, P7, P8, P9, P10) as ColorSlot<B>>::spec_formats()[8] == P8::spec_format(),
        <(P0, P1, P2, P3, P4, P5, P6, P7, P8, P9, P10) as ColorSlot<B>>::spec_formats()[9] == P9::spec_format(),
        <(P0, P1, P2, P3, P4, P5, P6, P7, P8, P9, P10) as ColorSlot<B>>::spec_formats()[10] == P10::spec_format(),
{
}

/// A tuple of 12 members lists exactly its members' formats: one per
/// member, in declaration order.
pub proof fn lemma_tuple12_format_list<
    B: Backend,
    P0: ColorPixel + RenderablePixel,
    P1: ColorPixel + RenderablePixel,
    P2: ColorPixel + RenderablePixel,
    P3: ColorPixel + RenderablePixel,
    P4: ColorPixel + RenderablePixel,
    P5: ColorPixel + RenderablePixel,
    P6: ColorPixel + RenderablePixel,
    P7: ColorPixel + RenderablePixel,
    P8: ColorPixel + RenderablePixel,
    P9: ColorPixel + RenderablePixel,
    P10: ColorPixel + RenderablePixel,
    P11: ColorPixel + RenderablePixel,
>()
    ensures
        <(P0, P1, P2, P3, P4, P5, P6, P7, P8, P9, P10, P11) as ColorSlot<B>>::spec_formats().len() == 12,
        <(P0, P1, P2, P3, P4, P5, P6, P7, P8, P9, P10, P11) as ColorSlot<B>>::spec_formats()[0] == P0::spec_format(),
        <(P0, P1, P2, P3, P4, P5, P6, P7, P8, P9, P10, P11) as ColorSlot<B>>::spec_formats()[1] == P1::spec_format(),
        <(P0, P1, P2, P3, P4, P5, P6, P7, P8, P9, P10, P11) as ColorSlot<B>>::spec_formats()[2] == P2::spec_format(),
        <(P0, P1, P2, P3, P4, P5, P6, P7, P8, P9, P10, P11) as ColorSlot<B>>::spec_formats()[3] == P3::spec_format(),
        <(P0, P1, P2, P3, P4, P5, P6, P7, P8, P9, P10, P11) as ColorSlot<B>>::spec_formats()[4] == P4::spec_format(),
        <(P0, P1, P2, P3, P4, P5, P6, P7, P8, P9, P10, P11) as ColorSlot<B>>::spec_formats()[5] == P5::spec_format(),
        <(P0, P1, P2, P3, P4, P5, P6, P7, P8, P9, P10, P11) as ColorSlot<B>>::spec_formats()[6] == P6::spec_format(),
        <(P0, P1, P2, P3, P4, P5, P6, P7, P8, P9, P10, P11) as ColorSlot<B>>::spec_formats()[7] == P7::spec_format(),
        <(P0, P1, P2, P3, P4, P5, P6, P7, P8, P9, P10, P11) as ColorSlot<B>>::spec_formats()[8] == P8::spec_format(),
        <(P0, P1, P2, P3, P4, P5, P6, P7, P8, P9, P10, P11) as ColorSlot<B>>::spec_formats()[9] == P9::spec_format(),
        <(P0, P1, P2, P3, P4, P5, P6, P7, P8, P9, P10, P11) as ColorSlot<B>>::spec_formats()[10] == P10::spec_format(),
        <(P0, P1, P2, P3, P4, P5, P6, P7, P8, P9, P10, P11) as ColorSlot<B>>::spec_formats()[11] == P11::spec_format(),
{
}

} // verus!
