//! The color-slot abstraction: shapes, their format lists and reification.
//!
//! A color slot is a compile-time shape — no attachment, one pixel format, or
//! an ordered tuple of formats — that knows the ordered list of pixel formats
//! it requires and how to create and attach one texture per format to a
//! native framebuffer at consecutive attachment indices.
//!
//! The contract of [`ColorSlot::reify_color_textures`] is stated over the
//! backend's call log: a successful reification appends exactly
//! [`success_trace`] — create-then-attach for each member, left to right, at
//! indices `start, start + 1, …` — and a failed one appends a strict prefix
//! of it followed by the one rejected call ([`failure_suffix`]): fail-fast,
//! no member after the failing one is attempted, and no call is rolled back.

use vstd::prelude::*;

use crate::backend::{Backend, BackendCall, FramebufferRepr, Sampler, Size};
use crate::framebuffer::FramebufferError;
use crate::pixel::{ColorPixel, PixelFormat, RenderablePixel};
use crate::texture::Texture;

verus! {

/// The two backend calls a successful member reification performs: create a
/// texture of the member's format, then attach it at the member's index.
pub open spec fn member_success_trace(
    format: PixelFormat,
    size: Size,
    mipmaps: usize,
    index: int,
) -> Seq<BackendCall> {
    seq![
        (BackendCall::TextureCreation { format, size, mipmaps, ok: true }),
        (BackendCall::ColorAttachment { format, index: index as usize, ok: true }),
    ]
}

/// The calls a successful reification of `formats` starting at attachment
/// index `start` performs: each member's pair in declaration order, indices
/// ascending by one.
pub open spec fn success_trace(
    formats: Seq<PixelFormat>,
    size: Size,
    mipmaps: usize,
    start: int,
) -> Seq<BackendCall>
    decreases formats.len(),
{
    if formats.len() == 0 {
        Seq::empty()
    } else {
        member_success_trace(formats[0], size, mipmaps, start)
            + success_trace(formats.drop_first(), size, mipmaps, start + 1)
    }
}

/// The calls of the one member at which a reification failed: either its
/// texture creation was rejected, or the creation succeeded and the
/// attachment was rejected. The error's kind tells the two apart.
pub open spec fn member_failure_trace(
    format: PixelFormat,
    size: Size,
    mipmaps: usize,
    index: int,
    e: FramebufferError,
) -> Seq<BackendCall> {
    match e {
        FramebufferError::TextureCreation(_) => seq![
            (BackendCall::TextureCreation { format, size, mipmaps, ok: false }),
        ],
        FramebufferError::Attachment(_) => seq![
            (BackendCall::TextureCreation { format, size, mipmaps, ok: true }),
            (BackendCall::ColorAttachment { format, index: index as usize, ok: false }),
        ],
    }
}

/// What a failed reification of `formats` starting at `start` appended to the
/// log: for some member position, every earlier member's successful pair,
/// then that member's rejected calls — and nothing after them.
pub open spec fn failure_suffix(
    suffix: Seq<BackendCall>,
    e: FramebufferError,
    formats: Seq<PixelFormat>,
    size: Size,
    mipmaps: usize,
    start: int,
) -> bool {
    exists|i: int|
        #![trigger formats.take(i)]
        0 <= i < formats.len() && suffix == success_trace(formats.take(i), size, mipmaps, start)
            + member_failure_trace(formats[i], size, mipmaps, start + i, e)
}

/// Reifying no formats performs no backend call.
pub proof fn lemma_success_trace_empty(size: Size, mipmaps: usize, start: int)
    ensures
        success_trace(Seq::<PixelFormat>::empty(), size, mipmaps, start)
            == Seq::<BackendCall>::empty(),
{
}

/// Reifying one format performs exactly its member pair.
pub proof fn lemma_success_trace_singleton(f: PixelFormat, size: Size, mipmaps: usize, start: int)
    ensures
        success_trace(seq![f], size, mipmaps, start)
            == member_success_trace(f, size, mipmaps, start),
{
    assert(seq![f].drop_first() =~= Seq::<PixelFormat>::empty());
    assert(success_trace(seq![f].drop_first(), size, mipmaps, start + 1)
        =~= Seq::<BackendCall>::empty());
    assert(success_trace(seq![f], size, mipmaps, start)
        =~= member_success_trace(f, size, mipmaps, start));
}

/// A successful reification of two format runs in a row is the first run's
/// trace followed by the second's, the second starting where the first ended.
pub proof fn lemma_success_trace_concat(
    a: Seq<PixelFormat>,
    b: Seq<PixelFormat>,
    size: Size,
    mipmaps: usize,
    start: int,
)
    ensures
        success_trace(a + b, size, mipmaps, start) == success_trace(a, size, mipmaps, start)
            + success_trace(b, size, mipmaps, start + a.len()),
    decreases a.len(),
{
    if a.len() == 0 {
        assert(a + b =~= b);
        assert(success_trace(a, size, mipmaps, start) =~= Seq::<BackendCall>::empty());
        assert(success_trace(a, size, mipmaps, start)
            + success_trace(b, size, mipmaps, start + a.len())
            =~= success_trace(b, size, mipmaps, start));
    } else {
        lemma_success_trace_concat(a.drop_first(), b, size, mipmaps, start + 1);
        assert((a + b).drop_first() =~= a.drop_first() + b);
        assert((a + b)[0] == a[0]);
        assert(success_trace(a + b, size, mipmaps, start)
            =~= success_trace(a, size, mipmaps, start)
                + success_trace(b, size, mipmaps, start + a.len()));
    }
}

/// Extending a successful run by one member appends exactly that member's
/// pair, at the next attachment index.
pub proof fn lemma_success_trace_snoc(
    formats: Seq<PixelFormat>,
    j: int,
    size: Size,
    mipmaps: usize,
    start: int,
)
    requires
        0 <= j < formats.len(),
    ensures
        success_trace(formats.take(j + 1), size, mipmaps, start)
            == success_trace(formats.take(j), size, mipmaps, start)
                + member_success_trace(formats[j], size, mipmaps, start + j),
{
    assert(formats.take(j + 1) =~= formats.take(j) + seq![formats[j]]);
    lemma_success_trace_concat(formats.take(j), seq![formats[j]], size, mipmaps, start);
    lemma_success_trace_singleton(formats[j], size, mipmaps, start + j);
    assert(formats.take(j).len() == j);
}

/// The texture-creation calls of a trace, in order: the format each call
/// requested.
pub open spec fn creations_of(trace: Seq<BackendCall>) -> Seq<PixelFormat>
    decreases trace.len(),
{
    if trace.len() == 0 {
        Seq::empty()
    } else {
        let rest = creations_of(trace.drop_first());
        match trace[0] {
            BackendCall::TextureCreation { format, .. } => seq![format] + rest,
            _ => rest,
        }
    }
}

/// The attachment calls of a trace, in order: the format and index of each.
pub open spec fn attachments_of(trace: Seq<BackendCall>) -> Seq<(PixelFormat, usize)>
    decreases trace.len(),
{
    if trace.len() == 0 {
        Seq::empty()
    } else {
        let rest = attachments_of(trace.drop_first());
        match trace[0] {
            BackendCall::ColorAttachment { format, index, .. } => seq![(format, index)] + rest,
            _ => rest,
        }
    }
}

/// Both projections distribute over concatenation of traces.
pub proof fn lemma_events_of_concat(a: Seq<BackendCall>, b: Seq<BackendCall>)
    ensures
        creations_of(a + b) == creations_of(a) + creations_of(b),
        attachments_of(a + b) == attachments_of(a) + attachments_of(b),
    decreases a.len(),
{
    if a.len() == 0 {
        assert(a + b =~= b);
        assert(creations_of(a) + creations_of(b) =~= creations_of(b));
        assert(attachments_of(a) + attachments_of(b) =~= attachments_of(b));
    } else {
        lemma_events_of_concat(a.drop_first(), b);
        assert((a + b).drop_first() =~= a.drop_first() + b);
        assert((a + b)[0] == a[0]);
        assert(creations_of(a + b) =~= creations_of(a) + creations_of(b));
        assert(attachments_of(a + b) =~= attachments_of(a) + attachments_of(b));
    }
}

/// In a successful reification of `formats` starting at `start`, exactly one
/// texture is created per member, in declaration order, and the attachment
/// calls are one per member, in the same order, at the consecutive indices
/// `start, start + 1, …, start + k - 1`.
pub proof fn lemma_success_trace_calls(
    formats: Seq<PixelFormat>,
    size: Size,
    mipmaps: usize,
    start: int,
)
    requires
        0 <= start,
        start + formats.len() <= usize::MAX,
    ensures
        creations_of(success_trace(formats, size, mipmaps, start)) == formats,
        attachments_of(success_trace(formats, size, mipmaps, start)) == Seq::new(
            formats.len(),
            |i: int| (formats[i], (start + i) as usize),
        ),
    decreases formats.len(),
{
    let tr = success_trace(formats, size, mipmaps, start);
    if formats.len() == 0 {
        assert(creations_of(tr) =~= formats);
        assert(attachments_of(tr) =~= Seq::new(
            formats.len(),
            |i: int| (formats[i], (start + i) as usize),
        ));
    } else {
        let member = member_success_trace(formats[0], size, mipmaps, start);
        let rest = success_trace(formats.drop_first(), size, mipmaps, start + 1);
        lemma_success_trace_calls(formats.drop_first(), size, mipmaps, start + 1);
        lemma_events_of_concat(member, rest);
        let tail = member.drop_first();
        assert(tail =~= seq![
            (BackendCall::ColorAttachment { format: formats[0], index: start as usize, ok: true }),
        ]);
        assert(tail.drop_first() =~= Seq::<BackendCall>::empty());
        assert(creations_of(tail.drop_first()) =~= Seq::<PixelFormat>::empty());
        assert(attachments_of(tail.drop_first()) =~= Seq::<(PixelFormat, usize)>::empty());
        assert(creations_of(tail) =~= Seq::<PixelFormat>::empty());
        assert(attachments_of(tail) =~= seq![(formats[0], start as usize)]);
        assert(creations_of(member) =~= seq![formats[0]]);
        assert(attachments_of(member) =~= seq![(formats[0], start as usize)]);
        assert(creations_of(tr) =~= formats);
        assert(attachments_of(tr) =~= Seq::new(
            formats.len(),
            |i: int| (formats[i], (start + i) as usize),
        ));
    }
}

/// Within one successful reification no attachment index repeats and the
/// indices come in ascending order.
pub proof fn lemma_attachment_indices_ascending(
    formats: Seq<PixelFormat>,
    size: Size,
    mipmaps: usize,
    start: int,
)
    requires
        0 <= start,
        start + formats.len() <= usize::MAX,
    ensures
        forall|i: int, j: int|
            0 <= i < j < formats.len()
                ==> #[trigger] attachments_of(success_trace(formats, size, mipmaps, start))[i].1
                < #[trigger] attachments_of(success_trace(formats, size, mipmaps, start))[j].1,
{
    lemma_success_trace_calls(formats, size, mipmaps, start);
    let att = attachments_of(success_trace(formats, size, mipmaps, start));
    assert forall|i: int, j: int| 0 <= i < j < formats.len() implies att[i].1 < att[j].1 by {
        assert(att[i] == (formats[i], (start + i) as usize));
        assert(att[j] == (formats[j], (start + j) as usize));
    };
}

/// Fail-fast: when a reification fails, the members up to and including the
/// failing one are the only ones whose texture creation was ever attempted —
/// no member after the failing position is touched, and the whole result is
/// the one failure value.
pub proof fn lemma_failure_fast_path(
    suffix: Seq<BackendCall>,
    e: FramebufferError,
    formats: Seq<PixelFormat>,
    size: Size,
    mipmaps: usize,
    start: int,
)
    requires
        0 <= start,
        start + formats.len() <= usize::MAX,
        failure_suffix(suffix, e, formats, size, mipmaps, start),
    ensures
        exists|i: int|
            #![trigger formats.take(i)]
            0 <= i < formats.len() && creations_of(suffix) == formats.take(i + 1),
{
    let i = choose|i: int|
        #![trigger formats.take(i)]
        0 <= i < formats.len() && suffix == success_trace(formats.take(i), size, mipmaps, start)
            + member_failure_trace(formats[i], size, mipmaps, start + i, e);
    let done = success_trace(formats.take(i), size, mipmaps, start);
    let failed = member_failure_trace(formats[i], size, mipmaps, start + i, e);
    lemma_success_trace_calls(formats.take(i), size, mipmaps, start);
    lemma_events_of_concat(done, failed);
    assert(failed.drop_first().len() <= 1);
    if failed.len() == 2 {
        assert(failed.drop_first().drop_first() =~= Seq::<BackendCall>::empty());
        assert(creations_of(failed.drop_first().drop_first()) =~= Seq::<PixelFormat>::empty());
        assert(creations_of(failed.drop_first()) =~= Seq::<PixelFormat>::empty());
    } else {
        assert(failed.drop_first() =~= Seq::<BackendCall>::empty());
        assert(creations_of(failed.drop_first()) =~= Seq::<PixelFormat>::empty());
    }
    assert(creations_of(failed) =~= seq![formats[i]]);
    assert(creations_of(suffix) =~= formats.take(i) + seq![formats[i]]);
    assert(formats.take(i) + seq![formats[i]] =~= formats.take(i + 1));
    assert(creations_of(suffix) == formats.take(i + 1));
}

/// The empty shape's reification can never fail and performs no backend
/// call: no failure suffix exists for an empty format list, and its success
/// trace is empty.
pub proof fn lemma_empty_shape_reify(
    suffix: Seq<BackendCall>,
    e: FramebufferError,
    size: Size,
    mipmaps: usize,
    start: int,
)
    ensures
        !failure_suffix(suffix, e, Seq::<PixelFormat>::empty(), size, mipmaps, start),
        success_trace(Seq::<PixelFormat>::empty(), size, mipmaps, start)
            == Seq::<BackendCall>::empty(),
{
}

/// The empty shape lists no formats.
pub proof fn lemma_empty_format_list<B: Backend>()
    ensures
        <() as ColorSlot<B>>::spec_formats().len() == 0,
{
}

/// The single-format shape lists exactly its one member's format.
pub proof fn lemma_single_format_list<B: Backend, P: ColorPixel + RenderablePixel>()
    ensures
        <P as ColorSlot<B>>::spec_formats().len() == 1,
        <P as ColorSlot<B>>::spec_formats()[0] == P::spec_format(),
{
}

/// Format enumeration is idempotent: any two results of `color_formats` for
/// one shape are equal, since each equals the shape's format list.
pub proof fn lemma_color_formats_idempotent<B: Backend, S: ColorSlot<B>>(
    v1: Seq<PixelFormat>,
    v2: Seq<PixelFormat>,
)
    requires
        v1 == S::spec_formats(),
        v2 == S::spec_formats(),
    ensures
        v1 == v2,
{
}

/// A color-slot shape: it enumerates the ordered pixel formats of its
/// members and reifies them into owned textures attached to a framebuffer at
/// consecutive attachment indices.
pub trait ColorSlot<B: Backend>: Sized {
    /// The reified shape: nothing, one texture, or a tuple of textures
    /// mirroring the shape's members.
    type ColorTextures;

    /// The ordered formats of this shape's members, as a mathematical value.
    spec fn spec_formats() -> Seq<PixelFormat>;

    /// The reified textures were created with this shape's formats, at the
    /// given size and mip-map count.
    spec fn textures_wf(size: Size, mipmaps: usize, t: Self::ColorTextures) -> bool;

    /// The ordered list of pixel formats this shape requires. Pure: every
    /// call returns the same list, of one format per member, in declaration
    /// order.
    fn color_formats() -> (v: Vec<PixelFormat>)
        ensures
            v@ == Self::spec_formats(),
    ;

    /// Creates one texture per member of this shape and attaches it to
    /// `framebuffer`, the first member at `attachment_index`, each next
    /// member at the previous member's index plus one, in declaration order.
    ///
    /// On success the backend performed exactly the shape's
    /// [`success_trace`] and every returned texture is well formed. On the
    /// first rejected call the reification stops: the backend performed the
    /// successful members' pairs and the rejected member's calls, nothing
    /// more, and the one error is returned ([`failure_suffix`]). Textures
    /// already created are reclaimed by ownership, not by explicit rollback.
    fn reify_color_textures(
        ctx: &mut B,
        size: Size,
        mipmaps: usize,
        sampler: &Sampler,
        framebuffer: &mut FramebufferRepr,
        attachment_index: usize,
    ) -> (r: Result<Self::ColorTextures, FramebufferError>)
        requires
            attachment_index + Self::spec_formats().len() <= usize::MAX,
        ensures
            *final(framebuffer) == *old(framebuffer),
            match r {
                Ok(t) => final(ctx).log() == old(ctx).log()
                    + success_trace(Self::spec_formats(), size, mipmaps, attachment_index as int)
                    && Self::textures_wf(size, mipmaps, t),
                Err(e) => old(ctx).log().is_prefix_of(final(ctx).log()) && failure_suffix(
                    final(ctx).log().skip(old(ctx).log().len() as int),
                    e,
                    Self::spec_formats(),
                    size,
                    mipmaps,
                    attachment_index as int,
                ),
            },
    ;
}

/// Reifies the member at `position` of a shape whose formats are `formats`:
/// creates one texture of pixel type `P` and attaches it at
/// `attachment_index`. The log grew from `base` by the successful members'
/// pairs so far; afterwards it grew by this member's pair too, or ends in
/// this member's rejected calls.
pub(crate) fn reify_member<B: Backend, P: ColorPixel + RenderablePixel>(
    ctx: &mut B,
    size: Size,
    mipmaps: usize,
    sampler: &Sampler,
    framebuffer: &mut FramebufferRepr,
    attachment_index: usize,
    formats: Ghost<Seq<PixelFormat>>,
    position: Ghost<int>,
    start: Ghost<int>,
    base: Ghost<Seq<BackendCall>>,
) -> (r: Result<Texture<P>, FramebufferError>)
    requires
        0 <= position@ < formats@.len(),
        formats@[position@] == P::spec_format(),
        0 <= start@,
        start@ + formats@.len() <= usize::MAX,
        attachment_index as int == start@ + position@,
        old(ctx).log() == base@ + success_trace(formats@.take(position@), size, mipmaps, start@),
    ensures
        *final(framebuffer) == *old(framebuffer),
        match r {
            Ok(t) => final(ctx).log() == base@
                + success_trace(formats@.take(position@ + 1), size, mipmaps, start@)
                && t.wf(size, mipmaps) && t.raw.sampler == *sampler,
            Err(e) => base@.is_prefix_of(final(ctx).log()) && failure_suffix(
                final(ctx).log().skip(base@.len() as int),
                e,
                formats@,
                size,
                mipmaps,
                start@,
            ),
        },
{
    let ghost pre_trace = success_trace(formats@.take(position@), size, mipmaps, start@);
    let texture = match Texture::<P>::new(ctx, size, mipmaps, *sampler) {
        Ok(t) => t,
        Err(te) => {
            let e = FramebufferError::TextureCreation(te);
            proof {
                let failed = member_failure_trace(
                    formats@[position@],
                    size,
                    mipmaps,
                    start@ + position@,
                    e,
                );
                assert(ctx.log() =~= base@ + (pre_trace + failed));
                assert((base@ + (pre_trace + failed)).skip(base@.len() as int)
                    =~= pre_trace + failed);
                assert(ctx.log().take(base@.len() as int) =~= base@);
                assert(failure_suffix(
                    ctx.log().skip(base@.len() as int),
                    e,
                    formats@,
                    size,
                    mipmaps,
                    start@,
                ));
            }
            return Err(e);
        },
    };
    match ctx.attach_color_texture(framebuffer, &texture.raw, attachment_index) {
        Ok(_) => {
            proof {
                assert((start@ + position@) as usize == attachment_index);
                lemma_success_trace_snoc(formats@, position@, size, mipmaps, start@);
                assert(ctx.log() =~= base@
                    + success_trace(formats@.take(position@ + 1), size, mipmaps, start@));
            }
            Ok(texture)
        },
        Err(ae) => {
            let e = FramebufferError::Attachment(ae);
            proof {
                assert((start@ + position@) as usize == attachment_index);
                let failed = member_failure_trace(
                    formats@[position@],
                    size,
                    mipmaps,
                    start@ + position@,
                    e,
                );
                assert(ctx.log() =~= base@ + (pre_trace + failed));
                assert((base@ + (pre_trace + failed)).skip(base@.len() as int)
                    =~= pre_trace + failed);
                assert(ctx.log().take(base@.len() as int) =~= base@);
                assert(failure_suffix(
                    ctx.log().skip(base@.len() as int),
                    e,
                    formats@,
                    size,
                    mipmaps,
                    start@,
                ));
            }
            Err(e)
        },
    }
}

impl<B: Backend> ColorSlot<B> for () {
    type ColorTextures = ();

    /// No members, no formats.
    open spec fn spec_formats() -> Seq<PixelFormat> {
        Seq::empty()
    }

    open spec fn textures_wf(_size: Size, _mipmaps: usize, _t: ()) -> bool {
        true
    }

    fn color_formats() -> (v: Vec<PixelFormat>) {
        let v: Vec<PixelFormat> = Vec::new();
        proof {
            assert(v@ =~= <() as ColorSlot<B>>::spec_formats());
        }
        v
    }

    /// The empty shape reifies to the unit value: always succeeds, performs
    /// zero backend calls.
    fn reify_color_textures(
        ctx: &mut B,
        size: Size,
        mipmaps: usize,
        _sampler: &Sampler,
        _framebuffer: &mut FramebufferRepr,
        attachment_index: usize,
    ) -> (r: Result<(), FramebufferError>) {
        proof {
            lemma_success_trace_empty(size, mipmaps, attachment_index as int);
            assert(ctx.log() + Seq::<BackendCall>::empty() =~= ctx.log());
        }
        Ok(())
    }
}

impl<B: Backend, P: ColorPixel + RenderablePixel> ColorSlot<B> for P {
    type ColorTextures = Texture<P>;

    /// One member: this pixel type's format.
    open spec fn spec_formats() -> Seq<PixelFormat> {
        seq![P::spec_format()]
    }

    open spec fn textures_wf(size: Size, mipmaps: usize, t: Texture<P>) -> bool {
        t.wf(size, mipmaps)
    }

    fn color_formats() -> (v: Vec<PixelFormat>) {
        let mut v: Vec<PixelFormat> = Vec::new();
        v.push(P::pixel_format());
        proof {
            assert(v@ =~= <P as ColorSlot<B>>::spec_formats());
        }
        v
    }

    fn reify_color_textures(
        ctx: &mut B,
        size: Size,
        mipmaps: usize,
        sampler: &Sampler,
        framebuffer: &mut FramebufferRepr,
        attachment_index: usize,
    ) -> (r: Result<Texture<P>, FramebufferError>) {
        let ghost formats = <P as ColorSlot<B>>::spec_formats();
        let ghost base = ctx.log();
        proof {
            assert(formats.take(0) =~= Seq::<PixelFormat>::empty());
            lemma_success_trace_empty(size, mipmaps, attachment_index as int);
            assert(ctx.log() =~= base + success_trace(
                formats.take(0),
                size,
                mipmaps,
                attachment_index as int,
            ));
        }
        match reify_member::<B, P>(
            ctx,
            size,
            mipmaps,
            sampler,
            framebuffer,
            attachment_index,
            Ghost(formats),
            Ghost(0),
            Ghost(attachment_index as int),
            Ghost(base),
        ) {
            Ok(t) => {
                proof {
                    assert(formats.take(1) =~= formats);
                }
                Ok(t)
            },
            Err(e) => Err(e),
        }
    }
}

} // verus!
