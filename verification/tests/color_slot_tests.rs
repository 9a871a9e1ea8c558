use color_slot::backend::{
    AttachmentError, Backend, BackendCall, MagFilter, MinFilter, Sampler, Size, TextureError,
    Wrap,
};
use color_slot::framebuffer::{Framebuffer, FramebufferError};
use color_slot::pixel::{Encoding, NormRGBA8UI, Pixel, PixelFormat, R32F, RGB32F};
use color_slot::sim::SimBackend;
use color_slot::slot::ColorSlot;

#[test]
fn empty_shape_lists_no_formats() {
    let v = <() as ColorSlot<SimBackend>>::color_formats();
    assert!(v.is_empty());
}

#[test]
fn single_shape_lists_its_format() {
    let v = <R32F as ColorSlot<SimBackend>>::color_formats();
    assert_eq!(v, vec![R32F::pixel_format()]);
    assert_eq!(
        v[0],
        PixelFormat { channels: 1, bits_per_channel: 32, encoding: Encoding::Floating }
    );
}

#[test]
fn tuple_shapes_list_formats_in_declaration_order() {
    let v2 = <(RGB32F, R32F) as ColorSlot<SimBackend>>::color_formats();
    assert_eq!(v2, vec![RGB32F::pixel_format(), R32F::pixel_format()]);

    let v3 = <(RGB32F, R32F, NormRGBA8UI) as ColorSlot<SimBackend>>::color_formats();
    assert_eq!(
        v3,
        vec![RGB32F::pixel_format(), R32F::pixel_format(), NormRGBA8UI::pixel_format()]
    );
}

#[test]
fn tuple12_format_list_has_twelve_members() {
    type Twelve = (
        R32F,
        RGB32F,
        NormRGBA8UI,
        R32F,
        RGB32F,
        NormRGBA8UI,
        R32F,
        RGB32F,
        NormRGBA8UI,
        R32F,
        RGB32F,
        NormRGBA8UI,
    );
    let v = <Twelve as ColorSlot<SimBackend>>::color_formats();
    assert_eq!(v.len(), 12);
    for chunk in v.chunks(3) {
        assert_eq!(
            chunk,
            &[R32F::pixel_format(), RGB32F::pixel_format(), NormRGBA8UI::pixel_format()][..]
        );
    }
}

#[test]
fn format_enumeration_is_idempotent() {
    let first = <(RGB32F, R32F) as ColorSlot<SimBackend>>::color_formats();
    let second = <(RGB32F, R32F) as ColorSlot<SimBackend>>::color_formats();
    assert_eq!(first, second);
    let empty_first = <() as ColorSlot<SimBackend>>::color_formats();
    let empty_second = <() as ColorSlot<SimBackend>>::color_formats();
    assert_eq!(empty_first, empty_second);
}

#[test]
fn empty_reify_succeeds_with_zero_backend_calls() {
    // Even a backend that would reject every call is never consulted.
    let mut b = SimBackend::with_script(vec![false, false, false]);
    let size = Size { width: 960, height: 540 };
    let mut fb = b.new_framebuffer(size);
    let calls_before = b.calls().clone();
    let r = <() as ColorSlot<SimBackend>>::reify_color_textures(
        &mut b,
        size,
        0,
        &Sampler::default(),
        &mut fb,
        7,
    );
    assert!(r.is_ok());
    assert_eq!(b.calls(), &calls_before);
}

#[test]
fn single_reify_creates_and_attaches_at_given_index() {
    let mut b = SimBackend::new();
    let size = Size { width: 960, height: 540 };
    let mut fb = b.new_framebuffer(size);
    let sampler = Sampler::default();
    let t = <R32F as ColorSlot<SimBackend>>::reify_color_textures(
        &mut b, size, 0, &sampler, &mut fb, 0,
    )
    .unwrap();
    assert_eq!(t.pixel_format(), R32F::pixel_format());
    assert_eq!(
        &b.calls()[1..],
        &[
            BackendCall::TextureCreation {
                format: R32F::pixel_format(),
                size,
                mipmaps: 0,
                ok: true,
            },
            BackendCall::ColorAttachment { format: R32F::pixel_format(), index: 0, ok: true },
        ][..]
    );
}

#[test]
fn tuple3_reify_attaches_at_consecutive_indices() {
    let mut b = SimBackend::new();
    let size = Size { width: 64, height: 64 };
    let mut fb = b.new_framebuffer(size);
    let sampler = Sampler::default();
    let (ta, tb, tc) = <(RGB32F, R32F, NormRGBA8UI) as ColorSlot<SimBackend>>::
        reify_color_textures(&mut b, size, 0, &sampler, &mut fb, 2)
    .unwrap();
    assert_eq!(ta.pixel_format(), RGB32F::pixel_format());
    assert_eq!(tb.pixel_format(), R32F::pixel_format());
    assert_eq!(tc.pixel_format(), NormRGBA8UI::pixel_format());
    assert_eq!(
        &b.calls()[1..],
        &[
            BackendCall::TextureCreation {
                format: RGB32F::pixel_format(),
                size,
                mipmaps: 0,
                ok: true,
            },
            BackendCall::ColorAttachment { format: RGB32F::pixel_format(), index: 2, ok: true },
            BackendCall::TextureCreation {
                format: R32F::pixel_format(),
                size,
                mipmaps: 0,
                ok: true,
            },
            BackendCall::ColorAttachment { format: R32F::pixel_format(), index: 3, ok: true },
            BackendCall::TextureCreation {
                format: NormRGBA8UI::pixel_format(),
                size,
                mipmaps: 0,
                ok: true,
            },
            BackendCall::ColorAttachment {
                format: NormRGBA8UI::pixel_format(),
                index: 4,
                ok: true,
            },
        ][..]
    );
}

#[test]
fn tuple12_reify_attaches_all_twelve_members() {
    type Twelve = (
        R32F,
        R32F,
        R32F,
        R32F,
        R32F,
        R32F,
        R32F,
        R32F,
        R32F,
        R32F,
        R32F,
        R32F,
    );
    let mut b = SimBackend::new();
    let size = Size { width: 8, height: 8 };
    let mut fb = b.new_framebuffer(size);
    let sampler = Sampler::default();
    let r = <Twelve as ColorSlot<SimBackend>>::reify_color_textures(
        &mut b, size, 0, &sampler, &mut fb, 0,
    );
    assert!(r.is_ok());
    let calls = &b.calls()[1..];
    assert_eq!(calls.len(), 24);
    for (i, pair) in calls.chunks(2).enumerate() {
        assert_eq!(
            pair,
            &[
                BackendCall::TextureCreation {
                    format: R32F::pixel_format(),
                    size,
                    mipmaps: 0,
                    ok: true,
                },
                BackendCall::ColorAttachment {
                    format: R32F::pixel_format(),
                    index: i,
                    ok: true,
                },
            ][..]
        );
    }
}

#[test]
fn tuple3_attach_failure_stops_after_failing_member() {
    // Calls: framebuffer creation, create, attach at 2, create, attach at 3.
    // The attachment at index 3 (call position 4) is rejected.
    let mut b = SimBackend::with_script(vec![true, true, true, true, false]);
    let size = Size { width: 64, height: 64 };
    let mut fb = b.new_framebuffer(size);
    let sampler = Sampler::default();
    let r = <(RGB32F, R32F, NormRGBA8UI) as ColorSlot<SimBackend>>::reify_color_textures(
        &mut b, size, 0, &sampler, &mut fb, 2,
    );
    assert!(matches!(
        r,
        Err(FramebufferError::Attachment(AttachmentError::AttachmentRejected))
    ));
    // No call at index 4 follows the rejected attachment: the third member
    // is never attempted.
    assert_eq!(
        &b.calls()[1..],
        &[
            BackendCall::TextureCreation {
                format: RGB32F::pixel_format(),
                size,
                mipmaps: 0,
                ok: true,
            },
            BackendCall::ColorAttachment { format: RGB32F::pixel_format(), index: 2, ok: true },
            BackendCall::TextureCreation {
                format: R32F::pixel_format(),
                size,
                mipmaps: 0,
                ok: true,
            },
            BackendCall::ColorAttachment { format: R32F::pixel_format(), index: 3, ok: false },
        ][..]
    );
}

#[test]
fn creation_failure_fails_fast_with_creation_error() {
    // The very first texture creation (call position 1) is rejected.
    let mut b = SimBackend::with_script(vec![true, false]);
    let size = Size { width: 32, height: 32 };
    let mut fb = b.new_framebuffer(size);
    let sampler = Sampler::default();
    let r = <(RGB32F, R32F) as ColorSlot<SimBackend>>::reify_color_textures(
        &mut b, size, 0, &sampler, &mut fb, 0,
    );
    assert!(matches!(
        r,
        Err(FramebufferError::TextureCreation(TextureError::CreationRejected))
    ));
    assert_eq!(
        &b.calls()[1..],
        &[BackendCall::TextureCreation {
            format: RGB32F::pixel_format(),
            size,
            mipmaps: 0,
            ok: false,
        }][..]
    );
}

#[test]
fn framebuffer_new_reifies_at_index_zero() {
    let mut b = SimBackend::new();
    let size = Size { width: 960, height: 540 };
    let sampler = Sampler::default();
    let fb =
        Framebuffer::<SimBackend, (RGB32F, R32F)>::new(&mut b, size, 0, &sampler).unwrap();
    assert_eq!(fb.size, size);
    let (color, white) = fb.color_slot();
    assert_eq!(color.pixel_format(), RGB32F::pixel_format());
    assert_eq!(white.pixel_format(), R32F::pixel_format());
    assert_eq!(
        b.calls(),
        &vec![
            BackendCall::FramebufferCreation { size },
            BackendCall::TextureCreation {
                format: RGB32F::pixel_format(),
                size,
                mipmaps: 0,
                ok: true,
            },
            BackendCall::ColorAttachment { format: RGB32F::pixel_format(), index: 0, ok: true },
            BackendCall::TextureCreation {
                format: R32F::pixel_format(),
                size,
                mipmaps: 0,
                ok: true,
            },
            BackendCall::ColorAttachment { format: R32F::pixel_format(), index: 1, ok: true },
        ]
    );
}

#[test]
fn framebuffer_construction_is_atomic() {
    // Reject the second member's creation: the whole construction fails.
    let mut b = SimBackend::with_script(vec![true, true, true, false]);
    let size = Size { width: 16, height: 16 };
    let sampler = Sampler::default();
    let r = Framebuffer::<SimBackend, (RGB32F, R32F)>::new(&mut b, size, 0, &sampler);
    assert!(matches!(
        r,
        Err(FramebufferError::TextureCreation(TextureError::CreationRejected))
    ));
    assert_eq!(b.calls().len(), 4);
    assert_eq!(
        b.calls()[3],
        BackendCall::TextureCreation {
            format: R32F::pixel_format(),
            size,
            mipmaps: 0,
            ok: false,
        }
    );
}

#[test]
fn framebuffer_resize_recreates_all_textures() {
    let mut b = SimBackend::new();
    let old_size = Size { width: 960, height: 540 };
    let new_size = Size { width: 1280, height: 720 };
    let sampler = Sampler::default();
    let fb =
        Framebuffer::<SimBackend, (RGB32F, R32F)>::new(&mut b, old_size, 0, &sampler).unwrap();
    let calls_before = b.calls().len();
    let resized = fb.resize(&mut b, new_size, &sampler).unwrap();
    assert_eq!(resized.size, new_size);
    // The format list is unchanged, in the same order.
    assert_eq!(
        Framebuffer::<SimBackend, (RGB32F, R32F)>::color_formats(),
        vec![RGB32F::pixel_format(), R32F::pixel_format()]
    );
    // Two fresh textures were created at the new size and attached at
    // indices 0 and 1; nothing of the old framebuffer was mutated.
    assert_eq!(
        &b.calls()[calls_before..],
        &[
            BackendCall::FramebufferCreation { size: new_size },
            BackendCall::TextureCreation {
                format: RGB32F::pixel_format(),
                size: new_size,
                mipmaps: 0,
                ok: true,
            },
            BackendCall::ColorAttachment { format: RGB32F::pixel_format(), index: 0, ok: true },
            BackendCall::TextureCreation {
                format: R32F::pixel_format(),
                size: new_size,
                mipmaps: 0,
                ok: true,
            },
            BackendCall::ColorAttachment { format: R32F::pixel_format(), index: 1, ok: true },
        ][..]
    );
}

#[test]
fn creation_calls_record_size_mipmaps_and_format() {
    let mut b = SimBackend::new();
    let size = Size { width: 128, height: 256 };
    let mut fb = b.new_framebuffer(size);
    let sampler = Sampler {
        wrap_s: Wrap::Repeat,
        wrap_t: Wrap::MirroredRepeat,
        min_filter: MinFilter::Linear,
        mag_filter: MagFilter::Nearest,
    };
    let t = <NormRGBA8UI as ColorSlot<SimBackend>>::reify_color_textures(
        &mut b, size, 3, &sampler, &mut fb, 5,
    )
    .unwrap();
    assert_eq!(t.raw.size, size);
    assert_eq!(t.raw.mipmaps, 3);
    assert_eq!(t.raw.sampler, sampler);
    assert_eq!(
        &b.calls()[1..],
        &[
            BackendCall::TextureCreation {
                format: NormRGBA8UI::pixel_format(),
                size,
                mipmaps: 3,
                ok: true,
            },
            BackendCall::ColorAttachment {
                format: NormRGBA8UI::pixel_format(),
                index: 5,
                ok: true,
            },
        ][..]
    );
}

#[test]
fn default_sampler_is_clamped_nearest_linear() {
    let s = Sampler::default();
    assert_eq!(s.wrap_s, Wrap::ClampToEdge);
    assert_eq!(s.wrap_t, Wrap::ClampToEdge);
    assert_eq!(s.min_filter, MinFilter::Nearest);
    assert_eq!(s.mag_filter, MagFilter::Linear);
}
