//! A backend-agnostic color-slot system for off-screen framebuffers.
//!
//! A framebuffer's color attachments are described by a compile-time shape: no
//! attachment at all, a single pixel format, or an ordered tuple of up to
//! twelve formats. The shape knows the ordered list of pixel formats it
//! requires and how to create and attach the corresponding textures to a
//! native framebuffer representation at consecutive attachment indices.
//!
//! The GPU backend is pluggable: it is any type implementing
//! [`backend::Backend`], whose contract records every texture-creation and
//! attachment call it performs. The contracts of [`slot::ColorSlot`] pin down,
//! for every shape, exactly which backend calls a reification makes, in which
//! order, and at which attachment indices — including the fail-fast behaviour
//! when the backend rejects a creation or an attachment partway through.

pub mod backend;
pub mod framebuffer;
pub mod pixel;
pub mod sim;
pub mod slot;
pub mod texture;
pub mod tuple_slots;
