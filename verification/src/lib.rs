//! A verified model of a double-buffered GPU frame pipeline.
//!
//! The library captures the logic of a renderer that keeps several frames in
//! flight: per-slot command storage that may only be reused once the GPU has
//! confirmed completion of the slot's earlier work, a monotone fence that is
//! the sole channel by which the CPU learns GPU progress, a command recorder
//! that emits a fixed, barrier-bracketed drawing sequence per frame, and
//! descriptor heaps whose view handles are computed from a backend-reported
//! stride. Backend observations (the current presentable image, heap base
//! addresses, increment sizes) enter the model as plain values; everything
//! the renderer decides from them is verified.

use vstd::prelude::*;

pub mod weak_ptr;
pub mod dx_descriptor_handles;
pub mod fence;
pub mod descriptors;
pub mod surface;
pub mod constant_buffer;
pub mod recorder;
pub mod dx_renderer;

verus! {

/// Hard cap on the number of presentable images the surface may rotate.
pub const G_MAX_FRAME_COUNT: usize = 3;

/// Fixed width of the render target, in pixels.
pub const G_WIDTH: u32 = 1280;

/// Fixed height of the render target, in pixels.
pub const G_HEIGHT: u32 = 720;

} // verus!
