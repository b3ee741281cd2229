//! The canvas surface model: the 2D drawing target wrapping the swap
//! surface's framebuffer.
//!
//! A canvas surface has no stable identity across resizes: resizing the
//! backing swap surface discards the canvas and rebuilds it, so previously
//! drawn content and any accumulated transform state are lost by design.

use vstd::prelude::*;

verus! {

/// The canvas scale transform that leaves logical coordinates untouched,
/// in thousandths (a display scale factor of 1.0).
pub const IDENTITY_SCALE_MILLI: u32 = 1000;

/// An opaque 8-bit-per-channel color, used for clearing the canvas.
#[derive(Clone, Copy, PartialEq, Eq, Structural, Debug)]
pub struct Color {
    /// Red channel.
    pub red: u8,
    /// Green channel.
    pub green: u8,
    /// Blue channel.
    pub blue: u8,
    /// Alpha channel.
    pub alpha: u8,
}

/// The opaque white every frame is cleared to before painting.
pub open spec fn spec_white() -> Color {
    Color { red: 255, green: 255, blue: 255, alpha: 255 }
}

impl Color {
    /// The opaque white every frame is cleared to before painting.
    pub fn white() -> (c: Color)
        ensures
            c == spec_white(),
    {
        Color { red: 255, green: 255, blue: 255, alpha: 255 }
    }
}

/// A GPU-backed 2D drawing target bound to the current framebuffer of one
/// window's swap surface. `sample_count` and `stencil_depth` are copied from
/// the shared [`CapabilitySet`] at creation and survive every rebuild.
#[derive(Clone, Copy, PartialEq, Eq, Structural, Debug)]
pub struct CanvasSurface {
    /// Width of the drawing target, in physical pixels.
    pub width: u32,
    /// Height of the drawing target, in physical pixels.
    pub height: u32,
    /// Multisample-antialiasing sample count, fixed at creation.
    pub sample_count: u32,
    /// Stencil buffer depth in bits, fixed at creation.
    pub stencil_depth: u32,
    /// The scale transform currently applied to the canvas, in thousandths.
    /// A freshly built canvas starts at the identity transform; resetting
    /// the canvas reapplies the owning window's display scale.
    pub scale_milli: u32,
    /// The color of the most recent clear, if the canvas has been cleared
    /// since it was last built.
    pub cleared: Option<Color>,
}

/// A canvas surface as it comes out of a (re)build from a swap surface's
/// framebuffer: the given size and surface attributes, an identity
/// transform, and nothing drawn yet.
pub open spec fn spec_fresh_canvas(
    width: u32,
    height: u32,
    sample_count: u32,
    stencil_depth: u32,
) -> CanvasSurface {
    CanvasSurface {
        width,
        height,
        sample_count,
        stencil_depth,
        scale_milli: IDENTITY_SCALE_MILLI,
        cleared: None,
    }
}

impl CanvasSurface {
    /// Builds a canvas surface from a freshly created or resized swap
    /// surface framebuffer of the given size, with the given sample count
    /// and stencil depth.
    pub fn build(width: u32, height: u32, sample_count: u32, stencil_depth: u32) -> (canvas:
        CanvasSurface)
        ensures
            canvas == spec_fresh_canvas(width, height, sample_count, stencil_depth),
    {
        CanvasSurface {
            width,
            height,
            sample_count,
            stencil_depth,
            scale_milli: IDENTITY_SCALE_MILLI,
            cleared: None,
        }
    }
}

} // verus!
