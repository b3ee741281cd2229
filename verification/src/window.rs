//! The window model: one OS window handle's worth of shell state.
//!
//! A window aggregates the identifier of its OS handle, the canvas surface
//! bound to its swap surface, and the per-frame pacing state driving the
//! redraw cascade. The OS handle, GPU context and actual drawing surface
//! live with the windowing layer; this model carries exactly the state the
//! dispatcher's decisions read and write.

use crate::canvas::{spec_fresh_canvas, CanvasSurface, Color};
use crate::capability::CapabilitySet;
use vstd::prelude::*;

verus! {

/// The target frame interval at 60 frames per second, in nanoseconds,
/// rounded to the nearest nanosecond.
pub const FRAME_INTERVAL_NANOS: u64 = 16666667;

/// A window with a canvas: the shell-side state of one OS window.
#[derive(Clone, Copy, PartialEq, Eq, Structural, Debug)]
pub struct Window {
    /// The window's opaque identifier, unique among currently registered
    /// windows for its registered lifetime.
    pub id: u64,
    /// The canvas surface currently bound to the window's swap surface.
    pub canvas: CanvasSurface,
    /// The display scale factor of the window's monitor, in thousandths.
    pub scale_milli: u32,
    /// How many frames this window has painted.
    pub frame: u64,
    /// When this window's previous painted frame started, in nanoseconds
    /// of a monotonic process clock.
    pub previous_frame_start: u64,
}

/// A window as constructed around a fresh OS handle: a fresh canvas of the
/// handle's physical size with the shared capability attributes, the
/// handle's display scale applied as the initial transform, no frames
/// painted, and pacing started at the construction instant.
pub open spec fn spec_new_window(
    id: u64,
    width: u32,
    height: u32,
    scale_milli: u32,
    capabilities: CapabilitySet,
    now: u64,
) -> Window {
    Window {
        id,
        canvas: CanvasSurface {
            scale_milli,
            ..spec_fresh_canvas(width, height, capabilities.sample_count, capabilities.stencil_depth)
        },
        scale_milli,
        frame: 0,
        previous_frame_start: now,
    }
}

/// Whether a repaint is due: the time since the window's previous frame
/// started exceeds the target frame interval.
pub open spec fn spec_redraw_due(window: Window, now: u64) -> bool {
    now - window.previous_frame_start > FRAME_INTERVAL_NANOS
}

/// A window after its swap surface was resized: the canvas is rebuilt from
/// the resized framebuffer at the new size, keeping the original sample
/// count and stencil depth; everything else is untouched.
pub open spec fn spec_resized_window(window: Window, width: u32, height: u32) -> Window {
    Window {
        canvas: spec_fresh_canvas(
            width,
            height,
            window.canvas.sample_count,
            window.canvas.stencil_depth,
        ),
        ..window
    }
}

/// A window right after painting a frame at instant `now`: the pacing
/// clock restarted, the frame counter advanced, and the canvas reset to
/// the window's display scale and cleared to `background`.
pub open spec fn spec_painted_window(window: Window, now: u64, background: Color) -> Window {
    Window {
        frame: (window.frame + 1) as u64,
        previous_frame_start: now,
        canvas: CanvasSurface {
            scale_milli: window.scale_milli,
            cleared: Some(background),
            ..window.canvas
        },
        ..window
    }
}

impl Window {
    /// Constructs the model of a window just created around an OS handle
    /// of the given physical size and display scale: the canvas is built
    /// from the new swap surface and the scale transform is applied to it.
    pub fn new(
        id: u64,
        width: u32,
        height: u32,
        scale_milli: u32,
        capabilities: &CapabilitySet,
        now: u64,
    ) -> (window: Window)
        ensures
            window == spec_new_window(id, width, height, scale_milli, *capabilities, now),
    {
        let mut canvas = CanvasSurface::build(
            width,
            height,
            capabilities.sample_count,
            capabilities.stencil_depth,
        );
        canvas.scale_milli = scale_milli;
        Window { id, canvas, scale_milli, frame: 0, previous_frame_start: now }
    }

    /// Returns the window's unique ID.
    pub fn id(&self) -> (id: u64)
        ensures
            id == self.id,
    {
        self.id
    }

    /// Resizes the window's swap surface and rebuilds the canvas from the
    /// resized framebuffer: the new canvas reports exactly the new size,
    /// keeps the original sample count and stencil depth, and starts over
    /// at the identity transform with its previous content discarded.
    pub fn resize(&mut self, width: u32, height: u32)
        ensures
            *final(self) == spec_resized_window(*old(self), width, height),
            final(self).canvas.width == width,
            final(self).canvas.height == height,
    {
        self.canvas = CanvasSurface::build(
            width,
            height,
            self.canvas.sample_count,
            self.canvas.stencil_depth,
        );
    }

    /// Restores the canvas's transform and clip state to the default,
    /// reapplies the window's display scale transform, and clears the
    /// canvas to `background`. Runs before each logical frame's paint so
    /// transform and clip state cannot accumulate across frames.
    pub fn reset_canvas(&mut self, background: Color)
        ensures
            *final(self) == (Window {
                canvas: CanvasSurface {
                    scale_milli: old(self).scale_milli,
                    cleared: Some(background),
                    ..old(self).canvas
                },
                ..*old(self)
            }),
    {
        self.canvas.scale_milli = self.scale_milli;
        self.canvas.cleared = Some(background);
    }

    /// Whether a repaint is due at instant `now`: more than the target
    /// frame interval has elapsed since the previous frame started.
    pub fn redraw_due(&self, now: u64) -> (due: bool)
        ensures
            due == spec_redraw_due(*self, now),
    {
        now > self.previous_frame_start && now - self.previous_frame_start > FRAME_INTERVAL_NANOS
    }

    /// Starts a new painted frame at instant `now`: restarts the pacing
    /// clock and increments the frame counter.
    pub fn begin_frame(&mut self, now: u64)
        requires
            old(self).frame < u64::MAX,
        ensures
            *final(self) == (Window {
                frame: (old(self).frame + 1) as u64,
                previous_frame_start: now,
                ..*old(self)
            }),
    {
        self.previous_frame_start = now;
        self.frame = self.frame + 1;
    }
}

/// Converts `value` to a number known to be nonzero, suitable for a swap
/// surface dimension: the value itself if it is greater than 0, or 1
/// otherwise.
pub fn u32_to_nonzero(value: u32) -> (result: u32)
    ensures
        result == if value == 0 { 1u32 } else { value },
        result > 0,
{
    if value == 0 {
        1
    } else {
        value
    }
}

} // verus!
