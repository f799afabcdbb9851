//! The presentation surface: current physical dimensions, presentation
//! policy, and the lifecycle of the presentable resource.
//!
//! The surface starts `Ready` once built with its initial dimensions. An
//! external resize notification makes it `Stale`; a resize call recreates the
//! presentable resource with the new dimensions and returns it to `Ready`.
//! Rendering is only valid while `Ready` — rendering a stale surface is a
//! programming error, which the render precondition rules out.

use vstd::prelude::*;

verus! {

/// The presentation policy: when a rendered frame becomes visible.
#[derive(Debug, Clone, Copy, PartialEq, Eq, Structural)]
pub enum PresentMode {
    /// Wait for the display's vertical refresh (vsync on).
    Fifo,
    /// Present immediately (vsync off).
    Immediate,
    /// Present the most recently completed frame at the next refresh.
    Mailbox,
}

/// Whether the presentable resource still matches the surface's dimensions.
#[derive(Debug, Clone, Copy, PartialEq, Eq, Structural)]
pub enum SurfaceStatus {
    /// The presentable resource matches the current dimensions.
    Ready,
    /// The physical dimensions changed; the resource must be recreated
    /// before the next render.
    Stale,
}

/// A physical window surface with its current dimensions and presentation
/// policy.
#[derive(Debug, Clone, Copy, PartialEq, Eq, Structural)]
pub struct PresentationSurface {
    /// Physical width of the surface, in physical pixels.
    pub width: u32,
    /// Physical height of the surface, in physical pixels.
    pub height: u32,
    /// The presentation policy of the presentable resource.
    pub present_mode: PresentMode,
    /// Lifecycle state of the presentable resource.
    pub status: SurfaceStatus,
}

impl PresentationSurface {
    /// Positive physical dimensions.
    pub open spec fn wf(self) -> bool {
        self.width >= 1 && self.height >= 1
    }

    /// Build the surface with its initial physical dimensions and policy;
    /// the presentable resource is created, so the surface starts `Ready`.
    pub fn new(width: u32, height: u32, present_mode: PresentMode) -> (surface:
        PresentationSurface)
        requires
            width >= 1,
            height >= 1,
        ensures
            surface == (PresentationSurface {
                width,
                height,
                present_mode,
                status: SurfaceStatus::Ready,
            }),
            surface.wf(),
    {
        PresentationSurface { width, height, present_mode, status: SurfaceStatus::Ready }
    }

    /// Note an external resize notification: the presentable resource no
    /// longer matches the physical dimensions.
    pub fn mark_stale(&mut self)
        ensures
            *final(self) == (PresentationSurface { status: SurfaceStatus::Stale, ..*old(self) }),
    {
        self.status = SurfaceStatus::Stale;
    }

    /// Adopt new physical dimensions and recreate the presentable resource:
    /// the surface is `Ready` again, whatever state it was in.
    pub fn resize(&mut self, width: u32, height: u32)
        requires
            width >= 1,
            height >= 1,
        ensures
            *final(self) == (PresentationSurface {
                width,
                height,
                present_mode: old(self).present_mode,
                status: SurfaceStatus::Ready,
            }),
            final(self).wf(),
    {
        self.width = width;
        self.height = height;
        self.status = SurfaceStatus::Ready;
    }

    /// Whether rendering is currently valid.
    pub fn is_ready(&self) -> (ready: bool)
        ensures
            ready == (self.status == SurfaceStatus::Ready),
    {
        match self.status {
            SurfaceStatus::Ready => true,
            SurfaceStatus::Stale => false,
        }
    }
}

} // verus!
