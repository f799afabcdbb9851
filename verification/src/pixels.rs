//! The top-level pixel stage: pixel buffer, scaling transform, render
//! pipeline and presentation surface, composed behind one façade.
//!
//! The GPU itself is a service the embedder provides: each render and each
//! resize yields the exact plan of operations to perform against the device,
//! and the acquisition of a presentable frame is an event the embedder hands
//! in. Everything the plans and the state transitions promise is verified
//! here, for every outcome of the outside work.

use vstd::prelude::*;
use crate::buffer::PixelBuffer;
use crate::coord;
use crate::coord::{spec_clamp, spec_window_pos_in_bounds, spec_window_to_pixel_x, spec_window_to_pixel_y};
use crate::pipeline::{RenderOp, RenderPipeline, ResizeOp};
use crate::surface::{PresentationSurface, SurfaceStatus};
use crate::transform::{spec_compute, ScalingTransform};
use crate::Error;

verus! {

/// The outcome of the embedder's attempt to acquire a presentable frame
/// from the surface, bounded by the device's timeout.
#[derive(Debug, Clone, Copy, PartialEq, Eq, Structural)]
pub enum FrameAcquisition {
    /// A presentable frame is available for this render call.
    Acquired,
    /// No presentable frame arrived within the device's bound.
    TimedOut,
}

/// A 2D pixel buffer with an explicit image resolution, scaled onto a
/// physical surface by an ordered pipeline of render stages.
#[derive(Debug)]
pub struct Pixels {
    /// The logical image the caller draws into.
    pub buffer: PixelBuffer,
    /// The transform placing the logical image onto the surface.
    pub transform: ScalingTransform,
    /// The ordered render stages, the built-in scaler first.
    pub pipeline: RenderPipeline,
    /// The physical surface and its presentable resource state.
    pub surface: PresentationSurface,
}

/// The state `resize` leaves behind: the same buffer and pipeline, the
/// transform recomputed for the new surface extent, and a ready surface with
/// the new dimensions and the same presentation policy.
pub open spec fn spec_after_resize(pixels: Pixels, width: u32, height: u32) -> Pixels {
    Pixels {
        buffer: pixels.buffer,
        transform: spec_compute(pixels.buffer.width, pixels.buffer.height, width, height),
        pipeline: pixels.pipeline,
        surface: PresentationSurface {
            width,
            height,
            present_mode: pixels.surface.present_mode,
            status: SurfaceStatus::Ready,
        },
    }
}

/// Resizing is idempotent: a second resize to the same dimensions leaves the
/// transform, the surface and everything else observably equal to what the
/// first produced.
pub proof fn lemma_resize_idempotent(pixels: Pixels, width: u32, height: u32)
    ensures
        spec_after_resize(spec_after_resize(pixels, width, height), width, height)
            == spec_after_resize(pixels, width, height),
{
}

impl Pixels {
    /// Every component is well formed and the transform is the one computed
    /// from the buffer's extent and the surface's current extent.
    pub open spec fn wf(self) -> bool {
        &&& self.buffer.wf()
        &&& self.transform.wf()
        &&& self.pipeline.wf()
        &&& self.surface.wf()
        &&& self.transform.texture_width == self.buffer.width
        &&& self.transform.texture_height == self.buffer.height
        &&& self.transform.surface_width == self.surface.width
        &&& self.transform.surface_height == self.surface.height
    }

    /// Create a pixel stage with default options: square pixels, vsync on,
    /// and the 4-byte sRGB RGBA texel format, for a logical buffer of
    /// `width` by `height` pixels presented on a surface of
    /// `surface_width` by `surface_height` physical pixels.
    pub fn new(width: u32, height: u32, surface_width: u32, surface_height: u32) -> (pixels:
        Pixels)
        requires
            width >= 1,
            height >= 1,
            surface_width >= 1,
            surface_height >= 1,
            width * height * 4 <= u32::MAX,
        ensures
            pixels.buffer.width == width,
            pixels.buffer.height == height,
            pixels.buffer.format == crate::buffer::TextureFormat::Rgba8UnormSrgb,
            pixels.buffer.bytes@ == Seq::<u8>::new(
                pixels.buffer.spec_byte_len() as nat,
                |i: int| 0u8,
            ),
            pixels.transform == spec_compute(width, height, surface_width, surface_height),
            pixels.pipeline == (RenderPipeline { stage_count: 1usize }),
            pixels.surface == (PresentationSurface {
                width: surface_width,
                height: surface_height,
                present_mode: crate::surface::PresentMode::Fifo,
                status: SurfaceStatus::Ready,
            }),
            pixels.wf(),
    {
        crate::builder::PixelsBuilder::new(width, height, surface_width, surface_height).build()
    }

    /// Resize the surface upon which the pixel buffer is rendered.
    ///
    /// This does not resize the pixel buffer: the buffer is fit onto the new
    /// surface by the recomputed scaling transform. The returned plan tells
    /// the embedder what to perform against the device, in order: recreate
    /// the presentable resource with the new dimensions first — the
    /// transform here is already recomputed by then, since stages may query
    /// it — and then propagate the same new dimensions to every stage, in
    /// insertion order.
    pub fn resize(&mut self, width: u32, height: u32) -> (plan: Vec<ResizeOp>)
        requires
            old(self).wf(),
            width >= 1,
            height >= 1,
        ensures
            *final(self) == spec_after_resize(*old(self), width, height),
            final(self).wf(),
            plan@.len() == 1 + old(self).pipeline.stage_count,
            plan@[0] == ResizeOp::RecreateSurface,
            forall|i: int|
                0 <= i < old(self).pipeline.stage_count ==> #[trigger] plan@[i + 1]
                    == (ResizeOp::ResizeStage { index: i as usize }),
    {
        self.transform = ScalingTransform::compute(
            self.buffer.width,
            self.buffer.height,
            width,
            height,
        );
        self.surface.resize(width, height);
        self.pipeline.resize_plan()
    }

    /// Draw the pixel buffer to the surface: the frame plan uploads the
    /// buffer bytes once, then records every stage's render call in
    /// insertion order.
    ///
    /// The embedder first tries to acquire a presentable frame and hands the
    /// outcome in. On a timeout the call fails with `Error::Timeout` and no
    /// stage runs for this frame; either way nothing observable changes —
    /// buffer contents and surface state are exactly what they were, and the
    /// caller may simply retry on a later tick.
    pub fn render(&mut self, acquisition: FrameAcquisition) -> (r: Result<Vec<RenderOp>, Error>)
        requires
            old(self).wf(),
            old(self).surface.status == SurfaceStatus::Ready,
        ensures
            *final(self) == *old(self),
            acquisition == FrameAcquisition::TimedOut ==> r == Err::<Vec<RenderOp>, Error>(
                Error::Timeout,
            ),
            acquisition == FrameAcquisition::Acquired ==> (r matches Ok(plan) && plan@.len() == 1
                + old(self).pipeline.stage_count && plan@[0] == RenderOp::UploadFrame && (forall|
                i: int,
            |
                0 <= i < old(self).pipeline.stage_count ==> #[trigger] plan@[i + 1]
                    == (RenderOp::RunStage { index: i as usize }))),
    {
        match acquisition {
            FrameAcquisition::TimedOut => Err(Error::Timeout),
            FrameAcquisition::Acquired => Ok(self.pipeline.render_plan()),
        }
    }

    /// Get a mutable reference to the pixel buffer bytes. The bytes are not
    /// cleared: they retain the previous frame's contents until overwritten.
    pub fn get_frame(&mut self) -> (frame: &mut Vec<u8>)
        ensures
            *frame == old(self).buffer.bytes,
            final(self).buffer.width == old(self).buffer.width,
            final(self).buffer.height == old(self).buffer.height,
            final(self).buffer.format == old(self).buffer.format,
            final(self).buffer.bytes == *final(frame),
            final(self).transform == old(self).transform,
            final(self).pipeline == old(self).pipeline,
            final(self).surface == old(self).surface,
    {
        &mut self.buffer.bytes
    }

    /// Whether the mapped pixel coordinates of this physical position fit
    /// the signed machine range that `window_pos_to_pixel` reports errors
    /// in. True for every position a window can actually deliver; only
    /// astronomically distant positions under extreme downscaling overflow.
    pub fn window_pos_fits(&self, physical_position: (isize, isize)) -> (fits: bool)
        requires
            self.wf(),
        ensures
            fits == {
                &&& isize::MIN <= spec_window_to_pixel_x(self.transform, physical_position.0 as int)
                    <= isize::MAX
                &&& isize::MIN <= spec_window_to_pixel_y(self.transform, physical_position.1 as int)
                    <= isize::MAX
            },
    {
        coord::window_pos_fits(&self.transform, physical_position)
    }

    /// Calculate the pixel location from a physical location on the window,
    /// dealing with resizing, scaling and margins: the exact inverse of the
    /// scaling transform, floored to pixel indices. A position outside the
    /// drawing area comes back as `Err` with the out-of-range signed
    /// coordinates, for the caller to clamp or reject.
    pub fn window_pos_to_pixel(&self, physical_position: (isize, isize)) -> (r: Result<
        (usize, usize),
        (isize, isize),
    >)
        requires
            self.wf(),
            isize::MIN <= spec_window_to_pixel_x(self.transform, physical_position.0 as int)
                <= isize::MAX,
            isize::MIN <= spec_window_to_pixel_y(self.transform, physical_position.1 as int)
                <= isize::MAX,
        ensures
            r == (if spec_window_pos_in_bounds(
                self.transform,
                physical_position.0 as int,
                physical_position.1 as int,
            ) {
                Ok::<(usize, usize), (isize, isize)>(
                    (
                        spec_window_to_pixel_x(self.transform, physical_position.0 as int) as usize,
                        spec_window_to_pixel_y(self.transform, physical_position.1 as int) as usize,
                    ),
                )
            } else {
                Err::<(usize, usize), (isize, isize)>(
                    (
                        spec_window_to_pixel_x(self.transform, physical_position.0 as int) as isize,
                        spec_window_to_pixel_y(self.transform, physical_position.1 as int) as isize,
                    ),
                )
            }),
    {
        coord::window_to_pixel(&self.transform, physical_position)
    }

    /// Clamp a pixel position to the pixel buffer size: each coordinate is
    /// clamped into `[0, extent - 1]`. This is the recommended recovery for
    /// the `Err` value of `window_pos_to_pixel`, and it leaves an already
    /// in-range position untouched.
    pub fn clamp_pixel_pos(&self, pos: (isize, isize)) -> (clamped: (usize, usize))
        requires
            self.wf(),
        ensures
            clamped.0 == spec_clamp(pos.0 as int, self.buffer.width as int),
            clamped.1 == spec_clamp(pos.1 as int, self.buffer.height as int),
    {
        (
            coord::clamp_to_extent(pos.0, self.buffer.width),
            coord::clamp_to_extent(pos.1, self.buffer.height),
        )
    }
}


} // verus!
