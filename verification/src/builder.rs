//! A builder to help create customized pixel buffers.
//!
//! The builder collects the configuration — logical and physical extents,
//! pixel aspect ratio, presentation policy, texel format, and the number of
//! caller-supplied render stages — and assembles the whole pixel stage
//! atomically at the final build step.

use vstd::prelude::*;
use crate::buffer::{spec_texture_format_size, PixelBuffer, TextureFormat};
use crate::pipeline::RenderPipeline;
use crate::pixels::Pixels;
use crate::surface::{PresentMode, PresentationSurface, SurfaceStatus};
use crate::transform::{spec_compute, ScalingTransform};

verus! {

/// The configuration of a pixel stage under construction.
///
/// The pixel aspect ratio is held as an exact positive rational
/// `aspect_num / aspect_den`. It simulates non-square source pixels and is
/// reserved: it is validated and carried, but not yet applied as a pre-scale
/// by the built-in scaler.
#[derive(Debug, Clone, Copy, PartialEq, Eq, Structural)]
pub struct PixelsBuilder {
    /// Logical pixel buffer width, in pixels.
    pub width: u32,
    /// Logical pixel buffer height, in pixels.
    pub height: u32,
    /// Initial physical surface width, in physical pixels.
    pub surface_width: u32,
    /// Initial physical surface height, in physical pixels.
    pub surface_height: u32,
    /// Numerator of the pixel aspect ratio.
    pub aspect_num: u32,
    /// Denominator of the pixel aspect ratio.
    pub aspect_den: u32,
    /// The presentation policy of the surface.
    pub present_mode: PresentMode,
    /// The texel format of the pixel buffer.
    pub texture_format: TextureFormat,
    /// How many caller-supplied render stages follow the built-in scaler.
    pub extra_stage_count: usize,
}

impl PixelsBuilder {
    /// Positive extents and a positive aspect ratio.
    pub open spec fn wf(self) -> bool {
        &&& self.width >= 1
        &&& self.height >= 1
        &&& self.surface_width >= 1
        &&& self.surface_height >= 1
        &&& self.aspect_num >= 1
        &&& self.aspect_den >= 1
    }

    /// Create a builder with the default configuration: square pixels,
    /// vsync on, and a 4-byte sRGB RGBA texel format.
    pub fn new(width: u32, height: u32, surface_width: u32, surface_height: u32) -> (builder:
        PixelsBuilder)
        requires
            width >= 1,
            height >= 1,
            surface_width >= 1,
            surface_height >= 1,
        ensures
            builder == (PixelsBuilder {
                width,
                height,
                surface_width,
                surface_height,
                aspect_num: 1u32,
                aspect_den: 1u32,
                present_mode: PresentMode::Fifo,
                texture_format: TextureFormat::Rgba8UnormSrgb,
                extra_stage_count: 0usize,
            }),
            builder.wf(),
    {
        PixelsBuilder {
            width,
            height,
            surface_width,
            surface_height,
            aspect_num: 1u32,
            aspect_den: 1u32,
            present_mode: PresentMode::Fifo,
            texture_format: TextureFormat::Rgba8UnormSrgb,
            extra_stage_count: 0usize,
        }
    }

    /// Set the pixel aspect ratio to simulate non-square pixels, as the
    /// exact positive rational `num / den`.
    pub fn pixel_aspect_ratio(self, num: u32, den: u32) -> (builder: PixelsBuilder)
        requires
            num >= 1,
            den >= 1,
        ensures
            builder == (PixelsBuilder { aspect_num: num, aspect_den: den, ..self }),
    {
        PixelsBuilder { aspect_num: num, aspect_den: den, ..self }
    }

    /// Enable or disable vsync: the presentation policy becomes `Fifo` when
    /// enabled and `Immediate` when disabled.
    pub fn enable_vsync(self, enable_vsync: bool) -> (builder: PixelsBuilder)
        ensures
            builder == (PixelsBuilder {
                present_mode: if enable_vsync {
                    PresentMode::Fifo
                } else {
                    PresentMode::Immediate
                },
                ..self
            }),
    {
        PixelsBuilder {
            present_mode: if enable_vsync {
                PresentMode::Fifo
            } else {
                PresentMode::Immediate
            },
            ..self
        }
    }

    /// Set the presentation policy to any value, beyond what `enable_vsync`
    /// covers.
    pub fn present_mode(self, present_mode: PresentMode) -> (builder: PixelsBuilder)
        ensures
            builder == (PixelsBuilder { present_mode, ..self }),
    {
        PixelsBuilder { present_mode, ..self }
    }

    /// Set the texel format of the pixel buffer.
    pub fn texture_format(self, texture_format: TextureFormat) -> (builder: PixelsBuilder)
        ensures
            builder == (PixelsBuilder { texture_format, ..self }),
    {
        PixelsBuilder { texture_format, ..self }
    }

    /// Register one more caller-supplied render stage, appended after the
    /// built-in scaler; stages run in the order they were added.
    pub fn add_render_stage(self) -> (builder: PixelsBuilder)
        requires
            self.extra_stage_count + 1 < usize::MAX,
        ensures
            builder == (PixelsBuilder {
                extra_stage_count: (self.extra_stage_count + 1) as usize,
                ..self
            }),
    {
        PixelsBuilder { extra_stage_count: self.extra_stage_count + 1, ..self }
    }

    /// Assemble the pixel stage: a zero-filled pixel buffer, the scaling
    /// transform for the configured extents, the render pipeline with the
    /// built-in scaler at stage 0, and a ready presentation surface.
    pub fn build(self) -> (pixels: Pixels)
        requires
            self.wf(),
            self.width * self.height * spec_texture_format_size(self.texture_format)
                <= u32::MAX,
            self.extra_stage_count < usize::MAX,
        ensures
            pixels.buffer.width == self.width,
            pixels.buffer.height == self.height,
            pixels.buffer.format == self.texture_format,
            pixels.buffer.bytes@ == Seq::<u8>::new(
                pixels.buffer.spec_byte_len() as nat,
                |i: int| 0u8,
            ),
            pixels.transform == spec_compute(
                self.width,
                self.height,
                self.surface_width,
                self.surface_height,
            ),
            pixels.pipeline == (RenderPipeline {
                stage_count: (self.extra_stage_count + 1) as usize,
            }),
            pixels.surface == (PresentationSurface {
                width: self.surface_width,
                height: self.surface_height,
                present_mode: self.present_mode,
                status: SurfaceStatus::Ready,
            }),
            pixels.wf(),
    {
        let buffer = PixelBuffer::new(self.width, self.height, self.texture_format);
        let transform = ScalingTransform::compute(
            self.width,
            self.height,
            self.surface_width,
            self.surface_height,
        );
        let pipeline = RenderPipeline::new(self.extra_stage_count);
        let surface = PresentationSurface::new(
            self.surface_width,
            self.surface_height,
            self.present_mode,
        );
        Pixels { buffer, transform, pipeline, surface }
    }
}

} // verus!
