//! A GPU-powered pixel buffer: a fixed-resolution 2D image that is scaled onto
//! a window surface of independent physical size.
//!
//! The crate verifies the scaling-and-presentation core: the aspect-preserving
//! integer scaling transform and its exact inverse, the mapping from window
//! coordinates back to pixel coordinates, the ordered multi-stage render
//! pipeline, and the presentation surface lifecycle. GPU device acquisition and
//! command submission are services an embedder performs by executing the plans
//! these types produce.

use vstd::prelude::*;

pub mod buffer;
pub mod builder;
pub mod coord;
pub mod pipeline;
pub mod pixels;
pub mod power;
pub mod surface;
pub mod transform;

pub use crate::buffer::{get_texture_format_size, PixelBuffer, TextureFormat};
pub use crate::builder::PixelsBuilder;
pub use crate::pipeline::{RenderOp, RenderPipeline, ResizeOp};
pub use crate::pixels::{FrameAcquisition, Pixels};
pub use crate::power::{choose_power_preference, PowerPreference};
pub use crate::surface::{PresentMode, PresentationSurface, SurfaceStatus};
pub use crate::transform::{ScalingTransform, TransformMatrix};

verus! {

/// All the ways in which the pixel-buffer API can fail.
#[derive(Debug, Clone, Copy, PartialEq, Eq, Structural)]
pub enum Error {
    /// No suitable GPU adapter was found during construction.
    AdapterNotFound,
    /// The presentable frame was not acquired before the device's timeout.
    Timeout,
}

} // verus!
