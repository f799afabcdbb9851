//! Tests of the render pipeline orchestration, the presentation surface
//! lifecycle, the builder, and error behavior.

use pixels::builder::PixelsBuilder;
use pixels::buffer::TextureFormat;
use pixels::pipeline::{RenderOp, ResizeOp};
use pixels::pixels::{FrameAcquisition, Pixels};
use pixels::power::{choose_power_preference, PowerPreference};
use pixels::surface::{PresentMode, PresentationSurface, SurfaceStatus};
use pixels::Error;

/// A stage stub recording which stages ran, in which order.
struct StageRecorder {
    uploads: usize,
    ran: Vec<usize>,
}

impl StageRecorder {
    fn perform(&mut self, plan: &[RenderOp]) {
        for op in plan {
            match op {
                RenderOp::UploadFrame => self.uploads += 1,
                RenderOp::RunStage { index } => self.ran.push(*index),
            }
        }
    }
}

/// Rendering with three stages records exactly three stage render
/// operations, in insertion order, after a single upload.
#[test]
fn render_records_stages_in_insertion_order() {
    let mut p = PixelsBuilder::new(320, 240, 1024, 768)
        .add_render_stage()
        .add_render_stage()
        .build();
    assert_eq!(p.pipeline.stage_count, 3);
    let plan = p.render(FrameAcquisition::Acquired).unwrap();
    assert_eq!(plan.len(), 4);
    assert_eq!(plan[0], RenderOp::UploadFrame);
    let mut recorder = StageRecorder { uploads: 0, ran: Vec::new() };
    recorder.perform(&plan);
    assert_eq!(recorder.uploads, 1);
    assert_eq!(recorder.ran, vec![0, 1, 2]);
}

/// With no caller-supplied stages the plan still uploads once and runs the
/// built-in scaler, stage 0.
#[test]
fn render_runs_scaler_alone() {
    let mut p = Pixels::new(320, 240, 1024, 768);
    let plan = p.render(FrameAcquisition::Acquired).unwrap();
    assert_eq!(plan, vec![RenderOp::UploadFrame, RenderOp::RunStage { index: 0 }]);
}

/// A timed-out frame acquisition fails with `Timeout` and leaves the pixel
/// buffer contents and the surface state unchanged; the next successful
/// render uploads the same bytes.
#[test]
fn render_timeout_changes_nothing() {
    let mut p = Pixels::new(2, 2, 10, 10);
    p.get_frame()[3] = 0x7f;
    let bytes_before = p.get_frame().clone();
    let surface_before = p.surface;
    let transform_before = p.transform;
    let r = p.render(FrameAcquisition::TimedOut);
    assert_eq!(r, Err(Error::Timeout));
    assert_eq!(*p.get_frame(), bytes_before);
    assert_eq!(p.surface, surface_before);
    assert_eq!(p.transform, transform_before);
    let plan = p.render(FrameAcquisition::Acquired).unwrap();
    assert_eq!(plan[0], RenderOp::UploadFrame);
    assert_eq!(*p.get_frame(), bytes_before);
}

/// Resize propagates the same new dimensions to every stage in insertion
/// order, after recreating the presentable resource.
#[test]
fn resize_plan_orders_stages() {
    let mut p = PixelsBuilder::new(320, 240, 1024, 768).add_render_stage().build();
    let plan = p.resize(640, 480);
    assert_eq!(
        plan,
        vec![
            ResizeOp::RecreateSurface,
            ResizeOp::ResizeStage { index: 0 },
            ResizeOp::ResizeStage { index: 1 },
        ]
    );
    assert_eq!((p.surface.width, p.surface.height), (640, 480));
    assert_eq!(p.surface.status, SurfaceStatus::Ready);
    // The transform followed the new surface extent: 640/320 = 2.
    assert_eq!((p.transform.scale_num, p.transform.scale_den), (2, 1));
    // The pixel buffer itself is not resized.
    assert_eq!(p.buffer.width, 320);
    assert_eq!(p.buffer.height, 240);
}

/// Resizing twice with identical dimensions produces a transform and a
/// surface observably equal to what the first resize produced.
#[test]
fn resize_is_idempotent() {
    let mut p = Pixels::new(320, 240, 1024, 768);
    p.resize(555, 333);
    let transform_once = p.transform;
    let surface_once = p.surface;
    let plan_once = p.resize(555, 333);
    assert_eq!(p.transform, transform_once);
    assert_eq!(p.surface, surface_once);
    let plan_twice = p.resize(555, 333);
    assert_eq!(plan_once, plan_twice);
}

/// The surface lifecycle: ready on construction, stale on an external
/// resize notification, ready again after resize, with the policy kept.
#[test]
fn surface_lifecycle() {
    let mut s = PresentationSurface::new(1024, 768, PresentMode::Mailbox);
    assert!(s.is_ready());
    s.mark_stale();
    assert!(!s.is_ready());
    assert_eq!(s.status, SurfaceStatus::Stale);
    assert_eq!((s.width, s.height), (1024, 768));
    s.resize(800, 600);
    assert!(s.is_ready());
    assert_eq!((s.width, s.height), (800, 600));
    assert_eq!(s.present_mode, PresentMode::Mailbox);
}

/// Builder defaults: square pixels, vsync on (`Fifo`), 4-byte sRGB RGBA,
/// and no caller-supplied stages.
#[test]
fn builder_defaults() {
    let b = PixelsBuilder::new(256, 240, 1024, 768);
    assert_eq!((b.aspect_num, b.aspect_den), (1, 1));
    assert_eq!(b.present_mode, PresentMode::Fifo);
    assert_eq!(b.texture_format, TextureFormat::Rgba8UnormSrgb);
    assert_eq!(b.extra_stage_count, 0);
}

/// Builder configuration: vsync off means `Immediate`, an explicit policy
/// wins, and format and aspect ratio are carried into the build.
#[test]
fn builder_configuration() {
    let b = PixelsBuilder::new(256, 240, 1024, 768)
        .enable_vsync(false)
        .pixel_aspect_ratio(8, 7);
    assert_eq!(b.present_mode, PresentMode::Immediate);
    assert_eq!((b.aspect_num, b.aspect_den), (8, 7));
    let b = b.enable_vsync(true);
    assert_eq!(b.present_mode, PresentMode::Fifo);
    let b = b.present_mode(PresentMode::Mailbox).texture_format(TextureFormat::R8Unorm);
    let mut p = b.build();
    assert_eq!(p.surface.present_mode, PresentMode::Mailbox);
    assert_eq!(p.buffer.format, TextureFormat::R8Unorm);
    assert_eq!(p.get_frame().len(), 256 * 240);
}

/// The adapter power preference, by precedence: an explicit request first,
/// then the high-performance switch, then the low-power switch, then none.
#[test]
fn power_preference_precedence() {
    let explicit = Some(PowerPreference::LowPower);
    assert_eq!(choose_power_preference(explicit, true, true), PowerPreference::LowPower);
    assert_eq!(choose_power_preference(None, true, true), PowerPreference::HighPerformance);
    assert_eq!(choose_power_preference(None, true, false), PowerPreference::HighPerformance);
    assert_eq!(choose_power_preference(None, false, true), PowerPreference::LowPower);
    assert_eq!(choose_power_preference(None, false, false), PowerPreference::Unspecified);
}

/// Both error kinds exist and compare by variant.
#[test]
fn error_kinds() {
    assert_eq!(Error::Timeout, Error::Timeout);
    assert_ne!(Error::AdapterNotFound, Error::Timeout);
}
