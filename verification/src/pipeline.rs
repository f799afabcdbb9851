//! The ordered multi-stage render pipeline.
//!
//! The pipeline owns an ordered sequence of render stages; the built-in
//! scaler is always stage 0 and caller-supplied stages follow in the order
//! they were added. Execution order equals insertion order, with no
//! reordering — a deliberate constraint. Each frame and each resize is
//! described by a plan: the exact sequence of operations the embedder must
//! perform against the GPU, in the order recorded.

use vstd::prelude::*;

verus! {

/// One operation of a frame plan, to be performed in recorded order.
#[derive(Debug, Clone, Copy, PartialEq, Eq, Structural)]
pub enum RenderOp {
    /// Upload the pixel buffer bytes to the shared input texture.
    UploadFrame,
    /// Record the render call of the stage at this position of the sequence.
    RunStage { index: usize },
}

/// One operation of a resize plan, to be performed in recorded order.
#[derive(Debug, Clone, Copy, PartialEq, Eq, Structural)]
pub enum ResizeOp {
    /// Recreate the presentable surface resource with the new dimensions.
    RecreateSurface,
    /// Propagate the new dimensions to the stage at this position.
    ResizeStage { index: usize },
}

/// An ordered sequence of render stages, tracked by position: stage 0 is the
/// built-in scaler, stages 1.. are the caller-supplied passes in insertion
/// order.
#[derive(Debug, Clone, Copy, PartialEq, Eq, Structural)]
pub struct RenderPipeline {
    /// How many stages the pipeline holds, the built-in scaler included.
    pub stage_count: usize,
}

impl RenderPipeline {
    /// At least the built-in scaler is present.
    pub open spec fn wf(self) -> bool {
        self.stage_count >= 1
    }

    /// Create a pipeline holding the built-in scaler followed by
    /// `extra_stages` caller-supplied stages.
    pub fn new(extra_stages: usize) -> (pipeline: RenderPipeline)
        requires
            extra_stages < usize::MAX,
        ensures
            pipeline.stage_count == extra_stages + 1,
            pipeline.wf(),
    {
        RenderPipeline { stage_count: extra_stages + 1 }
    }

    /// The plan of one frame: upload the pixel buffer once, then run every
    /// stage, in insertion order — exactly one render operation per stage,
    /// the scaler first.
    pub fn render_plan(&self) -> (plan: Vec<RenderOp>)
        requires
            self.wf(),
        ensures
            plan@.len() == 1 + self.stage_count,
            plan@[0] == RenderOp::UploadFrame,
            forall|i: int|
                0 <= i < self.stage_count ==> #[trigger] plan@[i + 1] == (RenderOp::RunStage {
                    index: i as usize,
                }),
    {
        let mut plan: Vec<RenderOp> = Vec::new();
        plan.push(RenderOp::UploadFrame);
        let mut i: usize = 0;
        while i < self.stage_count
            invariant
                i <= self.stage_count,
                plan@.len() == 1 + i,
                plan@[0] == RenderOp::UploadFrame,
                forall|j: int|
                    0 <= j < i ==> #[trigger] plan@[j + 1] == (RenderOp::RunStage {
                        index: j as usize,
                    }),
            decreases self.stage_count - i,
        {
            plan.push(RenderOp::RunStage { index: i });
            i = i + 1;
        }
        plan
    }

    /// The plan of one resize: recreate the presentable resource first, then
    /// pass the same new dimensions to every stage, in insertion order.
    pub fn resize_plan(&self) -> (plan: Vec<ResizeOp>)
        requires
            self.wf(),
        ensures
            plan@.len() == 1 + self.stage_count,
            plan@[0] == ResizeOp::RecreateSurface,
            forall|i: int|
                0 <= i < self.stage_count ==> #[trigger] plan@[i + 1] == (ResizeOp::ResizeStage {
                    index: i as usize,
                }),
    {
        let mut plan: Vec<ResizeOp> = Vec::new();
        plan.push(ResizeOp::RecreateSurface);
        let mut i: usize = 0;
        while i < self.stage_count
            invariant
                i <= self.stage_count,
                plan@.len() == 1 + i,
                plan@[0] == ResizeOp::RecreateSurface,
                forall|j: int|
                    0 <= j < i ==> #[trigger] plan@[j + 1] == (ResizeOp::ResizeStage {
                        index: j as usize,
                    }),
            decreases self.stage_count - i,
        {
            plan.push(ResizeOp::ResizeStage { index: i });
            i = i + 1;
        }
        plan
    }
}

} // verus!
