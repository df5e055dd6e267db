//! The fixed render-pass and pipeline object graph. Both objects bake the
//! swapchain's format and extent in at creation time — no dynamic state
//! covers them — so a swapchain rebuild always forces a rebuild of the
//! pipeline and of the framebuffers, and `RenderTargets` keeps the three
//! consistent as one unit.

use vstd::prelude::*;
use crate::swapchain::{Extent2D, Swapchain, SwapchainPlan};

verus! {

/// Raw identifier: attachment contents are cleared when the pass begins.
pub const LOAD_OP_CLEAR: u32 = 1;

/// Raw identifier: attachment contents are stored when the pass ends.
pub const STORE_OP_STORE: u32 = 0;

/// Raw identifier of the undefined image layout.
pub const LAYOUT_UNDEFINED: u32 = 0;

/// Raw identifier of the color-attachment-optimal image layout.
pub const LAYOUT_COLOR_ATTACHMENT_OPTIMAL: u32 = 2;

/// Raw identifier of the present-ready image layout.
pub const LAYOUT_PRESENT_SRC: u32 = 1000001002;

/// Raw bit of the color-attachment-output pipeline stage.
pub const STAGE_COLOR_ATTACHMENT_OUTPUT: u32 = 0x400;

/// Raw bit of color-attachment-write access.
pub const ACCESS_COLOR_ATTACHMENT_WRITE: u32 = 0x100;

/// The render pass: one single-sampled color attachment that is cleared on
/// load, stored on end, and transitioned from the undefined layout to the
/// present-ready layout, with one subpass, and one dependency ordering the
/// implicit external producer before this subpass on the
/// color-attachment-output stage.
#[derive(Clone, Copy, PartialEq, Eq, Structural, Debug)]
pub struct RenderPassDesc {
    pub color_format: u32,
    pub sample_count: u32,
    pub load_op: u32,
    pub store_op: u32,
    pub initial_layout: u32,
    pub final_layout: u32,
    pub subpass_count: u32,
    pub subpass_color_layout: u32,
    pub dependency_src_stage: u32,
    pub dependency_dst_stage: u32,
    pub dependency_dst_access: u32,
}

/// The one render pass description a swapchain format ever gets: only the
/// attachment's format varies.
pub open spec fn spec_render_pass_desc(color_format: u32) -> RenderPassDesc {
    RenderPassDesc {
        color_format,
        sample_count: 1,
        load_op: LOAD_OP_CLEAR,
        store_op: STORE_OP_STORE,
        initial_layout: LAYOUT_UNDEFINED,
        final_layout: LAYOUT_PRESENT_SRC,
        subpass_count: 1,
        subpass_color_layout: LAYOUT_COLOR_ATTACHMENT_OPTIMAL,
        dependency_src_stage: STAGE_COLOR_ATTACHMENT_OUTPUT,
        dependency_dst_stage: STAGE_COLOR_ATTACHMENT_OUTPUT,
        dependency_dst_access: ACCESS_COLOR_ATTACHMENT_WRITE,
    }
}

/// Build the render pass description for a swapchain of the given format.
pub fn render_pass_desc(color_format: u32) -> (r: RenderPassDesc)
    ensures
        r == spec_render_pass_desc(color_format),
{
    RenderPassDesc {
        color_format,
        sample_count: 1,
        load_op: LOAD_OP_CLEAR,
        store_op: STORE_OP_STORE,
        initial_layout: LAYOUT_UNDEFINED,
        final_layout: LAYOUT_PRESENT_SRC,
        subpass_count: 1,
        subpass_color_layout: LAYOUT_COLOR_ATTACHMENT_OPTIMAL,
        dependency_src_stage: STAGE_COLOR_ATTACHMENT_OUTPUT,
        dependency_dst_stage: STAGE_COLOR_ATTACHMENT_OUTPUT,
        dependency_dst_access: ACCESS_COLOR_ATTACHMENT_WRITE,
    }
}

/// Byte offset of the two-float position within a vertex.
pub const VERTEX_POSITION_OFFSET: u32 = 0;

/// Byte offset of the three-float color within a vertex.
pub const VERTEX_COLOR_OFFSET: u32 = 8;

/// Byte stride of a vertex: a two-float position then a three-float color.
pub const VERTEX_STRIDE: u32 = 20;

/// The fixed-function graphics pipeline: triangle-list topology, a viewport
/// and scissor covering exactly the swapchain extent, back-face culling with
/// clockwise front faces, fill mode, no blending, single-sampled, and the
/// fixed vertex layout above.
#[derive(Clone, Copy, PartialEq, Eq, Structural, Debug)]
pub struct PipelineDesc {
    pub color_format: u32,
    pub viewport: Extent2D,
    pub scissor: Extent2D,
    pub triangle_list: bool,
    pub cull_back_faces: bool,
    pub front_face_clockwise: bool,
    pub fill_mode: bool,
    pub blending_enabled: bool,
    pub sample_count: u32,
    pub vertex_stride: u32,
    pub position_offset: u32,
    pub color_offset: u32,
}

/// The one pipeline description a swapchain ever gets: only the attachment
/// format and the viewport and scissor extent vary.
pub open spec fn spec_pipeline_desc(color_format: u32, extent: Extent2D) -> PipelineDesc {
    PipelineDesc {
        color_format,
        viewport: extent,
        scissor: extent,
        triangle_list: true,
        cull_back_faces: true,
        front_face_clockwise: true,
        fill_mode: true,
        blending_enabled: false,
        sample_count: 1,
        vertex_stride: VERTEX_STRIDE,
        position_offset: VERTEX_POSITION_OFFSET,
        color_offset: VERTEX_COLOR_OFFSET,
    }
}

/// Build the pipeline description bound to a swapchain's format and extent.
pub fn pipeline_desc(color_format: u32, extent: Extent2D) -> (p: PipelineDesc)
    ensures
        p == spec_pipeline_desc(color_format, extent),
{
    PipelineDesc {
        color_format,
        viewport: extent,
        scissor: extent,
        triangle_list: true,
        cull_back_faces: true,
        front_face_clockwise: true,
        fill_mode: true,
        blending_enabled: false,
        sample_count: 1,
        vertex_stride: VERTEX_STRIDE,
        position_offset: VERTEX_POSITION_OFFSET,
        color_offset: VERTEX_COLOR_OFFSET,
    }
}

/// The framebuffers: one per swapchain image, each binding that image's view
/// to the render pass at the swapchain's extent.
#[derive(Clone, Copy, PartialEq, Eq, Structural, Debug)]
pub struct FramebufferSet {
    pub count: usize,
    pub extent: Extent2D,
}

/// Build one framebuffer per swapchain image at the swapchain's extent.
pub fn framebuffers_for(swapchain: &Swapchain) -> (f: FramebufferSet)
    ensures
        f.count == swapchain.image_count,
        f.extent == swapchain.extent,
{
    FramebufferSet { count: swapchain.image_count, extent: swapchain.extent }
}

/// The swapchain together with everything derived from it. The derived
/// objects bake the swapchain's format and extent in, so the whole group is
/// created together and rebuilt together.
pub struct RenderTargets {
    pub swapchain: Swapchain,
    pub render_pass: RenderPassDesc,
    pub pipeline: PipelineDesc,
    pub framebuffers: FramebufferSet,
}

impl RenderTargets {
    /// The derived objects agree with the swapchain they were built from:
    /// the render pass and pipeline carry its format, the viewport and
    /// scissor cover exactly its extent, and the framebuffers are one per
    /// image at that same extent.
    pub open spec fn consistent(&self) -> bool {
        &&& self.render_pass.color_format == self.swapchain.format
        &&& self.pipeline.color_format == self.swapchain.format
        &&& self.pipeline.viewport == self.swapchain.extent
        &&& self.pipeline.scissor == self.swapchain.extent
        &&& self.framebuffers.count == self.swapchain.image_count
        &&& self.framebuffers.extent == self.swapchain.extent
    }

    /// Create the swapchain from a plan and build the render pass, pipeline,
    /// and framebuffers against it.
    pub fn create(plan: &SwapchainPlan) -> (r: RenderTargets)
        ensures
            r.consistent(),
            r.swapchain.image_count == plan.image_count,
            r.swapchain.format == plan.format.format,
            r.swapchain.extent == plan.extent,
            r.render_pass == spec_render_pass_desc(plan.format.format),
            r.pipeline == spec_pipeline_desc(plan.format.format, plan.extent),
    {
        let swapchain = Swapchain::from_plan(plan);
        let render_pass = render_pass_desc(swapchain.format);
        let pipeline = pipeline_desc(swapchain.format, swapchain.extent);
        let framebuffers = framebuffers_for(&swapchain);
        RenderTargets { swapchain, render_pass, pipeline, framebuffers }
    }

    /// Tear the group down and rebuild it against a newly negotiated plan;
    /// the surface changed, so every derived object is rebuilt, never reused.
    pub fn recreate(&mut self, plan: &SwapchainPlan)
        ensures
            final (self).consistent(),
            final (self).swapchain.image_count == plan.image_count,
            final (self).swapchain.format == plan.format.format,
            final (self).swapchain.extent == plan.extent,
            final (self).render_pass == spec_render_pass_desc(plan.format.format),
            final (self).pipeline == spec_pipeline_desc(plan.format.format, plan.extent),
    {
        *self = RenderTargets::create(plan);
    }
}

/// After a rebuild, nothing stale can survive: in a consistent group the
/// pipeline's viewport and scissor and every framebuffer's extent equal the
/// swapchain's extent exactly.
pub proof fn lemma_targets_match_extent(t: RenderTargets)
    requires
        t.consistent(),
    ensures
        t.pipeline.viewport == t.swapchain.extent,
        t.pipeline.scissor == t.swapchain.extent,
        t.framebuffers.extent == t.swapchain.extent,
        t.framebuffers.count == t.swapchain.image_count,
{
}

} // verus!
