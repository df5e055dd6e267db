//! The top-level owner: the swapchain-derived object group, the per-image
//! uniform buffers, the immutable geometry, and the frame scheduler, kept
//! consistent as one unit. Each step of the per-frame protocol is a method;
//! the unverified shell performs the matching driver call and reports its
//! outcome. When presentation goes stale, one recreation rebuilds the
//! swapchain, pipeline, framebuffers, per-image tracking, and uniform slots
//! together, so nothing stale survives into the next iteration.

use vstd::prelude::*;
use crate::commands::{
    DrawCommand, frame_command_seq, record_all_frame_commands, record_frame_commands,
};
use crate::memory::{Buffer, UniformSet, upload_via_staging};
use crate::pipeline::{spec_pipeline_desc, spec_render_pass_desc, RenderTargets};
use crate::scheduler::{FrameScheduler, Phase};
use crate::swapchain::SwapchainPlan;

verus! {

/// One stage of teardown. Earlier stages destroy the objects that may hold
/// dependencies on what later stages destroy.
#[derive(Clone, Copy, PartialEq, Eq, Structural, Debug)]
pub enum TeardownStage {
    SyncObjects,
    CommandPool,
    Pipeline,
    PipelineLayout,
    RenderPass,
    ImageViews,
    Swapchain,
    Device,
    Surface,
    Instance,
}

/// The order teardown must follow after the device has been drained: the
/// strict reverse of construction order, since each object may hold a
/// dependency on the one created before it.
pub open spec fn spec_teardown_order() -> Seq<TeardownStage> {
    seq![
        TeardownStage::SyncObjects,
        TeardownStage::CommandPool,
        TeardownStage::Pipeline,
        TeardownStage::PipelineLayout,
        TeardownStage::RenderPass,
        TeardownStage::ImageViews,
        TeardownStage::Swapchain,
        TeardownStage::Device,
        TeardownStage::Surface,
        TeardownStage::Instance,
    ]
}

/// Enumerate the teardown stages in the one order that is safe.
pub fn teardown_order() -> (stages: Vec<TeardownStage>)
    ensures
        stages@ == spec_teardown_order(),
{
    let mut stages: Vec<TeardownStage> = Vec::new();
    stages.push(TeardownStage::SyncObjects);
    stages.push(TeardownStage::CommandPool);
    stages.push(TeardownStage::Pipeline);
    stages.push(TeardownStage::PipelineLayout);
    stages.push(TeardownStage::RenderPass);
    stages.push(TeardownStage::ImageViews);
    stages.push(TeardownStage::Swapchain);
    stages.push(TeardownStage::Device);
    stages.push(TeardownStage::Surface);
    stages.push(TeardownStage::Instance);
    proof {
        assert(stages@ =~= spec_teardown_order());
    }
    stages
}

/// Everything the render loop owns, with one consistency invariant across
/// the parts.
pub struct Renderer {
    /// The swapchain and the objects that bake its format and extent in.
    pub targets: RenderTargets,
    /// One uniform buffer per swapchain image.
    pub uniforms: UniformSet,
    /// Device-resident vertex data, uploaded once through the staging path.
    pub vertex_buffer: Buffer,
    /// Device-resident index data, uploaded once through the staging path.
    pub index_buffer: Buffer,
    /// How many two-byte indices the index buffer holds.
    pub index_count: u32,
    /// Bytes per uniform slot.
    pub uniform_size: usize,
    /// The synchronization state machine.
    pub scheduler: FrameScheduler,
}

impl Renderer {
    /// The cross-part invariant: the derived objects agree with the
    /// swapchain, the synchronization state is well formed and sized to the
    /// same image count, every image — the first included — has a uniform
    /// slot of the agreed size, and the geometry lives in buffers the host
    /// cannot write.
    pub open spec fn consistent(&self) -> bool {
        &&& self.targets.consistent()
        &&& self.scheduler.well_formed()
        &&& self.scheduler.image_count == self.targets.swapchain.image_count
        &&& self.uniforms.well_formed(
            self.targets.swapchain.image_count as int,
            self.uniform_size as int,
        )
        &&& !self.vertex_buffer.host_visible
        &&& !self.index_buffer.host_visible
        &&& self.index_count == self.index_buffer.contents@.len() / 2
    }

    /// Build everything: create the swapchain and its derived objects from
    /// the negotiated plan, upload the geometry once through the staging
    /// path, allocate a uniform slot for every image, and set up
    /// synchronization for `frame_count` frames in flight.
    pub fn new(
        plan: &SwapchainPlan,
        frame_count: usize,
        uniform_size: usize,
        vertices: &Vec<u8>,
        indices: &Vec<u8>,
    ) -> (r: Renderer)
        requires
            1 <= frame_count,
            indices@.len() % 2 == 0,
            indices@.len() / 2 <= u32::MAX,
        ensures
            r.consistent(),
            r.scheduler.frame_count == frame_count,
            r.scheduler.phase == Phase::Idle,
            r.scheduler.submit_count == 0,
            r.scheduler.present_count == 0,
            r.scheduler.recreate_count == 0,
            r.targets.swapchain.extent == plan.extent,
            r.targets.swapchain.image_count == plan.image_count,
            r.targets.swapchain.format == plan.format.format,
            r.targets.render_pass == spec_render_pass_desc(plan.format.format),
            r.targets.pipeline == spec_pipeline_desc(plan.format.format, plan.extent),
            r.vertex_buffer.contents@ == vertices@,
            r.index_buffer.contents@ == indices@,
            r.index_count == indices@.len() / 2,
            r.uniform_size == uniform_size,
    {
        let targets = RenderTargets::create(plan);
        let uniforms = UniformSet::allocate(targets.swapchain.image_count, uniform_size);
        let vertex_buffer = upload_via_staging(vertices);
        let index_buffer = upload_via_staging(indices);
        let index_count = (indices.len() / 2) as u32;
        let scheduler = FrameScheduler::new(frame_count, targets.swapchain.image_count);
        Renderer {
            targets,
            uniforms,
            vertex_buffer,
            index_buffer,
            index_count,
            uniform_size,
            scheduler,
        }
    }

    /// The loaded assets never change after construction: the geometry is
    /// immutable after upload, and the index count and uniform-slot size are
    /// fixed with it. Every step of the loop keeps them.
    pub open spec fn assets_unchanged(pre: Renderer, post: Renderer) -> bool {
        &&& post.vertex_buffer == pre.vertex_buffer
        &&& post.index_buffer == pre.index_buffer
        &&& post.index_count == pre.index_count
        &&& post.uniform_size == pre.uniform_size
    }

    /// The command sequence to record for the given acquired image: fixed by
    /// the current extent, the image's framebuffer, and the loaded index
    /// count.
    pub fn commands_for_image(&self, image: usize) -> (cmds: Vec<DrawCommand>)
        ensures
            cmds@ == frame_command_seq(image, self.targets.swapchain.extent, self.index_count),
    {
        record_frame_commands(image, self.targets.swapchain.extent, self.index_count)
    }

    /// The command buffers for the whole chain: one per swapchain image, the
    /// buffer of image `i` holding exactly the fixed sequence for image `i`.
    pub fn record_command_buffers(&self) -> (buffers: Vec<Vec<DrawCommand>>)
        ensures
            buffers@.len() == self.targets.swapchain.image_count,
            forall|i: int|
                0 <= i < buffers@.len() ==> (#[trigger] buffers@[i])@ == frame_command_seq(
                    i as usize,
                    self.targets.swapchain.extent,
                    self.index_count,
                ),
    {
        record_all_frame_commands(
            self.targets.swapchain.image_count,
            self.targets.swapchain.extent,
            self.index_count,
        )
    }

    /// Iteration step one: block on the current slot's fence before reusing
    /// any of the slot's resources.
    pub fn begin_frame(&mut self) -> (slot: usize)
        requires
            old(self).consistent(),
            old(self).scheduler.phase == Phase::Idle,
        ensures
            final (self).consistent(),
            slot == old(self).scheduler.current_slot,
            final (self).scheduler.phase == Phase::SlotReady,
            final (self).scheduler.fence_signaled@ == old(self).scheduler.fence_signaled@.update(
                slot as int,
                true,
            ),
            final (self).scheduler.images_in_flight@ == old(self).scheduler.images_in_flight@,
            final (self).scheduler.current_slot == old(self).scheduler.current_slot,
            final (self).scheduler.image_count == old(self).scheduler.image_count,
            final (self).targets == old(self).targets,
            final (self).uniforms == old(self).uniforms,
            Renderer::assets_unchanged(*old(self), *final (self)),
            final (self).scheduler.frame_count == old(self).scheduler.frame_count,
            final (self).scheduler.submit_count == old(self).scheduler.submit_count,
            final (self).scheduler.present_count == old(self).scheduler.present_count,
            final (self).scheduler.recreate_count == old(self).scheduler.recreate_count,
    {
        self.scheduler.wait_for_slot_fence()
    }

    /// Iteration step two, success path: the acquire call handed back
    /// `image`. The return names exactly the prior claimant of that image
    /// whose fence is still unsignaled, if there is one — the caller must
    /// wait that fence out, and on return the wait has been accounted.
    pub fn on_image_acquired(&mut self, image: usize) -> (prior: Option<usize>)
        requires
            old(self).consistent(),
            old(self).scheduler.phase == Phase::SlotReady,
            image < old(self).scheduler.image_count,
        ensures
            final (self).consistent(),
            final (self).scheduler.phase == (Phase::ImageAcquired { image }),
            prior == (match old(self).scheduler.images_in_flight@[image as int] {
                Some(t) => if !old(self).scheduler.fence_signaled@[t as int] {
                    Some(t)
                } else {
                    None
                },
                None => None,
            }),
            prior matches Some(t) ==> final (self).scheduler.fence_signaled@ == old(
                self,
            ).scheduler.fence_signaled@.update(t as int, true),
            prior is None ==> final (self).scheduler.fence_signaled@ == old(
                self,
            ).scheduler.fence_signaled@,
            final (self).scheduler.images_in_flight@ == old(self).scheduler.images_in_flight@,
            final (self).scheduler.current_slot == old(self).scheduler.current_slot,
            final (self).scheduler.image_count == old(self).scheduler.image_count,
            final (self).targets == old(self).targets,
            final (self).uniforms == old(self).uniforms,
            Renderer::assets_unchanged(*old(self), *final (self)),
            final (self).scheduler.frame_count == old(self).scheduler.frame_count,
            final (self).scheduler.submit_count == old(self).scheduler.submit_count,
            final (self).scheduler.present_count == old(self).scheduler.present_count,
            final (self).scheduler.recreate_count == old(self).scheduler.recreate_count,
    {
        self.scheduler.image_acquired(image)
    }

    /// Iteration step two, failure path: the acquire call reported the
    /// surface out of date. Exactly one recreation rebuilds the swapchain
    /// and everything derived from it against the newly negotiated plan; no
    /// submission happens this iteration, and the same slot retries.
    pub fn on_acquire_out_of_date(&mut self, plan: &SwapchainPlan)
        requires
            old(self).consistent(),
            old(self).scheduler.phase == Phase::SlotReady,
            old(self).scheduler.recreate_count < u64::MAX,
        ensures
            final (self).consistent(),
            final (self).scheduler.phase == Phase::Idle,
            final (self).targets.swapchain.extent == plan.extent,
            final (self).targets.swapchain.image_count == plan.image_count,
            final (self).targets.swapchain.format == plan.format.format,
            final (self).targets.render_pass == spec_render_pass_desc(plan.format.format),
            final (self).targets.pipeline == spec_pipeline_desc(plan.format.format, plan.extent),
            final (self).scheduler.image_count == plan.image_count,
            forall|i: int|
                0 <= i < final (self).scheduler.image_count
                    ==> final (self).scheduler.images_in_flight@[i] is None,
            forall|i: int|
                0 <= i < old(self).scheduler.frame_count
                    ==> final (self).scheduler.fence_signaled@[i],
            Renderer::assets_unchanged(*old(self), *final (self)),
            final (self).scheduler.current_slot == old(self).scheduler.current_slot,
            final (self).scheduler.frame_count == old(self).scheduler.frame_count,
            final (self).scheduler.submit_count == old(self).scheduler.submit_count,
            final (self).scheduler.present_count == old(self).scheduler.present_count,
            final (self).scheduler.recreate_count == old(self).scheduler.recreate_count + 1,
    {
        self.targets.recreate(plan);
        self.uniforms = UniformSet::allocate(self.targets.swapchain.image_count, self.uniform_size);
        self.scheduler.acquire_out_of_date(self.targets.swapchain.image_count);
    }

    /// Iteration step four: write this frame's caller-supplied transform
    /// data into the uniform slot of the acquired image — only that slot.
    pub fn update_uniform(&mut self, image: usize, data: &Vec<u8>)
        requires
            old(self).consistent(),
            old(self).scheduler.phase == (Phase::ImageAcquired { image }),
            data@.len() == old(self).uniform_size,
        ensures
            final (self).consistent(),
            final (self).scheduler == old(self).scheduler,
            final (self).targets == old(self).targets,
            Renderer::assets_unchanged(*old(self), *final (self)),
            final (self).uniforms.slots@.len() == old(self).uniforms.slots@.len(),
            (final (self).uniforms.slots@[image as int])@ == data@,
            forall|j: int|
                0 <= j < old(self).uniforms.slots@.len() && j != image
                    ==> final (self).uniforms.slots@[j] == old(self).uniforms.slots@[j],
    {
        self.uniforms.update(image, data);
    }

    /// Iteration step five: reset the slot's fence and submit the recorded
    /// work for the acquired image; the image is now claimed by this slot's
    /// fence.
    pub fn submit_frame(&mut self, image: usize)
        requires
            old(self).consistent(),
            old(self).scheduler.phase == (Phase::ImageAcquired { image }),
            old(self).scheduler.submit_count < u64::MAX,
        ensures
            final (self).consistent(),
            final (self).scheduler.phase == (Phase::Submitted { image }),
            final (self).scheduler.fence_signaled@ == old(self).scheduler.fence_signaled@.update(
                old(self).scheduler.current_slot as int,
                false,
            ),
            final (self).scheduler.images_in_flight@ == old(
                self,
            ).scheduler.images_in_flight@.update(
                image as int,
                Some(old(self).scheduler.current_slot),
            ),
            final (self).scheduler.current_slot == old(self).scheduler.current_slot,
            final (self).scheduler.image_count == old(self).scheduler.image_count,
            final (self).targets == old(self).targets,
            final (self).uniforms == old(self).uniforms,
            Renderer::assets_unchanged(*old(self), *final (self)),
            final (self).scheduler.frame_count == old(self).scheduler.frame_count,
            final (self).scheduler.submit_count == old(self).scheduler.submit_count + 1,
            final (self).scheduler.present_count == old(self).scheduler.present_count,
            final (self).scheduler.recreate_count == old(self).scheduler.recreate_count,
    {
        self.scheduler.submit(image);
    }

    /// Iteration step six, success path: presentation completed; the
    /// rotation advances to the next slot.
    pub fn on_present_ok(&mut self)
        requires
            old(self).consistent(),
            old(self).scheduler.phase matches Phase::Submitted { .. },
            old(self).scheduler.present_count < u64::MAX,
        ensures
            final (self).consistent(),
            final (self).scheduler.phase == Phase::Idle,
            final (self).scheduler.current_slot == (old(self).scheduler.current_slot + 1) % (
            old(self).scheduler.frame_count as int),
            final (self).scheduler.fence_signaled@ == old(self).scheduler.fence_signaled@,
            final (self).scheduler.images_in_flight@ == old(self).scheduler.images_in_flight@,
            final (self).scheduler.image_count == old(self).scheduler.image_count,
            final (self).targets == old(self).targets,
            final (self).uniforms == old(self).uniforms,
            Renderer::assets_unchanged(*old(self), *final (self)),
            final (self).scheduler.frame_count == old(self).scheduler.frame_count,
            final (self).scheduler.submit_count == old(self).scheduler.submit_count,
            final (self).scheduler.present_count == old(self).scheduler.present_count + 1,
            final (self).scheduler.recreate_count == old(self).scheduler.recreate_count,
    {
        self.scheduler.present_ok();
    }

    /// Iteration step six, failure path: presentation reported the surface
    /// out of date. The submitted work still ran; exactly one recreation
    /// rebuilds everything derived from the surface before the next
    /// iteration's acquire.
    pub fn on_present_out_of_date(&mut self, plan: &SwapchainPlan)
        requires
            old(self).consistent(),
            old(self).scheduler.phase matches Phase::Submitted { .. },
            old(self).scheduler.recreate_count < u64::MAX,
        ensures
            final (self).consistent(),
            final (self).scheduler.phase == Phase::Idle,
            final (self).targets.swapchain.extent == plan.extent,
            final (self).targets.swapchain.image_count == plan.image_count,
            final (self).targets.swapchain.format == plan.format.format,
            final (self).targets.render_pass == spec_render_pass_desc(plan.format.format),
            final (self).targets.pipeline == spec_pipeline_desc(plan.format.format, plan.extent),
            final (self).scheduler.image_count == plan.image_count,
            forall|i: int|
                0 <= i < final (self).scheduler.image_count
                    ==> final (self).scheduler.images_in_flight@[i] is None,
            forall|i: int|
                0 <= i < old(self).scheduler.frame_count
                    ==> final (self).scheduler.fence_signaled@[i],
            final (self).scheduler.current_slot == (old(self).scheduler.current_slot + 1) % (
            old(self).scheduler.frame_count as int),
            Renderer::assets_unchanged(*old(self), *final (self)),
            final (self).scheduler.frame_count == old(self).scheduler.frame_count,
            final (self).scheduler.submit_count == old(self).scheduler.submit_count,
            final (self).scheduler.present_count == old(self).scheduler.present_count,
            final (self).scheduler.recreate_count == old(self).scheduler.recreate_count + 1,
    {
        self.targets.recreate(plan);
        self.uniforms = UniformSet::allocate(self.targets.swapchain.image_count, self.uniform_size);
        self.scheduler.present_out_of_date(self.targets.swapchain.image_count);
    }

    /// Shutdown: drain the device to idle so no in-flight work still
    /// references anything about to be destroyed; teardown then proceeds in
    /// strict reverse construction order in the unverified shell.
    pub fn drain(&mut self)
        requires
            old(self).consistent(),
            old(self).scheduler.phase == Phase::Idle,
        ensures
            final (self).consistent(),
            final (self).scheduler.phase == Phase::Idle,
            final (self).scheduler.in_flight_count() == 0,
            forall|i: int|
                0 <= i < old(self).scheduler.frame_count
                    ==> final (self).scheduler.fence_signaled@[i],
            final (self).scheduler.images_in_flight@ == old(self).scheduler.images_in_flight@,
            final (self).scheduler.current_slot == old(self).scheduler.current_slot,
            final (self).scheduler.image_count == old(self).scheduler.image_count,
            final (self).targets == old(self).targets,
            final (self).uniforms == old(self).uniforms,
            Renderer::assets_unchanged(*old(self), *final (self)),
            final (self).scheduler.frame_count == old(self).scheduler.frame_count,
            final (self).scheduler.submit_count == old(self).scheduler.submit_count,
            final (self).scheduler.present_count == old(self).scheduler.present_count,
            final (self).scheduler.recreate_count == old(self).scheduler.recreate_count,
    {
        self.scheduler.wait_idle();
    }
}

} // verus!
