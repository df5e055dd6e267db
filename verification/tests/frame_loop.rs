use hello_triangle::memory::UniformSet;
use hello_triangle::pipeline::RenderTargets;
use hello_triangle::renderer::{teardown_order, Renderer, TeardownStage};
use hello_triangle::scheduler::{FrameScheduler, Phase};
use hello_triangle::swapchain::{
    Extent2D, SharingMode, SurfaceFormat, SwapchainPlan, COLOR_SPACE_SRGB_NONLINEAR,
    FORMAT_B8G8R8A8_SRGB, PRESENT_MODE_FIFO,
};

fn plan(width: u32, height: u32, image_count: u32) -> SwapchainPlan {
    SwapchainPlan {
        format: SurfaceFormat {
            format: FORMAT_B8G8R8A8_SRGB,
            color_space: COLOR_SPACE_SRGB_NONLINEAR,
        },
        present_mode: PRESENT_MODE_FIFO,
        extent: Extent2D { width, height },
        image_count,
        sharing: SharingMode::Exclusive,
        graphics_family: 0,
        present_family: 0,
    }
}

/// A 4-vertex quad: two floats of position and three floats of color per
/// vertex, 20 bytes each, as raw bytes.
fn quad_vertices() -> Vec<u8> {
    let corners: [[f32; 5]; 4] = [
        [-0.5, -0.5, 1.0, 0.0, 0.0],
        [0.5, -0.5, 0.0, 1.0, 0.0],
        [0.5, 0.5, 0.0, 0.0, 1.0],
        [-0.5, 0.5, 1.0, 1.0, 1.0],
    ];
    let mut bytes = Vec::new();
    for corner in corners.iter() {
        for value in corner.iter() {
            bytes.extend_from_slice(&value.to_le_bytes());
        }
    }
    bytes
}

/// Two triangles covering the quad: six two-byte indices.
fn quad_indices() -> Vec<u8> {
    let indices: [u16; 6] = [0, 1, 2, 2, 3, 0];
    let mut bytes = Vec::new();
    for index in indices.iter() {
        bytes.extend_from_slice(&index.to_le_bytes());
    }
    bytes
}

fn quad_renderer(frames: usize, images: u32) -> Renderer {
    Renderer::new(&plan(800, 600, images), frames, 64, &quad_vertices(), &quad_indices())
}

fn in_flight(s: &FrameScheduler) -> usize {
    s.fence_signaled.iter().filter(|signaled| !**signaled).count()
}

#[test]
fn teardown_runs_in_reverse_construction_order() {
    let stages = teardown_order();
    assert_eq!(
        stages,
        vec![
            TeardownStage::SyncObjects,
            TeardownStage::CommandPool,
            TeardownStage::Pipeline,
            TeardownStage::PipelineLayout,
            TeardownStage::RenderPass,
            TeardownStage::ImageViews,
            TeardownStage::Swapchain,
            TeardownStage::Device,
            TeardownStage::Surface,
            TeardownStage::Instance,
        ]
    );
}

#[test]
fn recreate_rebuilds_pipeline_and_framebuffers_to_the_new_extent() {
    let mut targets = RenderTargets::create(&plan(800, 600, 3));
    assert_eq!(targets.pipeline.viewport, Extent2D { width: 800, height: 600 });
    targets.recreate(&plan(1280, 720, 4));
    assert_eq!(targets.swapchain.extent, Extent2D { width: 1280, height: 720 });
    assert_eq!(targets.pipeline.viewport, Extent2D { width: 1280, height: 720 });
    assert_eq!(targets.pipeline.scissor, Extent2D { width: 1280, height: 720 });
    assert_eq!(targets.framebuffers.extent, Extent2D { width: 1280, height: 720 });
    assert_eq!(targets.framebuffers.count, 4);
    assert_eq!(targets.render_pass.color_format, targets.swapchain.format);
}

#[test]
fn uniform_slots_cover_every_image_from_slot_zero_on() {
    let uniforms = UniformSet::allocate(3, 64);
    assert_eq!(uniforms.slots.len(), 3);
    for slot in uniforms.slots.iter() {
        assert_eq!(slot.len(), 64);
    }
}

#[test]
fn uniform_update_touches_only_the_acquired_image_slot() {
    let mut uniforms = UniformSet::allocate(3, 4);
    let before = uniforms.slots[0].clone();
    uniforms.update(1, &vec![9, 8, 7, 6]);
    assert_eq!(uniforms.slots[1], vec![9, 8, 7, 6]);
    assert_eq!(uniforms.slots[0], before);
    assert_eq!(uniforms.slots[2], before);
}

#[test]
fn at_most_two_frames_in_flight_and_waiting_drains_to_zero() {
    let mut s = FrameScheduler::new(2, 3);
    assert_eq!(in_flight(&s), 0);

    s.wait_for_slot_fence();
    s.image_acquired(0);
    s.submit(0);
    s.present_ok();
    assert_eq!(in_flight(&s), 1);

    s.wait_for_slot_fence();
    s.image_acquired(1);
    s.submit(1);
    s.present_ok();
    assert_eq!(in_flight(&s), 2);
    assert!(in_flight(&s) <= s.frame_count);

    s.wait_idle();
    assert_eq!(in_flight(&s), 0);
}

#[test]
fn an_image_is_never_claimed_by_two_unsignaled_fences() {
    let mut s = FrameScheduler::new(2, 3);

    // Slot 0 renders into image 0 and leaves its fence unsignaled.
    s.wait_for_slot_fence();
    assert_eq!(s.image_acquired(0), None);
    s.submit(0);
    s.present_ok();
    assert_eq!(s.images_in_flight[0], Some(0));
    assert!(!s.fence_signaled[0]);

    // Slot 1 acquires the same image while slot 0 still claims it: the
    // prior claimant's fence is reported and waited out first, so the claim
    // passes over — it never doubles up.
    s.wait_for_slot_fence();
    assert_eq!(s.image_acquired(0), Some(0));
    assert!(s.fence_signaled[0]);
    s.submit(0);
    assert_eq!(s.images_in_flight[0], Some(1));
    assert!(!s.fence_signaled[1]);
    assert!(s.fence_signaled[0]);
}

#[test]
fn renderer_records_one_command_buffer_per_image() {
    let r = quad_renderer(2, 3);
    let buffers = r.record_command_buffers();
    assert_eq!(buffers.len(), 3);
    for (i, buffer) in buffers.iter().enumerate() {
        assert_eq!(buffer, &r.commands_for_image(i));
    }
}

#[test]
fn renderer_reports_the_prior_claimant_of_a_reacquired_image() {
    let mut r = quad_renderer(2, 3);
    r.begin_frame();
    assert_eq!(r.on_image_acquired(0), None);
    r.submit_frame(0);
    r.on_present_ok();

    // Slot 1 reacquires image 0 while slot 0's fence still claims it: the
    // model must name slot 0, so the shell knows to wait that fence out.
    r.begin_frame();
    assert_eq!(r.on_image_acquired(0), Some(0));
    r.submit_frame(0);
    r.on_present_ok();
}

#[test]
fn frame_steps_leave_geometry_and_uniform_sizing_untouched() {
    let mut r = quad_renderer(2, 3);
    let vertices_before = r.vertex_buffer.contents.clone();
    let indices_before = r.index_buffer.contents.clone();

    // A clean iteration, a stale acquire, and a stale present.
    r.begin_frame();
    r.on_image_acquired(1);
    r.update_uniform(1, &vec![7u8; 64]);
    r.submit_frame(1);
    r.on_present_ok();
    r.begin_frame();
    r.on_acquire_out_of_date(&plan(640, 480, 3));
    r.begin_frame();
    r.on_image_acquired(0);
    r.submit_frame(0);
    r.on_present_out_of_date(&plan(320, 240, 2));
    r.drain();

    assert_eq!(r.vertex_buffer.contents, vertices_before);
    assert_eq!(r.index_buffer.contents, indices_before);
    assert_eq!(r.index_count, 6);
    assert_eq!(r.uniform_size, 64);
}

#[test]
fn hundred_quad_frames_present_exactly_hundred_times() {
    let mut r = quad_renderer(2, 3);
    assert_eq!(r.index_count, 6);
    assert_eq!(r.vertex_buffer.contents.len(), 80);

    for iteration in 0..100usize {
        let slot = r.begin_frame();
        assert_eq!(slot, iteration % 2);
        let image = iteration % 3;
        r.on_image_acquired(image);
        r.update_uniform(image, &vec![0u8; 64]);
        let commands = r.commands_for_image(image);
        assert_eq!(commands.len(), 6);
        r.submit_frame(image);
        r.on_present_ok();
    }

    assert_eq!(r.scheduler.present_count, 100);
    assert_eq!(r.scheduler.submit_count, 100);
    assert_eq!(r.scheduler.recreate_count, 0);
    r.drain();
    assert_eq!(in_flight(&r.scheduler), 0);
}

#[test]
fn stale_present_triggers_exactly_one_recreation_before_the_next_acquire() {
    let mut r = quad_renderer(2, 3);

    // A few clean iterations first.
    for iteration in 0..5usize {
        r.begin_frame();
        let image = iteration % 3;
        r.on_image_acquired(image);
        r.submit_frame(image);
        r.on_present_ok();
    }
    assert_eq!(r.scheduler.recreate_count, 0);

    // Iteration 5: presentation reports the surface out of date.
    r.begin_frame();
    r.on_image_acquired(2);
    r.submit_frame(2);
    r.on_present_out_of_date(&plan(1024, 768, 4));
    assert_eq!(r.scheduler.recreate_count, 1);
    assert_eq!(r.targets.pipeline.viewport, Extent2D { width: 1024, height: 768 });

    // Iteration 6 acquires against the rebuilt chain without another
    // recreation.
    r.begin_frame();
    r.on_image_acquired(3);
    r.submit_frame(3);
    r.on_present_ok();
    assert_eq!(r.scheduler.recreate_count, 1);
    assert_eq!(r.scheduler.present_count, 6);
}

#[test]
fn stale_acquire_recreates_and_skips_the_submission() {
    let mut r = quad_renderer(2, 3);

    r.begin_frame();
    r.on_image_acquired(0);
    r.submit_frame(0);
    r.on_present_ok();
    assert_eq!(r.scheduler.submit_count, 1);

    // The acquire itself reports the surface out of date: the iteration is
    // abandoned, nothing is submitted, and the same slot retries.
    let slot = r.begin_frame();
    r.on_acquire_out_of_date(&plan(640, 480, 3));
    assert_eq!(r.scheduler.recreate_count, 1);
    assert_eq!(r.scheduler.submit_count, 1);
    assert_eq!(r.scheduler.phase, Phase::Idle);
    assert_eq!(r.targets.pipeline.scissor, Extent2D { width: 640, height: 480 });

    let retry_slot = r.begin_frame();
    assert_eq!(retry_slot, slot);
    r.on_image_acquired(0);
    r.submit_frame(0);
    r.on_present_ok();
    assert_eq!(r.scheduler.submit_count, 2);
    assert_eq!(r.scheduler.recreate_count, 1);
}
