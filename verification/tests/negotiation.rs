use hello_triangle::InitError;
use hello_triangle::commands::{
    record_all_frame_commands, record_frame_commands, ClearColor, DrawCommand, FLOAT_BITS_ONE,
    FLOAT_BITS_ZERO,
};
use hello_triangle::device::{
    DeviceInfo, QueueFamily, find_queue_families, is_device_suitable, select_device,
    supports_extension, swapchain_extension_name_bytes, unique_queue_families,
};
use hello_triangle::memory::{
    download_via_staging, find_memory_type, upload_via_staging, MEMORY_DEVICE_LOCAL,
    MEMORY_HOST_COHERENT, MEMORY_HOST_VISIBLE,
};
use hello_triangle::swapchain::{
    choose_extent, choose_present_mode, choose_surface_format, plan_swapchain,
    select_sharing_mode, swapchain_image_count, Extent2D, SharingMode, SurfaceCaps,
    SurfaceFormat, Swapchain, COLOR_SPACE_SRGB_NONLINEAR, EXTENT_UNDEFINED,
    FORMAT_B8G8R8A8_SRGB, PRESENT_MODE_FIFO, PRESENT_MODE_MAILBOX,
};

fn caps(min_count: u32, max_count: u32, current: (u32, u32)) -> SurfaceCaps {
    SurfaceCaps {
        min_image_count: min_count,
        max_image_count: max_count,
        current_extent: Extent2D { width: current.0, height: current.1 },
        min_image_extent: Extent2D { width: 64, height: 64 },
        max_image_extent: Extent2D { width: 4096, height: 2160 },
    }
}

fn padded_name(name: &str) -> Vec<u8> {
    let mut raw: Vec<u8> = name.as_bytes().to_vec();
    while raw.len() < 256 {
        raw.push(0);
    }
    raw
}

fn capable_device() -> DeviceInfo {
    DeviceInfo {
        queue_families: vec![
            QueueFamily { graphics: false, present: true },
            QueueFamily { graphics: true, present: false },
        ],
        extension_names: vec![padded_name("VK_KHR_shader_clock"), padded_name("VK_KHR_swapchain")],
        formats: vec![SurfaceFormat { format: 44, color_space: 0 }],
        present_modes: vec![PRESENT_MODE_FIFO],
    }
}

#[test]
fn queue_family_scan_finds_both_roles() {
    let fams = vec![
        QueueFamily { graphics: false, present: false },
        QueueFamily { graphics: true, present: false },
        QueueFamily { graphics: false, present: true },
    ];
    let (graphics, present) = find_queue_families(&fams);
    assert_eq!(graphics, Some(1));
    assert_eq!(present, Some(2));
}

#[test]
fn queue_family_scan_reports_missing_roles() {
    let fams = vec![QueueFamily { graphics: true, present: false }];
    let (graphics, present) = find_queue_families(&fams);
    assert_eq!(graphics, Some(0));
    assert_eq!(present, None);
    let none: Vec<QueueFamily> = Vec::new();
    assert_eq!(find_queue_families(&none), (None, None));
}

#[test]
fn extension_name_is_cut_at_first_zero_byte() {
    let names = vec![padded_name("VK_KHR_swapchain")];
    let wanted = swapchain_extension_name_bytes();
    assert_eq!(wanted, b"VK_KHR_swapchain".to_vec());
    assert!(supports_extension(&names, &wanted));
    // Without the cut, the 256-byte padded field would never equal the name.
    let unpadded = vec![b"VK_KHR_swapchain".to_vec()];
    assert!(supports_extension(&unpadded, &wanted));
    let other = vec![padded_name("VK_KHR_swapchain_mutable_format")];
    assert!(!supports_extension(&other, &wanted));
}

#[test]
fn selection_takes_first_qualifying_device() {
    let mut no_extension = capable_device();
    no_extension.extension_names = vec![padded_name("VK_KHR_shader_clock")];
    let devices = vec![no_extension, capable_device(), capable_device()];
    assert_eq!(select_device(&devices), Ok(1));
}

#[test]
fn selection_requires_present_and_graphics_and_surface_support() {
    let mut no_present = capable_device();
    no_present.queue_families = vec![QueueFamily { graphics: true, present: false }];
    let mut no_formats = capable_device();
    no_formats.formats = Vec::new();
    let mut no_modes = capable_device();
    no_modes.present_modes = Vec::new();
    assert!(!is_device_suitable(&no_present));
    assert!(!is_device_suitable(&no_formats));
    assert!(!is_device_suitable(&no_modes));
    assert!(is_device_suitable(&capable_device()));
    let devices = vec![no_present, no_formats, no_modes];
    assert_eq!(select_device(&devices), Err(InitError::NoSuitableDevice));
    let empty: Vec<DeviceInfo> = Vec::new();
    assert_eq!(select_device(&empty), Err(InitError::NoSuitableDevice));
}

#[test]
fn preferred_format_is_taken_when_offered() {
    let formats = vec![
        SurfaceFormat { format: 44, color_space: 0 },
        SurfaceFormat { format: FORMAT_B8G8R8A8_SRGB, color_space: COLOR_SPACE_SRGB_NONLINEAR },
    ];
    let chosen = choose_surface_format(&formats);
    assert_eq!(chosen.format, FORMAT_B8G8R8A8_SRGB);
    assert_eq!(chosen.color_space, COLOR_SPACE_SRGB_NONLINEAR);
}

#[test]
fn first_format_is_the_fallback() {
    let formats = vec![
        SurfaceFormat { format: 44, color_space: 0 },
        SurfaceFormat { format: 97, color_space: 0 },
    ];
    let chosen = choose_surface_format(&formats);
    assert_eq!(chosen.format, 44);
}

#[test]
fn mailbox_present_mode_is_preferred() {
    let modes = vec![PRESENT_MODE_FIFO, PRESENT_MODE_MAILBOX];
    assert_eq!(choose_present_mode(&modes), PRESENT_MODE_MAILBOX);
}

#[test]
fn fifo_present_mode_is_the_fallback() {
    let modes = vec![PRESENT_MODE_FIFO, 0];
    assert_eq!(choose_present_mode(&modes), PRESENT_MODE_FIFO);
    let none: Vec<u32> = Vec::new();
    assert_eq!(choose_present_mode(&none), PRESENT_MODE_FIFO);
}

#[test]
fn reported_extent_is_used_verbatim() {
    let c = caps(2, 3, (800, 600));
    let e = choose_extent(&c, 1024, 768);
    assert_eq!((e.width, e.height), (800, 600));
}

#[test]
fn undefined_extent_clamps_the_framebuffer_size() {
    let c = caps(2, 3, (EXTENT_UNDEFINED, 600));
    let e = choose_extent(&c, 8000, 10);
    assert_eq!((e.width, e.height), (4096, 64));
    let e2 = choose_extent(&c, 1024, 768);
    assert_eq!((e2.width, e2.height), (1024, 768));
}

#[test]
fn image_count_is_min_plus_one_clamped_to_the_cap() {
    assert_eq!(swapchain_image_count(&caps(2, 3, (800, 600))), 3);
    assert_eq!(swapchain_image_count(&caps(2, 2, (800, 600))), 2);
    assert_eq!(swapchain_image_count(&caps(2, 0, (800, 600))), 3);
    assert_eq!(swapchain_image_count(&caps(1, 8, (800, 600))), 2);
}

#[test]
fn sharing_is_concurrent_exactly_when_families_differ() {
    assert_eq!(select_sharing_mode(0, 0), SharingMode::Exclusive);
    assert_eq!(select_sharing_mode(0, 2), SharingMode::Concurrent);
}

#[test]
fn logical_device_lists_each_family_once() {
    assert_eq!(unique_queue_families(1, 1), vec![1]);
    assert_eq!(unique_queue_families(0, 2), vec![0, 2]);
}

#[test]
fn plan_combines_every_negotiated_parameter() {
    let c = caps(2, 3, (800, 600));
    let formats = vec![
        SurfaceFormat { format: 44, color_space: 0 },
        SurfaceFormat { format: FORMAT_B8G8R8A8_SRGB, color_space: COLOR_SPACE_SRGB_NONLINEAR },
    ];
    let modes = vec![PRESENT_MODE_FIFO, PRESENT_MODE_MAILBOX];
    let plan = plan_swapchain(&c, &formats, &modes, 1024, 768, 0, 2);
    assert_eq!(plan.format.format, FORMAT_B8G8R8A8_SRGB);
    assert_eq!(plan.present_mode, PRESENT_MODE_MAILBOX);
    assert_eq!((plan.extent.width, plan.extent.height), (800, 600));
    assert_eq!(plan.image_count, 3);
    assert_eq!(plan.sharing, SharingMode::Concurrent);
    let chain = Swapchain::from_plan(&plan);
    assert_eq!(chain.image_count, 3);
    assert_eq!(chain.format, FORMAT_B8G8R8A8_SRGB);
}

#[test]
fn memory_type_search_takes_the_first_compatible_index() {
    let type_flags = vec![
        MEMORY_DEVICE_LOCAL,
        MEMORY_HOST_VISIBLE,
        MEMORY_HOST_VISIBLE | MEMORY_HOST_COHERENT,
        MEMORY_HOST_VISIBLE | MEMORY_HOST_COHERENT,
    ];
    let required = MEMORY_HOST_VISIBLE | MEMORY_HOST_COHERENT;
    // Every type is accepted by the resource.
    assert_eq!(find_memory_type(0b1111, required, &type_flags), Ok(2));
    // The resource rejects type 2, so the search moves on to type 3.
    assert_eq!(find_memory_type(0b1011, required, &type_flags), Ok(3));
}

#[test]
fn memory_type_search_fails_when_nothing_is_compatible() {
    let type_flags = vec![MEMORY_DEVICE_LOCAL, MEMORY_HOST_VISIBLE];
    let required = MEMORY_HOST_VISIBLE | MEMORY_HOST_COHERENT;
    assert_eq!(
        find_memory_type(0b11, required, &type_flags),
        Err(InitError::NoSuitableMemoryType)
    );
    // Compatible flags whose bit the resource masks out do not count.
    assert_eq!(
        find_memory_type(0b01, MEMORY_HOST_VISIBLE, &type_flags),
        Err(InitError::NoSuitableMemoryType)
    );
}

#[test]
fn staging_round_trip_returns_identical_bytes() {
    let payload: Vec<u8> = (0u16..257).map(|x| (x % 251) as u8).collect();
    let device_buffer = upload_via_staging(&payload);
    assert!(!device_buffer.host_visible);
    let read_back = download_via_staging(&device_buffer);
    assert_eq!(read_back, payload);
    let empty: Vec<u8> = Vec::new();
    assert_eq!(download_via_staging(&upload_via_staging(&empty)), empty);
}

#[test]
fn recorded_commands_are_the_fixed_sequence() {
    let cmds = record_frame_commands(2, Extent2D { width: 800, height: 600 }, 6);
    assert_eq!(cmds.len(), 6);
    assert_eq!(
        cmds[0],
        DrawCommand::BeginRenderPass {
            framebuffer: 2,
            origin_x: 0,
            origin_y: 0,
            extent: Extent2D { width: 800, height: 600 },
            clear: ClearColor {
                red_bits: FLOAT_BITS_ZERO,
                green_bits: FLOAT_BITS_ZERO,
                blue_bits: FLOAT_BITS_ZERO,
                alpha_bits: FLOAT_BITS_ONE,
            },
        }
    );
    assert_eq!(cmds[1], DrawCommand::BindPipeline);
    assert_eq!(cmds[2], DrawCommand::BindVertexBuffer);
    assert_eq!(cmds[3], DrawCommand::BindIndexBuffer);
    assert_eq!(cmds[4], DrawCommand::DrawIndexed { index_count: 6 });
    assert_eq!(cmds[5], DrawCommand::EndRenderPass);
}

#[test]
fn clear_value_is_opaque_black() {
    let cmds = record_frame_commands(0, Extent2D { width: 64, height: 64 }, 6);
    match cmds[0] {
        DrawCommand::BeginRenderPass { origin_x, origin_y, clear, .. } => {
            assert_eq!((origin_x, origin_y), (0, 0));
            assert_eq!(f32::from_bits(clear.red_bits), 0.0);
            assert_eq!(f32::from_bits(clear.green_bits), 0.0);
            assert_eq!(f32::from_bits(clear.blue_bits), 0.0);
            assert_eq!(f32::from_bits(clear.alpha_bits), 1.0);
        }
        _ => panic!("the first command must begin the render pass"),
    }
}

#[test]
fn one_command_buffer_is_recorded_per_swapchain_image() {
    let extent = Extent2D { width: 800, height: 600 };
    let buffers = record_all_frame_commands(3, extent, 6);
    assert_eq!(buffers.len(), 3);
    for (i, buffer) in buffers.iter().enumerate() {
        assert_eq!(buffer, &record_frame_commands(i, extent, 6));
    }
}
