use render_core::queue_families::RequiredQueueFamilies;
use render_core::vertex_buffer::{
    vertex_buffer_size, vertex_input_description, FORMAT_R32G32B32_SFLOAT, FORMAT_R32G32_SFLOAT,
};
use render_core::swapchain::{
    COLOR_SPACE_SRGB_NONLINEAR, Extent2D, FORMAT_B8G8R8A8_SRGB, FramebufferConfig,
    ImageViewConfig, PRESENT_MODE_FIFO, PRESENT_MODE_MAILBOX, RenderPassConfig, SharingMode,
    SurfaceCapabilities, SurfaceFormat, SwapchainSupport, create_frame_buffers,
    create_pipeline, create_render_pass, create_swapchain, create_swapchain_image_views,
    get_swapchain_extent, get_swapchain_image_count, get_swapchain_presentation_mode,
    get_swapchain_surface_format,
};

fn capabilities(
    min_count: u32,
    max_count: u32,
    current: (u32, u32),
    min_extent: (u32, u32),
    max_extent: (u32, u32),
) -> SurfaceCapabilities {
    SurfaceCapabilities {
        min_image_count: min_count,
        max_image_count: max_count,
        current_extent: Extent2D { width: current.0, height: current.1 },
        min_image_extent: Extent2D { width: min_extent.0, height: min_extent.1 },
        max_image_extent: Extent2D { width: max_extent.0, height: max_extent.1 },
        current_transform: 0,
    }
}

#[test]
fn extent_uses_window_size_when_surface_is_indeterminate() {
    let caps = capabilities(2, 0, (0xFFFF_FFFF, 0xFFFF_FFFF), (1, 1), (4096, 4096));
    let extent = get_swapchain_extent(Extent2D { width: 1024, height: 768 }, &caps);
    assert_eq!(extent, Extent2D { width: 1024, height: 768 });
}

#[test]
fn extent_uses_surface_report_when_determinate() {
    let caps = capabilities(2, 0, (800, 600), (1, 1), (4096, 4096));
    let extent = get_swapchain_extent(Extent2D { width: 1024, height: 768 }, &caps);
    assert_eq!(extent, Extent2D { width: 800, height: 600 });
}

#[test]
fn extent_clamps_window_size_into_surface_range() {
    let caps = capabilities(2, 0, (0xFFFF_FFFF, 0), (320, 240), (1920, 1080));
    let small = get_swapchain_extent(Extent2D { width: 16, height: 16 }, &caps);
    assert_eq!(small, Extent2D { width: 320, height: 240 });
    let large = get_swapchain_extent(Extent2D { width: 40000, height: 40000 }, &caps);
    assert_eq!(large, Extent2D { width: 1920, height: 1080 });
}

#[test]
fn image_count_is_one_more_than_minimum_when_unbounded() {
    let caps = capabilities(2, 0, (800, 600), (1, 1), (4096, 4096));
    assert_eq!(get_swapchain_image_count(&caps), 3);
}

#[test]
fn image_count_clamps_to_bounded_maximum() {
    let caps = capabilities(2, 2, (800, 600), (1, 1), (4096, 4096));
    assert_eq!(get_swapchain_image_count(&caps), 2);
}

#[test]
fn image_count_keeps_extra_image_under_loose_maximum() {
    let caps = capabilities(2, 8, (800, 600), (1, 1), (4096, 4096));
    assert_eq!(get_swapchain_image_count(&caps), 3);
}

#[test]
fn surface_format_prefers_bgra_srgb() {
    let other = SurfaceFormat { format: 44, color_space: 0 };
    let preferred = SurfaceFormat {
        format: FORMAT_B8G8R8A8_SRGB,
        color_space: COLOR_SPACE_SRGB_NONLINEAR,
    };
    assert_eq!(get_swapchain_surface_format(&vec![other, preferred]), preferred);
}

#[test]
fn surface_format_falls_back_to_first_reported() {
    let first = SurfaceFormat { format: 44, color_space: 0 };
    let second = SurfaceFormat { format: 45, color_space: 1 };
    assert_eq!(get_swapchain_surface_format(&vec![first, second]), first);
}

#[test]
fn surface_format_wants_matching_color_space() {
    let wrong_space = SurfaceFormat { format: FORMAT_B8G8R8A8_SRGB, color_space: 7 };
    assert_eq!(get_swapchain_surface_format(&vec![wrong_space]), wrong_space);
}

#[test]
fn presentation_mode_prefers_mailbox() {
    assert_eq!(
        get_swapchain_presentation_mode(&vec![PRESENT_MODE_FIFO, PRESENT_MODE_MAILBOX]),
        PRESENT_MODE_MAILBOX
    );
}

#[test]
fn presentation_mode_falls_back_to_fifo() {
    assert_eq!(get_swapchain_presentation_mode(&vec![PRESENT_MODE_FIFO, 0]), PRESENT_MODE_FIFO);
    assert_eq!(get_swapchain_presentation_mode(&Vec::new()), PRESENT_MODE_FIFO);
}

#[test]
fn create_swapchain_negotiates_all_parameters() {
    let support = SwapchainSupport {
        capabilities: capabilities(2, 0, (0xFFFF_FFFF, 0xFFFF_FFFF), (1, 1), (4096, 4096)),
        formats: vec![
            SurfaceFormat { format: 44, color_space: 3 },
            SurfaceFormat {
                format: FORMAT_B8G8R8A8_SRGB,
                color_space: COLOR_SPACE_SRGB_NONLINEAR,
            },
        ],
        present_modes: vec![PRESENT_MODE_FIFO, PRESENT_MODE_MAILBOX],
    };
    let indices = RequiredQueueFamilies { graphics_queue_index: 0, presentation_queue_index: 1 };
    let config = create_swapchain(Extent2D { width: 1024, height: 768 }, &support, &indices);
    assert_eq!(config.format, FORMAT_B8G8R8A8_SRGB);
    assert_eq!(config.color_space, COLOR_SPACE_SRGB_NONLINEAR);
    assert_eq!(config.present_mode, PRESENT_MODE_MAILBOX);
    assert_eq!(config.extent, Extent2D { width: 1024, height: 768 });
    assert_eq!(config.image_count, 3);
    assert_eq!(config.sharing_mode, SharingMode::Concurrent);
    assert_eq!(config.queue_family_indices, vec![0, 1]);
}

#[test]
fn create_swapchain_uses_exclusive_sharing_for_one_family() {
    let support = SwapchainSupport {
        capabilities: capabilities(2, 2, (800, 600), (1, 1), (4096, 4096)),
        formats: vec![SurfaceFormat { format: 44, color_space: 3 }],
        present_modes: vec![PRESENT_MODE_FIFO],
    };
    let indices = RequiredQueueFamilies { graphics_queue_index: 2, presentation_queue_index: 2 };
    let config = create_swapchain(Extent2D { width: 800, height: 600 }, &support, &indices);
    assert_eq!(config.sharing_mode, SharingMode::Exclusive);
    assert_eq!(config.queue_family_indices, Vec::<u32>::new());
    assert_eq!(config.format, 44);
    assert_eq!(config.present_mode, PRESENT_MODE_FIFO);
    assert_eq!(config.image_count, 2);
}

#[test]
fn image_views_are_planned_one_per_image() {
    let views = create_swapchain_image_views(&vec![10, 11, 12], FORMAT_B8G8R8A8_SRGB);
    assert_eq!(views.len(), 3);
    assert_eq!(
        views[1],
        ImageViewConfig {
            image: 11,
            format: FORMAT_B8G8R8A8_SRGB,
            identity_swizzle: true,
            base_mip_level: 0,
            mip_level_count: 1,
            base_array_layer: 0,
            array_layer_count: 1,
        }
    );
}

#[test]
fn framebuffers_are_planned_one_per_view_at_chain_extent() {
    let extent = Extent2D { width: 640, height: 480 };
    let framebuffers = create_frame_buffers(&vec![20, 21], 7, extent);
    assert_eq!(framebuffers.len(), 2);
    assert_eq!(
        framebuffers[0],
        FramebufferConfig { render_pass: 7, attachment: 20, width: 640, height: 480, layers: 1 }
    );
    assert_eq!(framebuffers[1].attachment, 21);
}

#[test]
fn render_pass_matches_chain_format() {
    assert_eq!(
        create_render_pass(FORMAT_B8G8R8A8_SRGB),
        RenderPassConfig {
            color_attachment_format: FORMAT_B8G8R8A8_SRGB,
            color_attachment_count: 1
        }
    );
}

#[test]
fn vertex_layout_packs_position_then_color() {
    let layout = vertex_input_description();
    assert_eq!(layout.binding, 0);
    assert_eq!(layout.stride, 20);
    assert_eq!(layout.position.location, 0);
    assert_eq!(layout.position.offset, 0);
    assert_eq!(layout.position.format, FORMAT_R32G32_SFLOAT);
    assert_eq!(layout.color.location, 1);
    assert_eq!(layout.color.offset, 8);
    assert_eq!(layout.color.format, FORMAT_R32G32B32_SFLOAT);
}

#[test]
fn vertex_buffer_size_scales_with_the_count() {
    assert_eq!(vertex_buffer_size(0), 0);
    assert_eq!(vertex_buffer_size(3), 60);
    assert_eq!(vertex_buffer_size(u32::MAX), u32::MAX as u64 * 20);
}

#[test]
fn pipeline_viewport_and_scissor_match_chain_extent() {
    let extent = Extent2D { width: 1024, height: 768 };
    let config = create_pipeline(extent, 9);
    assert_eq!(config.viewport_extent, extent);
    assert_eq!(config.scissor_extent, extent);
    assert_eq!(config.render_pass, 9);
}
