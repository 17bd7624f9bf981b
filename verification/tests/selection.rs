//! The selection policies: surface format, present mode, extent, image
//! count, depth format, and memory types.

use cranberries_backend::image::{
    find_memory_type, get_image_create_info, select_depth_format, texture_upload_plan, ImageDesc,
    ImageType,
};
use cranberries_backend::swapchain::{
    choose_swapchain_extent, choose_swapchain_format, choose_swapchain_present_mode,
    plan_swapchain, select_sharing_mode, swapchain_image_count, SwapChainSupportDetail,
};
use cranberries_backend::physical_device::QueueFamilyIndices;
use cranberries_backend::vk::{
    Extent2D, FormatProperties, SurfaceCapabilities, SurfaceFormat, COLOR_SPACE_SRGB_NONLINEAR,
    EXTENT_UNDEFINED, FORMAT_B8G8R8A8_SRGB, FORMAT_B8G8R8A8_UNORM, FORMAT_D24_UNORM_S8_UINT,
    FORMAT_D32_SFLOAT, FORMAT_D32_SFLOAT_S8_UINT, FORMAT_FEATURE_DEPTH_STENCIL_ATTACHMENT,
    FORMAT_R8G8B8A8_SRGB, IMAGE_USAGE_COLOR_ATTACHMENT, IMAGE_USAGE_SAMPLED,
    IMAGE_USAGE_TRANSFER_DST, MEMORY_DEVICE_LOCAL, MEMORY_HOST_COHERENT, MEMORY_HOST_VISIBLE,
    PRESENT_MODE_FIFO, PRESENT_MODE_IMMEDIATE, PRESENT_MODE_MAILBOX, SHARING_CONCURRENT,
    SHARING_EXCLUSIVE, TILING_LINEAR, TILING_OPTIMAL,
};

fn caps(
    min_count: u32,
    max_count: u32,
    current: (u32, u32),
    min_extent: (u32, u32),
    max_extent: (u32, u32),
) -> SurfaceCapabilities {
    SurfaceCapabilities {
        min_image_count: min_count,
        max_image_count: max_count,
        current_extent: Extent2D { width: current.0, height: current.1 },
        min_image_extent: Extent2D { width: min_extent.0, height: min_extent.1 },
        max_image_extent: Extent2D { width: max_extent.0, height: max_extent.1 },
        current_transform: 1,
    }
}

#[test]
fn format_prefers_bgra_srgb() {
    let formats = vec![
        SurfaceFormat { format: FORMAT_B8G8R8A8_UNORM, color_space: COLOR_SPACE_SRGB_NONLINEAR },
        SurfaceFormat { format: FORMAT_B8G8R8A8_SRGB, color_space: COLOR_SPACE_SRGB_NONLINEAR },
    ];
    let chosen = choose_swapchain_format(&formats);
    assert_eq!(chosen.format, FORMAT_B8G8R8A8_SRGB);
    assert_eq!(chosen.color_space, COLOR_SPACE_SRGB_NONLINEAR);
}

#[test]
fn format_falls_back_to_first() {
    let formats = vec![
        SurfaceFormat { format: FORMAT_R8G8B8A8_SRGB, color_space: 7 },
        SurfaceFormat { format: FORMAT_B8G8R8A8_SRGB, color_space: 9 },
    ];
    let chosen = choose_swapchain_format(&formats);
    assert_eq!(chosen, formats[0]);
}

#[test]
fn present_mode_prefers_mailbox() {
    let modes = vec![PRESENT_MODE_IMMEDIATE, PRESENT_MODE_MAILBOX, PRESENT_MODE_FIFO];
    assert_eq!(choose_swapchain_present_mode(&modes), PRESENT_MODE_MAILBOX);
}

#[test]
fn present_mode_falls_back_to_fifo() {
    let modes = vec![PRESENT_MODE_IMMEDIATE];
    assert_eq!(choose_swapchain_present_mode(&modes), PRESENT_MODE_FIFO);
    let empty: Vec<u32> = Vec::new();
    assert_eq!(choose_swapchain_present_mode(&empty), PRESENT_MODE_FIFO);
}

#[test]
fn extent_passes_defined_current_extent_through() {
    let c = caps(2, 0, (800, 600), (64, 64), (4096, 4096));
    let e = choose_swapchain_extent(&c, Extent2D { width: 1920, height: 1080 });
    assert_eq!(e, Extent2D { width: 800, height: 600 });
}

#[test]
fn extent_within_bounds_is_passthrough() {
    let c = caps(2, 0, (EXTENT_UNDEFINED, 123), (64, 64), (4096, 4096));
    let e = choose_swapchain_extent(&c, Extent2D { width: 1920, height: 1080 });
    assert_eq!(e, Extent2D { width: 1920, height: 1080 });
}

#[test]
fn extent_above_max_is_clamped_to_max() {
    let c = caps(2, 0, (EXTENT_UNDEFINED, 0), (64, 64), (4096, 4096));
    let e = choose_swapchain_extent(&c, Extent2D { width: 5000, height: 1080 });
    assert_eq!(e, Extent2D { width: 4096, height: 1080 });
}

#[test]
fn extent_below_min_is_clamped_to_min() {
    let c = caps(2, 0, (EXTENT_UNDEFINED, 0), (64, 64), (4096, 4096));
    let e = choose_swapchain_extent(&c, Extent2D { width: 16, height: 16 });
    assert_eq!(e, Extent2D { width: 64, height: 64 });
}

#[test]
fn image_count_is_min_plus_one_capped_by_max() {
    assert_eq!(swapchain_image_count(&caps(2, 0, (1, 1), (1, 1), (1, 1))), 3);
    assert_eq!(swapchain_image_count(&caps(2, 3, (1, 1), (1, 1), (1, 1))), 3);
    assert_eq!(swapchain_image_count(&caps(3, 3, (1, 1), (1, 1), (1, 1))), 3);
}

#[test]
fn sharing_mode_exclusive_when_one_family() {
    let qf = QueueFamilyIndices { graphics_family: Some(0), present_family: Some(0) };
    let plan = select_sharing_mode(&qf);
    assert_eq!(plan.mode, SHARING_EXCLUSIVE);
    assert!(plan.queue_family_indices.is_empty());
}

#[test]
fn sharing_mode_concurrent_when_families_differ() {
    let qf = QueueFamilyIndices { graphics_family: Some(0), present_family: Some(2) };
    let plan = select_sharing_mode(&qf);
    assert_eq!(plan.mode, SHARING_CONCURRENT);
    assert_eq!(plan.queue_family_indices, vec![0, 2]);
}

#[test]
fn swapchain_plan_combines_all_policies() {
    let support = SwapChainSupportDetail {
        capabilities: caps(2, 4, (EXTENT_UNDEFINED, 0), (64, 64), (4096, 4096)),
        formats: vec![SurfaceFormat {
            format: FORMAT_B8G8R8A8_SRGB,
            color_space: COLOR_SPACE_SRGB_NONLINEAR,
        }],
        present_modes: vec![PRESENT_MODE_FIFO],
    };
    let qf = QueueFamilyIndices { graphics_family: Some(1), present_family: Some(1) };
    let plan = plan_swapchain(&support, Extent2D { width: 1920, height: 1080 }, &qf);
    assert_eq!(plan.surface_format.format, FORMAT_B8G8R8A8_SRGB);
    assert_eq!(plan.present_mode, PRESENT_MODE_FIFO);
    assert_eq!(plan.extent, Extent2D { width: 1920, height: 1080 });
    assert_eq!(plan.min_image_count, 3);
    assert_eq!(plan.image_usage, IMAGE_USAGE_COLOR_ATTACHMENT);
    assert_eq!(plan.pre_transform, 1);
    assert!(plan.clipped);
    assert_eq!(plan.image_array_layers, 1);
    assert_eq!(plan.sharing.mode, SHARING_EXCLUSIVE);
}

#[test]
fn depth_format_takes_first_supported_candidate() {
    let candidates = vec![FORMAT_D32_SFLOAT, FORMAT_D32_SFLOAT_S8_UINT, FORMAT_D24_UNORM_S8_UINT];
    let properties = vec![
        FormatProperties { linear_tiling_features: 0, optimal_tiling_features: 0 },
        FormatProperties {
            linear_tiling_features: 0,
            optimal_tiling_features: FORMAT_FEATURE_DEPTH_STENCIL_ATTACHMENT,
        },
        FormatProperties { linear_tiling_features: 0, optimal_tiling_features: 0 },
    ];
    assert_eq!(
        select_depth_format(&candidates, &properties, TILING_OPTIMAL),
        Some(FORMAT_D32_SFLOAT_S8_UINT)
    );
}

#[test]
fn depth_format_respects_tiling_and_can_fail() {
    let candidates = vec![FORMAT_D32_SFLOAT];
    let properties = vec![FormatProperties {
        linear_tiling_features: FORMAT_FEATURE_DEPTH_STENCIL_ATTACHMENT,
        optimal_tiling_features: 0,
    }];
    assert_eq!(
        select_depth_format(&candidates, &properties, TILING_LINEAR),
        Some(FORMAT_D32_SFLOAT)
    );
    assert_eq!(select_depth_format(&candidates, &properties, TILING_OPTIMAL), None);
}

#[test]
fn memory_type_needs_filter_bit_and_flag_superset() {
    let flags = vec![
        MEMORY_DEVICE_LOCAL,
        MEMORY_HOST_VISIBLE,
        MEMORY_HOST_VISIBLE | MEMORY_HOST_COHERENT,
    ];
    // Type 0 is filtered out by the resource; type 1 lacks coherence.
    assert_eq!(
        find_memory_type(0b110, MEMORY_HOST_VISIBLE | MEMORY_HOST_COHERENT, &flags),
        Some(2)
    );
    // The first qualifying index wins.
    assert_eq!(find_memory_type(0b111, MEMORY_HOST_VISIBLE, &flags), Some(1));
    // No qualifying type: the selection fails rather than guessing.
    assert_eq!(find_memory_type(0b001, MEMORY_HOST_VISIBLE, &flags), None);
    assert_eq!(find_memory_type(0, MEMORY_DEVICE_LOCAL, &flags), None);
}

#[test]
fn image_create_info_for_cube_array() {
    let mut desc = ImageDesc::create(FORMAT_R8G8B8A8_SRGB, ImageType::CubeArray, [32, 32, 0]);
    desc.array_elements = 3;
    let info = get_image_create_info(&desc, false);
    assert_eq!(info.array_layers, 18);
    assert_eq!(info.extent.width, 32);
    assert_eq!(info.extent.height, 32);
    assert_eq!(info.extent.depth, 1);
    assert_eq!(info.usage, 0);
}

#[test]
fn image_create_info_with_initial_data() {
    let mut desc = ImageDesc::create(FORMAT_R8G8B8A8_SRGB, ImageType::Tex2d, [640, 480, 0]);
    desc.usage = IMAGE_USAGE_SAMPLED;
    let info = get_image_create_info(&desc, true);
    assert_eq!(info.usage, IMAGE_USAGE_SAMPLED | IMAGE_USAGE_TRANSFER_DST);
    assert_eq!(info.mip_levels, 1);
}

#[test]
fn texture_plan_is_four_bytes_per_pixel() {
    let plan = texture_upload_plan(640, 480).unwrap();
    assert_eq!(plan.size, 640 * 480 * 4);
    assert_eq!(plan.image_desc.format, FORMAT_R8G8B8A8_SRGB);
    assert_eq!(plan.image_desc.usage, IMAGE_USAGE_TRANSFER_DST | IMAGE_USAGE_SAMPLED);
    assert_eq!(plan.image_desc.extent, [640, 480, 1]);
    assert!(texture_upload_plan(0, 480).is_none());
    assert!(texture_upload_plan(640, 0).is_none());
}
