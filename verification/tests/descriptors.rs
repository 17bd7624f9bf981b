//! The small descriptor constructors and their defaults.

use cranberries_backend::image::{ImageDesc, ImageType, ImageViewDesc};
use cranberries_backend::shader::{PipelineShaderDesc, RasterPipelineDesc, ShaderPipelineStage};
use cranberries_backend::swapchain::SwapchainDesc;
use cranberries_backend::vk::{ASPECT_COLOR, FORMAT_B8G8R8A8_SRGB, TILING_OPTIMAL, VIEW_KIND_1D};

#[test]
fn pipeline_shader_desc_starts_empty() {
    let desc = PipelineShaderDesc::new(ShaderPipelineStage::Vertex);
    assert_eq!(desc.stage, ShaderPipelineStage::Vertex);
    assert_eq!(desc.push_constants_bytes, 0);
    assert_eq!(desc.entry, "");
    assert_ne!(ShaderPipelineStage::Vertex, ShaderPipelineStage::Pixel);
}

#[test]
fn raster_pipeline_desc_defaults_to_cull_and_depth_write() {
    let desc = RasterPipelineDesc::new();
    assert_eq!(desc.render_pass, 0);
    assert!(desc.face_cull);
    assert!(desc.depth_write);
    assert_eq!(desc.push_constants_bytes, 0);
}

#[test]
fn image_desc_create_fills_the_common_fields() {
    let desc = ImageDesc::create(FORMAT_B8G8R8A8_SRGB, ImageType::Tex2d, [800, 600, 0]);
    assert_eq!(desc.format, FORMAT_B8G8R8A8_SRGB);
    assert_eq!(desc.image_type, ImageType::Tex2d);
    assert_eq!(desc.extent, [800, 600, 0]);
    assert_eq!(desc.usage, 0);
    assert_eq!(desc.flags, 0);
    assert_eq!(desc.tiling, TILING_OPTIMAL);
    assert_eq!(desc.mip_levels, 1);
    assert_eq!(desc.array_elements, 1);
}

#[test]
fn image_view_desc_default_is_a_single_mip_color_view() {
    let desc = ImageViewDesc::default();
    assert_eq!(desc.view_type, Some(VIEW_KIND_1D));
    assert_eq!(desc.format, Some(0));
    assert_eq!(desc.aspect_mask, ASPECT_COLOR);
    assert_eq!(desc.base_mip_level, 0);
    assert_eq!(desc.level_count, Some(1));
}

#[test]
fn swapchain_desc_default_is_zeroed() {
    let desc = SwapchainDesc::default();
    assert_eq!(desc.format.format, 0);
    assert_eq!(desc.format.color_space, 0);
    assert_eq!(desc.dims.width, 0);
    assert_eq!(desc.dims.height, 0);
    assert!(!desc.vsync);
}
