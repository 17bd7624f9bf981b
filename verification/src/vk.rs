//! Plain-value model of the graphics-API descriptors and flag words that the
//! backend's decisions are stated over. Native object handles are carried as
//! opaque `u64` values; flag sets are `u32` bit masks with the API's bit
//! assignments, so the unverified driver converts by value, one for one.

use vstd::prelude::*;

verus! {

// Surface / pixel formats (the numeric values of the graphics API).
pub const FORMAT_UNDEFINED: u32 = 0;
pub const FORMAT_R8G8B8A8_SRGB: u32 = 43;
pub const FORMAT_B8G8R8A8_UNORM: u32 = 44;
pub const FORMAT_B8G8R8A8_SRGB: u32 = 50;
pub const FORMAT_D32_SFLOAT: u32 = 126;
pub const FORMAT_D24_UNORM_S8_UINT: u32 = 129;
pub const FORMAT_D32_SFLOAT_S8_UINT: u32 = 130;

// Color spaces.
pub const COLOR_SPACE_SRGB_NONLINEAR: u32 = 0;

// Present modes.
pub const PRESENT_MODE_IMMEDIATE: u32 = 0;
pub const PRESENT_MODE_MAILBOX: u32 = 1;
pub const PRESENT_MODE_FIFO: u32 = 2;

// Queue capability bits.
pub const QUEUE_GRAPHICS: u32 = 0x1;

// Image usage bits.
pub const IMAGE_USAGE_TRANSFER_SRC: u32 = 0x1;
pub const IMAGE_USAGE_TRANSFER_DST: u32 = 0x2;
pub const IMAGE_USAGE_SAMPLED: u32 = 0x4;
pub const IMAGE_USAGE_STORAGE: u32 = 0x8;
pub const IMAGE_USAGE_COLOR_ATTACHMENT: u32 = 0x10;
pub const IMAGE_USAGE_DEPTH_STENCIL_ATTACHMENT: u32 = 0x20;

// Buffer usage bits.
pub const BUFFER_USAGE_TRANSFER_SRC: u32 = 0x1;
pub const BUFFER_USAGE_TRANSFER_DST: u32 = 0x2;
pub const BUFFER_USAGE_UNIFORM: u32 = 0x10;
pub const BUFFER_USAGE_INDEX: u32 = 0x40;
pub const BUFFER_USAGE_VERTEX: u32 = 0x80;
pub const BUFFER_USAGE_SHADER_BINDING_TABLE: u32 = 0x400;

// Memory property bits.
pub const MEMORY_DEVICE_LOCAL: u32 = 0x1;
pub const MEMORY_HOST_VISIBLE: u32 = 0x2;
pub const MEMORY_HOST_COHERENT: u32 = 0x4;

// Format feature bits.
pub const FORMAT_FEATURE_DEPTH_STENCIL_ATTACHMENT: u32 = 0x200;

// Image tiling.
pub const TILING_OPTIMAL: u32 = 0;
pub const TILING_LINEAR: u32 = 1;

// Sharing modes for resources used by several queue families.
pub const SHARING_EXCLUSIVE: u32 = 0;
pub const SHARING_CONCURRENT: u32 = 1;

// Image layouts.
pub const LAYOUT_UNDEFINED: u32 = 0;
pub const LAYOUT_COLOR_ATTACHMENT_OPTIMAL: u32 = 2;
pub const LAYOUT_DEPTH_STENCIL_ATTACHMENT_OPTIMAL: u32 = 3;
pub const LAYOUT_SHADER_READ_ONLY_OPTIMAL: u32 = 5;
pub const LAYOUT_TRANSFER_DST_OPTIMAL: u32 = 7;
pub const LAYOUT_PREINITIALIZED: u32 = 8;
pub const LAYOUT_PRESENT_SRC: u32 = 1000001002;

// Access mask bits.
pub const ACCESS_SHADER_READ: u32 = 0x20;
pub const ACCESS_COLOR_ATTACHMENT_READ: u32 = 0x80;
pub const ACCESS_COLOR_ATTACHMENT_WRITE: u32 = 0x100;
pub const ACCESS_TRANSFER_WRITE: u32 = 0x1000;

// Pipeline stage bits.
pub const STAGE_TOP_OF_PIPE: u32 = 0x1;
pub const STAGE_FRAGMENT_SHADER: u32 = 0x80;
pub const STAGE_COLOR_ATTACHMENT_OUTPUT: u32 = 0x400;
pub const STAGE_TRANSFER: u32 = 0x1000;

// Attachment load and store operations.
pub const LOAD_OP_LOAD: u32 = 0;
pub const LOAD_OP_CLEAR: u32 = 1;
pub const LOAD_OP_DONT_CARE: u32 = 2;
pub const STORE_OP_STORE: u32 = 0;
pub const STORE_OP_DONT_CARE: u32 = 1;

// Sample counts.
pub const SAMPLE_COUNT_1: u32 = 1;

// Image dimensionalities and view dimensionalities.
pub const IMAGE_KIND_1D: u32 = 0;
pub const IMAGE_KIND_2D: u32 = 1;
pub const IMAGE_KIND_3D: u32 = 2;
pub const VIEW_KIND_1D: u32 = 0;
pub const VIEW_KIND_2D: u32 = 1;
pub const VIEW_KIND_3D: u32 = 2;
pub const VIEW_KIND_CUBE: u32 = 3;
pub const VIEW_KIND_1D_ARRAY: u32 = 4;
pub const VIEW_KIND_2D_ARRAY: u32 = 5;
pub const VIEW_KIND_CUBE_ARRAY: u32 = 6;

// Image aspect bits.
pub const ASPECT_COLOR: u32 = 0x1;
pub const ASPECT_DEPTH: u32 = 0x2;

/// The surface reports this sentinel width when the current extent is
/// undefined and the application may choose its own within the limits.
pub const EXTENT_UNDEFINED: u32 = 0xFFFF_FFFF;

/// A two-dimensional pixel size.
#[derive(Clone, Copy, Debug, PartialEq, Eq, Structural)]
pub struct Extent2D {
    pub width: u32,
    pub height: u32,
}

/// A three-dimensional pixel size.
#[derive(Clone, Copy, Debug, PartialEq, Eq, Structural)]
pub struct Extent3D {
    pub width: u32,
    pub height: u32,
    pub depth: u32,
}

/// A presentable pixel format together with its color space.
#[derive(Clone, Copy, Debug, PartialEq, Eq, Structural)]
pub struct SurfaceFormat {
    pub format: u32,
    pub color_space: u32,
}

/// What the surface reports about the swapchains it can host.
#[derive(Clone, Copy, Debug, PartialEq, Eq, Structural)]
pub struct SurfaceCapabilities {
    pub min_image_count: u32,
    /// Zero means "no upper limit".
    pub max_image_count: u32,
    pub current_extent: Extent2D,
    pub min_image_extent: Extent2D,
    pub max_image_extent: Extent2D,
    pub current_transform: u32,
}

/// Per-format capabilities of the adapter, one feature mask per tiling mode.
#[derive(Clone, Copy, Debug, PartialEq, Eq, Structural)]
pub struct FormatProperties {
    pub linear_tiling_features: u32,
    pub optimal_tiling_features: u32,
}

/// What the device demands of a resource's backing memory.
#[derive(Clone, Copy, Debug, PartialEq, Eq, Structural)]
pub struct MemoryRequirements {
    pub size: u64,
    pub alignment: u64,
    /// Bit i is set when memory type i may back the resource.
    pub memory_type_bits: u32,
}

/// One attachment of a render pass, fully described.
#[derive(Clone, Copy, Debug, PartialEq, Eq, Structural)]
pub struct AttachmentDescription {
    pub format: u32,
    pub samples: u32,
    pub load_op: u32,
    pub store_op: u32,
    pub stencil_load_op: u32,
    pub initial_layout: u32,
    pub final_layout: u32,
}

/// `sub` is a subset of the flag set `sup`: every bit of `sub` is in `sup`.
pub open spec fn flags_contain(sup: u32, sub: u32) -> bool {
    sup & sub == sub
}

} // verus!
