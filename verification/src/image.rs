//! Image descriptors and the decisions around them: view-description
//! derivation, layout-transition barriers, memory-type selection, depth
//! format probing, and the image-creation descriptor.

use vstd::prelude::*;

use crate::buffer::{plan_buffer_allocation, AllocationError, AllocationPlan, BufferDesc};
use crate::vk::{
    MemoryRequirements, FORMAT_R8G8B8A8_SRGB, IMAGE_USAGE_SAMPLED,
    flags_contain, Extent3D, FormatProperties, ASPECT_COLOR, ASPECT_DEPTH,
    FORMAT_FEATURE_DEPTH_STENCIL_ATTACHMENT, FORMAT_D32_SFLOAT, IMAGE_KIND_1D, IMAGE_KIND_2D,
    IMAGE_KIND_3D, IMAGE_USAGE_TRANSFER_DST, LAYOUT_PREINITIALIZED, LAYOUT_SHADER_READ_ONLY_OPTIMAL,
    LAYOUT_TRANSFER_DST_OPTIMAL, LAYOUT_UNDEFINED, ACCESS_SHADER_READ, ACCESS_TRANSFER_WRITE,
    SAMPLE_COUNT_1, SHARING_EXCLUSIVE, STAGE_FRAGMENT_SHADER, STAGE_TOP_OF_PIPE, STAGE_TRANSFER,
    TILING_LINEAR, TILING_OPTIMAL, VIEW_KIND_1D,
};

verus! {

/// The dimensionality and arrayness of an image.
#[derive(Clone, Copy, Debug, Hash, PartialEq, Eq, Structural)]
pub enum ImageType {
    Tex1d,
    Tex1dArray,
    Tex2d,
    Tex2dArray,
    Tex3d,
    Cube,
    CubeArray,
}

/// Everything an image is created from.
#[derive(Clone, Copy, Debug, PartialEq, Eq)]
pub struct ImageDesc {
    pub image_type: ImageType,
    pub usage: u32,
    pub flags: u32,
    pub format: u32,
    pub extent: [u32; 3],
    pub tiling: u32,
    pub mip_levels: u16,
    pub array_elements: u32,
}

impl ImageDesc {
    /// A one-mip, one-element, optimally tiled image of the given format,
    /// kind and extent, with no usage chosen yet.
    pub fn create(format: u32, image_type: ImageType, extent: [u32; 3]) -> (r: ImageDesc)
        ensures
            r.image_type == image_type,
            r.usage == 0u32,
            r.flags == 0u32,
            r.format == format,
            r.extent@ == extent@,
            r.tiling == TILING_OPTIMAL,
            r.mip_levels == 1u16,
            r.array_elements == 1u32,
    {
        ImageDesc {
            image_type,
            usage: 0,
            flags: 0,
            format,
            extent,
            tiling: TILING_OPTIMAL,
            mip_levels: 1,
            array_elements: 1,
        }
    }
}

/// How a view reads an image; unset fields fall back to the image's own.
#[derive(Clone, Copy, Debug, PartialEq, Eq)]
pub struct ImageViewDesc {
    pub view_type: Option<u32>,
    pub format: Option<u32>,
    pub aspect_mask: u32,
    pub base_mip_level: u32,
    pub level_count: Option<u32>,
}

impl Default for ImageViewDesc {
    /// A single-mip color view with the API's zero dimensionality and its
    /// undefined format, to be overridden field by field.
    fn default() -> (r: ImageViewDesc)
        ensures
            r.view_type == Some(VIEW_KIND_1D),
            r.format == Some(0u32),
            r.aspect_mask == ASPECT_COLOR,
            r.base_mip_level == 0u32,
            r.level_count == Some(1u32),
    {
        ImageViewDesc {
            view_type: Some(VIEW_KIND_1D),
            format: Some(0),
            aspect_mask: ASPECT_COLOR,
            base_mip_level: 0,
            level_count: Some(1),
        }
    }
}

/// Everything the driver needs to create an image view.
#[derive(Clone, Copy, Debug, PartialEq, Eq)]
pub struct ImageViewCreateInfo {
    pub image: u64,
    pub view_type: u32,
    pub format: u32,
    pub aspect_mask: u32,
    pub base_mip_level: u32,
    pub level_count: u32,
    pub base_array_layer: u32,
    pub layer_count: u32,
}

/// How many array layers a view of this image binds: the six cube faces for
/// cube images, one layer otherwise.
pub open spec fn spec_view_layer_count(image_type: ImageType) -> u32 {
    match image_type {
        ImageType::Cube | ImageType::CubeArray => 6u32,
        _ => 1u32,
    }
}

/// Derive the full view description from a partial one and the image it
/// views: unset format and level count fall back to the image's own.
pub fn view_desc_impl(desc: ImageViewDesc, image_desc: &ImageDesc, image_raw: u64) -> (r:
    ImageViewCreateInfo)
    requires
        desc.view_type is Some,
    ensures
        r.image == image_raw,
        r.view_type == desc.view_type->0,
        r.format == (if desc.format is Some {
            desc.format->0
        } else {
            image_desc.format
        }),
        r.aspect_mask == desc.aspect_mask,
        r.base_mip_level == desc.base_mip_level,
        r.level_count == (if desc.level_count is Some {
            desc.level_count->0
        } else {
            image_desc.mip_levels as u32
        }),
        r.base_array_layer == 0u32,
        r.layer_count == spec_view_layer_count(image_desc.image_type),
{
    let format = match desc.format {
        Some(f) => f,
        None => image_desc.format,
    };
    let level_count = match desc.level_count {
        Some(c) => c,
        None => image_desc.mip_levels as u32,
    };
    let layer_count: u32 = match image_desc.image_type {
        ImageType::Cube | ImageType::CubeArray => 6,
        _ => 1,
    };
    ImageViewCreateInfo {
        image: image_raw,
        view_type: desc.view_type.unwrap(),
        format,
        aspect_mask: desc.aspect_mask,
        base_mip_level: desc.base_mip_level,
        level_count,
        base_array_layer: 0,
        layer_count,
    }
}

/// Why a view description was rejected.
#[derive(Debug)]
pub enum ImageViewError {
    /// A depth-only format was viewed without the depth aspect.
    DepthAspectMissing,
}

/// Validate and derive the view description the driver will create from.
/// Rejects exactly the case the device would: a depth-only image viewed
/// without the depth aspect.
pub fn create_image_view_info(
    desc: ImageViewDesc,
    image_desc: &ImageDesc,
    image_raw: u64,
) -> (r: Result<ImageViewCreateInfo, ImageViewError>)
    requires
        desc.view_type is Some,
    ensures
        r is Err <==> (image_desc.format == FORMAT_D32_SFLOAT && !flags_contain(
            desc.aspect_mask,
            ASPECT_DEPTH,
        )),
        r matches Ok(info) ==> {
            &&& info.image == image_raw
            &&& info.view_type == desc.view_type->0
            &&& info.format == (if desc.format is Some {
                desc.format->0
            } else {
                image_desc.format
            })
            &&& info.aspect_mask == desc.aspect_mask
            &&& info.base_mip_level == desc.base_mip_level
            &&& info.level_count == (if desc.level_count is Some {
                desc.level_count->0
            } else {
                image_desc.mip_levels as u32
            })
            &&& info.base_array_layer == 0u32
            &&& info.layer_count == spec_view_layer_count(image_desc.image_type)
        },
{
    if image_desc.format == FORMAT_D32_SFLOAT && !(desc.aspect_mask & ASPECT_DEPTH
        == ASPECT_DEPTH) {
        return Err(ImageViewError::DepthAspectMissing);
    }
    Ok(view_desc_impl(desc, image_desc, image_raw))
}

/// Everything the driver needs to create an image.
#[derive(Clone, Copy, Debug, PartialEq, Eq)]
pub struct ImageCreateInfo {
    pub flags: u32,
    pub image_kind: u32,
    pub format: u32,
    pub extent: Extent3D,
    pub mip_levels: u32,
    pub array_layers: u32,
    pub samples: u32,
    pub tiling: u32,
    pub usage: u32,
    pub sharing_mode: u32,
    pub initial_layout: u32,
}

/// The API dimensionality for each image kind.
pub open spec fn spec_image_kind(t: ImageType) -> u32 {
    match t {
        ImageType::Tex1d | ImageType::Tex1dArray => IMAGE_KIND_1D,
        ImageType::Tex3d => IMAGE_KIND_3D,
        _ => IMAGE_KIND_2D,
    }
}

/// The creation extent: trailing dimensions a kind does not have are one.
pub open spec fn spec_image_extent(desc: ImageDesc) -> Extent3D {
    match desc.image_type {
        ImageType::Tex1d | ImageType::Tex1dArray => Extent3D {
            width: desc.extent@[0],
            height: 1u32,
            depth: 1u32,
        },
        ImageType::Tex3d => Extent3D {
            width: desc.extent@[0],
            height: desc.extent@[1],
            depth: desc.extent@[2],
        },
        _ => Extent3D { width: desc.extent@[0], height: desc.extent@[1], depth: 1u32 },
    }
}

/// How many array layers the image is created with: the element count for
/// array kinds, six faces per element for cubes, one otherwise.
pub open spec fn spec_image_layers(desc: ImageDesc) -> int {
    match desc.image_type {
        ImageType::Tex1dArray | ImageType::Tex2dArray => desc.array_elements as int,
        ImageType::Cube => 6,
        ImageType::CubeArray => 6 * desc.array_elements as int,
        _ => 1,
    }
}

/// Derive the full image-creation descriptor: kind, extent and layer count
/// follow the image type; initial data forces transfer-destination usage
/// and a preinitialized layout.
pub fn get_image_create_info(desc: &ImageDesc, initial_data: bool) -> (r: ImageCreateInfo)
    requires
        desc.array_elements <= u32::MAX / 6,
    ensures
        r.flags == desc.flags,
        r.image_kind == spec_image_kind(desc.image_type),
        r.format == desc.format,
        r.extent == spec_image_extent(*desc),
        r.mip_levels == desc.mip_levels as u32,
        r.array_layers == spec_image_layers(*desc),
        r.samples == SAMPLE_COUNT_1,
        r.tiling == desc.tiling,
        r.usage == (if initial_data {
            desc.usage | IMAGE_USAGE_TRANSFER_DST
        } else {
            desc.usage
        }),
        r.sharing_mode == SHARING_EXCLUSIVE,
        r.initial_layout == (if initial_data {
            LAYOUT_PREINITIALIZED
        } else {
            LAYOUT_UNDEFINED
        }),
{
    let (image_kind, extent, layers): (u32, Extent3D, u32) = match desc.image_type {
        ImageType::Tex1d => (
            IMAGE_KIND_1D,
            Extent3D { width: desc.extent[0], height: 1, depth: 1 },
            1,
        ),
        ImageType::Tex1dArray => (
            IMAGE_KIND_1D,
            Extent3D { width: desc.extent[0], height: 1, depth: 1 },
            desc.array_elements,
        ),
        ImageType::Tex2d => (
            IMAGE_KIND_2D,
            Extent3D { width: desc.extent[0], height: desc.extent[1], depth: 1 },
            1,
        ),
        ImageType::Tex2dArray => (
            IMAGE_KIND_2D,
            Extent3D { width: desc.extent[0], height: desc.extent[1], depth: 1 },
            desc.array_elements,
        ),
        ImageType::Tex3d => (
            IMAGE_KIND_3D,
            Extent3D { width: desc.extent[0], height: desc.extent[1], depth: desc.extent[2] },
            1,
        ),
        ImageType::Cube => (
            IMAGE_KIND_2D,
            Extent3D { width: desc.extent[0], height: desc.extent[1], depth: 1 },
            6,
        ),
        ImageType::CubeArray => (
            IMAGE_KIND_2D,
            Extent3D { width: desc.extent[0], height: desc.extent[1], depth: 1 },
            6 * desc.array_elements,
        ),
    };
    let usage = if initial_data {
        desc.usage | IMAGE_USAGE_TRANSFER_DST
    } else {
        desc.usage
    };
    ImageCreateInfo {
        flags: desc.flags,
        image_kind,
        format: desc.format,
        extent,
        mip_levels: desc.mip_levels as u32,
        array_layers: layers,
        samples: SAMPLE_COUNT_1,
        tiling: desc.tiling,
        usage,
        sharing_mode: SHARING_EXCLUSIVE,
        initial_layout: if initial_data {
            LAYOUT_PREINITIALIZED
        } else {
            LAYOUT_UNDEFINED
        },
    }
}

/// The access masks and pipeline stages of a supported layout transition.
#[derive(Clone, Copy, Debug, PartialEq, Eq, Structural)]
pub struct TransitionMasks {
    pub src_access_mask: u32,
    pub dst_access_mask: u32,
    pub source_stage: u32,
    pub destination_stage: u32,
}

/// The barrier configuration for a layout transition: the upload path
/// supports exactly undefined-to-transfer-destination and
/// transfer-destination-to-shader-read; anything else is rejected rather
/// than guessed.
pub fn transition_masks(old_layout: u32, new_layout: u32) -> (r: Option<TransitionMasks>)
    ensures
        (old_layout == LAYOUT_UNDEFINED && new_layout == LAYOUT_TRANSFER_DST_OPTIMAL) ==> (r
            matches Some(m) && m == (TransitionMasks {
            src_access_mask: 0u32,
            dst_access_mask: ACCESS_TRANSFER_WRITE,
            source_stage: STAGE_TOP_OF_PIPE,
            destination_stage: STAGE_TRANSFER,
        })),
        (old_layout == LAYOUT_TRANSFER_DST_OPTIMAL && new_layout
            == LAYOUT_SHADER_READ_ONLY_OPTIMAL) ==> (r matches Some(m) && m == (TransitionMasks {
            src_access_mask: ACCESS_TRANSFER_WRITE,
            dst_access_mask: ACCESS_SHADER_READ,
            source_stage: STAGE_TRANSFER,
            destination_stage: STAGE_FRAGMENT_SHADER,
        })),
        !((old_layout == LAYOUT_UNDEFINED && new_layout == LAYOUT_TRANSFER_DST_OPTIMAL) || (
        old_layout == LAYOUT_TRANSFER_DST_OPTIMAL && new_layout
            == LAYOUT_SHADER_READ_ONLY_OPTIMAL)) ==> r is None,
{
    if old_layout == LAYOUT_UNDEFINED && new_layout == LAYOUT_TRANSFER_DST_OPTIMAL {
        Some(
            TransitionMasks {
                src_access_mask: 0,
                dst_access_mask: ACCESS_TRANSFER_WRITE,
                source_stage: STAGE_TOP_OF_PIPE,
                destination_stage: STAGE_TRANSFER,
            },
        )
    } else if old_layout == LAYOUT_TRANSFER_DST_OPTIMAL && new_layout
        == LAYOUT_SHADER_READ_ONLY_OPTIMAL {
        Some(
            TransitionMasks {
                src_access_mask: ACCESS_TRANSFER_WRITE,
                dst_access_mask: ACCESS_SHADER_READ,
                source_stage: STAGE_TRANSFER,
                destination_stage: STAGE_FRAGMENT_SHADER,
            },
        )
    } else {
        None
    }
}

/// Memory type `i` may back the resource (its bit is set in the filter) and
/// offers every required property flag.
pub open spec fn spec_memory_type_suitable(
    type_filter: u32,
    required_properties: u32,
    flags: Seq<u32>,
    i: int,
) -> bool {
    &&& 0 <= i < flags.len()
    &&& type_filter & (1u32 << i as u32) != 0
    &&& flags_contain(flags[i], required_properties)
}

/// Select the lowest-indexed memory type that the resource accepts and
/// whose property flags are a superset of the required ones; `None` exactly
/// when no type qualifies — an unsuitable type is never chosen silently.
pub fn find_memory_type(
    type_filter: u32,
    required_properties: u32,
    memory_type_flags: &Vec<u32>,
) -> (r: Option<u32>)
    requires
        memory_type_flags@.len() <= 32,
    ensures
        match r {
            Some(i) => spec_memory_type_suitable(
                type_filter,
                required_properties,
                memory_type_flags@,
                i as int,
            ) && forall|j: int|
                0 <= j < i ==> !spec_memory_type_suitable(
                    type_filter,
                    required_properties,
                    memory_type_flags@,
                    j,
                ),
            None => forall|j: int|
                !spec_memory_type_suitable(
                    type_filter,
                    required_properties,
                    memory_type_flags@,
                    j,
                ),
        },
{
    let n = memory_type_flags.len();
    let mut i: usize = 0;
    while i < n
        invariant
            n == memory_type_flags@.len(),
            n <= 32,
            i <= n,
            forall|j: int|
                0 <= j < i ==> !spec_memory_type_suitable(
                    type_filter,
                    required_properties,
                    memory_type_flags@,
                    j,
                ),
        decreases n - i,
    {
        if type_filter & (1u32 << (i as u32)) != 0 && memory_type_flags[i] & required_properties
            == required_properties {
            return Some(i as u32);
        }
        i = i + 1;
    }
    None
}

/// The format features that matter for the given tiling mode.
pub open spec fn spec_tiling_features(props: FormatProperties, tiling: u32) -> u32 {
    if tiling == TILING_LINEAR {
        props.linear_tiling_features
    } else {
        props.optimal_tiling_features
    }
}

/// This candidate can serve as a depth-stencil attachment under the tiling.
pub open spec fn spec_depth_format_supported(props: FormatProperties, tiling: u32) -> bool {
    flags_contain(spec_tiling_features(props, tiling), FORMAT_FEATURE_DEPTH_STENCIL_ATTACHMENT)
}

/// Probe the candidate depth formats in order against the per-format
/// properties the driver queried (one entry per candidate) and take the
/// first the device supports for the tiling mode; `None` exactly when none
/// qualifies.
pub fn select_depth_format(
    candidates: &Vec<u32>,
    properties: &Vec<FormatProperties>,
    tiling: u32,
) -> (r: Option<u32>)
    requires
        properties@.len() == candidates@.len(),
    ensures
        match r {
            Some(f) => exists|i: int|
                {
                    &&& 0 <= i < candidates@.len()
                    &&& candidates@[i] == f
                    &&& spec_depth_format_supported(properties@[i], tiling)
                    &&& forall|j: int|
                        0 <= j < i ==> !spec_depth_format_supported(properties@[j], tiling)
                },
            None => forall|j: int|
                0 <= j < candidates@.len() ==> !spec_depth_format_supported(
                    properties@[j],
                    tiling,
                ),
        },
{
    let n = candidates.len();
    let mut i: usize = 0;
    while i < n
        invariant
            n == candidates@.len(),
            n == properties@.len(),
            i <= n,
            forall|j: int| 0 <= j < i ==> !spec_depth_format_supported(properties@[j], tiling),
        decreases n - i,
    {
        let features = if tiling == TILING_LINEAR {
            properties[i].linear_tiling_features
        } else {
            properties[i].optimal_tiling_features
        };
        if features & FORMAT_FEATURE_DEPTH_STENCIL_ATTACHMENT
            == FORMAT_FEATURE_DEPTH_STENCIL_ATTACHMENT {
            return Some(candidates[i]);
        }
        i = i + 1;
    }
    None
}

/// Plan the backing allocation of an image in the required memory class:
/// the device-reported size and the lowest-indexed suitable memory type;
/// fails exactly when no memory type qualifies.
pub fn plan_image_allocation(
    requirements: MemoryRequirements,
    required_memory_properties: u32,
    memory_type_flags: &Vec<u32>,
) -> (r: Result<AllocationPlan, AllocationError>)
    requires
        memory_type_flags@.len() <= 32,
    ensures
        r is Ok <==> exists|i: int|
            spec_memory_type_suitable(
                requirements.memory_type_bits,
                required_memory_properties,
                memory_type_flags@,
                i,
            ),
        r matches Ok(p) ==> {
            &&& p.allocation_size == requirements.size
            &&& spec_memory_type_suitable(
                requirements.memory_type_bits,
                required_memory_properties,
                memory_type_flags@,
                p.memory_type_index as int,
            )
            &&& forall|j: int|
                0 <= j < p.memory_type_index ==> !spec_memory_type_suitable(
                    requirements.memory_type_bits,
                    required_memory_properties,
                    memory_type_flags@,
                    j,
                )
        },
{
    let desc = BufferDesc {
        size: 0,
        usage: 0,
        required_memory_flags: required_memory_properties,
        alignment: None,
    };
    let r = plan_buffer_allocation(&desc, requirements, memory_type_flags);
    proof {
        if exists|i: int|
            spec_memory_type_suitable(
                requirements.memory_type_bits,
                required_memory_properties,
                memory_type_flags@,
                i,
            ) {
            let i = choose|i: int|
                spec_memory_type_suitable(
                    requirements.memory_type_bits,
                    required_memory_properties,
                    memory_type_flags@,
                    i,
                );
            assert(spec_memory_type_suitable(
                requirements.memory_type_bits,
                desc.required_memory_flags,
                memory_type_flags@,
                i,
            ));
        }
        if exists|i: int|
            spec_memory_type_suitable(
                requirements.memory_type_bits,
                desc.required_memory_flags,
                memory_type_flags@,
                i,
            ) {
            let i = choose|i: int|
                spec_memory_type_suitable(
                    requirements.memory_type_bits,
                    desc.required_memory_flags,
                    memory_type_flags@,
                    i,
                );
            assert(spec_memory_type_suitable(
                requirements.memory_type_bits,
                required_memory_properties,
                memory_type_flags@,
                i,
            ));
        }
    }
    r
}

/// The upload of decoded RGBA pixels into a sampled texture.
pub struct TextureUploadPlan {
    /// The payload size in bytes: four bytes per pixel.
    pub size: u64,
    /// The texture to create: a sampled, transfer-destination 2D image of
    /// the pixel extent.
    pub image_desc: ImageDesc,
}

/// Plan a texture upload from its pixel extent. Fails exactly on an empty
/// image or a byte size beyond the address space — never on a valid
/// payload.
pub fn texture_upload_plan(width: u32, height: u32) -> (r: Option<TextureUploadPlan>)
    ensures
        r is Some <==> (width > 0 && height > 0 && width * height * 4 <= u64::MAX),
        r matches Some(p) ==> {
            &&& p.size == width * height * 4
            &&& p.image_desc.image_type == ImageType::Tex2d
            &&& p.image_desc.usage == IMAGE_USAGE_TRANSFER_DST | IMAGE_USAGE_SAMPLED
            &&& p.image_desc.flags == 0u32
            &&& p.image_desc.format == FORMAT_R8G8B8A8_SRGB
            &&& p.image_desc.extent@ =~= seq![width, height, 1u32]
            &&& p.image_desc.tiling == TILING_OPTIMAL
            &&& p.image_desc.mip_levels == 1u16
            &&& p.image_desc.array_elements == 1u32
        },
{
    if width == 0 || height == 0 {
        return None;
    }
    proof {
        assert((width as int) * (height as int) <= 0xFFFF_FFFFi64 * 0xFFFF_FFFFi64) by (nonlinear_arith)
            requires
                width <= 0xFFFF_FFFFu32,
                height <= 0xFFFF_FFFFu32,
        ;
    }
    let pixels = (width as u64) * (height as u64);
    if pixels > u64::MAX / 4 {
        return None;
    }
    let size = pixels * 4;
    Some(
        TextureUploadPlan {
            size,
            image_desc: ImageDesc {
                image_type: ImageType::Tex2d,
                usage: IMAGE_USAGE_TRANSFER_DST | IMAGE_USAGE_SAMPLED,
                flags: 0,
                format: FORMAT_R8G8B8A8_SRGB,
                extent: [width, height, 1],
                tiling: TILING_OPTIMAL,
                mip_levels: 1,
                array_elements: 1,
            },
        },
    )
}

/// Two partial view descriptions are the same.
fn view_desc_eq(a: &ImageViewDesc, b: &ImageViewDesc) -> (r: bool)
    ensures
        r == (*a == *b),
{
    let view_type_eq = match (a.view_type, b.view_type) {
        (Some(x), Some(y)) => x == y,
        (None, None) => true,
        _ => false,
    };
    let format_eq = match (a.format, b.format) {
        (Some(x), Some(y)) => x == y,
        (None, None) => true,
        _ => false,
    };
    let level_count_eq = match (a.level_count, b.level_count) {
        (Some(x), Some(y)) => x == y,
        (None, None) => true,
        _ => false,
    };
    view_type_eq && format_eq && level_count_eq && a.aspect_mask == b.aspect_mask
        && a.base_mip_level == b.base_mip_level
}

/// A view of `desc` is memoized in `views`.
pub open spec fn spec_has_view(views: Seq<(ImageViewDesc, u64)>, desc: ImageViewDesc) -> bool {
    exists|i: int| 0 <= i < views.len() && views[i].0 == desc
}

/// The memoized view for `desc`, where there is one.
pub open spec fn spec_view_handle(views: Seq<(ImageViewDesc, u64)>, desc: ImageViewDesc) -> u64 {
    views[choose|i: int| 0 <= i < views.len() && views[i].0 == desc].1
}

/// No view description is memoized twice.
pub open spec fn spec_views_wf(views: Seq<(ImageViewDesc, u64)>) -> bool {
    forall|i: int, j: int| 0 <= i < j < views.len() ==> views[i].0 != views[j].0
}

/// An owned image: its native handle, descriptor, backing allocation (which
/// lives exactly as long as the handle and is destroyed after it), and the
/// views created of it so far, memoized by their description.
pub struct Image {
    pub raw: u64,
    pub desc: ImageDesc,
    pub views: Vec<(ImageViewDesc, u64)>,
    pub device_memory: u64,
}

impl Image {
    /// The image invariant: each view description memoized at most once.
    pub open spec fn wf(self) -> bool {
        spec_views_wf(self.views@)
    }

    /// Own a driver-created image; no views exist yet.
    pub fn create(raw: u64, desc: ImageDesc, device_memory: u64) -> (r: Image)
        ensures
            r.wf(),
            r.raw == raw,
            r.desc == desc,
            r.device_memory == device_memory,
            r.views@.len() == 0,
    {
        Image { raw, desc, views: Vec::new(), device_memory }
    }

    /// The full view description for `desc` against this image.
    pub fn view_desc(&self, desc: ImageViewDesc) -> (r: ImageViewCreateInfo)
        requires
            desc.view_type is Some,
        ensures
            r.image == self.raw,
            r.view_type == desc.view_type->0,
            r.format == (if desc.format is Some {
                desc.format->0
            } else {
                self.desc.format
            }),
            r.aspect_mask == desc.aspect_mask,
            r.base_mip_level == desc.base_mip_level,
            r.level_count == (if desc.level_count is Some {
                desc.level_count->0
            } else {
                self.desc.mip_levels as u32
            }),
            r.base_array_layer == 0u32,
            r.layer_count == spec_view_layer_count(self.desc.image_type),
    {
        view_desc_impl(desc, &self.desc, self.raw)
    }

    /// The memoized view for `desc`, or the place to record a new one: on a
    /// hit the cached view is handed back and `fresh_view` is not consumed;
    /// on a miss `fresh_view` (the view the driver just created for exactly
    /// this description) is recorded and handed back.
    pub fn view(&mut self, desc: ImageViewDesc, fresh_view: u64) -> (r: (u64, bool))
        requires
            old(self).wf(),
        ensures
            final(self).wf(),
            final(self).raw == old(self).raw,
            final(self).desc == old(self).desc,
            final(self).device_memory == old(self).device_memory,
            spec_has_view(old(self).views@, desc) ==> {
                &&& final(self).views@ == old(self).views@
                &&& r.0 == spec_view_handle(old(self).views@, desc)
                &&& !r.1
            },
            !spec_has_view(old(self).views@, desc) ==> {
                &&& final(self).views@ == old(self).views@.push((desc, fresh_view))
                &&& r.0 == fresh_view
                &&& r.1
            },
    {
        let n = self.views.len();
        let mut i: usize = 0;
        while i < n
            invariant
                spec_views_wf(self.views@),
                n == self.views@.len(),
                i <= n,
                forall|j: int| 0 <= j < i ==> self.views@[j].0 != desc,
            decreases n - i,
        {
            if view_desc_eq(&self.views[i].0, &desc) {
                proof {
                    let views = self.views@;
                    let j = choose|j: int| 0 <= j < views.len() && views[j].0 == desc;
                    assert(j == i as int);
                }
                return (self.views[i].1, false);
            }
            i = i + 1;
        }
        proof {
            let views = self.views@;
            assert forall|a: int, b: int|
                0 <= a < b < views.push((desc, fresh_view)).len() implies views.push(
                (desc, fresh_view),
            )[a].0 != views.push((desc, fresh_view))[b].0 by {
                if b < views.len() {
                    assert(views[a].0 != views[b].0);
                } else {
                    assert(views[a].0 != desc);
                }
            }
        }
        self.views.push((desc, fresh_view));
        (fresh_view, true)
    }
}

} // verus!
