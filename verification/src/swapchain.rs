//! Swapchain configuration and the acquire/present protocol.
//!
//! The selection policies (surface format, present mode, extent, image
//! count, sharing mode) are pure functions over the capabilities the driver
//! queried. The session type [`Swapchain`] owns the per-image semaphore
//! bookkeeping and decides, from the platform's report, whether a frame is
//! rendered, skipped for recreation, or failed.

use vstd::prelude::*;

use crate::physical_device::QueueFamilyIndices;
use crate::vk::{
    Extent2D, SurfaceCapabilities, SurfaceFormat, COLOR_SPACE_SRGB_NONLINEAR, EXTENT_UNDEFINED,
    FORMAT_B8G8R8A8_SRGB, IMAGE_USAGE_COLOR_ATTACHMENT, PRESENT_MODE_FIFO, PRESENT_MODE_MAILBOX,
    SHARING_CONCURRENT, SHARING_EXCLUSIVE,
};

verus! {

/// The configuration a swapchain was built with.
#[derive(Clone, Copy, Debug, PartialEq, Eq, Structural)]
pub struct SwapchainDesc {
    pub format: SurfaceFormat,
    pub dims: Extent2D,
    pub vsync: bool,
}

impl Default for SwapchainDesc {
    /// A zeroed configuration, to be filled in field by field.
    fn default() -> (r: SwapchainDesc)
        ensures
            r.format.format == 0,
            r.format.color_space == 0,
            r.dims.width == 0,
            r.dims.height == 0,
            !r.vsync,
    {
        SwapchainDesc {
            format: SurfaceFormat { format: 0, color_space: 0 },
            dims: Extent2D { width: 0, height: 0 },
            vsync: false,
        }
    }
}

/// Everything the surface reports about the swapchains it can host.
pub struct SwapChainSupportDetail {
    pub capabilities: SurfaceCapabilities,
    pub formats: Vec<SurfaceFormat>,
    pub present_modes: Vec<u32>,
}

/// The format the policy prefers: 8-bit BGRA with sRGB-nonlinear color.
pub open spec fn preferred_surface_format() -> SurfaceFormat {
    SurfaceFormat { format: FORMAT_B8G8R8A8_SRGB, color_space: COLOR_SPACE_SRGB_NONLINEAR }
}

/// Prefer 8-bit BGRA sRGB-nonlinear; otherwise take the first offered format.
pub fn choose_swapchain_format(available_formats: &Vec<SurfaceFormat>) -> (r: SurfaceFormat)
    requires
        available_formats@.len() > 0,
    ensures
        available_formats@.contains(preferred_surface_format()) ==> r
            == preferred_surface_format(),
        !available_formats@.contains(preferred_surface_format()) ==> r == available_formats@[0],
{
    let n = available_formats.len();
    let mut i: usize = 0;
    while i < n
        invariant
            n == available_formats@.len(),
            i <= n,
            forall|j: int| 0 <= j < i ==> available_formats@[j] != preferred_surface_format(),
        decreases n - i,
    {
        let f = available_formats[i];
        if f.format == FORMAT_B8G8R8A8_SRGB && f.color_space == COLOR_SPACE_SRGB_NONLINEAR {
            assert(f == preferred_surface_format());
            assert(available_formats@.contains(preferred_surface_format()));
            return f;
        }
        i = i + 1;
    }
    assert(forall|j: int|
        0 <= j < available_formats@.len() ==> available_formats@[j]
            != preferred_surface_format());
    assert(!available_formats@.contains(preferred_surface_format()));
    available_formats[0]
}

/// Prefer low-latency mailbox presentation; fall back to FIFO, which every
/// device offers.
pub fn choose_swapchain_present_mode(available_present_modes: &Vec<u32>) -> (r: u32)
    ensures
        r == (if available_present_modes@.contains(PRESENT_MODE_MAILBOX) {
            PRESENT_MODE_MAILBOX
        } else {
            PRESENT_MODE_FIFO
        }),
{
    let n = available_present_modes.len();
    let mut i: usize = 0;
    while i < n
        invariant
            n == available_present_modes@.len(),
            i <= n,
            forall|j: int| 0 <= j < i ==> available_present_modes@[j] != PRESENT_MODE_MAILBOX,
        decreases n - i,
    {
        if available_present_modes[i] == PRESENT_MODE_MAILBOX {
            assert(available_present_modes@.contains(PRESENT_MODE_MAILBOX));
            return PRESENT_MODE_MAILBOX;
        }
        i = i + 1;
    }
    assert(!available_present_modes@.contains(PRESENT_MODE_MAILBOX));
    PRESENT_MODE_FIFO
}

/// A value limited to the closed interval `[min, max]`.
pub open spec fn spec_clamp(value: u32, min: u32, max: u32) -> u32 {
    if value < min {
        min
    } else if value > max {
        max
    } else {
        value
    }
}

/// Relies on num::clamp: returns the input limited to `[min, max]`; the
/// bounds must be ordered or the call would assert in debug builds.
#[verifier::external_body]
fn clamp_u32(input: u32, min: u32, max: u32) -> (r: u32)
    requires
        min <= max,
    ensures
        r == spec_clamp(input, min, max),
{
    num::clamp(input, min, max)
}

/// The extent the swapchain must be created with: the surface's current
/// extent when it is defined, otherwise the requested size clamped into the
/// surface's limits.
pub open spec fn spec_swapchain_extent(
    capabilities: SurfaceCapabilities,
    desired_extent: Extent2D,
) -> Extent2D {
    if capabilities.current_extent.width != EXTENT_UNDEFINED {
        capabilities.current_extent
    } else {
        Extent2D {
            width: spec_clamp(
                desired_extent.width,
                capabilities.min_image_extent.width,
                capabilities.max_image_extent.width,
            ),
            height: spec_clamp(
                desired_extent.height,
                capabilities.min_image_extent.height,
                capabilities.max_image_extent.height,
            ),
        }
    }
}

/// Pass the surface's current extent through when it is defined; otherwise
/// clamp the requested window size into the reported limits.
pub fn choose_swapchain_extent(
    capabilities: &SurfaceCapabilities,
    desired_extent: Extent2D,
) -> (r: Extent2D)
    requires
        capabilities.min_image_extent.width <= capabilities.max_image_extent.width,
        capabilities.min_image_extent.height <= capabilities.max_image_extent.height,
    ensures
        r == spec_swapchain_extent(*capabilities, desired_extent),
{
    if capabilities.current_extent.width != EXTENT_UNDEFINED {
        capabilities.current_extent
    } else {
        Extent2D {
            width: clamp_u32(
                desired_extent.width,
                capabilities.min_image_extent.width,
                capabilities.max_image_extent.width,
            ),
            height: clamp_u32(
                desired_extent.height,
                capabilities.min_image_extent.height,
                capabilities.max_image_extent.height,
            ),
        }
    }
}

/// One more image than the minimum, held below the maximum where the surface
/// reports one (zero meaning unlimited).
pub open spec fn spec_swapchain_image_count(capabilities: SurfaceCapabilities) -> u32 {
    let base = (capabilities.min_image_count + 1) as u32;
    if capabilities.max_image_count > 0 && base > capabilities.max_image_count {
        capabilities.max_image_count
    } else {
        base
    }
}

/// How many images to request for the swapchain.
pub fn swapchain_image_count(capabilities: &SurfaceCapabilities) -> (r: u32)
    requires
        capabilities.min_image_count < u32::MAX,
    ensures
        r == spec_swapchain_image_count(*capabilities),
{
    let base = capabilities.min_image_count + 1;
    if capabilities.max_image_count > 0 && base > capabilities.max_image_count {
        capabilities.max_image_count
    } else {
        base
    }
}

/// How swapchain images are shared between the graphics and present queues.
pub struct SharingPlan {
    pub mode: u32,
    pub queue_family_indices: Vec<u32>,
}

/// Concurrent sharing across both families when they differ; exclusive
/// ownership when one family does both jobs.
pub fn select_sharing_mode(queue_family: &QueueFamilyIndices) -> (r: SharingPlan)
    requires
        queue_family.graphics_family is Some,
        queue_family.present_family is Some,
    ensures
        queue_family.graphics_family == queue_family.present_family ==> (r.mode
            == SHARING_EXCLUSIVE && r.queue_family_indices@ =~= Seq::<u32>::empty()),
        queue_family.graphics_family != queue_family.present_family ==> (r.mode
            == SHARING_CONCURRENT && r.queue_family_indices@ =~= seq![
            queue_family.graphics_family->0,
            queue_family.present_family->0,
        ]),
{
    let graphics = queue_family.graphics_family.unwrap();
    let present = queue_family.present_family.unwrap();
    if graphics != present {
        let mut indices: Vec<u32> = Vec::new();
        indices.push(graphics);
        indices.push(present);
        SharingPlan { mode: SHARING_CONCURRENT, queue_family_indices: indices }
    } else {
        SharingPlan { mode: SHARING_EXCLUSIVE, queue_family_indices: Vec::new() }
    }
}

/// Everything the driver needs to create the swapchain object.
pub struct SwapchainCreateInfo {
    pub min_image_count: u32,
    pub surface_format: SurfaceFormat,
    pub extent: Extent2D,
    pub image_usage: u32,
    pub sharing: SharingPlan,
    pub pre_transform: u32,
    pub present_mode: u32,
    pub clipped: bool,
    pub image_array_layers: u32,
}

/// Assemble the whole swapchain configuration from the surface's report, the
/// requested window size, and the chosen queue families.
pub fn plan_swapchain(
    support: &SwapChainSupportDetail,
    desired_extent: Extent2D,
    queue_family: &QueueFamilyIndices,
) -> (r: SwapchainCreateInfo)
    requires
        support.formats@.len() > 0,
        support.capabilities.min_image_count < u32::MAX,
        support.capabilities.min_image_extent.width <= support.capabilities.max_image_extent.width,
        support.capabilities.min_image_extent.height
            <= support.capabilities.max_image_extent.height,
        queue_family.graphics_family is Some,
        queue_family.present_family is Some,
    ensures
        support.formats@.contains(preferred_surface_format()) ==> r.surface_format
            == preferred_surface_format(),
        !support.formats@.contains(preferred_surface_format()) ==> r.surface_format
            == support.formats@[0],
        r.present_mode == (if support.present_modes@.contains(PRESENT_MODE_MAILBOX) {
            PRESENT_MODE_MAILBOX
        } else {
            PRESENT_MODE_FIFO
        }),
        r.extent == spec_swapchain_extent(support.capabilities, desired_extent),
        r.min_image_count == spec_swapchain_image_count(support.capabilities),
        r.image_usage == IMAGE_USAGE_COLOR_ATTACHMENT,
        r.pre_transform == support.capabilities.current_transform,
        r.clipped,
        r.image_array_layers == 1,
        queue_family.graphics_family == queue_family.present_family ==> r.sharing.mode
            == SHARING_EXCLUSIVE,
        queue_family.graphics_family != queue_family.present_family ==> (r.sharing.mode
            == SHARING_CONCURRENT && r.sharing.queue_family_indices@ =~= seq![
            queue_family.graphics_family->0,
            queue_family.present_family->0,
        ]),
{
    let surface_format = choose_swapchain_format(&support.formats);
    let present_mode = choose_swapchain_present_mode(&support.present_modes);
    let extent = choose_swapchain_extent(&support.capabilities, desired_extent);
    let min_image_count = swapchain_image_count(&support.capabilities);
    let sharing = select_sharing_mode(queue_family);
    SwapchainCreateInfo {
        min_image_count,
        surface_format,
        extent,
        image_usage: IMAGE_USAGE_COLOR_ATTACHMENT,
        sharing,
        pre_transform: support.capabilities.current_transform,
        present_mode,
        clipped: true,
        image_array_layers: 1,
    }
}

/// A presentable image handed out by [`Swapchain::acquire_next_image`],
/// together with the semaphores that order its use. Deliberately neither
/// `Clone` nor `Copy`: presenting consumes it, so at most one per acquisition
/// is ever outstanding.
pub struct SwapchainImage {
    pub image: u64,
    pub image_index: u32,
    pub acquire_semaphore: u64,
    pub rendering_finished_semaphore: u64,
}

/// What the platform's acquire call reported, handed in by the driver.
#[derive(Debug)]
pub enum AcquireOutcome {
    /// An image was acquired, possibly with a note that the surface no
    /// longer matches the swapchain exactly.
    Acquired { index: u32, suboptimal: bool },
    /// The surface no longer matches the swapchain configuration.
    OutOfDate,
    /// Any other failure; the device is in no state to continue.
    Failed,
}

/// Why no image was handed out.
#[derive(Debug)]
pub enum SwapchainAcquireImageErr {
    /// Transient: skip this frame and rebuild the swapchain.
    RecreateFramebuffer,
    /// The platform returned an image index other than the one whose
    /// semaphores were handed to it; a driver or sequencing bug.
    ImageIndexMismatch,
    /// The acquire call itself failed fatally.
    AcquireFailed,
}

/// What the platform's present call reported, handed in by the driver.
#[derive(Debug)]
pub enum PresentOutcome {
    Presented,
    OutOfDate,
    Suboptimal,
    Failed,
}

/// Why presentation failed for good.
#[derive(Debug)]
pub enum PresentError {
    PresentFailed,
}

/// The presentable-image chain: image handles and their per-index semaphore
/// pairs, with the round-robin cursor for the next acquisition.
pub struct Swapchain {
    pub desc: SwapchainDesc,
    pub images: Vec<u64>,
    pub acquire_semaphores: Vec<u64>,
    pub rendering_finished_semaphores: Vec<u64>,
    pub next_semaphore: usize,
}

/// Why a swapchain session could not be assembled.
#[derive(Debug)]
pub enum SwapchainConfigError {
    /// The platform handed back no images.
    NoImages,
    /// The driver supplied a semaphore list whose length differs from the
    /// image count; every image index needs its own pair.
    SemaphoreCountMismatch,
}

impl Swapchain {
    /// The session invariant: one semaphore pair per image, and the
    /// round-robin cursor in range.
    pub open spec fn wf(self) -> bool {
        &&& self.images@.len() > 0
        &&& self.acquire_semaphores@.len() == self.images@.len()
        &&& self.rendering_finished_semaphores@.len() == self.images@.len()
        &&& self.next_semaphore < self.images@.len()
    }

    /// Assemble the session from the image chain and the semaphores the
    /// driver created, one pair per image.
    pub fn create(
        desc: SwapchainDesc,
        images: Vec<u64>,
        acquire_semaphores: Vec<u64>,
        rendering_finished_semaphores: Vec<u64>,
    ) -> (r: Result<Swapchain, SwapchainConfigError>)
        ensures
            r is Ok <==> (images@.len() > 0 && acquire_semaphores@.len() == images@.len()
                && rendering_finished_semaphores@.len() == images@.len()),
            images@.len() == 0 ==> r matches Err(SwapchainConfigError::NoImages),
            images@.len() > 0 && (acquire_semaphores@.len() != images@.len()
                || rendering_finished_semaphores@.len() != images@.len()) ==> r matches Err(
                SwapchainConfigError::SemaphoreCountMismatch,
            ),
            r matches Ok(s) ==> {
                &&& s.wf()
                &&& s.desc == desc
                &&& s.images@ == images@
                &&& s.acquire_semaphores@ == acquire_semaphores@
                &&& s.rendering_finished_semaphores@ == rendering_finished_semaphores@
                &&& s.next_semaphore == 0
            },
    {
        if images.len() == 0 {
            return Err(SwapchainConfigError::NoImages);
        }
        if acquire_semaphores.len() != images.len() || rendering_finished_semaphores.len()
            != images.len() {
            return Err(SwapchainConfigError::SemaphoreCountMismatch);
        }
        Ok(
            Swapchain {
                desc,
                images,
                acquire_semaphores,
                rendering_finished_semaphores,
                next_semaphore: 0,
            },
        )
    }

    /// The number of presentable images in the chain.
    pub fn image_count(&self) -> (r: usize)
        ensures
            r == self.images@.len(),
    {
        self.images.len()
    }

    /// The semaphore the driver must pass to the platform's acquire call for
    /// the upcoming acquisition.
    pub fn current_acquire_semaphore(&self) -> (r: u64)
        requires
            self.wf(),
        ensures
            r == self.acquire_semaphores@[self.next_semaphore as int],
    {
        self.acquire_semaphores[self.next_semaphore]
    }

    /// Digest the platform's acquire report. An image is handed out exactly
    /// when the platform acquired the index whose semaphore pair was next in
    /// the round-robin; the cursor then advances. An out-of-date surface is
    /// a transient error telling the caller to skip and recreate; an index
    /// other than the expected one is a driver/sequencing inconsistency and
    /// fatal. The session state is untouched unless an image is handed out.
    pub fn acquire_next_image(&mut self, outcome: AcquireOutcome) -> (r: Result<
        SwapchainImage,
        SwapchainAcquireImageErr,
    >)
        requires
            old(self).wf(),
        ensures
            final(self).wf(),
            final(self).desc == old(self).desc,
            final(self).images@ == old(self).images@,
            final(self).acquire_semaphores@ == old(self).acquire_semaphores@,
            final(self).rendering_finished_semaphores@ == old(
                self,
            ).rendering_finished_semaphores@,
            r is Ok <==> (outcome matches AcquireOutcome::Acquired { index, .. } && index
                == old(self).next_semaphore),
            r matches Ok(img) ==> {
                &&& img.image_index == old(self).next_semaphore
                &&& img.image == old(self).images@[old(self).next_semaphore as int]
                &&& img.acquire_semaphore == old(self).acquire_semaphores@[old(
                    self,
                ).next_semaphore as int]
                &&& img.rendering_finished_semaphore == old(self).rendering_finished_semaphores@[
                    old(self).next_semaphore as int]
                &&& final(self).next_semaphore == (old(self).next_semaphore + 1) % (old(
                    self,
                ).images@.len() as int)
            },
            r is Err ==> final(self).next_semaphore == old(self).next_semaphore,
            outcome is OutOfDate ==> r matches Err(
                SwapchainAcquireImageErr::RecreateFramebuffer,
            ),
            outcome is Failed ==> r matches Err(SwapchainAcquireImageErr::AcquireFailed),
            (outcome matches AcquireOutcome::Acquired { index, .. } && index != old(
                self,
            ).next_semaphore) ==> r matches Err(SwapchainAcquireImageErr::ImageIndexMismatch),
    {
        match outcome {
            AcquireOutcome::Acquired { index, suboptimal: _ } => {
                if (index as usize) == self.next_semaphore {
                    let present_index = self.next_semaphore;
                    let image = SwapchainImage {
                        image: self.images[present_index],
                        image_index: index,
                        acquire_semaphore: self.acquire_semaphores[present_index],
                        rendering_finished_semaphore:
                            self.rendering_finished_semaphores[present_index],
                    };
                    let n = self.images.len();
                    self.next_semaphore = (present_index + 1) % n;
                    Ok(image)
                } else {
                    Err(SwapchainAcquireImageErr::ImageIndexMismatch)
                }
            },
            AcquireOutcome::OutOfDate => Err(SwapchainAcquireImageErr::RecreateFramebuffer),
            AcquireOutcome::Failed => Err(SwapchainAcquireImageErr::AcquireFailed),
        }
    }

    /// Digest the platform's present report, consuming the presented image.
    /// An out-of-date or suboptimal surface is not an error here: the image
    /// may already be consumed by the present queue, so recreation is
    /// deferred to the next acquire. Only an outright failure is reported.
    pub fn present_image(&self, image: SwapchainImage, outcome: PresentOutcome) -> (r: Result<
        (),
        PresentError,
    >)
        requires
            self.wf(),
            image.image_index < self.images@.len(),
        ensures
            r is Ok <==> !(outcome is Failed),
            outcome is Failed ==> r matches Err(PresentError::PresentFailed),
    {
        let _consumed = image;
        match outcome {
            PresentOutcome::Presented => Ok(()),
            PresentOutcome::OutOfDate => Ok(()),
            PresentOutcome::Suboptimal => Ok(()),
            PresentOutcome::Failed => Err(PresentError::PresentFailed),
        }
    }
}

/// What the render loop does with the result of an acquisition.
pub enum AcquireAction {
    /// Record and submit this frame, then present the image.
    Render(SwapchainImage),
    /// Skip this iteration without presenting; rebuild the swapchain first.
    SkipAndRecreate,
    /// A fatal condition: stop the loop.
    Abort(SwapchainAcquireImageErr),
}

/// The render loop's required response to an acquisition result: render on
/// success, skip and recreate (never present) when the swapchain is stale,
/// abort on anything else.
pub fn handle_acquire(r: Result<SwapchainImage, SwapchainAcquireImageErr>) -> (a: AcquireAction)
    ensures
        r matches Ok(img) ==> a matches AcquireAction::Render(i) && i == img,
        r matches Err(SwapchainAcquireImageErr::RecreateFramebuffer) ==> a
            is SkipAndRecreate,
        r matches Err(SwapchainAcquireImageErr::ImageIndexMismatch) ==> a matches
            AcquireAction::Abort(e) && e is ImageIndexMismatch,
        r matches Err(SwapchainAcquireImageErr::AcquireFailed) ==> a matches
            AcquireAction::Abort(e) && e is AcquireFailed,
{
    match r {
        Ok(img) => AcquireAction::Render(img),
        Err(SwapchainAcquireImageErr::RecreateFramebuffer) => AcquireAction::SkipAndRecreate,
        Err(e) => AcquireAction::Abort(e),
    }
}

} // verus!
