//! Adapter (physical device) selection: queue-family discovery, device
//! suitability, and device-extension support checks, over plain capability
//! records queried by the driver.

use vstd::prelude::*;

use crate::vk::{flags_contain, QUEUE_GRAPHICS};

verus! {

/// The queue families a device session needs: one that can run graphics
/// commands and one that can present to the surface. Either may be absent on
/// an unsuitable adapter.
pub struct QueueFamilyIndices {
    pub graphics_family: Option<u32>,
    pub present_family: Option<u32>,
}

impl QueueFamilyIndices {
    /// An empty set of indices: nothing discovered yet.
    pub fn new() -> (r: QueueFamilyIndices)
        ensures
            r.graphics_family is None,
            r.present_family is None,
    {
        QueueFamilyIndices {
            graphics_family: None,
            present_family: None,
        }
    }

    /// Both required families have been found.
    pub fn is_complete(&self) -> (r: bool)
        ensures
            r == (self.graphics_family is Some && self.present_family is Some),
    {
        self.graphics_family.is_some() && self.present_family.is_some()
    }
}

/// What the adapter reports about one queue family, together with whether
/// the surface accepts presentation from it.
#[derive(Clone, Copy, Debug, PartialEq, Eq, Structural)]
pub struct QueueFamilyProperties {
    pub queue_count: u32,
    pub queue_flags: u32,
    pub supports_present: bool,
}

/// This family has at least one queue and can run graphics commands.
pub open spec fn graphics_capable(f: QueueFamilyProperties) -> bool {
    f.queue_count > 0 && flags_contain(f.queue_flags, QUEUE_GRAPHICS)
}

/// This family has at least one queue and can present to the surface.
pub open spec fn present_capable(f: QueueFamilyProperties) -> bool {
    f.queue_count > 0 && f.supports_present
}

/// Find the lowest-indexed graphics-capable and present-capable families.
/// Either index is `None` exactly when no family qualifies.
pub fn find_queue_family(queue_families: &Vec<QueueFamilyProperties>) -> (r: QueueFamilyIndices)
    requires
        queue_families@.len() <= u32::MAX,
    ensures
        match r.graphics_family {
            Some(i) => i < queue_families@.len() && graphics_capable(queue_families@[i as int])
                && forall|j: int| 0 <= j < i ==> !graphics_capable(queue_families@[j]),
            None => forall|j: int|
                0 <= j < queue_families@.len() ==> !graphics_capable(queue_families@[j]),
        },
        match r.present_family {
            Some(i) => i < queue_families@.len() && present_capable(queue_families@[i as int])
                && forall|j: int| 0 <= j < i ==> !present_capable(queue_families@[j]),
            None => forall|j: int|
                0 <= j < queue_families@.len() ==> !present_capable(queue_families@[j]),
        },
{
    let mut indices = QueueFamilyIndices::new();
    let n = queue_families.len();
    let mut index: usize = 0;
    while index < n
        invariant
            n == queue_families@.len(),
            n <= u32::MAX,
            index <= n,
            match indices.graphics_family {
                Some(i) => i < index && graphics_capable(queue_families@[i as int]) && forall|
                    j: int,
                |
                    0 <= j < i ==> !graphics_capable(queue_families@[j]),
                None => forall|j: int| 0 <= j < index ==> !graphics_capable(queue_families@[j]),
            },
            match indices.present_family {
                Some(i) => i < index && present_capable(queue_families@[i as int]) && forall|
                    j: int,
                |
                    0 <= j < i ==> !present_capable(queue_families@[j]),
                None => forall|j: int| 0 <= j < index ==> !present_capable(queue_families@[j]),
            },
        decreases n - index,
    {
        let family = queue_families[index];
        if indices.graphics_family.is_none() && family.queue_count > 0 && family.queue_flags
            & QUEUE_GRAPHICS == QUEUE_GRAPHICS {
            indices.graphics_family = Some(index as u32);
        }
        if indices.present_family.is_none() && family.queue_count > 0 && family.supports_present {
            indices.present_family = Some(index as u32);
        }
        index = index + 1;
    }
    indices
}

/// Two byte strings hold the same bytes.
pub fn bytes_eq(a: &Vec<u8>, b: &Vec<u8>) -> (r: bool)
    ensures
        r == (a@ == b@),
{
    if a.len() != b.len() {
        assert(a@ != b@);
        return false;
    }
    let n = a.len();
    let mut i: usize = 0;
    while i < n
        invariant
            n == a@.len(),
            n == b@.len(),
            i <= n,
            forall|j: int| 0 <= j < i ==> a@[j] == b@[j],
        decreases n - i,
    {
        if a[i] != b[i] {
            assert(a@ != b@);
            return false;
        }
        i = i + 1;
    }
    assert(a@ =~= b@);
    true
}

/// The name `needle` occurs in the list `names`.
pub open spec fn spec_contains_name(names: Seq<Seq<u8>>, needle: Seq<u8>) -> bool {
    exists|i: int| 0 <= i < names.len() && names[i] == needle
}

/// Whether one name occurs in a list of names (byte strings).
pub fn contains_name(names: &Vec<Vec<u8>>, needle: &Vec<u8>) -> (r: bool)
    ensures
        r == spec_contains_name(names@.map_values(|v: Vec<u8>| v@), needle@),
{
    let ghost mapped = names@.map_values(|v: Vec<u8>| v@);
    let n = names.len();
    let mut i: usize = 0;
    while i < n
        invariant
            n == names@.len(),
            mapped == names@.map_values(|v: Vec<u8>| v@),
            i <= n,
            forall|j: int| 0 <= j < i ==> mapped[j] != needle@,
        decreases n - i,
    {
        if bytes_eq(&names[i], needle) {
            assert(mapped[i as int] == needle@);
            return true;
        }
        i = i + 1;
    }
    false
}

/// Every required name occurs among the available ones.
pub open spec fn spec_supports_all(required: Seq<Seq<u8>>, available: Seq<Seq<u8>>) -> bool {
    forall|i: int|
        0 <= i < required.len() ==> spec_contains_name(available, required[i])
}

/// Every required device extension is offered by the adapter; names are
/// byte strings as the API reports them.
pub fn check_device_extension_support(
    required_extensions: &Vec<Vec<u8>>,
    available_extensions: &Vec<Vec<u8>>,
) -> (r: bool)
    ensures
        r == spec_supports_all(
            required_extensions@.map_values(|v: Vec<u8>| v@),
            available_extensions@.map_values(|v: Vec<u8>| v@),
        ),
{
    let ghost req = required_extensions@.map_values(|v: Vec<u8>| v@);
    let ghost avail = available_extensions@.map_values(|v: Vec<u8>| v@);
    let n = required_extensions.len();
    let mut i: usize = 0;
    while i < n
        invariant
            n == required_extensions@.len(),
            req == required_extensions@.map_values(|v: Vec<u8>| v@),
            avail == available_extensions@.map_values(|v: Vec<u8>| v@),
            i <= n,
            forall|j: int| 0 <= j < i ==> spec_contains_name(avail, req[j]),
        decreases n - i,
    {
        if !contains_name(available_extensions, &required_extensions[i]) {
            assert(!spec_contains_name(avail, req[i as int]));
            return false;
        }
        i = i + 1;
    }
    true
}

/// Everything the suitability decision reads about one adapter, queried by
/// the driver: its queue families, the extensions it offers, what the
/// surface reports for it, and whether it samples anisotropically.
pub struct AdapterInfo {
    /// The adapter's native handle.
    pub raw: u64,
    pub queue_families: Vec<QueueFamilyProperties>,
    pub available_extensions: Vec<Vec<u8>>,
    pub surface_format_count: usize,
    pub present_mode_count: usize,
    pub supports_sampler_anisotropy: bool,
}

/// The adapter can do everything the backend needs: both queue families,
/// the required extensions, a non-empty choice of surface formats and
/// present modes, and anisotropic sampling.
pub open spec fn spec_suitable(info: AdapterInfo, required_extensions: Seq<Seq<u8>>) -> bool {
    &&& exists|i: int|
        0 <= i < info.queue_families@.len() && graphics_capable(info.queue_families@[i])
    &&& exists|i: int|
        0 <= i < info.queue_families@.len() && present_capable(info.queue_families@[i])
    &&& spec_supports_all(
        required_extensions,
        info.available_extensions@.map_values(|v: Vec<u8>| v@),
    )
    &&& info.surface_format_count > 0
    &&& info.present_mode_count > 0
    &&& info.supports_sampler_anisotropy
}

/// Decide whether one adapter is suitable.
pub fn is_physical_device_suitable(info: &AdapterInfo, required_extensions: &Vec<Vec<u8>>) -> (r:
    bool)
    requires
        info.queue_families@.len() <= u32::MAX,
    ensures
        r == spec_suitable(*info, required_extensions@.map_values(|v: Vec<u8>| v@)),
{
    let indices = find_queue_family(&info.queue_families);
    let queue_family_supported = indices.is_complete();
    proof {
        if indices.graphics_family is Some {
            let i = indices.graphics_family->0;
            assert(graphics_capable(info.queue_families@[i as int]));
        }
        if indices.present_family is Some {
            let i = indices.present_family->0;
            assert(present_capable(info.queue_families@[i as int]));
        }
    }
    let extensions_supported = check_device_extension_support(
        required_extensions,
        &info.available_extensions,
    );
    let swapchain_supported = info.surface_format_count > 0 && info.present_mode_count > 0;
    queue_family_supported && extensions_supported && swapchain_supported
        && info.supports_sampler_anisotropy
}

/// Why no adapter could be chosen.
#[derive(Debug)]
pub enum AdapterSelectionError {
    /// No enumerated adapter satisfies the backend's requirements.
    NoSuitableAdapter,
}

/// Pick the first suitable adapter, in enumeration order; selection fails
/// exactly when none qualifies.
pub fn pick_physical_device(
    adapters: &Vec<AdapterInfo>,
    required_extensions: &Vec<Vec<u8>>,
) -> (r: Result<usize, AdapterSelectionError>)
    requires
        forall|i: int|
            0 <= i < adapters@.len() ==> #[trigger] adapters@[i].queue_families@.len()
                <= u32::MAX,
    ensures
        match r {
            Ok(i) => i < adapters@.len() && spec_suitable(
                adapters@[i as int],
                required_extensions@.map_values(|v: Vec<u8>| v@),
            ) && forall|j: int|
                0 <= j < i ==> !spec_suitable(
                    adapters@[j],
                    required_extensions@.map_values(|v: Vec<u8>| v@),
                ),
            Err(_) => forall|j: int|
                0 <= j < adapters@.len() ==> !spec_suitable(
                    adapters@[j],
                    required_extensions@.map_values(|v: Vec<u8>| v@),
                ),
        },
{
    let n = adapters.len();
    let mut i: usize = 0;
    while i < n
        invariant
            n == adapters@.len(),
            i <= n,
            forall|k: int|
                0 <= k < adapters@.len() ==> #[trigger] adapters@[k].queue_families@.len()
                    <= u32::MAX,
            forall|j: int|
                0 <= j < i ==> !spec_suitable(
                    adapters@[j],
                    required_extensions@.map_values(|v: Vec<u8>| v@),
                ),
        decreases n - i,
    {
        if is_physical_device_suitable(&adapters[i], required_extensions) {
            return Ok(i);
        }
        i = i + 1;
    }
    Err(AdapterSelectionError::NoSuitableAdapter)
}

/// A chosen adapter: its native handle and the queue families the session
/// will build its queues from.
pub struct PhysicalDevice {
    pub raw: u64,
    pub queue_family_index: QueueFamilyIndices,
}

impl PhysicalDevice {
    /// Pick the first suitable adapter and record its queue families.
    /// Construction fails exactly when no adapter is suitable; on success
    /// both families are present.
    pub fn create(
        adapters: &Vec<AdapterInfo>,
        required_extensions: &Vec<Vec<u8>>,
    ) -> (r: Result<PhysicalDevice, AdapterSelectionError>)
        requires
            forall|i: int|
                0 <= i < adapters@.len() ==> #[trigger] adapters@[i].queue_families@.len()
                    <= u32::MAX,
        ensures
            r is Ok <==> exists|j: int|
                0 <= j < adapters@.len() && spec_suitable(
                    adapters@[j],
                    required_extensions@.map_values(|v: Vec<u8>| v@),
                ),
            r matches Ok(d) ==> {
                &&& exists|j: int|
                    0 <= j < adapters@.len() && adapters@[j].raw == d.raw && spec_suitable(
                        adapters@[j],
                        required_extensions@.map_values(|v: Vec<u8>| v@),
                    )
                &&& d.queue_family_index.graphics_family is Some
                &&& d.queue_family_index.present_family is Some
            },
    {
        match pick_physical_device(adapters, required_extensions) {
            Ok(i) => {
                let adapter = &adapters[i];
                let queue_family_index = find_queue_family(&adapter.queue_families);
                proof {
                    let ghost reqs = required_extensions@.map_values(|v: Vec<u8>| v@);
                    assert(spec_suitable(adapters@[i as int], reqs));
                }
                Ok(PhysicalDevice { raw: adapter.raw, queue_family_index })
            },
            Err(e) => Err(e),
        }
    }
}

} // verus!
