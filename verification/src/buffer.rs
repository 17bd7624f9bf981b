//! Buffer descriptors, allocation planning, and the staging-transfer path:
//! which memory type backs a resource, how staging uploads are laid out,
//! and a byte-level model of the blocking copy that the setup recorder
//! performs, with the round-trip law proved over it.

use vstd::prelude::*;

use crate::image::{find_memory_type, spec_memory_type_suitable};
use crate::vk::{
    flags_contain, MemoryRequirements, BUFFER_USAGE_INDEX, BUFFER_USAGE_SHADER_BINDING_TABLE,
    BUFFER_USAGE_TRANSFER_DST, BUFFER_USAGE_TRANSFER_SRC, BUFFER_USAGE_UNIFORM,
    BUFFER_USAGE_VERTEX, MEMORY_DEVICE_LOCAL, MEMORY_HOST_COHERENT, MEMORY_HOST_VISIBLE,
};

verus! {

/// Everything a buffer is created from.
#[derive(Clone, Copy, Debug, PartialEq, Eq)]
pub struct BufferDesc {
    pub size: usize,
    pub usage: u32,
    pub required_memory_flags: u32,
    pub alignment: Option<u64>,
}

/// An owned buffer: its native handle, its descriptor, and the backing
/// allocation, which lives exactly as long as the handle and is destroyed
/// after it.
pub struct Buffer {
    pub raw: u64,
    pub desc: BufferDesc,
    pub device_memory: u64,
}

/// How a buffer's backing memory is to be allocated.
#[derive(Clone, Copy, Debug, PartialEq, Eq, Structural)]
pub struct AllocationPlan {
    pub allocation_size: u64,
    pub alignment: u64,
    pub memory_type_index: u32,
}

/// Why no backing memory could be planned.
#[derive(Debug)]
pub enum AllocationError {
    /// No memory type both backs the resource and offers the required
    /// property flags.
    NoSuitableMemoryType,
}

/// The alignment the allocation must honor: the device's requirement,
/// raised to the descriptor's explicit alignment if any, and to 64 for
/// shader-binding-table buffers.
pub open spec fn spec_effective_alignment(desc: BufferDesc, requirements: MemoryRequirements) -> u64 {
    let base = requirements.alignment;
    let with_desc = if desc.alignment matches Some(a) && a > base {
        desc.alignment->0
    } else {
        base
    };
    if flags_contain(desc.usage, BUFFER_USAGE_SHADER_BINDING_TABLE) && with_desc < 64 {
        64u64
    } else {
        with_desc
    }
}

/// Plan the backing allocation of a buffer: the device-reported size, the
/// effective alignment, and the lowest-indexed memory type that backs the
/// resource and offers every required property flag. Fails exactly when no
/// memory type qualifies — an unsuitable type is never chosen silently.
pub fn plan_buffer_allocation(
    desc: &BufferDesc,
    requirements: MemoryRequirements,
    memory_type_flags: &Vec<u32>,
) -> (r: Result<AllocationPlan, AllocationError>)
    requires
        memory_type_flags@.len() <= 32,
    ensures
        r is Ok <==> exists|i: int|
            spec_memory_type_suitable(
                requirements.memory_type_bits,
                desc.required_memory_flags,
                memory_type_flags@,
                i,
            ),
        r matches Ok(p) ==> {
            &&& p.allocation_size == requirements.size
            &&& p.alignment == spec_effective_alignment(*desc, requirements)
            &&& spec_memory_type_suitable(
                requirements.memory_type_bits,
                desc.required_memory_flags,
                memory_type_flags@,
                p.memory_type_index as int,
            )
            &&& forall|j: int|
                0 <= j < p.memory_type_index ==> !spec_memory_type_suitable(
                    requirements.memory_type_bits,
                    desc.required_memory_flags,
                    memory_type_flags@,
                    j,
                )
        },
        r is Err ==> (r matches Err(e) && e is NoSuitableMemoryType),
{
    let base = requirements.alignment;
    let with_desc = match desc.alignment {
        Some(a) => if a > base {
            a
        } else {
            base
        },
        None => base,
    };
    let alignment = if desc.usage & BUFFER_USAGE_SHADER_BINDING_TABLE
        == BUFFER_USAGE_SHADER_BINDING_TABLE && with_desc < 64 {
        64
    } else {
        with_desc
    };
    match find_memory_type(
        requirements.memory_type_bits,
        desc.required_memory_flags,
        memory_type_flags,
    ) {
        Some(memory_type_index) => Ok(
            AllocationPlan { allocation_size: requirements.size, alignment, memory_type_index },
        ),
        None => Err(AllocationError::NoSuitableMemoryType),
    }
}

/// The descriptor actually used at creation: incoming initial data forces
/// transfer-destination usage so the upload copy can land in the buffer.
pub fn create_buffer_desc(desc: BufferDesc, has_initial_data: bool) -> (r: BufferDesc)
    ensures
        r.size == desc.size,
        r.required_memory_flags == desc.required_memory_flags,
        r.alignment == desc.alignment,
        has_initial_data ==> r.usage == desc.usage | BUFFER_USAGE_TRANSFER_DST,
        !has_initial_data ==> r.usage == desc.usage,
{
    if has_initial_data {
        BufferDesc { usage: desc.usage | BUFFER_USAGE_TRANSFER_DST, ..desc }
    } else {
        desc
    }
}

/// The staging half of an upload: a transfer source in host-visible,
/// host-coherent memory, sized to the payload.
pub fn staging_buffer_desc(size: usize) -> (r: BufferDesc)
    ensures
        r.size == size,
        r.usage == BUFFER_USAGE_TRANSFER_SRC,
        r.required_memory_flags == MEMORY_HOST_VISIBLE | MEMORY_HOST_COHERENT,
        r.alignment is None,
{
    BufferDesc {
        size,
        usage: BUFFER_USAGE_TRANSFER_SRC,
        required_memory_flags: MEMORY_HOST_VISIBLE | MEMORY_HOST_COHERENT,
        alignment: None,
    }
}

/// The destination half of an upload: a transfer destination with the
/// payload's final usage, in device-local memory.
pub fn device_local_buffer_desc(size: usize, final_usage: u32) -> (r: BufferDesc)
    ensures
        r.size == size,
        r.usage == BUFFER_USAGE_TRANSFER_DST | final_usage,
        r.required_memory_flags == MEMORY_DEVICE_LOCAL,
        r.alignment is None,
{
    BufferDesc {
        size,
        usage: BUFFER_USAGE_TRANSFER_DST | final_usage,
        required_memory_flags: MEMORY_DEVICE_LOCAL,
        alignment: None,
    }
}

/// Both halves of a staging upload.
pub struct UploadPlan {
    pub staging: BufferDesc,
    pub destination: BufferDesc,
}

/// The upload plan for vertex data of the given byte size.
pub fn vertex_buffer_upload_plan(buffer_size: usize) -> (r: UploadPlan)
    ensures
        r.staging.size == buffer_size,
        r.staging.usage == BUFFER_USAGE_TRANSFER_SRC,
        r.staging.required_memory_flags == MEMORY_HOST_VISIBLE | MEMORY_HOST_COHERENT,
        r.destination.size == buffer_size,
        r.destination.usage == BUFFER_USAGE_TRANSFER_DST | BUFFER_USAGE_VERTEX,
        r.destination.required_memory_flags == MEMORY_DEVICE_LOCAL,
{
    UploadPlan {
        staging: staging_buffer_desc(buffer_size),
        destination: device_local_buffer_desc(buffer_size, BUFFER_USAGE_VERTEX),
    }
}

/// The upload plan for index data of the given byte size.
pub fn index_buffer_upload_plan(buffer_size: usize) -> (r: UploadPlan)
    ensures
        r.staging.size == buffer_size,
        r.staging.usage == BUFFER_USAGE_TRANSFER_SRC,
        r.staging.required_memory_flags == MEMORY_HOST_VISIBLE | MEMORY_HOST_COHERENT,
        r.destination.size == buffer_size,
        r.destination.usage == BUFFER_USAGE_TRANSFER_DST | BUFFER_USAGE_INDEX,
        r.destination.required_memory_flags == MEMORY_DEVICE_LOCAL,
{
    UploadPlan {
        staging: staging_buffer_desc(buffer_size),
        destination: device_local_buffer_desc(buffer_size, BUFFER_USAGE_INDEX),
    }
}

/// The descriptor of one per-image uniform buffer: host-visible and
/// host-coherent, rewritten by the CPU every frame, never copied on the GPU.
pub fn uniform_buffer_desc(size: usize) -> (r: BufferDesc)
    ensures
        r.size == size,
        r.usage == BUFFER_USAGE_UNIFORM,
        r.required_memory_flags == MEMORY_HOST_VISIBLE | MEMORY_HOST_COHERENT,
        r.alignment is None,
{
    BufferDesc {
        size,
        usage: BUFFER_USAGE_UNIFORM,
        required_memory_flags: MEMORY_HOST_VISIBLE | MEMORY_HOST_COHERENT,
        alignment: None,
    }
}

/// One region of a buffer-to-buffer copy.
#[derive(Clone, Copy, Debug, PartialEq, Eq, Structural)]
pub struct CopyRegion {
    pub src_offset: u64,
    pub dst_offset: u64,
    pub size: u64,
}

/// The region the blocking transfer copies: the whole source buffer, start
/// to start.
pub fn copy_region(src_desc: &BufferDesc) -> (r: CopyRegion)
    ensures
        r.src_offset == 0u64,
        r.dst_offset == 0u64,
        r.size == src_desc.size as u64,
{
    CopyRegion { src_offset: 0, dst_offset: 0, size: src_desc.size as u64 }
}

/// What a full copy of `size` bytes from the start of `src` leaves in the
/// destination.
pub open spec fn spec_transfer(src: Seq<u8>, size: int) -> Seq<u8> {
    src.subrange(0, size)
}

/// The bytes a mapped host-visible buffer holds after the payload is
/// written through the mapping.
pub fn write_mapped(data: &Vec<u8>) -> (r: Vec<u8>)
    ensures
        r@ == data@,
{
    let n = data.len();
    let mut out: Vec<u8> = Vec::new();
    let mut i: usize = 0;
    while i < n
        invariant
            n == data@.len(),
            i <= n,
            out@ == data@.subrange(0, i as int),
        decreases n - i,
    {
        out.push(data[i]);
        i = i + 1;
    }
    assert(out@ =~= data@);
    out
}

/// The bytes the destination holds after the blocking copy of `size` bytes
/// from the start of `src`: the model of the transfer the setup recorder
/// submits and waits out.
pub fn copy_buffer_bytes(src: &Vec<u8>, size: usize) -> (r: Vec<u8>)
    requires
        size <= src@.len(),
    ensures
        r@ == spec_transfer(src@, size as int),
{
    let mut out: Vec<u8> = Vec::new();
    let mut i: usize = 0;
    while i < size
        invariant
            size <= src@.len(),
            i <= size,
            out@ == src@.subrange(0, i as int),
        decreases size - i,
    {
        out.push(src[i]);
        i = i + 1;
    }
    assert(out@ =~= src@.subrange(0, size as int));
    out
}

/// Law: the staging round trip is the identity. Bytes written into a
/// host-visible staging buffer, copied whole into a device-local buffer,
/// and copied whole back into a host-visible buffer read back unchanged.
pub proof fn lemma_transfer_round_trip(data: Seq<u8>)
    ensures
        spec_transfer(spec_transfer(data, data.len() as int), data.len() as int) == data,
{
    assert(spec_transfer(spec_transfer(data, data.len() as int), data.len() as int) =~= data);
}

} // verus!
