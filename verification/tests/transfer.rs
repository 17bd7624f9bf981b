//! The staging-transfer path: allocation planning and the byte round trip.

use cranberries_backend::buffer::{
    copy_buffer_bytes, copy_region, create_buffer_desc, device_local_buffer_desc,
    index_buffer_upload_plan, plan_buffer_allocation, staging_buffer_desc, uniform_buffer_desc,
    vertex_buffer_upload_plan, write_mapped, AllocationError, BufferDesc,
};
use cranberries_backend::image::plan_image_allocation;
use cranberries_backend::vk::{
    MemoryRequirements, BUFFER_USAGE_INDEX, BUFFER_USAGE_SHADER_BINDING_TABLE,
    BUFFER_USAGE_TRANSFER_DST, BUFFER_USAGE_TRANSFER_SRC, BUFFER_USAGE_UNIFORM,
    BUFFER_USAGE_VERTEX, MEMORY_DEVICE_LOCAL, MEMORY_HOST_COHERENT, MEMORY_HOST_VISIBLE,
};

fn requirements(size: u64, alignment: u64, bits: u32) -> MemoryRequirements {
    MemoryRequirements { size, alignment, memory_type_bits: bits }
}

#[test]
fn staging_round_trip_reads_back_identical_bytes() {
    let data: Vec<u8> = vec![0, 1, 2, 250, 251, 255, 42];
    // Write the payload into the host-visible staging buffer...
    let staging = write_mapped(&data);
    // ...copy it whole into the device-local buffer...
    let device_local = copy_buffer_bytes(&staging, staging.len());
    // ...and read it back through a host-visible buffer fed by the
    // reverse copy.
    let readback = copy_buffer_bytes(&device_local, device_local.len());
    assert_eq!(readback, data);
}

#[test]
fn empty_payload_round_trips() {
    let data: Vec<u8> = Vec::new();
    let staging = write_mapped(&data);
    let back = copy_buffer_bytes(&staging, 0);
    assert_eq!(back, data);
}

#[test]
fn upload_plans_pair_staging_with_device_local_destination() {
    let plan = vertex_buffer_upload_plan(256);
    assert_eq!(plan.staging.size, 256);
    assert_eq!(plan.staging.usage, BUFFER_USAGE_TRANSFER_SRC);
    assert_eq!(
        plan.staging.required_memory_flags,
        MEMORY_HOST_VISIBLE | MEMORY_HOST_COHERENT
    );
    assert_eq!(plan.destination.size, 256);
    assert_eq!(
        plan.destination.usage,
        BUFFER_USAGE_TRANSFER_DST | BUFFER_USAGE_VERTEX
    );
    assert_eq!(plan.destination.required_memory_flags, MEMORY_DEVICE_LOCAL);

    let plan = index_buffer_upload_plan(48);
    assert_eq!(
        plan.destination.usage,
        BUFFER_USAGE_TRANSFER_DST | BUFFER_USAGE_INDEX
    );

    let uniform = uniform_buffer_desc(192);
    assert_eq!(uniform.usage, BUFFER_USAGE_UNIFORM);
    assert_eq!(
        uniform.required_memory_flags,
        MEMORY_HOST_VISIBLE | MEMORY_HOST_COHERENT
    );
}

#[test]
fn copy_region_covers_the_whole_source() {
    let desc = staging_buffer_desc(1234);
    let region = copy_region(&desc);
    assert_eq!(region.src_offset, 0);
    assert_eq!(region.dst_offset, 0);
    assert_eq!(region.size, 1234);
}

#[test]
fn initial_data_forces_transfer_destination_usage() {
    let desc = device_local_buffer_desc(64, BUFFER_USAGE_VERTEX);
    let with = create_buffer_desc(desc, true);
    assert_eq!(with.usage, desc.usage | BUFFER_USAGE_TRANSFER_DST);
    let without = create_buffer_desc(desc, false);
    assert_eq!(without.usage, desc.usage);
}

#[test]
fn allocation_plan_selects_superset_memory_type() {
    let flags = vec![MEMORY_DEVICE_LOCAL, MEMORY_HOST_VISIBLE | MEMORY_HOST_COHERENT];
    let desc = staging_buffer_desc(100);
    let plan =
        plan_buffer_allocation(&desc, requirements(128, 16, 0b11), &flags).unwrap();
    assert_eq!(plan.memory_type_index, 1);
    assert_eq!(plan.allocation_size, 128);
    assert_eq!(plan.alignment, 16);
}

#[test]
fn allocation_fails_without_a_suitable_type() {
    // Type 1 has the right flags but is filtered out by the resource;
    // creation must fail rather than choose an unsuitable type.
    let flags = vec![MEMORY_DEVICE_LOCAL, MEMORY_HOST_VISIBLE | MEMORY_HOST_COHERENT];
    let desc = staging_buffer_desc(100);
    let r = plan_buffer_allocation(&desc, requirements(128, 16, 0b01), &flags);
    assert!(matches!(r, Err(AllocationError::NoSuitableMemoryType)));
}

#[test]
fn allocation_alignment_is_raised_for_explicit_and_binding_table_needs() {
    let flags = vec![MEMORY_DEVICE_LOCAL];
    let mut desc = BufferDesc {
        size: 100,
        usage: 0,
        required_memory_flags: MEMORY_DEVICE_LOCAL,
        alignment: Some(256),
    };
    let plan = plan_buffer_allocation(&desc, requirements(128, 16, 0b1), &flags).unwrap();
    assert_eq!(plan.alignment, 256);

    desc.alignment = None;
    desc.usage = BUFFER_USAGE_SHADER_BINDING_TABLE;
    let plan = plan_buffer_allocation(&desc, requirements(128, 16, 0b1), &flags).unwrap();
    assert_eq!(plan.alignment, 64);

    let plan = plan_buffer_allocation(&desc, requirements(128, 128, 0b1), &flags).unwrap();
    assert_eq!(plan.alignment, 128);
}

#[test]
fn image_allocation_plans_like_buffers() {
    let flags = vec![MEMORY_HOST_VISIBLE, MEMORY_DEVICE_LOCAL];
    let plan =
        plan_image_allocation(requirements(4096, 256, 0b10), MEMORY_DEVICE_LOCAL, &flags).unwrap();
    assert_eq!(plan.memory_type_index, 1);
    assert_eq!(plan.allocation_size, 4096);
    assert!(plan_image_allocation(requirements(4096, 256, 0b01), MEMORY_DEVICE_LOCAL, &flags)
        .is_err());
}
