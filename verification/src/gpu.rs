//! What the library hands to the GPU driver: buffer requests, the handles of
//! the buffers it created, and the Vulkan flag values these are made of.
use vstd::prelude::*;

verus! {

/// `VK_BUFFER_USAGE_TRANSFER_SRC_BIT`.
pub const BUFFER_USAGE_TRANSFER_SRC: u32 = 0x1;

/// `VK_BUFFER_USAGE_TRANSFER_DST_BIT`.
pub const BUFFER_USAGE_TRANSFER_DST: u32 = 0x2;

/// `VK_BUFFER_USAGE_UNIFORM_BUFFER_BIT`.
pub const BUFFER_USAGE_UNIFORM_BUFFER: u32 = 0x10;

/// `VK_BUFFER_USAGE_INDEX_BUFFER_BIT`.
pub const BUFFER_USAGE_INDEX_BUFFER: u32 = 0x40;

/// `VK_BUFFER_USAGE_VERTEX_BUFFER_BIT`.
pub const BUFFER_USAGE_VERTEX_BUFFER: u32 = 0x80;

/// `VK_MEMORY_PROPERTY_DEVICE_LOCAL_BIT`.
pub const MEMORY_PROPERTY_DEVICE_LOCAL: u32 = 0x1;

/// `VK_MEMORY_PROPERTY_HOST_VISIBLE_BIT`.
pub const MEMORY_PROPERTY_HOST_VISIBLE: u32 = 0x2;

/// `VK_MEMORY_PROPERTY_HOST_COHERENT_BIT`.
pub const MEMORY_PROPERTY_HOST_COHERENT: u32 = 0x4;

/// `VK_DESCRIPTOR_TYPE_UNIFORM_BUFFER`.
pub const DESCRIPTOR_TYPE_UNIFORM_BUFFER: u32 = 6;

/// `VK_DESCRIPTOR_POOL_CREATE_FREE_DESCRIPTOR_SET_BIT`.
pub const DESCRIPTOR_POOL_CREATE_FREE_DESCRIPTOR_SET: u32 = 0x1;

/// `VK_SHADER_STAGE_VERTEX_BIT`.
pub const SHADER_STAGE_VERTEX: u32 = 0x1;

/// `VK_INDEX_TYPE_UINT16`.
pub const INDEX_TYPE_UINT16: u32 = 0;

/// `VK_FORMAT_R32G32B32_SFLOAT`.
pub const FORMAT_R32G32B32_SFLOAT: u32 = 106;

/// `VK_FORMAT_R32G32B32A32_SFLOAT`.
pub const FORMAT_R32G32B32A32_SFLOAT: u32 = 109;

/// The handle that stands for "no object" (`VK_NULL_HANDLE`).
pub const NULL_HANDLE: u64 = 0;

/// A buffer created on the GPU together with the memory bound to it, each
/// given by its handle.
#[derive(Clone, Copy, Debug, PartialEq, Eq, Structural)]
pub struct GpuAllocation {
    pub buffer: u64,
    pub memory: u64,
}

impl GpuAllocation {
    /// No buffer and no memory.
    pub fn null() -> (a: GpuAllocation)
        ensures
            a.buffer == NULL_HANDLE,
            a.memory == NULL_HANDLE,
    {
        GpuAllocation { buffer: NULL_HANDLE, memory: NULL_HANDLE }
    }
}

/// The parameters of one buffer to create: its usage flags, its size in
/// bytes and the properties that its memory must have.
#[derive(Clone, Copy, Debug, PartialEq, Eq, Structural)]
pub struct BufferRequest {
    pub usage: u32,
    pub size: u32,
    pub memory_properties: u32,
}

/// Data that goes to a device-local buffer through a host-visible staging
/// buffer of the same size: the staging buffer is filled with `bytes`, then
/// copied into the device buffer, then destroyed.
#[derive(Debug)]
pub struct StagedUpload {
    pub device: BufferRequest,
    pub staging: BufferRequest,
    pub bytes: Vec<u8>,
}

} // verus!
