//! The uniform buffers that carry a model's transformation to the shader.
use vstd::prelude::*;
use crate::gpu::{
    BufferRequest, BUFFER_USAGE_UNIFORM_BUFFER, MEMORY_PROPERTY_HOST_COHERENT,
    MEMORY_PROPERTY_HOST_VISIBLE,
};
use crate::renderer::UBO_SIZE;

verus! {

/// The buffer that holds a transformation: a uniform buffer of its size, in
/// memory that the host can map and that stays coherent with the device.
pub fn ubo_buffer_request() -> (request: BufferRequest)
    ensures
        request == (BufferRequest {
            usage: BUFFER_USAGE_UNIFORM_BUFFER,
            size: UBO_SIZE,
            memory_properties: MEMORY_PROPERTY_HOST_VISIBLE | MEMORY_PROPERTY_HOST_COHERENT,
        }),
{
    BufferRequest {
        usage: BUFFER_USAGE_UNIFORM_BUFFER,
        size: UBO_SIZE,
        memory_properties: MEMORY_PROPERTY_HOST_VISIBLE | MEMORY_PROPERTY_HOST_COHERENT,
    }
}

} // verus!
