//! The renderer's own state and the decisions it makes around the GPU
//! driver: the window size it renders at, the per-frame uniform data, and the
//! descriptors, buffers and draw parameters of each frame.
use vstd::prelude::*;
use vstd::bytes::spec_u32_to_le_bytes;
use crate::gpu::{
    GpuAllocation, DESCRIPTOR_POOL_CREATE_FREE_DESCRIPTOR_SET, DESCRIPTOR_TYPE_UNIFORM_BUFFER,
    FORMAT_R32G32B32A32_SFLOAT, FORMAT_R32G32B32_SFLOAT, INDEX_TYPE_UINT16, NULL_HANDLE,
    SHADER_STAGE_VERTEX,
};
use crate::model::Model;
use crate::words::{encode_u32_words, encode_u32s, lemma_encode_u32s_layout};

verus! {

/// The number of frames that the GPU may work on at once.
pub const NUM_FRAMES_IN_FLIGHT: usize = 3;

/// The number of objects drawn per frame that descriptor sets are reserved for.
pub const MAX_OBJECTS_PER_FRAME: usize = 10;

/// The binding of the transformation uniform buffer in the vertex shader.
pub const UBO_BINDING: u32 = 0;

/// The size in bytes of the transformation uniform buffer: 32 floats.
pub const UBO_SIZE: u32 = 128;

/// The pipeline index that a renderer holds before a pipeline is created.
pub const INITIAL_PIPELINE_INDEX: u32 = 100;

/// The width a renderer starts with, in pixels.
pub const INITIAL_SCREEN_WIDTH: u32 = 1024;

/// The height a renderer starts with, in pixels.
pub const INITIAL_SCREEN_HEIGHT: u32 = 768;

/// The transformation handed to the vertex shader for a model: a 4x4 matrix,
/// the offset of the model, and padding up to 32 floats, each float as its
/// bit pattern.
#[derive(Clone, Copy, Debug)]
pub struct UboTransformation {
    pub transformation: [u32; 16],
    pub offset: [u32; 3],
    pub padding: [u32; 13],
}

impl UboTransformation {
    /// The 32 floats of the uniform buffer in memory order.
    pub open spec fn words(self) -> Seq<u32> {
        self.transformation@ + self.offset@ + self.padding@
    }

    /// The bytes of the uniform buffer as the shader reads them: the 32
    /// floats in memory order, each in little-endian order.
    pub fn to_bytes(&self) -> (bytes: Vec<u8>)
        ensures
            bytes@ == encode_u32s(self.words()),
            bytes@.len() == UBO_SIZE,
            self.bytes_in_memory_order(bytes@),
    {
        let mut words: Vec<u32> = Vec::new();
        words.extend_from_slice(self.transformation.as_slice());
        words.extend_from_slice(self.offset.as_slice());
        words.extend_from_slice(self.padding.as_slice());
        assert(words@ =~= self.words());
        proof {
            lemma_encode_u32s_layout(words@);
            lemma_ubo_bytes_layout(*self);
        }
        encode_u32_words(words.as_slice())
    }

    /// Whether `bytes` hold the transformation as the shader reads it: the
    /// 16 matrix floats at bytes `0..64`, the 3 offset floats at `64..76`
    /// and the 13 padding floats at `76..128`, each float in little-endian
    /// order.
    pub open spec fn bytes_in_memory_order(self, bytes: Seq<u8>) -> bool {
        &&& bytes.len() == 128
        &&& forall|i: int|
            0 <= i < 16 ==> #[trigger] bytes.subrange(4 * i, 4 * i + 4) == spec_u32_to_le_bytes(
                self.transformation[i],
            )
        &&& forall|i: int|
            0 <= i < 3 ==> #[trigger] bytes.subrange(64 + 4 * i, 68 + 4 * i)
                == spec_u32_to_le_bytes(self.offset[i])
        &&& forall|j: int|
            0 <= j < 13 ==> #[trigger] bytes.subrange(76 + 4 * j, 80 + 4 * j)
                == spec_u32_to_le_bytes(self.padding[j])
    }
}

/// The 32 floats of the uniform buffer come in memory order: the matrix
/// (floats 0 to 15), then the offset (16 to 18), then the padding (19 to
/// 31).
pub proof fn lemma_ubo_words_layout(ubo: UboTransformation)
    ensures
        ubo.words().len() == 32,
        forall|i: int| 0 <= i < 16 ==> #[trigger] ubo.words()[i] == ubo.transformation[i],
        forall|i: int| 0 <= i < 3 ==> #[trigger] ubo.words()[16 + i] == ubo.offset[i],
        forall|j: int| 0 <= j < 13 ==> #[trigger] ubo.words()[19 + j] == ubo.padding[j],
{
}

/// The bytes that a transformation is written as hold each of its floats in
/// memory order, the offset at bytes `64..76`.
pub proof fn lemma_ubo_bytes_layout(ubo: UboTransformation)
    ensures
        ubo.bytes_in_memory_order(encode_u32s(ubo.words())),
{
    lemma_ubo_words_layout(ubo);
    lemma_encode_u32s_layout(ubo.words());
    let bytes = encode_u32s(ubo.words());
    assert forall|i: int| 0 <= i < 3 implies #[trigger] bytes.subrange(64 + 4 * i, 68 + 4 * i)
        == spec_u32_to_le_bytes(ubo.offset[i]) by {
        assert(bytes.subrange(4 * (16 + i), 4 * (16 + i) + 4) == spec_u32_to_le_bytes(
            ubo.words()[16 + i],
        ));
    }
    assert forall|j: int| 0 <= j < 13 implies #[trigger] bytes.subrange(76 + 4 * j, 80 + 4 * j)
        == spec_u32_to_le_bytes(ubo.padding[j]) by {
        assert(bytes.subrange(4 * (19 + j), 4 * (19 + j) + 4) == spec_u32_to_le_bytes(
            ubo.words()[19 + j],
        ));
    }
    assert forall|i: int| 0 <= i < 16 implies #[trigger] bytes.subrange(4 * i, 4 * i + 4)
        == spec_u32_to_le_bytes(ubo.transformation[i]) by {
        assert(bytes.subrange(4 * i, 4 * i + 4) == spec_u32_to_le_bytes(ubo.words()[i]));
    }
}

impl Default for UboTransformation {
    /// The identity of nothing: every float is `0.0`.
    fn default() -> (ubo: Self)
        ensures
            ubo.words() == Seq::new(32, |i: int| 0u32),
    {
        let ubo = UboTransformation {
            transformation: [0, 0, 0, 0, 0, 0, 0, 0, 0, 0, 0, 0, 0, 0, 0, 0],
            offset: [0, 0, 0],
            padding: [0, 0, 0, 0, 0, 0, 0, 0, 0, 0, 0, 0, 0],
        };
        assert(ubo.words() =~= Seq::new(32, |i: int| 0u32));
        ubo
    }
}

/// One vertex input binding: the binding number and the stride in bytes
/// between consecutive vertices (per-vertex input rate).
#[derive(Clone, Copy, Debug, PartialEq, Eq, Structural)]
pub struct VertexBinding {
    pub binding: u32,
    pub stride: u32,
}

/// One vertex input attribute: its shader location, the binding it is read
/// from, its format and its offset in the vertex.
#[derive(Clone, Copy, Debug, PartialEq, Eq, Structural)]
pub struct VertexAttribute {
    pub location: u32,
    pub binding: u32,
    pub format: u32,
    pub offset: u32,
}

/// The vertex bindings of the pipeline: positions (four floats per vertex)
/// at binding 0, normals (three floats per vertex) at binding 1.
pub fn vertex_binding_descriptions() -> (bindings: [VertexBinding; 2])
    ensures
        bindings[0] == (VertexBinding { binding: 0, stride: 16 }),
        bindings[1] == (VertexBinding { binding: 1, stride: 12 }),
{
    [VertexBinding { binding: 0, stride: 4 * 4 }, VertexBinding { binding: 1, stride: 3 * 4 }]
}

/// The vertex attributes of the pipeline: the position (four floats) at
/// location 0 from binding 0, the normal (three floats) at location 1 from
/// binding 1.
pub fn vertex_attribute_descriptions() -> (attributes: [VertexAttribute; 2])
    ensures
        attributes[0] == (VertexAttribute {
            location: 0,
            binding: 0,
            format: FORMAT_R32G32B32A32_SFLOAT,
            offset: 0,
        }),
        attributes[1] == (VertexAttribute {
            location: 1,
            binding: 1,
            format: FORMAT_R32G32B32_SFLOAT,
            offset: 0,
        }),
{
    [
        VertexAttribute { location: 0, binding: 0, format: FORMAT_R32G32B32A32_SFLOAT, offset: 0 },
        VertexAttribute { location: 1, binding: 1, format: FORMAT_R32G32B32_SFLOAT, offset: 0 },
    ]
}

/// A number of descriptors of one type that a descriptor pool provides.
#[derive(Clone, Copy, Debug, PartialEq, Eq, Structural)]
pub struct DescriptorPoolSize {
    pub descriptor_type: u32,
    pub descriptor_count: u32,
}

/// The parameters of the descriptor pool.
#[derive(Clone, Copy, Debug)]
pub struct DescriptorPoolInfo {
    pub pool_sizes: [DescriptorPoolSize; NUM_FRAMES_IN_FLIGHT],
    pub max_sets: u32,
    pub flags: u32,
}

/// A binding of the descriptor set layout.
#[derive(Clone, Copy, Debug, PartialEq, Eq, Structural)]
pub struct DescriptorSetLayoutBinding {
    pub binding: u32,
    pub descriptor_type: u32,
    pub descriptor_count: u32,
    pub stage_flags: u32,
}

/// A write of a uniform buffer range into a binding of a descriptor set.
#[derive(Clone, Copy, Debug, PartialEq, Eq, Structural)]
pub struct DescriptorWrite {
    pub dst_set: u64,
    pub dst_binding: u32,
    pub dst_array_element: u32,
    pub descriptor_count: u32,
    pub descriptor_type: u32,
    pub buffer: u64,
    pub offset: u64,
    pub range: u64,
}

/// The parameters of the descriptor pool: one uniform buffer descriptor for
/// each frame in flight, room for a set per object and frame, and sets that
/// can be freed one by one.
pub fn descriptor_pool_info() -> (info: DescriptorPoolInfo)
    ensures
        forall|i: int|
            0 <= i < NUM_FRAMES_IN_FLIGHT ==> #[trigger] info.pool_sizes[i] == (DescriptorPoolSize {
                descriptor_type: DESCRIPTOR_TYPE_UNIFORM_BUFFER,
                descriptor_count: 1,
            }),
        info.max_sets == NUM_FRAMES_IN_FLIGHT * MAX_OBJECTS_PER_FRAME,
        info.flags == DESCRIPTOR_POOL_CREATE_FREE_DESCRIPTOR_SET,
{
    let size = DescriptorPoolSize {
        descriptor_type: DESCRIPTOR_TYPE_UNIFORM_BUFFER,
        descriptor_count: 1,
    };
    DescriptorPoolInfo {
        pool_sizes: [size, size, size],
        max_sets: NUM_FRAMES_IN_FLIGHT as u32 * MAX_OBJECTS_PER_FRAME as u32,
        flags: DESCRIPTOR_POOL_CREATE_FREE_DESCRIPTOR_SET,
    }
}

/// The single binding of the descriptor set layout: one uniform buffer at
/// the transformation's binding, read by the vertex shader.
pub fn descriptor_set_layout_binding() -> (b: DescriptorSetLayoutBinding)
    ensures
        b == (DescriptorSetLayoutBinding {
            binding: UBO_BINDING,
            descriptor_type: DESCRIPTOR_TYPE_UNIFORM_BUFFER,
            descriptor_count: 1,
            stage_flags: SHADER_STAGE_VERTEX,
        }),
{
    DescriptorSetLayoutBinding {
        binding: UBO_BINDING,
        descriptor_type: DESCRIPTOR_TYPE_UNIFORM_BUFFER,
        descriptor_count: 1,
        stage_flags: SHADER_STAGE_VERTEX,
    }
}

/// The size a renderer uses for a window dimension: the dimension itself,
/// or one pixel where the window reports zero.
pub open spec fn screen_extent(d: u32) -> u32 {
    if d == 0 {
        1
    } else {
        d
    }
}

/// A window dimension is always taken as at least one pixel, and a size the
/// renderer already has is kept as it is.
pub proof fn lemma_screen_extent(d: u32)
    ensures
        screen_extent(d) >= 1,
        screen_extent(screen_extent(d)) == screen_extent(d),
        d >= 1 ==> screen_extent(d) == d,
{
}

/// The GPU work of one frame: which frame slot (command buffer, uniform
/// buffer, descriptor set) it uses, the uniform data to write, and what to
/// bind and draw.
#[derive(Debug)]
pub struct FramePlan {
    pub frame: usize,
    pub ubo_memory: u64,
    pub ubo_bytes: Vec<u8>,
    pub pipeline_index: u32,
    pub vertex_buffers: [u64; 2],
    pub vertex_offsets: [u64; 2],
    pub index_buffer: u64,
    pub index_type: u32,
    pub descriptor_set: u64,
    pub index_count: u32,
}

/// What shutting the renderer down releases: the pipeline, the descriptor
/// sets (freed one by one), the descriptor pool and the uniform buffers.
#[derive(Clone, Copy, Debug)]
pub struct ShutdownPlan {
    pub pipeline_index: u32,
    pub descriptor_sets: [u64; NUM_FRAMES_IN_FLIGHT],
    pub descriptor_pool: u64,
    pub ubo_buffers: [GpuAllocation; NUM_FRAMES_IN_FLIGHT],
}

/// What a renderer holds: the pipeline it draws with, the size it renders
/// at, its descriptor pool, and per frame in flight a descriptor set and a
/// uniform buffer (with its memory) holding `ubo`.
#[derive(Clone, Copy, Debug)]
pub struct RendererState {
    pub pipeline_index: u32,
    pub real_screen_width: u32,
    pub real_screen_height: u32,
    pub descriptor_pool: u64,
    pub descriptor_set: [u64; NUM_FRAMES_IN_FLIGHT],
    pub ubo_buffer: [u64; NUM_FRAMES_IN_FLIGHT],
    pub ubo_buffer_memory: [u64; NUM_FRAMES_IN_FLIGHT],
    pub ubo: UboTransformation,
}

/// Whether `after` holds the same pipeline, size, pool, descriptor sets,
/// uniform buffers and transformation as `before`.
pub open spec fn same_state(before: RendererState, after: RendererState) -> bool {
    &&& after.pipeline_index == before.pipeline_index
    &&& after.real_screen_width == before.real_screen_width
    &&& after.real_screen_height == before.real_screen_height
    &&& after.descriptor_pool == before.descriptor_pool
    &&& after.descriptor_set@ == before.descriptor_set@
    &&& after.ubo_buffer@ == before.ubo_buffer@
    &&& after.ubo_buffer_memory@ == before.ubo_buffer_memory@
    &&& after.ubo.words() == before.ubo.words()
}

/// The renderer. Its size is at all times at least one pixel each way.
#[derive(Debug)]
pub struct Renderer {
    state: RendererState,
}

impl View for Renderer {
    type V = RendererState;

    closed spec fn view(&self) -> RendererState {
        self.state
    }
}

impl Renderer {
    #[verifier::type_invariant]
    spec fn has_valid_extent(self) -> bool {
        self.state.real_screen_width >= 1 && self.state.real_screen_height >= 1
    }

    /// A renderer before any GPU object exists: the initial pipeline index,
    /// a 1024 x 768 screen, no descriptor pool, sets or uniform buffers, and
    /// an all-zero transformation.
    pub fn new() -> (r: Renderer)
        ensures
            r@.pipeline_index == INITIAL_PIPELINE_INDEX,
            r@.real_screen_width == INITIAL_SCREEN_WIDTH,
            r@.real_screen_height == INITIAL_SCREEN_HEIGHT,
            r@.descriptor_pool == NULL_HANDLE,
            forall|n: int|
                0 <= n < NUM_FRAMES_IN_FLIGHT ==> {
                    &&& #[trigger] r@.descriptor_set[n] == NULL_HANDLE
                    &&& r@.ubo_buffer[n] == NULL_HANDLE
                    &&& r@.ubo_buffer_memory[n] == NULL_HANDLE
                },
            r@.ubo.words() == Seq::new(32, |i: int| 0u32),
    {
        Renderer {
            state: RendererState {
                pipeline_index: INITIAL_PIPELINE_INDEX,
                real_screen_width: INITIAL_SCREEN_WIDTH,
                real_screen_height: INITIAL_SCREEN_HEIGHT,
                descriptor_pool: NULL_HANDLE,
                descriptor_set: [NULL_HANDLE, NULL_HANDLE, NULL_HANDLE],
                ubo_buffer: [NULL_HANDLE, NULL_HANDLE, NULL_HANDLE],
                ubo_buffer_memory: [NULL_HANDLE, NULL_HANDLE, NULL_HANDLE],
                ubo: UboTransformation::default(),
            },
        }
    }

    /// The width and height the renderer renders at; whatever calls the
    /// renderer went through, each is at least one pixel.
    pub fn screen_size(&self) -> (size: (u32, u32))
        ensures
            size == (self@.real_screen_width, self@.real_screen_height),
            size.0 >= 1,
            size.1 >= 1,
    {
        proof {
            use_type_invariant(self);
        }
        (self.state.real_screen_width, self.state.real_screen_height)
    }

    /// The index of the pipeline the renderer draws with.
    pub fn pipeline_index(&self) -> (index: u32)
        ensures
            index == self@.pipeline_index,
    {
        self.state.pipeline_index
    }

    /// The descriptor pool of the renderer.
    pub fn descriptor_pool(&self) -> (pool: u64)
        ensures
            pool == self@.descriptor_pool,
    {
        self.state.descriptor_pool
    }

    /// The descriptor set of frame `n`.
    pub fn descriptor_set(&self, n: usize) -> (set: u64)
        requires
            n < NUM_FRAMES_IN_FLIGHT,
        ensures
            set == self@.descriptor_set[n as int],
    {
        self.state.descriptor_set[n]
    }

    /// The uniform buffer of frame `n`, with its memory.
    pub fn ubo_buffer(&self, n: usize) -> (ubo: GpuAllocation)
        requires
            n < NUM_FRAMES_IN_FLIGHT,
        ensures
            ubo == (GpuAllocation {
                buffer: self@.ubo_buffer[n as int],
                memory: self@.ubo_buffer_memory[n as int],
            }),
    {
        GpuAllocation { buffer: self.state.ubo_buffer[n], memory: self.state.ubo_buffer_memory[n] }
    }

    /// The transformation handed to the vertex shader.
    pub fn ubo(&self) -> (ubo: UboTransformation)
        ensures
            ubo == self@.ubo,
    {
        self.state.ubo
    }

    /// Records the pipeline that the renderer draws with.
    pub fn set_pipeline_index(&mut self, index: u32)
        ensures
            final(self)@ == (RendererState { pipeline_index: index, ..old(self)@ }),
    {
        proof {
            use_type_invariant(&*self);
        }
        self.state.pipeline_index = index;
    }

    /// Records the renderer's descriptor pool.
    pub fn set_descriptor_pool(&mut self, pool: u64)
        ensures
            final(self)@ == (RendererState { descriptor_pool: pool, ..old(self)@ }),
    {
        proof {
            use_type_invariant(&*self);
        }
        self.state.descriptor_pool = pool;
    }

    /// Records the descriptor set of frame `n`.
    pub fn set_descriptor_set(&mut self, n: usize, set: u64)
        requires
            n < NUM_FRAMES_IN_FLIGHT,
        ensures
            final(self)@.descriptor_set@ == old(self)@.descriptor_set@.update(n as int, set),
            final(self)@ == (RendererState { descriptor_set: final(self)@.descriptor_set, ..old(self)@ }),
    {
        proof {
            use_type_invariant(&*self);
        }
        let mut sets = self.state.descriptor_set;
        sets[n] = set;
        self.state.descriptor_set = sets;
    }

    /// Records the uniform buffer of frame `n`, with its memory.
    pub fn set_ubo_buffer(&mut self, n: usize, ubo: GpuAllocation)
        requires
            n < NUM_FRAMES_IN_FLIGHT,
        ensures
            final(self)@.ubo_buffer@ == old(self)@.ubo_buffer@.update(n as int, ubo.buffer),
            final(self)@.ubo_buffer_memory@ == old(self)@.ubo_buffer_memory@.update(
                n as int,
                ubo.memory,
            ),
            final(self)@ == (RendererState {
                ubo_buffer: final(self)@.ubo_buffer,
                ubo_buffer_memory: final(self)@.ubo_buffer_memory,
                ..old(self)@
            }),
    {
        proof {
            use_type_invariant(&*self);
        }
        let mut buffers = self.state.ubo_buffer;
        let mut memories = self.state.ubo_buffer_memory;
        buffers[n] = ubo.buffer;
        memories[n] = ubo.memory;
        self.state.ubo_buffer = buffers;
        self.state.ubo_buffer_memory = memories;
    }

    /// Sets the width and height of the rendering window in pixels, also on
    /// a resize of the window; a zero dimension is taken as one pixel.
    /// Returns the width and height to hand to the swapchain.
    pub fn set_width_height(&mut self, width: u32, height: u32) -> (extent: (u32, u32))
        ensures
            final(self)@ == (RendererState {
                real_screen_width: screen_extent(width),
                real_screen_height: screen_extent(height),
                ..old(self)@
            }),
            extent == (screen_extent(width), screen_extent(height)),
    {
        proof {
            use_type_invariant(&*self);
        }
        let real_screen_width = if width == 0 {
            1
        } else {
            width
        };
        let real_screen_height = if height == 0 {
            1
        } else {
            height
        };
        self.state.real_screen_width = real_screen_width;
        self.state.real_screen_height = real_screen_height;
        (real_screen_width, real_screen_height)
    }

    /// The writes that point the descriptor set of each frame at that
    /// frame's uniform buffer, whole.
    pub fn descriptor_writes(&self) -> (writes: [DescriptorWrite; NUM_FRAMES_IN_FLIGHT])
        ensures
            forall|n: int|
                0 <= n < NUM_FRAMES_IN_FLIGHT ==> #[trigger] writes[n] == (DescriptorWrite {
                    dst_set: self@.descriptor_set[n],
                    dst_binding: UBO_BINDING,
                    dst_array_element: 0,
                    descriptor_count: 1,
                    descriptor_type: DESCRIPTOR_TYPE_UNIFORM_BUFFER,
                    buffer: self@.ubo_buffer[n],
                    offset: 0,
                    range: UBO_SIZE as u64,
                }),
    {
        let w0 = self.descriptor_write(0);
        let w1 = self.descriptor_write(1);
        let w2 = self.descriptor_write(2);
        [w0, w1, w2]
    }

    /// The write that points the descriptor set of frame `n` at that frame's
    /// uniform buffer.
    fn descriptor_write(&self, n: usize) -> (w: DescriptorWrite)
        requires
            n < NUM_FRAMES_IN_FLIGHT,
        ensures
            w == (DescriptorWrite {
                dst_set: self@.descriptor_set[n as int],
                dst_binding: UBO_BINDING,
                dst_array_element: 0,
                descriptor_count: 1,
                descriptor_type: DESCRIPTOR_TYPE_UNIFORM_BUFFER,
                buffer: self@.ubo_buffer[n as int],
                offset: 0,
                range: UBO_SIZE as u64,
            }),
    {
        DescriptorWrite {
            dst_set: self.state.descriptor_set[n],
            dst_binding: UBO_BINDING,
            dst_array_element: 0,
            descriptor_count: 1,
            descriptor_type: DESCRIPTOR_TYPE_UNIFORM_BUFFER,
            buffer: self.state.ubo_buffer[n],
            offset: 0,
            range: UBO_SIZE as u64,
        }
    }

    /// Takes the descriptor sets of all frames for freeing, leaving none.
    pub fn take_descriptor_sets(&mut self) -> (sets: [u64; NUM_FRAMES_IN_FLIGHT])
        ensures
            sets == old(self)@.descriptor_set,
            forall|n: int|
                0 <= n < NUM_FRAMES_IN_FLIGHT ==> #[trigger] final(self)@.descriptor_set[n]
                    == NULL_HANDLE,
            final(self)@ == (RendererState { descriptor_set: final(self)@.descriptor_set, ..old(self)@ }),
    {
        proof {
            use_type_invariant(&*self);
        }
        let sets = self.state.descriptor_set;
        self.state.descriptor_set = [NULL_HANDLE, NULL_HANDLE, NULL_HANDLE];
        sets
    }

    /// Prepares frame `frame_index` (as the swapchain reported it) for
    /// drawing model `m` at `offset`: the offset goes into the transformation,
    /// whose bytes are written to the frame's uniform buffer; then the
    /// model's vertex buffer (at binding 0), its 16-bit index buffer and the
    /// frame's descriptor set are bound, and every index held in the index
    /// buffer (two bytes each) is drawn. A model keeps no normals on the GPU,
    /// so no buffer is bound at the normals' binding 1.
    pub fn begin_frame(&mut self, m: &Model, offset: [u32; 3], frame_index: u32) -> (plan: FramePlan)
        requires
            frame_index < NUM_FRAMES_IN_FLIGHT,
        ensures
            final(self)@ == (RendererState {
                ubo: UboTransformation { offset, ..old(self)@.ubo },
                ..old(self)@
            }),
            plan.frame == frame_index,
            plan.ubo_memory == old(self)@.ubo_buffer_memory[frame_index as int],
            plan.ubo_bytes@ == encode_u32s(final(self)@.ubo.words()),
            final(self)@.ubo.bytes_in_memory_order(plan.ubo_bytes@),
            forall|i: int|
                0 <= i < 3 ==> #[trigger] plan.ubo_bytes@.subrange(64 + 4 * i, 68 + 4 * i)
                    == spec_u32_to_le_bytes(offset[i]),
            plan.pipeline_index == old(self)@.pipeline_index,
            plan.vertex_buffers == [m.vertex_buffer, NULL_HANDLE],
            plan.vertex_offsets == [0u64, 0u64],
            plan.index_buffer == m.index_buffer,
            plan.index_type == INDEX_TYPE_UINT16,
            plan.descriptor_set == old(self)@.descriptor_set[frame_index as int],
            plan.index_count == m.index_data_size / 2,
    {
        proof {
            use_type_invariant(&*self);
        }
        let frame = frame_index as usize;
        self.state.ubo.offset = offset;
        let ubo_bytes = self.state.ubo.to_bytes();
        FramePlan {
            frame,
            ubo_memory: self.state.ubo_buffer_memory[frame],
            ubo_bytes,
            pipeline_index: self.state.pipeline_index,
            vertex_buffers: [m.vertex_buffer, NULL_HANDLE],
            vertex_offsets: [0, 0],
            index_buffer: m.index_buffer,
            index_type: INDEX_TYPE_UINT16,
            descriptor_set: self.state.descriptor_set[frame],
            index_count: m.index_data_size / 2,
        }
    }

    /// Shuts the renderer down: returns the pipeline, the descriptor sets,
    /// the descriptor pool and the uniform buffers to release, and forgets
    /// the descriptor sets.
    pub fn shutdown(&mut self) -> (plan: ShutdownPlan)
        ensures
            plan.pipeline_index == old(self)@.pipeline_index,
            plan.descriptor_sets == old(self)@.descriptor_set,
            plan.descriptor_pool == old(self)@.descriptor_pool,
            forall|n: int|
                0 <= n < NUM_FRAMES_IN_FLIGHT ==> #[trigger] plan.ubo_buffers[n] == (GpuAllocation {
                    buffer: old(self)@.ubo_buffer[n],
                    memory: old(self)@.ubo_buffer_memory[n],
                }),
            forall|n: int|
                0 <= n < NUM_FRAMES_IN_FLIGHT ==> #[trigger] final(self)@.descriptor_set[n]
                    == NULL_HANDLE,
            final(self)@ == (RendererState { descriptor_set: final(self)@.descriptor_set, ..old(self)@ }),
    {
        proof {
            use_type_invariant(&*self);
        }
        let ubo_buffers = [
            GpuAllocation {
                buffer: self.state.ubo_buffer[0],
                memory: self.state.ubo_buffer_memory[0],
            },
            GpuAllocation {
                buffer: self.state.ubo_buffer[1],
                memory: self.state.ubo_buffer_memory[1],
            },
            GpuAllocation {
                buffer: self.state.ubo_buffer[2],
                memory: self.state.ubo_buffer_memory[2],
            },
        ];
        let descriptor_sets = self.take_descriptor_sets();
        ShutdownPlan {
            pipeline_index: self.state.pipeline_index,
            descriptor_sets,
            descriptor_pool: self.state.descriptor_pool,
            ubo_buffers,
        }
    }
}

/// Whether the descriptor sets must be written again before a frame is
/// drawn: so where the driver reports a new pipeline state (flag value 1).
pub fn descriptor_sets_stale(new_pipeline_state: i32) -> (stale: bool)
    ensures
        stale == (new_pipeline_state == 1),
{
    new_pipeline_state == 1
}

} // verus!
