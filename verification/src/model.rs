//! A mesh read from a glTF (glb) file: its vertex positions, normals and
//! indices, and the GPU buffers that hold them once uploaded.
//!
//! Floating-point values are carried as their IEEE-754 bit patterns (`u32`),
//! exactly as they stand in the file; nothing here computes with them.
use vstd::prelude::*;
use vstd::slice::slice_subrange;
use crate::gpu::{
    BufferRequest, GpuAllocation, StagedUpload, BUFFER_USAGE_INDEX_BUFFER,
    BUFFER_USAGE_TRANSFER_DST, BUFFER_USAGE_TRANSFER_SRC, BUFFER_USAGE_VERTEX_BUFFER,
    MEMORY_PROPERTY_DEVICE_LOCAL, MEMORY_PROPERTY_HOST_COHERENT, MEMORY_PROPERTY_HOST_VISIBLE,
    NULL_HANDLE,
};
use vstd::bytes::{spec_u16_from_le_bytes, spec_u32_from_le_bytes};
use crate::words::{
    decode_u16_words, decode_u16s, decode_u32_words, decode_u32s, encode_u16_words, encode_u16s,
    encode_u32_words, encode_u32s, lemma_encode_u16s_layout, lemma_encode_u32s_layout, lemma_u16_bytes_round_trip,
    lemma_u16_words_round_trip, lemma_u32_words_round_trip,
};

verus! {

/// The bit pattern of the single-precision float `1.0`, the `w` component
/// given to every vertex position.
pub const W_ONE: u32 = 0x3f80_0000;

/// The glTF (GL) component type of 32-bit floats, `FLOAT`.
pub const COMPONENT_TYPE_F32: u32 = 5126;

/// The glTF (GL) component type of 16-bit unsigned integers, `UNSIGNED_SHORT`.
pub const COMPONENT_TYPE_U16: u32 = 5123;

/// The vertex attributes that a model reads as floats.
#[derive(Clone, Copy, Debug, PartialEq, Eq, Structural)]
pub enum Semantic {
    Positions,
    Normals,
}

/// The part of a binary buffer that a buffer view covers: `length` bytes of
/// buffer number `buffer`, starting at byte `offset`.
#[derive(Clone, Copy, Debug, PartialEq, Eq, Structural)]
pub struct ViewLayout {
    pub buffer: usize,
    pub offset: usize,
    pub length: usize,
}

/// An accessor: the GL enum of its component type and the buffer view that
/// holds its data, if it has one.
#[derive(Clone, Copy, Debug)]
pub struct AccessorLayout {
    pub component_type: u32,
    pub view: Option<ViewLayout>,
}

/// The accessors of one mesh primitive that a model reads.
#[derive(Clone, Copy, Debug)]
pub struct PrimitiveLayout {
    pub positions: Option<AccessorLayout>,
    pub normals: Option<AccessorLayout>,
    pub indices: Option<AccessorLayout>,
}

/// The primitives of one mesh, in the file's order.
#[derive(Debug)]
pub struct MeshLayout {
    pub primitives: Vec<PrimitiveLayout>,
}

/// What a model reads of an imported glTF document: its binary buffers and,
/// for each mesh in the file's order, the layout of its primitives.
#[derive(Debug)]
pub struct GltfScene {
    pub buffers: Vec<Vec<u8>>,
    pub meshes: Vec<MeshLayout>,
}

/// The accessor of a primitive that a model reads, named in errors.
#[derive(Clone, Copy, Debug, PartialEq, Eq, Structural)]
pub enum Attribute {
    Positions,
    Normals,
    Indices,
}

/// Why a document cannot be loaded: the accessor is missing, has another
/// component type than expected, has no buffer view, its view names a buffer
/// that does not exist, or its view reaches past the end of its buffer.
#[derive(Clone, Copy, Debug, PartialEq, Eq, Structural)]
pub enum LoadError {
    MissingAccessor(Attribute),
    WrongComponentType(Attribute),
    MissingView(Attribute),
    BufferOutOfRange(Attribute),
    ViewOutOfRange(Attribute),
}

impl PrimitiveLayout {
    /// The accessor of this primitive for `semantic`.
    pub open spec fn attribute(self, semantic: Semantic) -> Option<AccessorLayout> {
        match semantic {
            Semantic::Positions => self.positions,
            Semantic::Normals => self.normals,
        }
    }

    /// The accessor of this primitive for `semantic`.
    pub fn get(&self, semantic: Semantic) -> (accessor: Option<AccessorLayout>)
        ensures
            accessor == self.attribute(semantic),
    {
        match semantic {
            Semantic::Positions => self.positions,
            Semantic::Normals => self.normals,
        }
    }
}

/// The attribute under which errors about the accessor for `semantic` are
/// reported.
pub open spec fn semantic_attribute(semantic: Semantic) -> Attribute {
    match semantic {
        Semantic::Positions => Attribute::Positions,
        Semantic::Normals => Attribute::Normals,
    }
}

/// The bytes that `view` covers in `buffers`.
pub open spec fn view_bytes(buffers: Seq<Vec<u8>>, view: ViewLayout) -> Seq<u8> {
    buffers[view.buffer as int]@.subrange(view.offset as int, view.offset + view.length)
}

/// The bytes of the data of `accessor`, which has a view.
pub open spec fn accessor_bytes(buffers: Seq<Vec<u8>>, accessor: Option<AccessorLayout>) -> Seq<
    u8,
> {
    view_bytes(buffers, accessor.unwrap().view.unwrap())
}

/// Whether `accessor` can be read from `buffers` as data of
/// `component_type`, and if not, the first reason why not.
pub open spec fn check_accessor(
    buffers: Seq<Vec<u8>>,
    accessor: Option<AccessorLayout>,
    component_type: u32,
    attribute: Attribute,
) -> Result<(), LoadError> {
    match accessor {
        None => Err(LoadError::MissingAccessor(attribute)),
        Some(a) => if a.component_type != component_type {
            Err(LoadError::WrongComponentType(attribute))
        } else {
            match a.view {
                None => Err(LoadError::MissingView(attribute)),
                Some(v) => if v.buffer >= buffers.len() {
                    Err(LoadError::BufferOutOfRange(attribute))
                } else if v.offset + v.length > buffers[v.buffer as int]@.len() {
                    Err(LoadError::ViewOutOfRange(attribute))
                } else {
                    Ok(())
                },
            }
        },
    }
}

/// Whether the first mesh of `scene` exists and has a primitive.
pub open spec fn has_primitive(scene: GltfScene) -> bool {
    scene.meshes@.len() > 0 && scene.meshes@[0].primitives@.len() > 0
}

/// The first primitive of the first mesh of `scene`.
pub open spec fn first_primitive(scene: GltfScene) -> PrimitiveLayout {
    scene.meshes@[0].primitives@[0]
}

/// Whether a model can load `scene`, and if not, the first reason why not:
/// a scene without a primitive loads (nothing is read from it); otherwise the
/// positions (32-bit floats), the normals (32-bit floats) and the indices
/// (16-bit unsigned integers) of its first primitive are checked in that
/// order.
pub open spec fn check_scene(scene: GltfScene) -> Result<(), LoadError> {
    if !has_primitive(scene) {
        Ok(())
    } else {
        let p = first_primitive(scene);
        let buffers = scene.buffers@;
        match check_accessor(buffers, p.positions, COMPONENT_TYPE_F32, Attribute::Positions) {
            Err(e) => Err(e),
            Ok(_) => match check_accessor(
                buffers,
                p.normals,
                COMPONENT_TYPE_F32,
                Attribute::Normals,
            ) {
                Err(e) => Err(e),
                Ok(_) => check_accessor(
                    buffers,
                    p.indices,
                    COMPONENT_TYPE_U16,
                    Attribute::Indices,
                ),
            },
        }
    }
}

/// `values` with a `w` component of `1.0` after each complete group of
/// three: `x, y, z, 1.0, x, y, z, 1.0, ...`; values after the last complete
/// group are kept without one.
pub open spec fn with_w_component(values: Seq<u32>) -> Seq<u32>
    decreases values.len(),
{
    if values.len() == 0 {
        Seq::empty()
    } else {
        let extended = with_w_component(values.drop_last()).push(values.last());
        if values.len() % 3 == 0 {
            extended.push(W_ONE)
        } else {
            extended
        }
    }
}

/// Every vertex gets its `x, y, z` in order followed by a `w` of `1.0`:
/// value `3 * g + k` of `values` (`k < 3`) stands at `4 * g + k`, and `1.0`
/// stands at `4 * g + 3` for each complete group `g`; nothing else is added.
pub proof fn lemma_with_w_component_layout(values: Seq<u32>)
    ensures
        with_w_component(values).len() == values.len() + values.len() / 3,
        forall|g: int, k: int|
            0 <= g && 0 <= k < 3 && 3 * g + k < values.len() ==> #[trigger] with_w_component(
                values,
            )[4 * g + k] == values[3 * g + k],
        forall|g: int|
            0 <= g < values.len() / 3 ==> #[trigger] with_w_component(values)[4 * g + 3] == W_ONE,
    decreases values.len(),
{
    if values.len() > 0 {
        let prefix = values.drop_last();
        lemma_with_w_component_layout(prefix);
        let n = values.len();
        let out = with_w_component(values);
        let before = with_w_component(prefix);
        assert forall|g: int, k: int|
            0 <= g && 0 <= k < 3 && 3 * g + k < n implies #[trigger] out[4 * g + k] == values[3
            * g + k] by {
            if 3 * g + k < n - 1 {
                assert(prefix[3 * g + k] == values[3 * g + k]);
                assert(4 * g + k < before.len());
            } else {
                assert(3 * g + k == n - 1);
                assert(before.len() == 4 * g + k);
            }
        }
        assert forall|g: int| 0 <= g < n / 3 implies #[trigger] out[4 * g + 3] == W_ONE by {
            if g < (n - 1) / 3 {
                assert(4 * g + 3 < before.len());
            } else {
                assert(n % 3 == 0 && n == 3 * g + 3);
                assert(out.len() == 4 * g + 4);
            }
        }
    }
}

/// The floats (as bit patterns) that a model keeps of the `semantic`
/// accessor: positions get a `w` of `1.0` after each `x, y, z`, normals are
/// kept as they are.
pub open spec fn f32_attribute_data(
    buffers: Seq<Vec<u8>>,
    accessor: Option<AccessorLayout>,
    semantic: Semantic,
) -> Seq<u32> {
    let values = decode_u32s(accessor_bytes(buffers, accessor));
    match semantic {
        Semantic::Positions => with_w_component(values),
        Semantic::Normals => values,
    }
}

/// The indices that a model keeps of the index accessor.
pub open spec fn index_attribute_data(buffers: Seq<Vec<u8>>, accessor: Option<AccessorLayout>) -> Seq<
    u16,
> {
    decode_u16s(accessor_bytes(buffers, accessor))
}

/// Checks whether `accessor` can be read from `buffers` as data of
/// `component_type`.
fn check_accessor_layout(
    buffers: &Vec<Vec<u8>>,
    accessor: &Option<AccessorLayout>,
    component_type: u32,
    attribute: Attribute,
) -> (r: Result<(), LoadError>)
    ensures
        r == check_accessor(buffers@, *accessor, component_type, attribute),
{
    match accessor {
        None => Err(LoadError::MissingAccessor(attribute)),
        Some(a) => {
            if a.component_type != component_type {
                return Err(LoadError::WrongComponentType(attribute));
            }
            match &a.view {
                None => Err(LoadError::MissingView(attribute)),
                Some(v) => {
                    if v.buffer >= buffers.len() {
                        Err(LoadError::BufferOutOfRange(attribute))
                    } else if v.length > buffers[v.buffer].len() || v.offset > buffers[v.buffer].len()
                        - v.length {
                        Err(LoadError::ViewOutOfRange(attribute))
                    } else {
                        Ok(())
                    }
                },
            }
        },
    }
}

impl GltfScene {
    /// Checks whether a model can load this scene; a model panics where the
    /// scene does not pass.
    pub fn check(&self) -> (r: Result<(), LoadError>)
        ensures
            r == check_scene(*self),
    {
        if self.meshes.len() == 0 {
            return Ok(());
        }
        let primitives = &self.meshes[0].primitives;
        if primitives.len() == 0 {
            return Ok(());
        }
        let p = &primitives[0];
        match check_accessor_layout(
            &self.buffers,
            &p.positions,
            COMPONENT_TYPE_F32,
            Attribute::Positions,
        ) {
            Err(e) => Err(e),
            Ok(_) => match check_accessor_layout(
                &self.buffers,
                &p.normals,
                COMPONENT_TYPE_F32,
                Attribute::Normals,
            ) {
                Err(e) => Err(e),
                Ok(_) => check_accessor_layout(
                    &self.buffers,
                    &p.indices,
                    COMPONENT_TYPE_U16,
                    Attribute::Indices,
                ),
            },
        }
    }
}

/// The bytes of `buffers` that `view` covers, which lie inside its buffer.
fn view_slice<'a>(buffers: &'a Vec<Vec<u8>>, view: &ViewLayout) -> (bytes: &'a [u8])
    requires
        view.buffer < buffers@.len(),
        view.offset + view.length <= buffers@[view.buffer as int]@.len(),
    ensures
        bytes@ == view_bytes(buffers@, *view),
{
    let buffer = &buffers[view.buffer];
    let len = buffer.len();
    assert(view.offset + view.length <= len);
    slice_subrange(buffer.as_slice(), view.offset, view.offset + view.length)
}

/// A mesh: the binary buffers of the file it was read from, its vertex
/// positions (`x, y, z, w` per vertex), normals (`x, y, z` per vertex),
/// texture coordinates and indices, and the GPU buffers that hold its
/// vertices and indices once uploaded.
#[derive(Debug)]
pub struct Model {
    /// Data buffers read from the glTF file.
    pub buffers: Vec<Vec<u8>>,
    /// Vertex positions, as float bit patterns.
    pub vertex_data: Vec<u32>,
    /// Vertex indices.
    pub index_data: Vec<u16>,
    /// Vertex normals, as float bit patterns.
    pub normals_data: Vec<u32>,
    /// Texture coordinates, as float bit patterns.
    pub texture_coords_data: Vec<u32>,
    /// Vertex buffer on the GPU.
    pub vertex_buffer: u64,
    /// Vertex buffer memory on the GPU.
    pub vertex_buffer_memory: u64,
    /// Index buffer on the GPU.
    pub index_buffer: u64,
    /// Index buffer memory on the GPU.
    pub index_buffer_memory: u64,
    /// The size of the index data in bytes.
    pub index_data_size: u32,
}

/// The GPU work that uploads a model: its vertex positions and its indices,
/// each through a staging buffer.
#[derive(Debug)]
pub struct GpuUploadPlan {
    pub vertices: StagedUpload,
    pub indices: StagedUpload,
}

/// What a loaded model sends to the GPU as its indices is the bytes of the
/// index accessor's buffer view, unchanged but for a trailing odd byte.
pub proof fn lemma_uploaded_indices_are_file_bytes(
    buffers: Seq<Vec<u8>>,
    accessor: Option<AccessorLayout>,
)
    ensures
        encode_u16s(index_attribute_data(buffers, accessor)) == accessor_bytes(buffers, accessor).take(
            (2 * (accessor_bytes(buffers, accessor).len() / 2)) as int,
        ),
{
    lemma_u16_bytes_round_trip(accessor_bytes(buffers, accessor));
}

/// Whether `upload` sends exactly `bytes` into a device-local buffer of
/// their size and of the given usage (besides being a transfer destination),
/// through a host-visible, host-coherent staging buffer of the same size.
pub open spec fn is_staged_upload(upload: StagedUpload, usage: u32, bytes: Seq<u8>) -> bool {
    &&& upload.bytes@ == bytes
    &&& upload.device.size == bytes.len()
    &&& upload.device.usage == BUFFER_USAGE_TRANSFER_DST | usage
    &&& upload.device.memory_properties == MEMORY_PROPERTY_DEVICE_LOCAL
    &&& upload.staging.size == bytes.len()
    &&& upload.staging.usage == BUFFER_USAGE_TRANSFER_SRC
    &&& upload.staging.memory_properties == MEMORY_PROPERTY_HOST_VISIBLE
        | MEMORY_PROPERTY_HOST_COHERENT
}

/// Plans the staged upload of `bytes` into a device-local buffer of the
/// given usage (besides being a transfer destination).
fn staged_upload(bytes: Vec<u8>, usage: u32) -> (upload: StagedUpload)
    requires
        bytes@.len() <= u32::MAX,
    ensures
        is_staged_upload(upload, usage, bytes@),
{
    let size = bytes.len() as u32;
    StagedUpload {
        device: BufferRequest {
            usage: BUFFER_USAGE_TRANSFER_DST | usage,
            size,
            memory_properties: MEMORY_PROPERTY_DEVICE_LOCAL,
        },
        staging: BufferRequest {
            usage: BUFFER_USAGE_TRANSFER_SRC,
            size,
            memory_properties: MEMORY_PROPERTY_HOST_VISIBLE | MEMORY_PROPERTY_HOST_COHERENT,
        },
        bytes,
    }
}

impl Model {
    /// Whether the model's vertices and indices fit the 32-bit byte sizes of
    /// GPU buffers.
    pub open spec fn fits_gpu(&self) -> bool {
        &&& 4 * self.vertex_data@.len() <= u32::MAX
        &&& 2 * self.index_data@.len() <= u32::MAX
    }

    /// Whether the model holds no GPU buffers and no index count.
    pub open spec fn off_gpu(&self) -> bool {
        &&& self.vertex_buffer == NULL_HANDLE
        &&& self.vertex_buffer_memory == NULL_HANDLE
        &&& self.index_buffer == NULL_HANDLE
        &&& self.index_buffer_memory == NULL_HANDLE
        &&& self.index_data_size == 0
    }

    /// Creates a model with no data and no GPU buffers.
    pub fn new() -> (m: Model)
        ensures
            m.buffers@.len() == 0,
            m.vertex_data@.len() == 0,
            m.index_data@.len() == 0,
            m.normals_data@.len() == 0,
            m.texture_coords_data@.len() == 0,
            m.off_gpu(),
    {
        Model {
            buffers: Vec::new(),
            vertex_data: Vec::new(),
            index_data: Vec::new(),
            normals_data: Vec::new(),
            texture_coords_data: Vec::new(),
            vertex_buffer: NULL_HANDLE,
            vertex_buffer_memory: NULL_HANDLE,
            index_buffer: NULL_HANDLE,
            index_buffer_memory: NULL_HANDLE,
            index_data_size: 0,
        }
    }

    /// Appends to `data_variable` the floats of the `semantic` accessor of
    /// the first primitive, adding a `w` of `1.0` after each `x, y, z` of the
    /// positions.
    fn read_f32_primitives_data(
        &self,
        primitives: &Vec<PrimitiveLayout>,
        data_variable: &mut Vec<u32>,
        semantic: Semantic,
    )
        requires
            primitives@.len() > 0,
            check_accessor(
                self.buffers@,
                primitives@[0].attribute(semantic),
                COMPONENT_TYPE_F32,
                semantic_attribute(semantic),
            ) is Ok,
        ensures
            final(data_variable)@ == old(data_variable)@ + f32_attribute_data(
                self.buffers@,
                primitives@[0].attribute(semantic),
                semantic,
            ),
    {
        let accessor = primitives[0].get(semantic);
        let view = accessor.unwrap().view.unwrap();
        let vertex_slice = view_slice(&self.buffers, &view);
        let vertex_data_tmp = decode_u32_words(vertex_slice);
        let add_w = match semantic {
            Semantic::Positions => true,
            Semantic::Normals => false,
        };
        let ghost start = data_variable@;
        let ghost values = vertex_data_tmp@;
        let mut counter: u32 = 0;
        let mut i: usize = 0;
        // Sort the data, adding a 1.0 fourth (w) component to positions.
        while i < vertex_data_tmp.len()
            invariant
                values == vertex_data_tmp@,
                i <= values.len(),
                counter == i % 3,
                data_variable@ == start + (if add_w {
                    with_w_component(values.take(i as int))
                } else {
                    values.take(i as int)
                }),
            decreases values.len() - i,
        {
            data_variable.push(vertex_data_tmp[i]);
            counter = counter + 1;
            if counter == 3 {
                if add_w {
                    data_variable.push(W_ONE);
                }
                counter = 0;
            }
            i = i + 1;
            assert(values.take(i as int).drop_last() =~= values.take(i - 1));
        }
        assert(values.take(values.len() as int) =~= values);
    }

    /// Replaces the index data by the indices of the first primitive.
    fn read_index_data(&mut self, primitives: &Vec<PrimitiveLayout>)
        requires
            primitives@.len() > 0,
            check_accessor(
                old(self).buffers@,
                primitives@[0].indices,
                COMPONENT_TYPE_U16,
                Attribute::Indices,
            ) is Ok,
        ensures
            final(self).index_data@ == index_attribute_data(
                old(self).buffers@,
                primitives@[0].indices,
            ),
            final(self).buffers == old(self).buffers,
            final(self).vertex_data == old(self).vertex_data,
            final(self).normals_data == old(self).normals_data,
            final(self).texture_coords_data == old(self).texture_coords_data,
            final(self).vertex_buffer == old(self).vertex_buffer,
            final(self).vertex_buffer_memory == old(self).vertex_buffer_memory,
            final(self).index_buffer == old(self).index_buffer,
            final(self).index_buffer_memory == old(self).index_buffer_memory,
            final(self).index_data_size == old(self).index_data_size,
    {
        let ind = primitives[0].indices.unwrap();
        let index_view = ind.view.unwrap();
        let index_slice = view_slice(&self.buffers, &index_view);
        self.index_data = decode_u16_words(index_slice);
    }

    /// Loads the model from an imported glTF document: keeps its buffers,
    /// and where its first mesh has a primitive, replaces the vertex
    /// positions, normals and indices by those of the first primitive.
    pub fn load(&mut self, scene: GltfScene)
        requires
            check_scene(scene) is Ok,
        ensures
            final(self).buffers@ == scene.buffers@,
            has_primitive(scene) ==> final(self).vertex_data@ == f32_attribute_data(
                scene.buffers@,
                first_primitive(scene).positions,
                Semantic::Positions,
            ),
            has_primitive(scene) ==> final(self).normals_data@ == f32_attribute_data(
                scene.buffers@,
                first_primitive(scene).normals,
                Semantic::Normals,
            ),
            has_primitive(scene) ==> final(self).index_data@ == index_attribute_data(
                scene.buffers@,
                first_primitive(scene).indices,
            ),
            !has_primitive(scene) ==> final(self).vertex_data == old(self).vertex_data,
            !has_primitive(scene) ==> final(self).normals_data == old(self).normals_data,
            !has_primitive(scene) ==> final(self).index_data == old(self).index_data,
            final(self).texture_coords_data == old(self).texture_coords_data,
            final(self).vertex_buffer == old(self).vertex_buffer,
            final(self).vertex_buffer_memory == old(self).vertex_buffer_memory,
            final(self).index_buffer == old(self).index_buffer,
            final(self).index_buffer_memory == old(self).index_buffer_memory,
            final(self).index_data_size == old(self).index_data_size,
    {
        let GltfScene { buffers, meshes } = scene;
        self.buffers = buffers;
        if meshes.len() == 0 {
            return;
        }
        let primitives = &meshes[0].primitives;
        if primitives.len() == 0 {
            return;
        }
        let mut retrieved_vertex_data: Vec<u32> = Vec::new();
        self.read_f32_primitives_data(primitives, &mut retrieved_vertex_data, Semantic::Positions);
        self.vertex_data = retrieved_vertex_data;

        let mut retrieved_normals_data: Vec<u32> = Vec::new();
        self.read_f32_primitives_data(primitives, &mut retrieved_normals_data, Semantic::Normals);
        self.normals_data = retrieved_normals_data;

        self.read_index_data(primitives);
    }

    /// Plans the upload of the model to the GPU: the vertex positions, as
    /// little-endian bytes, into a device-local vertex buffer; the indices,
    /// as little-endian bytes, into a device-local index buffer; each through
    /// a host-visible staging buffer.
    pub fn upload_plan(&self) -> (plan: GpuUploadPlan)
        requires
            self.fits_gpu(),
        ensures
            is_staged_upload(
                plan.vertices,
                BUFFER_USAGE_VERTEX_BUFFER,
                encode_u32s(self.vertex_data@),
            ),
            is_staged_upload(
                plan.indices,
                BUFFER_USAGE_INDEX_BUFFER,
                encode_u16s(self.index_data@),
            ),
            decode_u32s(plan.vertices.bytes@) == self.vertex_data@,
            decode_u16s(plan.indices.bytes@) == self.index_data@,
            plan.vertices.bytes@.len() == 4 * self.vertex_data@.len(),
            plan.vertices.device.size == 4 * self.vertex_data@.len(),
            plan.vertices.staging.size == 4 * self.vertex_data@.len(),
            plan.indices.bytes@.len() == 2 * self.index_data@.len(),
            plan.indices.device.size == 2 * self.index_data@.len(),
            plan.indices.staging.size == 2 * self.index_data@.len(),
    {
        proof {
            lemma_u32_words_round_trip(self.vertex_data@);
            lemma_u16_words_round_trip(self.index_data@);
            lemma_encode_u32s_layout(self.vertex_data@);
            lemma_encode_u16s_layout(self.index_data@);
        }
        let vertex_bytes = encode_u32_words(self.vertex_data.as_slice());
        let index_bytes = encode_u16_words(self.index_data.as_slice());
        GpuUploadPlan {
            vertices: staged_upload(vertex_bytes, BUFFER_USAGE_VERTEX_BUFFER),
            indices: staged_upload(index_bytes, BUFFER_USAGE_INDEX_BUFFER),
        }
    }

    /// Records the GPU buffers that now hold the model's vertices and
    /// indices, and the size of the index data in bytes.
    pub fn set_gpu_buffers(&mut self, vertices: GpuAllocation, indices: GpuAllocation)
        requires
            old(self).fits_gpu(),
        ensures
            records_gpu_buffers(*old(self), *final(self), vertices, indices),
    {
        self.vertex_buffer = vertices.buffer;
        self.vertex_buffer_memory = vertices.memory;
        self.index_data_size = (self.index_data.len() * 2) as u32;
        self.index_buffer = indices.buffer;
        self.index_buffer_memory = indices.memory;
    }

    /// Takes the model off the GPU: returns its vertex and index buffers, in
    /// that order, for destruction, and forgets them and the size of the
    /// index data.
    pub fn clear_gpu(&mut self) -> (freed: [GpuAllocation; 2])
        ensures
            clears_gpu_buffers(*old(self), *final(self), freed),
    {
        let freed = [
            GpuAllocation { buffer: self.vertex_buffer, memory: self.vertex_buffer_memory },
            GpuAllocation { buffer: self.index_buffer, memory: self.index_buffer_memory },
        ];
        self.vertex_buffer = NULL_HANDLE;
        self.vertex_buffer_memory = NULL_HANDLE;
        self.index_buffer = NULL_HANDLE;
        self.index_buffer_memory = NULL_HANDLE;
        self.index_data_size = 0;
        freed
    }
}

/// Whether `after` is `before` with the data kept, the vertex buffer
/// `vertices` and the index buffer `indices` recorded, and the index data
/// size set to its size in bytes (two per index).
pub open spec fn records_gpu_buffers(
    before: Model,
    after: Model,
    vertices: GpuAllocation,
    indices: GpuAllocation,
) -> bool {
    &&& after.vertex_buffer == vertices.buffer
    &&& after.vertex_buffer_memory == vertices.memory
    &&& after.index_buffer == indices.buffer
    &&& after.index_buffer_memory == indices.memory
    &&& after.index_data_size == 2 * before.index_data@.len()
    &&& after.buffers == before.buffers
    &&& after.vertex_data == before.vertex_data
    &&& after.index_data == before.index_data
    &&& after.normals_data == before.normals_data
    &&& after.texture_coords_data == before.texture_coords_data
}

/// Whether `freed` holds the vertex buffer and then the index buffer of
/// `before`, and `after` is `before` with the data kept and no GPU buffers.
pub open spec fn clears_gpu_buffers(before: Model, after: Model, freed: [GpuAllocation; 2]) -> bool {
    &&& freed[0] == (GpuAllocation {
        buffer: before.vertex_buffer,
        memory: before.vertex_buffer_memory,
    })
    &&& freed[1] == (GpuAllocation { buffer: before.index_buffer, memory: before.index_buffer_memory })
    &&& after.off_gpu()
    &&& after.buffers == before.buffers
    &&& after.vertex_data == before.vertex_data
    &&& after.index_data == before.index_data
    &&& after.normals_data == before.normals_data
    &&& after.texture_coords_data == before.texture_coords_data
}

/// Uploading a model and then clearing it from the GPU hands back exactly
/// the vertex and index buffers that were recorded, in that order, leaves
/// the model off the GPU as a new model is, and keeps its data; while on the
/// GPU, its index buffer holds two bytes for each of its indices.
pub proof fn lemma_upload_then_clear(
    m0: Model,
    m1: Model,
    m2: Model,
    vertices: GpuAllocation,
    indices: GpuAllocation,
    freed: [GpuAllocation; 2],
)
    requires
        records_gpu_buffers(m0, m1, vertices, indices),
        clears_gpu_buffers(m1, m2, freed),
    ensures
        freed[0] == vertices,
        freed[1] == indices,
        m1.index_data_size / 2 == m1.index_data@.len(),
        m2.off_gpu(),
        m2.buffers == m0.buffers,
        m2.vertex_data == m0.vertex_data,
        m2.index_data == m0.index_data,
        m2.normals_data == m0.normals_data,
        m2.texture_coords_data == m0.texture_coords_data,
{
}

/// Whether `accessor` is present, of GL component type `component_type`,
/// and has a buffer view lying inside one of `buffers`.
pub open spec fn accessor_readable(
    buffers: Seq<Vec<u8>>,
    accessor: Option<AccessorLayout>,
    component_type: u32,
) -> bool {
    &&& accessor is Some
    &&& accessor.unwrap().component_type == component_type
    &&& accessor.unwrap().view is Some
    &&& accessor.unwrap().view.unwrap().buffer < buffers.len()
    &&& accessor.unwrap().view.unwrap().offset + accessor.unwrap().view.unwrap().length
        <= buffers[accessor.unwrap().view.unwrap().buffer as int]@.len()
}

/// A scene passes the check exactly when it has no primitive, or the first
/// primitive of its first mesh has positions and normals of 32-bit floats
/// (GL `FLOAT`, 5126) and indices of 16-bit unsigned integers (GL
/// `UNSIGNED_SHORT`, 5123), each with a view inside the scene's buffers.
/// Where it fails, the first failing accessor in the order positions,
/// normals, indices is named, and an accessor of another component type
/// fails as such.
pub proof fn lemma_check_scene_accepts_exactly(scene: GltfScene)
    ensures
        (check_scene(scene) is Ok) == (!(scene.meshes@.len() > 0
            && scene.meshes@[0].primitives@.len() > 0) || ({
            let p = scene.meshes@[0].primitives@[0];
            &&& accessor_readable(scene.buffers@, p.positions, 5126)
            &&& accessor_readable(scene.buffers@, p.normals, 5126)
            &&& accessor_readable(scene.buffers@, p.indices, 5123)
        })),
        scene.meshes@.len() > 0 && scene.meshes@[0].primitives@.len() > 0 ==> ({
            let p = scene.meshes@[0].primitives@[0];
            &&& p.positions is None ==> check_scene(scene) == Err::<(), LoadError>(
                LoadError::MissingAccessor(Attribute::Positions),
            )
            &&& p.positions is Some && p.positions.unwrap().component_type != 5126
                ==> check_scene(scene) == Err::<(), LoadError>(
                LoadError::WrongComponentType(Attribute::Positions),
            )
            &&& accessor_readable(scene.buffers@, p.positions, 5126) && p.normals is Some
                && p.normals.unwrap().component_type != 5126 ==> check_scene(scene) == Err::<
                (),
                LoadError,
            >(LoadError::WrongComponentType(Attribute::Normals))
            &&& accessor_readable(scene.buffers@, p.positions, 5126) && accessor_readable(
                scene.buffers@,
                p.normals,
                5126,
            ) && p.indices is Some && p.indices.unwrap().component_type != 5123
                ==> check_scene(scene) == Err::<(), LoadError>(
                LoadError::WrongComponentType(Attribute::Indices),
            )
        }),
{
}

/// The 32-bit words read from a buffer view: one per complete four bytes of
/// the view, word `i` being the little-endian value of the buffer's bytes at
/// `offset + 4 * i`.
proof fn lemma_view_u32s(buffers: Seq<Vec<u8>>, view: ViewLayout)
    requires
        view.buffer < buffers.len(),
        view.offset + view.length <= buffers[view.buffer as int]@.len(),
    ensures
        decode_u32s(view_bytes(buffers, view)).len() == view.length / 4,
        forall|i: int|
            0 <= i < view.length / 4 ==> #[trigger] decode_u32s(view_bytes(buffers, view))[i]
                == spec_u32_from_le_bytes(
                buffers[view.buffer as int]@.subrange(view.offset + 4 * i, view.offset + 4 * i + 4),
            ),
{
    let b = buffers[view.buffer as int]@;
    let bytes = view_bytes(buffers, view);
    assert forall|i: int| 0 <= i < view.length / 4 implies #[trigger] decode_u32s(bytes)[i]
        == spec_u32_from_le_bytes(b.subrange(view.offset + 4 * i, view.offset + 4 * i + 4)) by {
        assert(4 * i + 4 <= view.length);
        assert(bytes.subrange(4 * i, 4 * i + 4) =~= b.subrange(
            view.offset + 4 * i,
            view.offset + 4 * i + 4,
        ));
    }
}

/// The 16-bit words read from a buffer view: one per complete two bytes of
/// the view, word `i` being the little-endian value of the buffer's bytes at
/// `offset + 2 * i`.
proof fn lemma_view_u16s(buffers: Seq<Vec<u8>>, view: ViewLayout)
    requires
        view.buffer < buffers.len(),
        view.offset + view.length <= buffers[view.buffer as int]@.len(),
    ensures
        decode_u16s(view_bytes(buffers, view)).len() == view.length / 2,
        forall|i: int|
            0 <= i < view.length / 2 ==> #[trigger] decode_u16s(view_bytes(buffers, view))[i]
                == spec_u16_from_le_bytes(
                buffers[view.buffer as int]@.subrange(view.offset + 2 * i, view.offset + 2 * i + 2),
            ),
{
    let b = buffers[view.buffer as int]@;
    let bytes = view_bytes(buffers, view);
    assert forall|i: int| 0 <= i < view.length / 2 implies #[trigger] decode_u16s(bytes)[i]
        == spec_u16_from_le_bytes(b.subrange(view.offset + 2 * i, view.offset + 2 * i + 2)) by {
        assert(bytes.subrange(2 * i, 2 * i + 2) =~= b.subrange(
            view.offset + 2 * i,
            view.offset + 2 * i + 2,
        ));
    }
}

/// What a model loads from a scene that passes the check and has a
/// primitive comes from primitive 0 of mesh 0, read from its buffer views:
/// the positions are the view's little-endian floats with `1.0` (bits
/// `0x3f80_0000`) after each `x, y, z`; the normals are the view's
/// little-endian floats; the indices are the view's little-endian 16-bit
/// words.
pub proof fn lemma_load_reads_primitive_zero(scene: GltfScene)
    requires
        check_scene(scene) is Ok,
        scene.meshes@.len() > 0,
        scene.meshes@[0].primitives@.len() > 0,
    ensures
        has_primitive(scene),
        ({
            let p = scene.meshes@[0].primitives@[0];
            let v = p.positions.unwrap().view.unwrap();
            let b = scene.buffers@[v.buffer as int]@;
            let n = v.length / 4;
            let data = f32_attribute_data(
                scene.buffers@,
                first_primitive(scene).positions,
                Semantic::Positions,
            );
            &&& data.len() == n + n / 3
            &&& forall|g: int, k: int|
                0 <= g && 0 <= k < 3 && 3 * g + k < n ==> #[trigger] data[4 * g + k]
                    == spec_u32_from_le_bytes(
                    b.subrange(v.offset + 12 * g + 4 * k, v.offset + 12 * g + 4 * k + 4),
                )
            &&& forall|g: int| 0 <= g < n / 3 ==> #[trigger] data[4 * g + 3] == 0x3f80_0000u32
        }),
        ({
            let p = scene.meshes@[0].primitives@[0];
            let v = p.normals.unwrap().view.unwrap();
            let b = scene.buffers@[v.buffer as int]@;
            let data = f32_attribute_data(
                scene.buffers@,
                first_primitive(scene).normals,
                Semantic::Normals,
            );
            &&& data.len() == v.length / 4
            &&& forall|i: int|
                0 <= i < v.length / 4 ==> #[trigger] data[i] == spec_u32_from_le_bytes(
                    b.subrange(v.offset + 4 * i, v.offset + 4 * i + 4),
                )
        }),
        ({
            let p = scene.meshes@[0].primitives@[0];
            let v = p.indices.unwrap().view.unwrap();
            let b = scene.buffers@[v.buffer as int]@;
            let data = index_attribute_data(scene.buffers@, first_primitive(scene).indices);
            &&& data.len() == v.length / 2
            &&& forall|i: int|
                0 <= i < v.length / 2 ==> #[trigger] data[i] == spec_u16_from_le_bytes(
                    b.subrange(v.offset + 2 * i, v.offset + 2 * i + 2),
                )
        }),
{
    let p = scene.meshes@[0].primitives@[0];
    let buffers = scene.buffers@;
    lemma_check_scene_accepts_exactly(scene);
    let vp = p.positions.unwrap().view.unwrap();
    lemma_view_u32s(buffers, vp);
    lemma_view_u32s(buffers, p.normals.unwrap().view.unwrap());
    lemma_view_u16s(buffers, p.indices.unwrap().view.unwrap());
    let values = decode_u32s(view_bytes(buffers, vp));
    lemma_with_w_component_layout(values);
    let data = f32_attribute_data(buffers, first_primitive(scene).positions, Semantic::Positions);
    let b = buffers[vp.buffer as int]@;
    assert forall|g: int, k: int| 0 <= g && 0 <= k < 3 && 3 * g + k < vp.length / 4 implies #[trigger] data[4
        * g + k] == spec_u32_from_le_bytes(
        b.subrange(vp.offset + 12 * g + 4 * k, vp.offset + 12 * g + 4 * k + 4),
    ) by {
        assert(data[4 * g + k] == values[3 * g + k]);
        assert(4 * (3 * g + k) == 12 * g + 4 * k);
    }
}

/// A staged upload sends all of its bytes: the device buffer and the
/// staging buffer are each exactly as large as the bytes copied through
/// them, and these are the bytes given.
pub proof fn lemma_staged_upload_sizes(upload: StagedUpload, usage: u32, bytes: Seq<u8>)
    requires
        is_staged_upload(upload, usage, bytes),
    ensures
        upload.bytes@ == bytes,
        upload.staging.size == upload.bytes@.len(),
        upload.device.size == upload.bytes@.len(),
{
}

} // verus!
