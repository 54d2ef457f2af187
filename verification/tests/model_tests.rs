use clunker::gpu::{GpuAllocation, NULL_HANDLE};
use clunker::model::{
    AccessorLayout, Attribute, GltfScene, LoadError, MeshLayout, Model, PrimitiveLayout, Semantic,
    ViewLayout, COMPONENT_TYPE_F32, COMPONENT_TYPE_U16, W_ONE,
};
use clunker::rectangle::create_rectangle;

fn f32_bytes(values: &[f32]) -> Vec<u8> {
    values.iter().flat_map(|v| v.to_le_bytes()).collect()
}

fn bits(values: &[f32]) -> Vec<u32> {
    values.iter().map(|v| v.to_bits()).collect()
}

fn accessor(component_type: u32, buffer: usize, offset: usize, length: usize) -> Option<AccessorLayout> {
    Some(AccessorLayout {
        component_type,
        view: Some(ViewLayout { buffer, offset, length }),
    })
}

/// One buffer: 6 position floats (24 bytes), 6 normal floats (24 bytes),
/// 3 indices (6 bytes) and one byte more.
fn sample_scene() -> GltfScene {
    let mut buffer = f32_bytes(&[0.0, 1.0, 2.0, 3.0, 4.0, 5.0]);
    buffer.extend(f32_bytes(&[0.0, 0.0, 1.0, 0.0, 1.0, 0.0]));
    buffer.extend([2u8, 0, 1, 0, 0, 1, 0xaa]);
    GltfScene {
        buffers: vec![buffer],
        meshes: vec![MeshLayout {
            primitives: vec![PrimitiveLayout {
                positions: accessor(COMPONENT_TYPE_F32, 0, 0, 24),
                normals: accessor(COMPONENT_TYPE_F32, 0, 24, 24),
                indices: accessor(COMPONENT_TYPE_U16, 0, 48, 7),
            }],
        }],
    }
}

#[test]
fn new_model_is_empty_and_off_the_gpu() {
    let m = Model::new();
    assert!(m.buffers.is_empty() && m.vertex_data.is_empty());
    assert!(m.index_data.is_empty() && m.normals_data.is_empty());
    assert_eq!(m.vertex_buffer, NULL_HANDLE);
    assert_eq!(m.index_buffer_memory, NULL_HANDLE);
    assert_eq!(m.index_data_size, 0);
}

#[test]
fn load_adds_w_to_positions_and_keeps_normals_and_indices() {
    let scene = sample_scene();
    assert_eq!(scene.check(), Ok(()));
    let mut m = Model::new();
    m.load(scene);
    assert_eq!(m.vertex_data, bits(&[0.0, 1.0, 2.0, 1.0, 3.0, 4.0, 5.0, 1.0]));
    assert_eq!(m.normals_data, bits(&[0.0, 0.0, 1.0, 0.0, 1.0, 0.0]));
    assert_eq!(m.index_data, vec![2u16, 1, 256]);
    assert_eq!(m.buffers.len(), 1);
    assert_eq!(m.buffers[0].len(), 55);
}

#[test]
fn positions_after_the_last_full_vertex_get_no_w() {
    let mut scene = sample_scene();
    scene.meshes[0].primitives[0].positions = accessor(COMPONENT_TYPE_F32, 0, 0, 16);
    let mut m = Model::new();
    m.load(scene);
    assert_eq!(m.vertex_data, bits(&[0.0, 1.0, 2.0, 1.0, 3.0]));
}

#[test]
fn every_fourth_position_value_is_one() {
    let values: Vec<f32> = (0..12).map(|i| i as f32 * 0.5).collect();
    let mut buffer = f32_bytes(&values);
    buffer.extend([0u8, 0]);
    let scene = GltfScene {
        buffers: vec![buffer],
        meshes: vec![MeshLayout {
            primitives: vec![PrimitiveLayout {
                positions: accessor(COMPONENT_TYPE_F32, 0, 0, 48),
                normals: accessor(COMPONENT_TYPE_F32, 0, 0, 0),
                indices: accessor(COMPONENT_TYPE_U16, 0, 48, 2),
            }],
        }],
    };
    let mut m = Model::new();
    m.load(scene);
    assert_eq!(m.vertex_data.len(), 16);
    for g in 0..4 {
        assert_eq!(m.vertex_data[4 * g + 3], W_ONE);
        for k in 0..3 {
            assert_eq!(m.vertex_data[4 * g + k], values[3 * g + k].to_bits());
        }
    }
    assert!(m.normals_data.is_empty());
    assert_eq!(m.index_data, vec![0u16]);
}

#[test]
fn load_without_meshes_keeps_data_and_takes_buffers() {
    let mut m = create_rectangle(0, 0, 0, 0, 0, 0);
    let before = m.vertex_data.clone();
    let scene = GltfScene { buffers: vec![vec![1, 2, 3]], meshes: vec![] };
    assert_eq!(scene.check(), Ok(()));
    m.load(scene);
    assert_eq!(m.vertex_data, before);
    assert_eq!(m.index_data, vec![0u16, 1, 2, 2, 3, 0]);
    assert_eq!(m.buffers, vec![vec![1u8, 2, 3]]);
}

#[test]
fn load_of_mesh_without_primitives_reads_nothing() {
    let scene = GltfScene {
        buffers: vec![],
        meshes: vec![MeshLayout { primitives: vec![] }],
    };
    assert_eq!(scene.check(), Ok(()));
    let mut m = Model::new();
    m.vertex_data = vec![7];
    m.load(scene);
    assert_eq!(m.vertex_data, vec![7u32]);
}

#[test]
fn load_replaces_earlier_data() {
    let mut m = Model::new();
    m.load(sample_scene());
    m.load(sample_scene());
    assert_eq!(m.vertex_data.len(), 8);
    assert_eq!(m.normals_data.len(), 6);
    assert_eq!(m.index_data.len(), 3);
}

#[test]
fn check_reports_missing_positions_accessor() {
    let mut scene = sample_scene();
    scene.meshes[0].primitives[0].positions = None;
    assert_eq!(scene.check(), Err(LoadError::MissingAccessor(Attribute::Positions)));
}

#[test]
fn check_reports_wrong_component_type() {
    let mut scene = sample_scene();
    scene.meshes[0].primitives[0].normals = accessor(COMPONENT_TYPE_U16, 0, 24, 24);
    assert_eq!(scene.check(), Err(LoadError::WrongComponentType(Attribute::Normals)));
    let mut scene = sample_scene();
    scene.meshes[0].primitives[0].indices = accessor(COMPONENT_TYPE_F32, 0, 48, 6);
    assert_eq!(scene.check(), Err(LoadError::WrongComponentType(Attribute::Indices)));
}

#[test]
fn check_reports_missing_view() {
    let mut scene = sample_scene();
    scene.meshes[0].primitives[0].indices = Some(AccessorLayout {
        component_type: COMPONENT_TYPE_U16,
        view: None,
    });
    assert_eq!(scene.check(), Err(LoadError::MissingView(Attribute::Indices)));
}

#[test]
fn check_reports_buffer_out_of_range() {
    let mut scene = sample_scene();
    scene.meshes[0].primitives[0].positions = accessor(COMPONENT_TYPE_F32, 1, 0, 4);
    assert_eq!(scene.check(), Err(LoadError::BufferOutOfRange(Attribute::Positions)));
}

#[test]
fn check_reports_view_out_of_range() {
    let mut scene = sample_scene();
    scene.meshes[0].primitives[0].normals = accessor(COMPONENT_TYPE_F32, 0, 40, 16);
    assert_eq!(scene.check(), Err(LoadError::ViewOutOfRange(Attribute::Normals)));
    let mut scene = sample_scene();
    scene.meshes[0].primitives[0].normals = accessor(COMPONENT_TYPE_F32, 0, usize::MAX, 2);
    assert_eq!(scene.check(), Err(LoadError::ViewOutOfRange(Attribute::Normals)));
}

#[test]
fn check_reports_positions_before_normals_before_indices() {
    let mut scene = sample_scene();
    scene.meshes[0].primitives[0].positions = None;
    scene.meshes[0].primitives[0].normals = None;
    scene.meshes[0].primitives[0].indices = None;
    assert_eq!(scene.check(), Err(LoadError::MissingAccessor(Attribute::Positions)));
    scene.meshes[0].primitives[0].positions = accessor(COMPONENT_TYPE_F32, 0, 0, 24);
    assert_eq!(scene.check(), Err(LoadError::MissingAccessor(Attribute::Normals)));
    scene.meshes[0].primitives[0].normals = accessor(COMPONENT_TYPE_F32, 0, 0, 24);
    assert_eq!(scene.check(), Err(LoadError::MissingAccessor(Attribute::Indices)));
}

#[test]
fn primitive_get_picks_the_semantic() {
    let p = sample_scene().meshes[0].primitives[0];
    assert_eq!(p.get(Semantic::Positions).unwrap().view.unwrap().offset, 0);
    assert_eq!(p.get(Semantic::Normals).unwrap().view.unwrap().offset, 24);
}

#[test]
fn upload_plan_stages_little_endian_vertices_and_indices() {
    let mut m = Model::new();
    m.load(sample_scene());
    let plan = m.upload_plan();
    assert_eq!(plan.vertices.bytes.len(), 32);
    assert_eq!(plan.vertices.bytes[12..16], 1.0f32.to_le_bytes());
    assert_eq!(plan.vertices.device.size, 32);
    assert_eq!(plan.vertices.device.usage, 0x2 | 0x80);
    assert_eq!(plan.vertices.device.memory_properties, 0x1);
    assert_eq!(plan.vertices.staging.size, 32);
    assert_eq!(plan.vertices.staging.usage, 0x1);
    assert_eq!(plan.vertices.staging.memory_properties, 0x2 | 0x4);
    assert_eq!(plan.indices.bytes, vec![2u8, 0, 1, 0, 0, 1]);
    assert_eq!(plan.indices.device.size, 6);
    assert_eq!(plan.indices.device.usage, 0x2 | 0x40);
    assert_eq!(plan.indices.staging.usage, 0x1);
}

#[test]
fn upload_plan_of_empty_model_is_empty() {
    let plan = Model::new().upload_plan();
    assert!(plan.vertices.bytes.is_empty() && plan.indices.bytes.is_empty());
    assert_eq!(plan.vertices.device.size, 0);
    assert_eq!(plan.indices.device.size, 0);
}

#[test]
fn gpu_buffers_are_recorded_and_released_once() {
    let mut m = Model::new();
    m.load(sample_scene());
    let vertices = GpuAllocation { buffer: 11, memory: 12 };
    let indices = GpuAllocation { buffer: 21, memory: 22 };
    m.set_gpu_buffers(vertices, indices);
    assert_eq!(m.index_data_size, 6);
    assert_eq!(m.vertex_buffer, 11);
    assert_eq!(m.index_buffer_memory, 22);
    let freed = m.clear_gpu();
    assert_eq!(freed, [vertices, indices]);
    let fresh = Model::new();
    assert_eq!(m.vertex_buffer, fresh.vertex_buffer);
    assert_eq!(m.vertex_buffer_memory, fresh.vertex_buffer_memory);
    assert_eq!(m.index_buffer, fresh.index_buffer);
    assert_eq!(m.index_buffer_memory, fresh.index_buffer_memory);
    assert_eq!(m.index_data_size, fresh.index_data_size);
    assert_eq!(m.index_data, vec![2u16, 1, 256]);
    assert_eq!(m.vertex_data.len(), 8);
    let again = m.clear_gpu();
    assert_eq!(again, [GpuAllocation::null(); 2]);
}

#[test]
fn rectangle_has_four_vertices_two_triangles_and_texture_coordinates() {
    let (tlx, tly, tlz) = (-1.0f32, 1.0f32, 0.5f32);
    let (brx, bry, brz) = (1.0f32, -1.0f32, 0.25f32);
    let m = create_rectangle(
        tlx.to_bits(),
        tly.to_bits(),
        tlz.to_bits(),
        brx.to_bits(),
        bry.to_bits(),
        brz.to_bits(),
    );
    assert_eq!(
        m.vertex_data,
        bits(&[brx, bry, brz, 1.0, brx, tly, tlz, 1.0, tlx, tly, tlz, 1.0, tlx, bry, brz, 1.0])
    );
    assert_eq!(m.index_data, vec![0u16, 1, 2, 2, 3, 0]);
    assert_eq!(m.texture_coords_data, bits(&[1.0, 1.0, 1.0, 0.0, 0.0, 0.0, 0.0, 1.0]));
    assert!(m.buffers.is_empty() && m.normals_data.is_empty());
}
