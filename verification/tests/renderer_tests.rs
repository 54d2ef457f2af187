use clunker::descriptor::ubo_buffer_request;
use clunker::gpu::{GpuAllocation, NULL_HANDLE};
use clunker::model::Model;
use clunker::renderer::{
    descriptor_pool_info, descriptor_set_layout_binding, descriptor_sets_stale,
    vertex_attribute_descriptions, vertex_binding_descriptions, Renderer, UboTransformation,
    NUM_FRAMES_IN_FLIGHT, UBO_SIZE,
};

fn with_sets_and_buffers(r: &mut Renderer) {
    for n in 0..NUM_FRAMES_IN_FLIGHT {
        r.set_descriptor_set(n, 31 + n as u64);
        r.set_ubo_buffer(n, GpuAllocation { buffer: 41 + n as u64, memory: 51 + n as u64 });
    }
}

#[test]
fn new_renderer_starts_at_1024_by_768_without_gpu_objects() {
    let r = Renderer::new();
    assert_eq!(r.pipeline_index(), 100);
    assert_eq!(r.screen_size(), (1024, 768));
    assert_eq!(r.descriptor_pool(), NULL_HANDLE);
    for n in 0..NUM_FRAMES_IN_FLIGHT {
        assert_eq!(r.descriptor_set(n), NULL_HANDLE);
        assert_eq!(r.ubo_buffer(n), GpuAllocation::null());
    }
    assert_eq!(r.ubo().to_bytes(), vec![0u8; 128]);
}

#[test]
fn zero_window_dimensions_become_one_pixel() {
    let mut r = Renderer::new();
    assert_eq!(r.set_width_height(0, 600), (1, 600));
    assert_eq!(r.screen_size(), (1, 600));
    assert_eq!(r.set_width_height(800, 0), (800, 1));
    assert_eq!(r.set_width_height(0, 0), (1, 1));
    assert_eq!(r.screen_size(), (1, 1));
    assert_eq!(r.set_width_height(1920, 1080), (1920, 1080));
    assert_eq!(r.set_width_height(1920, 1080), (1920, 1080));
    assert_eq!(r.screen_size(), (1920, 1080));
}

#[test]
fn setters_record_what_the_driver_created() {
    let mut r = Renderer::new();
    r.set_pipeline_index(3);
    r.set_descriptor_pool(9);
    with_sets_and_buffers(&mut r);
    assert_eq!(r.pipeline_index(), 3);
    assert_eq!(r.descriptor_pool(), 9);
    assert_eq!(r.descriptor_set(1), 32);
    assert_eq!(r.ubo_buffer(2), GpuAllocation { buffer: 43, memory: 53 });
    assert_eq!(r.screen_size(), (1024, 768));
}

#[test]
fn descriptor_pool_has_a_uniform_buffer_per_frame_and_thirty_sets() {
    let info = descriptor_pool_info();
    for size in info.pool_sizes {
        assert_eq!(size.descriptor_type, 6);
        assert_eq!(size.descriptor_count, 1);
    }
    assert_eq!(info.max_sets, 30);
    assert_eq!(info.flags, 1);
    let b = descriptor_set_layout_binding();
    assert_eq!((b.binding, b.descriptor_type, b.descriptor_count, b.stage_flags), (0, 6, 1, 1));
}

#[test]
fn descriptor_writes_point_each_frame_at_its_uniform_buffer() {
    let mut r = Renderer::new();
    with_sets_and_buffers(&mut r);
    let writes = r.descriptor_writes();
    for n in 0..NUM_FRAMES_IN_FLIGHT {
        assert_eq!(writes[n].dst_set, 31 + n as u64);
        assert_eq!(writes[n].buffer, 41 + n as u64);
        assert_eq!(writes[n].dst_binding, 0);
        assert_eq!(writes[n].offset, 0);
        assert_eq!(writes[n].range, 128);
        assert_eq!(writes[n].descriptor_type, 6);
    }
}

#[test]
fn descriptor_sets_are_stale_only_on_a_new_pipeline_state() {
    assert!(descriptor_sets_stale(1));
    assert!(!descriptor_sets_stale(0));
    assert!(!descriptor_sets_stale(2));
}

#[test]
fn descriptor_sets_are_taken_once() {
    let mut r = Renderer::new();
    with_sets_and_buffers(&mut r);
    assert_eq!(r.take_descriptor_sets(), [31, 32, 33]);
    assert_eq!(r.descriptor_set(0), NULL_HANDLE);
    assert_eq!(r.take_descriptor_sets(), [NULL_HANDLE; 3]);
}

#[test]
fn frame_plan_writes_the_offset_and_binds_the_model() {
    let mut r = Renderer::new();
    with_sets_and_buffers(&mut r);
    let mut m = Model::new();
    m.vertex_buffer = 7;
    m.index_buffer = 9;
    m.index_data_size = 36;
    let offset = [0.0f32.to_bits(), (-0.2f32).to_bits(), 0.0f32.to_bits()];
    let plan = r.begin_frame(&m, offset, 2);
    assert_eq!(r.ubo().offset, offset);
    assert_eq!(plan.frame, 2);
    assert_eq!(plan.ubo_memory, 53);
    assert_eq!(plan.descriptor_set, 33);
    assert_eq!(plan.pipeline_index, 100);
    assert_eq!(plan.vertex_buffers, [7, NULL_HANDLE]);
    assert_eq!(plan.vertex_offsets, [0, 0]);
    assert_eq!(plan.index_buffer, 9);
    assert_eq!(plan.index_type, 0);
    assert_eq!(plan.index_count, 18);
    assert_eq!(plan.ubo_bytes.len(), 128);
    assert_eq!(plan.ubo_bytes[68..72], (-0.2f32).to_le_bytes());
    let plan = r.begin_frame(&m, offset, 0);
    assert_eq!(plan.ubo_memory, 51);
    assert_eq!(r.screen_size(), (1024, 768));
}

#[test]
fn an_uploaded_model_draws_every_index() {
    let mut m = Model::new();
    m.index_data = vec![0, 1, 2, 2, 3, 0];
    m.set_gpu_buffers(GpuAllocation::null(), GpuAllocation::null());
    assert_eq!(m.index_data_size, 12);
    let mut r = Renderer::new();
    let plan = r.begin_frame(&m, [0, 0, 0], 1);
    assert_eq!(plan.index_count, 6);
}

#[test]
fn ubo_bytes_follow_memory_order() {
    let mut ubo = UboTransformation::default();
    ubo.transformation[15] = 0x0102_0304;
    ubo.offset[2] = 0x0a0b_0c0d;
    ubo.padding[12] = 0xffee_ddcc;
    let bytes = ubo.to_bytes();
    assert_eq!(bytes.len(), UBO_SIZE as usize);
    assert_eq!(bytes[60..64], [4, 3, 2, 1]);
    assert_eq!(bytes[72..76], [0x0d, 0x0c, 0x0b, 0x0a]);
    assert_eq!(bytes[124..128], [0xcc, 0xdd, 0xee, 0xff]);
}

#[test]
fn shutdown_releases_everything_the_renderer_holds() {
    let mut r = Renderer::new();
    r.set_pipeline_index(4);
    r.set_descriptor_pool(5);
    with_sets_and_buffers(&mut r);
    let plan = r.shutdown();
    assert_eq!(plan.pipeline_index, 4);
    assert_eq!(plan.descriptor_pool, 5);
    assert_eq!(plan.descriptor_sets, [31, 32, 33]);
    assert_eq!(plan.ubo_buffers[1], GpuAllocation { buffer: 42, memory: 52 });
    assert_eq!(r.descriptor_set(2), NULL_HANDLE);
    assert_eq!(r.ubo_buffer(0), GpuAllocation { buffer: 41, memory: 51 });
}

#[test]
fn uniform_buffers_are_host_visible_and_coherent() {
    let req = ubo_buffer_request();
    assert_eq!(req.usage, 0x10);
    assert_eq!(req.size, 128);
    assert_eq!(req.memory_properties, 0x2 | 0x4);
}

#[test]
fn vertex_input_has_positions_and_normals() {
    let b = vertex_binding_descriptions();
    assert_eq!((b[0].binding, b[0].stride, b[1].binding, b[1].stride), (0, 16, 1, 12));
    let a = vertex_attribute_descriptions();
    assert_eq!((a[0].location, a[0].binding, a[0].format, a[0].offset), (0, 0, 109, 0));
    assert_eq!((a[1].location, a[1].binding, a[1].format, a[1].offset), (1, 1, 106, 0));
}
