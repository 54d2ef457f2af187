//! A flat, textured rectangle model.
use vstd::prelude::*;
use crate::model::{Model, W_ONE};

verus! {

/// The bit pattern of the single-precision float `0.0`.
pub const F32_ZERO: u32 = 0;

/// The vertex positions of the rectangle between two corners (each
/// coordinate a float bit pattern): bottom right, then the top right edge
/// point, then top left, then the bottom left edge point, each with a `w` of
/// `1.0`.
pub open spec fn rectangle_vertices(
    top_left_x: u32,
    top_left_y: u32,
    top_left_z: u32,
    bottom_right_x: u32,
    bottom_right_y: u32,
    bottom_right_z: u32,
) -> Seq<u32> {
    seq![
        bottom_right_x, bottom_right_y, bottom_right_z, W_ONE,
        bottom_right_x, top_left_y, top_left_z, W_ONE,
        top_left_x, top_left_y, top_left_z, W_ONE,
        top_left_x, bottom_right_y, bottom_right_z, W_ONE,
    ]
}

/// Creates the model of a rectangle between two corners, given as float bit
/// patterns: four vertices, two triangles (`0, 1, 2` and `2, 3, 0`) and the
/// texture coordinates `(1, 1), (1, 0), (0, 0), (0, 1)` of the vertices.
pub fn create_rectangle(
    top_left_x: u32,
    top_left_y: u32,
    top_left_z: u32,
    bottom_right_x: u32,
    bottom_right_y: u32,
    bottom_right_z: u32,
) -> (m: Model)
    ensures
        m.vertex_data@ == rectangle_vertices(
            top_left_x,
            top_left_y,
            top_left_z,
            bottom_right_x,
            bottom_right_y,
            bottom_right_z,
        ),
        m.index_data@ == seq![0u16, 1, 2, 2, 3, 0],
        m.texture_coords_data@ == seq![
            W_ONE, W_ONE, W_ONE, F32_ZERO, F32_ZERO, F32_ZERO, F32_ZERO, W_ONE,
        ],
        m.buffers@.len() == 0,
        m.normals_data@.len() == 0,
        m.off_gpu(),
{
    let vertex_data: Vec<u32> = vec![
        bottom_right_x, bottom_right_y, bottom_right_z, W_ONE,
        bottom_right_x, top_left_y, top_left_z, W_ONE,
        top_left_x, top_left_y, top_left_z, W_ONE,
        top_left_x, bottom_right_y, bottom_right_z, W_ONE,
    ];
    let index_data: Vec<u16> = vec![0, 1, 2, 2, 3, 0];
    let texture_coords_data: Vec<u32> = vec![
        W_ONE, W_ONE, W_ONE, F32_ZERO, F32_ZERO, F32_ZERO, F32_ZERO, W_ONE,
    ];
    let mut m = Model::new();
    m.vertex_data = vertex_data;
    m.index_data = index_data;
    m.texture_coords_data = texture_coords_data;
    m
}

} // verus!
