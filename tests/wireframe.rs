use render_dispatch::render_states::{Blend, Cull, DepthTest, WriteMask};
use render_dispatch::wireframe::{
    wireframe_edge_indices, wireframe_lines, wireframe_render_states, WireframeError,
};
use three_d_asset::Indices;

#[test]
fn single_triangle_edges() {
    let positions = vec![[0.0f32, 0.0, 0.0], [1.0, 0.0, 0.0], [0.0, 1.0, 0.0]];
    let lines = wireframe_lines(&Indices::U32(vec![0, 1, 2]), &positions).unwrap();
    // the closing edge (2, 0) runs from a higher to a lower index and is left
    // to the neighbouring triangle
    assert_eq!(lines, vec![positions[0], positions[1], positions[1], positions[2]]);
}

#[test]
fn shared_edge_drawn_once() {
    // two triangles wound consistently, sharing the edge 1-2
    let idx = vec![0u32, 1, 2, 2, 1, 3];
    assert_eq!(wireframe_edge_indices(&idx), vec![0, 1, 1, 2, 1, 3]);
}

#[test]
fn closing_edge_kept_when_ascending() {
    assert_eq!(wireframe_edge_indices(&vec![2u32, 1, 0]), vec![0, 2]);
    assert_eq!(wireframe_edge_indices(&vec![1u32, 2, 0]), vec![1, 2, 0, 1]);
}

#[test]
fn trailing_indices_ignored() {
    assert_eq!(wireframe_edge_indices(&vec![0u32, 1, 2, 3, 4]), vec![0, 1, 1, 2]);
    assert_eq!(wireframe_edge_indices(&vec![]), Vec::<u32>::new());
}

#[test]
fn narrow_indices_are_widened() {
    let positions = vec![10u8, 11, 12, 13];
    let from_u8 = wireframe_lines(&Indices::U8(vec![1, 3, 0]), &positions).unwrap();
    let from_u16 = wireframe_lines(&Indices::U16(vec![1, 3, 0]), &positions).unwrap();
    assert_eq!(from_u8, vec![11, 13, 10, 11]);
    assert_eq!(from_u8, from_u16);
}

#[test]
fn mesh_without_indices_is_refused() {
    let positions = vec![0u8, 1, 2];
    assert_eq!(wireframe_lines(&Indices::None, &positions), Err(WireframeError::MissingIndices));
}

#[test]
fn index_beyond_positions_is_refused() {
    let positions = vec![0u8, 1, 2];
    assert_eq!(
        wireframe_lines(&Indices::U32(vec![0, 1, 7]), &positions),
        Err(WireframeError::IndexOutOfRange { index: 7 })
    );
}

#[test]
fn wireframe_states_pass_equal_depth() {
    let s = wireframe_render_states();
    assert_eq!(s.depth_test, DepthTest::LessOrEqual);
    assert_eq!(s.cull, Cull::Disabled);
    assert_eq!(s.write_mask, WriteMask::color_and_depth());
    assert_eq!(s.blend, Blend::Disabled);
}
