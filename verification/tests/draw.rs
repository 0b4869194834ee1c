use cauldron::draw::{draw_calls, DrawCall, MeshSize};

fn mesh(vertices: usize, indices: usize) -> MeshSize {
    MeshSize { vertices, indices }
}

#[test]
fn draws_follow_each_other_in_the_buffers() {
    let calls = draw_calls(&vec![mesh(4, 6), mesh(3, 3), mesh(8, 12)]);
    assert_eq!(calls, vec![
        DrawCall { mesh: 0, index_count: 6, first_index: 0, base_vertex: 0 },
        DrawCall { mesh: 1, index_count: 3, first_index: 6, base_vertex: 4 },
        DrawCall { mesh: 2, index_count: 12, first_index: 9, base_vertex: 7 },
    ]);
}

#[test]
fn empty_and_incomplete_meshes_are_skipped() {
    let calls = draw_calls(&vec![mesh(5, 0), mesh(4, 6), mesh(2, 4), mesh(3, 3)]);
    assert_eq!(calls, vec![
        DrawCall { mesh: 1, index_count: 6, first_index: 0, base_vertex: 0 },
        DrawCall { mesh: 3, index_count: 3, first_index: 6, base_vertex: 4 },
    ]);
    assert_eq!(draw_calls(&vec![]), vec![]);
}
