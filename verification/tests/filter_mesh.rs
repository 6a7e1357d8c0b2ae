use coffee_sim_wasm::filter_mesh::{
    filter_fill_indices, filter_mesh_edges, MeshEdge, MAX_FILL_VERTEX_COUNT,
    MAX_RENDER_VERTEX_COUNT, MESH_VERTEX_COUNT, SEGMENT_COUNT,
};

#[test]
fn max_vertex_counts_match_sync_output() {
    assert_eq!(filter_fill_indices().len(), MAX_FILL_VERTEX_COUNT);
    assert_eq!(filter_mesh_edges().len() * 2, MAX_RENDER_VERTEX_COUNT);
    assert_eq!(MAX_FILL_VERTEX_COUNT, 1728);
    assert_eq!(MAX_RENDER_VERTEX_COUNT, 1792);
}

#[test]
fn mesh_edges_follow_the_rings() {
    let edges = filter_mesh_edges();
    assert_eq!(edges[0], MeshEdge { a: 0, b: 1 });
    assert_eq!(edges[1], MeshEdge { a: 0, b: SEGMENT_COUNT });
    assert_eq!(edges[2], MeshEdge { a: 0, b: SEGMENT_COUNT + 1 });
    // The last segment of the apex ring wraps around to its first vertex.
    assert_eq!(edges[3 * 31], MeshEdge { a: 31, b: 0 });
    assert_eq!(edges[3 * 31 + 2], MeshEdge { a: 31, b: 32 });
    // The rim only has edges along the ring.
    let last = edges[edges.len() - 1];
    assert_eq!(last, MeshEdge { a: MESH_VERTEX_COUNT - 1, b: MESH_VERTEX_COUNT - SEGMENT_COUNT });
    assert!(edges.iter().all(|e| e.a < MESH_VERTEX_COUNT && e.b < MESH_VERTEX_COUNT));
}

#[test]
fn fill_indices_split_each_quad_into_two_triangles() {
    let fill = filter_fill_indices();
    assert_eq!(&fill[0..6], &[0, 32, 33, 0, 33, 1]);
    assert_eq!(&fill[6 * 31..6 * 32], &[31, 63, 32, 31, 32, 0]);
    assert!(fill.iter().all(|i| *i < MESH_VERTEX_COUNT));
}
