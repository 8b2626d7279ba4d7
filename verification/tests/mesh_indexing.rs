use stl_renderer::mesh::{index_vertices, VertexKey};

fn v(x: u32, y: u32, z: u32) -> VertexKey {
    VertexKey { x, y, z }
}

fn p(x: f32, y: f32, z: f32) -> VertexKey {
    VertexKey { x: x.to_bits(), y: y.to_bits(), z: z.to_bits() }
}

#[test]
fn square_shares_two_corners() {
    // Two triangles of a unit square share the diagonal's corners.
    let a = p(0.0, 0.0, 0.0);
    let b = p(1.0, 0.0, 0.0);
    let c = p(0.0, 1.0, 0.0);
    let d = p(1.0, 1.0, 0.0);
    let mesh = index_vertices(&vec![[a, b, c], [c, b, d]]);
    assert_eq!(mesh.vertices(), &vec![a, b, c, d]);
    assert_eq!(mesh.indices(), &vec![0, 1, 2, 2, 1, 3]);
    assert_eq!(mesh.index_count(), 6);
}

#[test]
fn single_triangle_keeps_its_corners() {
    let mesh = index_vertices(&vec![[v(1, 2, 3), v(4, 5, 6), v(7, 8, 9)]]);
    assert_eq!(mesh.vertices(), &vec![v(1, 2, 3), v(4, 5, 6), v(7, 8, 9)]);
    assert_eq!(mesh.indices(), &vec![0, 1, 2]);
}

#[test]
fn degenerate_triangle_collapses_to_one_vertex() {
    let mesh = index_vertices(&vec![[v(5, 5, 5), v(5, 5, 5), v(5, 5, 5)]]);
    assert_eq!(mesh.vertices(), &vec![v(5, 5, 5)]);
    assert_eq!(mesh.indices(), &vec![0, 0, 0]);
}

#[test]
fn empty_triangle_list_gives_empty_mesh() {
    let mesh = index_vertices(&Vec::new());
    assert!(mesh.vertices().is_empty());
    assert!(mesh.indices().is_empty());
    assert_eq!(mesh.index_count(), 0);
}

#[test]
fn vertices_are_kept_in_order_of_first_use() {
    let mesh = index_vertices(&vec![
        [v(9, 0, 0), v(1, 0, 0), v(9, 0, 0)],
        [v(3, 0, 0), v(1, 0, 0), v(9, 0, 0)],
    ]);
    assert_eq!(mesh.vertices(), &vec![v(9, 0, 0), v(1, 0, 0), v(3, 0, 0)]);
    assert_eq!(mesh.indices(), &vec![0, 1, 0, 2, 1, 0]);
}

#[test]
fn identity_is_by_bit_pattern() {
    // 0.0 and -0.0 compare equal as floats but are different vertices here;
    // two NaNs with the same bits are the same vertex.
    let zero = p(0.0, 0.0, 0.0);
    let neg_zero = p(-0.0, 0.0, 0.0);
    let nan = v(0x7fc0_0000, 0, 0);
    let mesh = index_vertices(&vec![[zero, neg_zero, nan], [nan, zero, neg_zero]]);
    assert_eq!(mesh.vertices(), &vec![zero, neg_zero, nan]);
    assert_eq!(mesh.indices(), &vec![0, 1, 2, 2, 0, 1]);
}

#[test]
fn coordinates_differing_in_one_axis_stay_apart() {
    let mesh = index_vertices(&vec![[v(1, 2, 3), v(1, 2, 4), v(1, 3, 3)], [v(2, 2, 3), v(1, 2, 3), v(1, 2, 4)]]);
    assert_eq!(mesh.vertices().len(), 4);
    assert_eq!(mesh.indices(), &vec![0, 1, 2, 3, 0, 1]);
}

#[test]
fn expanding_the_indices_restores_the_corners() {
    let tris = vec![
        [v(1, 1, 1), v(2, 2, 2), v(3, 3, 3)],
        [v(3, 3, 3), v(2, 2, 2), v(4, 4, 4)],
        [v(4, 4, 4), v(1, 1, 1), v(3, 3, 3)],
    ];
    let mesh = index_vertices(&tris);
    let corners: Vec<VertexKey> = tris.iter().flat_map(|t| t.iter().copied()).collect();
    let expanded: Vec<VertexKey> = mesh.indices().iter().map(|&i| mesh.vertices()[i as usize]).collect();
    assert_eq!(expanded, corners);
    // No vertex is stored twice.
    for i in 0..mesh.vertices().len() {
        for j in 0..i {
            assert_ne!(mesh.vertices()[i], mesh.vertices()[j]);
        }
    }
}

#[test]
fn merging_a_merged_mesh_changes_nothing() {
    let tris = vec![[v(1, 0, 0), v(2, 0, 0), v(1, 0, 0)], [v(2, 0, 0), v(3, 0, 0), v(3, 0, 0)]];
    let mesh = index_vertices(&tris);
    let rebuilt: Vec<[VertexKey; 3]> = mesh
        .indices()
        .chunks(3)
        .map(|c| [mesh.vertices()[c[0] as usize], mesh.vertices()[c[1] as usize], mesh.vertices()[c[2] as usize]])
        .collect();
    let again = index_vertices(&rebuilt);
    assert_eq!(again.vertices(), mesh.vertices());
    assert_eq!(again.indices(), mesh.indices());
}
