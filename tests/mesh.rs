use ronin::mesh::{narrow_indices, optimize_vertex_cache, widen_indices};

#[test]
fn widen_and_narrow() {
    assert_eq!(widen_indices(&vec![0, 1, 65535]), vec![0u32, 1, 65535]);
    assert_eq!(narrow_indices(&vec![0, 65535, 65536, 70000]), vec![0u16, 65535, 0, 4464]);
}

#[test]
fn vertex_cache_keeps_the_triangles() {
    let indices = vec![0u32, 1, 2, 2, 3, 0, 4, 5, 6, 6, 7, 4];
    let out = optimize_vertex_cache(&indices, 8).unwrap();
    assert_eq!(out.len(), indices.len());
    let mut tris: Vec<Vec<u32>> = out.chunks(3).map(|t| t.to_vec()).collect();
    tris.sort();
    let mut expected: Vec<Vec<u32>> = indices.chunks(3).map(|t| t.to_vec()).collect();
    expected.sort();
    assert_eq!(tris, expected);
}

#[test]
fn vertex_cache_follows_shared_vertices() {
    let indices = vec![0u32, 1, 2, 10, 11, 12, 2, 1, 3];
    let out = optimize_vertex_cache(&indices, 13).unwrap();
    assert_eq!(out, vec![0, 1, 2, 2, 1, 3, 10, 11, 12]);
}

#[test]
fn invalid_triangle_lists_are_rejected() {
    assert!(optimize_vertex_cache(&vec![0, 1], 3).is_none());
    assert!(optimize_vertex_cache(&vec![0, 1, 3], 3).is_none());
    assert_eq!(optimize_vertex_cache(&vec![], 3), Some(vec![]));
}
