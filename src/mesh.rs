use vstd::prelude::*;

verus! {

/// Index type of the meshes the renderer draws.
pub type Index = u16;

/// The triangle order `meshopt::optimize_vertex_cache` gives `indices` of a mesh with
/// `vertex_count` vertices.
pub uninterp spec fn vertex_cache_order(indices: Seq<u32>, vertex_count: nat) -> Seq<u32>;

/// The triangles of an index list, three indices each, in list order.
pub open spec fn triangles(s: Seq<u32>) -> Seq<(u32, u32, u32)> {
    Seq::new(s.len() / 3, |i: int| (s[3 * i], s[3 * i + 1], s[3 * i + 2]))
}

/// Relies on `meshopt::optimize_vertex_cache`: it emits every input triangle exactly
/// once, with its three indices in their order, into a list as long as the one it was
/// given. The native code asserts that the list holds whole triangles and reads
/// per-vertex tables at every index, hence the `requires`.
#[verifier::external_body]
fn vertex_cache_optimized(indices: &[u32], vertex_count: usize) -> (r: Vec<u32>)
    requires
        indices@.len() % 3 == 0,
        forall|i: int| 0 <= i < indices@.len() ==> indices@[i] < vertex_count,
    ensures
        r@ == vertex_cache_order(indices@, vertex_count as nat),
        r@.len() == indices@.len(),
        triangles(r@).to_multiset() == triangles(indices@).to_multiset(),
{
    meshopt::optimize_vertex_cache(indices, vertex_count)
}

/// Whether `indices` is a triangle list over `vertex_count` vertices.
pub open spec fn is_triangle_list(indices: Seq<u32>, vertex_count: nat) -> bool {
    &&& indices.len() % 3 == 0
    &&& forall|i: int| 0 <= i < indices.len() ==> indices[i] < vertex_count
}

proof fn lemma_reordered_triangle_list(a: Seq<u32>, b: Seq<u32>, vertex_count: nat)
    requires
        is_triangle_list(a, vertex_count),
        b.len() == a.len(),
        triangles(b).to_multiset() == triangles(a).to_multiset(),
    ensures
        is_triangle_list(b, vertex_count),
{
    broadcast use vstd::seq_lib::group_to_multiset_ensures;

    assert forall|i: int| 0 <= i < b.len() implies b[i] < vertex_count by {
        let t = i / 3;
        assert(0 <= t < b.len() / 3);
        let tri = triangles(b)[t];
        assert(triangles(b).contains(tri));
        assert(triangles(a).to_multiset().count(tri) > 0);
        assert(triangles(a).contains(tri));
        let u = choose|u: int| 0 <= u < triangles(a).len() && triangles(a)[u] == tri;
        assert(3 * u + 2 < a.len());
        assert(a[3 * u] < vertex_count && a[3 * u + 1] < vertex_count && a[3 * u + 2] < vertex_count);
        assert(i == 3 * t || i == 3 * t + 1 || i == 3 * t + 2);
    }
}

/// Reorders a triangle list for the GPU's vertex cache, keeping every triangle; `None`
/// when `indices` is not a triangle list over `vertex_count` vertices.
pub fn optimize_vertex_cache(indices: &Vec<u32>, vertex_count: usize) -> (r: Option<Vec<u32>>)
    ensures
        match r {
            Some(v) => {
                &&& is_triangle_list(indices@, vertex_count as nat)
                &&& v@ == vertex_cache_order(indices@, vertex_count as nat)
                &&& v@.len() == indices@.len()
                &&& triangles(v@).to_multiset() == triangles(indices@).to_multiset()
                &&& is_triangle_list(v@, vertex_count as nat)
            },
            None => !is_triangle_list(indices@, vertex_count as nat),
        },
{
    if indices.len() % 3 != 0 {
        return None;
    }
    let mut i: usize = 0;
    while i < indices.len()
        invariant
            i <= indices.len(),
            forall|j: int| 0 <= j < i ==> indices@[j] < vertex_count,
        decreases indices.len() - i,
    {
        if indices[i] as usize >= vertex_count {
            return None;
        }
        i = i + 1;
    }
    let v = vertex_cache_optimized(indices.as_slice(), vertex_count);
    proof {
        lemma_reordered_triangle_list(indices@, v@, vertex_count as nat);
    }
    Some(v)
}

/// Widens 16-bit indices to 32 bits.
pub fn widen_indices(indices: &Vec<Index>) -> (r: Vec<u32>)
    ensures
        r@.len() == indices@.len(),
        forall|i: int| 0 <= i < indices@.len() ==> r@[i] == indices@[i] as u32,
{
    let mut out: Vec<u32> = Vec::new();
    let mut i: usize = 0;
    while i < indices.len()
        invariant
            i <= indices.len(),
            out@.len() == i,
            forall|j: int| 0 <= j < i ==> out@[j] == indices@[j] as u32,
        decreases indices.len() - i,
    {
        out.push(indices[i] as u32);
        i = i + 1;
    }
    out
}

/// Narrows 32-bit indices to 16 bits, keeping the low 16 bits of each.
pub fn narrow_indices(indices: &Vec<u32>) -> (r: Vec<Index>)
    ensures
        r@.len() == indices@.len(),
        forall|i: int| 0 <= i < indices@.len() ==> r@[i] == (indices@[i] % 65536) as u16,
{
    let mut out: Vec<Index> = Vec::new();
    let mut i: usize = 0;
    while i < indices.len()
        invariant
            i <= indices.len(),
            out@.len() == i,
            forall|j: int| 0 <= j < i ==> out@[j] == (indices@[j] % 65536) as u16,
        decreases indices.len() - i,
    {
        out.push((indices[i] % 65536) as u16);
        i = i + 1;
    }
    out
}

} // verus!
