//! Which interface meshes are drawn, and where each draw finds its indices
//! and vertices in the shared index and vertex buffers.
use vstd::prelude::*;

verus! {

/// The number of vertices and of indices of a mesh.
#[derive(Debug, Copy, Clone, PartialEq, Eq, Structural)]
pub struct MeshSize {
    pub vertices: usize,
    pub indices: usize,
}

/// One indexed draw: the mesh drawn, its index count, and the positions of
/// its first index and first vertex in the shared buffers.
#[derive(Debug, Copy, Clone, PartialEq, Eq, Structural)]
pub struct DrawCall {
    pub mesh: usize,
    pub index_count: usize,
    pub first_index: usize,
    pub base_vertex: usize,
}

/// Whether a mesh is drawn: it has indices, and they make whole triangles.
pub open spec fn mesh_drawn(m: MeshSize) -> bool {
    m.indices > 0 && m.indices % 3 == 0
}

/// The vertices of the drawn meshes among `meshes`, all together.
pub open spec fn drawn_vertices(meshes: Seq<MeshSize>) -> int
    decreases meshes.len(),
{
    if meshes.len() == 0 {
        0
    } else {
        drawn_vertices(meshes.drop_last()) + if mesh_drawn(meshes.last()) { meshes.last().vertices as int } else { 0 }
    }
}

/// The indices of the drawn meshes among `meshes`, all together.
pub open spec fn drawn_indices(meshes: Seq<MeshSize>) -> int
    decreases meshes.len(),
{
    if meshes.len() == 0 {
        0
    } else {
        drawn_indices(meshes.drop_last()) + if mesh_drawn(meshes.last()) { meshes.last().indices as int } else { 0 }
    }
}

/// The draws of `meshes`, in order: one per drawn mesh, whose indices and
/// vertices follow those of the drawn meshes before it in the buffers.
pub open spec fn draws(meshes: Seq<MeshSize>) -> Seq<DrawCall>
    decreases meshes.len(),
{
    if meshes.len() == 0 {
        Seq::empty()
    } else {
        let before = meshes.drop_last();
        let m = meshes.last();
        if mesh_drawn(m) {
            draws(before).push(
                DrawCall {
                    mesh: (meshes.len() - 1) as usize,
                    index_count: m.indices,
                    first_index: drawn_indices(before) as usize,
                    base_vertex: drawn_vertices(before) as usize,
                },
            )
        } else {
            draws(before)
        }
    }
}

proof fn lemma_totals_grow(meshes: Seq<MeshSize>, i: int)
    requires
        0 <= i <= meshes.len(),
    ensures
        0 <= drawn_vertices(meshes.subrange(0, i)) <= drawn_vertices(meshes),
        0 <= drawn_indices(meshes.subrange(0, i)) <= drawn_indices(meshes),
    decreases meshes.len() - i,
{
    if i < meshes.len() {
        lemma_totals_grow(meshes, i + 1);
        lemma_totals_nonnegative(meshes.subrange(0, i));
        assert(meshes.subrange(0, i + 1).drop_last() =~= meshes.subrange(0, i));
    } else {
        assert(meshes.subrange(0, i) =~= meshes);
        lemma_totals_nonnegative(meshes);
    }
}

proof fn lemma_totals_nonnegative(meshes: Seq<MeshSize>)
    ensures
        drawn_vertices(meshes) >= 0,
        drawn_indices(meshes) >= 0,
    decreases meshes.len(),
{
    if meshes.len() > 0 {
        lemma_totals_nonnegative(meshes.drop_last());
    }
}

/// The draws of the meshes (see `draws`): meshes without indices, or whose
/// index count is not a multiple of three, are skipped.
pub fn draw_calls(meshes: &Vec<MeshSize>) -> (r: Vec<DrawCall>)
    requires
        drawn_vertices(meshes@) <= usize::MAX,
        drawn_indices(meshes@) <= usize::MAX,
    ensures
        r@ == draws(meshes@),
{
    let mut calls: Vec<DrawCall> = Vec::new();
    let mut vtx_offset: usize = 0;
    let mut idx_offset: usize = 0;
    let mut i: usize = 0;
    while i < meshes.len()
        invariant
            i <= meshes.len(),
            drawn_vertices(meshes@) <= usize::MAX,
            drawn_indices(meshes@) <= usize::MAX,
            calls@ == draws(meshes@.subrange(0, i as int)),
            vtx_offset == drawn_vertices(meshes@.subrange(0, i as int)),
            idx_offset == drawn_indices(meshes@.subrange(0, i as int)),
        decreases meshes.len() - i,
    {
        let m = meshes[i];
        proof {
            assert(meshes@.subrange(0, i + 1).drop_last() =~= meshes@.subrange(0, i as int));
            lemma_totals_grow(meshes@, i + 1);
        }
        if m.indices > 0 && m.indices % 3 == 0 {
            calls.push(DrawCall { mesh: i, index_count: m.indices, first_index: idx_offset, base_vertex: vtx_offset });
            vtx_offset = vtx_offset + m.vertices;
            idx_offset = idx_offset + m.indices;
        }
        i = i + 1;
    }
    proof {
        assert(meshes@.subrange(0, i as int) =~= meshes@);
    }
    calls
}

} // verus!
