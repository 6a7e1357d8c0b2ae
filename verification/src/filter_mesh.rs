//! Topology of the paper filter's render mesh: rings of vertices up the
//! cone, the edges of its wireframe and the triangles of its fill, and the
//! vertex counts the renderer sizes its buffers by.
use vstd::prelude::*;

verus! {

/// Rings of vertices from the apex to the rim.
pub const RING_COUNT: usize = 10;

/// Vertices around each ring.
pub const SEGMENT_COUNT: usize = 32;

/// Vertices of the mesh.
pub const MESH_VERTEX_COUNT: usize = RING_COUNT * SEGMENT_COUNT;

/// Vertices the fill emits: two triangles per quad between adjacent rings.
pub const MAX_FILL_VERTEX_COUNT: usize = (RING_COUNT - 1) * SEGMENT_COUNT * 6;

/// Vertices the wireframe emits: every ring edge, and a vertical and a
/// diagonal edge from each vertex below the rim, two line vertices each.
pub const MAX_RENDER_VERTEX_COUNT: usize = (RING_COUNT * SEGMENT_COUNT + (RING_COUNT - 1)
    * SEGMENT_COUNT * 2) * 2;

/// A wireframe edge between two mesh vertices.
#[derive(Clone, Copy, Debug, PartialEq, Eq, Structural)]
pub struct MeshEdge {
    pub a: usize,
    pub b: usize,
}

/// Vertex `seg` of ring `ring`; segments wrap around the ring.
pub open spec fn ring_vertex(ring: int, seg: int) -> int {
    ring * SEGMENT_COUNT + seg % (SEGMENT_COUNT as int)
}

/// The edges leaving vertex `seg` of ring `ring`: along the ring to the
/// next segment, and unless the ring is the rim, up to the same segment and
/// diagonally to the next segment of the ring above.
pub open spec fn vertex_edges(ring: int, seg: int) -> Seq<MeshEdge> {
    let a = ring_vertex(ring, seg) as usize;
    let around = MeshEdge { a, b: ring_vertex(ring, seg + 1) as usize };
    if ring + 1 < RING_COUNT {
        seq![
            around,
            MeshEdge { a, b: ring_vertex(ring + 1, seg) as usize },
            MeshEdge { a, b: ring_vertex(ring + 1, seg + 1) as usize },
        ]
    } else {
        seq![around]
    }
}

/// Edges of the first `k` vertices, ring by ring.
pub open spec fn edges_upto(k: int) -> Seq<MeshEdge>
    decreases k,
{
    if k <= 0 {
        seq![]
    } else {
        edges_upto(k - 1) + vertex_edges(
            (k - 1) / (SEGMENT_COUNT as int),
            (k - 1) % (SEGMENT_COUNT as int),
        )
    }
}

/// Vertex indices of the two fill triangles of the quad above vertex `seg`
/// of ring `ring`.
pub open spec fn quad_indices(ring: int, seg: int) -> Seq<usize> {
    let p00 = ring_vertex(ring, seg) as usize;
    let p01 = ring_vertex(ring, seg + 1) as usize;
    let p10 = ring_vertex(ring + 1, seg) as usize;
    let p11 = ring_vertex(ring + 1, seg + 1) as usize;
    seq![p00, p10, p11, p00, p11, p01]
}

/// Fill indices of the first `k` quads, ring by ring.
pub open spec fn fill_upto(k: int) -> Seq<usize>
    decreases k,
{
    if k <= 0 {
        seq![]
    } else {
        fill_upto(k - 1) + quad_indices(
            (k - 1) / (SEGMENT_COUNT as int),
            (k - 1) % (SEGMENT_COUNT as int),
        )
    }
}

proof fn lemma_edges_upto(k: int)
    requires
        0 <= k <= MESH_VERTEX_COUNT,
    ensures
        edges_upto(k).len() == if k <= (RING_COUNT - 1) * SEGMENT_COUNT {
            3 * k
        } else {
            3 * ((RING_COUNT - 1) * SEGMENT_COUNT) + (k - (RING_COUNT - 1) * SEGMENT_COUNT)
        },
        forall|i: int|
            0 <= i < edges_upto(k).len() ==> #[trigger] edges_upto(k)[i].a < MESH_VERTEX_COUNT
                && edges_upto(k)[i].b < MESH_VERTEX_COUNT,
    decreases k,
{
    if k > 0 {
        lemma_edges_upto(k - 1);
        let ring = (k - 1) / 32;
        let seg = (k - 1) % 32;
        assert(0 <= seg < 32 && 0 <= ring < 10 && k - 1 == ring * 32 + seg);
        assert((seg + 1) % 32 <= 31);
        let prev = edges_upto(k - 1);
        let here = vertex_edges(ring, seg);
        assert(seg % 32 == seg);
        assert(0 <= ring_vertex(ring, seg) < 320 && 0 <= ring_vertex(ring, seg + 1) < 320);
        if ring + 1 < 10 {
            assert(0 <= ring_vertex(ring + 1, seg) < 320);
            assert(0 <= ring_vertex(ring + 1, seg + 1) < 320);
        }
        assert(forall|j: int| 0 <= j < here.len() ==> here[j].a < 320 && here[j].b < 320);
        assert(edges_upto(k) == prev + here);
        assert forall|i: int| 0 <= i < edges_upto(k).len() implies #[trigger] edges_upto(k)[i].a
            < MESH_VERTEX_COUNT && edges_upto(k)[i].b < MESH_VERTEX_COUNT by {
            if i >= prev.len() {
                let j = i - prev.len();
                assert(edges_upto(k)[i] == here[j]);
                assert(here[j].a < 320 && here[j].b < 320);
            } else {
                assert(edges_upto(k)[i] == prev[i]);
                assert(prev[i].a < MESH_VERTEX_COUNT && prev[i].b < MESH_VERTEX_COUNT);
            }
        }
    }
}

proof fn lemma_fill_upto(k: int)
    requires
        0 <= k <= (RING_COUNT - 1) * SEGMENT_COUNT,
    ensures
        fill_upto(k).len() == 6 * k,
        forall|i: int| 0 <= i < fill_upto(k).len() ==> #[trigger] fill_upto(k)[i] < MESH_VERTEX_COUNT,
    decreases k,
{
    if k > 0 {
        lemma_fill_upto(k - 1);
        let ring = (k - 1) / 32;
        let seg = (k - 1) % 32;
        assert(0 <= seg < 32 && 0 <= ring < 9 && k - 1 == ring * 32 + seg);
        assert((seg + 1) % 32 <= 31);
        let prev = fill_upto(k - 1);
        let here = quad_indices(ring, seg);
        assert(seg % 32 == seg);
        assert(0 <= ring_vertex(ring, seg) < 320 && 0 <= ring_vertex(ring, seg + 1) < 320);
        assert(0 <= ring_vertex(ring + 1, seg) < 320 && 0 <= ring_vertex(ring + 1, seg + 1) < 320);
        assert(forall|j: int| 0 <= j < here.len() ==> here[j] < 320);
        assert(fill_upto(k) == prev + here);
        assert forall|i: int| 0 <= i < fill_upto(k).len() implies #[trigger] fill_upto(k)[i]
            < MESH_VERTEX_COUNT by {
            if i >= prev.len() {
                assert(fill_upto(k)[i] == here[i - prev.len()]);
            } else {
                assert(fill_upto(k)[i] == prev[i]);
            }
        }
    }
}

/// The wireframe and the fill emit exactly the vertex counts the renderer
/// sizes its buffers by, and every vertex they name is a vertex of the mesh.
pub proof fn lemma_mesh_counts_match_buffers()
    ensures
        2 * edges_upto(MESH_VERTEX_COUNT as int).len() == MAX_RENDER_VERTEX_COUNT,
        fill_upto(((RING_COUNT - 1) * SEGMENT_COUNT) as int).len() == MAX_FILL_VERTEX_COUNT,
        forall|i: int|
            0 <= i < edges_upto(MESH_VERTEX_COUNT as int).len() ==> #[trigger] edges_upto(
                MESH_VERTEX_COUNT as int,
            )[i].a < MESH_VERTEX_COUNT && edges_upto(MESH_VERTEX_COUNT as int)[i].b
                < MESH_VERTEX_COUNT,
        forall|i: int|
            0 <= i < fill_upto(((RING_COUNT - 1) * SEGMENT_COUNT) as int).len()
                ==> #[trigger] fill_upto(((RING_COUNT - 1) * SEGMENT_COUNT) as int)[i]
                < MESH_VERTEX_COUNT,
{
    lemma_edges_upto(MESH_VERTEX_COUNT as int);
    lemma_fill_upto(((RING_COUNT - 1) * SEGMENT_COUNT) as int);
}

/// The wireframe edges of the mesh, ring by ring from the apex.
pub fn filter_mesh_edges() -> (r: Vec<MeshEdge>)
    ensures
        r@ == edges_upto(MESH_VERTEX_COUNT as int),
        2 * r@.len() == MAX_RENDER_VERTEX_COUNT,
{
    let mut edges: Vec<MeshEdge> = Vec::new();
    let mut k: usize = 0;
    while k < MESH_VERTEX_COUNT
        invariant
            k <= MESH_VERTEX_COUNT,
            edges@ == edges_upto(k as int),
        decreases MESH_VERTEX_COUNT - k,
    {
        let ring = k / SEGMENT_COUNT;
        let seg = k % SEGMENT_COUNT;
        let a = ring * SEGMENT_COUNT + seg;
        let next_seg = ring * SEGMENT_COUNT + (seg + 1) % SEGMENT_COUNT;
        let ghost before = edges@;
        edges.push(MeshEdge { a, b: next_seg });
        if ring + 1 < RING_COUNT {
            let below = (ring + 1) * SEGMENT_COUNT + seg;
            edges.push(MeshEdge { a, b: below });
            let diag = (ring + 1) * SEGMENT_COUNT + (seg + 1) % SEGMENT_COUNT;
            edges.push(MeshEdge { a, b: diag });
        }
        proof {
            assert(seg % 32 == seg);
            assert(edges@ =~= before + vertex_edges(ring as int, seg as int));
        }
        k = k + 1;
    }
    proof {
        lemma_edges_upto(MESH_VERTEX_COUNT as int);
    }
    edges
}

/// The vertex indices of the fill triangles, six per quad, ring by ring
/// from the apex.
pub fn filter_fill_indices() -> (r: Vec<usize>)
    ensures
        r@ == fill_upto(((RING_COUNT - 1) * SEGMENT_COUNT) as int),
        r@.len() == MAX_FILL_VERTEX_COUNT,
{
    let quads = (RING_COUNT - 1) * SEGMENT_COUNT;
    let mut indices: Vec<usize> = Vec::new();
    let mut k: usize = 0;
    while k < quads
        invariant
            quads == (RING_COUNT - 1) * SEGMENT_COUNT,
            k <= quads,
            indices@ == fill_upto(k as int),
        decreases quads - k,
    {
        let ring = k / SEGMENT_COUNT;
        let seg = k % SEGMENT_COUNT;
        let a = ring * SEGMENT_COUNT + seg;
        let next_seg = ring * SEGMENT_COUNT + (seg + 1) % SEGMENT_COUNT;
        let below = (ring + 1) * SEGMENT_COUNT + seg;
        let diag = (ring + 1) * SEGMENT_COUNT + (seg + 1) % SEGMENT_COUNT;
        let ghost before = indices@;
        indices.push(a);
        indices.push(below);
        indices.push(diag);
        indices.push(a);
        indices.push(diag);
        indices.push(next_seg);
        proof {
            assert(seg % 32 == seg);
            assert(indices@ =~= before + quad_indices(ring as int, seg as int));
        }
        k = k + 1;
    }
    proof {
        lemma_fill_upto(quads as int);
    }
    indices
}

} // verus!
