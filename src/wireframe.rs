use vstd::prelude::*;
use three_d_asset::Indices;
use crate::render_states::{Blend, Cull, DepthTest, RenderStates, WriteMask};

verus! {

/// The index list of a triangle mesh, declared as three_d_asset defines it:
/// absent, or a vector of 8, 16 or 32 bit indices.
#[verifier::external_type_specification]
pub struct ExIndices(three_d_asset::Indices);

/// The indices widened to 32 bits, or `None` for a mesh without indices.
pub open spec fn indices_as_u32(indices: Indices) -> Option<Seq<u32>> {
    match indices {
        Indices::None => Option::None,
        Indices::U8(v) => Some(v@.map_values(|i: u8| i as u32)),
        Indices::U16(v) => Some(v@.map_values(|i: u16| i as u32)),
        Indices::U32(v) => Some(v@),
    }
}

/// Relies on three_d_asset::Indices::to_u32: `None` for `Indices::None`,
/// else a copy of the indices with each widened to `u32`.
pub assume_specification[ three_d_asset::Indices::to_u32 ](indices: &Indices) -> (r: Option<Vec<u32>>)
    ensures
        r matches Some(v) ==> indices_as_u32(*indices) == Some(v@),
        r is None <==> indices_as_u32(*indices) is None,
;

} // verus!

verus! {

/// The edges of triangle `f` that a wireframe draws, as pairs of vertex
/// indices: an edge is kept only when its first index in winding order is
/// below its second, so an edge shared by two consistently wound triangles is
/// drawn once.
pub open spec fn face_edges(indices: Seq<u32>, f: int) -> Seq<u32> {
    let i1 = indices[3 * f];
    let i2 = indices[3 * f + 1];
    let i3 = indices[3 * f + 2];
    (if i1 < i2 { seq![i1, i2] } else { Seq::empty() }) + (if i2 < i3 { seq![i2, i3] } else { Seq::empty() }) + (
    if i3 < i1 {
        seq![i3, i1]
    } else {
        Seq::empty()
    })
}

/// The edges of the first `n` triangles, in triangle order.
pub open spec fn edges_of_faces(indices: Seq<u32>, n: nat) -> Seq<u32>
    decreases n,
{
    if n == 0 {
        Seq::empty()
    } else {
        edges_of_faces(indices, (n - 1) as nat) + face_edges(indices, n - 1)
    }
}

/// The edges of every whole triangle of the index list; indices after the
/// last whole triangle are ignored.
pub open spec fn wireframe_edges(indices: Seq<u32>) -> Seq<u32> {
    edges_of_faces(indices, indices.len() / 3)
}

/// The render states of a wireframe's color material: the opaque defaults,
/// except that lines at equal depth still pass the depth test, so edges drawn
/// over their own surface stay visible.
pub fn wireframe_render_states() -> (r: RenderStates)
    ensures
        r.depth_test == DepthTest::LessOrEqual,
        r.cull == Cull::Disabled,
        r.write_mask == (WriteMask { red: true, green: true, blue: true, alpha: true, depth: true }),
        r.blend == Blend::Disabled,
{
    RenderStates { depth_test: DepthTest::LessOrEqual, ..RenderStates::default() }
}

/// Why a wireframe cannot be built from a mesh.
#[derive(Clone, Copy, Debug, PartialEq, Eq, Structural)]
pub enum WireframeError {
    /// The mesh has no index buffer.
    MissingIndices,
    /// An edge refers to a vertex beyond the positions.
    IndexOutOfRange { index: u32 },
}

/// Each edge's end points, in turn, as vertex indices.
pub fn wireframe_edge_indices(indices: &Vec<u32>) -> (r: Vec<u32>)
    ensures
        r@ == wireframe_edges(indices@),
{
    let n = indices.len();
    let faces = n / 3;
    let mut r: Vec<u32> = Vec::new();
    let mut f: usize = 0;
    while f < faces
        invariant
            n == indices@.len(),
            faces == indices@.len() / 3,
            f <= faces,
            r@ == edges_of_faces(indices@, f as nat),
        decreases faces - f,
    {
        assert(3 * f + 2 < indices@.len()) by (nonlinear_arith)
            requires
                f < faces,
                faces == indices@.len() / 3,
        ;
        let i1 = indices[3 * f];
        let i2 = indices[3 * f + 1];
        let i3 = indices[3 * f + 2];
        let ghost before = r@;
        if i1 < i2 {
            r.push(i1);
            r.push(i2);
        }
        let ghost after_first = r@;
        if i2 < i3 {
            r.push(i2);
            r.push(i3);
        }
        let ghost after_second = r@;
        if i3 < i1 {
            r.push(i3);
            r.push(i1);
        }
        proof {
            let a = if i1 < i2 { seq![i1, i2] } else { Seq::<u32>::empty() };
            let b = if i2 < i3 { seq![i2, i3] } else { Seq::<u32>::empty() };
            let c = if i3 < i1 { seq![i3, i1] } else { Seq::<u32>::empty() };
            assert(after_first =~= before + a);
            assert(after_second =~= before + a + b);
            assert(r@ =~= before + a + b + c);
            assert(face_edges(indices@, f as int) == a + b + c);
            assert(before + (a + b + c) =~= before + a + b + c);
        }
        f = f + 1;
    }
    r
}

/// Every edge's end points are positions, as long as every index that an
/// edge uses has a position.
pub open spec fn edges_in_range(edges: Seq<u32>, vertex_count: nat) -> bool {
    forall|k: int| 0 <= k < edges.len() ==> edges[k] < vertex_count
}

/// The line-list positions of a wireframe: for each edge, the positions of
/// its two end points. Positions are of any copyable vertex type.
pub fn wireframe_lines<T: Copy>(indices: &Indices, positions: &Vec<T>) -> (r: Result<Vec<T>, WireframeError>)
    ensures
        indices_as_u32(*indices) is None ==> r == Err::<Vec<T>, WireframeError>(WireframeError::MissingIndices),
        indices_as_u32(*indices) matches Some(idx) ==> {
            let edges = wireframe_edges(idx);
            &&& edges_in_range(edges, positions@.len()) ==> (r matches Ok(lines) && lines@ == edges.map_values(
                |i: u32| positions@[i as int],
            ))
            &&& !edges_in_range(edges, positions@.len()) ==> (r matches Err(WireframeError::IndexOutOfRange {
                index,
            }) && exists|k: int| 0 <= k < edges.len() && edges[k] == index && index >= positions@.len())
        },
{
    let idx = match indices.to_u32() {
        Some(v) => v,
        None => {
            return Err(WireframeError::MissingIndices);
        },
    };
    let edges = wireframe_edge_indices(&idx);
    let mut lines: Vec<T> = Vec::new();
    let mut k: usize = 0;
    while k < edges.len()
        invariant
            k <= edges@.len(),
            indices_as_u32(*indices) == Some(idx@),
            edges@ == wireframe_edges(idx@),
            forall|j: int| 0 <= j < k ==> edges@[j] < positions@.len(),
            lines@ =~= edges@.subrange(0, k as int).map_values(|i: u32| positions@[i as int]),
        decreases edges@.len() - k,
    {
        let i = edges[k];
        if i as usize >= positions.len() {
            return Err(WireframeError::IndexOutOfRange { index: i });
        }
        lines.push(positions[i as usize]);
        k = k + 1;
        assert(lines@ =~= edges@.subrange(0, k as int).map_values(|i: u32| positions@[i as int]));
    }
    assert(edges@.subrange(0, edges@.len() as int) =~= edges@);
    Ok(lines)
}

/// Each edge that a wireframe draws runs from a lower to a higher vertex
/// index, so no triangle contributes the same edge twice and the end points
/// come in pairs.
pub proof fn lemma_wireframe_edges_ascending(indices: Seq<u32>, n: nat)
    requires
        3 * n <= indices.len(),
    ensures
        edges_of_faces(indices, n).len() % 2 == 0,
        forall|k: int|
            0 <= k < edges_of_faces(indices, n).len() / 2 ==> #[trigger] edges_of_faces(indices, n)[2 * k]
                < edges_of_faces(indices, n)[2 * k + 1],
    decreases n,
{
    if n > 0 {
        lemma_wireframe_edges_ascending(indices, (n - 1) as nat);
        let prev = edges_of_faces(indices, (n - 1) as nat);
        let face = face_edges(indices, n - 1);
        let all = edges_of_faces(indices, n);
        assert(all == prev + face);
        assert(face.len() % 2 == 0);
        assert forall|j: int| 0 <= j < face.len() / 2 implies #[trigger] face[2 * j] < face[2 * j + 1] by {
        }
        assert forall|k: int| 0 <= k < all.len() / 2 implies #[trigger] all[2 * k] < all[2 * k + 1] by {
            if 2 * k < prev.len() {
                assert(prev[2 * k] < prev[2 * k + 1]);
            } else {
                let j = k - prev.len() / 2;
                assert(2 * k - prev.len() == 2 * j);
                assert(face[2 * j] < face[2 * j + 1]);
            }
        }
    }
}

} // verus!
