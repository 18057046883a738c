use vstd::prelude::*;

use crate::error::MeshError;
use crate::ring::{is_sampling, sample, Ring};
use crate::stitch::{is_stitching, stitch, Triangle, MAX_SEGMENTS};
use crate::laws::lemma_stitched_indices_in_range;

verus! {

/// Every index of every triangle in `t` addresses one of `count` vertices.
pub open spec fn indices_below(t: Seq<Triangle>, count: nat) -> bool {
    forall|j: int| 0 <= j < t.len() ==> {
        let (x, y, z) = #[trigger] t[j]@;
        x < count && y < count && z < count
    }
}

/// A vertex buffer and an index buffer that only refers into it. Once built it
/// is never changed.
#[derive(Debug)]
pub struct Mesh<P> {
    vertices: Vec<P>,
    triangles: Vec<Triangle>,
}

impl<P> Mesh<P> {
    /// The vertices, in buffer order.
    pub closed spec fn spec_vertices(&self) -> Seq<P> {
        self.vertices@
    }

    /// The triangles, in buffer order.
    pub closed spec fn spec_triangles(&self) -> Seq<Triangle> {
        self.triangles@
    }

    /// No triangle refers past the end of the vertex buffer.
    pub open spec fn wf(&self) -> bool {
        indices_below(self.spec_triangles(), self.spec_vertices().len())
    }

    /// Pairs a vertex buffer with an index buffer, provided that every index
    /// addresses a vertex.
    pub fn assemble(vertices: Vec<P>, triangles: Vec<Triangle>) -> (r: Result<Mesh<P>, MeshError>)
        ensures
            r is Ok <==> indices_below(triangles@, vertices@.len()),
            r is Err ==> r->Err_0 == MeshError::GeometryInconsistency,
            r matches Ok(m) ==> m.wf() && m.spec_vertices() == vertices@
                && m.spec_triangles() == triangles@,
    {
        let count = vertices.len();
        let mut j: usize = 0;
        while j < triangles.len()
            invariant
                j <= triangles@.len(),
                count == vertices@.len(),
                indices_below(triangles@.take(j as int), count as nat),
            decreases triangles@.len() - j,
        {
            let t = triangles[j];
            if t.a as usize >= count || t.b as usize >= count || t.c as usize >= count {
                proof {
                    assert(!indices_below(triangles@, count as nat)) by {
                        assert(triangles@[j as int]@ == (t.a as int, t.b as int, t.c as int));
                    }
                }
                return Err(MeshError::GeometryInconsistency);
            }
            proof {
                assert forall|k: int| 0 <= k < j + 1 implies {
                    let (x, y, z) = #[trigger] triangles@.take(j + 1)[k]@;
                    x < count && y < count && z < count
                } by {
                    if k < j {
                        assert(triangles@.take(j + 1)[k] == triangles@.take(j as int)[k]);
                    }
                }
            }
            j = j + 1;
        }
        assert(triangles@.take(j as int) == triangles@);
        Ok(Mesh { vertices, triangles })
    }

    /// The vertex buffer.
    pub fn vertices(&self) -> (r: &Vec<P>)
        ensures
            r@ == self.spec_vertices(),
    {
        &self.vertices
    }

    /// The index buffer.
    pub fn triangles(&self) -> (r: &Vec<Triangle>)
        ensures
            r@ == self.spec_triangles(),
    {
        &self.triangles
    }
}

/// Builds the mesh of `n` segments: samples `n + 1` rings with `ring_at`,
/// stitches them, and pairs the two buffers. Fails only when `n` is zero.
pub fn generate<P: Copy, F: Fn(usize) -> Ring<P>>(ring_at: F, n: usize) -> (r: Result<Mesh<P>, MeshError>)
    requires
        n <= MAX_SEGMENTS,
        forall|i: usize| i <= n ==> #[trigger] ring_at.requires((i,)),
    ensures
        r is Err <==> n == 0,
        r is Err ==> r->Err_0 == MeshError::InvalidSegmentCount,
        r matches Ok(m) ==> m.wf() && is_sampling(ring_at, m.spec_vertices(), n as nat)
            && is_stitching(m.spec_triangles(), n as nat),
{
    let vertices = match sample(ring_at, n) {
        Ok(v) => v,
        Err(e) => return Err(e),
    };
    let triangles = match stitch(n) {
        Ok(t) => t,
        Err(e) => return Err(e),
    };
    proof {
        lemma_stitched_indices_in_range(n as nat);
    }
    Mesh::assemble(vertices, triangles)
}

} // verus!
