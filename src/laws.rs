use vstd::prelude::*;

use crate::ring::{holds_ring, is_sampling, ring_placed, Ring};
use crate::stitch::{face_offsets, is_stitching, segment_triangle, stitched_triangle, Triangle};

verus! {

/// Every index that the stitching of `n` segments produces addresses one of the
/// `4 * (n + 1)` vertices of the `n + 1` rings.
pub proof fn lemma_stitched_indices_in_range(n: nat)
    ensures
        forall|j: int| 0 <= j < 8 * n ==> {
            let (x, y, z) = #[trigger] stitched_triangle(j);
            0 <= x < 4 * (n + 1) && 0 <= y < 4 * (n + 1) && 0 <= z < 4 * (n + 1)
        },
{
    assert forall|j: int| 0 <= j < 8 * n implies {
        let (x, y, z) = #[trigger] stitched_triangle(j);
        0 <= x < 4 * (n + 1) && 0 <= y < 4 * (n + 1) && 0 <= z < 4 * (n + 1)
    } by {
        let i = j / 8;
        let k = j % 8;
        assert(0 <= i < n && 0 <= k < 8) by (nonlinear_arith)
            requires 0 <= j < 8 * n, i == j / 8, k == j % 8;
        let (a, b, c) = face_offsets(k);
        assert(0 <= a < 8 && 0 <= b < 8 && 0 <= c < 8);
        assert(segment_triangle(i, k) == (4 * i + a, 4 * i + b, 4 * i + c));
    }
}

/// The index buffer of `n` segments is unique: any two buffers that both
/// stitch `n` segments are the same sequence, so stitching twice gives the
/// same result.
pub proof fn lemma_stitching_unique(n: nat, v1: Seq<Triangle>, v2: Seq<Triangle>)
    requires
        is_stitching(v1, n),
        is_stitching(v2, n),
    ensures
        v1 == v2,
{
    assert forall|j: int| 0 <= j < v1.len() implies v1[j] == v2[j] by {
        assert(v1[j]@ == v2[j]@);
    }
    assert(v1 =~= v2);
}

/// Sampling is a function of its inputs: where the placement returns one ring
/// for each sample, any two vertex buffers that both sample `n` segments with
/// it are the same sequence, so sampling twice gives the same result.
pub proof fn lemma_sampling_unique<P, F: Fn(usize) -> Ring<P>>(
    ring_at: F,
    n: nat,
    v1: Seq<P>,
    v2: Seq<P>,
)
    requires
        forall|i: usize, r1: Ring<P>, r2: Ring<P>|
            #![trigger ring_at.ensures((i,), r1), ring_at.ensures((i,), r2)]
            ring_at.ensures((i,), r1) && ring_at.ensures((i,), r2) ==> r1 == r2,
        is_sampling(ring_at, v1, n),
        is_sampling(ring_at, v2, n),
    ensures
        v1 == v2,
{
    assert forall|p: int| 0 <= p < v1.len() implies v1[p] == v2[p] by {
        let i = p / 4;
        let k = p % 4;
        assert(0 <= i <= n && 0 <= k < 4 && p == 4 * i + k) by (nonlinear_arith)
            requires 0 <= p < 4 * (n + 1), i == p / 4, k == p % 4;
        assert(ring_placed(ring_at, v1, i));
        assert(ring_placed(ring_at, v2, i));
        let w1 = choose|w: Ring<P>| #[trigger] ring_at.ensures((i as usize,), w) && holds_ring(v1, i, w);
        let w2 = choose|w: Ring<P>| #[trigger] ring_at.ensures((i as usize,), w) && holds_ring(v2, i, w);
        assert(w1 == w2);
    }
    assert(v1 =~= v2);
}

} // verus!
