use vstd::prelude::*;

use crate::error::MeshError;
use crate::stitch::MAX_SEGMENTS;

verus! {

/// The four corners of the rectangular cross-section at one place along the
/// path, in buffer order.
#[derive(Debug, PartialEq, Eq)]
pub struct Ring<P> {
    pub outer_top: P,
    pub outer_bottom: P,
    pub inner_bottom: P,
    pub inner_top: P,
}

/// Ring `i` occupies positions `4 * i .. 4 * i + 3` of `v`, corner by corner.
pub open spec fn holds_ring<P>(v: Seq<P>, i: int, ring: Ring<P>) -> bool {
    &&& v[4 * i] == ring.outer_top
    &&& v[4 * i + 1] == ring.outer_bottom
    &&& v[4 * i + 2] == ring.inner_bottom
    &&& v[4 * i + 3] == ring.inner_top
}

/// Ring `i` of `v` is a ring that `ring_at` may return for sample `i`.
pub open spec fn ring_placed<P, F: Fn(usize) -> Ring<P>>(ring_at: F, v: Seq<P>, i: int) -> bool {
    exists|ring: Ring<P>| #[trigger] ring_at.ensures((i as usize,), ring) && holds_ring(v, i, ring)
}

/// `v` is the vertex buffer of `n` segments: the `n + 1` rings that `ring_at`
/// places at samples `0..=n`, concatenated in path order.
pub open spec fn is_sampling<P, F: Fn(usize) -> Ring<P>>(ring_at: F, v: Seq<P>, n: nat) -> bool {
    &&& v.len() == 4 * (n + 1)
    &&& forall|i: int| 0 <= i <= n ==> #[trigger] ring_placed(ring_at, v, i)
}

/// Samples the path at `n + 1` places, `0..=n`, and lays the rings out one
/// after another. `ring_at(i)` places the cross-section at sample `i`, the
/// fraction `i / n` of the way along the path.
pub fn sample<P: Copy, F: Fn(usize) -> Ring<P>>(ring_at: F, n: usize) -> (r: Result<Vec<P>, MeshError>)
    requires
        n <= MAX_SEGMENTS,
        forall|i: usize| i <= n ==> #[trigger] ring_at.requires((i,)),
    ensures
        r is Err <==> n == 0,
        r is Err ==> r == Err::<Vec<P>, MeshError>(MeshError::InvalidSegmentCount),
        r matches Ok(v) ==> is_sampling(ring_at, v@, n as nat),
{
    if n == 0 {
        return Err(MeshError::InvalidSegmentCount);
    }
    let mut v: Vec<P> = Vec::new();
    let mut i: usize = 0;
    while i <= n
        invariant
            i <= n + 1,
            n <= MAX_SEGMENTS,
            forall|i: usize| i <= n ==> #[trigger] ring_at.requires((i,)),
            v@.len() == 4 * i,
            forall|j: int| 0 <= j < i ==> #[trigger] ring_placed(ring_at, v@, j),
        decreases n + 1 - i,
    {
        let ring = ring_at(i);
        let old_v = Ghost(v@);
        v.push(ring.outer_top);
        v.push(ring.outer_bottom);
        v.push(ring.inner_bottom);
        v.push(ring.inner_top);
        proof {
            assert(holds_ring(v@, i as int, ring));
            assert(ring_at.ensures(((i as int) as usize,), ring));
            assert(ring_placed(ring_at, v@, i as int));
            assert forall|j: int| 0 <= j < i implies #[trigger] ring_placed(ring_at, v@, j) by {
                assert(ring_placed(ring_at, old_v@, j));
                let w = choose|w: Ring<P>| #[trigger] ring_at.ensures((j as usize,), w) && holds_ring(old_v@, j, w);
                assert(holds_ring(v@, j, w));
            }
        }
        i = i + 1;
    }
    Ok(v)
}

} // verus!
