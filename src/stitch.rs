use vstd::prelude::*;

use crate::error::MeshError;

verus! {

/// The largest segment count whose vertex indices all fit in a `u32`.
pub const MAX_SEGMENTS: usize = 1073741823;

/// One triangle of the index buffer: three vertex indices, in winding order.
#[derive(Debug, Clone, Copy, PartialEq, Eq, Structural)]
pub struct Triangle {
    pub a: u32,
    pub b: u32,
    pub c: u32,
}

impl View for Triangle {
    type V = (int, int, int);

    open spec fn view(&self) -> (int, int, int) {
        (self.a as int, self.b as int, self.c as int)
    }
}

/// The `k`-th of the eight triangles of a segment, as offsets from the index of
/// the segment's first ring. Offsets 0..3 are ring `a` (outer top, outer
/// bottom, inner bottom, inner top), 4..7 the same corners of ring `b`.
pub open spec fn face_offsets(k: int) -> (int, int, int) {
    if k == 0 {
        (3, 0, 7)  // top
    } else if k == 1 {
        (7, 0, 4)
    } else if k == 2 {
        (5, 1, 6)  // bottom
    } else if k == 3 {
        (6, 1, 2)
    } else if k == 4 {
        (2, 3, 6)  // inner
    } else if k == 5 {
        (6, 3, 7)
    } else if k == 6 {
        (4, 0, 5)  // outer
    } else {
        (5, 0, 1)
    }
}

/// The `k`-th triangle of segment `i`, joining ring `i` to ring `i + 1`.
pub open spec fn segment_triangle(i: int, k: int) -> (int, int, int) {
    let (x, y, z) = face_offsets(k);
    (4 * i + x, 4 * i + y, 4 * i + z)
}

/// The `j`-th triangle of the index buffer: triangle `j % 8` of segment `j / 8`.
pub open spec fn stitched_triangle(j: int) -> (int, int, int) {
    segment_triangle(j / 8, j % 8)
}

/// `v` is the index buffer of `n` segments: eight triangles per segment, in
/// segment order and in the fixed face order.
pub open spec fn is_stitching(v: Seq<Triangle>, n: nat) -> bool {
    &&& v.len() == 8 * n
    &&& forall|j: int| 0 <= j < v.len() ==> (#[trigger] v[j])@ == stitched_triangle(j)
}

proof fn lemma_split_index(i: int, k: int)
    requires
        0 <= i,
        0 <= k < 8,
    ensures
        (8 * i + k) / 8 == i,
        (8 * i + k) % 8 == k,
{
    assert((8 * i + k) / 8 == i && (8 * i + k) % 8 == k) by (nonlinear_arith)
        requires 0 <= i, 0 <= k < 8;
}

fn triangle(base: u32, x: u32, y: u32, z: u32) -> (t: Triangle)
    requires
        base + 7 <= u32::MAX,
        x < 8,
        y < 8,
        z < 8,
    ensures
        t@ == (base + x, base + y, base + z),
{
    Triangle { a: base + x, b: base + y, c: base + z }
}

/// Builds the index buffer that joins `n + 1` consecutive rings into a band:
/// for each segment, two triangles each for the top, bottom, inner and outer
/// face. The result depends on `n` alone.
pub fn stitch(n: usize) -> (r: Result<Vec<Triangle>, MeshError>)
    requires
        n <= MAX_SEGMENTS,
    ensures
        r is Err <==> n == 0,
        r is Err ==> r == Err::<Vec<Triangle>, MeshError>(MeshError::InvalidSegmentCount),
        r matches Ok(v) ==> is_stitching(v@, n as nat),
{
    if n == 0 {
        return Err(MeshError::InvalidSegmentCount);
    }
    let mut v: Vec<Triangle> = Vec::new();
    let mut i: usize = 0;
    while i < n
        invariant
            i <= n,
            n <= MAX_SEGMENTS,
            is_stitching(v@, i as nat),
        decreases n - i,
    {
        let base: u32 = 4 * (i as u32);
        let old_v = Ghost(v@);
        v.push(triangle(base, 3, 0, 7));
        v.push(triangle(base, 7, 0, 4));
        v.push(triangle(base, 5, 1, 6));
        v.push(triangle(base, 6, 1, 2));
        v.push(triangle(base, 2, 3, 6));
        v.push(triangle(base, 6, 3, 7));
        v.push(triangle(base, 4, 0, 5));
        v.push(triangle(base, 5, 0, 1));
        proof {
            assert forall|j: int| 0 <= j < v@.len() implies (#[trigger] v@[j])@ == stitched_triangle(j) by {
                if j >= 8 * i {
                    lemma_split_index(i as int, j - 8 * i);
                } else {
                    assert(v@[j] == old_v@[j]);
                }
            }
        }
        i = i + 1;
    }
    Ok(v)
}

} // verus!
