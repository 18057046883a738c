use vstd::prelude::*;

verus! {

/// Why mesh generation failed.
#[derive(Debug, Clone, Copy, PartialEq, Eq, Structural)]
pub enum MeshError {
    /// The segment count was zero: fewer than two rings cannot form a segment.
    InvalidSegmentCount,
    /// A triangle refers to a vertex that the vertex buffer does not hold.
    GeometryInconsistency,
}

} // verus!
