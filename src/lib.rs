//! Surface meshes of a rectangular cross-section swept along a path: rings of
//! four corners, stitched into a band of triangles.

pub mod error;
pub mod laws;
pub mod mesh;
pub mod ring;
pub mod stitch;
