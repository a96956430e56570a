//! Grid topology primitives for a row-major 2D grid stored as a flat buffer:
//! classifying, for a linear cell index, which cardinal edges of the grid the
//! cell touches, and a precomputed per-grid classification table. A simulation
//! that iterates a heightmap uses these flags to decide where boundary
//! conditions apply.

pub mod edges;
pub mod topology;
