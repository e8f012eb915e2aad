//! Verified game rules of a small cube-planet world: which face of the cube a
//! walker stands on, the outward normal of each face, and how the movement keys
//! combine into a walking direction.
pub mod controls;
pub mod cube;
