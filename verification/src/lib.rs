//! A software perspective rasterizer for triangle meshes, driven by an
//! orbiting camera: camera transform construction, per-vertex projection
//! with near-plane culling, back-to-front ordering (painter's algorithm),
//! and depth-based shading.
//!
//! All geometry and camera arithmetic is done in signed 64-bit fixed-point
//! (`fixed::SCALE` steps per unit), so every stage of the pipeline carries
//! an exact contract.

pub mod camera;
pub mod compose;
pub mod fixed;
pub mod geometry;
pub mod laws;
pub mod project;
pub mod render;
pub mod sort;
