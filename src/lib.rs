//! Per-fragment procedural shading in fixed-point arithmetic.
//!
//! Scalars are held in thousandths (`1000` stands for `1.0`): positions,
//! normals, intensities, interpolation factors and the samples of the scalar
//! fields (noise, sine waves) that the caller evaluates.
pub mod color;
pub mod fixed;
pub mod fragment;
pub mod shaders;
pub mod laws;
