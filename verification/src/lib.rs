//! A CPU-side rasterization pipeline for procedurally shaded celestial
//! bodies: vertex transformation, triangle rasterization with barycentric
//! interpolation, per-body procedural fragment shading, and a depth-tested,
//! dual-buffer (lit + emissive) compositor.
//!
//! All geometry and shading runs on 16.16 fixed-point integers (see
//! [`fixed`]), so every stage carries a machine-checked contract. Operations
//! that only a floating-point library can provide (trigonometry, the noise
//! field) are taken as plain fixed-point inputs: the caller samples them and
//! hands the values in, and the pipeline's decisions about those values are
//! verified for every possible sample.

pub mod camera;
pub mod color;
pub mod fixed;
pub mod fragment;
pub mod framebuffer;
pub mod laws;
pub mod matrix;
pub mod render;
pub mod scene;
pub mod shaders;
pub mod triangle;
pub mod uniforms;
pub mod vertex;

pub use fixed::FX_ONE;
