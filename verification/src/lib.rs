//! Texture normalization and conversion pipeline.
//!
//! Resolves a heterogeneous texture input (a structured container file or a
//! raw pixel buffer with explicit parameters) into one canonical texture
//! description, reconciles the payload against the declared mip-level byte
//! budget, and assembles the descriptor that the platform swizzle transform
//! consumes. File reading, command-line handling and the transform itself
//! live outside this crate.

pub mod descriptor;
pub mod format;
pub mod pipeline;
pub mod reconcile;
pub mod resolve;
