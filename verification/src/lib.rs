//! Verified core of a GPU glyph renderer.
//!
//! The crate keeps a glyph atlas model, converts glyph placement records into
//! packed per-instance vertices with exact screen-to-clip-space mapping and
//! texture-coordinate clipping, and manages the lifecycle of the single
//! vertex buffer that holds a frame's glyph quads. Coordinates are carried as
//! exact integer fractions; the host layer converts them to the device's
//! floating-point format only at the upload boundary.

pub mod atlas;
pub mod rat;
pub mod renderer;
pub mod vertex;
