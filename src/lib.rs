//! Pipeline selection and triangle batching for a 2D graphics back-end.
//!
//! The library decides which pre-compiled pipeline a draw uses and when the
//! pending batch of colored triangles is handed to the GPU. Vertex positions,
//! colors and texture coordinates are carried as opaque values of the
//! caller's types; the caller performs the actual buffer uploads and draws.
pub mod state;
pub mod pipeline;
pub mod batch;
pub mod laws;
