//! Chunked volumetric terrain core: density-field chunks addressed by a
//! bit-packed voxel index, a noise-driven field generator, a table-driven
//! marching-cubes triangulator with a CPU path and a capacity-bounded
//! offload path, and the streaming / scheduling / publishing rules that
//! tie them together.
pub mod bridge;
pub mod chunk;
pub mod generator;
pub mod indexing;
pub mod interp;
pub mod publish;
pub mod scheduler;
pub mod streaming;
pub mod tables;
pub mod triangulate;
