//! A procedural terrain-mesh pipeline: an ordered list of mesh operations
//! (primitive generators, subdivision, displacement, smoothing, fractal
//! refinement) is replayed from an empty buffer to produce a triangle mesh,
//! followed by a normal-accumulation pass; a deduplicated wireframe edge
//! list can be derived from the result.

pub mod displacement;
pub mod edge;
pub mod generators;
pub mod mesh_operation;
pub mod noise_field;
pub mod pipeline;
pub mod rng;
pub mod scalar;
pub mod smoothing;
pub mod subdivision;
pub mod vertex;
pub mod wireframe;
