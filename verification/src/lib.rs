//! A path tracer for scenes of triangles, generic over the scalar type of its
//! geometry.
//!
//! The scalar is any type with the arithmetic operators, an order and an image
//! of the 32-bit integers; the transcendental functions that sampling and
//! normalization need are handed in by the caller. Contracts are stated over
//! the specifications of the scalar's operators: they say what is computed
//! for every scalar type whose operators are exact. The ray-triangle test and
//! the vector operations ask that the steps they carry out be defined on
//! their operands; the renderer asks that the operators be defined on all
//! operands. What holds of the geometry and of the light where the scalars
//! are real numbers is proved in `scene::geometry`, `scene::nearest`,
//! `radiance` and `mean`.
use vstd::prelude::*;

pub mod encode;
pub mod image;
pub mod mean;
pub mod mesh;
pub mod obj;
pub mod radiance;
pub mod rand;
pub mod ray;
pub mod renderer;
pub mod scalar;
pub mod scene;
pub mod vector;

verus! {

} // verus!
