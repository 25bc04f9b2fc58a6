use crate::vector::Vector3;
use vstd::prelude::*;

verus! {

/// A triangle as indices into the arrays of a scene: three vertices, three
/// per-vertex normals, one face normal and one material.
#[derive(Debug, Clone, Copy)]
pub struct Triangle {
    pub vertices: [usize; 3],
    pub point_normals: [usize; 3],
    pub material: usize,
    pub face_normal: usize,
}

/// How a surface reflects and emits light, per colour channel.
#[derive(Debug, Clone, Copy)]
pub struct Material<T> {
    pub diffuse: Vector3<T>,
    pub emission: Vector3<T>,
}

} // verus!
