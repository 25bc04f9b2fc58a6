use crate::ray::Ray;
use crate::scalar::exact_scalar;
use crate::scalar::total_scalar;
use crate::scalar::Scalar;
use crate::scene::triangle_hit;
use crate::scene::Scene;
use crate::vector::add_spec;
use crate::vector::scale_spec;
use crate::vector::Vector3;
use vstd::prelude::*;

verus! {

/// A triangle of a mesh: three vertices and three normals, by index.
#[derive(Debug, Clone, Copy)]
pub struct Triangle {
    pub vertices: [usize; 3],
    pub normals: [usize; 3],
}

impl Triangle {
    pub fn new(vertices: [usize; 3], normals: [usize; 3]) -> (r: Triangle)
        ensures
            r.vertices == vertices,
            r.normals == normals,
    {
        Triangle { vertices, normals }
    }

    /// The index of corner `v`.
    pub fn get_vertex(&self, v: u8) -> (r: usize)
        requires
            v < 3,
        ensures
            r == self.vertices[v as int],
    {
        self.vertices[v as usize]
    }

    /// The index of the normal at corner `v`.
    pub fn get_normal(&self, v: u8) -> (r: usize)
        requires
            v < 3,
        ensures
            r == self.normals[v as int],
    {
        self.normals[v as usize]
    }
}

/// One object on its own: vertices, normals and the triangles between them.
#[derive(Debug)]
pub struct Mesh<T> {
    pub vertices: Vec<Vector3<T>>,
    pub normals: Vec<Vector3<T>>,
    pub triangles: Vec<Triangle>,
}

impl<T: Scalar> Mesh<T> {
    /// The indices of `t` point into the arrays of this mesh.
    pub open spec fn triangle_ok(&self, t: Triangle) -> bool {
        &&& forall|k: int| 0 <= k < 3 ==> #[trigger] t.vertices[k] < self.vertices@.len()
        &&& forall|k: int| 0 <= k < 3 ==> #[trigger] t.normals[k] < self.normals@.len()
    }

    /// Every index of every triangle is in bounds.
    pub open spec fn well_formed(&self) -> bool {
        forall|i: int|
            0 <= i < self.triangles@.len() ==> self.triangle_ok(#[trigger] self.triangles@[i])
    }

    /// Corner `v` of triangle `triangle`.
    pub open spec fn corner(&self, triangle: int, v: int) -> Vector3<T> {
        self.vertices@[self.triangles@[triangle].vertices[v] as int]
    }

    /// Where `ray` meets triangle `triangle`, if it hits it: the direction
    /// times the parameter of the hit, plus the origin. The tolerance of the
    /// determinant is also the threshold of the parameter.
    pub open spec fn hit_point(&self, triangle: int, ray: Ray<T>, epsilon: T) -> Option<
        Vector3<T>,
    > {
        match triangle_hit(
            self.corner(triangle, 0),
            self.corner(triangle, 1),
            self.corner(triangle, 2),
            ray,
            epsilon,
            epsilon,
        ) {
            Some(t) => Some(add_spec(scale_spec(ray.dir, t), ray.orig)),
            None => None,
        }
    }

    /// The hit point of the first of the triangles `from..` that `ray` hits.
    pub open spec fn first_hit(&self, from: int, ray: Ray<T>, epsilon: T) -> Option<Vector3<T>>
        decreases self.triangles@.len() - from,
    {
        if from >= self.triangles@.len() {
            None
        } else if self.hit_point(from, ray, epsilon) is Some {
            self.hit_point(from, ray, epsilon)
        } else {
            self.first_hit(from + 1, ray, epsilon)
        }
    }

    /// The mesh of the given parts.
    pub fn new(vertices: Vec<Vector3<T>>, normals: Vec<Vector3<T>>, triangles: Vec<Triangle>) -> (r:
        Mesh<T>)
        ensures
            r.vertices == vertices,
            r.normals == normals,
            r.triangles == triangles,
    {
        Mesh { vertices, normals, triangles }
    }

    /// The triangles of `scene` as one mesh, whatever object they belong to.
    pub fn of_scene(scene: &Scene<T>) -> (r: Mesh<T>)
        requires
            scene.well_formed(),
        ensures
            r.well_formed(),
            r.vertices@ == scene.vertices@,
            r.normals@ == scene.point_normals@,
            r.triangles@.len() == scene.triangles@.len(),
            forall|i: int|
                0 <= i < r.triangles@.len() ==> (#[trigger] r.triangles@[i]).vertices
                    == scene.triangles@[i].vertices && r.triangles@[i].normals
                    == scene.triangles@[i].point_normals,
    {
        let mut vertices: Vec<Vector3<T>> = Vec::new();
        let mut i: usize = 0;
        while i < scene.vertices.len()
            invariant
                i <= scene.vertices@.len(),
                vertices@ == scene.vertices@.take(i as int),
            decreases scene.vertices@.len() - i,
        {
            vertices.push(scene.vertices[i]);
            assert(vertices@ =~= scene.vertices@.take(i + 1));
            i += 1;
        }
        assert(scene.vertices@.take(scene.vertices@.len() as int) =~= scene.vertices@);
        let mut normals: Vec<Vector3<T>> = Vec::new();
        let mut j: usize = 0;
        while j < scene.point_normals.len()
            invariant
                j <= scene.point_normals@.len(),
                normals@ == scene.point_normals@.take(j as int),
            decreases scene.point_normals@.len() - j,
        {
            normals.push(scene.point_normals[j]);
            assert(normals@ =~= scene.point_normals@.take(j + 1));
            j += 1;
        }
        assert(scene.point_normals@.take(scene.point_normals@.len() as int)
            =~= scene.point_normals@);
        let mut triangles: Vec<Triangle> = Vec::new();
        let mut k: usize = 0;
        while k < scene.triangles.len()
            invariant
                scene.well_formed(),
                k <= scene.triangles@.len(),
                triangles@.len() == k,
                forall|i: int|
                    0 <= i < k ==> (#[trigger] triangles@[i]).vertices
                        == scene.triangles@[i].vertices && triangles@[i].normals
                        == scene.triangles@[i].point_normals,
            decreases scene.triangles@.len() - k,
        {
            let t = &scene.triangles[k];
            triangles.push(Triangle::new(t.vertices, t.point_normals));
            k += 1;
        }
        let mesh = Mesh { vertices, normals, triangles };
        proof {
            assert forall|i: int| 0 <= i < mesh.triangles@.len() implies mesh.triangle_ok(
                #[trigger] mesh.triangles@[i],
            ) by {
                assert(scene.triangle_ok(scene.triangles@[i]));
                assert(mesh.triangles@[i].vertices == scene.triangles@[i].vertices);
                assert(mesh.triangles@[i].normals == scene.triangles@[i].point_normals);
            }
        }
        mesh
    }

    pub fn get_triangle_vertex(&self, triangle: usize, v: u8) -> (r: &Vector3<T>)
        requires
            self.well_formed(),
            triangle < self.triangles@.len(),
            v < 3,
        ensures
            *r == self.corner(triangle as int, v as int),
    {
        assert(self.triangle_ok(self.triangles@[triangle as int]));
        &self.vertices[self.triangles[triangle].get_vertex(v)]
    }

    pub fn get_vertex(&self, i: usize) -> (r: &Vector3<T>)
        requires
            i < self.vertices@.len(),
        ensures
            *r == self.vertices@[i as int],
    {
        &self.vertices[i]
    }

    pub fn get_normal(&self, i: usize) -> (r: &Vector3<T>)
        requires
            i < self.normals@.len(),
        ensures
            *r == self.normals@[i as int],
    {
        &self.normals[i]
    }

    /// The point at which `ray` hits the first triangle, in the order of the
    /// mesh, that it hits at all; this need not be the nearest one.
    pub fn hits(&self, ray: &Ray<T>, epsilon: T) -> (r: Option<Vector3<T>>)
        requires
            self.well_formed(),
            total_scalar::<T>(),
        ensures
            exact_scalar::<T>() ==> r == self.first_hit(0, *ray, epsilon),
    {
        let mut t: usize = 0;
        while t < self.triangles.len()
            invariant
                self.well_formed(),
                total_scalar::<T>(),
                t <= self.triangles@.len(),
                exact_scalar::<T>() ==> self.first_hit(0, *ray, epsilon) == self.first_hit(
                    t as int,
                    *ray,
                    epsilon,
                ),
            decreases self.triangles@.len() - t,
        {
            let v0 = *self.get_triangle_vertex(t, 0);
            let v1 = *self.get_triangle_vertex(t, 1);
            let v2 = *self.get_triangle_vertex(t, 2);
            match crate::scene::hit_corners(v0, v1, v2, ray, epsilon, epsilon) {
                Some(at) => {
                    return Some(ray.dir * at + ray.orig);
                },
                None => {},
            }
            t += 1;
        }
        None
    }
}

} // verus!
