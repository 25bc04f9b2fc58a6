use crate::ray::Ray;
use crate::scalar::exact_scalar;
use crate::scalar::gt;
use crate::scalar::is_above;
use crate::scalar::is_below;
use crate::scalar::lt;
use crate::scalar::of_int;
use crate::scalar::total_scalar;
use crate::scalar::Scalar;
use crate::scene::mesh::Material;
use crate::scene::mesh::Triangle;
use crate::vector::cross_req;
use crate::vector::cross_spec;
use crate::vector::dot_req;
use crate::vector::dot_spec;
use crate::vector::sub_req;
use crate::vector::sub_spec;
use crate::vector::Vector3;
use std::ops::Neg;
use vstd::prelude::*;
use vstd::std_specs::convert::FromSpec;
use vstd::std_specs::ops::AddSpec;
use vstd::std_specs::ops::DivSpec;
use vstd::std_specs::ops::MulSpec;
use vstd::std_specs::ops::NegSpec;

pub mod geometry;
pub mod mesh;
pub mod nearest;

verus! {

/// The geometry of a scene in flat arrays. Triangles name their vertices,
/// normals and material by index; `meshes` holds, for each object, the index of
/// its first triangle, and an object's triangles run up to the next object's
/// first one, those of the last object up to the end of `triangles`.
#[derive(Debug)]
pub struct Scene<T> {
    pub vertices: Vec<Vector3<T>>,
    pub point_normals: Vec<Vector3<T>>,
    pub face_normals: Vec<Vector3<T>>,
    pub triangles: Vec<Triangle>,
    pub materials: Vec<Material<T>>,
    pub meshes: Vec<usize>,
}

/// The nearer of two candidate hits, each a ray parameter with the index of its
/// triangle. The candidate replaces the best so far only where its parameter is
/// strictly smaller: on equal parameters the earlier one stays.
pub open spec fn nearer_spec<T: Scalar>(
    best: Option<(T, usize)>,
    cand: Option<(T, usize)>,
) -> Option<(T, usize)> {
    match cand {
        None => best,
        Some(c) => match best {
            None => cand,
            Some(b) => if lt(c.0, b.0) {
                cand
            } else {
                best
            },
        },
    }
}

/// The determinant of the ray-triangle system: `(dir x e1) . e0` with
/// `e0 = v1 - v0` and `e1 = v2 - v0`. It depends on the ray's direction alone.
pub open spec fn determinant<T: Scalar>(
    v0: Vector3<T>,
    v1: Vector3<T>,
    v2: Vector3<T>,
    dir: Vector3<T>,
) -> T {
    dot_spec(cross_spec(dir, sub_spec(v2, v0)), sub_spec(v1, v0))
}

/// The determinant lies strictly between `-epsilon` and `epsilon`: the ray runs
/// along the triangle's plane, or the triangle is degenerate.
pub open spec fn degenerate<T: Scalar>(det: T, epsilon: T) -> bool {
    lt(det, epsilon) && lt(epsilon.neg_spec(), det)
}

/// The reciprocal of the determinant.
pub open spec fn inverse_det<T: Scalar>(
    v0: Vector3<T>,
    v1: Vector3<T>,
    v2: Vector3<T>,
    dir: Vector3<T>,
) -> T {
    T::from_spec(1i32).div_spec(determinant(v0, v1, v2, dir))
}

/// First barycentric coordinate of the point where the ray meets the
/// triangle's plane.
pub open spec fn bary_u<T: Scalar>(
    v0: Vector3<T>,
    v1: Vector3<T>,
    v2: Vector3<T>,
    ray: Ray<T>,
) -> T {
    inverse_det(v0, v1, v2, ray.dir).mul_spec(
        dot_spec(sub_spec(ray.orig, v0), cross_spec(ray.dir, sub_spec(v2, v0))),
    )
}

/// Second barycentric coordinate of that point.
pub open spec fn bary_v<T: Scalar>(
    v0: Vector3<T>,
    v1: Vector3<T>,
    v2: Vector3<T>,
    ray: Ray<T>,
) -> T {
    inverse_det(v0, v1, v2, ray.dir).mul_spec(
        dot_spec(ray.dir, cross_spec(sub_spec(ray.orig, v0), sub_spec(v1, v0))),
    )
}

/// The ray parameter of that point.
pub open spec fn ray_param<T: Scalar>(
    v0: Vector3<T>,
    v1: Vector3<T>,
    v2: Vector3<T>,
    ray: Ray<T>,
) -> T {
    inverse_det(v0, v1, v2, ray.dir).mul_spec(
        dot_spec(sub_spec(v2, v0), cross_spec(sub_spec(ray.orig, v0), sub_spec(v1, v0))),
    )
}

/// The barycentric coordinates `u`, `v` lie in the triangle: neither is below
/// zero, `u` is not above one and `u + v` is not above one.
pub open spec fn inside<T: Scalar>(u: T, v: T) -> bool {
    &&& !lt(u, T::from_spec(0i32))
    &&& !gt(u, T::from_spec(1i32))
    &&& !lt(v, T::from_spec(0i32))
    &&& !gt(u.add_spec(v), T::from_spec(1i32))
}

/// The ray-triangle test: the parameter at which `ray` crosses the triangle
/// `v0 v1 v2`, where the system is not degenerate, the crossing lies in the
/// triangle and the parameter is strictly above `acne_threshold`.
pub open spec fn triangle_hit<T: Scalar>(
    v0: Vector3<T>,
    v1: Vector3<T>,
    v2: Vector3<T>,
    ray: Ray<T>,
    acne_threshold: T,
    epsilon: T,
) -> Option<T> {
    if degenerate(determinant(v0, v1, v2, ray.dir), epsilon) {
        None
    } else if !inside(bary_u(v0, v1, v2, ray), bary_v(v0, v1, v2, ray)) {
        None
    } else if gt(ray_param(v0, v1, v2, ray), acne_threshold) {
        Some(ray_param(v0, v1, v2, ray))
    } else {
        None
    }
}

/// The nearer of two candidate hits; on equal parameters `best` stays.
pub fn nearer<T: Scalar>(best: Option<(T, usize)>, cand: Option<(T, usize)>) -> (r: Option<
    (T, usize),
>)
    ensures
        exact_scalar::<T>() ==> r == nearer_spec(best, cand),
        r == best || r == cand,
{
    match cand {
        None => best,
        Some(c) => match best {
            None => cand,
            Some(b) => if is_below(c.0, b.0) {
                cand
            } else {
                best
            },
        },
    }
}

/// Every operation that the ray-triangle test carries out on these operands
/// is defined: the test stops at the first rejection, and asks nothing of the
/// steps it does not reach.
pub open spec fn hit_defined<T: Scalar>(
    v0: Vector3<T>,
    v1: Vector3<T>,
    v2: Vector3<T>,
    ray: Ray<T>,
    epsilon: T,
) -> bool {
    let e0 = sub_spec(v1, v0);
    let e1 = sub_spec(v2, v0);
    let normal = cross_spec(ray.dir, e1);
    let det = determinant(v0, v1, v2, ray.dir);
    let inv = inverse_det(v0, v1, v2, ray.dir);
    let a = sub_spec(ray.orig, v0);
    let u = bary_u(v0, v1, v2, ray);
    let v = bary_v(v0, v1, v2, ray);
    &&& sub_req(v1, v0)
    &&& sub_req(v2, v0)
    &&& cross_req(ray.dir, e1)
    &&& dot_req(normal, e0)
    &&& epsilon.neg_req()
    &&& degenerate(det, epsilon) || {
        &&& T::from_spec(1i32).div_req(det)
        &&& sub_req(ray.orig, v0)
        &&& dot_req(a, normal)
        &&& inv.mul_req(dot_spec(a, normal))
        &&& lt(u, T::from_spec(0i32)) || gt(u, T::from_spec(1i32)) || {
            &&& cross_req(a, e0)
            &&& dot_req(ray.dir, cross_spec(a, e0))
            &&& inv.mul_req(dot_spec(ray.dir, cross_spec(a, e0)))
            &&& lt(v, T::from_spec(0i32)) || {
                &&& u.add_req(v)
                &&& gt(u.add_spec(v), T::from_spec(1i32)) || {
                    &&& dot_req(e1, cross_spec(a, e0))
                    &&& inv.mul_req(dot_spec(e1, cross_spec(a, e0)))
                }
            }
        }
    }
}

/// What a computation asks of the scalar type: either its arithmetic is
/// defined on all operands, or it is exact and `defined` says that each step
/// of this computation is defined.
pub open spec fn scalar_ok<T: Scalar>(defined: bool) -> bool {
    total_scalar::<T>() || (exact_scalar::<T>() && defined)
}

/// The ray-triangle test on the triangle of the corners `v0`, `v1`, `v2`
/// (see `triangle_hit`).
pub fn hit_corners<T: Scalar>(
    v0: Vector3<T>,
    v1: Vector3<T>,
    v2: Vector3<T>,
    ray: &Ray<T>,
    acne_threshold: T,
    epsilon: T,
) -> (r: Option<T>)
    requires
        scalar_ok::<T>(hit_defined(v0, v1, v2, *ray, epsilon)),
    ensures
        exact_scalar::<T>() ==> r == triangle_hit(v0, v1, v2, *ray, acne_threshold, epsilon),
{
    let zero: T = of_int(0i32);
    let one: T = of_int(1i32);

    let e0 = v1 - v0;
    let e1 = v2 - v0;

    let ray_x_e1 = ray.dir.cross(&e1);
    let determinant = ray_x_e1.dot(&e0);
    if is_below(determinant, epsilon) && is_below(epsilon.neg(), determinant) {
        return None;
    }
    let inverse_det = one / determinant;
    let a = ray.orig - v0;
    let u = inverse_det * a.dot(&ray_x_e1);
    if is_below(u, zero) || is_above(u, one) {
        return None;
    }
    let a_x_e0 = a.cross(&e0);
    let v = inverse_det * ray.dir.dot(&a_x_e0);
    if is_below(v, zero) || is_above(u + v, one) {
        return None;
    }
    let t = inverse_det * e1.dot(&a_x_e0);
    if is_above(t, acne_threshold) {
        Some(t)
    } else {
        None
    }
}

impl<T: Scalar> Scene<T> {
    /// The indices of `t` point into this scene's arrays.
    pub open spec fn triangle_ok(&self, t: Triangle) -> bool {
        &&& forall|k: int| 0 <= k < 3 ==> #[trigger] t.vertices[k] < self.vertices@.len()
        &&& forall|k: int| 0 <= k < 3 ==> #[trigger] t.point_normals[k] < self.point_normals@.len()
        &&& t.material < self.materials@.len()
        &&& t.face_normal < self.face_normals@.len()
    }

    /// Every index of every triangle is in bounds, and the objects' first
    /// triangles are strictly increasing positions in `triangles`.
    pub open spec fn well_formed(&self) -> bool {
        &&& forall|i: int|
            0 <= i < self.triangles@.len() ==> self.triangle_ok(#[trigger] self.triangles@[i])
        &&& forall|i: int, j: int|
            0 <= i < j < self.meshes@.len() ==> self.meshes@[i] < self.meshes@[j]
        &&& forall|i: int|
            0 <= i < self.meshes@.len() ==> #[trigger] self.meshes@[i] <= self.triangles@.len()
    }

    /// Index of the first triangle of object `mesh`.
    pub open spec fn range_start(&self, mesh: int) -> int {
        self.meshes@[mesh] as int
    }

    /// Index one past the last triangle of object `mesh`.
    pub open spec fn range_end(&self, mesh: int) -> int {
        if mesh == self.meshes@.len() - 1 {
            self.triangles@.len() as int
        } else {
            self.meshes@[mesh + 1] as int
        }
    }

    /// Corner `v` of triangle `triangle`.
    pub open spec fn corner(&self, triangle: int, v: int) -> Vector3<T> {
        self.vertices@[self.triangles@[triangle].vertices[v] as int]
    }

    /// The ray-triangle test is defined on triangle `triangle` of this scene.
    pub open spec fn hit_defined_at(&self, triangle: int, ray: Ray<T>, epsilon: T) -> bool {
        hit_defined(
            self.corner(triangle, 0),
            self.corner(triangle, 1),
            self.corner(triangle, 2),
            ray,
            epsilon,
        )
    }

    /// The ray-triangle test is defined on every triangle of this scene.
    pub open spec fn hits_defined(&self, ray: Ray<T>, epsilon: T) -> bool {
        forall|triangle: int|
            0 <= triangle < self.triangles@.len() ==> #[trigger] self.hit_defined_at(
                triangle,
                ray,
                epsilon,
            )
    }

    /// The ray-triangle test on triangle `triangle` of this scene.
    pub open spec fn hit_spec(
        &self,
        triangle: int,
        ray: Ray<T>,
        acne_threshold: T,
        epsilon: T,
    ) -> Option<(T, usize)> {
        match triangle_hit(
            self.corner(triangle, 0),
            self.corner(triangle, 1),
            self.corner(triangle, 2),
            ray,
            acne_threshold,
            epsilon,
        ) {
            Some(t) => Some((t, triangle as usize)),
            None => None,
        }
    }

    /// The nearest hit among the triangles `lo..hi`, scanned in ascending
    /// order.
    pub open spec fn scan_spec(
        &self,
        lo: int,
        hi: int,
        ray: Ray<T>,
        acne_threshold: T,
        epsilon: T,
    ) -> Option<(T, usize)>
        decreases hi - lo,
    {
        if hi <= lo {
            None
        } else {
            nearer_spec(
                self.scan_spec(lo, hi - 1, ray, acne_threshold, epsilon),
                self.hit_spec(hi - 1, ray, acne_threshold, epsilon),
            )
        }
    }

    /// The nearest hit among the triangles of object `mesh`.
    pub open spec fn mesh_hit_spec(
        &self,
        mesh: int,
        ray: Ray<T>,
        acne_threshold: T,
        epsilon: T,
    ) -> Option<(T, usize)> {
        self.scan_spec(self.range_start(mesh), self.range_end(mesh), ray, acne_threshold, epsilon)
    }

    /// The nearest hit among the first `count` objects, taken in order.
    pub open spec fn hits_upto(
        &self,
        count: int,
        ray: Ray<T>,
        acne_threshold: T,
        epsilon: T,
    ) -> Option<(T, usize)>
        decreases count,
    {
        if count <= 0 {
            None
        } else {
            nearer_spec(
                self.hits_upto(count - 1, ray, acne_threshold, epsilon),
                self.mesh_hit_spec(count - 1, ray, acne_threshold, epsilon),
            )
        }
    }

    /// The nearest hit of `ray` in the whole scene.
    pub open spec fn hits_spec(&self, ray: Ray<T>, acne_threshold: T, epsilon: T) -> Option<
        (T, usize),
    > {
        self.hits_upto(self.meshes@.len() as int, ray, acne_threshold, epsilon)
    }

    /// The scene without geometry.
    pub fn empty() -> (r: Scene<T>)
        ensures
            r.well_formed(),
            r.vertices@.len() == 0,
            r.point_normals@.len() == 0,
            r.face_normals@.len() == 0,
            r.triangles@.len() == 0,
            r.materials@.len() == 0,
            r.meshes@.len() == 0,
    {
        Scene {
            vertices: Vec::new(),
            point_normals: Vec::new(),
            face_normals: Vec::new(),
            triangles: Vec::new(),
            materials: Vec::new(),
            meshes: Vec::new(),
        }
    }

    /// Whether the indices of `t` point into this scene's arrays.
    pub fn check_triangle(&self, t: &Triangle) -> (r: bool)
        ensures
            r == self.triangle_ok(*t),
    {
        let vertices = self.vertices.len();
        let normals = self.point_normals.len();
        let ok = t.vertices[0] < vertices && t.vertices[1] < vertices && t.vertices[2] < vertices
            && t.point_normals[0] < normals && t.point_normals[1] < normals && t.point_normals[2]
            < normals && t.material < self.materials.len() && t.face_normal
            < self.face_normals.len();
        proof {
            if ok {
                assert forall|k: int| 0 <= k < 3 implies #[trigger] t.vertices[k]
                    < self.vertices@.len() by {
                    assert(k == 0 || k == 1 || k == 2);
                }
                assert forall|k: int| 0 <= k < 3 implies #[trigger] t.point_normals[k]
                    < self.point_normals@.len() by {
                    assert(k == 0 || k == 1 || k == 2);
                }
            }
        }
        ok
    }

    /// Whether the scene is well formed.
    pub fn is_well_formed(&self) -> (r: bool)
        ensures
            r == self.well_formed(),
    {
        let mut i: usize = 0;
        while i < self.triangles.len()
            invariant
                i <= self.triangles@.len(),
                forall|k: int| 0 <= k < i ==> self.triangle_ok(#[trigger] self.triangles@[k]),
            decreases self.triangles@.len() - i,
        {
            if !self.check_triangle(&self.triangles[i]) {
                return false;
            }
            i += 1;
        }
        let mut m: usize = 0;
        while m < self.meshes.len()
            invariant
                m <= self.meshes@.len(),
                forall|k: int| 0 <= k < m ==> #[trigger] self.meshes@[k] <= self.triangles@.len(),
                forall|a: int, b: int| 0 <= a < b < m ==> self.meshes@[a] < self.meshes@[b],
            decreases self.meshes@.len() - m,
        {
            if self.meshes[m] > self.triangles.len() {
                return false;
            }
            if m > 0 && self.meshes[m - 1] >= self.meshes[m] {
                return false;
            }
            assert forall|a: int, b: int| 0 <= a < b < m + 1 implies self.meshes@[a]
                < self.meshes@[b] by {
                if b == m && a < m - 1 {
                    assert(self.meshes@[a] < self.meshes@[m - 1]);
                }
            }
            m += 1;
        }
        true
    }

    pub fn get_triangle_vertex(&self, triangle: usize, v: u8) -> (r: &Vector3<T>)
        requires
            self.well_formed(),
            triangle < self.triangles@.len(),
            v < 3,
        ensures
            *r == self.corner(triangle as int, v as int),
    {
        &self.vertices[self.triangles[triangle].vertices[v as usize]]
    }

    pub fn get_triangel_mat(&self, triangle: usize) -> (r: &Material<T>)
        requires
            self.well_formed(),
            triangle < self.triangles@.len(),
        ensures
            *r == self.materials@[self.triangles@[triangle as int].material as int],
    {
        &self.materials[self.triangles[triangle].material]
    }

    pub fn get_face_normal(&self, triangle: usize) -> (r: &Vector3<T>)
        requires
            self.well_formed(),
            triangle < self.triangles@.len(),
        ensures
            *r == self.face_normals@[self.triangles@[triangle as int].face_normal as int],
    {
        &self.face_normals[self.triangles[triangle].face_normal]
    }

    /// The triangles of object `mesh`, as the first index and the index one
    /// past the last.
    pub fn get_triangle_range(&self, mesh: usize) -> (r: (usize, usize))
        requires
            mesh < self.meshes@.len(),
        ensures
            r.0 == self.range_start(mesh as int),
            r.1 == self.range_end(mesh as int),
    {
        let lower = self.meshes[mesh];
        let upper = if mesh == self.meshes.len() - 1 {
            self.triangles.len()
        } else {
            self.meshes[mesh + 1]
        };
        (lower, upper)
    }

    /// The ray-triangle test on one triangle of the scene: the ray parameter
    /// of the crossing with the index of the triangle, or `None` where the
    /// ray runs along the triangle's plane, the crossing lies outside the
    /// triangle, or its parameter is not strictly above `acne_threshold`.
    pub fn hit_triangle(&self, triangle: usize, ray: &Ray<T>, acne_threshold: T, epsilon: T) -> (r:
        Option<(T, usize)>)
        requires
            self.well_formed(),
            triangle < self.triangles@.len(),
            scalar_ok::<T>(self.hit_defined_at(triangle as int, *ray, epsilon)),
        ensures
            exact_scalar::<T>() ==> r == self.hit_spec(
                triangle as int,
                *ray,
                acne_threshold,
                epsilon,
            ),
            r is Some ==> r.unwrap().1 == triangle,
    {
        let v0 = *self.get_triangle_vertex(triangle, 0);
        let v1 = *self.get_triangle_vertex(triangle, 1);
        let v2 = *self.get_triangle_vertex(triangle, 2);
        match hit_corners(v0, v1, v2, ray, acne_threshold, epsilon) {
            Some(t) => Some((t, triangle)),
            None => None,
        }
    }

    /// The nearest hit of `ray` among the triangles of object `mesh`, scanned
    /// in ascending order.
    pub fn hits_mesh(&self, mesh: usize, ray: &Ray<T>, acne_threshold: T, epsilon: T) -> (r:
        Option<(T, usize)>)
        requires
            self.well_formed(),
            mesh < self.meshes@.len(),
            scalar_ok::<T>(self.hits_defined(*ray, epsilon)),
        ensures
            exact_scalar::<T>() ==> r == self.mesh_hit_spec(
                mesh as int,
                *ray,
                acne_threshold,
                epsilon,
            ),
            r is Some ==> self.range_start(mesh as int) <= r.unwrap().1 < self.range_end(mesh as int),
    {
        let (lower, upper) = self.get_triangle_range(mesh);
        let mut result: Option<(T, usize)> = None;
        let mut triangle: usize = lower;
        while triangle < upper
            invariant
                self.well_formed(),
                scalar_ok::<T>(self.hits_defined(*ray, epsilon)),
                upper <= self.triangles@.len(),
                lower == self.range_start(mesh as int),
                upper == self.range_end(mesh as int),
                lower <= triangle,
                lower <= upper ==> triangle <= upper,
                exact_scalar::<T>() ==> result == self.scan_spec(
                    lower as int,
                    triangle as int,
                    *ray,
                    acne_threshold,
                    epsilon,
                ),
                result is Some ==> lower <= result.unwrap().1 < triangle,
            decreases upper - triangle,
        {
            let found = self.hit_triangle(triangle, ray, acne_threshold, epsilon);
            result = nearer(result, found);
            triangle += 1;
        }
        result
    }

    /// The nearest hit of `ray` in the scene, as the ray parameter and the
    /// index of the triangle, or `None` where the ray hits nothing. Objects
    /// are taken in order, and the triangles of each in ascending order; a hit
    /// replaces the nearest so far only where its parameter is strictly
    /// smaller.
    pub fn hits(&self, ray: &Ray<T>, acne_threshold: T, epsilon: T) -> (r: Option<(T, usize)>)
        requires
            self.well_formed(),
            scalar_ok::<T>(self.hits_defined(*ray, epsilon)),
        ensures
            exact_scalar::<T>() ==> r == self.hits_spec(*ray, acne_threshold, epsilon),
            r is Some ==> r.unwrap().1 < self.triangles@.len(),
    {
        let mut result: Option<(T, usize)> = None;
        let mut i: usize = 0;
        while i < self.meshes.len()
            invariant
                self.well_formed(),
                scalar_ok::<T>(self.hits_defined(*ray, epsilon)),
                i <= self.meshes@.len(),
                exact_scalar::<T>() ==> result == self.hits_upto(
                    i as int,
                    *ray,
                    acne_threshold,
                    epsilon,
                ),
                result is Some ==> result.unwrap().1 < self.triangles@.len(),
            decreases self.meshes@.len() - i,
        {
            let found = self.hits_mesh(i, ray, acne_threshold, epsilon);
            result = nearer(result, found);
            i += 1;
        }
        result
    }
}

} // verus!
