use crate::ray::Ray;
use crate::scalar::gt;
use crate::scalar::lt;
use crate::scalar::Scalar;
use crate::scene::bary_u;
use crate::scene::bary_v;
use crate::scene::degenerate;
use crate::scene::determinant;
use crate::scene::inside;
use crate::scene::nearer_spec;
use crate::scene::ray_param;
use crate::scene::triangle_hit;
use crate::scene::Scene;
use crate::vector::Vector3;
use vstd::prelude::*;

verus! {

/// On the values strictly above `floor`, the order of `T` is a strict weak
/// order: of two values at most one is below the other, and a value that is
/// not below a second, which is not below a third, is not below the third.
pub open spec fn ordered_above<T: Scalar>(floor: T) -> bool {
    &&& forall|a: T, b: T| gt(a, floor) && gt(b, floor) && #[trigger] lt(a, b) ==> !lt(b, a)
    &&& forall|a: T, b: T, c: T|
        gt(a, floor) && gt(b, floor) && gt(c, floor) && !#[trigger] lt(a, b) && !#[trigger] lt(
            b,
            c,
        ) ==> !lt(a, c)
}

/// `r` is the first nearest hit among the triangles `lo..hi`: nothing where
/// none of them is hit, else one of them with its parameter, below which no
/// hit of these triangles lies, and above which every hit of an earlier one
/// of them lies.
pub open spec fn nearest_in<T: Scalar>(
    scene: &Scene<T>,
    lo: int,
    hi: int,
    ray: Ray<T>,
    acne_threshold: T,
    epsilon: T,
    r: Option<(T, usize)>,
) -> bool {
    match r {
        None => forall|j: int|
            lo <= j < hi ==> #[trigger] scene.hit_spec(j, ray, acne_threshold, epsilon) is None,
        Some(b) => {
            &&& lo <= b.1 < hi
            &&& scene.hit_spec(b.1 as int, ray, acne_threshold, epsilon) == r
            &&& forall|j: int|
                lo <= j < hi && #[trigger] scene.hit_spec(
                    j,
                    ray,
                    acne_threshold,
                    epsilon,
                ) is Some ==> !lt(
                    scene.hit_spec(j, ray, acne_threshold, epsilon).unwrap().0,
                    b.0,
                ) && (j < b.1 ==> lt(
                    b.0,
                    scene.hit_spec(j, ray, acne_threshold, epsilon).unwrap().0,
                ))
        },
    }
}

/// A ray that runs along a triangle's plane never hits it: where the
/// determinant is within `epsilon` of zero, the test rejects the triangle for
/// every origin of the ray and every threshold.
pub proof fn lemma_parallel_ray_misses<T: Scalar>(
    v0: Vector3<T>,
    v1: Vector3<T>,
    v2: Vector3<T>,
    dir: Vector3<T>,
    epsilon: T,
)
    requires
        degenerate(determinant(v0, v1, v2, dir), epsilon),
    ensures
        forall|orig: Vector3<T>, acne_threshold: T|
            (#[trigger] triangle_hit(v0, v1, v2, Ray { orig, dir }, acne_threshold, epsilon))
                is None,
{
}

/// A reported hit lies in the triangle and beyond the threshold: its
/// barycentric coordinates are not below zero, their sum is not above one, and
/// the parameter returned is that of the crossing and strictly above
/// `acne_threshold`.
pub proof fn lemma_hit_is_inside<T: Scalar>(
    v0: Vector3<T>,
    v1: Vector3<T>,
    v2: Vector3<T>,
    ray: Ray<T>,
    acne_threshold: T,
    epsilon: T,
)
    requires
        triangle_hit(v0, v1, v2, ray, acne_threshold, epsilon) is Some,
    ensures
        !degenerate(determinant(v0, v1, v2, ray.dir), epsilon),
        inside(bary_u(v0, v1, v2, ray), bary_v(v0, v1, v2, ray)),
        triangle_hit(v0, v1, v2, ray, acne_threshold, epsilon) == Some(
            ray_param(v0, v1, v2, ray),
        ),
        gt(ray_param(v0, v1, v2, ray), acne_threshold),
{
}

/// A ray that crosses the plane of a triangle inside the triangle and beyond
/// the threshold hits it, at the parameter of the crossing: where the
/// determinant is not within `epsilon` of zero, the barycentric coordinates of
/// the crossing lie in the triangle and its parameter is strictly above
/// `acne_threshold`, the test returns that parameter.
pub proof fn lemma_crossing_inside_hits<T: Scalar>(
    v0: Vector3<T>,
    v1: Vector3<T>,
    v2: Vector3<T>,
    ray: Ray<T>,
    acne_threshold: T,
    epsilon: T,
)
    requires
        !degenerate(determinant(v0, v1, v2, ray.dir), epsilon),
        inside(bary_u(v0, v1, v2, ray), bary_v(v0, v1, v2, ray)),
        gt(ray_param(v0, v1, v2, ray), acne_threshold),
    ensures
        triangle_hit(v0, v1, v2, ray, acne_threshold, epsilon) == Some(
            ray_param(v0, v1, v2, ray),
        ),
{
}

/// A crossing whose parameter is not strictly above the threshold is
/// rejected.
pub proof fn lemma_acne_rejected<T: Scalar>(
    v0: Vector3<T>,
    v1: Vector3<T>,
    v2: Vector3<T>,
    ray: Ray<T>,
    acne_threshold: T,
    epsilon: T,
)
    requires
        !gt(ray_param(v0, v1, v2, ray), acne_threshold),
    ensures
        triangle_hit(v0, v1, v2, ray, acne_threshold, epsilon) is None,
{
}

/// Joining the nearest hits of two adjacent runs of triangles gives a nearest
/// hit of the two runs together.
pub proof fn lemma_nearer_joins<T: Scalar>(
    scene: &Scene<T>,
    lo: int,
    mid: int,
    hi: int,
    ray: Ray<T>,
    acne_threshold: T,
    epsilon: T,
    first: Option<(T, usize)>,
    second: Option<(T, usize)>,
)
    requires
        ordered_above(acne_threshold),
        lo <= mid <= hi,
        nearest_in(scene, lo, mid, ray, acne_threshold, epsilon, first),
        nearest_in(scene, mid, hi, ray, acne_threshold, epsilon, second),
    ensures
        nearest_in(scene, lo, hi, ray, acne_threshold, epsilon, nearer_spec(first, second)),
{
    let joined = nearer_spec(first, second);
    match (first, second) {
        (Some(b), Some(c)) => {
            let best = joined.unwrap();
            assert(gt(b.0, acne_threshold) && gt(c.0, acne_threshold));
            assert forall|j: int|
                lo <= j < hi && #[trigger] scene.hit_spec(
                    j,
                    ray,
                    acne_threshold,
                    epsilon,
                ) is Some implies !lt(
                scene.hit_spec(j, ray, acne_threshold, epsilon).unwrap().0,
                best.0,
            ) && (j < best.1 ==> lt(
                best.0,
                scene.hit_spec(j, ray, acne_threshold, epsilon).unwrap().0,
            )) by {
                let tj = scene.hit_spec(j, ray, acne_threshold, epsilon).unwrap().0;
                assert(gt(tj, acne_threshold));
                if lt(c.0, b.0) {
                    // the later hit wins: a hit of the first run that is not
                    // above it would not be above the first run's own nearest
                    assert(!lt(b.0, c.0));
                    if j < mid {
                        assert(!lt(tj, b.0));
                        assert(!lt(tj, c.0));
                        if !lt(c.0, tj) {
                            assert(!lt(c.0, b.0));
                        }
                    }
                } else {
                    // the earlier hit stays: a hit of the second run below it
                    // would put the second run's nearest below it
                    if j >= mid {
                        assert(!lt(tj, c.0));
                        assert(!lt(tj, b.0));
                    }
                }
            }
        },
        _ => {},
    }
}

/// The scan of the triangles `lo..hi` returns a nearest hit among them.
pub proof fn lemma_scan_is_nearest<T: Scalar>(
    scene: &Scene<T>,
    lo: int,
    hi: int,
    ray: Ray<T>,
    acne_threshold: T,
    epsilon: T,
)
    requires
        ordered_above(acne_threshold),
        0 <= lo,
        hi <= usize::MAX,
    ensures
        nearest_in(
            scene,
            lo,
            hi,
            ray,
            acne_threshold,
            epsilon,
            scene.scan_spec(lo, hi, ray, acne_threshold, epsilon),
        ),
    decreases hi - lo,
{
    if hi > lo {
        lemma_scan_is_nearest(scene, lo, hi - 1, ray, acne_threshold, epsilon);
        let last = scene.hit_spec(hi - 1, ray, acne_threshold, epsilon);
        assert(nearest_in(scene, hi - 1, hi, ray, acne_threshold, epsilon, last));
        lemma_nearer_joins(
            scene,
            lo,
            hi - 1,
            hi,
            ray,
            acne_threshold,
            epsilon,
            scene.scan_spec(lo, hi - 1, ray, acne_threshold, epsilon),
            last,
        );
    }
}

/// Index of the first triangle that a query scans after the first `count`
/// objects: the start of object `count`, or the end of the triangles.
pub open spec fn scanned_end<T: Scalar>(scene: &Scene<T>, count: int) -> int {
    if count < scene.meshes@.len() {
        scene.meshes@[count] as int
    } else {
        scene.triangles@.len() as int
    }
}

/// The query over the first `count` objects returns a nearest hit among their
/// triangles.
pub proof fn lemma_objects_nearest<T: Scalar>(
    scene: &Scene<T>,
    count: int,
    ray: Ray<T>,
    acne_threshold: T,
    epsilon: T,
)
    requires
        scene.well_formed(),
        ordered_above(acne_threshold),
        0 <= count <= scene.meshes@.len(),
        scene.meshes@.len() > 0,
    ensures
        nearest_in(
            scene,
            scene.meshes@[0] as int,
            scanned_end(scene, count),
            ray,
            acne_threshold,
            epsilon,
            scene.hits_upto(count, ray, acne_threshold, epsilon),
        ),
    decreases count,
{
    if count > 0 {
        lemma_objects_nearest(scene, count - 1, ray, acne_threshold, epsilon);
        let lo = scene.range_start(count - 1);
        let hi = scene.range_end(count - 1);
        assert(lo == scanned_end(scene, count - 1));
        assert(hi == scanned_end(scene, count));
        assert(scene.meshes@[count - 1] <= scene.triangles@.len());
        assert(scene.triangles@.len() == scene.triangles.len());
        lemma_scan_is_nearest(scene, lo, hi, ray, acne_threshold, epsilon);
        if lo <= hi {
            lemma_nearer_joins(
                scene,
                scene.meshes@[0] as int,
                lo,
                hi,
                ray,
                acne_threshold,
                epsilon,
                scene.hits_upto(count - 1, ray, acne_threshold, epsilon),
                scene.mesh_hit_spec(count - 1, ray, acne_threshold, epsilon),
            );
        }
    }
}

/// The triangle `j` belongs to some object of the scene, so a query scans it.
pub open spec fn scanned<T: Scalar>(scene: &Scene<T>, j: int) -> bool {
    scene.meshes@.len() > 0 && scene.meshes@[0] <= j < scene.triangles@.len()
}

/// The nearest-hit query returns the first nearest hit of the scene: nothing
/// where the ray hits no triangle of any object; else a triangle that the ray
/// hits, with the parameter of that hit, below which no hit of the ray lies;
/// and of several triangles hit at that parameter it is the first, so every
/// hit of an earlier triangle lies strictly above.
pub proof fn lemma_hits_is_nearest<T: Scalar>(
    scene: &Scene<T>,
    ray: Ray<T>,
    acne_threshold: T,
    epsilon: T,
)
    requires
        scene.well_formed(),
        ordered_above(acne_threshold),
    ensures
        match scene.hits_spec(ray, acne_threshold, epsilon) {
            None => forall|j: int|
                scanned(scene, j) ==> #[trigger] scene.hit_spec(
                    j,
                    ray,
                    acne_threshold,
                    epsilon,
                ) is None,
            Some(b) => {
                &&& scanned(scene, b.1 as int)
                &&& scene.hit_spec(b.1 as int, ray, acne_threshold, epsilon) == Some(b)
                &&& forall|j: int|
                    scanned(scene, j) && #[trigger] scene.hit_spec(
                        j,
                        ray,
                        acne_threshold,
                        epsilon,
                    ) is Some ==> !lt(
                        scene.hit_spec(j, ray, acne_threshold, epsilon).unwrap().0,
                        b.0,
                    ) && (j < b.1 ==> lt(
                        b.0,
                        scene.hit_spec(j, ray, acne_threshold, epsilon).unwrap().0,
                    ))
            },
        },
{
    if scene.meshes@.len() > 0 {
        lemma_objects_nearest(scene, scene.meshes@.len() as int, ray, acne_threshold, epsilon);
    } else {
        assert(scene.hits_upto(0, ray, acne_threshold, epsilon) is None);
    }
}

/// Of two triangles that the ray crosses, the query returns the one with the
/// smaller parameter: where the ray hits triangle `near` at `t1` and triangle
/// `far` at `t2`, `t1` is below `t2` and no other triangle is hit, the result
/// is `t1` with `near`, whichever of the two comes first in the scene.
pub proof fn lemma_nearer_of_two<T: Scalar>(
    scene: &Scene<T>,
    ray: Ray<T>,
    acne_threshold: T,
    epsilon: T,
    near: usize,
    far: usize,
    t1: T,
    t2: T,
)
    requires
        scene.well_formed(),
        ordered_above(acne_threshold),
        scanned(scene, near as int),
        scanned(scene, far as int),
        scene.hit_spec(near as int, ray, acne_threshold, epsilon) == Some((t1, near)),
        scene.hit_spec(far as int, ray, acne_threshold, epsilon) == Some((t2, far)),
        lt(t1, t2),
        forall|j: int|
            scanned(scene, j) && j != near && j != far ==> #[trigger] scene.hit_spec(
                j,
                ray,
                acne_threshold,
                epsilon,
            ) is None,
    ensures
        scene.hits_spec(ray, acne_threshold, epsilon) == Some((t1, near)),
{
    lemma_hits_is_nearest(scene, ray, acne_threshold, epsilon);
    let r = scene.hits_spec(ray, acne_threshold, epsilon);
    assert(scene.hit_spec(near as int, ray, acne_threshold, epsilon) is Some);
    assert(r is Some);
    let b = r.unwrap();
    assert(scene.hit_spec(b.1 as int, ray, acne_threshold, epsilon) is Some);
    assert(b.1 == near || b.1 == far);
    if b.1 == far {
        assert(!lt(scene.hit_spec(near as int, ray, acne_threshold, epsilon).unwrap().0, b.0));
    }
}

/// A hit of the nearest-hit query names a triangle of the scene. This needs
/// nothing of the order of `T`.
pub proof fn lemma_hit_names_a_triangle<T: Scalar>(
    scene: &Scene<T>,
    ray: Ray<T>,
    acne_threshold: T,
    epsilon: T,
)
    requires
        scene.well_formed(),
    ensures
        scene.hits_spec(ray, acne_threshold, epsilon) is Some ==> scene.hits_spec(
            ray,
            acne_threshold,
            epsilon,
        ).unwrap().1 < scene.triangles@.len(),
{
    lemma_objects_hit_in_range(scene, scene.meshes@.len() as int, ray, acne_threshold, epsilon);
}

/// The same for the query over the first `count` objects.
pub proof fn lemma_objects_hit_in_range<T: Scalar>(
    scene: &Scene<T>,
    count: int,
    ray: Ray<T>,
    acne_threshold: T,
    epsilon: T,
)
    requires
        scene.well_formed(),
        0 <= count <= scene.meshes@.len(),
    ensures
        scene.hits_upto(count, ray, acne_threshold, epsilon) is Some ==> scene.hits_upto(
            count,
            ray,
            acne_threshold,
            epsilon,
        ).unwrap().1 < scene.triangles@.len(),
    decreases count,
{
    if count > 0 {
        lemma_objects_hit_in_range(scene, count - 1, ray, acne_threshold, epsilon);
        assert(scene.triangles@.len() == scene.triangles.len());
        assert(scene.meshes@[count - 1] <= scene.triangles@.len());
        lemma_scan_hit_in_range(
            scene,
            scene.range_start(count - 1),
            scene.range_end(count - 1),
            ray,
            acne_threshold,
            epsilon,
        );
    }
}

/// A hit of the scan of the triangles `lo..hi` names one of them.
pub proof fn lemma_scan_hit_in_range<T: Scalar>(
    scene: &Scene<T>,
    lo: int,
    hi: int,
    ray: Ray<T>,
    acne_threshold: T,
    epsilon: T,
)
    requires
        0 <= lo,
        hi <= usize::MAX,
    ensures
        scene.scan_spec(lo, hi, ray, acne_threshold, epsilon) is Some ==> lo <= scene.scan_spec(
            lo,
            hi,
            ray,
            acne_threshold,
            epsilon,
        ).unwrap().1 < hi,
    decreases hi - lo,
{
    if hi > lo {
        lemma_scan_hit_in_range(scene, lo, hi - 1, ray, acne_threshold, epsilon);
    }
}

} // verus!
