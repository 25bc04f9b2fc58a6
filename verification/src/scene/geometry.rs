use crate::ray::Ray;
use crate::scalar::gt;
use crate::scalar::lt;
use crate::scalar::Scalar;
use crate::scene::bary_u;
use crate::scene::bary_v;
use crate::scene::degenerate;
use crate::scene::determinant;
use crate::scene::inside;
use crate::scene::inverse_det;
use crate::scene::ray_param;
use crate::scene::triangle_hit;
use crate::vector::cross_spec;
use crate::vector::dot_spec;
use crate::vector::sub_spec;
use crate::vector::Vector3;
use vstd::prelude::*;
use vstd::std_specs::convert::FromSpec;
use vstd::std_specs::ops::AddSpec;
use vstd::std_specs::ops::DivSpec;
use vstd::std_specs::ops::MulSpec;
use vstd::std_specs::ops::NegSpec;
use vstd::std_specs::ops::SubSpec;

verus! {

/// A point or a direction of space, in real coordinates.
pub struct Point {
    pub x: real,
    pub y: real,
    pub z: real,
}

/// `val` reads the scalars of `T` as real numbers, and under this reading the
/// arithmetic and the order of `T` are those of the real numbers.
pub open spec fn reads_as_reals<T: Scalar>(val: spec_fn(T) -> real) -> bool {
    &&& forall|a: T, b: T| val(#[trigger] a.add_spec(b)) == val(a) + val(b)
    &&& forall|a: T, b: T| val(#[trigger] a.sub_spec(b)) == val(a) - val(b)
    &&& forall|a: T, b: T| val(#[trigger] a.mul_spec(b)) == val(a) * val(b)
    &&& forall|a: T| val(#[trigger] a.neg_spec()) == -val(a)
    &&& forall|a: T, b: T| val(b) != 0real ==> val(#[trigger] a.div_spec(b)) == val(a) / val(b)
    &&& forall|a: T, b: T| #[trigger] lt(a, b) <==> val(a) < val(b)
    &&& forall|a: T, b: T| #[trigger] gt(a, b) <==> val(a) > val(b)
    &&& forall|k: i32| val(#[trigger] T::from_spec(k)) == k as real
}

/// The vector `v` in real coordinates.
pub open spec fn at<T>(val: spec_fn(T) -> real, v: Vector3<T>) -> Point {
    Point { x: val(v.x), y: val(v.y), z: val(v.z) }
}

/// Difference of two points.
pub open spec fn minus(a: Point, b: Point) -> Point {
    Point { x: a.x - b.x, y: a.y - b.y, z: a.z - b.z }
}

/// Scalar product.
pub open spec fn dot(a: Point, b: Point) -> real {
    a.x * b.x + a.y * b.y + a.z * b.z
}

/// Right-handed vector product.
pub open spec fn cross(a: Point, b: Point) -> Point {
    Point { x: a.y * b.z - a.z * b.y, y: a.z * b.x - a.x * b.z, z: a.x * b.y - a.y * b.x }
}

/// The point `v0 + a * e0 + b * e1 - s * d`: the origin of a ray of direction
/// `d` that reaches, at parameter `s`, the point of the plane with the
/// coordinates `a`, `b` along the edges `e0`, `e1`.
pub open spec fn origin_for(v0: Point, e0: Point, e1: Point, d: Point, a: real, b: real, s: real) -> Point {
    Point {
        x: v0.x + a * e0.x + b * e1.x - s * d.x,
        y: v0.y + a * e0.y + b * e1.y - s * d.y,
        z: v0.z + a * e0.z + b * e1.z - s * d.z,
    }
}

/// The operations on vectors of `T` are those on points.
pub proof fn lemma_vectors_as_points<T: Scalar>(val: spec_fn(T) -> real, a: Vector3<T>, b: Vector3<T>)
    requires
        reads_as_reals(val),
    ensures
        at(val, sub_spec(a, b)) == minus(at(val, a), at(val, b)),
        at(val, cross_spec(a, b)) == cross(at(val, a), at(val, b)),
        val(dot_spec(a, b)) == dot(at(val, a), at(val, b)),
{
}

/// The point `a * e0 + b * e1 - s * d`.
pub open spec fn combination(e0: Point, e1: Point, d: Point, a: real, b: real, s: real) -> Point {
    Point {
        x: a * e0.x + b * e1.x - s * d.x,
        y: a * e0.y + b * e1.y - s * d.y,
        z: a * e0.z + b * e1.z - s * d.z,
    }
}

/// The product of three numbers.
pub open spec fn product(a: real, b: real, c: real) -> real {
    a * b * c
}

/// The product of three numbers does not depend on their order.
pub proof fn lemma_product_orders(a: real, b: real, c: real)
    ensures
        product(a, b, c) == product(a, c, b),
        product(a, b, c) == product(b, a, c),
        product(a, b, c) == product(b, c, a),
        product(a, b, c) == product(c, a, b),
        product(a, b, c) == product(c, b, a),
        a * (b * c) == product(a, b, c),
{
    assert(a * b * c == a * c * b) by (nonlinear_arith);
    assert(a * b * c == b * a * c) by (nonlinear_arith);
    assert(a * b * c == b * c * a) by (nonlinear_arith);
    assert(a * b * c == c * a * b) by (nonlinear_arith);
    assert(a * b * c == c * b * a) by (nonlinear_arith);
    assert(a * (b * c) == a * b * c) by (nonlinear_arith);
}

/// A number times a difference of two products.
pub proof fn lemma_times_difference(p: real, q: real, r: real, s: real, t: real)
    ensures
        p * (q * r - s * t) == product(p, q, r) - product(p, s, t),
{
    let x = q * r;
    let y = s * t;
    assert(p * (x - y) == p * x - p * y) by (nonlinear_arith);
    lemma_product_orders(p, q, r);
    lemma_product_orders(p, s, t);
}

/// The triple product `x . (y x z)`: the volume that three directions span.
pub open spec fn triple(x: Point, y: Point, z: Point) -> real {
    dot(x, cross(y, z))
}

/// The triple product as a sum of six products of coordinates.
pub proof fn lemma_triple_expanded(x: Point, y: Point, z: Point)
    ensures
        triple(x, y, z) == product(x.x, y.y, z.z) - product(x.x, y.z, z.y) + product(
            x.y,
            y.z,
            z.x,
        ) - product(x.y, y.x, z.z) + product(x.z, y.x, z.y) - product(x.z, y.y, z.x),
{
    lemma_times_difference(x.x, y.y, z.z, y.z, z.y);
    lemma_times_difference(x.y, y.z, z.x, y.x, z.z);
    lemma_times_difference(x.z, y.x, z.y, y.y, z.x);
}

/// The triple product stays the same when its arguments are rotated.
pub proof fn lemma_triple_rotated(x: Point, y: Point, z: Point)
    ensures
        triple(x, y, z) == triple(y, z, x),
{
    lemma_triple_expanded(x, y, z);
    lemma_triple_expanded(y, z, x);
    lemma_product_orders(x.x, y.y, z.z);
    lemma_product_orders(x.x, y.z, z.y);
    lemma_product_orders(x.y, y.z, z.x);
    lemma_product_orders(x.y, y.x, z.z);
    lemma_product_orders(x.z, y.x, z.y);
    lemma_product_orders(x.z, y.y, z.x);
}

/// The triple product changes its sign when two arguments change places.
pub proof fn lemma_triple_swapped(x: Point, y: Point, z: Point)
    ensures
        triple(x, y, z) == -triple(x, z, y),
{
    lemma_triple_expanded(x, y, z);
    lemma_triple_expanded(x, z, y);
    lemma_product_orders(x.x, y.y, z.z);
    lemma_product_orders(x.x, y.z, z.y);
    lemma_product_orders(x.y, y.z, z.x);
    lemma_product_orders(x.y, y.x, z.z);
    lemma_product_orders(x.z, y.x, z.y);
    lemma_product_orders(x.z, y.y, z.x);
}

/// The triple product of three directions of which two are the same is zero.
pub proof fn lemma_triple_repeated(x: Point, y: Point)
    ensures
        triple(x, y, y) == 0real,
        triple(y, x, y) == 0real,
        triple(y, y, x) == 0real,
{
    lemma_triple_swapped(x, y, y);
    lemma_triple_rotated(y, y, x);
    lemma_triple_rotated(y, x, y);
}

/// One coordinate of a combination, times a number.
pub proof fn lemma_combined_times(
    a: real,
    p: real,
    b: real,
    q: real,
    s: real,
    r: real,
    n: real,
)
    ensures
        (a * p + b * q - s * r) * n == a * (p * n) + b * (q * n) - s * (r * n),
{
    let x = a * p;
    let y = b * q;
    let z = s * r;
    assert((x + y - z) * n == x * n + y * n - z * n) by (nonlinear_arith);
    assert((a * p) * n == a * (p * n)) by (nonlinear_arith);
    assert((b * q) * n == b * (q * n)) by (nonlinear_arith);
    assert((s * r) * n == s * (r * n)) by (nonlinear_arith);
}

/// A number times a sum of three.
pub proof fn lemma_times_sum(a: real, x: real, y: real, z: real)
    ensures
        a * (x + y + z) == a * x + a * y + a * z,
{
    assert(a * (x + y + z) == a * x + a * y + a * z) by (nonlinear_arith);
}

/// The triple product is linear in its first argument.
pub proof fn lemma_triple_of_combination(
    e0: Point,
    e1: Point,
    d: Point,
    a: real,
    b: real,
    s: real,
    y: Point,
    z: Point,
)
    ensures
        triple(combination(e0, e1, d, a, b, s), y, z) == a * triple(e0, y, z) + b * triple(
            e1,
            y,
            z,
        ) - s * triple(d, y, z),
{
    let n = cross(y, z);
    lemma_combined_times(a, e0.x, b, e1.x, s, d.x, n.x);
    lemma_combined_times(a, e0.y, b, e1.y, s, d.y, n.y);
    lemma_combined_times(a, e0.z, b, e1.z, s, d.z, n.z);
    lemma_times_sum(a, e0.x * n.x, e0.y * n.y, e0.z * n.z);
    lemma_times_sum(b, e1.x * n.x, e1.y * n.y, e1.z * n.z);
    lemma_times_sum(s, d.x * n.x, d.y * n.y, d.z * n.z);
}

/// Cramer's rule for the ray-triangle system: with `w = a * e0 + b * e1 - s * d`
/// each of the three numerators of the test is its unknown times the
/// determinant `(d x e1) . e0`.
pub proof fn lemma_cramer(e0: Point, e1: Point, d: Point, a: real, b: real, s: real)
    ensures
        dot(combination(e0, e1, d, a, b, s), cross(d, e1)) == a * dot(cross(d, e1), e0),
        dot(d, cross(combination(e0, e1, d, a, b, s), e0)) == b * dot(cross(d, e1), e0),
        dot(e1, cross(combination(e0, e1, d, a, b, s), e0)) == s * dot(cross(d, e1), e0),
{
    let w = combination(e0, e1, d, a, b, s);
    let det = triple(e0, d, e1);
    assert(dot(cross(d, e1), e0) == det) by {
        let n = cross(d, e1);
        assert(n.x * e0.x == e0.x * n.x) by (nonlinear_arith);
        assert(n.y * e0.y == e0.y * n.y) by (nonlinear_arith);
        assert(n.z * e0.z == e0.z * n.z) by (nonlinear_arith);
    }
    // the first numerator is the triple product of w, d, e1
    lemma_triple_of_combination(e0, e1, d, a, b, s, d, e1);
    lemma_triple_repeated(d, e1);
    lemma_triple_repeated(e1, d);
    assert(triple(w, d, e1) == a * det + b * 0real - s * 0real);
    assert(b * 0real == 0real) by (nonlinear_arith);
    assert(s * 0real == 0real) by (nonlinear_arith);
    // the second is the triple product of d, w, e0, which is that of w, e0, d
    lemma_triple_rotated(d, w, e0);
    lemma_triple_of_combination(e0, e1, d, a, b, s, e0, d);
    lemma_triple_repeated(d, e0);
    lemma_triple_repeated(e0, d);
    lemma_triple_rotated(e1, e0, d);
    lemma_triple_swapped(e0, d, e1);
    lemma_triple_rotated(e0, e1, d);
    lemma_triple_swapped(e1, d, e0);
    assert(triple(e0, e0, d) == 0real);
    assert(triple(d, e0, d) == 0real);
    assert(a * 0real == 0real) by (nonlinear_arith);
    assert(triple(e1, e0, d) == det);
    assert(triple(d, w, e0) == b * det);
    // the third is the triple product of e1, w, e0, which is that of w, e0, e1
    lemma_triple_rotated(e1, w, e0);
    lemma_triple_of_combination(e0, e1, d, a, b, s, e0, e1);
    lemma_triple_repeated(e1, e0);
    lemma_triple_repeated(e0, e1);
    lemma_triple_rotated(d, e0, e1);
    lemma_triple_swapped(e0, e1, d);
    assert(triple(e0, e0, e1) == 0real);
    assert(triple(e1, e0, e1) == 0real);
    assert(triple(d, e0, e1) == -det);
    assert(s * (-det) == -(s * det)) by (nonlinear_arith);
    assert(triple(e1, w, e0) == s * det);
}

/// The edge of a triangle from its corner `v0` to the corner `v`.
pub open spec fn edge<T>(val: spec_fn(T) -> real, v0: Vector3<T>, v: Vector3<T>) -> Point {
    minus(at(val, v), at(val, v0))
}

/// Read as a real number, the determinant of the ray-triangle test is the
/// triple product `(d x e1) . e0` of the direction and the two edges.
pub proof fn lemma_determinant_as_real<T: Scalar>(
    val: spec_fn(T) -> real,
    v0: Vector3<T>,
    v1: Vector3<T>,
    v2: Vector3<T>,
    dir: Vector3<T>,
)
    requires
        reads_as_reals(val),
    ensures
        val(determinant(v0, v1, v2, dir)) == dot(
            cross(at(val, dir), edge(val, v0, v2)),
            edge(val, v0, v1),
        ),
{
    lemma_vectors_as_points(val, v1, v0);
    lemma_vectors_as_points(val, v2, v0);
    lemma_vectors_as_points(val, dir, sub_spec(v2, v0));
    lemma_vectors_as_points(val, cross_spec(dir, sub_spec(v2, v0)), sub_spec(v1, v0));
}

/// A ray whose direction lies in the plane of a triangle never hits the
/// triangle, whatever its origin: where the scalars are real numbers, the
/// tolerance is positive and the direction is at right angles to the normal
/// `e0 x e1` of the triangle, the test rejects the triangle for every origin
/// and every threshold.
pub proof fn lemma_direction_in_plane_misses<T: Scalar>(
    val: spec_fn(T) -> real,
    v0: Vector3<T>,
    v1: Vector3<T>,
    v2: Vector3<T>,
    dir: Vector3<T>,
    epsilon: T,
)
    requires
        reads_as_reals(val),
        val(epsilon) > 0real,
        dot(at(val, dir), cross(edge(val, v0, v1), edge(val, v0, v2))) == 0real,
    ensures
        forall|orig: Vector3<T>, acne_threshold: T|
            (#[trigger] triangle_hit(v0, v1, v2, Ray { orig, dir }, acne_threshold, epsilon))
                is None,
{
    let d = at(val, dir);
    let e0 = edge(val, v0, v1);
    let e1 = edge(val, v0, v2);
    lemma_determinant_as_real(val, v0, v1, v2, dir);
    lemma_triple_swapped(e0, d, e1);
    lemma_triple_rotated(e0, e1, d);
    lemma_triple_rotated(e1, d, e0);
    let n = cross(d, e1);
    assert(n.x * e0.x == e0.x * n.x) by (nonlinear_arith);
    assert(n.y * e0.y == e0.y * n.y) by (nonlinear_arith);
    assert(n.z * e0.z == e0.z * n.z) by (nonlinear_arith);
    assert(dot(n, e0) == triple(e0, d, e1));
    assert(val(determinant(v0, v1, v2, dir)) == 0real);
    assert(degenerate(determinant(v0, v1, v2, dir), epsilon));
}

/// The quotient of a product by one of its factors.
pub proof fn lemma_cancel(det: real, a: real)
    requires
        det != 0real,
    ensures
        (1real / det) * (a * det) == a,
{
    assert((1real / det) * det == 1real) by (nonlinear_arith)
        requires
            det != 0real,
    ;
    let inv = 1real / det;
    assert(inv * (a * det) == a * (inv * det)) by (nonlinear_arith);
    assert(a * 1real == a) by (nonlinear_arith);
}

/// A ray aimed at a point of a triangle hits the triangle there. Let the
/// scalars be real numbers and the tolerance positive; let the ray reach, at
/// the parameter `s` above the threshold, the point `v0 + a * e0 + b * e1`
/// with `a` and `b` not negative and `a + b` not above one, and let the
/// determinant not be within the tolerance of zero, as it is for a ray along
/// the normal of a triangle that is large enough. Then the test returns a hit
/// at the parameter `s`, with the barycentric coordinates `a` and `b`.
pub proof fn lemma_ray_into_triangle_hits<T: Scalar>(
    val: spec_fn(T) -> real,
    v0: Vector3<T>,
    v1: Vector3<T>,
    v2: Vector3<T>,
    ray: Ray<T>,
    acne_threshold: T,
    epsilon: T,
    a: real,
    b: real,
    s: real,
)
    requires
        reads_as_reals(val),
        val(epsilon) > 0real,
        at(val, ray.orig) == origin_for(
            at(val, v0),
            edge(val, v0, v1),
            edge(val, v0, v2),
            at(val, ray.dir),
            a,
            b,
            s,
        ),
        0real <= a,
        0real <= b,
        a + b <= 1real,
        s > val(acne_threshold),
        !degenerate(determinant(v0, v1, v2, ray.dir), epsilon),
    ensures
        triangle_hit(v0, v1, v2, ray, acne_threshold, epsilon) == Some(
            ray_param(v0, v1, v2, ray),
        ),
        val(ray_param(v0, v1, v2, ray)) == s,
        val(bary_u(v0, v1, v2, ray)) == a,
        val(bary_v(v0, v1, v2, ray)) == b,
{
    let d = at(val, ray.dir);
    let e0 = edge(val, v0, v1);
    let e1 = edge(val, v0, v2);
    let w = minus(at(val, ray.orig), at(val, v0));
    let det = dot(cross(d, e1), e0);
    assert(w == combination(e0, e1, d, a, b, s));
    lemma_cramer(e0, e1, d, a, b, s);
    lemma_determinant_as_real(val, v0, v1, v2, ray.dir);
    assert(det != 0real);
    // the three numerators, read as real numbers
    lemma_vectors_as_points(val, v1, v0);
    lemma_vectors_as_points(val, v2, v0);
    lemma_vectors_as_points(val, ray.orig, v0);
    lemma_vectors_as_points(val, ray.dir, sub_spec(v2, v0));
    lemma_vectors_as_points(val, sub_spec(ray.orig, v0), cross_spec(ray.dir, sub_spec(v2, v0)));
    lemma_vectors_as_points(val, sub_spec(ray.orig, v0), sub_spec(v1, v0));
    lemma_vectors_as_points(val, ray.dir, cross_spec(sub_spec(ray.orig, v0), sub_spec(v1, v0)));
    lemma_vectors_as_points(
        val,
        sub_spec(v2, v0),
        cross_spec(sub_spec(ray.orig, v0), sub_spec(v1, v0)),
    );
    assert(val(inverse_det(v0, v1, v2, ray.dir)) == 1real / det);
    lemma_cancel(det, a);
    lemma_cancel(det, b);
    lemma_cancel(det, s);
    assert(val(bary_u(v0, v1, v2, ray)) == a);
    assert(val(bary_v(v0, v1, v2, ray)) == b);
    assert(val(ray_param(v0, v1, v2, ray)) == s);
    assert(inside(bary_u(v0, v1, v2, ray), bary_v(v0, v1, v2, ray)));
}

/// The order of real numbers is a strict weak order, above any floor.
pub proof fn lemma_reals_are_ordered<T: Scalar>(val: spec_fn(T) -> real, floor: T)
    requires
        reads_as_reals(val),
    ensures
        crate::scene::nearest::ordered_above(floor),
{
}

} // verus!
