use ray_tracer::ray::Ray;
use ray_tracer::scalar::shrink;
use ray_tracer::vector::Vector3;

fn parts(v: Vector3<f64>) -> (f64, f64, f64) {
    (v.x(), v.y(), v.z())
}

#[test]
fn new_keeps_the_components_in_order() {
    let v = Vector3::new(1.5f64, -2.0, 3.25);
    assert_eq!(parts(v), (1.5, -2.0, 3.25));
    assert_eq!(v.as_vec(), vec![1.5, -2.0, 3.25]);
    assert_eq!((v.get(0), v.get(1), v.get(2)), (1.5, -2.0, 3.25));
}

#[test]
fn dot_of_two_vectors() {
    let a = Vector3::new(1.0f64, 2.0, 3.0);
    let b = Vector3::new(4.0f64, 5.0, 6.0);
    assert_eq!(a.dot(&b), 32.0);
}

#[test]
fn dot_works_on_bytes() {
    let a = Vector3::new(1u8, 2, 3);
    let b = Vector3::new(4u8, 5, 6);
    assert_eq!(a.dot(&b), 32);
}

#[test]
fn cross_is_right_handed() {
    let x = Vector3::new(1.0f64, 0.0, 0.0);
    let y = Vector3::new(0.0f64, 1.0, 0.0);
    assert_eq!(parts(x.cross(&y)), (0.0, 0.0, 1.0));
    assert_eq!(parts(y.cross(&x)), (0.0, 0.0, -1.0));
}

#[test]
fn cross_of_general_vectors() {
    let a = Vector3::new(1i64, 2, 3);
    let b = Vector3::new(4i64, 5, 6);
    let c = a.cross(&b);
    assert_eq!((c.x(), c.y(), c.z()), (-3, 6, -3));
}

#[test]
fn sum_difference_and_scaling() {
    let a = Vector3::new(1.0f64, 2.0, 3.0);
    let b = Vector3::new(0.5f64, -1.0, 4.0);
    assert_eq!(parts(a + b), (1.5, 1.0, 7.0));
    assert_eq!(parts(a - b), (0.5, 3.0, -1.0));
    assert_eq!(parts(a * 2.0), (2.0, 4.0, 6.0));
    assert_eq!(parts(a.scale(2.0)), (2.0, 4.0, 6.0));
    assert_eq!(parts(shrink(a, 2.0)), (0.5, 1.0, 1.5));
}

#[test]
fn byte_colours_add_and_scale() {
    let a = Vector3::new(10u8, 20, 30);
    let b = Vector3::new(1u8, 2, 3);
    let s = a + b;
    assert_eq!((s.x(), s.y(), s.z()), (11, 22, 33));
    let d = b * 4;
    assert_eq!((d.x(), d.y(), d.z()), (4, 8, 12));
}

#[test]
fn mul_element_wise_multiplies_in_place() {
    let mut a = Vector3::new(1.0f64, 2.0, 3.0);
    a.mul_element_wise(&Vector3::new(2.0, 0.5, -1.0));
    assert_eq!(parts(a), (2.0, 1.0, -3.0));
}

#[test]
fn apply_maps_each_component() {
    let a = Vector3::new(1.0f64, 2.0, 3.0);
    let b: Vector3<f64> = a.apply(|x: f64| x * 256.0);
    assert_eq!(parts(b), (256.0, 512.0, 768.0));
    let c: Vector3<u8> = a.apply(|x: f64| x as u8);
    assert_eq!((c.x(), c.y(), c.z()), (1, 2, 3));
}

#[test]
fn default_is_zero() {
    let v: Vector3<f64> = Vector3::default();
    assert_eq!(parts(v), (0.0, 0.0, 0.0));
}

#[test]
fn len_is_the_euclidean_norm() {
    let v = Vector3::new(3.0f64, 4.0, 12.0);
    assert_eq!(v.len(&|x: f64| x.sqrt()), 13.0);
}

#[test]
fn normalize_divides_by_the_length() {
    let mut v = Vector3::new(0.0f64, 3.0, 4.0);
    v.normalize(&|x: f64| x.sqrt());
    assert_eq!(parts(v), (0.0, 0.6, 0.8));
}

#[test]
fn normalize_of_zero_gives_nan() {
    let mut v = Vector3::new(0.0f64, 0.0, 0.0);
    v.normalize(&|x: f64| x.sqrt());
    assert!(v.x().is_nan() && v.y().is_nan() && v.z().is_nan());
}

#[test]
fn ray_keeps_origin_and_direction() {
    let r = Ray::new(Vector3::new(1.0f64, 2.0, 3.0), Vector3::new(0.0, 0.0, 5.0));
    assert_eq!(parts(*r.orig()), (1.0, 2.0, 3.0));
    assert_eq!(parts(*r.dir()), (0.0, 0.0, 5.0));
}

#[test]
fn point_at_is_origin_plus_scaled_direction() {
    let r = Ray::new(Vector3::new(1.0f64, 2.0, 3.0), Vector3::new(2.0, 0.0, -4.0));
    assert_eq!(parts(r.point_at(0.0)), (1.0, 2.0, 3.0));
    assert_eq!(parts(r.point_at(0.5)), (2.0, 2.0, 1.0));
    assert_eq!(parts(r.point_at(-1.0)), (-1.0, 2.0, 7.0));
}
