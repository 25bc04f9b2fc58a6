use ray_tracer::ray::Ray;
use ray_tracer::scene::mesh::Material;
use ray_tracer::scene::mesh::Triangle;
use ray_tracer::scalar::is_above;
use ray_tracer::scalar::is_below;
use ray_tracer::scalar::of_int;
use ray_tracer::scene::hit_corners;
use ray_tracer::scene::nearer;
use ray_tracer::scene::Scene;
use ray_tracer::vector::Vector3;

const EPS: f64 = f64::EPSILON;

fn v(x: f64, y: f64, z: f64) -> Vector3<f64> {
    Vector3::new(x, y, z)
}

fn grey() -> Material<f64> {
    Material { diffuse: v(0.5, 0.5, 0.5), emission: v(0.0, 0.0, 0.0) }
}

fn triangle(a: usize, b: usize, c: usize) -> Triangle {
    Triangle { vertices: [a, b, c], point_normals: [0, 0, 0], material: 0, face_normal: 0 }
}

/// Unit right triangles in the planes z = 0, z = -1 and z = -2, one object each
/// unless `meshes` says otherwise.
fn stacked(heights: &[f64], meshes: Vec<usize>) -> Scene<f64> {
    let mut vertices = Vec::new();
    let mut triangles = Vec::new();
    for (k, z) in heights.iter().enumerate() {
        vertices.push(v(0.0, 0.0, *z));
        vertices.push(v(1.0, 0.0, *z));
        vertices.push(v(0.0, 1.0, *z));
        triangles.push(triangle(3 * k, 3 * k + 1, 3 * k + 2));
    }
    Scene {
        vertices,
        point_normals: vec![v(0.0, 0.0, 1.0)],
        face_normals: vec![v(0.0, 0.0, 1.0)],
        triangles,
        materials: vec![grey()],
        meshes,
    }
}

fn down(x: f64, y: f64, z: f64) -> Ray<f64> {
    Ray::new(v(x, y, z), v(0.0, 0.0, -1.0))
}

#[test]
fn ray_through_the_interior_hits() {
    let scene = stacked(&[0.0], vec![0]);
    assert!(scene.is_well_formed());
    assert_eq!(scene.hit_triangle(0, &down(0.25, 0.25, 1.0), 0.001, EPS), Some((1.0, 0)));
    assert_eq!(scene.hits(&down(0.25, 0.25, 1.0), 0.001, EPS), Some((1.0, 0)));
}

#[test]
fn ray_along_the_inward_normal_hits_from_the_back() {
    let scene = stacked(&[0.0], vec![0]);
    let up = Ray::new(v(0.25, 0.5, -3.0), v(0.0, 0.0, 1.0));
    assert_eq!(scene.hit_triangle(0, &up, 0.001, EPS), Some((3.0, 0)));
}

#[test]
fn direction_need_not_be_a_unit_vector() {
    let scene = stacked(&[0.0], vec![0]);
    let ray = Ray::new(v(0.25, 0.25, 1.0), v(0.0, 0.0, -4.0));
    assert_eq!(scene.hits(&ray, 0.001, EPS), Some((0.25, 0)));
}

#[test]
fn ray_parallel_to_the_plane_never_hits() {
    let scene = stacked(&[0.0], vec![0]);
    for origin in [v(0.25, 0.25, 0.0), v(-5.0, 0.25, 0.0), v(0.25, 0.25, 1.0), v(3.0, -2.0, -7.0)] {
        for dir in [v(1.0, 0.0, 0.0), v(0.0, -1.0, 0.0), v(1.0, 1.0, 0.0)] {
            assert_eq!(scene.hits(&Ray::new(origin, dir), 0.001, EPS), None);
        }
    }
}

#[test]
fn degenerate_triangle_is_skipped() {
    let mut scene = stacked(&[0.0], vec![0]);
    scene.vertices[2] = v(2.0, 0.0, 0.0);
    assert_eq!(scene.hits(&down(0.25, 0.0, 1.0), 0.001, EPS), None);
}

#[test]
fn ray_outside_the_triangle_misses() {
    let scene = stacked(&[0.0], vec![0]);
    assert_eq!(scene.hits(&down(-0.25, 0.25, 1.0), 0.001, EPS), None);
    assert_eq!(scene.hits(&down(0.25, -0.25, 1.0), 0.001, EPS), None);
    assert_eq!(scene.hits(&down(0.75, 0.75, 1.0), 0.001, EPS), None);
    assert_eq!(scene.hits(&down(1.5, 0.25, 1.0), 0.001, EPS), None);
}

#[test]
fn edges_and_corners_belong_to_the_triangle() {
    let scene = stacked(&[0.0], vec![0]);
    assert_eq!(scene.hits(&down(0.0, 0.0, 1.0), 0.001, EPS), Some((1.0, 0)));
    assert_eq!(scene.hits(&down(1.0, 0.0, 1.0), 0.001, EPS), Some((1.0, 0)));
    assert_eq!(scene.hits(&down(0.5, 0.5, 1.0), 0.001, EPS), Some((1.0, 0)));
}

#[test]
fn hit_behind_the_origin_is_rejected() {
    let scene = stacked(&[0.0], vec![0]);
    assert_eq!(scene.hits(&down(0.25, 0.25, -1.0), 0.001, EPS), None);
}

#[test]
fn hit_at_or_below_the_acne_threshold_is_rejected() {
    let scene = stacked(&[0.0], vec![0]);
    // the crossing is at parameter 0.5
    assert_eq!(scene.hits(&down(0.25, 0.25, 0.5), 0.25, EPS), Some((0.5, 0)));
    assert_eq!(scene.hits(&down(0.25, 0.25, 0.5), 0.5, EPS), None);
    assert_eq!(scene.hits(&down(0.25, 0.25, 0.5), 0.75, EPS), None);
    // a ray that starts on the surface does not hit it
    assert_eq!(scene.hits(&down(0.25, 0.25, 0.0), 0.001, EPS), None);
}

#[test]
fn nearest_of_two_triangles_wins_in_either_order() {
    let near_first = stacked(&[0.0, -1.0], vec![0]);
    assert_eq!(near_first.hits(&down(0.25, 0.25, 1.0), 0.001, EPS), Some((1.0, 0)));
    let far_first = stacked(&[-1.0, 0.0], vec![0]);
    assert_eq!(far_first.hits(&down(0.25, 0.25, 1.0), 0.001, EPS), Some((1.0, 1)));
}

#[test]
fn nearest_is_found_across_objects() {
    let scene = stacked(&[-2.0, 0.0, -1.0], vec![0, 1, 2]);
    assert!(scene.is_well_formed());
    assert_eq!(scene.hits(&down(0.25, 0.25, 1.0), 0.001, EPS), Some((1.0, 1)));
    assert_eq!(scene.hits_mesh(0, &down(0.25, 0.25, 1.0), 0.001, EPS), Some((3.0, 0)));
    assert_eq!(scene.hits_mesh(1, &down(0.25, 0.25, 1.0), 0.001, EPS), Some((1.0, 1)));
    assert_eq!(scene.hits_mesh(2, &down(0.25, 0.25, 1.0), 0.001, EPS), Some((2.0, 2)));
}

#[test]
fn first_found_wins_on_equal_parameters() {
    let one_object = stacked(&[0.0, 0.0, 0.0], vec![0]);
    assert_eq!(one_object.hits(&down(0.25, 0.25, 1.0), 0.001, EPS), Some((1.0, 0)));
    let three_objects = stacked(&[0.0, 0.0, 0.0], vec![0, 1, 2]);
    assert_eq!(three_objects.hits(&down(0.25, 0.25, 1.0), 0.001, EPS), Some((1.0, 0)));
}

#[test]
fn nearer_keeps_the_best_unless_strictly_improved() {
    assert_eq!(nearer::<f64>(None, None), None);
    assert_eq!(nearer(Some((2.0, 1)), None), Some((2.0, 1)));
    assert_eq!(nearer(None, Some((2.0, 1))), Some((2.0, 1)));
    assert_eq!(nearer(Some((2.0, 1)), Some((1.0, 5))), Some((1.0, 5)));
    assert_eq!(nearer(Some((1.0, 1)), Some((2.0, 5))), Some((1.0, 1)));
    assert_eq!(nearer(Some((1.0, 1)), Some((1.0, 5))), Some((1.0, 1)));
}

#[test]
fn triangles_of_no_object_are_not_scanned() {
    let none = stacked(&[0.0], vec![]);
    assert!(none.is_well_formed());
    assert_eq!(none.hits(&down(0.25, 0.25, 1.0), 0.001, EPS), None);
    let second_only = stacked(&[0.0, -1.0], vec![1]);
    assert_eq!(second_only.hits(&down(0.25, 0.25, 1.0), 0.001, EPS), Some((2.0, 1)));
}

#[test]
fn triangle_ranges_follow_the_offsets() {
    let scene = stacked(&[0.0, -1.0, -2.0], vec![0, 2]);
    assert_eq!(scene.get_triangle_range(0), (0, 2));
    assert_eq!(scene.get_triangle_range(1), (2, 3));
    let single = stacked(&[0.0, -1.0, -2.0], vec![1]);
    assert_eq!(single.get_triangle_range(0), (1, 3));
}

#[test]
fn getters_follow_the_indices() {
    let mut scene = stacked(&[0.0, -1.0], vec![0]);
    scene.face_normals.push(v(0.0, 0.0, -1.0));
    scene.materials.push(Material { diffuse: v(1.0, 1.0, 1.0), emission: v(2.0, 3.0, 4.0) });
    scene.triangles[1].face_normal = 1;
    scene.triangles[1].material = 1;
    let corner = scene.get_triangle_vertex(1, 2);
    assert_eq!((corner.x(), corner.y(), corner.z()), (0.0, 1.0, -1.0));
    assert_eq!(scene.get_face_normal(1).z(), -1.0);
    assert_eq!(scene.get_face_normal(0).z(), 1.0);
    assert_eq!(scene.get_triangel_mat(1).emission.y(), 3.0);
    assert_eq!(scene.get_triangel_mat(0).diffuse.x(), 0.5);
}

#[test]
fn empty_scene_is_well_formed_and_hits_nothing() {
    let scene: Scene<f64> = Scene::empty();
    assert!(scene.is_well_formed());
    assert_eq!(scene.hits(&down(0.0, 0.0, 1.0), 0.001, EPS), None);
}

#[test]
fn index_out_of_bounds_is_not_well_formed() {
    let mut a = stacked(&[0.0], vec![0]);
    a.triangles[0].vertices[1] = 3;
    assert!(!a.is_well_formed());
    let mut b = stacked(&[0.0], vec![0]);
    b.triangles[0].point_normals[2] = 1;
    assert!(!b.is_well_formed());
    let mut c = stacked(&[0.0], vec![0]);
    c.triangles[0].material = 1;
    assert!(!c.is_well_formed());
    let mut d = stacked(&[0.0], vec![0]);
    d.triangles[0].face_normal = 1;
    assert!(!d.is_well_formed());
}

#[test]
fn offsets_must_rise_and_stay_in_range() {
    assert!(stacked(&[0.0, -1.0], vec![0, 1]).is_well_formed());
    assert!(stacked(&[0.0, -1.0], vec![2]).is_well_formed());
    assert!(!stacked(&[0.0, -1.0], vec![1, 1]).is_well_formed());
    assert!(!stacked(&[0.0, -1.0], vec![1, 0]).is_well_formed());
    assert!(!stacked(&[0.0, -1.0], vec![3]).is_well_formed());
}

#[test]
fn the_test_on_three_corners_gives_the_parameter() {
    let ray = Ray::new(v(0.5, 0.25, 2.0), v(0.0, 0.0, -4.0));
    let hit = hit_corners(v(0.0, 0.0, 0.0), v(1.0, 0.0, 0.0), v(0.0, 1.0, 0.0), &ray, 0.001, EPS);
    assert_eq!(hit, Some(0.5));
    let slanted = Ray::new(v(0.0, 0.0, 1.0), v(0.25, 0.25, -1.0));
    let hit = hit_corners(v(0.0, 0.0, 0.0), v(1.0, 0.0, 0.0), v(0.0, 1.0, 0.0), &slanted, 0.001, EPS);
    assert_eq!(hit, Some(1.0));
}

#[test]
fn scalars_compare_and_convert() {
    assert!(is_below(1.0f64, 2.0));
    assert!(!is_below(2.0f64, 2.0));
    assert!(!is_below(f64::NAN, 2.0));
    assert!(is_above(3.0f64, 2.0));
    assert!(!is_above(2.0f64, 2.0));
    assert!(!is_above(f64::NAN, 2.0));
    assert_eq!(of_int::<f64>(256), 256.0);
    assert_eq!(of_int::<f64>(0), 0.0);
}

#[test]
fn a_triangle_is_checked_against_the_arrays() {
    let scene = stacked(&[0.0], vec![0]);
    assert!(scene.check_triangle(&triangle(0, 1, 2)));
    assert!(!scene.check_triangle(&triangle(0, 1, 3)));
}
