use ray_tracer::mesh::Mesh;
use ray_tracer::mesh::Triangle;
use ray_tracer::obj::write::ObjWriter;
use ray_tracer::ray::Ray;
use ray_tracer::scene::mesh::Material;
use ray_tracer::scene::Scene;
use ray_tracer::vector::Vector3;

const EPS: f64 = f64::EPSILON;

fn v(x: f64, y: f64, z: f64) -> Vector3<f64> {
    Vector3::new(x, y, z)
}

fn parts(v: Vector3<f64>) -> (f64, f64, f64) {
    (v.x(), v.y(), v.z())
}

/// Unit right triangles in the planes z = -1 and z = 0, the lower one first.
fn two_sheets() -> Mesh<f64> {
    Mesh::new(
        vec![
            v(0.0, 0.0, -1.0),
            v(1.0, 0.0, -1.0),
            v(0.0, 1.0, -1.0),
            v(0.0, 0.0, 0.0),
            v(1.0, 0.0, 0.0),
            v(0.0, 1.0, 0.0),
        ],
        vec![v(0.0, 0.0, 1.0)],
        vec![Triangle::new([0, 1, 2], [0, 0, 0]), Triangle::new([3, 4, 5], [0, 0, 0])],
    )
}

#[test]
fn triangle_hands_out_its_indices() {
    let t = Triangle::new([4, 5, 6], [7, 8, 9]);
    assert_eq!((t.get_vertex(0), t.get_vertex(1), t.get_vertex(2)), (4, 5, 6));
    assert_eq!((t.get_normal(0), t.get_normal(1), t.get_normal(2)), (7, 8, 9));
}

#[test]
fn mesh_getters_follow_the_indices() {
    let m = two_sheets();
    assert_eq!(parts(*m.get_triangle_vertex(1, 1)), (1.0, 0.0, 0.0));
    assert_eq!(parts(*m.get_triangle_vertex(0, 2)), (0.0, 1.0, -1.0));
    assert_eq!(parts(*m.get_vertex(3)), (0.0, 0.0, 0.0));
    assert_eq!(parts(*m.get_normal(0)), (0.0, 0.0, 1.0));
}

#[test]
fn mesh_reports_the_first_triangle_hit_not_the_nearest() {
    let m = two_sheets();
    let ray = Ray::new(v(0.25, 0.25, 1.0), v(0.0, 0.0, -1.0));
    assert_eq!(m.hits(&ray, EPS).map(parts), Some((0.25, 0.25, -1.0)));
    let between = Ray::new(v(0.25, 0.25, -0.5), v(0.0, 0.0, 1.0));
    assert_eq!(between.point_at(0.5).z(), 0.0);
    assert_eq!(m.hits(&between, EPS).map(parts), Some((0.25, 0.25, 0.0)));
}

#[test]
fn mesh_misses_beside_and_along_the_triangles() {
    let m = two_sheets();
    assert_eq!(m.hits(&Ray::new(v(2.0, 2.0, 1.0), v(0.0, 0.0, -1.0)), EPS).map(parts), None);
    assert_eq!(m.hits(&Ray::new(v(0.25, 0.25, 1.0), v(1.0, 0.0, 0.0)), EPS).map(parts), None);
    assert_eq!(m.hits(&Ray::new(v(0.25, 0.25, -2.0), v(0.0, 0.0, -1.0)), EPS).map(parts), None);
}

#[test]
fn mesh_of_a_scene_keeps_the_geometry() {
    let scene = Scene {
        vertices: vec![v(0.0, 0.0, 0.0), v(1.0, 0.0, 0.0), v(0.0, 1.0, 0.0)],
        point_normals: vec![v(0.0, 0.0, 1.0), v(0.0, 1.0, 0.0)],
        face_normals: vec![v(0.0, 0.0, 1.0)],
        triangles: vec![ray_tracer::scene::mesh::Triangle {
            vertices: [0, 1, 2],
            point_normals: [1, 0, 1],
            material: 0,
            face_normal: 0,
        }],
        materials: vec![Material { diffuse: v(1.0, 1.0, 1.0), emission: v(0.0, 0.0, 0.0) }],
        meshes: vec![],
    };
    let m = Mesh::of_scene(&scene);
    assert_eq!(m.vertices.len(), 3);
    assert_eq!(m.normals.len(), 2);
    assert_eq!(m.triangles[0].vertices, [0, 1, 2]);
    assert_eq!(m.triangles[0].normals, [1, 0, 1]);
    let ray = Ray::new(v(0.25, 0.25, 1.0), v(0.0, 0.0, -1.0));
    assert_eq!(m.hits(&ray, EPS).map(parts), Some((0.25, 0.25, 0.0)));
}

#[test]
fn writer_adds_a_mesh() {
    let m = Mesh::new(
        vec![v(0.0, 0.0, 0.0), v(100.0, 0.0, 0.0), v(0.0, 100.0, 0.0)],
        vec![v(0.0, 0.0, 100.0)],
        vec![Triangle::new([0, 1, 2], [0, 0, 0])],
    );
    let mut w = ObjWriter::new();
    w.add_mesh(&m, &|x: f64| format!("{}", x));
    assert_eq!(w.to_text(), "v 0 0 0\nv 1 0 0\nv 0 1 0\nvn 0 0 1\nf 1//1 2//1 3//1 \n");
}
