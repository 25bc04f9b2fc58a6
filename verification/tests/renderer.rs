use ray_tracer::image::Image;
use ray_tracer::rand::UniformDist;
use ray_tracer::ray::Ray;
use ray_tracer::renderer::Renderer;
use ray_tracer::renderer::SEED_HIGH;
use ray_tracer::renderer::SEED_LOW;
use ray_tracer::scene::mesh::Material;
use ray_tracer::scene::mesh::Triangle;
use ray_tracer::scene::Scene;
use ray_tracer::vector::Vector3;

const EPS: f64 = f64::EPSILON;

fn v(x: f64, y: f64, z: f64) -> Vector3<f64> {
    Vector3::new(x, y, z)
}

fn parts(v: Vector3<f64>) -> (f64, f64, f64) {
    (v.x(), v.y(), v.z())
}

fn box_muller(a: u64, b: u64) -> f64 {
    let max = u64::MAX as f64;
    let u0 = a as f64 / max;
    let u1 = b as f64 / max;
    (-2.0 * u0.ln()).sqrt() * (std::f64::consts::TAU * u1).cos()
}

/// One large triangle in the plane y = 10 that every primary ray of `camera` hits.
fn wall(material: Material<f64>) -> Scene<f64> {
    Scene {
        vertices: vec![v(-100.0, 10.0, -100.0), v(100.0, 10.0, -100.0), v(0.0, 10.0, 100.0)],
        point_normals: vec![v(0.0, -1.0, 0.0)],
        face_normals: vec![v(0.0, -1.0, 0.0)],
        triangles: vec![Triangle {
            vertices: [0, 1, 2],
            point_normals: [0, 0, 0],
            material: 0,
            face_normal: 0,
        }],
        materials: vec![material],
        meshes: vec![0],
    }
}

/// A viewport of three by two pixels in the plane y = 0, seen from y = -5.
fn camera(max_bounces: u8, rays_per_pixel: u8) -> Renderer<f64> {
    Renderer::new(v(1.0, -5.0, -1.0), v(0.0, 0.0, 0.0), 3, (3, 2), 0.001, EPS, max_bounces, rays_per_pixel)
}

fn lamp(e: (f64, f64, f64)) -> Material<f64> {
    Material { diffuse: v(0.0, 0.0, 0.0), emission: v(e.0, e.1, e.2) }
}

fn mirror() -> Material<f64> {
    Material { diffuse: v(1.0, 1.0, 1.0), emission: v(0.0, 0.0, 0.0) }
}

fn every_pixel(image: &Image<f64>, expected: (f64, f64, f64)) {
    assert_eq!(image.shape, (3, 2));
    assert_eq!(image.pixels.len(), 6);
    for i in 0..3 {
        for j in 0..2 {
            assert_eq!(parts(image.get(i, j)), expected);
        }
    }
}

#[test]
fn new_derives_the_height_from_the_aspect_ratio() {
    let r: Renderer<f64> =
        Renderer::new(v(0.0, -1500.0, 160.0), v(-80.0, -1400.0, 200.0), 160, (16, 9), 0.001, EPS, 4, 100);
    assert_eq!(r.setup.viewport_size, (160, 90));
    assert_eq!(r.setup.max_bounces, 4);
    assert_eq!(r.setup.rays_per_pixel, 100);
    assert_eq!(r.setup.acne_threshold, 0.001);
    assert_eq!(r.rand_state.uniform.0, [SEED_LOW, SEED_HIGH]);
    assert!(r.setup.scene.triangles.is_empty());
    let odd: Renderer<f64> = Renderer::new(v(0.0, 0.0, 0.0), v(0.0, 0.0, 0.0), 10, (3, 2), 0.001, EPS, 1, 1);
    assert_eq!(odd.setup.viewport_size, (10, 6));
}

#[test]
fn primary_ray_starts_at_the_pixel_and_points_away_from_the_camera() {
    let r = camera(1, 1);
    let ray = r.primary_ray(2, 1);
    assert_eq!(parts(*ray.orig()), (2.0, 0.0, -1.0));
    assert_eq!(parts(*ray.dir()), (1.0, 5.0, 0.0));
    let first = r.primary_ray(0, 0);
    assert_eq!(parts(*first.orig()), (0.0, 0.0, 0.0));
    assert_eq!(parts(*first.dir()), (-1.0, 5.0, 1.0));
}

#[test]
fn no_bounces_no_light() {
    let mut r = camera(0, 2);
    r.set_scene(wall(lamp((0.5, 0.25, 1.0))));
    let image = r.render(&box_muller);
    every_pixel(&image, (0.0, 0.0, 0.0));
    assert_eq!(r.rand_state.uniform.0, [SEED_LOW, SEED_HIGH]);
    let ray = r.primary_ray(1, 1);
    assert_eq!(parts(r.color_ray(&ray, &box_muller)), (0.0, 0.0, 0.0));
}

#[test]
fn empty_scene_renders_black() {
    let mut r = camera(4, 3);
    let image = r.render(&box_muller);
    every_pixel(&image, (0.0, 0.0, 0.0));
    assert_eq!(r.rand_state.uniform.0, [SEED_LOW, SEED_HIGH]);
}

#[test]
fn emissive_black_surface_gives_its_emission_times_256() {
    for samples in [1u8, 2, 3, 7, 100] {
        let mut r = camera(4, samples);
        r.set_scene(wall(lamp((0.5, 0.25, 1.0))));
        assert!(r.setup.scene.is_well_formed());
        let image = r.render(&box_muller);
        every_pixel(&image, (128.0, 64.0, 256.0));
    }
}

#[test]
fn reflective_dark_surface_gives_nothing_within_one_bounce() {
    let mut r = camera(1, 5);
    r.set_scene(wall(mirror()));
    let image = r.render(&box_muller);
    every_pixel(&image, (0.0, 0.0, 0.0));
}

#[test]
fn one_bounce_colour_is_the_emission_of_the_first_hit() {
    let mut r = camera(1, 1);
    r.set_scene(wall(Material { diffuse: v(0.5, 0.5, 0.5), emission: v(1.0, 2.0, 0.125) }));
    let ray = r.primary_ray(1, 0);
    assert_eq!(parts(r.color_ray(&ray, &box_muller)), (256.0, 512.0, 32.0));
}

#[test]
fn a_hit_takes_six_numbers_from_the_sampler() {
    let mut r = camera(1, 1);
    r.set_scene(wall(lamp((1.0, 1.0, 1.0))));
    let ray = r.primary_ray(0, 0);
    r.color_ray(&ray, &box_muller);
    let mut u = UniformDist::new([SEED_LOW, SEED_HIGH]);
    for _ in 0..6 {
        u.next();
    }
    assert_eq!(r.rand_state.uniform.0, u.0);
}

#[test]
fn a_miss_takes_nothing_from_the_sampler() {
    let mut r = camera(3, 1);
    r.set_scene(wall(lamp((1.0, 1.0, 1.0))));
    let away = Ray::new(v(0.0, 0.0, 0.0), v(0.0, -1.0, 0.0));
    assert_eq!(parts(r.color_ray(&away, &box_muller)), (0.0, 0.0, 0.0));
    assert_eq!(r.rand_state.uniform.0, [SEED_LOW, SEED_HIGH]);
}

#[test]
fn the_sampler_runs_on_through_a_render() {
    let mut r = camera(1, 4);
    r.set_scene(wall(lamp((1.0, 1.0, 1.0))));
    r.render(&box_muller);
    let mut u = UniformDist::new([SEED_LOW, SEED_HIGH]);
    for _ in 0..(6 * 3 * 2 * 4) {
        u.next();
    }
    assert_eq!(r.rand_state.uniform.0, u.0);
}

/// The wall of `wall`, reflecting half of the light and emitting red, and a floor in the
/// plane y = -20 behind the camera that emits green and faces the wall.
fn wall_and_floor() -> Scene<f64> {
    let mut scene = wall(Material { diffuse: v(0.5, 0.5, 0.5), emission: v(1.0, 0.0, 0.0) });
    scene.vertices.push(v(-100.0, -20.0, -100.0));
    scene.vertices.push(v(100.0, -20.0, -100.0));
    scene.vertices.push(v(0.0, -20.0, 100.0));
    scene.face_normals.push(v(0.0, 1.0, 0.0));
    scene.triangles.push(Triangle {
        vertices: [3, 4, 5],
        point_normals: [0, 0, 0],
        material: 1,
        face_normal: 1,
    });
    scene.materials.push(Material { diffuse: v(0.5, 0.5, 0.5), emission: v(0.0, 1.0, 0.0) });
    scene
}

#[test]
fn second_bounce_adds_emission_weighted_by_the_throughput() {
    // With a transform that always gives zero the second ray leaves the wall along its
    // normal and meets the floor: red from the wall, then half of the floor's green.
    let mut r = camera(2, 1);
    r.set_scene(wall_and_floor());
    let ray = r.primary_ray(1, 1);
    let zero = |_a: u64, _b: u64| 0.0f64;
    assert_eq!(parts(r.color_ray(&ray, &zero)), (256.0, 128.0, 0.0));
}

#[test]
fn later_bounces_start_on_the_primary_ray() {
    // The floor is hit at parameter 30 of the second ray. The third ray starts at the
    // point of the primary ray at parameter 30, which lies beyond the wall, and so hits
    // nothing; from the floor it would have met the wall again and gathered more red.
    let mut r = camera(3, 1);
    r.set_scene(wall_and_floor());
    let ray = r.primary_ray(1, 1);
    let zero = |_a: u64, _b: u64| 0.0f64;
    assert_eq!(parts(r.color_ray(&ray, &zero)), (256.0, 128.0, 0.0));
    let mut u = UniformDist::new([SEED_LOW, SEED_HIGH]);
    for _ in 0..12 {
        u.next();
    }
    assert_eq!(r.rand_state.uniform.0, u.0);
}

#[test]
fn renders_are_reproducible() {
    let material = Material { diffuse: v(0.75, 0.5, 0.25), emission: v(0.125, 0.25, 0.5) };
    let mut a = camera(4, 3);
    a.set_scene(wall(material));
    let mut b = camera(4, 3);
    b.set_scene(wall(material));
    let first = a.render(&box_muller);
    let second = b.render(&box_muller);
    assert_eq!(first.shape, second.shape);
    for k in 0..first.pixels.len() {
        let p = parts(first.pixels[k]);
        let q = parts(second.pixels[k]);
        assert_eq!((p.0.to_bits(), p.1.to_bits(), p.2.to_bits()), (q.0.to_bits(), q.1.to_bits(), q.2.to_bits()));
    }
    assert_eq!(a.rand_state.uniform.0, b.rand_state.uniform.0);
    let quant = |x: f64| x as u8;
    assert_eq!(first.to_png(&quant), second.to_png(&quant));
}

#[test]
fn test1() {
    let mut renderer = Renderer::new(
        Vector3::<f64>::new(0.0, -1500.0, 160.0),
        Vector3::<f64>::new(-80.0, -1400.0, 200.0),
        160,
        (16, 9),
        0.001,
        EPS,
        4,
        100,
    );
    renderer.set_scene(Scene {
        vertices: vec![v(-5000.0, 0.0, -5000.0), v(5000.0, 0.0, -5000.0), v(0.0, 0.0, 5000.0)],
        point_normals: vec![v(0.0, -1.0, 0.0)],
        face_normals: vec![v(0.0, -1.0, 0.0)],
        triangles: vec![Triangle {
            vertices: [0, 1, 2],
            point_normals: [0, 0, 0],
            material: 0,
            face_normal: 0,
        }],
        materials: vec![lamp((0.5, 0.5, 0.5))],
        meshes: vec![0],
    });
    let image = renderer.render(&box_muller);
    assert_eq!(image.shape, (160, 90));
    assert_eq!(parts(image.get(80, 45)), (128.0, 128.0, 128.0));
    let bytes = image.to_png(&|x: f64| x as u8).unwrap();
    assert_eq!(&bytes[..8], &[137, 80, 78, 71, 13, 10, 26, 10]);
}
