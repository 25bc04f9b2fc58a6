use ray_tracer::rand::rotl;
use ray_tracer::rand::NormalDist;
use ray_tracer::rand::UniformDist;
use ray_tracer::ray::Ray;
use ray_tracer::renderer::SEED_HIGH;
use ray_tracer::renderer::SEED_LOW;

#[test]
fn rotl_moves_the_top_bits_to_the_bottom() {
    assert_eq!(rotl(0x8000000000000001, 1), 0x3);
    assert_eq!(rotl(1, 63), 0x8000000000000000);
    assert_eq!(rotl(0x0123456789abcdef, 55), 0xf78091a2b3c4d5e6);
}

#[test]
fn uniform_gives_the_known_sequence_of_a_small_seed() {
    let mut u = UniformDist::new([1, 2]);
    assert_eq!(u.next(), 3);
    assert_eq!(u.0, [36028797019013123, 206158430208]);
    assert_eq!(u.next(), 36029003177443331);
    assert_eq!(u.0, [75505869466370147, 3377906013176576]);
    assert_eq!(u.next(), 78883775479546723);
    assert_eq!(u.0, [2342091846546670435, 9223431616909803523]);
}

#[test]
fn uniform_sum_wraps_around() {
    let mut u = UniformDist::new([u64::MAX, 1]);
    assert_eq!(u.next(), 0);
    assert_eq!(u.0, [18446744073709518849, 18446744004990074879]);
}

#[test]
fn uniform_gives_the_known_sequence_of_the_renderer_seed() {
    let mut u = UniformDist::new([SEED_LOW, SEED_HIGH]);
    assert_eq!(u.next(), 0x55a786ad3107cbf);
    assert_eq!(u.next(), 0x4884466f9f0f387d);
    assert_eq!(u.next(), 0xa397889166b1dbd1);
    assert_eq!(u.next(), 0x50c5543f3ab35cd9);
    assert_eq!(u.0, [0x53e8edf702464c6b, 0x4a93192f3a123c3]);
}

#[test]
fn same_seed_same_numbers() {
    let mut a = UniformDist::new([7, 9]);
    let mut b = UniformDist::new([7, 9]);
    for _ in 0..100 {
        assert_eq!(a.next(), b.next());
    }
}

#[test]
fn next_pair_is_two_draws_in_order() {
    let mut n = NormalDist::new([1, 2]);
    assert_eq!(n.next_pair(), (3, 36029003177443331));
    assert_eq!(n.uniform.0, [75505869466370147, 3377906013176576]);
}

#[test]
fn normal_hands_one_pair_to_the_transform() {
    let mut n = NormalDist::new([1, 2]);
    let first: (u64, u64) = n.normal(&|a: u64, b: u64| (a, b));
    assert_eq!(first, (3, 36029003177443331));
    let second: (u64, u64) = n.normal(&|a: u64, b: u64| (a, b));
    assert_eq!(second.0, 78883775479546723);
}

#[test]
fn normal_with_box_muller_is_the_cosine_branch() {
    let max = u64::MAX as f64;
    let transform = |a: u64, b: u64| {
        let u0 = a as f64 / max;
        let u1 = b as f64 / max;
        (-2.0 * u0.ln()).sqrt() * (std::f64::consts::TAU * u1).cos()
    };
    let mut n = NormalDist::new([SEED_LOW, SEED_HIGH]);
    let got: f64 = n.normal(&transform);
    let u0 = 0x55a786ad3107cbfu64 as f64 / max;
    let u1 = 0x4884466f9f0f387du64 as f64 / max;
    let expected = (-2.0 * u0.ln()).sqrt() * (std::f64::consts::TAU * u1).cos();
    assert_eq!(got, expected);
    assert!(got.is_finite());
}

#[test]
fn rand_dir_takes_three_samples_in_order() {
    let mut n = NormalDist::new([1, 2]);
    let d = Ray::<u64>::rand_dir(&mut n, &|a: u64, _b: u64| a);
    let mut u = UniformDist::new([1, 2]);
    let x = u.next();
    u.next();
    let y = u.next();
    u.next();
    let z = u.next();
    u.next();
    assert_eq!((d.x(), d.y(), d.z()), (x, y, z));
    assert_eq!(n.uniform.0, u.0);
}
