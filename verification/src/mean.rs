use crate::image::black;
use crate::image::lemma_position_in_bounds;
use crate::radiance::all_lamps;
use crate::radiance::lemma_miss_radiance;
use crate::ray::Ray;
use crate::renderer::exposure;
use crate::renderer::Film;
use crate::renderer::Path;
use crate::renderer::Setup;
use crate::scalar::shrink_spec;
use crate::scalar::Scalar;
use crate::scene::geometry::at;
use crate::scene::geometry::reads_as_reals;
use crate::scene::geometry::Point;
use crate::scene::nearest::lemma_hit_names_a_triangle;
use crate::vector::add_spec;
use crate::vector::scale_spec;
use crate::vector::Vector3;
use vstd::prelude::*;
use vstd::std_specs::convert::FromSpec;

verus! {

/// Every coordinate of `p` times `k`.
pub open spec fn scaled(p: Point, k: real) -> Point {
    Point { x: p.x * k, y: p.y * k, z: p.z * k }
}

/// The point with all coordinates zero.
pub open spec fn origin() -> Point {
    Point { x: 0real, y: 0real, z: 0real }
}

/// How many samples the pixel in column `i` of row `j` has had when `passes`
/// passes are complete and the next has gone through the first `columns`
/// columns and the first `rows` pixels of the column after them.
pub open spec fn samples_taken(passes: nat, columns: int, rows: int, i: int, j: int) -> nat {
    if i < columns || (i == columns && j < rows) {
        passes + 1
    } else {
        passes
    }
}

/// The pixel of `film` in column `i` of row `j`.
pub open spec fn pixel_of<T: Scalar>(setup: &Setup<T>, film: Film<T>, i: int, j: int) -> Vector3<T> {
    film.pixels[i + j * setup.viewport_size.0]
}

/// The pixel in column `i` of row `j` is in the viewport.
pub open spec fn in_view<T: Scalar>(setup: &Setup<T>, i: int, j: int) -> bool {
    0 <= i < setup.viewport_size.0 && 0 <= j < setup.viewport_size.1
}

/// Every sample of a pixel has the same radiance, whatever the state of the
/// sampler: read as real numbers, that of the pixel in column `i` of row `j`
/// is `r(i, j)`.
pub open spec fn steady<T: Scalar, G: Fn(u64, u64) -> T>(
    setup: &Setup<T>,
    gauss: &G,
    val: spec_fn(T) -> real,
    r: spec_fn(int, int) -> Point,
) -> bool {
    forall|i: int, j: int, sampler: (u64, u64), colour: Vector3<T>, after: (u64, u64)|
        in_view(setup, i, j) && #[trigger] setup.radiance_of(
            gauss,
            setup.primary_ray_spec(i, j),
            sampler,
            colour,
            after,
        ) ==> at(val, colour) == r(i, j)
}

/// Every pixel of `film` holds, read as real numbers, its radiance times the
/// number of samples it has had.
pub open spec fn tallied<T: Scalar>(
    setup: &Setup<T>,
    val: spec_fn(T) -> real,
    r: spec_fn(int, int) -> Point,
    film: Film<T>,
    passes: nat,
    columns: int,
    rows: int,
) -> bool {
    &&& film.pixels.len() == setup.viewport_size.0 * setup.viewport_size.1
    &&& forall|i: int, j: int|
        in_view(setup, i, j) ==> at(val, #[trigger] pixel_of(setup, film, i, j)) == scaled(
            r(i, j),
            samples_taken(passes, columns, rows, i, j) as real,
        )
}

/// Two pixels of a viewport that is `w` wide are stored at different
/// positions.
pub proof fn lemma_positions_differ(i: int, j: int, x: int, y: int, w: int)
    requires
        0 <= i < w,
        0 <= x < w,
        i + j * w == x + y * w,
    ensures
        i == x,
        j == y,
{
    if j > y {
        assert((j - y) * w >= w) by (nonlinear_arith)
            requires
                j - y >= 1,
                w > 0,
        ;
        assert((j - y) * w == j * w - y * w) by (nonlinear_arith);
    } else if y > j {
        assert((y - j) * w >= w) by (nonlinear_arith)
            requires
                y - j >= 1,
                w > 0,
        ;
        assert((y - j) * w == y * w - j * w) by (nonlinear_arith);
    }
}

/// A radiance times a number of samples, and once more.
pub proof fn lemma_one_more(r: Point, n: nat)
    ensures
        scaled(r, (n + 1) as real) == (Point {
            x: scaled(r, n as real).x + r.x,
            y: scaled(r, n as real).y + r.y,
            z: scaled(r, n as real).z + r.z,
        }),
        scaled(r, 0real) == origin(),
{
    let k = n as real;
    assert((n + 1) as real == k + 1real);
    assert(r.x * (k + 1real) == r.x * k + r.x) by (nonlinear_arith);
    assert(r.y * (k + 1real) == r.y * k + r.y) by (nonlinear_arith);
    assert(r.z * (k + 1real) == r.z * k + r.z) by (nonlinear_arith);
    assert(r.x * 0real == 0real) by (nonlinear_arith);
    assert(r.y * 0real == 0real) by (nonlinear_arith);
    assert(r.z * 0real == 0real) by (nonlinear_arith);
}

/// One more sample of a pixel adds its radiance to that pixel and leaves the
/// others as they are.
pub proof fn lemma_sample_tallied<T: Scalar, G: Fn(u64, u64) -> T>(
    setup: &Setup<T>,
    gauss: &G,
    val: spec_fn(T) -> real,
    r: spec_fn(int, int) -> Point,
    passes: nat,
    i: int,
    j: int,
    before: Film<T>,
    after: Film<T>,
)
    requires
        reads_as_reals(val),
        steady(setup, gauss, val, r),
        in_view(setup, i, j),
        tallied(setup, val, r, before, passes, i, j),
        setup.sampled(gauss, i, j, before, after),
    ensures
        tallied(setup, val, r, after, passes, i, j + 1),
{
    let w = setup.viewport_size.0 as int;
    let h = setup.viewport_size.1 as int;
    let at_ij = i + j * w;
    let colour = choose|colour: Vector3<T>|
        {
            &&& #[trigger] setup.radiance_of(
                gauss,
                setup.primary_ray_spec(i, j),
                before.sampler,
                colour,
                after.sampler,
            )
            &&& after.pixels == before.pixels.update(at_ij, add_spec(before.pixels[at_ij], colour))
        };
    lemma_position_in_bounds(i, j, w, h);
    assert(at(val, colour) == r(i, j));
    assert forall|x: int, y: int| in_view(setup, x, y) implies at(
        val,
        #[trigger] pixel_of(setup, after, x, y),
    ) == scaled(r(x, y), samples_taken(passes, i, j + 1, x, y) as real) by {
        lemma_position_in_bounds(x, y, w, h);
        assert(at(val, pixel_of(setup, before, x, y)) == scaled(
            r(x, y),
            samples_taken(passes, i, j, x, y) as real,
        ));
        if x + y * w == at_ij {
            lemma_positions_differ(x, y, i, j, w);
            lemma_one_more(r(i, j), passes);
        }
    }
}

/// The samples of the first `rows` pixels of a column.
pub proof fn lemma_column_tallied<T: Scalar, G: Fn(u64, u64) -> T>(
    setup: &Setup<T>,
    gauss: &G,
    val: spec_fn(T) -> real,
    r: spec_fn(int, int) -> Point,
    passes: nat,
    i: int,
    rows: nat,
    before: Film<T>,
    after: Film<T>,
)
    requires
        reads_as_reals(val),
        steady(setup, gauss, val, r),
        0 <= i < setup.viewport_size.0,
        rows <= setup.viewport_size.1,
        tallied(setup, val, r, before, passes, i, 0),
        setup.column_sampled(gauss, i, rows, before, after),
    ensures
        tallied(setup, val, r, after, passes, i, rows as int),
    decreases rows,
{
    if rows > 0 {
        let mid = choose|mid: Film<T>|
            setup.column_sampled(gauss, i, (rows - 1) as nat, before, mid)
                && #[trigger] setup.sampled(gauss, i, rows - 1, mid, after);
        lemma_column_tallied(setup, gauss, val, r, passes, i, (rows - 1) as nat, before, mid);
        lemma_sample_tallied(setup, gauss, val, r, passes, i, rows - 1, mid, after);
    }
}

/// The samples of the first `columns` columns of a pass.
pub proof fn lemma_columns_tallied<T: Scalar, G: Fn(u64, u64) -> T>(
    setup: &Setup<T>,
    gauss: &G,
    val: spec_fn(T) -> real,
    r: spec_fn(int, int) -> Point,
    passes: nat,
    columns: nat,
    before: Film<T>,
    after: Film<T>,
)
    requires
        reads_as_reals(val),
        steady(setup, gauss, val, r),
        columns <= setup.viewport_size.0,
        tallied(setup, val, r, before, passes, 0, 0),
        setup.columns_sampled(gauss, columns, before, after),
    ensures
        tallied(setup, val, r, after, passes, columns as int, 0),
    decreases columns,
{
    if columns > 0 {
        let h = setup.viewport_size.1 as nat;
        let mid = choose|mid: Film<T>|
            setup.columns_sampled(gauss, (columns - 1) as nat, before, mid)
                && #[trigger] setup.column_sampled(gauss, columns - 1, h, mid, after);
        lemma_columns_tallied(setup, gauss, val, r, passes, (columns - 1) as nat, before, mid);
        lemma_column_tallied(setup, gauss, val, r, passes, columns - 1, h, mid, after);
        assert forall|x: int, y: int| in_view(setup, x, y) implies at(
            val,
            #[trigger] pixel_of(setup, after, x, y),
        ) == scaled(r(x, y), samples_taken(passes, columns as int, 0, x, y) as real) by {
            assert(samples_taken(passes, columns as int, 0, x, y) == samples_taken(
                passes,
                columns - 1,
                h as int,
                x,
                y,
            ));
        }
    }
}

/// The samples of a number of passes.
pub proof fn lemma_passes_tallied<T: Scalar, G: Fn(u64, u64) -> T>(
    setup: &Setup<T>,
    gauss: &G,
    val: spec_fn(T) -> real,
    r: spec_fn(int, int) -> Point,
    passes: nat,
    before: Film<T>,
    after: Film<T>,
)
    requires
        reads_as_reals(val),
        steady(setup, gauss, val, r),
        tallied(setup, val, r, before, 0, 0, 0),
        setup.passes_sampled(gauss, passes, before, after),
    ensures
        tallied(setup, val, r, after, passes, 0, 0),
    decreases passes,
{
    if passes > 0 {
        let w = setup.viewport_size.0 as nat;
        let mid = choose|mid: Film<T>|
            setup.passes_sampled(gauss, (passes - 1) as nat, before, mid)
                && #[trigger] setup.columns_sampled(gauss, w, mid, after);
        lemma_passes_tallied(setup, gauss, val, r, (passes - 1) as nat, before, mid);
        lemma_columns_tallied(setup, gauss, val, r, (passes - 1) as nat, w, mid, after);
        assert forall|x: int, y: int| in_view(setup, x, y) implies at(
            val,
            #[trigger] pixel_of(setup, after, x, y),
        ) == scaled(r(x, y), samples_taken(passes, 0, 0, x, y) as real) by {
            assert(samples_taken(passes, 0, 0, x, y) == samples_taken(
                (passes - 1) as nat,
                w as int,
                0,
                x,
                y,
            ));
        }
    }
}

/// A product divided by one of its factors.
pub proof fn lemma_mean(r: real, n: real)
    requires
        n != 0real,
    ensures
        (r * n) / n == r,
{
    assert((r * n) / n == r) by (nonlinear_arith)
        requires
            n != 0real,
    ;
}

/// A pixel whose samples all have the same radiance gets that radiance,
/// whatever the number of samples: where the scalars are real numbers, a
/// render takes at least one sample per pixel and every sample of the pixel
/// in column `i` of row `j` has the radiance `r(i, j)`, the image holds
/// `r(i, j)` at that pixel.
pub proof fn lemma_pixel_is_mean<T: Scalar, G: Fn(u64, u64) -> T>(
    setup: &Setup<T>,
    gauss: &G,
    val: spec_fn(T) -> real,
    r: spec_fn(int, int) -> Point,
    sampler: (u64, u64),
    pixels: Seq<Vector3<T>>,
    after: (u64, u64),
)
    requires
        reads_as_reals(val),
        steady(setup, gauss, val, r),
        setup.rays_per_pixel > 0,
        setup.rendered(gauss, sampler, pixels, after),
    ensures
        pixels.len() == setup.viewport_size.0 * setup.viewport_size.1,
        forall|i: int, j: int|
            in_view(setup, i, j) ==> at(val, #[trigger] pixels[i + j * setup.viewport_size.0])
                == r(i, j),
{
    let n = setup.rays_per_pixel as nat;
    let count = T::from_spec(setup.rays_per_pixel as i32);
    let w = setup.viewport_size.0 as int;
    let h = setup.viewport_size.1 as int;
    let blank = setup.blank_film(sampler);
    let sums = choose|sums: Film<T>|
        {
            &&& #[trigger] setup.passes_sampled(gauss, n, blank, sums)
            &&& after == sums.sampler
            &&& pixels.len() == sums.pixels.len()
            &&& forall|k: int|
                0 <= k < pixels.len() ==> #[trigger] pixels[k] == shrink_spec(
                    sums.pixels[k],
                    count,
                )
        };
    assert forall|x: int, y: int| in_view(setup, x, y) implies at(
        val,
        #[trigger] pixel_of(setup, blank, x, y),
    ) == scaled(r(x, y), samples_taken(0, 0, 0, x, y) as real) by {
        lemma_position_in_bounds(x, y, w, h);
        lemma_one_more(r(x, y), 0);
    }
    lemma_passes_tallied(setup, gauss, val, r, n, blank, sums);
    assert(val(count) == n as real);
    assert forall|i: int, j: int| in_view(setup, i, j) implies at(
        val,
        #[trigger] pixels[i + j * setup.viewport_size.0],
    ) == r(i, j) by {
        lemma_position_in_bounds(i, j, w, h);
        let k = i + j * w;
        assert(pixels[k] == shrink_spec(sums.pixels[k], count));
        assert(at(val, pixel_of(setup, sums, i, j)) == scaled(
            r(i, j),
            samples_taken(n, 0, 0, i, j) as real,
        ));
        lemma_mean(r(i, j).x, n as real);
        lemma_mean(r(i, j).y, n as real);
        lemma_mean(r(i, j).z, n as real);
    }
}

/// In a scene of surfaces that reflect nothing and emit `e`, a path that made
/// a hit has gathered, read as real numbers, `e`, and has no throughput left.
pub proof fn lemma_lamp_path_as_reals<T: Scalar, G: Fn(u64, u64) -> T>(
    setup: &Setup<T>,
    gauss: &G,
    val: spec_fn(T) -> real,
    init_ray: Ray<T>,
    sampler: (u64, u64),
    e: Vector3<T>,
    k: nat,
    q: Path<T>,
)
    requires
        reads_as_reals(val),
        setup.scene.well_formed(),
        all_lamps(setup, e),
        k >= 1,
        setup.bounced(gauss, init_ray, sampler, k, q),
    ensures
        at(val, q.light) == at(val, e),
        at(val, q.throughput) == origin(),
    decreases k,
{
    let (p, d) = choose|p: Path<T>, d: Vector3<T>|
        setup.bounced(gauss, init_ray, sampler, (k - 1) as nat, p) && #[trigger] setup.bounces_to(
            gauss,
            init_ray,
            p,
            d,
            q,
        );
    let hit = setup.scene.hits_spec(p.ray, setup.acne_threshold, setup.epsilon);
    lemma_hit_names_a_triangle(&setup.scene, p.ray, setup.acne_threshold, setup.epsilon);
    let triangle = hit.unwrap().1 as int;
    assert(setup.scene.triangle_ok(setup.scene.triangles@[triangle]));
    assert(setup.material_of(triangle).emission == e);
    assert(setup.material_of(triangle).diffuse == black::<T>());
    let ev = at(val, e);
    if k > 1 {
        lemma_lamp_path_as_reals(setup, gauss, val, init_ray, sampler, e, (k - 1) as nat, p);
    }
    let t = at(val, p.throughput);
    assert(t.x * 0real == 0real && t.y * 0real == 0real && t.z * 0real == 0real) by (nonlinear_arith);
    assert(ev.x * 0real == 0real && ev.y * 0real == 0real && ev.z * 0real == 0real) by (nonlinear_arith);
    assert(ev.x * 1real == ev.x && ev.y * 1real == ev.y && ev.z * 1real == ev.z) by (nonlinear_arith);
}

/// What a pixel of a scene of lamps shows: the emission times the exposure
/// where the ray of the pixel hits the scene, nothing where it does not.
pub open spec fn lamp_light<T: Scalar>(
    setup: &Setup<T>,
    val: spec_fn(T) -> real,
    e: Vector3<T>,
    i: int,
    j: int,
) -> Point {
    if setup.scene.hits_spec(setup.primary_ray_spec(i, j), setup.acne_threshold, setup.epsilon)
        is Some {
        scaled(at(val, e), 256real)
    } else {
        origin()
    }
}

/// A surface that reflects nothing and emits `e` shows as `e` times the
/// exposure, whatever the number of samples and of bounces: where the scalars
/// are real numbers, every surface of the scene is such a surface, and a
/// render takes at least one sample per pixel and allows at least one bounce,
/// every pixel whose ray hits the scene holds `e` times 256, and every other
/// pixel is black.
pub proof fn lemma_lamp_render<T: Scalar, G: Fn(u64, u64) -> T>(
    setup: &Setup<T>,
    gauss: &G,
    val: spec_fn(T) -> real,
    e: Vector3<T>,
    sampler: (u64, u64),
    pixels: Seq<Vector3<T>>,
    after: (u64, u64),
)
    requires
        reads_as_reals(val),
        setup.scene.well_formed(),
        all_lamps(setup, e),
        setup.max_bounces >= 1,
        setup.rays_per_pixel > 0,
        setup.rendered(gauss, sampler, pixels, after),
    ensures
        pixels.len() == setup.viewport_size.0 * setup.viewport_size.1,
        forall|i: int, j: int|
            in_view(setup, i, j) ==> at(val, #[trigger] pixels[i + j * setup.viewport_size.0])
                == lamp_light(setup, val, e, i, j),
{
    let r = |i: int, j: int| lamp_light(setup, val, e, i, j);
    assert forall|i: int, j: int, s: (u64, u64), colour: Vector3<T>, a: (u64, u64)|
        in_view(setup, i, j) && #[trigger] setup.radiance_of(
            gauss,
            setup.primary_ray_spec(i, j),
            s,
            colour,
            a,
        ) implies at(val, colour) == r(i, j) by {
        let ray = setup.primary_ray_spec(i, j);
        if setup.scene.hits_spec(ray, setup.acne_threshold, setup.epsilon) is Some {
            let (k, q) = choose|k: nat, q: Path<T>|
                {
                    &&& #[trigger] setup.bounced(gauss, ray, s, k, q)
                    &&& setup.ended(k, q)
                    &&& colour == scale_spec(q.light, exposure::<T>())
                    &&& a == q.sampler
                };
            assert(k >= 1);
            lemma_lamp_path_as_reals(setup, gauss, val, ray, s, e, k, q);
        } else {
            lemma_miss_radiance(setup, gauss, ray, s, colour, a);
            assert(0real * 256real == 0real) by (nonlinear_arith);
        }
    }
    lemma_pixel_is_mean(setup, gauss, val, r, sampler, pixels, after);
}

} // verus!
