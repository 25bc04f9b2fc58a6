use crate::image::black;
use crate::ray::scatter_of;
use crate::ray::Ray;
use crate::renderer::exposure;
use crate::scalar::shrink_spec;
use crate::renderer::white;
use crate::renderer::Film;
use crate::renderer::Path;
use crate::renderer::Setup;
use crate::scalar::Scalar;
use crate::vector::add_spec;
use crate::vector::hadamard_spec;
use crate::vector::scale_spec;
use crate::vector::Vector3;
use vstd::prelude::*;
use vstd::std_specs::convert::FromSpec;
use vstd::std_specs::ops::AddSpec;
use vstd::std_specs::ops::DivSpec;
use vstd::std_specs::ops::MulSpec;

verus! {

/// `gauss` is a function: what it returns depends on its arguments alone.
pub open spec fn functional<T, G: Fn(u64, u64) -> T>(gauss: &G) -> bool {
    forall|a: u64, b: u64, x: T, y: T|
        #[trigger] gauss.ensures((a, b), x) && #[trigger] gauss.ensures((a, b), y) ==> x == y
}

/// With a bounce limit of zero no light is gathered: the path ends where it
/// starts, black, and takes nothing from the sampler.
pub proof fn lemma_no_bounce_no_light<T: Scalar, G: Fn(u64, u64) -> T>(
    setup: &Setup<T>,
    gauss: &G,
    init_ray: Ray<T>,
    sampler: (u64, u64),
    k: nat,
    q: Path<T>,
)
    requires
        setup.max_bounces == 0,
        setup.bounced(gauss, init_ray, sampler, k, q),
        setup.ended(k, q),
    ensures
        k == 0,
        q.light == black::<T>(),
        q.sampler == sampler,
{
}

/// With a bounce limit of zero the radiance of every sample is black times
/// the exposure, whatever the ray, and the sampler stays as it is.
pub proof fn lemma_no_bounce_radiance<T: Scalar, G: Fn(u64, u64) -> T>(
    setup: &Setup<T>,
    gauss: &G,
    init_ray: Ray<T>,
    sampler: (u64, u64),
    colour: Vector3<T>,
    after: (u64, u64),
)
    requires
        setup.max_bounces == 0,
        setup.radiance_of(gauss, init_ray, sampler, colour, after),
    ensures
        colour == scale_spec(black::<T>(), exposure::<T>()),
        after == sampler,
{
    let (k, q) = choose|k: nat, q: Path<T>|
        {
            &&& #[trigger] setup.bounced(gauss, init_ray, sampler, k, q)
            &&& setup.ended(k, q)
            &&& colour == scale_spec(q.light, exposure::<T>())
            &&& after == q.sampler
        };
    lemma_no_bounce_no_light(setup, gauss, init_ray, sampler, k, q);
}

/// A ray that hits nothing gives black times the exposure, whatever the
/// bounce limit, and the sampler stays as it is.
pub proof fn lemma_miss_radiance<T: Scalar, G: Fn(u64, u64) -> T>(
    setup: &Setup<T>,
    gauss: &G,
    init_ray: Ray<T>,
    sampler: (u64, u64),
    colour: Vector3<T>,
    after: (u64, u64),
)
    requires
        setup.scene.hits_spec(init_ray, setup.acne_threshold, setup.epsilon) is None,
        setup.radiance_of(gauss, init_ray, sampler, colour, after),
    ensures
        colour == scale_spec(black::<T>(), exposure::<T>()),
        after == sampler,
{
    let (k, q) = choose|k: nat, q: Path<T>|
        {
            &&& #[trigger] setup.bounced(gauss, init_ray, sampler, k, q)
            &&& setup.ended(k, q)
            &&& colour == scale_spec(q.light, exposure::<T>())
            &&& after == q.sampler
        };
    if k > 0 {
        lemma_first_bounce_hits(setup, gauss, init_ray, sampler, k, q);
    }
}

/// A path that made a hit made its first one from the primary ray, which
/// therefore hits the scene.
pub proof fn lemma_first_bounce_hits<T: Scalar, G: Fn(u64, u64) -> T>(
    setup: &Setup<T>,
    gauss: &G,
    init_ray: Ray<T>,
    sampler: (u64, u64),
    k: nat,
    q: Path<T>,
)
    requires
        k > 0,
        setup.bounced(gauss, init_ray, sampler, k, q),
    ensures
        setup.scene.hits_spec(init_ray, setup.acne_threshold, setup.epsilon) is Some,
    decreases k,
{
    let (p, d) = choose|p: Path<T>, d: Vector3<T>|
        setup.bounced(gauss, init_ray, sampler, (k - 1) as nat, p) && #[trigger] setup.bounces_to(
            gauss,
            init_ray,
            p,
            d,
            q,
        );
    if k > 1 {
        lemma_first_bounce_hits(setup, gauss, init_ray, sampler, (k - 1) as nat, p);
    }
}

/// With a bounce limit of one, a ray that hits the scene gives the emission
/// of the surface it hits: the radiance is black plus the emission times
/// white, times the exposure; the reflectance of the surface has no part in
/// it.
pub proof fn lemma_single_bounce_radiance<T: Scalar, G: Fn(u64, u64) -> T>(
    setup: &Setup<T>,
    gauss: &G,
    init_ray: Ray<T>,
    sampler: (u64, u64),
    colour: Vector3<T>,
    after: (u64, u64),
)
    requires
        setup.max_bounces == 1,
        setup.scene.hits_spec(init_ray, setup.acne_threshold, setup.epsilon) is Some,
        setup.radiance_of(gauss, init_ray, sampler, colour, after),
    ensures
        colour == scale_spec(
            add_spec(
                black::<T>(),
                hadamard_spec(
                    setup.material_of(
                        setup.scene.hits_spec(
                            init_ray,
                            setup.acne_threshold,
                            setup.epsilon,
                        ).unwrap().1 as int,
                    ).emission,
                    white::<T>(),
                ),
            ),
            exposure::<T>(),
        ),
{
    let (k, q) = choose|k: nat, q: Path<T>|
        {
            &&& #[trigger] setup.bounced(gauss, init_ray, sampler, k, q)
            &&& setup.ended(k, q)
            &&& colour == scale_spec(q.light, exposure::<T>())
            &&& after == q.sampler
        };
    assert(k == 1);
    let (p, d) = choose|p: Path<T>, d: Vector3<T>|
        setup.bounced(gauss, init_ray, sampler, 0, p) && #[trigger] setup.bounces_to(
            gauss,
            init_ray,
            p,
            d,
            q,
        );
}

/// With a transform that is a function, the path after `k` hits is
/// determined by the primary ray and the state of the sampler.
pub proof fn lemma_bounced_unique<T: Scalar, G: Fn(u64, u64) -> T>(
    setup: &Setup<T>,
    gauss: &G,
    init_ray: Ray<T>,
    sampler: (u64, u64),
    k: nat,
    q1: Path<T>,
    q2: Path<T>,
)
    requires
        functional(gauss),
        setup.bounced(gauss, init_ray, sampler, k, q1),
        setup.bounced(gauss, init_ray, sampler, k, q2),
    ensures
        q1 == q2,
    decreases k,
{
    if k > 0 {
        let (from_a, dir_a) = choose|p: Path<T>, d: Vector3<T>|
            setup.bounced(gauss, init_ray, sampler, (k - 1) as nat, p)
                && #[trigger] setup.bounces_to(gauss, init_ray, p, d, q1);
        let (from_b, dir_b) = choose|p: Path<T>, d: Vector3<T>|
            setup.bounced(gauss, init_ray, sampler, (k - 1) as nat, p)
                && #[trigger] setup.bounces_to(gauss, init_ray, p, d, q2);
        lemma_bounced_unique(setup, gauss, init_ray, sampler, (k - 1) as nat, from_a, from_b);
        assert(scatter_of(gauss, from_a.sampler, dir_a));
        assert(scatter_of(gauss, from_a.sampler, dir_b));
        assert(dir_a.x == dir_b.x);
        assert(dir_a.y == dir_b.y);
        assert(dir_a.z == dir_b.z);
    }
}

/// A path that made `k` hits made `j` hits before, for every `j` below `k`,
/// and after those its ray hit the scene.
pub proof fn lemma_bounced_before<T: Scalar, G: Fn(u64, u64) -> T>(
    setup: &Setup<T>,
    gauss: &G,
    init_ray: Ray<T>,
    sampler: (u64, u64),
    k: nat,
    q: Path<T>,
    j: nat,
) -> (p: Path<T>)
    requires
        j < k,
        setup.bounced(gauss, init_ray, sampler, k, q),
    ensures
        setup.bounced(gauss, init_ray, sampler, j, p),
        setup.scene.hits_spec(p.ray, setup.acne_threshold, setup.epsilon) is Some,
    decreases k,
{
    let (prev, d) = choose|p: Path<T>, d: Vector3<T>|
        setup.bounced(gauss, init_ray, sampler, (k - 1) as nat, p) && #[trigger] setup.bounces_to(
            gauss,
            init_ray,
            p,
            d,
            q,
        );
    if j == k - 1 {
        prev
    } else {
        lemma_bounced_before(setup, gauss, init_ray, sampler, (k - 1) as nat, prev, j)
    }
}

/// With a transform that is a function, a sample is determined by its ray
/// and the state of the sampler: its radiance, and the state in which it
/// leaves the sampler.
pub proof fn lemma_radiance_unique<T: Scalar, G: Fn(u64, u64) -> T>(
    setup: &Setup<T>,
    gauss: &G,
    init_ray: Ray<T>,
    sampler: (u64, u64),
    colour1: Vector3<T>,
    after1: (u64, u64),
    colour2: Vector3<T>,
    after2: (u64, u64),
)
    requires
        functional(gauss),
        setup.radiance_of(gauss, init_ray, sampler, colour1, after1),
        setup.radiance_of(gauss, init_ray, sampler, colour2, after2),
    ensures
        colour1 == colour2,
        after1 == after2,
{
    let (k1, q1) = choose|k: nat, q: Path<T>|
        {
            &&& #[trigger] setup.bounced(gauss, init_ray, sampler, k, q)
            &&& setup.ended(k, q)
            &&& colour1 == scale_spec(q.light, exposure::<T>())
            &&& after1 == q.sampler
        };
    let (k2, q2) = choose|k: nat, q: Path<T>|
        {
            &&& #[trigger] setup.bounced(gauss, init_ray, sampler, k, q)
            &&& setup.ended(k, q)
            &&& colour2 == scale_spec(q.light, exposure::<T>())
            &&& after2 == q.sampler
        };
    if k1 < k2 {
        let p = lemma_bounced_before(setup, gauss, init_ray, sampler, k2, q2, k1);
        lemma_bounced_unique(setup, gauss, init_ray, sampler, k1, q1, p);
    } else if k2 < k1 {
        let p = lemma_bounced_before(setup, gauss, init_ray, sampler, k1, q1, k2);
        lemma_bounced_unique(setup, gauss, init_ray, sampler, k2, q2, p);
    } else {
        lemma_bounced_unique(setup, gauss, init_ray, sampler, k1, q1, q2);
    }
}

/// With a transform that is a function, one more sample of a pixel takes a
/// film to one film only.
pub proof fn lemma_sampled_unique<T: Scalar, G: Fn(u64, u64) -> T>(
    setup: &Setup<T>,
    gauss: &G,
    i: int,
    j: int,
    before: Film<T>,
    after1: Film<T>,
    after2: Film<T>,
)
    requires
        functional(gauss),
        setup.sampled(gauss, i, j, before, after1),
        setup.sampled(gauss, i, j, before, after2),
    ensures
        after1 == after2,
{
    let c1 = choose|colour: Vector3<T>|
        {
            &&& #[trigger] setup.radiance_of(
                gauss,
                setup.primary_ray_spec(i, j),
                before.sampler,
                colour,
                after1.sampler,
            )
            &&& after1.pixels == before.pixels.update(
                i + j * setup.viewport_size.0,
                add_spec(before.pixels[i + j * setup.viewport_size.0], colour),
            )
        };
    let c2 = choose|colour: Vector3<T>|
        {
            &&& #[trigger] setup.radiance_of(
                gauss,
                setup.primary_ray_spec(i, j),
                before.sampler,
                colour,
                after2.sampler,
            )
            &&& after2.pixels == before.pixels.update(
                i + j * setup.viewport_size.0,
                add_spec(before.pixels[i + j * setup.viewport_size.0], colour),
            )
        };
    lemma_radiance_unique(
        setup,
        gauss,
        setup.primary_ray_spec(i, j),
        before.sampler,
        c1,
        after1.sampler,
        c2,
        after2.sampler,
    );
}

/// The same for the samples of a column.
pub proof fn lemma_column_unique<T: Scalar, G: Fn(u64, u64) -> T>(
    setup: &Setup<T>,
    gauss: &G,
    i: int,
    rows: nat,
    before: Film<T>,
    after1: Film<T>,
    after2: Film<T>,
)
    requires
        functional(gauss),
        setup.column_sampled(gauss, i, rows, before, after1),
        setup.column_sampled(gauss, i, rows, before, after2),
    ensures
        after1 == after2,
    decreases rows,
{
    if rows > 0 {
        let m1 = choose|mid: Film<T>|
            setup.column_sampled(gauss, i, (rows - 1) as nat, before, mid)
                && #[trigger] setup.sampled(gauss, i, rows - 1, mid, after1);
        let m2 = choose|mid: Film<T>|
            setup.column_sampled(gauss, i, (rows - 1) as nat, before, mid)
                && #[trigger] setup.sampled(gauss, i, rows - 1, mid, after2);
        lemma_column_unique(setup, gauss, i, (rows - 1) as nat, before, m1, m2);
        lemma_sampled_unique(setup, gauss, i, rows - 1, m1, after1, after2);
    }
}

/// The same for the samples of one pass, over the first `columns` columns.
pub proof fn lemma_columns_unique<T: Scalar, G: Fn(u64, u64) -> T>(
    setup: &Setup<T>,
    gauss: &G,
    columns: nat,
    before: Film<T>,
    after1: Film<T>,
    after2: Film<T>,
)
    requires
        functional(gauss),
        setup.columns_sampled(gauss, columns, before, after1),
        setup.columns_sampled(gauss, columns, before, after2),
    ensures
        after1 == after2,
    decreases columns,
{
    if columns > 0 {
        let h = setup.viewport_size.1 as nat;
        let m1 = choose|mid: Film<T>|
            setup.columns_sampled(gauss, (columns - 1) as nat, before, mid)
                && #[trigger] setup.column_sampled(gauss, columns - 1, h, mid, after1);
        let m2 = choose|mid: Film<T>|
            setup.columns_sampled(gauss, (columns - 1) as nat, before, mid)
                && #[trigger] setup.column_sampled(gauss, columns - 1, h, mid, after2);
        lemma_columns_unique(setup, gauss, (columns - 1) as nat, before, m1, m2);
        lemma_column_unique(setup, gauss, columns - 1, h, m1, after1, after2);
    }
}

/// The same for a number of passes.
pub proof fn lemma_passes_unique<T: Scalar, G: Fn(u64, u64) -> T>(
    setup: &Setup<T>,
    gauss: &G,
    passes: nat,
    before: Film<T>,
    after1: Film<T>,
    after2: Film<T>,
)
    requires
        functional(gauss),
        setup.passes_sampled(gauss, passes, before, after1),
        setup.passes_sampled(gauss, passes, before, after2),
    ensures
        after1 == after2,
    decreases passes,
{
    if passes > 0 {
        let w = setup.viewport_size.0 as nat;
        let m1 = choose|mid: Film<T>|
            setup.passes_sampled(gauss, (passes - 1) as nat, before, mid)
                && #[trigger] setup.columns_sampled(gauss, w, mid, after1);
        let m2 = choose|mid: Film<T>|
            setup.passes_sampled(gauss, (passes - 1) as nat, before, mid)
                && #[trigger] setup.columns_sampled(gauss, w, mid, after2);
        lemma_passes_unique(setup, gauss, (passes - 1) as nat, before, m1, m2);
        lemma_columns_unique(setup, gauss, w, m1, after1, after2);
    }
}

/// A render is determined by what it is made from: with the same scene,
/// camera, viewport and limits, the same state of the sampler and a
/// transform that is a function, two renders give the same pixels and leave
/// the sampler in the same state.
pub proof fn lemma_render_deterministic<T: Scalar, G: Fn(u64, u64) -> T>(
    setup: &Setup<T>,
    gauss: &G,
    sampler: (u64, u64),
    pixels1: Seq<Vector3<T>>,
    after1: (u64, u64),
    pixels2: Seq<Vector3<T>>,
    after2: (u64, u64),
)
    requires
        functional(gauss),
        setup.rendered(gauss, sampler, pixels1, after1),
        setup.rendered(gauss, sampler, pixels2, after2),
    ensures
        pixels1 == pixels2,
        after1 == after2,
{
    let n = setup.rays_per_pixel as nat;
    let count = T::from_spec(setup.rays_per_pixel as i32);
    let sums1 = choose|sums: Film<T>|
        {
            &&& #[trigger] setup.passes_sampled(gauss, n, setup.blank_film(sampler), sums)
            &&& after1 == sums.sampler
            &&& pixels1.len() == sums.pixels.len()
            &&& forall|k: int|
                0 <= k < pixels1.len() ==> #[trigger] pixels1[k] == shrink_spec(
                    sums.pixels[k],
                    count,
                )
        };
    let sums2 = choose|sums: Film<T>|
        {
            &&& #[trigger] setup.passes_sampled(gauss, n, setup.blank_film(sampler), sums)
            &&& after2 == sums.sampler
            &&& pixels2.len() == sums.pixels.len()
            &&& forall|k: int|
                0 <= k < pixels2.len() ==> #[trigger] pixels2[k] == shrink_spec(
                    sums.pixels[k],
                    count,
                )
        };
    lemma_passes_unique(setup, gauss, n, setup.blank_film(sampler), sums1, sums2);
    assert(pixels1 =~= pixels2);
}

/// Zero plus zero, zero times one, zero times the exposure and zero divided
/// by `count` are zero in `T`.
pub open spec fn zero_stays_zero<T: Scalar>(count: T) -> bool {
    let zero = T::from_spec(0i32);
    &&& zero.add_spec(zero) == zero
    &&& zero.mul_spec(T::from_spec(1i32)) == zero
    &&& zero.mul_spec(exposure::<T>()) == zero
    &&& zero.div_spec(count) == zero
}

/// Every sample is black, whatever its ray and the state of the sampler.
pub open spec fn dark<T: Scalar, G: Fn(u64, u64) -> T>(setup: &Setup<T>, gauss: &G) -> bool {
    forall|ray: Ray<T>, sampler: (u64, u64), colour: Vector3<T>, after: (u64, u64)|
        #[trigger] setup.radiance_of(gauss, ray, sampler, colour, after) ==> colour == black::<T>()
}

/// Every pixel of the film is black.
pub open spec fn all_black<T: Scalar>(setup: &Setup<T>, film: Film<T>) -> bool {
    &&& film.pixels.len() == setup.viewport_size.0 * setup.viewport_size.1
    &&& forall|k: int| 0 <= k < film.pixels.len() ==> #[trigger] film.pixels[k] == black::<T>()
}

/// Where every sample is black, a black film stays black through the samples
/// of a column.
pub proof fn lemma_dark_column<T: Scalar, G: Fn(u64, u64) -> T>(
    setup: &Setup<T>,
    gauss: &G,
    i: int,
    rows: nat,
    before: Film<T>,
    after: Film<T>,
)
    requires
        dark(setup, gauss),
        T::from_spec(0i32).add_spec(T::from_spec(0i32)) == T::from_spec(0i32),
        0 <= i < setup.viewport_size.0,
        rows <= setup.viewport_size.1,
        all_black(setup, before),
        setup.column_sampled(gauss, i, rows, before, after),
    ensures
        all_black(setup, after),
    decreases rows,
{
    if rows > 0 {
        let mid = choose|mid: Film<T>|
            setup.column_sampled(gauss, i, (rows - 1) as nat, before, mid)
                && #[trigger] setup.sampled(gauss, i, rows - 1, mid, after);
        lemma_dark_column(setup, gauss, i, (rows - 1) as nat, before, mid);
        let at = i + (rows - 1) * setup.viewport_size.0;
        let colour = choose|colour: Vector3<T>|
            {
                &&& #[trigger] setup.radiance_of(
                    gauss,
                    setup.primary_ray_spec(i, rows - 1),
                    mid.sampler,
                    colour,
                    after.sampler,
                )
                &&& after.pixels == mid.pixels.update(at, add_spec(mid.pixels[at], colour))
            };
        crate::image::lemma_position_in_bounds(
            i,
            rows - 1,
            setup.viewport_size.0 as int,
            setup.viewport_size.1 as int,
        );
        assert(mid.pixels[at] == black::<T>());
        assert(after.pixels =~= mid.pixels);
    }
}

/// The same through the samples of the first `columns` columns.
pub proof fn lemma_dark_columns<T: Scalar, G: Fn(u64, u64) -> T>(
    setup: &Setup<T>,
    gauss: &G,
    columns: nat,
    before: Film<T>,
    after: Film<T>,
)
    requires
        dark(setup, gauss),
        T::from_spec(0i32).add_spec(T::from_spec(0i32)) == T::from_spec(0i32),
        columns <= setup.viewport_size.0,
        all_black(setup, before),
        setup.columns_sampled(gauss, columns, before, after),
    ensures
        all_black(setup, after),
    decreases columns,
{
    if columns > 0 {
        let h = setup.viewport_size.1 as nat;
        let mid = choose|mid: Film<T>|
            setup.columns_sampled(gauss, (columns - 1) as nat, before, mid)
                && #[trigger] setup.column_sampled(gauss, columns - 1, h, mid, after);
        lemma_dark_columns(setup, gauss, (columns - 1) as nat, before, mid);
        lemma_dark_column(setup, gauss, columns - 1, h, mid, after);
    }
}

/// The same through a number of passes.
pub proof fn lemma_dark_passes<T: Scalar, G: Fn(u64, u64) -> T>(
    setup: &Setup<T>,
    gauss: &G,
    passes: nat,
    before: Film<T>,
    after: Film<T>,
)
    requires
        dark(setup, gauss),
        T::from_spec(0i32).add_spec(T::from_spec(0i32)) == T::from_spec(0i32),
        all_black(setup, before),
        setup.passes_sampled(gauss, passes, before, after),
    ensures
        all_black(setup, after),
    decreases passes,
{
    if passes > 0 {
        let w = setup.viewport_size.0 as nat;
        let mid = choose|mid: Film<T>|
            setup.passes_sampled(gauss, (passes - 1) as nat, before, mid)
                && #[trigger] setup.columns_sampled(gauss, w, mid, after);
        lemma_dark_passes(setup, gauss, (passes - 1) as nat, before, mid);
        lemma_dark_columns(setup, gauss, w, mid, after);
    }
}

/// Where every sample is black, every pixel of a render is black.
pub proof fn lemma_dark_render<T: Scalar, G: Fn(u64, u64) -> T>(
    setup: &Setup<T>,
    gauss: &G,
    sampler: (u64, u64),
    pixels: Seq<Vector3<T>>,
    after: (u64, u64),
)
    requires
        dark(setup, gauss),
        zero_stays_zero(T::from_spec(setup.rays_per_pixel as i32)),
        setup.rendered(gauss, sampler, pixels, after),
    ensures
        pixels.len() == setup.viewport_size.0 * setup.viewport_size.1,
        forall|k: int| 0 <= k < pixels.len() ==> #[trigger] pixels[k] == black::<T>(),
{
    let count = T::from_spec(setup.rays_per_pixel as i32);
    let sums = choose|sums: Film<T>|
        {
            &&& #[trigger] setup.passes_sampled(
                gauss,
                setup.rays_per_pixel as nat,
                setup.blank_film(sampler),
                sums,
            )
            &&& after == sums.sampler
            &&& pixels.len() == sums.pixels.len()
            &&& forall|k: int|
                0 <= k < pixels.len() ==> #[trigger] pixels[k] == shrink_spec(
                    sums.pixels[k],
                    count,
                )
        };
    lemma_dark_passes(
        setup,
        gauss,
        setup.rays_per_pixel as nat,
        setup.blank_film(sampler),
        sums,
    );
    assert forall|k: int| 0 <= k < pixels.len() implies #[trigger] pixels[k] == black::<T>() by {
        assert(sums.pixels[k] == black::<T>());
    }
}

/// With a bounce limit of zero every pixel of a render is black, and the
/// sampler is left as it was found.
pub proof fn lemma_no_bounce_render<T: Scalar, G: Fn(u64, u64) -> T>(
    setup: &Setup<T>,
    gauss: &G,
    sampler: (u64, u64),
    pixels: Seq<Vector3<T>>,
    after: (u64, u64),
)
    requires
        setup.max_bounces == 0,
        zero_stays_zero(T::from_spec(setup.rays_per_pixel as i32)),
        setup.rendered(gauss, sampler, pixels, after),
    ensures
        pixels.len() == setup.viewport_size.0 * setup.viewport_size.1,
        forall|k: int| 0 <= k < pixels.len() ==> #[trigger] pixels[k] == black::<T>(),
{
    assert forall|ray: Ray<T>, s: (u64, u64), colour: Vector3<T>, a: (u64, u64)|
        #[trigger] setup.radiance_of(gauss, ray, s, colour, a) implies colour == black::<T>() by {
        lemma_no_bounce_radiance(setup, gauss, ray, s, colour, a);
    }
    lemma_dark_render(setup, gauss, sampler, pixels, after);
}

/// No material of the scene emits light.
pub open spec fn nothing_emits<T: Scalar>(setup: &Setup<T>) -> bool {
    forall|m: int|
        0 <= m < setup.scene.materials@.len() ==> (#[trigger] setup.scene.materials@[m]).emission
            == black::<T>()
}

/// With a bounce limit of one and no surface that emits, every pixel of a
/// render is black, however much the surfaces reflect.
pub proof fn lemma_one_bounce_without_light<T: Scalar, G: Fn(u64, u64) -> T>(
    setup: &Setup<T>,
    gauss: &G,
    sampler: (u64, u64),
    pixels: Seq<Vector3<T>>,
    after: (u64, u64),
)
    requires
        setup.scene.well_formed(),
        setup.max_bounces == 1,
        nothing_emits(setup),
        zero_stays_zero(T::from_spec(setup.rays_per_pixel as i32)),
        setup.rendered(gauss, sampler, pixels, after),
    ensures
        pixels.len() == setup.viewport_size.0 * setup.viewport_size.1,
        forall|k: int| 0 <= k < pixels.len() ==> #[trigger] pixels[k] == black::<T>(),
{
    assert forall|ray: Ray<T>, s: (u64, u64), colour: Vector3<T>, a: (u64, u64)|
        #[trigger] setup.radiance_of(gauss, ray, s, colour, a) implies colour == black::<T>() by {
        let hit = setup.scene.hits_spec(ray, setup.acne_threshold, setup.epsilon);
        if hit is Some {
            lemma_single_bounce_radiance(setup, gauss, ray, s, colour, a);
            crate::scene::nearest::lemma_hit_names_a_triangle(
                &setup.scene,
                ray,
                setup.acne_threshold,
                setup.epsilon,
            );
            let triangle = hit.unwrap().1 as int;
            assert(setup.scene.triangle_ok(setup.scene.triangles@[triangle]));
        } else {
            lemma_miss_radiance(setup, gauss, ray, s, colour, a);
        }
    }
    lemma_dark_render(setup, gauss, sampler, pixels, after);
}

/// Zero and one act on the channel `c` as in arithmetic: `c` times one and
/// `c` plus zero, on either side, are `c`; `c` times zero is zero.
pub open spec fn plain_channel<T: Scalar>(c: T) -> bool {
    let zero = T::from_spec(0i32);
    let one = T::from_spec(1i32);
    &&& c.mul_spec(one) == c
    &&& zero.add_spec(c) == c
    &&& c.add_spec(zero) == c
    &&& c.mul_spec(zero) == zero
}

/// Zero and one act on every channel of `e` as in arithmetic, and one times
/// zero and zero times zero are zero.
pub open spec fn plain_colour<T: Scalar>(e: Vector3<T>) -> bool {
    let zero = T::from_spec(0i32);
    let one = T::from_spec(1i32);
    &&& plain_channel(e.x)
    &&& plain_channel(e.y)
    &&& plain_channel(e.z)
    &&& one.mul_spec(zero) == zero
    &&& zero.mul_spec(zero) == zero
}

/// Every material of the scene reflects nothing and emits `e`.
pub open spec fn all_lamps<T: Scalar>(setup: &Setup<T>, e: Vector3<T>) -> bool {
    forall|m: int|
        0 <= m < setup.scene.materials@.len() ==> #[trigger] setup.scene.materials@[m] == (
        crate::scene::mesh::Material { diffuse: black::<T>(), emission: e })
}

/// In a scene of surfaces that reflect nothing and emit `e`, a path that made
/// a hit has gathered `e` and has no throughput left, however many hits it
/// made.
pub proof fn lemma_lamp_path<T: Scalar, G: Fn(u64, u64) -> T>(
    setup: &Setup<T>,
    gauss: &G,
    init_ray: Ray<T>,
    sampler: (u64, u64),
    e: Vector3<T>,
    k: nat,
    q: Path<T>,
)
    requires
        setup.scene.well_formed(),
        all_lamps(setup, e),
        plain_colour(e),
        k >= 1,
        setup.bounced(gauss, init_ray, sampler, k, q),
    ensures
        q.light == e,
        q.throughput == black::<T>(),
    decreases k,
{
    let (p, d) = choose|p: Path<T>, d: Vector3<T>|
        setup.bounced(gauss, init_ray, sampler, (k - 1) as nat, p) && #[trigger] setup.bounces_to(
            gauss,
            init_ray,
            p,
            d,
            q,
        );
    let hit = setup.scene.hits_spec(p.ray, setup.acne_threshold, setup.epsilon);
    crate::scene::nearest::lemma_hit_names_a_triangle(
        &setup.scene,
        p.ray,
        setup.acne_threshold,
        setup.epsilon,
    );
    let triangle = hit.unwrap().1 as int;
    assert(setup.scene.triangle_ok(setup.scene.triangles@[triangle]));
    assert(setup.material_of(triangle).emission == e);
    assert(setup.material_of(triangle).diffuse == black::<T>());
    if k > 1 {
        lemma_lamp_path(setup, gauss, init_ray, sampler, e, (k - 1) as nat, p);
    }
}

/// In a scene of surfaces that reflect nothing and emit `e`, every sample
/// whose ray hits the scene gives `e` times the exposure, whatever the bounce
/// limit above zero.
pub proof fn lemma_lamp_radiance<T: Scalar, G: Fn(u64, u64) -> T>(
    setup: &Setup<T>,
    gauss: &G,
    init_ray: Ray<T>,
    sampler: (u64, u64),
    e: Vector3<T>,
    colour: Vector3<T>,
    after: (u64, u64),
)
    requires
        setup.scene.well_formed(),
        setup.max_bounces >= 1,
        all_lamps(setup, e),
        plain_colour(e),
        setup.scene.hits_spec(init_ray, setup.acne_threshold, setup.epsilon) is Some,
        setup.radiance_of(gauss, init_ray, sampler, colour, after),
    ensures
        colour == scale_spec(e, exposure::<T>()),
{
    let (k, q) = choose|k: nat, q: Path<T>|
        {
            &&& #[trigger] setup.bounced(gauss, init_ray, sampler, k, q)
            &&& setup.ended(k, q)
            &&& colour == scale_spec(q.light, exposure::<T>())
            &&& after == q.sampler
        };
    assert(k >= 1);
    lemma_lamp_path(setup, gauss, init_ray, sampler, e, k, q);
}

} // verus!
