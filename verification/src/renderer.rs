use crate::image::black;
use crate::image::Image;
use crate::rand::accepts_all;
use crate::rand::advance_by;
use crate::rand::NormalDist;
use crate::ray::point_at_spec;
use crate::ray::scatter_of;
use crate::ray::Ray;
use crate::scalar::exact_scalar;
use crate::scalar::of_int;
use crate::scalar::shrink;
use crate::scalar::shrink_spec;
use crate::scalar::total_scalar;
use crate::scalar::Scalar;
use crate::scene::mesh::Material;
use crate::scene::Scene;
use crate::vector::add_spec;
use crate::vector::hadamard_spec;
use crate::vector::scale_spec;
use crate::vector::sub_spec;
use crate::vector::vec3;
use crate::vector::Vector3;
use std::ops::Neg;
use vstd::prelude::*;
use vstd::std_specs::convert::FromSpec;
use vstd::std_specs::ops::NegSpec;

verus! {

/// First word of the seed of every renderer's sampler.
pub const SEED_LOW: u64 = 0x04b22c5e9310d9cb;

/// Second word of that seed.
pub const SEED_HIGH: u64 = 0x00a84c0c3fffa2f4;

/// A path tracer over one scene: a camera, a viewport of pixels one unit
/// apart, a sampler, and the limits of a path.
#[derive(Debug)]
pub struct Renderer<T> {
    pub setup: Setup<T>,
    pub rand_state: NormalDist,
}

/// What a render is made from, the sampler apart: the scene, the camera, the
/// viewport, the thresholds of the ray-triangle test and the limits of a
/// path.
#[derive(Debug)]
pub struct Setup<T> {
    pub scene: Scene<T>,
    pub camera_pos: Vector3<T>,
    pub viewport_ul: Vector3<T>,
    pub viewport_size: (usize, usize),
    pub acne_threshold: T,
    pub epsilon: T,
    pub max_bounces: u8,
    pub rays_per_pixel: u8,
}

/// A path that is still alive: the ray to follow next, the product of the
/// reflectances met so far, the light gathered so far, and the state of the
/// sampler.
pub struct Path<T> {
    pub ray: Ray<T>,
    pub throughput: Vector3<T>,
    pub light: Vector3<T>,
    pub sampler: (u64, u64),
}

/// The sums gathered in the pixels of an image, with the state of the
/// sampler.
pub struct Film<T> {
    pub pixels: Seq<Vector3<T>>,
    pub sampler: (u64, u64),
}

/// The colour with all three channels one.
pub open spec fn white<T: Scalar>() -> Vector3<T> {
    vec3(T::from_spec(1i32), T::from_spec(1i32), T::from_spec(1i32))
}

/// The factor between gathered light and the radiance written to a pixel.
pub open spec fn exposure<T: Scalar>() -> T {
    T::from_spec(256i32)
}

impl<T: Scalar> Setup<T> {
    /// The scene is well formed, and the viewport's width and height and the
    /// number of its pixels are within the machine's limits.
    pub open spec fn well_formed(&self) -> bool {
        &&& self.scene.well_formed()
        &&& self.viewport_size.0 <= i32::MAX
        &&& self.viewport_size.1 <= i32::MAX
        &&& self.viewport_size.0 * self.viewport_size.1 <= usize::MAX
    }

    /// The material of triangle `triangle`.
    pub open spec fn material_of(&self, triangle: int) -> Material<T> {
        self.scene.materials@[self.scene.triangles@[triangle].material as int]
    }

    /// The face normal of triangle `triangle`.
    pub open spec fn normal_of(&self, triangle: int) -> Vector3<T> {
        self.scene.face_normals@[self.scene.triangles@[triangle].face_normal as int]
    }

    /// The ray through the pixel in column `i` of row `j`: it starts at the
    /// pixel, `i` units along `x` and `j` units against `z` from the
    /// viewport's upper left corner, and points away from the camera.
    pub open spec fn primary_ray_spec(&self, i: int, j: int) -> Ray<T> {
        let offset = vec3(
            T::from_spec(i as i32),
            T::from_spec(0i32),
            T::from_spec(j as i32).neg_spec(),
        );
        let pixel_pos = add_spec(self.viewport_ul, offset);
        Ray { orig: pixel_pos, dir: sub_spec(pixel_pos, self.camera_pos) }
    }

    /// A path as it starts: along the primary ray, with throughput one and no
    /// light.
    pub open spec fn start_path(&self, init_ray: Ray<T>, sampler: (u64, u64)) -> Path<T> {
        Path { ray: init_ray, throughput: white::<T>(), light: black::<T>(), sampler }
    }

    /// The path `p` after a hit of triangle `triangle` at parameter `t`, with
    /// `d` the random part of the new direction. The light grows by the
    /// material's emission weighted by the throughput so far; the throughput
    /// is then weighted by the material's reflectance. The new ray starts on
    /// the primary ray at parameter `t` and points along the face normal plus
    /// `d`. Six numbers of the sampler are used.
    pub open spec fn bounce(
        &self,
        init_ray: Ray<T>,
        p: Path<T>,
        t: T,
        triangle: int,
        d: Vector3<T>,
    ) -> Path<T> {
        let material = self.material_of(triangle);
        Path {
            ray: Ray {
                orig: point_at_spec(init_ray, t),
                dir: add_spec(self.normal_of(triangle), d),
            },
            throughput: hadamard_spec(p.throughput, material.diffuse),
            light: add_spec(p.light, hadamard_spec(material.emission, p.throughput)),
            sampler: advance_by(p.sampler, 6),
        }
    }

    /// The ray of path `p` hits the scene, and `q` is `p` after that hit with
    /// `d` a direction that `gauss` may give in the sampler state of `p`.
    pub open spec fn bounces_to<G: Fn(u64, u64) -> T>(
        &self,
        gauss: &G,
        init_ray: Ray<T>,
        p: Path<T>,
        d: Vector3<T>,
        q: Path<T>,
    ) -> bool {
        match self.scene.hits_spec(p.ray, self.acne_threshold, self.epsilon) {
            Some(hit) => scatter_of(gauss, p.sampler, d) && q == self.bounce(
                init_ray,
                p,
                hit.0,
                hit.1 as int,
                d,
            ),
            None => false,
        }
    }

    /// `q` is a path that the primary ray `init_ray` may have become after
    /// `k` hits, the sampler starting in state `sampler`.
    pub open spec fn bounced<G: Fn(u64, u64) -> T>(
        &self,
        gauss: &G,
        init_ray: Ray<T>,
        sampler: (u64, u64),
        k: nat,
        q: Path<T>,
    ) -> bool
        decreases k,
    {
        if k == 0 {
            q == self.start_path(init_ray, sampler)
        } else {
            exists|p: Path<T>, d: Vector3<T>|
                self.bounced(gauss, init_ray, sampler, (k - 1) as nat, p) && #[trigger] self.bounces_to(
                    gauss,
                    init_ray,
                    p,
                    d,
                    q,
                )
        }
    }

    /// The path `q`, reached after `k` hits, is at its end: the bounce limit
    /// is reached or its ray hits nothing.
    pub open spec fn ended(&self, k: nat, q: Path<T>) -> bool {
        k == self.max_bounces || (k < self.max_bounces && self.scene.hits_spec(
            q.ray,
            self.acne_threshold,
            self.epsilon,
        ) is None)
    }

    /// `colour` is a radiance that one sample along `init_ray` may give, and
    /// `after` the state in which it leaves the sampler: some path from
    /// `init_ray` is at its end after some number of hits, and `colour` is
    /// the light it gathered, times the exposure.
    pub open spec fn radiance_of<G: Fn(u64, u64) -> T>(
        &self,
        gauss: &G,
        init_ray: Ray<T>,
        sampler: (u64, u64),
        colour: Vector3<T>,
        after: (u64, u64),
    ) -> bool {
        exists|k: nat, q: Path<T>|
            {
                &&& #[trigger] self.bounced(gauss, init_ray, sampler, k, q)
                &&& self.ended(k, q)
                &&& colour == scale_spec(q.light, exposure::<T>())
                &&& after == q.sampler
            }
    }

    /// `after` is the film `before` with one more sample of the pixel in
    /// column `i` of row `j`: a radiance of its primary ray is added to the
    /// sum of that pixel, and the sampler has moved on as that sample moved
    /// it.
    pub open spec fn sampled<G: Fn(u64, u64) -> T>(
        &self,
        gauss: &G,
        i: int,
        j: int,
        before: Film<T>,
        after: Film<T>,
    ) -> bool {
        exists|colour: Vector3<T>|
            {
                &&& #[trigger] self.radiance_of(
                    gauss,
                    self.primary_ray_spec(i, j),
                    before.sampler,
                    colour,
                    after.sampler,
                )
                &&& after.pixels == before.pixels.update(
                    i + j * self.viewport_size.0,
                    add_spec(before.pixels[i + j * self.viewport_size.0], colour),
                )
            }
    }

    /// `after` is the film `before` with one more sample of each of the
    /// first `rows` pixels of column `i`, taken from the top down.
    pub open spec fn column_sampled<G: Fn(u64, u64) -> T>(
        &self,
        gauss: &G,
        i: int,
        rows: nat,
        before: Film<T>,
        after: Film<T>,
    ) -> bool
        decreases rows,
    {
        if rows == 0 {
            after == before
        } else {
            exists|mid: Film<T>|
                self.column_sampled(gauss, i, (rows - 1) as nat, before, mid)
                    && #[trigger] self.sampled(gauss, i, rows - 1, mid, after)
        }
    }

    /// `after` is the film `before` with one more sample of every pixel of
    /// the first `columns` columns, taken from the left.
    pub open spec fn columns_sampled<G: Fn(u64, u64) -> T>(
        &self,
        gauss: &G,
        columns: nat,
        before: Film<T>,
        after: Film<T>,
    ) -> bool
        decreases columns,
    {
        if columns == 0 {
            after == before
        } else {
            exists|mid: Film<T>|
                self.columns_sampled(gauss, (columns - 1) as nat, before, mid)
                    && #[trigger] self.column_sampled(
                    gauss,
                    columns - 1,
                    self.viewport_size.1 as nat,
                    mid,
                    after,
                )
        }
    }

    /// `after` is the film `before` with `passes` more samples of every
    /// pixel, taken one pass over the whole viewport after the other.
    pub open spec fn passes_sampled<G: Fn(u64, u64) -> T>(
        &self,
        gauss: &G,
        passes: nat,
        before: Film<T>,
        after: Film<T>,
    ) -> bool
        decreases passes,
    {
        if passes == 0 {
            after == before
        } else {
            exists|mid: Film<T>|
                self.passes_sampled(gauss, (passes - 1) as nat, before, mid)
                    && #[trigger] self.columns_sampled(
                    gauss,
                    self.viewport_size.0 as nat,
                    mid,
                    after,
                )
        }
    }

    /// The film before the first sample: every pixel black.
    pub open spec fn blank_film(&self, sampler: (u64, u64)) -> Film<T> {
        Film {
            pixels: Seq::new(
                (self.viewport_size.0 * self.viewport_size.1) as nat,
                |k: int| black::<T>(),
            ),
            sampler,
        }
    }

    /// `pixels` is an image that a render may give from sampler state
    /// `sampler`, and `after` the state in which it leaves the sampler: every
    /// pixel is the sum of `rays_per_pixel` samples, gathered pass by pass,
    /// divided by `rays_per_pixel`.
    pub open spec fn rendered<G: Fn(u64, u64) -> T>(
        &self,
        gauss: &G,
        sampler: (u64, u64),
        pixels: Seq<Vector3<T>>,
        after: (u64, u64),
    ) -> bool {
        exists|sums: Film<T>|
            {
                &&& #[trigger] self.passes_sampled(
                    gauss,
                    self.rays_per_pixel as nat,
                    self.blank_film(sampler),
                    sums,
                )
                &&& after == sums.sampler
                &&& pixels.len() == sums.pixels.len()
                &&& forall|k: int|
                    0 <= k < pixels.len() ==> #[trigger] pixels[k] == shrink_spec(
                        sums.pixels[k],
                        T::from_spec(self.rays_per_pixel as i32),
                    )
            }
    }
}

impl<T: Scalar> Renderer<T> {
    /// A renderer over the empty scene. The viewport is `viewport_w` pixels
    /// wide, and as high as the aspect ratio, width to height, makes it,
    /// rounded down.
    pub fn new(
        camera_pos: Vector3<T>,
        viewport_ul: Vector3<T>,
        viewport_w: usize,
        aspect_ratio: (usize, usize),
        acne_threshold: T,
        epsilon: T,
        max_bounces: u8,
        rays_per_pixel: u8,
    ) -> (r: Renderer<T>)
        requires
            aspect_ratio.0 > 0,
            viewport_w * aspect_ratio.1 <= usize::MAX,
        ensures
            r.setup.scene.well_formed(),
            r.setup.scene.triangles@.len() == 0,
            r.setup.scene.meshes@.len() == 0,
            r.setup.camera_pos == camera_pos,
            r.setup.viewport_ul == viewport_ul,
            r.setup.viewport_size.0 == viewport_w,
            r.setup.viewport_size.1 == (viewport_w * aspect_ratio.1) / (aspect_ratio.0 as int),
            r.rand_state@ == (SEED_LOW, SEED_HIGH),
            r.setup.acne_threshold == acne_threshold,
            r.setup.epsilon == epsilon,
            r.setup.max_bounces == max_bounces,
            r.setup.rays_per_pixel == rays_per_pixel,
    {
        Renderer {
            setup: Setup {
                scene: Scene::empty(),
                camera_pos,
                viewport_ul,
                viewport_size: (viewport_w, viewport_w * aspect_ratio.1 / aspect_ratio.0),
                acne_threshold,
                epsilon,
                max_bounces,
                rays_per_pixel,
            },
            rand_state: NormalDist::new([SEED_LOW, SEED_HIGH]),
        }
    }

    /// The material of the triangle that a ray hit.
    pub fn hit_info(&self, triangle: usize) -> (r: &Material<T>)
        requires
            self.setup.scene.well_formed(),
            triangle < self.setup.scene.triangles@.len(),
        ensures
            *r == self.setup.material_of(triangle as int),
    {
        self.setup.scene.get_triangel_mat(triangle)
    }

    /// The radiance of one sample along `init_ray`. The path is followed
    /// until its ray hits nothing or `max_bounces` hits were made; each hit
    /// adds the emission of the surface, weighted by the reflectances of the
    /// hits before it, and takes six numbers from the sampler.
    pub fn color_ray<G: Fn(u64, u64) -> T>(&mut self, init_ray: &Ray<T>, gauss: &G) -> (r: Vector3<
        T,
    >)
        requires
            old(self).setup.scene.well_formed(),
            total_scalar::<T>(),
            accepts_all(gauss),
        ensures
            final(self).setup == old(self).setup,
            exact_scalar::<T>() ==> old(self).setup.radiance_of(
                gauss,
                *init_ray,
                old(self).rand_state@,
                r,
                final(self).rand_state@,
            ),
    {
        let zero: T = of_int(0i32);
        let one: T = of_int(1i32);
        let scale: T = of_int(256i32);
        let mut ray_color = Vector3::new(one, one, one);
        let mut light = Vector3::new(zero, zero, zero);
        let mut ray: Ray<T> = *init_ray;
        let mut i: u8 = 0;
        let mut alive = true;
        let ghost mut path = self.setup.start_path(*init_ray, self.rand_state@);
        while alive && i < self.setup.max_bounces
            invariant
                self.setup == old(self).setup,
                self.setup.scene.well_formed(),
                total_scalar::<T>(),
                accepts_all(gauss),
                i <= self.setup.max_bounces,
                exact_scalar::<T>() ==> scale == exposure::<T>(),
                exact_scalar::<T>() ==> path == (Path {
                    ray,
                    throughput: ray_color,
                    light,
                    sampler: self.rand_state@,
                }),
                exact_scalar::<T>() ==> old(self).setup.bounced(
                    gauss,
                    *init_ray,
                    old(self).rand_state@,
                    i as nat,
                    path,
                ),
                exact_scalar::<T>() && !alive ==> old(self).setup.ended(i as nat, path),
            decreases (if alive { 1int } else { 0int }) + self.setup.max_bounces - i,
        {
            match self.setup.scene.hits(&ray, self.setup.acne_threshold, self.setup.epsilon) {
                Some((t, triangle)) => {
                    let scatter = Ray::rand_dir(&mut self.rand_state, gauss);
                    let ray_dir = *self.setup.scene.get_face_normal(triangle) + scatter;
                    let hit_point = init_ray.point_at(t);
                    let material = *self.hit_info(triangle);
                    let mut new_light = material.emission;
                    new_light.mul_element_wise(&ray_color);
                    light = light + new_light;
                    ray_color.mul_element_wise(&material.diffuse);
                    proof {
                        let next = old(self).setup.bounce(*init_ray, path, t, triangle as int, scatter);
                        if exact_scalar::<T>() {
                            assert(old(self).setup.bounces_to(gauss, *init_ray, path, scatter, next));
                            assert(old(self).setup.bounced(
                                gauss,
                                *init_ray,
                                old(self).rand_state@,
                                (i + 1) as nat,
                                next,
                            ));
                        }
                        path = next;
                    }
                    ray = Ray::new(hit_point, ray_dir);
                    i += 1;
                },
                None => {
                    alive = false;
                },
            }
        }
        light.scale(scale)
    }

    /// Puts `scene` in place of the renderer's scene.
    pub fn set_scene(&mut self, scene: Scene<T>)
        ensures
            final(self).setup.scene == scene,
            final(self).setup.camera_pos == old(self).setup.camera_pos,
            final(self).setup.viewport_ul == old(self).setup.viewport_ul,
            final(self).setup.viewport_size == old(self).setup.viewport_size,
            final(self).rand_state == old(self).rand_state,
            final(self).setup.acne_threshold == old(self).setup.acne_threshold,
            final(self).setup.epsilon == old(self).setup.epsilon,
            final(self).setup.max_bounces == old(self).setup.max_bounces,
            final(self).setup.rays_per_pixel == old(self).setup.rays_per_pixel,
    {
        self.setup.scene = scene;
    }

    /// The primary ray of the pixel in column `i` of row `j`.
    pub fn primary_ray(&self, i: usize, j: usize) -> (r: Ray<T>)
        requires
            i <= i32::MAX,
            j <= i32::MAX,
            total_scalar::<T>(),
        ensures
            exact_scalar::<T>() ==> r == self.setup.primary_ray_spec(i as int, j as int),
    {
        let zero: T = of_int(0i32);
        let right: T = of_int(i as i32);
        let down: T = of_int(j as i32);
        let pixel_pos = self.setup.viewport_ul + Vector3::new(right, zero, down.neg());
        let dir = pixel_pos - self.setup.camera_pos;
        Ray::new(pixel_pos, dir)
    }

    /// Renders the scene: `rays_per_pixel` passes over the viewport, each
    /// taking one sample of every pixel, column by column from the left and
    /// in each column from the top down; then every sum is divided by
    /// `rays_per_pixel`. The sampler runs on from pixel to pixel and from
    /// pass to pass.
    pub fn render<G: Fn(u64, u64) -> T>(&mut self, gauss: &G) -> (image: Image<T>)
        requires
            old(self).setup.well_formed(),
            total_scalar::<T>(),
            accepts_all(gauss),
        ensures
            final(self).setup == old(self).setup,
            image.well_formed(),
            image.shape == old(self).setup.viewport_size,
            exact_scalar::<T>() ==> old(self).setup.rendered(
                gauss,
                old(self).rand_state@,
                image.pixels@,
                final(self).rand_state@,
            ),
    {
        let width = self.setup.viewport_size.0;
        let height = self.setup.viewport_size.1;
        let mut image: Image<T> = Image::new(self.setup.viewport_size);
        let ghost blank = self.setup.blank_film(self.rand_state@);
        assert(exact_scalar::<T>() ==> image.pixels@ =~= blank.pixels);
        let mut n: u8 = 0;
        while n < self.setup.rays_per_pixel
            invariant
                self.setup == old(self).setup,
                self.setup.well_formed(),
                total_scalar::<T>(),
                accepts_all(gauss),
                width == self.setup.viewport_size.0,
                height == self.setup.viewport_size.1,
                image.well_formed(),
                image.shape == self.setup.viewport_size,
                n <= self.setup.rays_per_pixel,
                blank == old(self).setup.blank_film(old(self).rand_state@),
                exact_scalar::<T>() ==> old(self).setup.passes_sampled(
                    gauss,
                    n as nat,
                    blank,
                    Film { pixels: image.pixels@, sampler: self.rand_state@ },
                ),
            decreases self.setup.rays_per_pixel - n,
        {
            let ghost pass_start = Film { pixels: image.pixels@, sampler: self.rand_state@ };
            let mut i: usize = 0;
            while i < width
                invariant
                    self.setup == old(self).setup,
                    self.setup.well_formed(),
                    total_scalar::<T>(),
                    accepts_all(gauss),
                    width == self.setup.viewport_size.0,
                    height == self.setup.viewport_size.1,
                    image.well_formed(),
                    image.shape == self.setup.viewport_size,
                    i <= width,
                    exact_scalar::<T>() ==> old(self).setup.columns_sampled(
                        gauss,
                        i as nat,
                        pass_start,
                        Film { pixels: image.pixels@, sampler: self.rand_state@ },
                    ),
                decreases width - i,
            {
                let ghost column_start = Film { pixels: image.pixels@, sampler: self.rand_state@ };
                let mut j: usize = 0;
                while j < height
                    invariant
                        self.setup == old(self).setup,
                        self.setup.well_formed(),
                        total_scalar::<T>(),
                        accepts_all(gauss),
                        width == self.setup.viewport_size.0,
                        height == self.setup.viewport_size.1,
                        image.well_formed(),
                        image.shape == self.setup.viewport_size,
                        i < width,
                        j <= height,
                        exact_scalar::<T>() ==> old(self).setup.column_sampled(
                            gauss,
                            i as int,
                            j as nat,
                            column_start,
                            Film { pixels: image.pixels@, sampler: self.rand_state@ },
                        ),
                    decreases height - j,
                {
                    let ghost before = Film { pixels: image.pixels@, sampler: self.rand_state@ };
                    let r = self.primary_ray(i, j);
                    let colour = self.color_ray(&r, gauss);
                    let sum = image.get(i, j) + colour;
                    image.set(i, j, sum);
                    proof {
                        let after = Film { pixels: image.pixels@, sampler: self.rand_state@ };
                        if exact_scalar::<T>() {
                            assert(old(self).setup.radiance_of(
                                gauss,
                                old(self).setup.primary_ray_spec(i as int, j as int),
                                before.sampler,
                                colour,
                                after.sampler,
                            ));
                            assert(old(self).setup.sampled(
                                gauss,
                                i as int,
                                ((j + 1) as nat) - 1,
                                before,
                                after,
                            ));
                            assert(old(self).setup.column_sampled(
                                gauss,
                                i as int,
                                (((j + 1) as nat) - 1) as nat,
                                column_start,
                                before,
                            ));
                            assert(old(self).setup.column_sampled(
                                gauss,
                                i as int,
                                (j + 1) as nat,
                                column_start,
                                after,
                            ));
                        }
                    }
                    j += 1;
                }
                proof {
                    let done = Film { pixels: image.pixels@, sampler: self.rand_state@ };
                    if exact_scalar::<T>() {
                        assert(old(self).setup.column_sampled(
                            gauss,
                            ((i + 1) as nat) - 1,
                            old(self).setup.viewport_size.1 as nat,
                            column_start,
                            done,
                        ));
                        assert(old(self).setup.columns_sampled(
                            gauss,
                            (((i + 1) as nat) - 1) as nat,
                            pass_start,
                            column_start,
                        ));
                        assert(old(self).setup.columns_sampled(
                            gauss,
                            (i + 1) as nat,
                            pass_start,
                            done,
                        ));
                    }
                }
                i += 1;
            }
            proof {
                let done = Film { pixels: image.pixels@, sampler: self.rand_state@ };
                if exact_scalar::<T>() {
                    assert(old(self).setup.columns_sampled(
                        gauss,
                        old(self).setup.viewport_size.0 as nat,
                        pass_start,
                        done,
                    ));
                    assert(old(self).setup.passes_sampled(
                        gauss,
                        (((n + 1) as nat) - 1) as nat,
                        blank,
                        pass_start,
                    ));
                    assert(old(self).setup.passes_sampled(gauss, (n + 1) as nat, blank, done));
                }
            }
            n += 1;
        }
        let ghost sums = Film { pixels: image.pixels@, sampler: self.rand_state@ };
        let count: T = of_int(self.setup.rays_per_pixel as i32);
        let mut k: usize = 0;
        while k < image.pixels.len()
            invariant
                total_scalar::<T>(),
                image.well_formed(),
                image.shape == self.setup.viewport_size,
                image.pixels@.len() == sums.pixels.len(),
                k <= image.pixels@.len(),
                exact_scalar::<T>() ==> count == T::from_spec(self.setup.rays_per_pixel as i32),
                forall|m: int| k <= m < image.pixels@.len() ==> image.pixels@[m] == sums.pixels[m],
                exact_scalar::<T>() ==> forall|m: int|
                    0 <= m < k ==> #[trigger] image.pixels@[m] == shrink_spec(
                        sums.pixels[m],
                        count,
                    ),
            decreases image.pixels@.len() - k,
        {
            let mean = shrink(image.pixels[k], count);
            image.pixels.set(k, mean);
            k += 1;
        }
        image
    }
}

} // verus!
