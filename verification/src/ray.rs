use crate::rand::accepts_all;
use crate::rand::advance_by;
use crate::rand::lemma_advance_by_sum;
use crate::rand::sample_of;
use crate::rand::NormalDist;
use crate::vector::ring_ok;
use crate::vector::exact_ring;
use crate::vector::add_req;
use crate::vector::add_spec;
use crate::vector::scale_req;
use crate::vector::scale_spec;
use crate::vector::VecElem;
use crate::vector::Vector3;
use vstd::prelude::*;

verus! {

/// A half-line: the points `orig + dir * t`. The direction need not have unit
/// length.
#[derive(Debug, Clone, Copy)]
pub struct Ray<T> {
    pub orig: Vector3<T>,
    pub dir: Vector3<T>,
}

/// The point of `ray` at parameter `t`.
pub open spec fn point_at_spec<T: VecElem>(ray: Ray<T>, t: T) -> Vector3<T> {
    add_spec(ray.orig, scale_spec(ray.dir, t))
}

/// Each step of `point_at_spec` is defined on these operands.
pub open spec fn point_at_req<T: VecElem>(ray: Ray<T>, t: T) -> bool {
    scale_req(ray.dir, t) && add_req(ray.orig, scale_spec(ray.dir, t))
}

/// `d` is a direction that `gauss` may give from the first six numbers drawn
/// in state `s`: its `x` from the first two, its `y` from the next two, its
/// `z` from the last two.
pub open spec fn scatter_of<T, G: Fn(u64, u64) -> T>(gauss: &G, s: (u64, u64), d: Vector3<T>) -> bool {
    &&& sample_of(gauss, s, d.x)
    &&& sample_of(gauss, advance_by(s, 2), d.y)
    &&& sample_of(gauss, advance_by(s, 4), d.z)
}

impl<T: VecElem> Ray<T> {
    pub fn new(orig: Vector3<T>, dir: Vector3<T>) -> (r: Ray<T>)
        ensures
            r.orig == orig,
            r.dir == dir,
    {
        Ray { orig, dir }
    }

    pub fn dir(&self) -> (r: &Vector3<T>)
        ensures
            *r == self.dir,
    {
        &self.dir
    }

    pub fn orig(&self) -> (r: &Vector3<T>)
        ensures
            *r == self.orig,
    {
        &self.orig
    }

    /// A random direction: three samples of `random_state`, for `x`, `y` and
    /// `z` in this order.
    pub fn rand_dir<G: Fn(u64, u64) -> T>(random_state: &mut NormalDist, gauss: &G) -> (r: Vector3<
        T,
    >)
        requires
            accepts_all(gauss),
        ensures
            scatter_of(gauss, old(random_state)@, r),
            final(random_state)@ == advance_by(old(random_state)@, 6),
    {
        proof {
            lemma_advance_by_sum(random_state@, 2, 2);
            lemma_advance_by_sum(random_state@, 4, 2);
        }
        let x = random_state.normal(gauss);
        let y = random_state.normal(gauss);
        let z = random_state.normal(gauss);
        Vector3::new(x, y, z)
    }

    /// The point at parameter `t`: the origin plus `t` times the direction.
    pub fn point_at(&self, t: T) -> (r: Vector3<T>)
        requires
            ring_ok::<T>(point_at_req(*self, t)),
        ensures
            exact_ring::<T>() ==> r == point_at_spec(*self, t),
    {
        self.orig + self.dir * t
    }
}

} // verus!
