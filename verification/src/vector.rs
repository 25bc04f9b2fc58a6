use std::ops::Add;
use std::ops::Mul;
use std::ops::Neg;
use std::ops::Sub;
use vstd::prelude::*;
use vstd::std_specs::ops::AddSpec;
use vstd::std_specs::ops::AddSpecImpl;
use vstd::std_specs::ops::MulSpec;
use vstd::std_specs::ops::MulSpecImpl;
use vstd::std_specs::ops::NegSpec;
use vstd::std_specs::ops::SubSpec;
use vstd::std_specs::ops::SubSpecImpl;

verus! {

/// A component type of a vector: a copyable value with a sum, a product and a
/// default.
pub trait VecElem: Copy + Add<Output = Self> + Mul<Output = Self> + Default {

}

/// A component type that also has a difference and a negation.
pub trait SignedVecElem: VecElem + Neg<Output = Self> + Sub<Output = Self> {

}

impl<T> VecElem for T where T: Copy + Add<Output = T> + Mul<Output = T> + Default {

}

impl<T> SignedVecElem for T where
    T: Copy + Add<Output = T> + Sub<Output = T> + Mul<Output = T> + Default + Neg<Output = T>,
 {

}

/// A value with three components.
#[derive(Debug, Clone, Copy)]
pub struct Vector3<T> {
    pub x: T,
    pub y: T,
    pub z: T,
}

/// The vector with the given components.
pub open spec fn vec3<T>(x: T, y: T, z: T) -> Vector3<T> {
    Vector3 { x, y, z }
}

/// Sum of the three componentwise products: `(a.x * b.x + a.y * b.y) + a.z * b.z`,
/// in the order in which the operations are carried out.
pub open spec fn dot_spec<T: VecElem>(a: Vector3<T>, b: Vector3<T>) -> T {
    a.x.mul_spec(b.x).add_spec(a.y.mul_spec(b.y)).add_spec(a.z.mul_spec(b.z))
}

/// The operations of `dot_spec` are all defined on these operands.
pub open spec fn dot_req<T: VecElem>(a: Vector3<T>, b: Vector3<T>) -> bool {
    &&& a.x.mul_req(b.x)
    &&& a.y.mul_req(b.y)
    &&& a.z.mul_req(b.z)
    &&& a.x.mul_spec(b.x).add_req(a.y.mul_spec(b.y))
    &&& a.x.mul_spec(b.x).add_spec(a.y.mul_spec(b.y)).add_req(a.z.mul_spec(b.z))
}

/// Sum and product of `T` return what their specifications say.
pub open spec fn exact_ring<T: VecElem>() -> bool {
    T::obeys_add_spec() && T::obeys_mul_spec()
}

/// Sum, product, difference and negation of `T` return what their specifications say.
pub open spec fn exact_signed<T: SignedVecElem>() -> bool {
    exact_ring::<T>() && T::obeys_sub_spec() && T::obeys_neg_spec()
}

/// Sum and product of `T` are defined on all operands.
pub open spec fn total_ring<T: VecElem>() -> bool {
    &&& forall|a: T, b: T| #[trigger] a.add_req(b)
    &&& forall|a: T, b: T| #[trigger] a.mul_req(b)
}

/// Sum, product, difference and negation of `T` are defined on all operands.
pub open spec fn total_signed<T: SignedVecElem>() -> bool {
    &&& total_ring::<T>()
    &&& forall|a: T, b: T| #[trigger] a.sub_req(b)
    &&& forall|a: T| #[trigger] a.neg_req()
}

/// What a computation over sums and products asks of its operands: either the
/// operations of `T` are defined everywhere, or they are exact and `defined`
/// says that each step of this computation is defined.
pub open spec fn ring_ok<T: VecElem>(defined: bool) -> bool {
    total_ring::<T>() || (exact_ring::<T>() && defined)
}

/// As `ring_ok`, for a computation that also subtracts or negates.
pub open spec fn signed_ok<T: SignedVecElem>(defined: bool) -> bool {
    total_signed::<T>() || (exact_signed::<T>() && defined)
}

/// Componentwise sum.
pub open spec fn add_spec<T: VecElem>(a: Vector3<T>, b: Vector3<T>) -> Vector3<T> {
    vec3(a.x.add_spec(b.x), a.y.add_spec(b.y), a.z.add_spec(b.z))
}

pub open spec fn add_req<T: VecElem>(a: Vector3<T>, b: Vector3<T>) -> bool {
    a.x.add_req(b.x) && a.y.add_req(b.y) && a.z.add_req(b.z)
}

/// Componentwise difference.
pub open spec fn sub_spec<T: SignedVecElem>(a: Vector3<T>, b: Vector3<T>) -> Vector3<T> {
    vec3(a.x.sub_spec(b.x), a.y.sub_spec(b.y), a.z.sub_spec(b.z))
}

pub open spec fn sub_req<T: SignedVecElem>(a: Vector3<T>, b: Vector3<T>) -> bool {
    a.x.sub_req(b.x) && a.y.sub_req(b.y) && a.z.sub_req(b.z)
}

/// Every component multiplied by `k` on the right.
pub open spec fn scale_spec<T: VecElem>(a: Vector3<T>, k: T) -> Vector3<T> {
    vec3(a.x.mul_spec(k), a.y.mul_spec(k), a.z.mul_spec(k))
}

pub open spec fn scale_req<T: VecElem>(a: Vector3<T>, k: T) -> bool {
    a.x.mul_req(k) && a.y.mul_req(k) && a.z.mul_req(k)
}

/// Componentwise product.
pub open spec fn hadamard_spec<T: VecElem>(a: Vector3<T>, b: Vector3<T>) -> Vector3<T> {
    vec3(a.x.mul_spec(b.x), a.y.mul_spec(b.y), a.z.mul_spec(b.z))
}

pub open spec fn hadamard_req<T: VecElem>(a: Vector3<T>, b: Vector3<T>) -> bool {
    a.x.mul_req(b.x) && a.y.mul_req(b.y) && a.z.mul_req(b.z)
}

/// `p * q - r * s`: one component of the cross product.
pub open spec fn cross_term<T: SignedVecElem>(p: T, q: T, r: T, s: T) -> T {
    p.mul_spec(q).sub_spec(r.mul_spec(s))
}

pub open spec fn cross_term_req<T: SignedVecElem>(p: T, q: T, r: T, s: T) -> bool {
    &&& p.mul_req(q)
    &&& r.mul_req(s)
    &&& p.mul_spec(q).sub_req(r.mul_spec(s))
}

/// The right-handed cross product `a x b`.
pub open spec fn cross_spec<T: SignedVecElem>(a: Vector3<T>, b: Vector3<T>) -> Vector3<T> {
    vec3(
        cross_term(a.y, b.z, a.z, b.y),
        cross_term(a.z, b.x, a.x, b.z),
        cross_term(a.x, b.y, a.y, b.x),
    )
}

pub open spec fn cross_req<T: SignedVecElem>(a: Vector3<T>, b: Vector3<T>) -> bool {
    &&& cross_term_req(a.y, b.z, a.z, b.y)
    &&& cross_term_req(a.z, b.x, a.x, b.z)
    &&& cross_term_req(a.x, b.y, a.y, b.x)
}

impl<T: VecElem> Vector3<T> {
    pub fn new(x: T, y: T, z: T) -> (r: Vector3<T>)
        ensures
            r == vec3(x, y, z),
    {
        Vector3 { x, y, z }
    }

    /// Replaces every component by its product with the matching component of `rhs`.
    pub fn mul_element_wise(&mut self, rhs: &Vector3<T>)
        requires
            hadamard_req(*old(self), *rhs),
        ensures
            T::obeys_mul_spec() ==> *final(self) == hadamard_spec(*old(self), *rhs),
    {
        self.x = self.x * rhs.x;
        self.y = self.y * rhs.y;
        self.z = self.z * rhs.z;
    }

    pub fn dot(&self, rhs: &Vector3<T>) -> (r: T)
        requires
            ring_ok::<T>(dot_req(*self, *rhs)),
        ensures
            exact_ring::<T>() ==> r == dot_spec(*self, *rhs),
    {
        self.x * rhs.x + self.y * rhs.y + self.z * rhs.z
    }

    /// The vector of what `f` returns on each component, called on `x`, then
    /// `y`, then `z`.
    pub fn apply<U: VecElem, F: Fn(T) -> U>(&self, f: F) -> (r: Vector3<U>)
        requires
            f.requires((self.x,)),
            f.requires((self.y,)),
            f.requires((self.z,)),
        ensures
            f.ensures((self.x,), r.x),
            f.ensures((self.y,), r.y),
            f.ensures((self.z,), r.z),
    {
        let x = f(self.x);
        let y = f(self.y);
        let z = f(self.z);
        Vector3::new(x, y, z)
    }

    /// The three components in order.
    pub fn as_vec(&self) -> (r: Vec<T>)
        ensures
            r@ == seq![self.x, self.y, self.z],
    {
        let mut out: Vec<T> = Vec::new();
        out.push(self.x);
        out.push(self.y);
        out.push(self.z);
        assert(out@ =~= seq![self.x, self.y, self.z]);
        out
    }

    /// The component at `index`: 0 for `x`, 1 for `y`, 2 for `z`.
    pub fn get(&self, index: usize) -> (r: T)
        requires
            index < 3,
        ensures
            r == seq![self.x, self.y, self.z][index as int],
    {
        if index == 0 {
            self.x
        } else if index == 1 {
            self.y
        } else {
            self.z
        }
    }

    /// Every component multiplied by `k`.
    pub fn scale(&self, k: T) -> (r: Vector3<T>)
        requires
            scale_req(*self, k),
        ensures
            T::obeys_mul_spec() ==> r == scale_spec(*self, k),
    {
        Vector3::new(self.x * k, self.y * k, self.z * k)
    }

    pub fn x(&self) -> (r: T)
        ensures
            r == self.x,
    {
        self.x
    }

    pub fn y(&self) -> (r: T)
        ensures
            r == self.y,
    {
        self.y
    }

    pub fn z(&self) -> (r: T)
        ensures
            r == self.z,
    {
        self.z
    }
}

impl<T: SignedVecElem> Vector3<T> {
    pub fn cross(&self, rhs: &Vector3<T>) -> (r: Vector3<T>)
        requires
            signed_ok::<T>(cross_req(*self, *rhs)),
        ensures
            exact_signed::<T>() ==> r == cross_spec(*self, *rhs),
    {
        Vector3::new(
            self.y * rhs.z - self.z * rhs.y,
            self.z * rhs.x - self.x * rhs.z,
            self.x * rhs.y - self.y * rhs.x,
        )
    }
}

impl<T: VecElem> Default for Vector3<T> {
    fn default() -> (r: Vector3<T>)
        ensures
            call_ensures(T::default, (), r.x),
            call_ensures(T::default, (), r.y),
            call_ensures(T::default, (), r.z),
    {
        Vector3 { x: T::default(), y: T::default(), z: T::default() }
    }
}

impl<T: VecElem> Add<Vector3<T>> for Vector3<T> {
    type Output = Vector3<T>;

    fn add(self, rhs: Vector3<T>) -> (r: Vector3<T>)
    {
        Vector3::new(self.x + rhs.x, self.y + rhs.y, self.z + rhs.z)
    }
}

impl<T: VecElem> AddSpecImpl<Vector3<T>> for Vector3<T> {
    open spec fn obeys_add_spec() -> bool {
        T::obeys_add_spec()
    }

    open spec fn add_req(self, rhs: Vector3<T>) -> bool {
        self::add_req(self, rhs)
    }

    open spec fn add_spec(self, rhs: Vector3<T>) -> Vector3<T> {
        self::add_spec(self, rhs)
    }
}

impl<T: SignedVecElem> Sub<Vector3<T>> for Vector3<T> {
    type Output = Vector3<T>;

    fn sub(self, rhs: Vector3<T>) -> (r: Vector3<T>)
    {
        Vector3::new(self.x - rhs.x, self.y - rhs.y, self.z - rhs.z)
    }
}

impl<T: SignedVecElem> SubSpecImpl<Vector3<T>> for Vector3<T> {
    open spec fn obeys_sub_spec() -> bool {
        T::obeys_sub_spec()
    }

    open spec fn sub_req(self, rhs: Vector3<T>) -> bool {
        self::sub_req(self, rhs)
    }

    open spec fn sub_spec(self, rhs: Vector3<T>) -> Vector3<T> {
        self::sub_spec(self, rhs)
    }
}

impl<T: VecElem> Mul<T> for Vector3<T> {
    type Output = Vector3<T>;

    fn mul(self, rhs: T) -> (r: Vector3<T>)
    {
        Vector3::new(self.x * rhs, self.y * rhs, self.z * rhs)
    }
}

impl<T: VecElem> MulSpecImpl<T> for Vector3<T> {
    open spec fn obeys_mul_spec() -> bool {
        T::obeys_mul_spec()
    }

    open spec fn mul_req(self, rhs: T) -> bool {
        scale_req(self, rhs)
    }

    open spec fn mul_spec(self, rhs: T) -> Vector3<T> {
        scale_spec(self, rhs)
    }
}

} // verus!
