use crate::vector::exact_signed;
use crate::vector::total_signed;
use crate::vector::dot_spec;
use crate::vector::vec3;
use crate::vector::SignedVecElem;
use crate::vector::Vector3;
use std::cmp::Ordering;
use std::ops::Div;
use vstd::prelude::*;
use vstd::std_specs::cmp::PartialOrdSpec;
use vstd::std_specs::convert::FromSpec;
use vstd::std_specs::ops::DivSpec;

verus! {

/// A scalar of the geometry: a signed component type with a quotient, an order
/// and an image of every 32-bit integer.
pub trait Scalar: SignedVecElem + Div<Output = Self> + PartialOrd + From<i32> {

}

impl<T> Scalar for T where T: SignedVecElem + Div<Output = T> + PartialOrd + From<i32> {

}

/// Every operation of `T` returns what its specification says.
pub open spec fn exact_scalar<T: Scalar>() -> bool {
    &&& exact_signed::<T>()
    &&& T::obeys_div_spec()
    &&& T::obeys_partial_cmp_spec()
    &&& T::obeys_from_spec()
}

/// Every arithmetic operation of `T` is defined on all operands, division by
/// any divisor included.
pub open spec fn total_scalar<T: Scalar>() -> bool {
    &&& total_signed::<T>()
    &&& forall|a: T, b: T| #[trigger] a.div_req(b)
}

/// `a` is strictly below `b` in the order of `T`.
pub open spec fn lt<T: Scalar>(a: T, b: T) -> bool {
    a.partial_cmp_spec(&b) == Some(Ordering::Less)
}

/// `a` is strictly above `b` in the order of `T`.
pub open spec fn gt<T: Scalar>(a: T, b: T) -> bool {
    a.partial_cmp_spec(&b) == Some(Ordering::Greater)
}

/// Whether `a` is strictly below `b`.
pub fn is_below<T: Scalar>(a: T, b: T) -> (r: bool)
    ensures
        T::obeys_partial_cmp_spec() ==> r == lt(a, b),
{
    a < b
}

/// Whether `a` is strictly above `b`.
pub fn is_above<T: Scalar>(a: T, b: T) -> (r: bool)
    ensures
        T::obeys_partial_cmp_spec() ==> r == gt(a, b),
{
    a > b
}

/// The image in `T` of an integer.
pub fn of_int<T: Scalar>(n: i32) -> (r: T)
    ensures
        T::obeys_from_spec() ==> r == T::from_spec(n),
{
    T::from(n)
}

/// Every component of `v` divided by `k`.
pub open spec fn shrink_spec<T: Scalar>(v: Vector3<T>, k: T) -> Vector3<T> {
    vec3(v.x.div_spec(k), v.y.div_spec(k), v.z.div_spec(k))
}

/// Each of the three divisions of `shrink_spec` is defined.
pub open spec fn shrink_req<T: Scalar>(v: Vector3<T>, k: T) -> bool {
    v.x.div_req(k) && v.y.div_req(k) && v.z.div_req(k)
}

/// Every component of `v` divided by `k`.
pub fn shrink<T: Scalar>(v: Vector3<T>, k: T) -> (r: Vector3<T>)
    requires
        shrink_req(v, k),
    ensures
        T::obeys_div_spec() ==> r == shrink_spec(v, k),
{
    Vector3::new(v.x / k, v.y / k, v.z / k)
}

/// `root` accepts every value.
pub open spec fn root_accepts_all<T, R: Fn(T) -> T>(root: &R) -> bool {
    forall|x: T| #[trigger] root.requires((x,))
}

impl<T: Scalar> Vector3<T> {
    /// The Euclidean length: what `root`, the square root, makes of the sum
    /// of the squares of the components.
    pub fn len<R: Fn(T) -> T>(&self, root: &R) -> (r: T)
        requires
            total_scalar::<T>(),
            root_accepts_all(root),
        ensures
            exact_scalar::<T>() ==> root.ensures((dot_spec(*self, *self),), r),
    {
        root(self.dot(self))
    }

    /// Divides every component by the length of the vector. A vector of
    /// length zero is divided by zero.
    pub fn normalize<R: Fn(T) -> T>(&mut self, root: &R)
        requires
            total_scalar::<T>(),
            root_accepts_all(root),
        ensures
            exact_scalar::<T>() ==> exists|length: T|
                #[trigger] root.ensures((dot_spec(*old(self), *old(self)),), length)
                    && *final(self) == shrink_spec(*old(self), length),
    {
        let length = self.len(root);
        *self = shrink(*self, length);
    }
}

} // verus!
