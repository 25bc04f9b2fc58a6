use crate::scalar::of_int;
use crate::scalar::Scalar;
use crate::vector::vec3;
use crate::vector::Vector3;
use vstd::prelude::*;
use vstd::std_specs::convert::FromSpec;

verus! {

/// A grid of colour triples, `shape.0` pixels wide and `shape.1` high. The
/// pixel in column `i` of row `j` is stored at position `i + j * shape.0`.
#[derive(Debug)]
pub struct Image<T> {
    pub pixels: Vec<Vector3<T>>,
    pub shape: (usize, usize),
}

/// The colour with all three channels zero.
pub open spec fn black<T: Scalar>() -> Vector3<T> {
    vec3(T::from_spec(0i32), T::from_spec(0i32), T::from_spec(0i32))
}

/// The components of `pixels`, pixel by pixel and channel by channel.
pub open spec fn channels<T>(pixels: Seq<Vector3<T>>) -> Seq<T> {
    Seq::new(
        3 * pixels.len(),
        |k: int|
            if k % 3 == 0 {
                pixels[k / 3].x
            } else if k % 3 == 1 {
                pixels[k / 3].y
            } else {
                pixels[k / 3].z
            },
    )
}

impl<T: Scalar> Image<T> {
    /// There is one pixel for each position of the grid.
    pub open spec fn well_formed(&self) -> bool {
        self.pixels@.len() == self.shape.0 * self.shape.1
    }

    /// Where the pixel in column `i` of row `j` is stored.
    pub open spec fn position(&self, i: int, j: int) -> int {
        i + j * self.shape.0
    }

    /// The pixel in column `i` of row `j`.
    pub open spec fn pixel(&self, i: int, j: int) -> Vector3<T> {
        self.pixels@[self.position(i, j)]
    }

    /// A black image of the given width and height.
    pub fn new(shape: (usize, usize)) -> (r: Image<T>)
        requires
            shape.0 * shape.1 <= usize::MAX,
        ensures
            r.well_formed(),
            r.shape == shape,
            T::obeys_from_spec() ==> forall|k: int|
                0 <= k < r.pixels@.len() ==> #[trigger] r.pixels@[k] == black::<T>(),
    {
        let count: usize = shape.0 * shape.1;
        let zero: T = of_int(0i32);
        let mut pixels: Vec<Vector3<T>> = Vec::new();
        let mut k: usize = 0;
        while k < count
            invariant
                k <= count,
                pixels@.len() == k,
                T::obeys_from_spec() ==> zero == T::from_spec(0i32),
                T::obeys_from_spec() ==> forall|m: int|
                    0 <= m < k ==> #[trigger] pixels@[m] == black::<T>(),
            decreases count - k,
        {
            pixels.push(Vector3::new(zero, zero, zero));
            k += 1;
        }
        Image { pixels, shape }
    }

    /// The pixel in column `i` of row `j`.
    pub fn get(&self, i: usize, j: usize) -> (r: Vector3<T>)
        requires
            self.well_formed(),
            i < self.shape.0,
            j < self.shape.1,
        ensures
            r == self.pixel(i as int, j as int),
    {
        proof {
            lemma_position_in_bounds(i as int, j as int, self.shape.0 as int, self.shape.1 as int);
            assert(self.pixels@.len() == self.pixels.len());
        }
        self.pixels[i + j * self.shape.0]
    }

    /// Replaces the pixel in column `i` of row `j`; no other pixel changes.
    pub fn set(&mut self, i: usize, j: usize, colour: Vector3<T>)
        requires
            old(self).well_formed(),
            i < old(self).shape.0,
            j < old(self).shape.1,
        ensures
            final(self).shape == old(self).shape,
            final(self).pixels@ == old(self).pixels@.update(
                old(self).position(i as int, j as int),
                colour,
            ),
            final(self).well_formed(),
    {
        proof {
            lemma_position_in_bounds(i as int, j as int, self.shape.0 as int, self.shape.1 as int);
            assert(self.pixels@.len() == self.pixels.len());
        }
        let at: usize = i + j * self.shape.0;
        self.pixels.set(at, colour);
    }

    /// The channels of all pixels in storage order, each made into an output
    /// value by `quantize`.
    pub fn as_flattened<B, F: Fn(T) -> B>(&self, quantize: &F) -> (r: Vec<B>)
        requires
            forall|x: T| #[trigger] quantize.requires((x,)),
        ensures
            r@.len() == 3 * self.pixels@.len(),
            forall|k: int|
                0 <= k < r@.len() ==> quantize.ensures(
                    (channels(self.pixels@)[k],),
                    #[trigger] r@[k],
                ),
    {
        let mut out: Vec<B> = Vec::new();
        let mut p: usize = 0;
        while p < self.pixels.len()
            invariant
                p <= self.pixels@.len(),
                out@.len() == 3 * p,
                forall|x: T| #[trigger] quantize.requires((x,)),
                forall|k: int|
                    0 <= k < out@.len() ==> quantize.ensures(
                        (channels(self.pixels@)[k],),
                        #[trigger] out@[k],
                    ),
            decreases self.pixels@.len() - p,
        {
            let colour = self.pixels[p];
            out.push(quantize(colour.x));
            out.push(quantize(colour.y));
            out.push(quantize(colour.z));
            p += 1;
        }
        out
    }
}

/// A position inside a grid of `w` by `h` is below `w * h`.
pub proof fn lemma_position_in_bounds(i: int, j: int, w: int, h: int)
    requires
        0 <= i < w,
        0 <= j < h,
    ensures
        0 <= i + j * w < w * h,
        0 <= j * w <= w * h,
{
    assert(j * w <= (h - 1) * w) by (nonlinear_arith)
        requires
            0 <= j <= h - 1,
            0 <= w,
    ;
    assert((h - 1) * w == w * h - w) by (nonlinear_arith);
    assert(0 <= j * w) by (nonlinear_arith)
        requires
            0 <= j,
            0 <= w,
    ;
}

} // verus!
