use vstd::prelude::*;

verus! {

/// Rotation of a 64-bit word to the left by `k` bits.
pub open spec fn rotl_spec(x: u64, k: u32) -> u64
    recommends
        0 < k < 64,
{
    (x << k) | (x >> ((64 - k) as u32))
}

pub fn rotl(x: u64, k: u32) -> (r: u64)
    requires
        0 < k < 64,
    ensures
        r == rotl_spec(x, k),
{
    (x << k) | (x >> (64 - k))
}

/// The number that a generator in state `s` gives next: the sum of the two
/// words of the state, modulo 2^64.
pub open spec fn output(s: (u64, u64)) -> u64 {
    ((s.0 + s.1) % 0x1_0000_0000_0000_0000) as u64
}

/// The state that follows `s`.
pub open spec fn advance(s: (u64, u64)) -> (u64, u64) {
    let mixed = s.1 ^ s.0;
    (rotl_spec(s.0, 55) ^ mixed ^ (mixed << 14u64), rotl_spec(mixed, 36))
}

/// The state after `n` numbers were drawn from state `s`.
pub open spec fn advance_by(s: (u64, u64), n: nat) -> (u64, u64)
    decreases n,
{
    if n == 0 {
        s
    } else {
        advance(advance_by(s, (n - 1) as nat))
    }
}

/// The `n`-th number drawn from state `s`, counted from zero.
pub open spec fn draw(s: (u64, u64), n: nat) -> u64 {
    output(advance_by(s, n))
}

/// Drawing `m` numbers and then `n` more is drawing `m + n`.
pub proof fn lemma_advance_by_sum(s: (u64, u64), m: nat, n: nat)
    ensures
        advance_by(advance_by(s, m), n) == advance_by(s, m + n),
    decreases n,
{
    if n > 0 {
        lemma_advance_by_sum(s, m, (n - 1) as nat);
    }
}

/// A generator of uniform 64-bit numbers over a state of two words, seeded
/// once. The numbers it gives depend on the seed alone.
#[derive(Debug)]
pub struct UniformDist(pub [u64; 2]);

impl View for UniformDist {
    type V = (u64, u64);

    open spec fn view(&self) -> (u64, u64) {
        (self.0[0], self.0[1])
    }
}

impl UniformDist {
    /// The next number; the state moves on by one step.
    pub fn next(&mut self) -> (r: u64)
        ensures
            r == output(old(self)@),
            final(self)@ == advance(old(self)@),
    {
        let s0: u64 = self.0[0];
        let mut s1: u64 = self.0[1];
        let result: u64 = s0.wrapping_add(s1);
        s1 = s1 ^ s0;
        let t0: u64 = rotl(s0, 55) ^ s1 ^ (s1 << 14);
        let t1: u64 = rotl(s1, 36);
        self.0 = [t0, t1];
        result
    }

    pub fn new(seed: [u64; 2]) -> (r: UniformDist)
        ensures
            r@ == (seed[0], seed[1]),
    {
        UniformDist([seed[0], seed[1]])
    }
}

/// A source of normally distributed samples: each sample is made from two
/// numbers of the uniform generator, the first drawn first.
#[derive(Debug)]
pub struct NormalDist {
    pub uniform: UniformDist,
}

impl View for NormalDist {
    type V = (u64, u64);

    open spec fn view(&self) -> (u64, u64) {
        self.uniform@
    }
}

/// `transform` accepts every pair of numbers.
pub open spec fn accepts_all<T, G: Fn(u64, u64) -> T>(transform: &G) -> bool {
    forall|a: u64, b: u64| #[trigger] transform.requires((a, b))
}

/// `x` is a sample that `transform` may give from the first two numbers drawn
/// in state `s`.
pub open spec fn sample_of<T, G: Fn(u64, u64) -> T>(transform: &G, s: (u64, u64), x: T) -> bool {
    transform.ensures((draw(s, 0), draw(s, 1)), x)
}

impl NormalDist {
    pub fn new(seed: [u64; 2]) -> (r: NormalDist)
        ensures
            r@ == (seed[0], seed[1]),
    {
        NormalDist { uniform: UniformDist::new([seed[0], seed[1]]) }
    }

    /// The next two numbers of the uniform generator, in the order drawn.
    pub fn next_pair(&mut self) -> (r: (u64, u64))
        ensures
            r == (draw(old(self)@, 0), draw(old(self)@, 1)),
            final(self)@ == advance_by(old(self)@, 2),
    {
        reveal_with_fuel(advance_by, 3);
        let u0 = self.uniform.next();
        let u1 = self.uniform.next();
        (u0, u1)
    }

    /// One sample: what `transform` makes of the next two uniform numbers.
    /// One pair gives one sample.
    pub fn normal<T, G: Fn(u64, u64) -> T>(&mut self, transform: &G) -> (r: T)
        requires
            accepts_all(transform),
        ensures
            sample_of(transform, old(self)@, r),
            final(self)@ == advance_by(old(self)@, 2),
    {
        let (u0, u1) = self.next_pair();
        transform(u0, u1)
    }
}

} // verus!
