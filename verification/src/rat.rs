use vstd::prelude::*;

verus! {

/// An exact rational scalar `num / den`.
///
/// The renderer never divides: every quantity that the GPU pipeline would
/// hold as a float is carried as a numerator/denominator pair, so contracts
/// can speak about the denoted value exactly.
#[derive(Clone, Copy, PartialEq, Eq, Structural, Debug)]
pub struct Rat {
    pub num: i64,
    pub den: i64,
}

impl Rat {
    /// Well-formed: a positive denominator.
    pub open spec fn wf(self) -> bool {
        self.den >= 1
    }

    /// The rational `num / den`.
    pub fn new(num: i64, den: i64) -> (r: Rat)
        requires
            den >= 1,
        ensures
            r.wf(),
            r.num == num,
            r.den == den,
    {
        Rat { num, den }
    }

    /// The whole number `n`.
    pub fn whole(n: i64) -> (r: Rat)
        ensures
            r.wf(),
            r.num == n,
            r.den == 1,
    {
        Rat { num: n, den: 1 }
    }
}

} // verus!
