use vstd::prelude::*;

verus! {

/// An exact rational number `num / den` with a positive denominator.
///
/// The renderer reconciles three coordinate spaces: pixel screen space,
/// normalized clip space and normalized texture space. Clip and texture
/// coordinates are ratios of pixel quantities, so they are carried exactly
/// as integer fractions. The host layer converts a `Rat` to the device's
/// floating-point vertex format only at the upload boundary.
#[derive(Clone, Copy, Debug, PartialEq, Eq, Structural)]
pub struct Rat {
    pub num: i64,
    pub den: i64,
}

/// `a <= b` as rationals, by cross-multiplication (denominators positive).
pub open spec fn spec_rat_le(a: Rat, b: Rat) -> bool {
    a.num * b.den <= b.num * a.den
}

/// `a < b` as rationals, by cross-multiplication (denominators positive).
pub open spec fn spec_rat_lt(a: Rat, b: Rat) -> bool {
    a.num * b.den < b.num * a.den
}

impl Rat {
    /// Well-formed: the denominator is positive.
    pub open spec fn wf(self) -> bool {
        self.den > 0
    }

    /// `self` denotes the mathematical ratio `n / d`.
    pub open spec fn is_ratio(self, n: int, d: int) -> bool {
        self.num * d == n * self.den
    }

    pub fn new(num: i64, den: i64) -> (r: Rat)
        requires
            den > 0,
        ensures
            r.wf(),
            r.num == num,
            r.den == den,
    {
        Rat { num, den }
    }

    /// The integer `n` as a rational.
    pub fn from_int(n: i64) -> (r: Rat)
        ensures
            r.wf(),
            r.num == n,
            r.den == 1,
            r.is_ratio(n as int, 1),
    {
        Rat { num: n, den: 1 }
    }

    /// Exact `<=` on rationals, by cross-multiplication.
    pub fn le(&self, other: &Rat) -> (r: bool)
        requires
            self.wf(),
            other.wf(),
        ensures
            r == spec_rat_le(*self, *other),
    {
        proof {
            lemma_i64_mul_in_i128(self.num as int, other.den as int);
            lemma_i64_mul_in_i128(other.num as int, self.den as int);
        }
        (self.num as i128) * (other.den as i128) <= (other.num as i128) * (self.den as i128)
    }

    /// Exact `<` on rationals, by cross-multiplication.
    pub fn lt(&self, other: &Rat) -> (r: bool)
        requires
            self.wf(),
            other.wf(),
        ensures
            r == spec_rat_lt(*self, *other),
    {
        proof {
            lemma_i64_mul_in_i128(self.num as int, other.den as int);
            lemma_i64_mul_in_i128(other.num as int, self.den as int);
        }
        (self.num as i128) * (other.den as i128) < (other.num as i128) * (self.den as i128)
    }
}

/// The product of two `i64` values fits in an `i128`.
pub proof fn lemma_i64_mul_in_i128(a: int, b: int) by (nonlinear_arith)
    requires
        i64::MIN <= a <= i64::MAX,
        i64::MIN <= b <= i64::MAX,
    ensures
        i128::MIN <= a * b <= i128::MAX,
{
}

/// `|a * b| <= ba * bb` whenever `|a| <= ba` and `|b| <= bb`.
pub proof fn lemma_mul_abs_bound(a: int, b: int, ba: int, bb: int) by (nonlinear_arith)
    requires
        -ba <= a <= ba,
        -bb <= b <= bb,
        0 <= ba,
        0 <= bb,
    ensures
        -(ba * bb) <= a * b <= ba * bb,
{
}

/// The product of two positive values is positive.
pub proof fn lemma_mul_pos(a: int, b: int) by (nonlinear_arith)
    requires
        0 < a,
        0 < b,
    ensures
        0 < a * b,
{
}

} // verus!
