use vstd::prelude::*;

verus! {

/// The numeric capability that every component of the library is generic
/// over: a real-number representation (single or double precision, or any
/// other) with the arithmetic, comparisons and transcendental functions that
/// the waveform formulas need.
///
/// Each operation but `sample_uniform` is a function of its arguments alone:
/// the spec function beside it names its result, and an implementation
/// promises to return exactly that value. Nothing else is assumed of the
/// arithmetic, so what is proved over these names holds for every precision.
/// The bodies given to the names here are placeholders that verification
/// never unfolds for a generic type: each name stands for what the type's own
/// operation computes.
pub trait Real: Sized + Copy {
    closed spec fn spec_zero() -> Self {
        arbitrary()
    }

    closed spec fn spec_one() -> Self {
        arbitrary()
    }

    closed spec fn spec_half() -> Self {
        arbitrary()
    }

    closed spec fn spec_pi() -> Self {
        arbitrary()
    }

    closed spec fn spec_tau() -> Self {
        arbitrary()
    }

    closed spec fn spec_frac_pi_2() -> Self {
        arbitrary()
    }

    closed spec fn spec_frac_2_pi() -> Self {
        arbitrary()
    }

    closed spec fn spec_epsilon() -> Self {
        arbitrary()
    }

    closed spec fn spec_from_usize(n: usize) -> Self {
        arbitrary()
    }

    closed spec fn spec_neg(self) -> Self {
        arbitrary()
    }

    closed spec fn spec_abs(self) -> Self {
        arbitrary()
    }

    closed spec fn spec_recip(self) -> Self {
        arbitrary()
    }

    closed spec fn spec_signum(self) -> Self {
        arbitrary()
    }

    closed spec fn spec_sin(self) -> Self {
        arbitrary()
    }

    closed spec fn spec_cos(self) -> Self {
        arbitrary()
    }

    closed spec fn spec_exp(self) -> Self {
        arbitrary()
    }

    closed spec fn spec_sinh(self) -> Self {
        arbitrary()
    }

    closed spec fn spec_tanh(self) -> Self {
        arbitrary()
    }

    closed spec fn spec_add(self, o: Self) -> Self {
        arbitrary()
    }

    closed spec fn spec_sub(self, o: Self) -> Self {
        arbitrary()
    }

    closed spec fn spec_mul(self, o: Self) -> Self {
        arbitrary()
    }

    closed spec fn spec_div(self, o: Self) -> Self {
        arbitrary()
    }

    closed spec fn spec_rem_euclid(self, o: Self) -> Self {
        arbitrary()
    }

    closed spec fn spec_powf(self, o: Self) -> Self {
        arbitrary()
    }

    closed spec fn spec_copysign(self, sign: Self) -> Self {
        arbitrary()
    }

    closed spec fn spec_lt(self, o: Self) -> bool {
        arbitrary()
    }

    closed spec fn spec_le(self, o: Self) -> bool {
        arbitrary()
    }

    closed spec fn spec_eq(self, o: Self) -> bool {
        arbitrary()
    }

    closed spec fn spec_is_finite(self) -> bool {
        arbitrary()
    }

    closed spec fn spec_is_nan(self) -> bool {
        arbitrary()
    }

    closed spec fn spec_to_usize(self) -> Option<usize> {
        arbitrary()
    }

    closed spec fn spec_bessel_i(order: usize, x: Self) -> Self {
        arbitrary()
    }

    /// 0
    fn zero() -> (r: Self)
        ensures
            r == Self::spec_zero(),
    ;

    /// 1
    fn one() -> (r: Self)
        ensures
            r == Self::spec_one(),
    ;

    /// 1/2
    fn half() -> (r: Self)
        ensures
            r == Self::spec_half(),
    ;

    /// π
    fn pi() -> (r: Self)
        ensures
            r == Self::spec_pi(),
    ;

    /// 2π, one full turn
    fn tau() -> (r: Self)
        ensures
            r == Self::spec_tau(),
    ;

    /// π/2
    fn frac_pi_2() -> (r: Self)
        ensures
            r == Self::spec_frac_pi_2(),
    ;

    /// 2/π
    fn frac_2_pi() -> (r: Self)
        ensures
            r == Self::spec_frac_2_pi(),
    ;

    /// The machine epsilon of the representation.
    fn epsilon() -> (r: Self)
        ensures
            r == Self::spec_epsilon(),
    ;

    /// The value nearest to `n`.
    fn from_usize(n: usize) -> (r: Self)
        ensures
            r == Self::spec_from_usize(n),
    ;

    fn neg(self) -> (r: Self)
        ensures
            r == self.spec_neg(),
    ;

    fn abs(self) -> (r: Self)
        ensures
            r == self.spec_abs(),
    ;

    fn recip(self) -> (r: Self)
        ensures
            r == self.spec_recip(),
    ;

    fn signum(self) -> (r: Self)
        ensures
            r == self.spec_signum(),
    ;

    fn sin(self) -> (r: Self)
        ensures
            r == self.spec_sin(),
    ;

    fn cos(self) -> (r: Self)
        ensures
            r == self.spec_cos(),
    ;

    fn exp(self) -> (r: Self)
        ensures
            r == self.spec_exp(),
    ;

    fn sinh(self) -> (r: Self)
        ensures
            r == self.spec_sinh(),
    ;

    fn tanh(self) -> (r: Self)
        ensures
            r == self.spec_tanh(),
    ;

    fn add(self, o: Self) -> (r: Self)
        ensures
            r == self.spec_add(o),
    ;

    fn sub(self, o: Self) -> (r: Self)
        ensures
            r == self.spec_sub(o),
    ;

    fn mul(self, o: Self) -> (r: Self)
        ensures
            r == self.spec_mul(o),
    ;

    fn div(self, o: Self) -> (r: Self)
        ensures
            r == self.spec_div(o),
    ;

    /// The least non-negative remainder of `self` modulo `o`.
    fn rem_euclid(self, o: Self) -> (r: Self)
        ensures
            r == self.spec_rem_euclid(o),
    ;

    fn powf(self, o: Self) -> (r: Self)
        ensures
            r == self.spec_powf(o),
    ;

    /// The magnitude of `self` with the sign of `sign`.
    fn copysign(self, sign: Self) -> (r: Self)
        ensures
            r == self.spec_copysign(sign),
    ;

    fn lt(self, o: Self) -> (r: bool)
        ensures
            r == self.spec_lt(o),
    ;

    fn le(self, o: Self) -> (r: bool)
        ensures
            r == self.spec_le(o),
    ;

    fn eq(self, o: Self) -> (r: bool)
        ensures
            r == self.spec_eq(o),
    ;

    fn is_finite(self) -> (r: bool)
        ensures
            r == self.spec_is_finite(),
    ;

    fn is_nan(self) -> (r: bool)
        ensures
            r == self.spec_is_nan(),
    ;

    /// The integer part, where it is a representable `usize`.
    fn to_usize(self) -> (r: Option<usize>)
        ensures
            r == self.spec_to_usize(),
    ;

    /// The regular modified cylindrical Bessel function of the first kind,
    /// of integer `order`, at `x`.
    fn bessel_i(order: usize, x: Self) -> (r: Self)
        ensures
            r == Self::spec_bessel_i(order, x),
    ;

    /// A value drawn uniformly at random from `[low, high]`; where the range
    /// is empty the draw does not return.
    fn sample_uniform(low: Self, high: Self) -> (r: Self)
        ensures
            low.spec_le(r),
            r.spec_le(high),
    ;
}

/// `x` limited to `[lo, hi]`; a value that compares with neither bound is
/// kept as it is.
pub open spec fn spec_clamp<F: Real>(x: F, lo: F, hi: F) -> F {
    if x.spec_lt(lo) {
        lo
    } else if hi.spec_lt(x) {
        hi
    } else {
        x
    }
}

pub fn clamp<F: Real>(x: F, lo: F, hi: F) -> (r: F)
    ensures
        r == spec_clamp(x, lo, hi),
{
    if x.lt(lo) {
        lo
    } else if hi.lt(x) {
        hi
    } else {
        x
    }
}

} // verus!
