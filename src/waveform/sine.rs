use vstd::prelude::*;

use crate::numeric::{clamp, spec_clamp, Real};
use crate::waveform::{TableModel, Waveform};
use crate::wavetable::Wavetable;

verus! {

/// A sine wave (as a cosine); a duty cycle other than 1/2 skews it.
#[derive(Clone, Copy, Debug, Default, PartialEq, Eq, PartialOrd, Ord)]
pub struct Sine;

/// The highest order of Bessel function that a table takes; the harmonics
/// above it are zero.
pub const MAX_N: usize = 64;

/// The bound on the magnitude of the Bessel argument, and the inverse of the
/// offset that keeps the skew parameter finite.
pub const MAX_I_N: usize = 128;

/// The skew of a duty cycle: with `a = clamp(1 - 2 duty_cycle, -1, 1)` and
/// `ε = 1/MAX_I_N`, the sign `s` of `a` and `p = (|a| + ε)/(|a| - 1 - ε)`.
pub open spec fn spec_skew<F: Real>(duty_cycle: F) -> (F, F) {
    let one = F::spec_one();
    let eps = one.spec_div(F::spec_from_usize(MAX_I_N));
    let a = spec_clamp(one.spec_sub(duty_cycle).spec_sub(duty_cycle), one.spec_neg(), one);
    let s = a.spec_signum();
    let a = a.spec_abs();
    (s, a.spec_add(eps).spec_div(a.spec_sub(one).spec_sub(eps)))
}

/// `cos θ` at duty cycle 1/2; else, with `(s, p)` the skew,
/// `s (1/tanh p - e^{-p s cos θ}/sinh p)`, the exponential taken as zero
/// where it is not finite.
pub open spec fn spec_sine_dtc<F: Real>(theta: F, duty_cycle: F) -> F {
    if duty_cycle.spec_eq(F::spec_half()) {
        theta.spec_cos()
    } else {
        let (s, p) = spec_skew(duty_cycle);
        let numer = p.spec_neg().spec_mul(s).spec_mul(theta.spec_cos()).spec_exp();
        let numer = if numer.spec_is_finite() {
            numer
        } else {
            F::spec_zero()
        };
        s.spec_mul(p.spec_tanh().spec_recip().spec_sub(numer.spec_div(p.spec_sinh())))
    }
}

/// The Bessel argument `clamp(-p s, -MAX_I_N, MAX_I_N)`.
pub open spec fn spec_bessel_arg<F: Real>(s: F, p: F) -> F {
    let bound = F::spec_from_usize(MAX_I_N);
    spec_clamp(p.spec_neg().spec_mul(s), bound.spec_neg(), bound)
}

/// `I_n(x)` for orders up to `MAX_N`, zero above.
pub open spec fn spec_bessel_limited<F: Real>(n: usize, x: F) -> F {
    if n <= MAX_N {
        F::spec_bessel_i(n, x)
    } else {
        F::spec_zero()
    }
}

/// Entry `i` (harmonic `n = i + 1`) of the skewed sine: `(g2 I_n(x), 0)`.
pub open spec fn spec_sine_pair<F: Real>(g2: F, x: F, i: usize) -> (F, F) {
    (g2.spec_mul(spec_bessel_limited((i + 1) as usize, x)), F::spec_zero())
}

pub open spec fn spec_sine_table<F: Real>(n: usize, g2: F, x: F) -> Seq<(F, F)> {
    Seq::new(n as nat, |i: int| spec_sine_pair(g2, x, i as usize))
}

/// No table at duty cycle 1/2, where the shape is a single harmonic. Else,
/// with `(s, p)` the skew, `g = 1/sinh p` and `x` the Bessel argument: DC term
/// `s (1/tanh p - g I_0(x))` and harmonic `n` at `(-2 s g I_n(x), 0)`.
pub open spec fn spec_sine_dtc_table<F: Real>(n: usize, duty_cycle: F) -> Option<TableModel<F>> {
    if duty_cycle.spec_eq(F::spec_half()) {
        None
    } else {
        let (s, p) = spec_skew(duty_cycle);
        let x = spec_bessel_arg(s, p);
        let g = p.spec_sinh().spec_recip();
        let g2 = s.spec_neg().spec_mul(g.spec_add(g));
        let a0 = s.spec_mul(p.spec_tanh().spec_recip().spec_sub(g.spec_mul(F::spec_bessel_i(0, x))));
        Some((a0, spec_sine_table(n, g2, x)))
    }
}

fn skew<F: Real>(duty_cycle: F) -> (r: (F, F))
    ensures
        r == spec_skew(duty_cycle),
{
    let one = F::one();
    let eps = one.div(F::from_usize(MAX_I_N));
    let a = clamp(one.sub(duty_cycle).sub(duty_cycle), one.neg(), one);
    let s = a.signum();
    let a = a.abs();
    (s, a.add(eps).div(a.sub(one).sub(eps)))
}

fn sine_pair<F: Real>(g2: F, x: F, i: usize) -> (r: (F, F))
    requires
        i < usize::MAX,
    ensures
        r == spec_sine_pair(g2, x, i),
{
    let n = i + 1;
    let i_n = if n <= MAX_N {
        F::bessel_i(n, x)
    } else {
        F::zero()
    };
    (g2.mul(i_n), F::zero())
}

impl<F: Real> Waveform<F> for Sine {
    open spec fn spec_waveform(&self, theta: F, y: F) -> bool {
        y == theta.spec_cos()
    }

    open spec fn spec_waveform_with_dtc(&self, theta: F, duty_cycle: F, y: F) -> bool {
        y == spec_sine_dtc(theta, duty_cycle)
    }

    open spec fn spec_wavetable(&self, n: usize) -> Option<TableModel<F>> {
        None
    }

    open spec fn spec_wavetable_with_dtc(&self, n: usize, duty_cycle: F) -> Option<TableModel<F>> {
        spec_sine_dtc_table(n, duty_cycle)
    }

    fn waveform(&self, theta: F) -> (y: F) {
        theta.cos()
    }

    fn waveform_with_dtc(&self, theta: F, duty_cycle: F) -> (y: F) {
        if duty_cycle.eq(crate::duty_cycle_default()) {
            return self.waveform(theta);
        }
        let (s, p) = skew(duty_cycle);
        let mut numer = p.neg().mul(s).mul(theta.cos()).exp();
        if !numer.is_finite() {
            numer = F::zero();
        }
        s.mul(p.tanh().recip().sub(numer.div(p.sinh())))
    }

    fn wavetable<const N: usize>(&self) -> (r: Option<Wavetable<F, N>>) {
        None
    }

    fn wavetable_with_dtc<const N: usize>(&self, duty_cycle: F) -> (r: Option<Wavetable<F, N>>) {
        if duty_cycle.eq(crate::duty_cycle_default()) {
            return None;
        }
        let (s, p) = skew(duty_cycle);
        let bound = F::from_usize(MAX_I_N);
        let x = clamp(p.neg().mul(s), bound.neg(), bound);
        let g = p.sinh().recip();
        let g2 = s.neg().mul(g.add(g));
        let a0 = s.mul(p.tanh().recip().sub(g.mul(F::bessel_i(0, x))));
        let t: Wavetable<F, N> = Wavetable::from_fn(
            a0,
            |m: usize| -> (r: (F, F))
                requires
                    m < N,
                ensures
                    r == spec_sine_pair(g2, x, m),
                { sine_pair(g2, x, m) }
        );
        proof {
            assert(t.harmonics() =~= spec_sine_table(N, g2, x));
        }
        Some(t)
    }

    proof fn lemma_wavetable_prefix(&self, m: usize, n: usize, duty_cycle: F) {
        let (s, p) = spec_skew(duty_cycle);
        let x = spec_bessel_arg(s, p);
        let g = p.spec_sinh().spec_recip();
        let g2 = s.spec_neg().spec_mul(g.spec_add(g));
        assert(spec_sine_table(m, g2, x) =~= spec_sine_table(n, g2, x).subrange(0, m as int));
    }
}

/// At duty cycle 1/2 the modulated sine is the plain one, exactly, and has
/// no table, as the plain one has none.
pub proof fn sine_half_duty_is_plain<F: Real>(theta: F, n: usize)
    requires
        F::spec_half().spec_eq(F::spec_half()),
    ensures
        spec_sine_dtc(theta, F::spec_half()) == theta.spec_cos(),
        spec_sine_dtc_table(n, F::spec_half()) is None,
{
}

} // verus!
