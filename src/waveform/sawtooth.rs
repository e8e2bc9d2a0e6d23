use vstd::prelude::*;

use crate::numeric::Real;
use crate::waveform::{spec_split, split, TableModel, Waveform};
use crate::wavetable::Wavetable;

verus! {

/// A sawtooth wave: a linear ramp from -1 to +1, reset at the split point.
#[derive(Clone, Copy, Debug, Default, PartialEq, Eq, PartialOrd, Ord)]
pub struct Sawtooth;

/// The ramp `(t - π/2)/(π/2)` over `t = θ mod π`.
pub open spec fn spec_sawtooth<F: Real>(theta: F) -> F {
    let h = F::spec_frac_pi_2();
    theta.spec_rem_euclid(F::spec_pi()).spec_sub(h).spec_div(h)
}

/// With `d` the split angle and `t = θ mod 2π`: `(2t - d)/d` before the
/// split, `(2t - d - 2π)/(2π - d)` after it.
pub open spec fn spec_sawtooth_dtc<F: Real>(theta: F, duty_cycle: F) -> F {
    let tau = F::spec_tau();
    let d = spec_split(duty_cycle);
    let t = theta.spec_rem_euclid(tau);
    let tt = t.spec_add(t);
    if t.spec_lt(d) {
        tt.spec_sub(d).spec_div(d)
    } else {
        tt.spec_sub(d).spec_sub(tau).spec_div(tau.spec_sub(d))
    }
}

/// Entry `i` (harmonic `n = i + 1`) of the plain sawtooth:
/// `g = 2/(nπ)`, `(g sin(nπ), -g - g cos(nπ))`.
pub open spec fn spec_sawtooth_pair<F: Real>(i: usize) -> (F, F) {
    let n = F::spec_from_usize((i + 1) as usize);
    let g1 = F::spec_frac_2_pi().spec_div(n);
    let dn = F::spec_pi().spec_mul(n);
    (g1.spec_mul(dn.spec_sin()), g1.spec_neg().spec_sub(g1.spec_mul(dn.spec_cos())))
}

/// The guarded term `(1/d - 1/(2π - d))/n`, zero where it is not a number.
pub open spec fn spec_sawtooth_g2<F: Real>(d: F, n: F) -> F {
    let g2 = d.spec_recip().spec_sub(F::spec_tau().spec_sub(d).spec_recip()).spec_div(n);
    if g2.spec_is_nan() {
        F::spec_zero()
    } else {
        g2
    }
}

/// Entry `i` (harmonic `n = i + 1`) of the sawtooth split at angle `d`:
/// `(0, -g)` with `g = 2/(nπ)` where the split is at 0 or 2π, else
/// `(g (g2 cos(nd) - g2 + sin(nd)), g (g2 sin(nd) - 1 - cos(nd)))`.
pub open spec fn spec_sawtooth_dtc_pair<F: Real>(d: F, i: usize) -> (F, F) {
    let n = F::spec_from_usize((i + 1) as usize);
    let g1 = F::spec_frac_2_pi().spec_div(n);
    if d.spec_eq(F::spec_zero()) || d.spec_eq(F::spec_tau()) {
        (F::spec_zero(), g1.spec_neg())
    } else {
        let g2 = spec_sawtooth_g2(d, n);
        let dn = d.spec_mul(n);
        (
            g1.spec_mul(g2.spec_mul(dn.spec_cos()).spec_sub(g2).spec_add(dn.spec_sin())),
            g1.spec_mul(g2.spec_mul(dn.spec_sin()).spec_sub(F::spec_one()).spec_sub(dn.spec_cos())),
        )
    }
}

pub open spec fn spec_sawtooth_table<F: Real>(n: usize) -> Seq<(F, F)> {
    Seq::new(n as nat, |i: int| spec_sawtooth_pair::<F>(i as usize))
}

pub open spec fn spec_sawtooth_dtc_table<F: Real>(n: usize, d: F) -> Seq<(F, F)> {
    Seq::new(n as nat, |i: int| spec_sawtooth_dtc_pair(d, i as usize))
}

fn sawtooth_pair<F: Real>(i: usize) -> (r: (F, F))
    requires
        i < usize::MAX,
    ensures
        r == spec_sawtooth_pair::<F>(i),
{
    let n = F::from_usize(i + 1);
    let g1 = F::frac_2_pi().div(n);
    let dn = F::pi().mul(n);
    (g1.mul(dn.sin()), g1.neg().sub(g1.mul(dn.cos())))
}

fn sawtooth_dtc_pair<F: Real>(d: F, i: usize) -> (r: (F, F))
    requires
        i < usize::MAX,
    ensures
        r == spec_sawtooth_dtc_pair(d, i),
{
    let zero = F::zero();
    let one = F::one();
    let tau = F::tau();
    let n = F::from_usize(i + 1);
    let g1 = F::frac_2_pi().div(n);
    if d.eq(zero) || d.eq(tau) {
        return (zero, g1.neg());
    }
    let mut g2 = d.recip().sub(tau.sub(d).recip()).div(n);
    if g2.is_nan() {
        g2 = zero;
    }
    let dn = d.mul(n);
    (g1.mul(g2.mul(dn.cos()).sub(g2).add(dn.sin())), g1.mul(g2.mul(dn.sin()).sub(one).sub(dn.cos())))
}

impl<F: Real> Waveform<F> for Sawtooth {
    open spec fn spec_waveform(&self, theta: F, y: F) -> bool {
        y == spec_sawtooth(theta)
    }

    open spec fn spec_waveform_with_dtc(&self, theta: F, duty_cycle: F, y: F) -> bool {
        y == spec_sawtooth_dtc(theta, duty_cycle)
    }

    open spec fn spec_wavetable(&self, n: usize) -> Option<TableModel<F>> {
        Some((F::spec_zero(), spec_sawtooth_table::<F>(n)))
    }

    open spec fn spec_wavetable_with_dtc(&self, n: usize, duty_cycle: F) -> Option<TableModel<F>> {
        let d = spec_split(duty_cycle);
        Some((F::spec_zero(), spec_sawtooth_dtc_table(n, d)))
    }

    fn waveform(&self, theta: F) -> (y: F) {
        let h = F::frac_pi_2();
        let theta = theta.rem_euclid(F::pi());
        theta.sub(h).div(h)
    }

    fn waveform_with_dtc(&self, theta: F, duty_cycle: F) -> (y: F) {
        let tau = F::tau();
        let d = split(duty_cycle);
        let theta = theta.rem_euclid(tau);
        let two_theta = theta.add(theta);
        if theta.lt(d) {
            two_theta.sub(d).div(d)
        } else {
            two_theta.sub(d).sub(tau).div(tau.sub(d))
        }
    }

    fn wavetable<const N: usize>(&self) -> (r: Option<Wavetable<F, N>>) {
        let t: Wavetable<F, N> = Wavetable::from_fn(
            F::zero(),
            |m: usize| -> (r: (F, F))
                requires
                    m < N,
                ensures
                    r == spec_sawtooth_pair::<F>(m),
                { sawtooth_pair(m) }
        );
        proof {
            assert(t.harmonics() =~= spec_sawtooth_table::<F>(N));
        }
        Some(t)
    }

    fn wavetable_with_dtc<const N: usize>(&self, duty_cycle: F) -> (r: Option<Wavetable<F, N>>) {
        let d = split(duty_cycle);
        let t: Wavetable<F, N> = Wavetable::from_fn(
            F::zero(),
            |m: usize| -> (r: (F, F))
                requires
                    m < N,
                ensures
                    r == spec_sawtooth_dtc_pair(d, m),
                { sawtooth_dtc_pair(d, m) }
        );
        proof {
            assert(t.harmonics() =~= spec_sawtooth_dtc_table(N, d));
        }
        Some(t)
    }

    proof fn lemma_wavetable_prefix(&self, m: usize, n: usize, duty_cycle: F) {
        let d = spec_split(duty_cycle);
        assert(spec_sawtooth_table::<F>(m) =~= spec_sawtooth_table::<F>(n).subrange(0, m as int));
        assert(spec_sawtooth_dtc_table(m, d) =~= spec_sawtooth_dtc_table(n, d).subrange(0, m as int));
    }
}

} // verus!
