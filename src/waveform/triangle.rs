use vstd::prelude::*;

use crate::numeric::Real;
use crate::waveform::{spec_split, split, TableModel, Waveform};
use crate::wavetable::Wavetable;

verus! {

/// A triangle wave: a linear rise to the split point, a linear fall after it.
#[derive(Clone, Copy, Debug, Default, PartialEq, Eq, PartialOrd, Ord)]
pub struct Triangle;

/// `(π - |2t - 2π|)/π` over `t = θ mod 2π`.
pub open spec fn spec_triangle<F: Real>(theta: F) -> F {
    let pi = F::spec_pi();
    let tau = F::spec_tau();
    let t = theta.spec_rem_euclid(tau);
    pi.spec_sub(t.spec_add(t).spec_sub(tau).spec_abs()).spec_div(pi)
}

/// With `d` the split angle and `t = θ mod 2π`: `(2t - d)/d` before the
/// split, `(2π + d - 2t)/(2π - d)` after it.
pub open spec fn spec_triangle_dtc<F: Real>(theta: F, duty_cycle: F) -> F {
    let tau = F::spec_tau();
    let d = spec_split(duty_cycle);
    let t = theta.spec_rem_euclid(tau);
    let tt = t.spec_add(t);
    if t.spec_lt(d) {
        tt.spec_sub(d).spec_div(d)
    } else {
        tau.spec_add(d).spec_sub(tt).spec_div(tau.spec_sub(d))
    }
}

/// Entry `i` (harmonic `n = i + 1`) of a triangle with gain `g0` whose
/// turning point stands at angle `d`: `g = g0/n²`, `(g cos(nd) - g, g sin(nd))`.
pub open spec fn spec_triangle_pair<F: Real>(g0: F, d: F, i: usize) -> (F, F) {
    let n = F::spec_from_usize((i + 1) as usize);
    let g = g0.spec_div(n).spec_div(n);
    let dn = d.spec_mul(n);
    (g.spec_mul(dn.spec_cos()).spec_sub(g), g.spec_mul(dn.spec_sin()))
}

pub open spec fn spec_triangle_table<F: Real>(n: usize, g0: F, d: F) -> Seq<(F, F)> {
    Seq::new(n as nat, |i: int| spec_triangle_pair(g0, d, i as usize))
}

/// Entry `i` (harmonic `n = i + 1`) of the flat limit of the triangle at duty
/// cycle 0 or 1: `(0, g/n)`.
pub open spec fn spec_flat_pair<F: Real>(g: F, i: usize) -> (F, F) {
    (F::spec_zero(), g.spec_div(F::spec_from_usize((i + 1) as usize)))
}

pub open spec fn spec_flat_table<F: Real>(n: usize, g: F) -> Seq<(F, F)> {
    Seq::new(n as nat, |i: int| spec_flat_pair(g, i as usize))
}

/// The gain `4/((2π - d) d)` of a triangle split at angle `d`.
pub open spec fn spec_triangle_gain<F: Real>(d: F) -> F {
    let two = F::spec_one().spec_add(F::spec_one());
    two.spec_add(two).spec_div(F::spec_tau().spec_sub(d)).spec_div(d)
}

/// The table of `n` harmonics of the triangle at `duty_cycle`: exact flat
/// limits at and within one epsilon of 0 and of 1, else the triangle split
/// at `2π·duty_cycle`.
pub open spec fn spec_triangle_dtc_table<F: Real>(n: usize, duty_cycle: F) -> Seq<(F, F)> {
    let eps = F::spec_epsilon();
    if duty_cycle.spec_le(eps) {
        spec_flat_table(n, F::spec_frac_2_pi())
    } else if F::spec_one().spec_sub(eps).spec_le(duty_cycle) {
        spec_flat_table(n, F::spec_frac_2_pi().spec_neg())
    } else {
        let d = F::spec_tau().spec_mul(duty_cycle);
        spec_triangle_table(n, spec_triangle_gain(d), d)
    }
}

fn triangle_pair<F: Real>(g0: F, d: F, i: usize) -> (r: (F, F))
    requires
        i < usize::MAX,
    ensures
        r == spec_triangle_pair(g0, d, i),
{
    let n = F::from_usize(i + 1);
    let g = g0.div(n).div(n);
    let dn = d.mul(n);
    (g.mul(dn.cos()).sub(g), g.mul(dn.sin()))
}

fn flat_table<F: Real, const N: usize>(g: F) -> (r: Wavetable<F, N>)
    ensures
        r.wf(),
        r.dc() == F::spec_zero(),
        r.harmonics() == spec_flat_table(N, g),
{
    let t: Wavetable<F, N> = Wavetable::from_fn(
        F::zero(),
        |m: usize| -> (r: (F, F))
            requires
                m < N,
            ensures
                r == spec_flat_pair(g, m),
            { (F::zero(), g.div(F::from_usize(m + 1))) }
    );
    proof {
        assert(t.harmonics() =~= spec_flat_table(N, g));
    }
    t
}

fn triangle_table<F: Real, const N: usize>(g0: F, d: F) -> (r: Wavetable<F, N>)
    ensures
        r.wf(),
        r.dc() == F::spec_zero(),
        r.harmonics() == spec_triangle_table(N, g0, d),
{
    let t: Wavetable<F, N> = Wavetable::from_fn(
        F::zero(),
        |m: usize| -> (r: (F, F))
            requires
                m < N,
            ensures
                r == spec_triangle_pair(g0, d, m),
            { triangle_pair(g0, d, m) }
    );
    proof {
        assert(t.harmonics() =~= spec_triangle_table(N, g0, d));
    }
    t
}

impl<F: Real> Waveform<F> for Triangle {
    open spec fn spec_waveform(&self, theta: F, y: F) -> bool {
        y == spec_triangle(theta)
    }

    open spec fn spec_waveform_with_dtc(&self, theta: F, duty_cycle: F, y: F) -> bool {
        y == spec_triangle_dtc(theta, duty_cycle)
    }

    open spec fn spec_wavetable(&self, n: usize) -> Option<TableModel<F>> {
        let g0 = F::spec_frac_2_pi().spec_mul(F::spec_frac_2_pi());
        Some((F::spec_zero(), spec_triangle_table(n, g0, F::spec_pi())))
    }

    open spec fn spec_wavetable_with_dtc(&self, n: usize, duty_cycle: F) -> Option<TableModel<F>> {
        Some((F::spec_zero(), spec_triangle_dtc_table(n, duty_cycle)))
    }

    fn waveform(&self, theta: F) -> (y: F) {
        let pi = F::pi();
        let tau = F::tau();
        let theta = theta.rem_euclid(tau);
        let two_theta = theta.add(theta);
        pi.sub(two_theta.sub(tau).abs()).div(pi)
    }

    fn waveform_with_dtc(&self, theta: F, duty_cycle: F) -> (y: F) {
        let tau = F::tau();
        let d = split(duty_cycle);
        let theta = theta.rem_euclid(tau);
        let two_theta = theta.add(theta);
        if theta.lt(d) {
            two_theta.sub(d).div(d)
        } else {
            tau.add(d).sub(two_theta).div(tau.sub(d))
        }
    }

    fn wavetable<const N: usize>(&self) -> (r: Option<Wavetable<F, N>>) {
        let frac_2_pi = F::frac_2_pi();
        Some(triangle_table(frac_2_pi.mul(frac_2_pi), F::pi()))
    }

    fn wavetable_with_dtc<const N: usize>(&self, duty_cycle: F) -> (r: Option<Wavetable<F, N>>) {
        let one = F::one();
        let two = one.add(one);
        let four = two.add(two);
        let eps = F::epsilon();
        let tau = F::tau();
        let frac_2_pi = F::frac_2_pi();

        if duty_cycle.le(eps) {
            return Some(flat_table(frac_2_pi));
        }
        if one.sub(eps).le(duty_cycle) {
            return Some(flat_table(frac_2_pi.neg()));
        }
        let d = tau.mul(duty_cycle);
        let g0 = four.div(tau.sub(d)).div(d);
        Some(triangle_table(g0, d))
    }

    proof fn lemma_wavetable_prefix(&self, m: usize, n: usize, duty_cycle: F) {
        let g0 = F::spec_frac_2_pi().spec_mul(F::spec_frac_2_pi());
        let pi = F::spec_pi();
        assert(spec_triangle_table(m, g0, pi) =~= spec_triangle_table(n, g0, pi).subrange(0, m as int));
        assert(spec_triangle_dtc_table(m, duty_cycle) =~= spec_triangle_dtc_table(n, duty_cycle).subrange(
            0,
            m as int,
        ));
    }
}

} // verus!
