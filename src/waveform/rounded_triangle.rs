use vstd::prelude::*;

use crate::numeric::Real;
use crate::waveform::triangle::spec_triangle_dtc;
use crate::waveform::{spec_split, split, TableModel, Triangle, Waveform};
use crate::wavetable::Wavetable;

verus! {

/// A rounded triangle wave: the sine of a quarter turn times the triangle.
#[derive(Clone, Copy, Debug, Default, PartialEq, Eq, PartialOrd, Ord)]
pub struct RoundedTriangle;

/// `-cos θ`
pub open spec fn spec_rounded_triangle<F: Real>(theta: F) -> F {
    theta.spec_cos().spec_neg()
}

/// `sin(π/2 · triangle(θ, duty_cycle))`
pub open spec fn spec_rounded_triangle_dtc<F: Real>(theta: F, duty_cycle: F) -> F {
    F::spec_frac_pi_2().spec_mul(spec_triangle_dtc(theta, duty_cycle)).spec_sin()
}

/// `1/((1 - q)(1 + q) + ε)` with `q = π/p/n`.
pub open spec fn spec_pole<F: Real>(p: F, n: F) -> F {
    let one = F::spec_one();
    let q = F::spec_pi().spec_div(p).spec_div(n);
    one.spec_sub(q).spec_mul(one.spec_add(q)).spec_add(F::spec_epsilon()).spec_recip()
}

/// Entry `i` (harmonic `n = i + 1`) of the rounded triangle split at angle
/// `d`: `g = (pole(d) - pole(2π - d))/n/π`, `(g sin(nd), -g cos(nd) - g)`,
/// and `(0, 0)` where `g` is not a number.
pub open spec fn spec_rounded_triangle_pair<F: Real>(d: F, i: usize) -> (F, F) {
    let pi = F::spec_pi();
    let n = F::spec_from_usize((i + 1) as usize);
    let g = spec_pole(d, n).spec_sub(spec_pole(F::spec_tau().spec_sub(d), n)).spec_div(n).spec_div(
        pi,
    );
    if g.spec_is_nan() {
        (F::spec_zero(), F::spec_zero())
    } else {
        let dn = d.spec_mul(n);
        (g.spec_mul(dn.spec_sin()), g.spec_neg().spec_mul(dn.spec_cos()).spec_sub(g))
    }
}

pub open spec fn spec_rounded_triangle_table<F: Real>(n: usize, d: F) -> Seq<(F, F)> {
    Seq::new(n as nat, |i: int| spec_rounded_triangle_pair(d, i as usize))
}

/// The table is of no use exactly where twice the duty cycle is 1; elsewhere
/// the split stands at `2π·clamp(duty_cycle, 0, 1)`.
pub open spec fn spec_rounded_triangle_dtc_table<F: Real>(n: usize, duty_cycle: F) -> Option<
    TableModel<F>,
> {
    if duty_cycle.spec_add(duty_cycle).spec_eq(F::spec_one()) {
        None
    } else {
        let d = spec_split(duty_cycle);
        Some((F::spec_zero(), spec_rounded_triangle_table(n, d)))
    }
}

fn pole<F: Real>(p: F, n: F) -> (r: F)
    ensures
        r == spec_pole(p, n),
{
    let one = F::one();
    let q = F::pi().div(p).div(n);
    one.sub(q).mul(one.add(q)).add(F::epsilon()).recip()
}

fn rounded_triangle_pair<F: Real>(d: F, i: usize) -> (r: (F, F))
    requires
        i < usize::MAX,
    ensures
        r == spec_rounded_triangle_pair(d, i),
{
    let zero = F::zero();
    let pi = F::pi();
    let n = F::from_usize(i + 1);
    let g = pole(d, n).sub(pole(F::tau().sub(d), n)).div(n).div(pi);
    if g.is_nan() {
        return (zero, zero);
    }
    let dn = d.mul(n);
    (g.mul(dn.sin()), g.neg().mul(dn.cos()).sub(g))
}

impl<F: Real> Waveform<F> for RoundedTriangle {
    open spec fn spec_waveform(&self, theta: F, y: F) -> bool {
        y == spec_rounded_triangle(theta)
    }

    open spec fn spec_waveform_with_dtc(&self, theta: F, duty_cycle: F, y: F) -> bool {
        y == spec_rounded_triangle_dtc(theta, duty_cycle)
    }

    open spec fn spec_wavetable(&self, n: usize) -> Option<TableModel<F>> {
        None
    }

    open spec fn spec_wavetable_with_dtc(&self, n: usize, duty_cycle: F) -> Option<TableModel<F>> {
        spec_rounded_triangle_dtc_table(n, duty_cycle)
    }

    fn waveform(&self, theta: F) -> (y: F) {
        theta.cos().neg()
    }

    fn waveform_with_dtc(&self, theta: F, duty_cycle: F) -> (y: F) {
        F::frac_pi_2().mul(Triangle.waveform_with_dtc(theta, duty_cycle)).sin()
    }

    fn wavetable<const N: usize>(&self) -> (r: Option<Wavetable<F, N>>) {
        None
    }

    fn wavetable_with_dtc<const N: usize>(&self, duty_cycle: F) -> (r: Option<Wavetable<F, N>>) {
        let zero = F::zero();
        let one = F::one();
        if duty_cycle.add(duty_cycle).eq(one) {
            return None;
        }
        let d = split(duty_cycle);
        let t: Wavetable<F, N> = Wavetable::from_fn(
            zero,
            |m: usize| -> (r: (F, F))
                requires
                    m < N,
                ensures
                    r == spec_rounded_triangle_pair(d, m),
                { rounded_triangle_pair(d, m) }
        );
        proof {
            assert(t.harmonics() =~= spec_rounded_triangle_table(N, d));
        }
        Some(t)
    }

    proof fn lemma_wavetable_prefix(&self, m: usize, n: usize, duty_cycle: F) {
        let d = spec_split(duty_cycle);
        assert(spec_rounded_triangle_table(m, d) =~= spec_rounded_triangle_table(n, d).subrange(
            0,
            m as int,
        ));
    }
}

} // verus!
