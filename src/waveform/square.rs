use vstd::prelude::*;

use crate::numeric::Real;
use crate::waveform::{spec_split, split, TableModel, Waveform};
use crate::wavetable::Wavetable;

verus! {

/// A square wave: -1 for the first part of each turn, +1 for the rest.
#[derive(Clone, Copy, Debug, Default, PartialEq, Eq, PartialOrd, Ord)]
pub struct Square;

/// -1 on the first half turn, +1 on the second.
pub open spec fn spec_square<F: Real>(theta: F) -> F {
    if theta.spec_rem_euclid(F::spec_tau()).spec_lt(F::spec_pi()) {
        F::spec_one().spec_neg()
    } else {
        F::spec_one()
    }
}

/// -1 before the split at `duty_cycle` (clamped to `[0, 1]`) of the turn,
/// +1 after it.
pub open spec fn spec_square_dtc<F: Real>(theta: F, duty_cycle: F) -> F {
    let d = spec_split(duty_cycle);
    if theta.spec_rem_euclid(F::spec_tau()).spec_lt(d) {
        F::spec_one().spec_neg()
    } else {
        F::spec_one()
    }
}

/// Entry `i` (harmonic `n = i + 1`) of a square wave whose split stands at
/// angle `d`: `g = 2/(nπ)`, `(-g sin(nd), g cos(nd) - g)`.
pub open spec fn spec_square_pair<F: Real>(d: F, i: usize) -> (F, F) {
    let nf = F::spec_from_usize((i + 1) as usize);
    let g = F::spec_frac_2_pi().spec_div(nf);
    let dn = d.spec_mul(nf);
    (g.spec_neg().spec_mul(dn.spec_sin()), g.spec_mul(dn.spec_cos()).spec_sub(g))
}

pub open spec fn spec_square_table<F: Real>(n: usize, a0: F, d: F) -> TableModel<F> {
    (a0, Seq::new(n as nat, |i: int| spec_square_pair(d, i as usize)))
}

fn square_pair<F: Real>(d: F, i: usize) -> (r: (F, F))
    requires
        i < usize::MAX,
    ensures
        r == spec_square_pair(d, i),
{
    let nf = F::from_usize(i + 1);
    let g = F::frac_2_pi().div(nf);
    let dn = d.mul(nf);
    (g.neg().mul(dn.sin()), g.mul(dn.cos()).sub(g))
}

impl<F: Real> Waveform<F> for Square {
    open spec fn spec_waveform(&self, theta: F, y: F) -> bool {
        y == spec_square(theta)
    }

    open spec fn spec_waveform_with_dtc(&self, theta: F, duty_cycle: F, y: F) -> bool {
        y == spec_square_dtc(theta, duty_cycle)
    }

    open spec fn spec_wavetable(&self, n: usize) -> Option<TableModel<F>> {
        Some(spec_square_table(n, F::spec_zero(), F::spec_pi()))
    }

    open spec fn spec_wavetable_with_dtc(&self, n: usize, duty_cycle: F) -> Option<TableModel<F>> {
        let d = spec_split(duty_cycle);
        Some(
            spec_square_table(
                n,
                d.spec_sub(F::spec_pi()).spec_neg().spec_div(F::spec_pi()),
                d,
            ),
        )
    }

    fn waveform(&self, theta: F) -> (y: F) {
        let one = F::one();
        let theta = theta.rem_euclid(F::tau());
        if theta.lt(F::pi()) {
            one.neg()
        } else {
            one
        }
    }

    fn waveform_with_dtc(&self, theta: F, duty_cycle: F) -> (y: F) {
        let one = F::one();
        let d = split(duty_cycle);
        let theta = theta.rem_euclid(F::tau());
        if theta.lt(d) {
            one.neg()
        } else {
            one
        }
    }

    fn wavetable<const N: usize>(&self) -> (r: Option<Wavetable<F, N>>) {
        let pi = F::pi();
        let t: Wavetable<F, N> = Wavetable::from_fn(
            F::zero(),
            |m: usize| -> (r: (F, F))
                requires
                    m < N,
                ensures
                    r == spec_square_pair(pi, m),
                { square_pair(pi, m) }
        );
        proof {
            assert(t.harmonics() =~= spec_square_table(N, F::spec_zero(), pi).1);
        }
        Some(t)
    }

    fn wavetable_with_dtc<const N: usize>(&self, duty_cycle: F) -> (r: Option<Wavetable<F, N>>) {
        let pi = F::pi();
        let d = split(duty_cycle);
        let t: Wavetable<F, N> = Wavetable::from_fn(
            d.sub(pi).neg().div(pi),
            |m: usize| -> (r: (F, F))
                requires
                    m < N,
                ensures
                    r == spec_square_pair(d, m),
                { square_pair(d, m) }
        );
        proof {
            assert(t.harmonics() =~= spec_square_table(N, t.dc(), d).1);
        }
        Some(t)
    }

    proof fn lemma_wavetable_prefix(&self, m: usize, n: usize, duty_cycle: F) {
        let d = spec_split(duty_cycle);
        assert(spec_square_table(m, F::spec_zero(), F::spec_pi()).1 =~= spec_square_table(
            n,
            F::spec_zero(),
            F::spec_pi(),
        ).1.subrange(0, m as int));
        assert(spec_square_table(m, F::spec_zero(), d).1 =~= spec_square_table(
            n,
            F::spec_zero(),
            d,
        ).1.subrange(0, m as int));
    }
}

/// Where `2π·1/2` is `π` and `1/2` lies within `[0, 1]` (as in every binary
/// floating-point format), the square at duty cycle 1/2 is the plain square,
/// exactly, and so is its table but for the DC term, which is `-(π - π)/π`.
pub proof fn square_half_duty_is_plain<F: Real>(theta: F, n: usize)
    requires
        F::spec_tau().spec_mul(F::spec_half()) == F::spec_pi(),
        !F::spec_half().spec_lt(F::spec_zero()),
        !F::spec_one().spec_lt(F::spec_half()),
    ensures
        spec_square_dtc(theta, F::spec_half()) == spec_square(theta),
        spec_square_table(n, F::spec_zero(), spec_split(F::spec_half())).1 == spec_square_table(
            n,
            F::spec_zero(),
            F::spec_pi(),
        ).1,
{
}

} // verus!
