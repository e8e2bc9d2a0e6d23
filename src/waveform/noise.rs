use vstd::prelude::*;

use crate::numeric::{clamp, spec_clamp, Real};
use crate::waveform::{TableModel, Waveform};
use crate::wavetable::Wavetable;

verus! {

/// White noise: a fresh uniform value in `[-1, 1]` at every call. Being no
/// periodic shape, it has no table.
#[derive(Clone, Copy, Debug, Default, PartialEq, Eq, PartialOrd, Ord)]
pub struct Noise;

/// `|y|^(2d)` with the sign of `y`, where `d` is the duty cycle clamped to
/// `[0, 1]`.
pub open spec fn spec_noise_shape<F: Real>(y: F, duty_cycle: F) -> F {
    let d = spec_clamp(duty_cycle, F::spec_zero(), F::spec_one());
    y.spec_abs().spec_powf(d.spec_add(d)).spec_copysign(y)
}

/// `y` lies in `[-1, 1]`.
pub open spec fn spec_unit<F: Real>(y: F) -> bool {
    F::spec_one().spec_neg().spec_le(y) && y.spec_le(F::spec_one())
}

impl Noise {
    /// Reshapes a drawn value `y` by the duty cycle `d`, clamped to `[0, 1]`:
    /// `|y|^(2d)`, sign kept. At duty cycle 1/2 the value is left as it is.
    pub fn shape<F: Real>(y: F, duty_cycle: F) -> (r: F)
        ensures
            r == spec_noise_shape(y, duty_cycle),
    {
        let d = clamp(duty_cycle, F::zero(), F::one());
        y.abs().powf(d.add(d)).copysign(y)
    }
}

impl<F: Real> Waveform<F> for Noise {
    /// Any value of `[-1, 1]` may come.
    open spec fn spec_waveform(&self, theta: F, y: F) -> bool {
        spec_unit(y)
    }

    /// Whatever value of `[-1, 1]` was drawn, the result is it reshaped by the
    /// duty cycle.
    open spec fn spec_waveform_with_dtc(&self, theta: F, duty_cycle: F, y: F) -> bool {
        exists|u: F| spec_unit(u) && y == #[trigger] spec_noise_shape(u, duty_cycle)
    }

    open spec fn spec_wavetable(&self, n: usize) -> Option<TableModel<F>> {
        None
    }

    open spec fn spec_wavetable_with_dtc(&self, n: usize, duty_cycle: F) -> Option<TableModel<F>> {
        None
    }

    fn waveform(&self, theta: F) -> (y: F) {
        let one = F::one();
        F::sample_uniform(one.neg(), one)
    }

    fn waveform_with_dtc(&self, theta: F, duty_cycle: F) -> (y: F) {
        let u = self.waveform(theta);
        let y = Noise::shape(u, duty_cycle);
        assert(y == spec_noise_shape(u, duty_cycle));
        y
    }

    fn wavetable<const N: usize>(&self) -> (r: Option<Wavetable<F, N>>) {
        None
    }

    fn wavetable_with_dtc<const N: usize>(&self, duty_cycle: F) -> (r: Option<Wavetable<F, N>>) {
        None
    }

    proof fn lemma_wavetable_prefix(&self, m: usize, n: usize, duty_cycle: F) {
    }
}

} // verus!
