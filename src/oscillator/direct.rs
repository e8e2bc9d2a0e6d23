use vstd::prelude::*;

use crate::numeric::Real;
use crate::oscillator::{silent, spec_silent, Cache, DirectDTC};
use crate::oscillator::wave::Wave;
use crate::waveform::Waveform;

verus! {

/// The state that evaluates the plain shape directly at every sample.
#[derive(Clone, Copy, Debug, Default, PartialEq, Eq, PartialOrd, Ord)]
pub struct Direct<W> {
    pub waveform: W,
}

impl<W> Direct<W> {
    pub fn new(waveform: W) -> (r: Self)
        ensures
            r.waveform == waveform,
    {
        Direct { waveform }
    }

    /// Silence where `π·rate ≤ ω`, else the shape's value at `theta`.
    pub fn next<F: Real>(&mut self, theta: F, omega: F, rate: F) -> (y: F) where W: Waveform<F>
        ensures
            *final(self) == *old(self),
            spec_silent(omega, rate) ==> y == F::spec_zero(),
            !spec_silent(omega, rate) ==> old(self).waveform.spec_waveform(theta, y),
    {
        if silent(omega, rate) {
            return F::zero();
        }
        self.waveform.waveform(theta)
    }

    pub fn waveform(&self) -> (r: &W)
        ensures
            *r == self.waveform,
    {
        &self.waveform
    }

    pub fn waveform_mut(&mut self) -> (r: &mut W)
        ensures
            *r == old(self).waveform,
            final(self).waveform == *final(r),
    {
        &mut self.waveform
    }

    /// The same shape, modulated by `duty_cycle`.
    pub fn with_dtc<F: Real>(self, duty_cycle: F) -> (r: DirectDTC<F, W>)
        ensures
            r.waveform == self.waveform,
            r.duty_cycle == duty_cycle,
    {
        DirectDTC { waveform: self.waveform, duty_cycle }
    }

    /// The same shape, with an empty cache of `M` harmonics.
    pub fn with_wavetable<F: Real, const M: usize>(self) -> (r: Wave<F, W, M>)
        ensures
            r.view_waveform() == self.waveform,
            r.view_cache() is Absent,
    {
        Wave::new(self.waveform)
    }

    /// The shape that `f` makes of this one.
    pub fn map_waveform<V>(self, f: impl FnOnce(W) -> V) -> (r: Direct<V>)
        requires
            call_requires(f, (self.waveform,)),
        ensures
            call_ensures(f, (self.waveform,), r.waveform),
    {
        Direct { waveform: f(self.waveform) }
    }
}

} // verus!
