use vstd::prelude::*;

use crate::numeric::Real;
use crate::oscillator::wave_dtc::WaveDTC;
use crate::oscillator::{silent, spec_silent, Direct};
use crate::waveform::Waveform;

verus! {

/// The state that evaluates the shape, modulated by its own duty cycle,
/// directly at every sample.
#[derive(Clone, Copy, Debug, Default, PartialEq, Eq, PartialOrd, Ord)]
pub struct DirectDTC<F, W> {
    pub waveform: W,
    pub duty_cycle: F,
}

impl<F, W> DirectDTC<F, W> {
    pub fn duty_cycle(&self) -> (r: &F)
        ensures
            *r == self.duty_cycle,
    {
        &self.duty_cycle
    }

    pub fn waveform(&self) -> (r: &W)
        ensures
            *r == self.waveform,
    {
        &self.waveform
    }

    pub fn waveform_mut(&mut self) -> (r: &mut W)
        ensures
            *r == old(self).waveform,
            final(self).waveform == *final(r),
            final(self).duty_cycle == old(self).duty_cycle,
    {
        &mut self.waveform
    }

    /// The same shape at `duty_cycle` instead.
    pub fn with_dtc(self, duty_cycle: F) -> (r: Self)
        ensures
            r.waveform == self.waveform,
            r.duty_cycle == duty_cycle,
    {
        DirectDTC { waveform: self.waveform, duty_cycle }
    }

    /// `waveform` in place of the shape, at the same duty cycle.
    pub fn with_waveform<V>(self, waveform: V) -> (r: DirectDTC<F, V>)
        ensures
            r.waveform == waveform,
            r.duty_cycle == self.duty_cycle,
    {
        DirectDTC { waveform, duty_cycle: self.duty_cycle }
    }

    /// The plain shape; the duty cycle is dropped.
    pub fn without_dtc(self) -> (r: Direct<W>)
        ensures
            r.waveform == self.waveform,
    {
        Direct { waveform: self.waveform }
    }

    /// The same modulated shape, with an empty cache of `M` harmonics.
    pub fn with_wavetable<const M: usize>(self) -> (r: WaveDTC<F, W, M>)
        ensures
            r.view_waveform() == self.waveform,
            r.view_duty_cycle() == self.duty_cycle,
            r.view_cache() is Absent,
    {
        WaveDTC::new(self.waveform, self.duty_cycle)
    }

    /// The shape that `f` makes of this one, at the same duty cycle.
    pub fn map_waveform<V>(self, f: impl FnOnce(W) -> V) -> (r: DirectDTC<F, V>)
        requires
            call_requires(f, (self.waveform,)),
        ensures
            call_ensures(f, (self.waveform,), r.waveform),
            r.duty_cycle == self.duty_cycle,
    {
        DirectDTC { waveform: f(self.waveform), duty_cycle: self.duty_cycle }
    }
}

impl<F: Real, W: Waveform<F>> DirectDTC<F, W> {
    /// Silence where `π·rate ≤ ω`, else the modulated shape's value at `theta`.
    pub fn next(&mut self, theta: F, omega: F, rate: F) -> (y: F)
        ensures
            *final(self) == *old(self),
            spec_silent(omega, rate) ==> y == F::spec_zero(),
            !spec_silent(omega, rate) ==> old(self).waveform.spec_waveform_with_dtc(
                theta,
                old(self).duty_cycle,
                y,
            ),
    {
        if silent(omega, rate) {
            return F::zero();
        }
        self.waveform.waveform_with_dtc(theta, self.duty_cycle)
    }
}

} // verus!
