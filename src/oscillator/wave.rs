use vstd::prelude::*;

use crate::numeric::Real;
use crate::oscillator::wave_dtc::WaveDTC;
use crate::oscillator::{
    cached_value, harmonic_limit, silent, spec_coherent, spec_silent, spec_table_value,
    spec_up_to, spec_uses_table, Cache, Direct,
};
use crate::waveform::Waveform;
use crate::wavetable::{spec_truncate, Wavetable, WavetableView};

verus! {

/// The state that evaluates the plain shape through a lazily built table of
/// `N` harmonics wherever the table holds every harmonic below Nyquist.
#[derive(Clone, Debug)]
pub struct Wave<F, W, const N: usize> {
    waveform: W,
    wavetable: Cache<F, N>,
}

impl<F, W, const N: usize> Wave<F, W, N> {
    pub closed spec fn view_waveform(&self) -> W {
        self.waveform
    }

    pub closed spec fn view_cache(&self) -> Cache<F, N> {
        self.wavetable
    }

    /// The state of `waveform`, with an empty cache.
    pub fn new(waveform: W) -> (r: Self)
        ensures
            r.view_waveform() == waveform,
            r.view_cache() is Absent,
    {
        Wave { waveform, wavetable: Cache::Absent }
    }

    pub fn waveform(&self) -> (r: &W)
        ensures
            *r == self.view_waveform(),
    {
        &self.waveform
    }

    /// Empties the cache.
    pub fn delete_cache(&mut self)
        ensures
            final(self).view_waveform() == old(self).view_waveform(),
            final(self).view_cache() is Absent,
    {
        self.wavetable = Cache::Absent;
    }

    /// Mutable access to the shape; the cache is emptied first, so that no
    /// table of the former shape survives.
    pub fn waveform_mut(&mut self) -> (r: &mut W)
        ensures
            *r == old(self).view_waveform(),
            final(self).view_waveform() == *final(r),
            final(self).view_cache() is Absent,
    {
        self.wavetable = Cache::Absent;
        &mut self.waveform
    }

    /// The same shape without a cache.
    pub fn without_wavetable(self) -> (r: Direct<W>)
        ensures
            r.waveform == self.view_waveform(),
    {
        Direct { waveform: self.waveform }
    }

    /// The same shape modulated by `duty_cycle`; no table survives.
    pub fn with_dtc(self, duty_cycle: F) -> (r: WaveDTC<F, W, N>)
        ensures
            r.view_waveform() == self.view_waveform(),
            r.view_duty_cycle() == duty_cycle,
            r.view_cache() is Absent,
    {
        WaveDTC::new(self.waveform, duty_cycle)
    }

    /// The shape that `f` makes of this one, with an empty cache.
    pub fn map_waveform<V>(self, f: impl FnOnce(W) -> V) -> (r: Wave<F, V, N>)
        requires
            call_requires(f, (self.view_waveform(),)),
        ensures
            call_ensures(f, (self.view_waveform(),), r.view_waveform()),
            r.view_cache() is Absent,
    {
        Wave::new(f(self.waveform))
    }
}

impl<F: Real, W: Waveform<F>, const N: usize> Wave<F, W, N> {
    /// The cache holds nothing stale.
    pub open spec fn wf(&self) -> bool {
        spec_coherent(self.view_cache(), self.view_waveform().spec_wavetable(N))
    }

    /// One sample at `theta`: silence where `π·rate ≤ ω`; the table, built
    /// once where absent, where it holds every harmonic below Nyquist and gives
    /// a finite value; the direct formula otherwise.
    pub fn next(&mut self, theta: F, omega: F, rate: F) -> (y: F)
        requires
            old(self).wf(),
        ensures
            final(self).wf(),
            final(self).view_waveform() == old(self).view_waveform(),
            spec_silent(omega, rate) ==> y == F::spec_zero() && *final(self) == *old(self),
            !spec_silent(omega, rate) && !spec_uses_table(omega, rate, N) ==> *final(self)
                == *old(self) && old(self).view_waveform().spec_waveform(theta, y),
            !spec_silent(omega, rate) && spec_uses_table(omega, rate, N) ==> {
                &&& final(self).view_cache() !is Absent
                &&& old(self).view_cache() !is Absent ==> *final(self) == *old(self)
                &&& match spec_table_value(
                    old(self).view_waveform().spec_wavetable(N),
                    theta,
                    spec_up_to(omega, rate).unwrap(),
                ) {
                    Some(v) => y == v,
                    None => old(self).view_waveform().spec_waveform(theta, y),
                }
            },
    {
        if silent(omega, rate) {
            return F::zero();
        }
        if N != 0 {
            let limit = harmonic_limit(omega, rate);
            let up_to: usize = match limit {
                Some(k) => k,
                None => 0,
            };
            if limit.is_some() && up_to <= N {
                if let Cache::Absent = self.wavetable {
                    let built: Option<Wavetable<F, N>> = self.waveform.wavetable();
                    self.wavetable = match built {
                        Some(t) => Cache::Present(t),
                        None => Cache::Failed,
                    };
                }
                if let Some(y) = cached_value(&self.wavetable, theta, up_to) {
                    return y;
                }
            }
        }
        self.waveform.waveform(theta)
    }

    /// The duty cycle of the plain shape, 1/2.
    pub fn duty_cycle(&self) -> (r: F)
        ensures
            r == F::spec_half(),
    {
        crate::duty_cycle_default()
    }

    /// Read access to the cached table, where one was built.
    pub fn wavetable(&self) -> (r: Option<WavetableView<'_, F>>)
        ensures
            r is Some <==> self.view_cache() is Present,
            self.view_cache() matches Cache::Present(t) ==> *r.unwrap().a0 == t.dc()
                && r.unwrap().ab@ == t.harmonics(),
    {
        match &self.wavetable {
            Cache::Present(t) => Some(t.view()),
            _ => None,
        }
    }

    /// The same state with a cache of `M` harmonics: a present table is cut
    /// down to its first `M` where it holds that many, else the cache starts
    /// empty.
    pub fn with_wavetable<const M: usize>(self) -> (r: Wave<F, W, M>)
        requires
            self.wf(),
        ensures
            r.wf(),
            r.view_waveform() == self.view_waveform(),
            self.view_cache() is Absent ==> r.view_cache() is Absent,
            self.view_cache() is Failed ==> r.view_cache() is Failed,
            self.view_cache() matches Cache::Present(t) ==> (if M <= N {
                r.view_cache() matches Cache::Present(u) && u.dc() == t.dc() && Some(u.harmonics())
                    == spec_truncate(t.harmonics(), M as nat)
            } else {
                r.view_cache() is Absent
            }),
    {
        proof {
            if M <= N {
                self.waveform.lemma_wavetable_prefix(M, N, F::spec_zero());
            } else {
                self.waveform.lemma_wavetable_prefix(N, M, F::spec_zero());
            }
        }
        let wavetable = match self.wavetable {
            Cache::Absent => Cache::Absent,
            Cache::Failed => Cache::Failed,
            Cache::Present(t) => match t.truncate::<M>() {
                Some(u) => Cache::Present(u),
                None => Cache::Absent,
            },
        };
        Wave { waveform: self.waveform, wavetable }
    }
}

} // verus!
