use vstd::prelude::*;

use crate::numeric::Real;
use crate::waveform::{TableModel, Waveform};
use crate::wavetable::{spec_evaluate, spec_truncate, Wavetable, WavetableView};

pub mod direct;
pub mod direct_dtc;
pub mod wave;
pub mod wave_dtc;

pub use direct::Direct;
pub use direct_dtc::DirectDTC;
pub use wave::Wave;
pub use wave_dtc::WaveDTC;

verus! {

/// The Nyquist limit `π·rate`, in angular frequency.
pub open spec fn spec_nyquist<F: Real>(rate: F) -> F {
    F::spec_pi().spec_mul(rate)
}

/// `π·rate ≤ ω`: the frequency cannot be represented at this rate, and the
/// output is silence.
pub open spec fn spec_silent<F: Real>(omega: F, rate: F) -> bool {
    spec_nyquist(rate).spec_le(omega)
}

/// The number of harmonics that stay below Nyquist, `⌊|π·rate/ω|⌋`, where
/// that is a `usize`; where it is none (ω is zero, the count is too large or
/// not a number) there are more than any table holds.
pub open spec fn spec_up_to<F: Real>(omega: F, rate: F) -> Option<usize> {
    spec_nyquist(rate).spec_div(omega).spec_abs().spec_to_usize()
}

/// A table of capacity `n` holds every harmonic below Nyquist, so that it
/// and not the direct formula gives the sample.
pub open spec fn spec_uses_table<F: Real>(omega: F, rate: F, n: usize) -> bool {
    n != 0 && (spec_up_to(omega, rate) matches Some(k) && k <= n)
}

/// The value at `theta` of the table that `model` describes, limited to
/// `up_to` harmonics; `None` where there is no table or the value is not
/// finite.
pub open spec fn spec_table_value<F: Real>(model: Option<TableModel<F>>, theta: F, up_to: usize) -> Option<F> {
    match model {
        Some(m) => spec_evaluate(m.0, m.1, theta, up_to as nat),
        None => None,
    }
}

/// Whether the frequency is at or above Nyquist for this rate.
pub fn silent<F: Real>(omega: F, rate: F) -> (r: bool)
    ensures
        r == spec_silent(omega, rate),
{
    F::pi().mul(rate).le(omega)
}

/// The number of harmonics below Nyquist, where it is a `usize`.
pub fn harmonic_limit<F: Real>(omega: F, rate: F) -> (r: Option<usize>)
    ensures
        r == spec_up_to(omega, rate),
{
    F::pi().mul(rate).div(omega).abs().to_usize()
}

/// The lazily built harmonic table of a cached state: not built yet, built
/// and found to have no closed form, or built.
#[derive(Clone, Debug)]
pub enum Cache<F, const N: usize> {
    Absent,
    Failed,
    Present(Wavetable<F, N>),
}

/// The cache holds nothing stale: what it holds is what the generator gives
/// now for the `model` of the current waveform and duty cycle.
pub open spec fn spec_coherent<F: Real, const N: usize>(cache: Cache<F, N>, model: Option<TableModel<F>>) -> bool {
    match cache {
        Cache::Absent => true,
        Cache::Failed => model is None,
        Cache::Present(t) => model is Some && t.wf() && t.dc() == model.unwrap().0 && t.harmonics()
            == model.unwrap().1,
    }
}

/// The value of a present table at `theta`, limited to `up_to` harmonics.
pub fn cached_value<F: Real, const N: usize>(cache: &Cache<F, N>, theta: F, up_to: usize) -> (r: Option<F>)
    requires
        cache matches Cache::Present(t) ==> t.wf(),
    ensures
        r == (match *cache {
            Cache::Present(t) => spec_evaluate(t.dc(), t.harmonics(), theta, up_to as nat),
            _ => None,
        }),
{
    match cache {
        Cache::Present(t) => t.waveform(theta, up_to),
        _ => None,
    }
}

/// The four shapes of oscillator state: direct or through a cached table,
/// each with or without a duty cycle of its own. States change only by the
/// conversions below, each of which drops what could have gone stale.
#[derive(Clone, Debug)]
pub enum OscillatorState<F, W, const N: usize> {
    Direct(Direct<W>),
    DirectDTC(DirectDTC<F, W>),
    Wave(Wave<F, W, N>),
    WaveDTC(WaveDTC<F, W, N>),
}

impl<F, W, const N: usize> OscillatorState<F, W, N> {
    pub open spec fn view_waveform(self) -> W {
        match self {
            OscillatorState::Direct(s) => s.waveform,
            OscillatorState::DirectDTC(s) => s.waveform,
            OscillatorState::Wave(s) => s.view_waveform(),
            OscillatorState::WaveDTC(s) => s.view_waveform(),
        }
    }

    /// The state carries a duty cycle of its own.
    pub open spec fn has_dtc(self) -> bool {
        self is DirectDTC || self is WaveDTC
    }

    /// The state carries a table cache.
    pub open spec fn has_wavetable(self) -> bool {
        self is Wave || self is WaveDTC
    }

    /// The state holds no table.
    pub open spec fn cache_empty(self) -> bool {
        match self {
            OscillatorState::Wave(s) => s.view_cache() is Absent,
            OscillatorState::WaveDTC(s) => s.view_cache() is Absent,
            _ => true,
        }
    }

    /// The cache, where the state has one.
    pub open spec fn view_cache(self) -> Option<Cache<F, N>> {
        match self {
            OscillatorState::Wave(s) => Some(s.view_cache()),
            OscillatorState::WaveDTC(s) => Some(s.view_cache()),
            _ => None,
        }
    }

    /// `other` has the same shape of state as `self`.
    pub open spec fn same_kind<V, const M: usize>(self, other: OscillatorState<F, V, M>) -> bool {
        self.has_dtc() == other.has_dtc() && self.has_wavetable() == other.has_wavetable()
    }

    pub fn waveform(&self) -> (r: &W)
        ensures
            *r == self.view_waveform(),
    {
        match self {
            OscillatorState::Direct(s) => s.waveform(),
            OscillatorState::DirectDTC(s) => s.waveform(),
            OscillatorState::Wave(s) => s.waveform(),
            OscillatorState::WaveDTC(s) => s.waveform(),
        }
    }

    /// Empties the cache, where there is one.
    pub fn delete_cache(&mut self)
        ensures
            final(self).same_kind(*old(self)),
            final(self).view_waveform() == old(self).view_waveform(),
            final(self).view_duty_cycle_raw() == old(self).view_duty_cycle_raw(),
            final(self).cache_empty(),
            !old(self).has_wavetable() ==> *final(self) == *old(self),
    {
        match self {
            OscillatorState::Wave(s) => s.delete_cache(),
            OscillatorState::WaveDTC(s) => s.delete_cache(),
            _ => {},
        }
    }

    /// The state's own duty cycle, where it has one.
    pub open spec fn view_duty_cycle_raw(self) -> Option<F> {
        match self {
            OscillatorState::DirectDTC(s) => Some(s.duty_cycle),
            OscillatorState::WaveDTC(s) => Some(s.view_duty_cycle()),
            _ => None,
        }
    }
}

impl<F: Real, W: Waveform<F>, const N: usize> OscillatorState<F, W, N> {
    /// The duty cycle in force: the state's own, else the default 1/2.
    pub open spec fn view_duty_cycle(self) -> F {
        match self.view_duty_cycle_raw() {
            Some(d) => d,
            None => F::spec_half(),
        }
    }

    /// A cache holds nothing stale.
    pub open spec fn wf(self) -> bool {
        match self {
            OscillatorState::Wave(s) => s.wf(),
            OscillatorState::WaveDTC(s) => s.wf(),
            _ => true,
        }
    }

    /// `y` is a value of the direct formula at `theta`, modulated where the
    /// state has a duty cycle.
    pub open spec fn spec_direct(self, theta: F, y: F) -> bool {
        if self.has_dtc() {
            self.view_waveform().spec_waveform_with_dtc(theta, self.view_duty_cycle(), y)
        } else {
            self.view_waveform().spec_waveform(theta, y)
        }
    }

    /// The table of `N` harmonics that the state's waveform and duty cycle
    /// call for.
    pub open spec fn spec_model(self) -> Option<TableModel<F>> {
        if self.has_dtc() {
            self.view_waveform().spec_wavetable_with_dtc(N, self.view_duty_cycle())
        } else {
            self.view_waveform().spec_wavetable(N)
        }
    }

    /// What one sample does: `after` is the state that follows `self`, and
    /// `y` the value given at `theta` for angular frequency `omega` at `rate`.
    pub open spec fn spec_next(self, after: Self, theta: F, omega: F, rate: F, y: F) -> bool {
        &&& after.wf()
        &&& after.same_kind(self)
        &&& after.view_waveform() == self.view_waveform()
        &&& after.view_duty_cycle_raw() == self.view_duty_cycle_raw()
        &&& spec_silent(omega, rate) ==> y == F::spec_zero() && after == self
        &&& !spec_silent(omega, rate) && !(self.has_wavetable() && spec_uses_table(omega, rate, N))
            ==> after == self && self.spec_direct(theta, y)
        &&& !spec_silent(omega, rate) && self.has_wavetable() && spec_uses_table(omega, rate, N)
            ==> {
            &&& !after.cache_empty()
            &&& !self.cache_empty() ==> after == self
            &&& match spec_table_value(self.spec_model(), theta, spec_up_to(omega, rate).unwrap()) {
                Some(v) => y == v,
                None => self.spec_direct(theta, y),
            }
        }
    }

    /// One sample at `theta`: silence where `π·rate ≤ ω`; for a cached state
    /// whose table holds every harmonic below Nyquist, the table (built once,
    /// where absent), where it gives a finite value; the direct formula
    /// otherwise.
    pub fn next(&mut self, theta: F, omega: F, rate: F) -> (y: F)
        requires
            old(self).wf(),
        ensures
            old(self).spec_next(*final(self), theta, omega, rate, y),
    {
        match self {
            OscillatorState::Direct(s) => s.next(theta, omega, rate),
            OscillatorState::DirectDTC(s) => s.next(theta, omega, rate),
            OscillatorState::Wave(s) => s.next(theta, omega, rate),
            OscillatorState::WaveDTC(s) => s.next(theta, omega, rate),
        }
    }

    /// The duty cycle in force.
    pub fn duty_cycle(&self) -> (r: F)
        ensures
            r == self.view_duty_cycle(),
    {
        match self {
            OscillatorState::DirectDTC(s) => *s.duty_cycle(),
            OscillatorState::WaveDTC(s) => *s.duty_cycle(),
            _ => crate::duty_cycle_default(),
        }
    }

    /// Read access to the cached table, where one was built.
    pub fn wavetable(&self) -> (r: Option<WavetableView<'_, F>>)
        ensures
            r is Some <==> self.view_cache() matches Some(Cache::Present(_)),
            self.view_cache() matches Some(Cache::Present(t)) ==> *r.unwrap().a0 == t.dc()
                && r.unwrap().ab@ == t.harmonics(),
    {
        match self {
            OscillatorState::Wave(s) => s.wavetable(),
            OscillatorState::WaveDTC(s) => s.wavetable(),
            _ => None,
        }
    }

    /// Mutable access to the waveform; the cache is emptied first, so that
    /// no table of the former waveform survives.
    pub fn waveform_mut(&mut self) -> (r: &mut W)
        ensures
            *r == old(self).view_waveform(),
            final(self).view_waveform() == *final(r),
            final(self).same_kind(*old(self)),
            final(self).view_duty_cycle_raw() == old(self).view_duty_cycle_raw(),
            final(self).cache_empty(),
    {
        match self {
            OscillatorState::Direct(s) => s.waveform_mut(),
            OscillatorState::DirectDTC(s) => s.waveform_mut(),
            OscillatorState::Wave(s) => s.waveform_mut(),
            OscillatorState::WaveDTC(s) => s.waveform_mut(),
        }
    }

    /// The same waveform modulated by `duty_cycle`; no table survives.
    pub fn with_dtc(self, duty_cycle: F) -> (r: Self)
        ensures
            r.wf(),
            r.has_dtc(),
            r.has_wavetable() == self.has_wavetable(),
            r.view_waveform() == self.view_waveform(),
            r.view_duty_cycle() == duty_cycle,
            r.cache_empty(),
    {
        match self {
            OscillatorState::Direct(s) => OscillatorState::DirectDTC(s.with_dtc(duty_cycle)),
            OscillatorState::DirectDTC(s) => OscillatorState::DirectDTC(s.with_dtc(duty_cycle)),
            OscillatorState::Wave(s) => OscillatorState::WaveDTC(s.with_dtc(duty_cycle)),
            OscillatorState::WaveDTC(s) => OscillatorState::WaveDTC(s.with_dtc(duty_cycle)),
        }
    }

    /// Adds a duty cycle of the state's own, at the default 1/2; no table
    /// survives. A state that has one stays as it is.
    pub fn with_default_dtc(self) -> (r: Self)
        requires
            self.wf(),
        ensures
            r.wf(),
            spec_dtc_added(self, r),
    {
        match self {
            OscillatorState::Direct(s) => OscillatorState::DirectDTC(s.with_dtc(crate::duty_cycle_default())),
            OscillatorState::Wave(s) => OscillatorState::WaveDTC(s.with_dtc(crate::duty_cycle_default())),
            _ => self,
        }
    }

    /// The plain waveform: the state's own duty cycle is dropped, not folded
    /// into the waveform, and with it any table. A state without a duty cycle
    /// stays as it is.
    pub fn without_dtc(self) -> (r: Self)
        requires
            self.wf(),
        ensures
            r.wf(),
            spec_dtc_dropped(self, r),
    {
        match self {
            OscillatorState::DirectDTC(s) => OscillatorState::Direct(s.without_dtc()),
            OscillatorState::WaveDTC(s) => OscillatorState::Wave(s.without_dtc()),
            _ => self,
        }
    }

    /// The same state with a cache of `M` harmonics. A cached state keeps the
    /// first `M` harmonics of its table where it holds that many, else starts
    /// with an empty cache; a direct state starts with an empty cache.
    pub fn with_wavetable<const M: usize>(self) -> (r: OscillatorState<F, W, M>)
        requires
            self.wf(),
        ensures
            r.wf(),
            r.has_wavetable(),
            r.has_dtc() == self.has_dtc(),
            r.view_waveform() == self.view_waveform(),
            r.view_duty_cycle_raw() == self.view_duty_cycle_raw(),
            self.cache_empty() ==> r.cache_empty(),
            self.view_cache() matches Some(Cache::Failed) ==> r.view_cache() matches Some(
                Cache::Failed,
            ),
            self.view_cache() matches Some(Cache::Present(t)) ==> (if M <= N {
                r.view_cache() matches Some(Cache::Present(u)) && u.dc() == t.dc() && Some(
                    u.harmonics(),
                ) == spec_truncate(t.harmonics(), M as nat)
            } else {
                r.cache_empty()
            }),
    {
        match self {
            OscillatorState::Direct(s) => OscillatorState::Wave(s.with_wavetable()),
            OscillatorState::DirectDTC(s) => OscillatorState::WaveDTC(s.with_wavetable()),
            OscillatorState::Wave(s) => OscillatorState::Wave(s.with_wavetable()),
            OscillatorState::WaveDTC(s) => OscillatorState::WaveDTC(s.with_wavetable()),
        }
    }

    /// The same state without a cache.
    pub fn without_wavetable(self) -> (r: Self)
        ensures
            !r.has_wavetable(),
            r.has_dtc() == self.has_dtc(),
            r.view_waveform() == self.view_waveform(),
            r.view_duty_cycle_raw() == self.view_duty_cycle_raw(),
    {
        match self {
            OscillatorState::Wave(s) => OscillatorState::Direct(s.without_wavetable()),
            OscillatorState::WaveDTC(s) => OscillatorState::DirectDTC(s.without_wavetable()),
            _ => self,
        }
    }

    /// The same shape of state around `waveform`; no table survives.
    pub fn with_waveform<V: Waveform<F>>(self, waveform: V) -> (r: OscillatorState<F, V, N>)
        ensures
            r.wf(),
            r.same_kind(self),
            r.view_waveform() == waveform,
            r.view_duty_cycle_raw() == self.view_duty_cycle_raw(),
            r.cache_empty(),
    {
        match self {
            OscillatorState::Direct(s) => OscillatorState::Direct(Direct::new(waveform)),
            OscillatorState::DirectDTC(s) => OscillatorState::DirectDTC(s.with_waveform(waveform)),
            OscillatorState::Wave(s) => OscillatorState::Wave(Wave::new(waveform)),
            OscillatorState::WaveDTC(s) => OscillatorState::WaveDTC(s.with_waveform(waveform)),
        }
    }

    /// The same shape of state around the waveform that `f` makes of this
    /// one; no table survives.
    pub fn map_waveform<V: Waveform<F>>(self, f: impl FnOnce(W) -> V) -> (r: OscillatorState<F, V, N>)
        requires
            call_requires(f, (self.view_waveform(),)),
        ensures
            r.wf(),
            r.same_kind(self),
            call_ensures(f, (self.view_waveform(),), r.view_waveform()),
            r.view_duty_cycle_raw() == self.view_duty_cycle_raw(),
            r.cache_empty(),
    {
        match self {
            OscillatorState::Direct(s) => OscillatorState::Direct(s.map_waveform(f)),
            OscillatorState::DirectDTC(s) => OscillatorState::DirectDTC(s.map_waveform(f)),
            OscillatorState::Wave(s) => OscillatorState::Wave(s.map_waveform(f)),
            OscillatorState::WaveDTC(s) => OscillatorState::WaveDTC(s.map_waveform(f)),
        }
    }
}

/// `r` is `s` with its duty cycle dropped: the plain waveform, no table where
/// `s` had a duty cycle, and `s` itself where it had none.
pub open spec fn spec_dtc_dropped<F: Real, W: Waveform<F>, const N: usize>(
    s: OscillatorState<F, W, N>,
    r: OscillatorState<F, W, N>,
) -> bool {
    &&& !r.has_dtc()
    &&& r.has_wavetable() == s.has_wavetable()
    &&& r.view_waveform() == s.view_waveform()
    &&& r.view_duty_cycle() == F::spec_half()
    &&& s.has_dtc() ==> r.cache_empty()
    &&& !s.has_dtc() ==> r == s
}

/// `r` is `s` with a duty cycle of its own: the default 1/2 and no table where
/// `s` had none, and `s` itself where it had one.
pub open spec fn spec_dtc_added<F: Real, W: Waveform<F>, const N: usize>(
    s: OscillatorState<F, W, N>,
    r: OscillatorState<F, W, N>,
) -> bool {
    &&& r.has_dtc()
    &&& r.has_wavetable() == s.has_wavetable()
    &&& r.view_waveform() == s.view_waveform()
    &&& !s.has_dtc() ==> r.view_duty_cycle() == F::spec_half() && r.cache_empty()
    &&& s.has_dtc() ==> r == s
}

/// Dropping the duty cycle and adding it back gives the default 1/2, not the
/// value the state had: the dropped value is kept nowhere.
pub proof fn dtc_toggle_restores_default<F: Real, W: Waveform<F>, const N: usize>(
    s: OscillatorState<F, W, N>,
    off: OscillatorState<F, W, N>,
    on: OscillatorState<F, W, N>,
)
    requires
        spec_dtc_dropped(s, off),
        spec_dtc_added(off, on),
    ensures
        on.has_dtc(),
        on.view_waveform() == s.view_waveform(),
        on.view_duty_cycle() == F::spec_half(),
{
}

/// A cached state whose cache was emptied (as every change of its waveform
/// empties it) builds its table, at the next sample that the table serves,
/// from the waveform and duty cycle it has now, and from nothing else.
pub proof fn emptied_cache_rebuilds_from_current<F: Real, W: Waveform<F>, const N: usize>(
    s: OscillatorState<F, W, N>,
    after: OscillatorState<F, W, N>,
    theta: F,
    omega: F,
    rate: F,
    y: F,
)
    requires
        s.wf(),
        s.has_wavetable(),
        s.cache_empty(),
        s.spec_next(after, theta, omega, rate, y),
        !spec_silent(omega, rate),
        spec_uses_table(omega, rate, N),
    ensures
        after.view_waveform() == s.view_waveform(),
        after.view_cache() matches Some(c) && c !is Absent && spec_coherent(c, s.spec_model()),
        match spec_table_value(s.spec_model(), theta, spec_up_to(omega, rate).unwrap()) {
            Some(v) => y == v,
            None => s.spec_direct(theta, y),
        },
{
    assert(after.spec_model() == s.spec_model());
}

/// The phase after one sample: `(θ + ω/rate) mod 2π`.
pub open spec fn spec_advance<F: Real>(theta: F, omega: F, rate: F) -> F {
    theta.spec_add(omega.spec_div(rate)).spec_rem_euclid(F::spec_tau())
}

/// The phase accumulator: angular frequency `omega`, phase offset `phi`, the
/// running phase, kept within one turn, and the state that gives the samples.
#[derive(Clone, Debug)]
pub struct Oscillator<F, W, const N: usize> {
    omega: F,
    phi: F,
    theta: F,
    state: OscillatorState<F, W, N>,
}

impl<F, W, const N: usize> Oscillator<F, W, N> {
    pub closed spec fn view_omega(&self) -> F {
        self.omega
    }

    pub closed spec fn view_phi(&self) -> F {
        self.phi
    }

    pub closed spec fn view_theta(&self) -> F {
        self.theta
    }

    pub closed spec fn view_state(&self) -> OscillatorState<F, W, N> {
        self.state
    }

    /// The angular frequency.
    pub fn omega(&self) -> (r: F) where F: Copy
        ensures
            r == self.view_omega(),
    {
        self.omega
    }

    /// The phase offset.
    pub fn phi(&self) -> (r: F) where F: Copy
        ensures
            r == self.view_phi(),
    {
        self.phi
    }

    /// The running phase.
    pub fn theta(&self) -> (r: F) where F: Copy
        ensures
            r == self.view_theta(),
    {
        self.theta
    }

    /// Sets the angular frequency; the phase and the state are kept.
    pub fn set_omega(&mut self, omega: F)
        ensures
            final(self).view_omega() == omega,
            final(self).view_phi() == old(self).view_phi(),
            final(self).view_theta() == old(self).view_theta(),
            final(self).view_state() == old(self).view_state(),
    {
        self.omega = omega;
    }

    /// Sets the phase offset; the phase and the state are kept.
    pub fn set_phi(&mut self, phi: F)
        ensures
            final(self).view_omega() == old(self).view_omega(),
            final(self).view_phi() == phi,
            final(self).view_theta() == old(self).view_theta(),
            final(self).view_state() == old(self).view_state(),
    {
        self.phi = phi;
    }

    /// Read access to the state.
    pub fn state(&self) -> (r: &OscillatorState<F, W, N>)
        ensures
            *r == self.view_state(),
    {
        &self.state
    }
}

impl<F: Real, W: Waveform<F>, const N: usize> Oscillator<F, W, N> {
    /// The cache of the state holds nothing stale.
    pub open spec fn wf(&self) -> bool {
        self.view_state().wf()
    }

    /// The oscillator at phase zero around `state`, whose cache is emptied.
    pub fn new(omega: F, phi: F, state: OscillatorState<F, W, N>) -> (r: Self)
        ensures
            r.wf(),
            r.view_omega() == omega,
            r.view_phi() == phi,
            r.view_theta() == F::spec_zero(),
            r.view_state().same_kind(state),
            r.view_state().view_waveform() == state.view_waveform(),
            r.view_state().view_duty_cycle_raw() == state.view_duty_cycle_raw(),
            r.view_state().cache_empty(),
    {
        let mut state = state;
        state.delete_cache();
        Oscillator { omega, phi, theta: F::zero(), state }
    }

    /// Advances the phase by `omega/rate`, wrapped to one turn, and gives the
    /// state's sample at the phase plus the offset. Where `π·rate ≤ omega` the
    /// sample is exactly zero.
    pub fn next(&mut self, rate: F) -> (y: F)
        requires
            old(self).wf(),
        ensures
            final(self).wf(),
            final(self).view_omega() == old(self).view_omega(),
            final(self).view_phi() == old(self).view_phi(),
            final(self).view_theta() == spec_advance(old(self).view_theta(), old(self).view_omega(), rate),
            old(self).view_state().spec_next(
                final(self).view_state(),
                final(self).view_theta().spec_add(old(self).view_phi()),
                old(self).view_omega(),
                rate,
                y,
            ),
            spec_silent(old(self).view_omega(), rate) ==> y == F::spec_zero(),
    {
        self.theta = self.theta.add(self.omega.div(rate)).rem_euclid(F::tau());
        self.state.next(self.theta.add(self.phi), self.omega, rate)
    }

    /// Mutable access to the state; its cache is emptied first.
    pub fn state_mut(&mut self) -> (r: &mut OscillatorState<F, W, N>)
        ensures
            r.same_kind(old(self).view_state()),
            r.view_waveform() == old(self).view_state().view_waveform(),
            r.view_duty_cycle_raw() == old(self).view_state().view_duty_cycle_raw(),
            r.cache_empty(),
            final(self).view_state() == *final(r),
            final(self).view_omega() == old(self).view_omega(),
            final(self).view_phi() == old(self).view_phi(),
            final(self).view_theta() == old(self).view_theta(),
    {
        self.state.delete_cache();
        &mut self.state
    }

    /// The oscillator around the state that `f` makes of this one's, whose
    /// cache is emptied first; the phase is kept.
    pub fn map_state<V: Waveform<F>, const M: usize>(
        self,
        f: impl FnOnce(OscillatorState<F, W, N>) -> OscillatorState<F, V, M>,
    ) -> (r: Oscillator<F, V, M>)
        requires
            forall|s: OscillatorState<F, W, N>|
                s.same_kind(self.view_state()) && s.view_waveform() == self.view_state().view_waveform()
                    && s.view_duty_cycle_raw() == self.view_state().view_duty_cycle_raw()
                    && s.cache_empty() ==> #[trigger] call_requires(f, (s,)),
        ensures
            r.view_omega() == self.view_omega(),
            r.view_phi() == self.view_phi(),
            r.view_theta() == self.view_theta(),
            exists|s: OscillatorState<F, W, N>|
                {
                    &&& s.same_kind(self.view_state())
                    &&& s.view_waveform() == self.view_state().view_waveform()
                    &&& s.view_duty_cycle_raw() == self.view_state().view_duty_cycle_raw()
                    &&& s.cache_empty()
                    &&& #[trigger] call_ensures(f, (s,), r.view_state())
                },
    {
        let mut state = self.state;
        state.delete_cache();
        let mapped = f(state);
        Oscillator { omega: self.omega, phi: self.phi, theta: self.theta, state: mapped }
    }

    /// See `OscillatorState::with_dtc`; the phase is kept.
    pub fn with_dtc(self, duty_cycle: F) -> (r: Self)
        ensures
            r.wf(),
            r.view_omega() == self.view_omega(),
            r.view_phi() == self.view_phi(),
            r.view_theta() == self.view_theta(),
            r.view_state().has_dtc(),
            r.view_state().has_wavetable() == self.view_state().has_wavetable(),
            r.view_state().view_waveform() == self.view_state().view_waveform(),
            r.view_state().view_duty_cycle() == duty_cycle,
            r.view_state().cache_empty(),
    {
        Oscillator { omega: self.omega, phi: self.phi, theta: self.theta, state: self.state.with_dtc(duty_cycle) }
    }

    /// See `OscillatorState::without_dtc`; the phase is kept.
    pub fn without_dtc(self) -> (r: Self)
        requires
            self.wf(),
        ensures
            r.wf(),
            r.view_omega() == self.view_omega(),
            r.view_phi() == self.view_phi(),
            r.view_theta() == self.view_theta(),
            !r.view_state().has_dtc(),
            r.view_state().has_wavetable() == self.view_state().has_wavetable(),
            r.view_state().view_waveform() == self.view_state().view_waveform(),
            r.view_state().view_duty_cycle() == F::spec_half(),
            self.view_state().has_dtc() ==> r.view_state().cache_empty(),
            !self.view_state().has_dtc() ==> r.view_state() == self.view_state(),
    {
        Oscillator { omega: self.omega, phi: self.phi, theta: self.theta, state: self.state.without_dtc() }
    }

    /// See `OscillatorState::with_wavetable`; the phase is kept.
    pub fn with_wavetable<const M: usize>(self) -> (r: Oscillator<F, W, M>)
        requires
            self.wf(),
        ensures
            r.wf(),
            r.view_omega() == self.view_omega(),
            r.view_phi() == self.view_phi(),
            r.view_theta() == self.view_theta(),
            r.view_state().has_wavetable(),
            r.view_state().has_dtc() == self.view_state().has_dtc(),
            r.view_state().view_waveform() == self.view_state().view_waveform(),
            r.view_state().view_duty_cycle_raw() == self.view_state().view_duty_cycle_raw(),
            self.view_state().cache_empty() ==> r.view_state().cache_empty(),
            self.view_state().view_cache() matches Some(Cache::Present(t)) ==> (if M <= N {
                r.view_state().view_cache() matches Some(Cache::Present(u)) && u.dc() == t.dc() && Some(
                    u.harmonics(),
                ) == spec_truncate(t.harmonics(), M as nat)
            } else {
                r.view_state().cache_empty()
            }),
    {
        Oscillator { omega: self.omega, phi: self.phi, theta: self.theta, state: self.state.with_wavetable() }
    }

    /// See `OscillatorState::without_wavetable`; the phase is kept.
    pub fn without_wavetable(self) -> (r: Self)
        ensures
            r.wf(),
            r.view_omega() == self.view_omega(),
            r.view_phi() == self.view_phi(),
            r.view_theta() == self.view_theta(),
            !r.view_state().has_wavetable(),
            r.view_state().has_dtc() == self.view_state().has_dtc(),
            r.view_state().view_waveform() == self.view_state().view_waveform(),
            r.view_state().view_duty_cycle_raw() == self.view_state().view_duty_cycle_raw(),
    {
        Oscillator { omega: self.omega, phi: self.phi, theta: self.theta, state: self.state.without_wavetable() }
    }

    /// See `OscillatorState::with_waveform`; the phase is kept.
    pub fn with_waveform<V: Waveform<F>>(self, waveform: V) -> (r: Oscillator<F, V, N>)
        ensures
            r.wf(),
            r.view_omega() == self.view_omega(),
            r.view_phi() == self.view_phi(),
            r.view_theta() == self.view_theta(),
            r.view_state().same_kind(self.view_state()),
            r.view_state().view_waveform() == waveform,
            r.view_state().view_duty_cycle_raw() == self.view_state().view_duty_cycle_raw(),
            r.view_state().cache_empty(),
    {
        Oscillator { omega: self.omega, phi: self.phi, theta: self.theta, state: self.state.with_waveform(waveform) }
    }

    /// See `OscillatorState::map_waveform`; the phase is kept.
    pub fn map_waveform<V: Waveform<F>>(self, f: impl FnOnce(W) -> V) -> (r: Oscillator<F, V, N>)
        requires
            call_requires(f, (self.view_state().view_waveform(),)),
        ensures
            r.wf(),
            r.view_omega() == self.view_omega(),
            r.view_phi() == self.view_phi(),
            r.view_theta() == self.view_theta(),
            r.view_state().same_kind(self.view_state()),
            call_ensures(f, (self.view_state().view_waveform(),), r.view_state().view_waveform()),
            r.view_state().view_duty_cycle_raw() == self.view_state().view_duty_cycle_raw(),
            r.view_state().cache_empty(),
    {
        Oscillator { omega: self.omega, phi: self.phi, theta: self.theta, state: self.state.map_waveform(f) }
    }
}

} // verus!
