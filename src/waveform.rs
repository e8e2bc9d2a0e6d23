use vstd::prelude::*;

use crate::numeric::{clamp, spec_clamp, Real};
use crate::wavetable::{spec_evaluate, spec_truncate, spec_used, truncate_then_evaluate, Wavetable};

pub mod noise;
pub mod rounded_triangle;
pub mod sawtooth;
pub mod sine;
pub mod square;
pub mod triangle;
pub mod waveforms;





pub use noise::Noise;
pub use rounded_triangle::RoundedTriangle;
pub use sawtooth::Sawtooth;
pub use sine::Sine;
pub use square::Square;
pub use triangle::Triangle;
pub use waveforms::MekkaWaveform;


verus! {

/// The split angle `2π·clamp(duty_cycle, 0, 1)`: where in the turn a shape
/// makes its defining transition.
pub open spec fn spec_split<F: Real>(duty_cycle: F) -> F {
    F::spec_tau().spec_mul(spec_clamp(duty_cycle, F::spec_zero(), F::spec_one()))
}

pub fn split<F: Real>(duty_cycle: F) -> (r: F)
    ensures
        r == spec_split(duty_cycle),
{
    F::tau().mul(clamp(duty_cycle, F::zero(), F::one()))
}

/// A table model, DC term and coefficient pairs.
pub type TableModel<F> = (F, Seq<(F, F)>);

/// `r` is the table that the model `m` describes, or both are absent.
pub open spec fn spec_table_is<F: Real, const N: usize>(
    r: Option<Wavetable<F, N>>,
    m: Option<TableModel<F>>,
) -> bool {
    match r {
        None => m is None,
        Some(t) => m is Some && t.wf() && t.dc() == m.unwrap().0 && t.harmonics() == m.unwrap().1,
    }
}

/// The table of `m` harmonics is the table of `n ≥ m` harmonics cut down to
/// its first `m`: each coefficient depends on its harmonic number alone.
pub open spec fn spec_prefix_of<F>(small: Option<TableModel<F>>, large: Option<TableModel<F>>, m: nat) -> bool {
    (small is Some <==> large is Some) && (small is Some ==> small.unwrap().0 == large.unwrap().0
        && Some(small.unwrap().1) == spec_truncate(large.unwrap().1, m))
}

/// The per-shape behaviour of a periodic waveform: its instantaneous value,
/// plain and modulated by a duty cycle, and the analytic Fourier coefficients
/// of either, where a finite table of them is of use.
pub trait Waveform<F: Real>: Sized {
    /// `y` is a value that `waveform(theta)` may return.
    spec fn spec_waveform(&self, theta: F, y: F) -> bool;

    /// `y` is a value that `waveform_with_dtc(theta, duty_cycle)` may return.
    spec fn spec_waveform_with_dtc(&self, theta: F, duty_cycle: F, y: F) -> bool;

    /// The table of `n` harmonics of the plain shape, if it has one.
    spec fn spec_wavetable(&self, n: usize) -> Option<TableModel<F>>;

    /// The table of `n` harmonics of the shape at `duty_cycle`, if it has one.
    spec fn spec_wavetable_with_dtc(&self, n: usize, duty_cycle: F) -> Option<TableModel<F>>;

    /// The value of the plain shape at phase `theta` (any real value).
    fn waveform(&self, theta: F) -> (y: F)
        ensures
            self.spec_waveform(theta, y),
    ;

    /// The value at phase `theta` of the shape modulated by `duty_cycle`.
    fn waveform_with_dtc(&self, theta: F, duty_cycle: F) -> (y: F)
        ensures
            self.spec_waveform_with_dtc(theta, duty_cycle, y),
    ;

    /// The first `N` harmonics of the plain shape, or `None` where a finite
    /// table is of no use.
    fn wavetable<const N: usize>(&self) -> (r: Option<Wavetable<F, N>>)
        ensures
            spec_table_is(r, self.spec_wavetable(N)),
    ;

    /// The first `N` harmonics of the shape at `duty_cycle`, or `None` where
    /// a finite table is of no use.
    fn wavetable_with_dtc<const N: usize>(&self, duty_cycle: F) -> (r: Option<Wavetable<F, N>>)
        ensures
            spec_table_is(r, self.spec_wavetable_with_dtc(N, duty_cycle)),
    ;

    /// A smaller table is a prefix of a larger one, plain and modulated.
    proof fn lemma_wavetable_prefix(&self, m: usize, n: usize, duty_cycle: F)
        requires
            m <= n,
        ensures
            spec_prefix_of(self.spec_wavetable(m), self.spec_wavetable(n), m as nat),
            spec_prefix_of(
                self.spec_wavetable_with_dtc(m, duty_cycle),
                self.spec_wavetable_with_dtc(n, duty_cycle),
                m as nat,
            ),
    ;
}

/// A table of `n` harmonics cut down to its first `m` is the table that the
/// shape gives for `m` harmonics, plain and at any duty cycle; evaluated, it
/// is the larger table limited to `m` harmonics.
pub proof fn truncated_table_is_fresh<F: Real, W: Waveform<F>>(
    w: W,
    m: usize,
    n: usize,
    duty_cycle: F,
    theta: F,
    up_to: nat,
)
    requires
        m <= n,
    ensures
        spec_prefix_of(w.spec_wavetable(m), w.spec_wavetable(n), m as nat),
        spec_prefix_of(w.spec_wavetable_with_dtc(m, duty_cycle), w.spec_wavetable_with_dtc(n, duty_cycle), m as nat),
        w.spec_wavetable(n) matches Some(t) ==> t.1.len() == n ==> spec_evaluate(
            t.0,
            w.spec_wavetable(m).unwrap().1,
            theta,
            up_to,
        ) == spec_evaluate(t.0, t.1, theta, spec_used(m as nat, up_to)),
{
    w.lemma_wavetable_prefix(m, n, duty_cycle);
    if let Some(t) = w.spec_wavetable(n) {
        if t.1.len() == n {
            truncate_then_evaluate(t.0, t.1, m as nat, theta, up_to);
        }
    }
}

} // verus!
