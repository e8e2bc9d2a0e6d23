//! Band-limited periodic oscillators: a phase accumulator over a small,
//! closed family of states that evaluate a waveform either directly or
//! through a lazily built, never stale table of its Fourier coefficients.
//! Every component is generic over the numeric capability [`Real`].

use vstd::prelude::*;

pub mod numeric;
pub mod oscillator;
mod util;
pub mod waveform;
pub mod wavetable;

pub use numeric::Real;
pub use util::mul_assign;
pub use wavetable::{Complex, Wavetable, WavetableView};

verus! {

/// The duty cycle at which every shape is its plain, unmodulated self.
pub fn duty_cycle_default<F: Real>() -> (r: F)
    ensures
        r == F::spec_half(),
{
    F::half()
}

} // verus!
