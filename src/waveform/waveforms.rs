use vstd::prelude::*;

use crate::numeric::Real;
use crate::waveform::{Noise, Sawtooth, Sine, Square, TableModel, Triangle, Waveform};
use crate::wavetable::Wavetable;

verus! {

/// The built-in shapes as one value, chosen at run time, with a stable index
/// per shape for configuration.
#[derive(Clone, Copy, Debug, PartialEq, Eq, PartialOrd, Ord)]
pub enum MekkaWaveform {
    Sine,
    Triangle,
    Sawtooth,
    Square,
    Noise,
}

/// The number of shapes.
pub const VARIANT_COUNT: usize = 5;

impl MekkaWaveform {
    /// The shape's position in the list `Sine, Triangle, Sawtooth, Square, Noise`.
    pub open spec fn spec_index(self) -> u8 {
        match self {
            MekkaWaveform::Sine => 0,
            MekkaWaveform::Triangle => 1,
            MekkaWaveform::Sawtooth => 2,
            MekkaWaveform::Square => 3,
            MekkaWaveform::Noise => 4,
        }
    }

    pub fn index(self) -> (r: u8)
        ensures
            r == self.spec_index(),
    {
        match self {
            MekkaWaveform::Sine => 0,
            MekkaWaveform::Triangle => 1,
            MekkaWaveform::Sawtooth => 2,
            MekkaWaveform::Square => 3,
            MekkaWaveform::Noise => 4,
        }
    }

    /// The shape at `index`, or `None` past the last one.
    pub fn from_index(index: u8) -> (r: Option<Self>)
        ensures
            r is Some <==> index < VARIANT_COUNT,
            r matches Some(w) ==> w.spec_index() == index,
    {
        match index {
            0 => Some(MekkaWaveform::Sine),
            1 => Some(MekkaWaveform::Triangle),
            2 => Some(MekkaWaveform::Sawtooth),
            3 => Some(MekkaWaveform::Square),
            4 => Some(MekkaWaveform::Noise),
            _ => None,
        }
    }

    /// The default shape, the sine.
    pub fn default_shape() -> (r: Self)
        ensures
            r == MekkaWaveform::Sine,
    {
        MekkaWaveform::Sine
    }
}

impl<F: Real> Waveform<F> for MekkaWaveform {
    open spec fn spec_waveform(&self, theta: F, y: F) -> bool {
        match self {
            MekkaWaveform::Sine => Sine.spec_waveform(theta, y),
            MekkaWaveform::Triangle => Triangle.spec_waveform(theta, y),
            MekkaWaveform::Sawtooth => Sawtooth.spec_waveform(theta, y),
            MekkaWaveform::Square => Square.spec_waveform(theta, y),
            MekkaWaveform::Noise => Noise.spec_waveform(theta, y),
        }
    }

    open spec fn spec_waveform_with_dtc(&self, theta: F, duty_cycle: F, y: F) -> bool {
        match self {
            MekkaWaveform::Sine => Sine.spec_waveform_with_dtc(theta, duty_cycle, y),
            MekkaWaveform::Triangle => Triangle.spec_waveform_with_dtc(theta, duty_cycle, y),
            MekkaWaveform::Sawtooth => Sawtooth.spec_waveform_with_dtc(theta, duty_cycle, y),
            MekkaWaveform::Square => Square.spec_waveform_with_dtc(theta, duty_cycle, y),
            MekkaWaveform::Noise => Noise.spec_waveform_with_dtc(theta, duty_cycle, y),
        }
    }

    open spec fn spec_wavetable(&self, n: usize) -> Option<TableModel<F>> {
        match self {
            MekkaWaveform::Sine => <Sine as Waveform<F>>::spec_wavetable(&Sine, n),
            MekkaWaveform::Triangle => <Triangle as Waveform<F>>::spec_wavetable(&Triangle, n),
            MekkaWaveform::Sawtooth => <Sawtooth as Waveform<F>>::spec_wavetable(&Sawtooth, n),
            MekkaWaveform::Square => <Square as Waveform<F>>::spec_wavetable(&Square, n),
            MekkaWaveform::Noise => <Noise as Waveform<F>>::spec_wavetable(&Noise, n),
        }
    }

    open spec fn spec_wavetable_with_dtc(&self, n: usize, duty_cycle: F) -> Option<TableModel<F>> {
        match self {
            MekkaWaveform::Sine => Sine.spec_wavetable_with_dtc(n, duty_cycle),
            MekkaWaveform::Triangle => Triangle.spec_wavetable_with_dtc(n, duty_cycle),
            MekkaWaveform::Sawtooth => Sawtooth.spec_wavetable_with_dtc(n, duty_cycle),
            MekkaWaveform::Square => Square.spec_wavetable_with_dtc(n, duty_cycle),
            MekkaWaveform::Noise => Noise.spec_wavetable_with_dtc(n, duty_cycle),
        }
    }

    fn waveform(&self, theta: F) -> (y: F) {
        match self {
            MekkaWaveform::Sine => Sine.waveform(theta),
            MekkaWaveform::Triangle => Triangle.waveform(theta),
            MekkaWaveform::Sawtooth => Sawtooth.waveform(theta),
            MekkaWaveform::Square => Square.waveform(theta),
            MekkaWaveform::Noise => Noise.waveform(theta),
        }
    }

    fn waveform_with_dtc(&self, theta: F, duty_cycle: F) -> (y: F) {
        match self {
            MekkaWaveform::Sine => Sine.waveform_with_dtc(theta, duty_cycle),
            MekkaWaveform::Triangle => Triangle.waveform_with_dtc(theta, duty_cycle),
            MekkaWaveform::Sawtooth => Sawtooth.waveform_with_dtc(theta, duty_cycle),
            MekkaWaveform::Square => Square.waveform_with_dtc(theta, duty_cycle),
            MekkaWaveform::Noise => Noise.waveform_with_dtc(theta, duty_cycle),
        }
    }

    fn wavetable<const N: usize>(&self) -> (r: Option<Wavetable<F, N>>) {
        match self {
            MekkaWaveform::Sine => Sine.wavetable(),
            MekkaWaveform::Triangle => Triangle.wavetable(),
            MekkaWaveform::Sawtooth => Sawtooth.wavetable(),
            MekkaWaveform::Square => Square.wavetable(),
            MekkaWaveform::Noise => Noise.wavetable(),
        }
    }

    fn wavetable_with_dtc<const N: usize>(&self, duty_cycle: F) -> (r: Option<Wavetable<F, N>>) {
        match self {
            MekkaWaveform::Sine => Sine.wavetable_with_dtc(duty_cycle),
            MekkaWaveform::Triangle => Triangle.wavetable_with_dtc(duty_cycle),
            MekkaWaveform::Sawtooth => Sawtooth.wavetable_with_dtc(duty_cycle),
            MekkaWaveform::Square => Square.wavetable_with_dtc(duty_cycle),
            MekkaWaveform::Noise => Noise.wavetable_with_dtc(duty_cycle),
        }
    }

    proof fn lemma_wavetable_prefix(&self, m: usize, n: usize, duty_cycle: F) {
        match self {
            MekkaWaveform::Sine => <Sine as Waveform<F>>::lemma_wavetable_prefix(&Sine, m, n, duty_cycle),
            MekkaWaveform::Triangle => <Triangle as Waveform<F>>::lemma_wavetable_prefix(&Triangle, m, n, duty_cycle),
            MekkaWaveform::Sawtooth => <Sawtooth as Waveform<F>>::lemma_wavetable_prefix(&Sawtooth, m, n, duty_cycle),
            MekkaWaveform::Square => <Square as Waveform<F>>::lemma_wavetable_prefix(&Square, m, n, duty_cycle),
            MekkaWaveform::Noise => <Noise as Waveform<F>>::lemma_wavetable_prefix(&Noise, m, n, duty_cycle),
        }
    }
}

} // verus!
