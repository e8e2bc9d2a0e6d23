use std::f32::consts::{FRAC_PI_2, PI, TAU};

use oscillation::numeric::Real;
use oscillation::oscillator::{Direct, DirectDTC, Oscillator, OscillatorState, Wave, WaveDTC};
use oscillation::waveform::{
    MekkaWaveform, Noise, RoundedTriangle, Sawtooth, Sine, Square, Triangle, Waveform,
};
use oscillation::{duty_cycle_default, mul_assign, Complex, Wavetable};
use rand::distr::{Distribution, Uniform};

/// Single precision as the library's numeric capability.
#[derive(Clone, Copy, Debug, PartialEq, PartialOrd)]
struct R(f32);

/// `I_n(x)` by its power series, in double precision.
fn bessel_series(order: usize, x: f64) -> f64 {
    let h = x / 2.0;
    let mut term = 1.0f64;
    for k in 1..=order {
        term *= h / k as f64;
    }
    let mut sum = term;
    let mut k = 0usize;
    while k < 1000 {
        k += 1;
        term *= h * h / (k as f64 * (k + order) as f64);
        sum += term;
        if term.abs() <= sum.abs() * 1e-17 {
            break;
        }
    }
    sum
}

impl Real for R {
    fn zero() -> Self {
        R(0.0)
    }
    fn one() -> Self {
        R(1.0)
    }
    fn half() -> Self {
        R(0.5)
    }
    fn pi() -> Self {
        R(PI)
    }
    fn tau() -> Self {
        R(TAU)
    }
    fn frac_pi_2() -> Self {
        R(FRAC_PI_2)
    }
    fn frac_2_pi() -> Self {
        R(std::f32::consts::FRAC_2_PI)
    }
    fn epsilon() -> Self {
        R(f32::EPSILON)
    }
    fn from_usize(n: usize) -> Self {
        R(n as f32)
    }
    fn neg(self) -> Self {
        R(-self.0)
    }
    fn abs(self) -> Self {
        R(self.0.abs())
    }
    fn recip(self) -> Self {
        R(self.0.recip())
    }
    fn signum(self) -> Self {
        R(self.0.signum())
    }
    fn sin(self) -> Self {
        R(self.0.sin())
    }
    fn cos(self) -> Self {
        R(self.0.cos())
    }
    fn exp(self) -> Self {
        R(self.0.exp())
    }
    fn sinh(self) -> Self {
        R(self.0.sinh())
    }
    fn tanh(self) -> Self {
        R(self.0.tanh())
    }
    fn add(self, o: Self) -> Self {
        R(self.0 + o.0)
    }
    fn sub(self, o: Self) -> Self {
        R(self.0 - o.0)
    }
    fn mul(self, o: Self) -> Self {
        R(self.0 * o.0)
    }
    fn div(self, o: Self) -> Self {
        R(self.0 / o.0)
    }
    fn rem_euclid(self, o: Self) -> Self {
        R(self.0.rem_euclid(o.0))
    }
    fn powf(self, o: Self) -> Self {
        R(self.0.powf(o.0))
    }
    fn copysign(self, sign: Self) -> Self {
        R(self.0.copysign(sign.0))
    }
    fn lt(self, o: Self) -> bool {
        self.0 < o.0
    }
    fn le(self, o: Self) -> bool {
        self.0 <= o.0
    }
    fn eq(self, o: Self) -> bool {
        self.0 == o.0
    }
    fn is_finite(self) -> bool {
        self.0.is_finite()
    }
    fn is_nan(self) -> bool {
        self.0.is_nan()
    }
    fn to_usize(self) -> Option<usize> {
        if self.0.is_finite() && self.0 > -1.0 && self.0 < usize::MAX as f32 {
            Some(self.0 as usize)
        } else {
            None
        }
    }
    fn bessel_i(order: usize, x: Self) -> Self {
        R(bessel_series(order, x.0 as f64) as f32)
    }
    fn sample_uniform(low: Self, high: Self) -> Self {
        R(Uniform::new_inclusive(low.0, high.0).unwrap().sample(&mut rand::rng()))
    }
}

fn r(x: f32) -> R {
    R(x)
}

fn direct<W: Waveform<R>>(w: W) -> OscillatorState<R, W, 0> {
    OscillatorState::Direct(Direct::new(w))
}

/// Runs the shape through a direct and a cached oscillator over one turn and
/// a half, plain and at 32 duty cycles from 0 to 1, and checks that every
/// sample is finite.
fn sweep<W: Waveform<R> + Copy>(waveform: W) {
    const N: usize = 128;
    const M: usize = 32;
    const MM: usize = M + 1;
    const MC: usize = MM / 2;
    const MORE: f32 = FRAC_PI_2;
    let start = -MORE;
    let end = TAU + MORE;
    let rate = N as f32 * TAU / (end - start);
    let omega = TAU;
    let phi = start;

    let dtc: Vec<f32> = (0..M).map(|i| i as f32 / (M - 1) as f32).collect();

    for i in 0..MM {
        let osc1 = Oscillator::new(r(omega), r(phi), direct(waveform));
        let osc2 = Oscillator::new(r(omega), r(phi), direct(waveform)).with_wavetable::<1024>();
        let (mut osc1, mut osc2) = if i == MC {
            (osc1, osc2)
        } else {
            let duty_cycle = dtc[i - (i >= MC) as usize];
            (osc1.with_dtc(r(duty_cycle)), osc2.with_dtc(r(duty_cycle)))
        };
        for _ in 0..N {
            let y1 = osc1.next(r(rate)).0;
            let y2 = osc2.next(r(rate)).0;
            assert!(y1.is_finite(), "Not finite!");
            assert!(y2.is_finite(), "Not finite!");
        }
    }
}

#[test]
fn lib_it_works() {}

#[test]
fn noise_it_works() {
    sweep(Noise)
}

#[test]
fn rounded_triangle_it_works() {
    sweep(RoundedTriangle)
}

#[test]
fn sawtooth_it_works() {
    sweep(Sawtooth)
}

#[test]
fn sine_it_works() {
    sweep(Sine)
}

#[test]
fn square_it_works() {
    sweep(Square)
}

#[test]
fn triangle_it_works() {
    sweep(Triangle)
}

#[test]
fn waveforms_it_works() {
    sweep(MekkaWaveform::Triangle)
}

#[test]
fn mod_it_works() {
    const N: usize = 16;
    const RATE: f32 = 8000.0;

    let mut osc = Oscillator::new(r(TAU), r(0.0), OscillatorState::Wave(Wave::<R, Sawtooth, 64>::new(Sawtooth)));
    let y: Vec<f32> = (0..N).map(|_| osc.next(r(RATE)).0).collect();
    println!("{:?}", y);
    assert!(y.iter().all(|y| y.is_finite()));
}

fn thetas() -> Vec<f32> {
    (0..40).map(|i| -3.0 + i as f32 * 0.37).collect()
}

#[test]
fn half_duty_cycle_is_plain_shape() {
    for &t in &thetas() {
        let half = r(0.5);
        assert_eq!(Sine.waveform_with_dtc(r(t), half), Sine.waveform(r(t)));
        assert!((Square.waveform_with_dtc(r(t), half).0 - Square.waveform(r(t)).0).abs() < 1e-5 || {
            // the two place the jump at π by different roundings
            let w = r(t).rem_euclid(R::tau()).0;
            (w - PI).abs() < 1e-5
        });
        assert!((Sawtooth.waveform_with_dtc(r(t), half).0 - Sawtooth.waveform(r(t)).0).abs() < 1e-4);
        assert!((Triangle.waveform_with_dtc(r(t), half).0 - Triangle.waveform(r(t)).0).abs() < 1e-4);
    }
}

#[test]
fn above_nyquist_is_silent() {
    let rate = r(100.0);
    for omega in [PI * 100.0, PI * 100.0 + 1.0, 1000.0, 1e6] {
        let mut a = Oscillator::new(r(omega), r(0.3), direct(Square));
        let mut b = Oscillator::new(r(omega), r(0.3), direct(Triangle)).with_dtc(r(0.2));
        let mut c = Oscillator::new(r(omega), r(0.3), direct(Sawtooth)).with_wavetable::<64>();
        let mut d = Oscillator::new(r(omega), r(0.3), direct(Sine)).with_wavetable::<64>().with_dtc(r(0.7));
        for _ in 0..10 {
            assert_eq!(a.next(rate).0, 0.0);
            assert_eq!(b.next(rate).0, 0.0);
            assert_eq!(c.next(rate).0, 0.0);
            assert_eq!(d.next(rate).0, 0.0);
        }
        assert!(c.state().wavetable().is_none());
    }
}

fn table_value<W: Waveform<R>>(w: &W, theta: f32) -> f32 {
    let t: Wavetable<R, 64> = w.wavetable().unwrap();
    t.waveform(r(theta), 64).unwrap().0
}

#[test]
fn table_agrees_with_formula_at_half_duty_cycle() {
    for theta in [0.5f32, 1.0, 2.0, 3.0, 4.0, 5.5] {
        let d = table_value(&Triangle, theta) - Triangle.waveform(r(theta)).0;
        assert!(d.abs() < 0.02, "triangle at {}: {}", theta, d);
    }
    for theta in [FRAC_PI_2, 3.0 * FRAC_PI_2] {
        let d = table_value(&Square, theta) - Square.waveform(r(theta)).0;
        assert!(d.abs() < 0.03, "square at {}: {}", theta, d);
        let t: Wavetable<R, 64> = Square.wavetable_with_dtc(r(0.5)).unwrap();
        let d = t.waveform(r(theta), 64).unwrap().0 - Square.waveform_with_dtc(r(theta), r(0.5)).0;
        assert!(d.abs() < 0.03, "modulated square at {}: {}", theta, d);
    }
    for theta in [PI / 4.0, FRAC_PI_2, 3.0 * PI / 4.0] {
        let d = table_value(&Sawtooth, theta) - Sawtooth.waveform(r(theta)).0;
        assert!(d.abs() < 0.03, "sawtooth at {}: {}", theta, d);
    }
}

#[test]
fn truncation_keeps_the_first_harmonics() {
    let big: Wavetable<R, 64> = Sawtooth.wavetable_with_dtc(r(0.3)).unwrap();
    let fresh: Wavetable<R, 16> = Sawtooth.wavetable_with_dtc(r(0.3)).unwrap();
    let cut: Wavetable<R, 16> = big.clone().truncate().unwrap();
    let again: Wavetable<R, 16> = cut.clone().truncate().unwrap();
    assert_eq!(cut.view().ab, fresh.view().ab);
    assert_eq!(cut.view().a0, fresh.view().a0);
    assert_eq!(again.view().ab, cut.view().ab);
    for theta in thetas() {
        let a = cut.waveform(r(theta), 100).unwrap();
        let b = big.waveform(r(theta), 16).unwrap();
        let c = fresh.waveform(r(theta), 16).unwrap();
        assert_eq!(a, b);
        assert_eq!(a, c);
    }
    let wider: Option<Wavetable<R, 65>> = big.truncate();
    assert!(wider.is_none());
    let none: Wavetable<R, 0> = fresh.truncate().unwrap();
    assert_eq!(none.view().ab.len(), 0);
}

#[test]
fn dropping_duty_cycle_forgets_it() {
    let osc = Oscillator::new(r(1.0), r(0.0), direct(Square)).with_dtc(r(0.2));
    assert_eq!(osc.state().duty_cycle(), r(0.2));
    let off = osc.without_dtc();
    assert_eq!(off.state().duty_cycle(), r(0.5));
    let on = off.state().clone().with_default_dtc();
    assert_eq!(on.duty_cycle(), r(0.5));
    assert_eq!(duty_cycle_default::<R>(), r(0.5));

    let cached = Oscillator::new(r(1.0), r(0.0), direct(Square)).with_wavetable::<8>().with_dtc(r(0.9));
    let back = cached.without_dtc().state().clone().with_default_dtc();
    assert!(matches!(back, OscillatorState::WaveDTC(_)));
    assert_eq!(back.duty_cycle(), r(0.5));
}

#[test]
fn changing_the_waveform_empties_the_cache() {
    let rate = r(10.0);
    let omega = r(PI);
    let mut osc = Oscillator::new(omega, r(0.0), direct(MekkaWaveform::Square)).with_wavetable::<64>();
    osc.next(rate);
    let before: Vec<(R, R)> = osc.state().wavetable().unwrap().ab.to_vec();
    *osc.state_mut().waveform_mut() = MekkaWaveform::Triangle;
    assert!(osc.state().wavetable().is_none());
    osc.next(rate);
    let after: Vec<(R, R)> = osc.state().wavetable().unwrap().ab.to_vec();
    let fresh: Wavetable<R, 64> = Triangle.wavetable().unwrap();
    assert_eq!(after.as_slice(), fresh.view().ab);
    assert_ne!(after, before);

    let mut osc = osc.with_waveform(Sawtooth);
    assert!(osc.state().wavetable().is_none());
    osc.next(rate);
    let fresh: Wavetable<R, 64> = Sawtooth.wavetable().unwrap();
    assert_eq!(osc.state().wavetable().unwrap().ab, fresh.view().ab);

    let s = osc.state_mut();
    assert!(s.wavetable().is_none());
}

#[test]
fn sawtooth_first_sample_is_ramp_start() {
    let omega = TAU * 440.0 / 44100.0;
    let mut osc = Oscillator::new(r(omega), r(0.0), OscillatorState::Wave(Wave::<R, Sawtooth, 64>::new(Sawtooth)));
    let y = osc.next(r(44100.0)).0;
    assert!((y - Sawtooth.waveform(r(0.0)).0).abs() < 1e-5);
    assert!((y + 1.0).abs() < 1e-5);
}

#[test]
fn square_below_capacity_uses_the_table() {
    let rate = r(10.0);
    let omega = r(PI);
    let mut state: OscillatorState<R, Square, 64> = OscillatorState::Wave(Wave::new(Square));
    let theta = r(PI + 0.05);
    let y = state.next(theta, omega, rate).0;
    assert!(state.wavetable().is_some());
    let raw = Square.waveform(theta).0;
    assert_eq!(raw, 1.0);
    assert!((y - raw).abs() > 0.1, "{}", y);

    let mut direct_state: OscillatorState<R, Square, 64> = OscillatorState::Direct(Direct::new(Square));
    assert_eq!(direct_state.next(theta, omega, rate).0, raw);
}

#[test]
fn noise_at_duty_cycle_zero_is_a_sign() {
    let mut osc = Oscillator::new(r(1.0), r(0.0), direct(Noise)).with_dtc(r(0.0));
    for _ in 0..200 {
        let y = osc.next(r(100.0)).0;
        assert!(y == 1.0 || y == -1.0 || y == 0.0, "{}", y);
    }
    let mut plain = Oscillator::new(r(1.0), r(0.0), direct(Noise));
    for _ in 0..200 {
        let y = plain.next(r(100.0)).0;
        assert!((-1.0..=1.0).contains(&y));
    }
}

#[test]
fn noise_shape_values() {
    assert_eq!(Noise::shape(r(-0.25), r(0.5)), r(-0.25));
    assert_eq!(Noise::shape(r(0.25), r(1.0)), r(0.0625));
    assert_eq!(Noise::shape(r(-0.25), r(0.0)), r(-1.0));
}

#[test]
fn table_evaluation_exact_values() {
    let t: Wavetable<R, 2> = Wavetable::from_array(r(1.0), vec![(r(1.0), r(0.0)), (r(0.0), r(2.0))]);
    assert_eq!(t.waveform(r(0.0), 2), Some(r(2.0)));
    assert_eq!(t.waveform(r(0.0), 0), Some(r(1.0)));
    let y = t.waveform(r(FRAC_PI_2), 5).unwrap().0;
    // 1 + cos(π/2) + 2 sin(π) = 1
    assert!((y - 1.0).abs() < 1e-6);
    let bad: Wavetable<R, 1> = Wavetable::from_array(r(f32::INFINITY), vec![(r(0.0), r(0.0))]);
    assert_eq!(bad.waveform(r(0.0), 1), None);
    let built: Wavetable<R, 3> = Wavetable::from_fn(r(0.5), |i| (r(i as f32), r(-(i as f32))));
    assert_eq!(built.view().ab, &[(r(0.0), r(0.0)), (r(1.0), r(-1.0)), (r(2.0), r(-2.0))]);
    assert_eq!(*built.view().a0, r(0.5));
}

#[test]
fn shape_formulas_exact_values() {
    assert_eq!(Square.waveform(r(1.0)), r(-1.0));
    assert_eq!(Square.waveform(r(4.0)), r(1.0));
    assert_eq!(Square.waveform_with_dtc(r(1.0), r(0.1)), r(1.0));
    assert_eq!(Square.waveform_with_dtc(r(0.5), r(2.0)), r(-1.0));
    assert_eq!(Sawtooth.waveform(r(FRAC_PI_2)), r(0.0));
    assert!((Triangle.waveform(r(PI)).0 - 1.0).abs() < 1e-6);
    assert!((Triangle.waveform(r(0.0)).0 + 1.0).abs() < 1e-6);
    assert!((Triangle.waveform_with_dtc(r(TAU * 0.25), r(0.25)).0 - 1.0).abs() < 1e-5);
    assert!((RoundedTriangle.waveform(r(0.0)).0 + 1.0).abs() < 1e-6);
    assert!((RoundedTriangle.waveform_with_dtc(r(PI), r(0.5)).0 - 1.0).abs() < 1e-5);
    assert!((Sine.waveform(r(PI)).0 + 1.0).abs() < 1e-6);
    assert!(Sine.waveform_with_dtc(r(0.3), r(0.2)).0.is_finite());
}

#[test]
fn tables_exist_where_they_help() {
    let none: Option<Wavetable<R, 8>> = Sine.wavetable();
    assert!(none.is_none());
    let none: Option<Wavetable<R, 8>> = Sine.wavetable_with_dtc(r(0.5));
    assert!(none.is_none());
    let some: Option<Wavetable<R, 8>> = Sine.wavetable_with_dtc(r(0.3));
    assert!(some.is_some());
    let none: Option<Wavetable<R, 8>> = Noise.wavetable_with_dtc(r(0.3));
    assert!(none.is_none());
    let none: Option<Wavetable<R, 8>> = RoundedTriangle.wavetable_with_dtc(r(0.5));
    assert!(none.is_none());
    let some: Option<Wavetable<R, 8>> = RoundedTriangle.wavetable_with_dtc(r(0.3));
    assert!(some.is_some());
    let flat: Wavetable<R, 4> = Triangle.wavetable_with_dtc(r(0.0)).unwrap();
    assert!((flat.view().ab[1].1 .0 - 2.0 / PI / 2.0).abs() < 1e-6);
    let flat: Wavetable<R, 4> = Triangle.wavetable_with_dtc(r(1.0)).unwrap();
    assert!((flat.view().ab[0].1 .0 + 2.0 / PI).abs() < 1e-6);
    let saw: Wavetable<R, 2> = Sawtooth.wavetable_with_dtc(r(0.0)).unwrap();
    assert!((saw.view().ab[0].1 .0 + 2.0 / PI).abs() < 1e-6);
    let sq: Wavetable<R, 2> = Square.wavetable_with_dtc(r(0.25)).unwrap();
    assert!((sq.view().a0.0 - 0.5).abs() < 1e-6);
}

#[test]
fn phase_advances_and_wraps() {
    let mut osc = Oscillator::new(r(PI), r(0.0), direct(Triangle));
    assert_eq!(osc.theta(), r(0.0));
    osc.next(r(2.0));
    assert!((osc.theta().0 - FRAC_PI_2).abs() < 1e-6);
    for _ in 0..5 {
        osc.next(r(2.0));
    }
    assert!((osc.theta().0 - PI).abs() < 1e-5);
    assert!(osc.theta().0 < TAU);
}

#[test]
fn resizing_the_cache() {
    let rate = r(10.0);
    let omega = r(PI);
    let mut osc = Oscillator::new(omega, r(0.0), direct(Triangle)).with_wavetable::<64>();
    osc.next(rate);
    let smaller = osc.clone().with_wavetable::<16>();
    let fresh: Wavetable<R, 16> = Triangle.wavetable().unwrap();
    assert_eq!(smaller.state().wavetable().unwrap().ab, fresh.view().ab);
    let larger = osc.with_wavetable::<128>();
    assert!(larger.state().wavetable().is_none());
    let plain = larger.without_wavetable();
    assert!(matches!(plain.state(), OscillatorState::Direct(_)));
}

#[test]
fn waveform_index_round_trip() {
    for i in 0u8..5 {
        assert_eq!(MekkaWaveform::from_index(i).unwrap().index(), i);
    }
    assert_eq!(MekkaWaveform::from_index(5), None);
    assert_eq!(MekkaWaveform::from_index(2), Some(MekkaWaveform::Sawtooth));
    assert_eq!(MekkaWaveform::default_shape(), MekkaWaveform::Sine);
}

#[test]
fn mul_assign_multiplies() {
    let mut x = 6i32;
    mul_assign(&mut x, 7);
    assert_eq!(x, 42);
    let mut c = Complex { re: r(0.0), im: r(1.0) };
    mul_assign(&mut c, Complex { re: r(0.0), im: r(1.0) });
    assert_eq!((c.re, c.im), (r(-1.0), r(0.0)));
}

#[test]
fn states_report_their_parts() {
    let s: DirectDTC<R, Square> = Direct::new(Square).with_dtc(r(0.3));
    assert_eq!(*s.duty_cycle(), r(0.3));
    let w: WaveDTC<R, Square, 8> = s.with_wavetable();
    assert_eq!(*w.duty_cycle(), r(0.3));
    assert!(w.wavetable().is_none());
    let w = w.without_dtc();
    assert_eq!(w.duty_cycle(), r(0.5));
}

#[test]
fn square_at_ten_harmonics_is_the_ten_harmonic_table() {
    let rate = r(10.0);
    let omega = r(PI);
    let up_to = r(PI * 10.0 / PI).0 as usize;
    let table: Wavetable<R, 64> = Square.wavetable().unwrap();
    let mut state: OscillatorState<R, Square, 64> = OscillatorState::Wave(Wave::new(Square));
    for theta in thetas() {
        let y = state.next(r(theta), omega, rate);
        assert_eq!(Some(y), table.waveform(r(theta), up_to));
        assert_eq!(state.wavetable().unwrap().ab, table.view().ab);
    }
}

#[test]
fn countless_harmonics_take_the_direct_formula() {
    // at ω = 0 the harmonic count below Nyquist is no number of usize
    let mut state: OscillatorState<R, Square, 64> = OscillatorState::Wave(Wave::new(Square));
    for theta in thetas() {
        assert_eq!(state.next(r(theta), r(0.0), r(10.0)), Square.waveform(r(theta)));
    }
    assert!(state.wavetable().is_none());
}

#[test]
fn noise_duty_cycle_is_clamped() {
    assert_eq!(Noise::shape(r(0.0), r(-1.0)), r(1.0));
    assert_eq!(Noise::shape(r(-0.5), r(-3.0)), r(-1.0));
    assert_eq!(Noise::shape(r(0.5), r(4.0)), r(0.25));
    let mut osc = Oscillator::new(r(1.0), r(0.0), direct(Noise)).with_dtc(r(-2.0));
    for _ in 0..200 {
        let y = osc.next(r(100.0)).0;
        assert!(y.is_finite() && (-1.0..=1.0).contains(&y), "{}", y);
    }
}

#[test]
fn oscillator_parameters() {
    let mut osc = Oscillator::new(r(1.0), r(0.5), direct(Sine));
    assert_eq!((osc.omega(), osc.phi(), osc.theta()), (r(1.0), r(0.5), r(0.0)));
    osc.set_omega(r(2.0));
    osc.set_phi(r(-0.5));
    assert_eq!((osc.omega(), osc.phi()), (r(2.0), r(-0.5)));
    let y = osc.next(r(4.0));
    assert_eq!(osc.theta(), r(0.5));
    assert_eq!(y, r(0.0f32.cos()));
}
