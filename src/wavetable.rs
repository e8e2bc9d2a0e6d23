use vstd::prelude::*;

use crate::numeric::Real;
use crate::util;

verus! {

/// A complex number, as the unit exponentials of the harmonic sum need it.
#[derive(Clone, Copy, Debug)]
pub struct Complex<F> {
    pub re: F,
    pub im: F,
}

pub open spec fn spec_cmul<F: Real>(x: Complex<F>, y: Complex<F>) -> Complex<F> {
    Complex {
        re: x.re.spec_mul(y.re).spec_sub(x.im.spec_mul(y.im)),
        im: x.re.spec_mul(y.im).spec_add(x.im.spec_mul(y.re)),
    }
}

impl<F: Real> core::ops::Mul for Complex<F> {
    type Output = Complex<F>;

    fn mul(self, o: Complex<F>) -> (r: Complex<F>)
        ensures
            r == spec_cmul(self, o),
    {
        Complex {
            re: self.re.mul(o.re).sub(self.im.mul(o.im)),
            im: self.re.mul(o.im).add(self.im.mul(o.re)),
        }
    }
}

impl<F: Real> vstd::std_specs::ops::MulSpecImpl for Complex<F> {
    open spec fn obeys_mul_spec() -> bool {
        true
    }

    open spec fn mul_req(self, rhs: Complex<F>) -> bool {
        true
    }

    open spec fn mul_spec(self, rhs: Complex<F>) -> Complex<F> {
        spec_cmul(self, rhs)
    }
}

/// `cos θ + i sin θ`
pub open spec fn spec_cis<F: Real>(theta: F) -> Complex<F> {
    Complex { re: theta.spec_cos(), im: theta.spec_sin() }
}

/// `c` to the power `n` (for `n ≥ 1`), by repeated multiplication.
pub open spec fn spec_cis_pow<F: Real>(c: Complex<F>, n: nat) -> Complex<F>
    decreases n,
{
    if n <= 1 {
        c
    } else {
        spec_cmul(spec_cis_pow(c, (n - 1) as nat), c)
    }
}

/// `a re(e) + b im(e)`
pub open spec fn spec_term<F: Real>(ab: (F, F), e: Complex<F>) -> F {
    ab.0.spec_mul(e.re).spec_add(ab.1.spec_mul(e.im))
}

/// The sum of the first `k` harmonic terms, harmonic `n` taken at `c^n`.
pub open spec fn spec_partial_sum<F: Real>(ab: Seq<(F, F)>, c: Complex<F>, k: nat) -> F
    decreases k,
{
    if k == 0 {
        F::spec_zero()
    } else {
        spec_partial_sum(ab, c, (k - 1) as nat).spec_add(spec_term(ab[k - 1], spec_cis_pow(c, k)))
    }
}

/// The harmonic count that an evaluation limited to `up_to` uses.
pub open spec fn spec_used(len: nat, up_to: nat) -> nat {
    if up_to < len {
        up_to
    } else {
        len
    }
}

/// `a0 + Σ_{n=1}^{min(up_to, len)} a_n cos(nθ) + b_n sin(nθ)`, where finite.
pub open spec fn spec_evaluate<F: Real>(a0: F, ab: Seq<(F, F)>, theta: F, up_to: nat) -> Option<F> {
    let y = a0.spec_add(spec_partial_sum(ab, spec_cis(theta), spec_used(ab.len(), up_to)));
    if y.spec_is_finite() {
        Some(y)
    } else {
        None
    }
}

/// The first `m` harmonics of `ab`, where it holds that many.
pub open spec fn spec_truncate<F>(ab: Seq<(F, F)>, m: nat) -> Option<Seq<(F, F)>> {
    if m <= ab.len() {
        Some(ab.subrange(0, m as int))
    } else {
        None
    }
}

/// A harmonic table: a DC term and `N` coefficient pairs `(a_n, b_n)`,
/// standing for `a0 + Σ a_n cos(nθ) + b_n sin(nθ)`.
#[derive(Clone, Debug)]
pub struct Wavetable<F, const N: usize> {
    a0: F,
    ab: Vec<(F, F)>,
}

/// Read access to a table: its DC term and its coefficient pairs.
#[derive(Clone, Copy, Debug)]
pub struct WavetableView<'a, F> {
    pub a0: &'a F,
    pub ab: &'a [(F, F)],
}

impl<F: Real, const N: usize> Wavetable<F, N> {
    /// The DC term.
    pub closed spec fn dc(&self) -> F {
        self.a0
    }

    /// The coefficient pairs, harmonic `n` at index `n - 1`.
    pub closed spec fn harmonics(&self) -> Seq<(F, F)> {
        self.ab@
    }

    /// The table holds exactly `N` pairs.
    pub open spec fn wf(&self) -> bool {
        self.harmonics().len() == N
    }

    /// The table whose pair `n` is `ab(n - 1)`.
    pub fn from_fn(a0: F, ab: impl Fn(usize) -> (F, F)) -> (r: Self)
        requires
            forall|i: usize| i < N ==> call_requires(ab, (i,)),
        ensures
            r.wf(),
            r.dc() == a0,
            forall|i: int| 0 <= i < N ==> call_ensures(ab, (i as usize,), #[trigger] r.harmonics()[i]),
    {
        let mut v: Vec<(F, F)> = Vec::new();
        let mut i: usize = 0;
        while i < N
            invariant
                i <= N,
                v@.len() == i,
                forall|i: usize| i < N ==> call_requires(ab, (i,)),
                forall|j: int| 0 <= j < i ==> call_ensures(ab, (j as usize,), #[trigger] v@[j]),
            decreases N - i,
        {
            let x = ab(i);
            v.push(x);
            i = i + 1;
        }
        Self::from_array(a0, v)
    }

    /// The table of the DC term `a0` and the pairs `ab`.
    pub fn from_array(a0: F, ab: Vec<(F, F)>) -> (r: Self)
        requires
            ab@.len() == N,
        ensures
            r.wf(),
            r.dc() == a0,
            r.harmonics() == ab@,
    {
        Self { a0, ab }
    }

    /// The band-limited value at `theta` of the first `up_to` harmonics (all
    /// of them where `up_to ≥ N`), or `None` where it is not finite.
    ///
    /// Harmonic `n` is taken at the `n`-th power of `cos θ + i sin θ`, one
    /// complex multiplication after the other.
    pub fn waveform(&self, theta: F, up_to: usize) -> (r: Option<F>)
        requires
            self.wf(),
        ensures
            r == spec_evaluate(self.dc(), self.harmonics(), theta, up_to as nat),
    {
        let exp_1 = Complex { re: theta.cos(), im: theta.sin() };
        let mut exp_n = exp_1;
        let k: usize = if up_to < N {
            up_to
        } else {
            N
        };
        let mut s = F::zero();
        let mut i: usize = 0;
        while i < k
            invariant
                k == spec_used(self.harmonics().len(), up_to as nat),
                k <= self.ab@.len(),
                self.ab@ == self.harmonics(),
                i <= k,
                exp_1 == spec_cis(theta),
                exp_n == spec_cis_pow(exp_1, (i + 1) as nat),
                s == spec_partial_sum(self.ab@, exp_1, i as nat),
            decreases k - i,
        {
            let (a, b) = self.ab[i];
            let y = a.mul(exp_n.re).add(b.mul(exp_n.im));
            util::mul_assign(&mut exp_n, exp_1);
            s = s.add(y);
            i = i + 1;
        }
        let y = self.a0.add(s);
        if !y.is_finite() {
            return None;
        }
        Some(y)
    }

    /// The table of the same DC term and the first `M` pairs, where `M ≤ N`;
    /// `None` where the table holds fewer harmonics than asked for.
    pub fn truncate<const M: usize>(self) -> (r: Option<Wavetable<F, M>>)
        requires
            self.wf(),
        ensures
            M <= N <==> r is Some,
            r is Some ==> r.unwrap().wf() && r.unwrap().dc() == self.dc() && Some(
                r.unwrap().harmonics(),
            ) == spec_truncate(self.harmonics(), M as nat),
    {
        if M > N {
            return None;
        }
        let mut ab = self.ab;
        ab.truncate(M);
        proof {
            assert(ab@ =~= self.harmonics().subrange(0, M as int));
        }
        Some(Wavetable::<F, M>::from_array(self.a0, ab))
    }

    /// Read access to the DC term and the coefficient pairs.
    pub fn view(&self) -> (r: WavetableView<'_, F>)
        ensures
            *r.a0 == self.dc(),
            r.ab@ == self.harmonics(),
    {
        WavetableView { a0: &self.a0, ab: self.ab.as_slice() }
    }
}

/// Truncating a table twice to the same size gives what truncating once gave.
pub proof fn truncate_idempotent<F>(ab: Seq<(F, F)>, m: nat)
    requires
        m <= ab.len(),
    ensures
        spec_truncate(ab, m) is Some,
        spec_truncate(spec_truncate(ab, m).unwrap(), m) == spec_truncate(ab, m),
{
    assert(ab.subrange(0, m as int).subrange(0, m as int) =~= ab.subrange(0, m as int));
}

proof fn lemma_partial_sum_prefix<F: Real>(ab: Seq<(F, F)>, cd: Seq<(F, F)>, c: Complex<F>, k: nat)
    requires
        k <= ab.len(),
        k <= cd.len(),
        forall|i: int| 0 <= i < k ==> ab[i] == cd[i],
    ensures
        spec_partial_sum(ab, c, k) == spec_partial_sum(cd, c, k),
    decreases k,
{
    if k > 0 {
        lemma_partial_sum_prefix(ab, cd, c, (k - 1) as nat);
    }
}

/// A table truncated to `m` harmonics evaluates exactly as the whole table
/// limited to its first `m` harmonics: truncation keeps nothing beyond them.
pub proof fn truncate_then_evaluate<F: Real>(a0: F, ab: Seq<(F, F)>, m: nat, theta: F, up_to: nat)
    requires
        m <= ab.len(),
    ensures
        spec_evaluate(a0, spec_truncate(ab, m).unwrap(), theta, up_to) == spec_evaluate(
            a0,
            ab,
            theta,
            spec_used(m, up_to),
        ),
{
    let t = ab.subrange(0, m as int);
    let k = spec_used(m, up_to);
    assert(spec_used(t.len(), up_to) == k);
    assert(spec_used(ab.len(), k) == k);
    lemma_partial_sum_prefix(t, ab, spec_cis(theta), k);
}

} // verus!
