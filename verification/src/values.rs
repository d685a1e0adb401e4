//! The plain values that travel between the front end, the worker and the
//! instrument: samples, frequencies, attenuations, time stamps and the
//! configuration of a sweep.

use vstd::prelude::*;

verus! {

/// Number of entries of the instrument's waveform table.
pub const DAC_TABLE_LEN: usize = 524288;

/// One complex sample with 16-bit integer parts.
#[derive(Clone, Copy, Debug, PartialEq, Eq)]
pub struct Sample {
    pub re: i16,
    pub im: i16,
}

/// The instrument's full waveform table.
pub type DacTable = Box<[Sample; 524288]>;

/// `n / d` is a fraction in lowest terms with a positive denominator.
pub open spec fn lowest_terms(n: int, d: int) -> bool {
    &&& d > 0
    &&& forall|k: int| k > 1 ==> !(#[trigger] (n % k) == 0 && d % k == 0)
}

/// Reduces `numer / denom` with `num::rational::Ratio::new` and hands back the
/// numerator and denominator that it stored.
///
/// Trusted: `Ratio::new` divides both parts by their greatest common divisor
/// and makes the denominator positive, so the pair that comes back is in lowest
/// terms and denotes the same fraction. It panics on a zero denominator. Where
/// the denominator is still negative after the division it negates both parts,
/// which overflows on `i64::MIN`. A part is still `i64::MIN` then only if the
/// divisor was one, that is, if the other part is odd: those inputs, and no
/// others, are left out.
#[verifier::external_body]
fn ratio_new(numer: i64, denom: i64) -> (r: (i64, i64))
    requires
        Hertz::reducible(numer, denom),
    ensures
        lowest_terms(r.0 as int, r.1 as int),
        r.0 * denom == numer * r.1,
{
    let ratio = num::rational::Ratio::new(numer, denom);
    (*ratio.numer(), *ratio.denom())
}

/// Whether `x` is odd.
fn is_odd(x: i64) -> (b: bool)
    ensures
        b == (x % 2 != 0),
{
    if x >= 0 {
        x % 2 == 1
    } else if x == i64::MIN {
        false
    } else {
        (-x) % 2 == 1
    }
}

/// A frequency in hertz, held as an exact fraction.
#[derive(Clone, Copy, Debug, PartialEq, Eq)]
pub struct Hertz {
    numer: i64,
    denom: i64,
}

impl Hertz {
    /// Numerator and denominator.
    pub closed spec fn view(&self) -> (int, int) {
        (self.numer as int, self.denom as int)
    }

    /// The fraction is in lowest terms and its denominator is positive.
    pub open spec fn wf(&self) -> bool {
        lowest_terms(self@.0, self@.1)
    }

    /// The inputs that `new` can reduce: the denominator is not zero, and
    /// making it positive does not overflow. It would where the numerator is
    /// `i64::MIN` above an odd negative denominator, and where the denominator
    /// is `i64::MIN` below an odd numerator.
    pub open spec fn reducible(numer: i64, denom: i64) -> bool {
        &&& denom != 0
        &&& !(numer == i64::MIN && denom < 0 && denom % 2 != 0)
        &&& !(denom == i64::MIN && numer % 2 != 0)
    }

    /// Whether `new` can reduce `numer / denom`.
    pub fn can_reduce(numer: i64, denom: i64) -> (b: bool)
        ensures
            b == Self::reducible(numer, denom),
    {
        denom != 0 && !(numer == i64::MIN && denom < 0 && is_odd(denom)) && !(denom == i64::MIN
            && is_odd(numer))
    }

    /// The frequency `numer / denom`, reduced to lowest terms.
    pub fn new(numer: i64, denom: i64) -> (f: Hertz)
        requires
            Self::reducible(numer, denom),
        ensures
            f.wf(),
            f@.0 * denom == numer * f@.1,
    {
        let r = ratio_new(numer, denom);
        Hertz { numer: r.0, denom: r.1 }
    }

    /// The numerator.
    pub fn numer(&self) -> (n: i64)
        ensures
            n == self@.0,
    {
        self.numer
    }

    /// The denominator.
    pub fn denom(&self) -> (d: i64)
        ensures
            d == self@.1,
    {
        self.denom
    }
}

/// A common measure of two denominators of the fraction `n / d`: from `a` and
/// `b`, each with its numerator, a positive `g` that divides both and is itself
/// a denominator of the fraction, with its numerator and the two quotients.
proof fn lemma_common_measure(n: int, d: int, a: int, na: int, b: int, nb: int) -> (r: (
    int,
    int,
    int,
    int,
))
    requires
        a > 0,
        b > 0,
        na * d == n * a,
        nb * d == n * b,
    ensures
        r.0 > 0,
        r.1 * d == n * r.0,
        r.2 > 0,
        r.3 > 0,
        a == r.0 * r.2,
        b == r.0 * r.3,
    decreases a + b,
{
    if a == b {
        (a, na, 1, 1)
    } else if a > b {
        assert((na - nb) * d == n * (a - b)) by (nonlinear_arith)
            requires
                na * d == n * a,
                nb * d == n * b,
        ;
        let (g, ng, q, qb) = lemma_common_measure(n, d, a - b, na - nb, b, nb);
        assert(a == g * (q + qb)) by (nonlinear_arith)
            requires
                a - b == g * q,
                b == g * qb,
        ;
        (g, ng, q + qb, qb)
    } else {
        assert((nb - na) * d == n * (b - a)) by (nonlinear_arith)
            requires
                na * d == n * a,
                nb * d == n * b,
        ;
        let (g, ng, qa, q) = lemma_common_measure(n, d, a, na, b - a, nb - na);
        assert(b == g * (q + qa)) by (nonlinear_arith)
            requires
                b - a == g * q,
                a == g * qa,
        ;
        (g, ng, qa, q + qa)
    }
}

/// A fraction `n / d` in lowest terms whose denominator is `q` times a
/// denominator `g` of the same fraction has `q == 1`.
proof fn lemma_no_common_factor(n: int, d: int, g: int, ng: int, q: int)
    requires
        lowest_terms(n, d),
        g > 0,
        q > 0,
        d == g * q,
        ng * d == n * g,
    ensures
        q == 1,
{
    assert(n == ng * q) by (nonlinear_arith)
        requires
            g > 0,
            d == g * q,
            ng * d == n * g,
    ;
    if q > 1 {
        assert(n % q == 0 && d % q == 0) by (nonlinear_arith)
            requires
                q > 1,
                n == ng * q,
                d == g * q,
        ;
    }
}

/// A fraction has one form in lowest terms: two such forms of the same fraction
/// have the same numerator and the same denominator.
pub proof fn lemma_lowest_terms_unique(n1: int, d1: int, n2: int, d2: int)
    requires
        lowest_terms(n1, d1),
        lowest_terms(n2, d2),
        n1 * d2 == n2 * d1,
    ensures
        n1 == n2,
        d1 == d2,
{
    let (g, ng, q1, q2) = lemma_common_measure(n2, d2, d1, n1, d2, n2);
    lemma_no_common_factor(n2, d2, g, ng, q2);
    assert(d2 == g) by (nonlinear_arith)
        requires
            d2 == g * q2,
            q2 == 1,
    ;
    assert(ng == n2) by (nonlinear_arith)
        requires
            ng * d2 == n2 * g,
            d2 == g,
            g > 0,
    ;
    assert(ng * d1 == n1 * g) by (nonlinear_arith)
        requires
            n1 * d2 == n2 * d1,
            d2 == g,
            ng == n2,
    ;
    lemma_no_common_factor(n1, d1, g, ng, q1);
    assert(d1 == g) by (nonlinear_arith)
        requires
            d1 == g * q1,
            q1 == 1,
    ;
    assert(n1 == n2) by (nonlinear_arith)
        requires
            n1 * d2 == n2 * d1,
            d1 == d2,
            d2 > 0,
    ;
}

/// What `Hertz::new` gives is pinned down: a frequency in lowest terms that
/// denotes `numer / denom` has the parts of any form `n / d` of that fraction
/// in lowest terms.
pub proof fn lemma_hertz_value(f: Hertz, numer: int, denom: int, n: int, d: int)
    requires
        denom != 0,
        f.wf(),
        f@.0 * denom == numer * f@.1,
        lowest_terms(n, d),
        n * denom == numer * d,
    ensures
        f@ == (n, d),
{
    let (fn_, fd) = f@;
    assert(fn_ * d == n * fd) by (nonlinear_arith)
        requires
            denom != 0,
            fn_ * denom == numer * fd,
            n * denom == numer * d,
    ;
    lemma_lowest_terms_unique(fn_, fd, n, d);
}

/// A whole number of hertz is already in lowest terms: its reduced form has
/// the number itself above a denominator of one.
pub proof fn lemma_whole_hertz(f: Hertz, hz: int)
    requires
        f.wf(),
        f@.0 * 1 == hz * f@.1,
    ensures
        f@ == (hz, 1int),
{
    assert forall|k: int| k > 1 implies !(#[trigger] (hz % k) == 0 && 1int % k == 0) by {
        assert(1int % k == 1) by (nonlinear_arith)
            requires
                k > 1,
        ;
    }
    lemma_lowest_terms_unique(f@.0, f@.1, hz, 1);
}

/// Input and output attenuation of the intermediate-frequency board.
///
/// Each is the bit pattern of an IEEE 754 single-precision number of decibels.
/// The bridge carries attenuations and never computes with them.
#[derive(Clone, Copy, Debug, PartialEq, Eq)]
pub struct Attens {
    pub input: u32,
    pub output: u32,
}

/// A point in time, counted from the Unix epoch.
#[derive(Clone, Copy, Debug, PartialEq, Eq)]
pub struct Timestamp {
    pub secs: u64,
    pub nanos: u32,
}

/// One power setting of a sweep.
#[derive(Clone, Copy, Debug, PartialEq, Eq)]
pub struct PowerSetting {
    pub attens: Attens,
    pub fft_scale: u16,
}

/// What a sweep visits: every frequency at every power setting, each point
/// averaged over `average` captures.
#[derive(Clone, Debug, PartialEq, Eq)]
pub struct SweepConfig {
    pub freqs: Vec<Hertz>,
    pub settings: Vec<PowerSetting>,
    pub average: u64,
}

/// Mathematical model of a `SweepConfig`.
pub struct SweepConfigView {
    pub freqs: Seq<Hertz>,
    pub settings: Seq<PowerSetting>,
    pub average: u64,
}

impl View for SweepConfig {
    type V = SweepConfigView;

    open spec fn view(&self) -> SweepConfigView {
        SweepConfigView { freqs: self.freqs@, settings: self.settings@, average: self.average }
    }
}

} // verus!
