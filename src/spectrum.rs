//! Peak search over a spectrum: which bin holds the most energy, and at
//! what frequency that bin lies.
//!
//! Magnitudes arrive as IEEE-754 binary32 bit patterns, so that the order
//! of the values they stand for, and which of them are NaN, is stated
//! exactly.

use vstd::arithmetic::div_mod::{lemma_div_is_ordered, lemma_div_by_multiple};
use vstd::arithmetic::mul::lemma_mul_upper_bound;
use vstd::prelude::*;

verus! {

/// Sign bit of a binary32 bit pattern.
pub const SIGN_BIT: u32 = 0x8000_0000;

/// Bit pattern of positive infinity; above it, with the sign bit clear,
/// lie the NaNs.
pub const POSITIVE_INFINITY_BITS: u32 = 0x7f80_0000;

/// The transform backends a spectrum may be computed with. They differ in
/// speed only: each computes the same transform.
#[derive(Clone, Copy, Debug, PartialEq, Eq, Structural)]
pub enum Planner {
    FftPlanner,
    FftPlannerNeon,
    FftPlannerScalar,
}

impl Planner {
    /// The backend to use: the one asked for, else the generic one.
    pub fn or_default(choice: Option<Planner>) -> (r: Planner)
        ensures
            r == match choice {
                Some(p) => p,
                None => Planner::FftPlanner,
            },
    {
        match choice {
            Some(p) => p,
            None => Planner::FftPlanner,
        }
    }
}

/// Whether a binary32 bit pattern is a NaN: all exponent bits set and a
/// nonzero fraction, whatever the sign.
pub open spec fn is_nan_bits(bits: u32) -> bool {
    bits % SIGN_BIT > POSITIVE_INFINITY_BITS
}

/// An integer that orders the non-NaN binary32 values as the reals they
/// stand for: positive patterns grow with their bits, negative ones shrink,
/// and both zeros map to zero.
pub open spec fn magnitude_key(bits: u32) -> int {
    if bits < SIGN_BIT {
        bits as int
    } else {
        -((bits - SIGN_BIT) as int)
    }
}

/// Number of bins that the peak search covers: for real input the upper
/// half of the spectrum mirrors the lower half.
pub open spec fn searched_bins(n: nat) -> nat {
    n / 2
}

/// Bin `k` is the peak of `mags`: it is searched, not NaN, no searched
/// non-NaN bin exceeds it, and every earlier non-NaN bin is smaller.
pub open spec fn is_peak(mags: Seq<u32>, k: int) -> bool {
    &&& 0 <= k < searched_bins(mags.len())
    &&& !is_nan_bits(mags[k])
    &&& forall|j: int|
        0 <= j < searched_bins(mags.len()) && !is_nan_bits(mags[j]) ==> magnitude_key(
            #[trigger] mags[j],
        ) <= magnitude_key(mags[k])
    &&& forall|j: int|
        0 <= j < k && !is_nan_bits(mags[j]) ==> magnitude_key(#[trigger] mags[j])
            < magnitude_key(mags[k])
}

/// Some searched bin is not NaN.
pub open spec fn has_candidate(mags: Seq<u32>) -> bool {
    exists|j: int| 0 <= j < searched_bins(mags.len()) && !is_nan_bits(#[trigger] mags[j])
}

/// Frequency of bin `bin` of an `n`-point transform at `sample_rate`, in
/// millihertz rounded down: `bin * sample_rate / n` hertz.
pub open spec fn bin_frequency_millihertz(bin: int, sample_rate: int, n: int) -> int {
    bin * sample_rate * 1000 / n
}

/// At most one bin is the peak, so the reported bin depends on the
/// magnitudes alone: any two backends that yield the same magnitudes yield
/// the same resonance.
pub proof fn lemma_peak_unique(mags: Seq<u32>, k1: int, k2: int)
    requires
        is_peak(mags, k1),
        is_peak(mags, k2),
    ensures
        k1 == k2,
{
    if k1 < k2 {
        assert(magnitude_key(mags[k1]) < magnitude_key(mags[k2]));
        assert(magnitude_key(mags[k2]) <= magnitude_key(mags[k1]));
    } else if k2 < k1 {
        assert(magnitude_key(mags[k2]) < magnitude_key(mags[k1]));
        assert(magnitude_key(mags[k1]) <= magnitude_key(mags[k2]));
    }
}

/// A frequency that lies exactly on a bin, `f_mhz * n == bin * sample_rate
/// * 1000`, is reported for that bin exactly, with no rounding.
pub proof fn lemma_bin_frequency_exact(bin: nat, sample_rate: nat, n: nat, f_mhz: nat)
    requires
        n > 0,
        f_mhz * n == bin * sample_rate * 1000,
    ensures
        bin_frequency_millihertz(bin as int, sample_rate as int, n as int) == f_mhz,
{
    lemma_div_by_multiple(f_mhz as int, n as int);
}

/// Why no resonance could be reported.
#[derive(Debug, Clone, Copy, PartialEq, Eq, Structural)]
pub enum AnalysisError {
    /// The captured buffer holds no sample.
    EmptyBuffer,
    /// The sample rate was zero.
    InvalidSampleRate,
    /// A single sample leaves no bin to search.
    TooShort,
    /// Every searched bin is NaN.
    NoFiniteMagnitude,
}

/// The error, if any, that a spectrum and rate give, checked in this order.
pub open spec fn analysis_error(mags: Seq<u32>, sample_rate: nat) -> Option<AnalysisError> {
    if mags.len() == 0 {
        Some(AnalysisError::EmptyBuffer)
    } else if sample_rate == 0 {
        Some(AnalysisError::InvalidSampleRate)
    } else if mags.len() < 2 {
        Some(AnalysisError::TooShort)
    } else if !has_candidate(mags) {
        Some(AnalysisError::NoFiniteMagnitude)
    } else {
        None
    }
}

/// The bin of greatest magnitude in an `num_samples`-point spectrum taken
/// at `sample_rate`.
#[derive(Debug, Clone, Copy, PartialEq, Eq, Structural)]
pub struct Resonance {
    pub bin: usize,
    pub num_samples: usize,
    pub sample_rate: u32,
}

impl Resonance {
    /// The resonance frequency, `bin * sample_rate / num_samples` hertz, in
    /// millihertz rounded down.
    pub fn frequency_millihertz(&self) -> (r: u64)
        requires
            self.bin < self.num_samples,
        ensures
            r == bin_frequency_millihertz(
                self.bin as int,
                self.sample_rate as int,
                self.num_samples as int,
            ),
    {
        bin_millihertz(self.bin, self.sample_rate, self.num_samples)
    }

    /// Width of one bin, `sample_rate / num_samples` hertz, in millihertz
    /// rounded down: the uncertainty of the reported frequency.
    pub fn resolution_millihertz(&self) -> (r: u64)
        requires
            self.num_samples > 0,
        ensures
            r == bin_frequency_millihertz(1, self.sample_rate as int, self.num_samples as int),
    {
        bin_millihertz(1, self.sample_rate, self.num_samples)
    }
}

/// Width of one bin of a `num_samples`-point transform at `sample_rate`,
/// in millihertz rounded down.
pub fn frequency_resolution_millihertz(sample_rate: u32, num_samples: usize) -> (r: u64)
    requires
        num_samples > 0,
    ensures
        r == bin_frequency_millihertz(1, sample_rate as int, num_samples as int),
{
    bin_millihertz(1, sample_rate, num_samples)
}

fn bin_millihertz(bin: usize, sample_rate: u32, n: usize) -> (r: u64)
    requires
        0 < n,
        bin <= n,
    ensures
        r == bin_frequency_millihertz(bin as int, sample_rate as int, n as int),
{
    proof {
        let scaled = sample_rate as int * 1000;
        lemma_mul_upper_bound(bin as int, n as int, scaled, scaled);
        lemma_mul_upper_bound(bin as int, 0xffff_ffff_ffff_ffff, scaled, 0xffff_ffff * 1000int);
        assert(bin * sample_rate * 1000 == bin * scaled) by (nonlinear_arith)
            requires
                scaled == sample_rate as int * 1000,
        ;
        lemma_div_is_ordered(bin * scaled, n * scaled, n as int);
        lemma_div_by_multiple(scaled, n as int);
        assert(n * scaled == scaled * n) by (nonlinear_arith);
    }
    let numerator: u128 = (bin as u128) * (sample_rate as u128) * 1000;
    (numerator / (n as u128)) as u64
}

/// `magnitude_key`, computed.
fn magnitude_key_exec(bits: u32) -> (r: i64)
    ensures
        r == magnitude_key(bits),
{
    if bits < SIGN_BIT {
        bits as i64
    } else {
        -((bits - SIGN_BIT) as i64)
    }
}

/// Locates the resonance in a spectrum of `mags.len()` bins taken at
/// `sample_rate`: the first bin of greatest magnitude among the lower
/// half, NaN bins never chosen.
pub fn freq_of_resonance(mags: &Vec<u32>, sample_rate: u32) -> (r: Result<Resonance, AnalysisError>)
    ensures
        match r {
            Ok(res) => {
                &&& analysis_error(mags@, sample_rate as nat).is_none()
                &&& res.num_samples == mags@.len()
                &&& res.sample_rate == sample_rate
                &&& is_peak(mags@, res.bin as int)
            },
            Err(e) => analysis_error(mags@, sample_rate as nat) == Some(e),
        },
{
    let n = mags.len();
    if n == 0 {
        return Err(AnalysisError::EmptyBuffer);
    }
    if sample_rate == 0 {
        return Err(AnalysisError::InvalidSampleRate);
    }
    if n < 2 {
        return Err(AnalysisError::TooShort);
    }
    let half = n / 2;
    let mut best: Option<usize> = None;
    let mut j: usize = 0;
    while j < half
        invariant
            half == searched_bins(mags@.len()),
            half <= mags@.len(),
            j <= half,
            best.is_none() ==> forall|k: int| 0 <= k < j ==> is_nan_bits(#[trigger] mags@[k]),
            best matches Some(b) ==> {
                &&& b < j
                &&& !is_nan_bits(mags@[b as int])
                &&& forall|k: int|
                    0 <= k < j && !is_nan_bits(mags@[k]) ==> magnitude_key(#[trigger] mags@[k])
                        <= magnitude_key(mags@[b as int])
                &&& forall|k: int|
                    0 <= k < b && !is_nan_bits(mags@[k]) ==> magnitude_key(#[trigger] mags@[k])
                        < magnitude_key(mags@[b as int])
            },
        decreases half - j,
    {
        let bits = mags[j];
        if bits % SIGN_BIT <= POSITIVE_INFINITY_BITS {
            match best {
                None => {
                    best = Some(j);
                },
                Some(b) => {
                    if magnitude_key_exec(bits) > magnitude_key_exec(mags[b]) {
                        best = Some(j);
                    }
                },
            }
        }
        j = j + 1;
    }
    match best {
        Some(b) => Ok(Resonance { bin: b, num_samples: n, sample_rate }),
        None => Err(AnalysisError::NoFiniteMagnitude),
    }
}

} // verus!
