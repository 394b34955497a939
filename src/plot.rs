//! Which samples a graph of a signal shows: those played so far, thinned
//! to every n-th, and of a long recording only the most recent window.

use vstd::arithmetic::div_mod::{lemma_fundamental_div_mod, lemma_mod_bound};
use vstd::prelude::*;

verus! {

/// Seconds of recording a graph keeps when it drops older samples.
pub const GRAPH_WINDOW_SECONDS: u32 = 5;

/// `min(elapsed, duration) * sample_rate` samples, the time in
/// milliseconds, rounded down.
pub open spec fn played_samples(elapsed_ms: int, duration_ms: int, sample_rate: int) -> int {
    (if elapsed_ms <= duration_ms {
        elapsed_ms
    } else {
        duration_ms
    }) * sample_rate / 1000
}

/// Number of points when every `factor`-th of `len` samples is taken, the
/// first included, and at most `count / factor` of them.
pub open spec fn thinned_len(len: int, factor: int, count: int) -> int {
    let available = (len + factor - 1) / factor;
    let wanted = count / factor;
    if wanted <= available {
        wanted
    } else {
        available
    }
}

/// How many samples of a signal have played `elapsed_ms` milliseconds
/// after it started, its duration being `duration_ms`.
pub fn samples_to_show(elapsed_ms: u64, duration_ms: u64, sample_rate: u32) -> (r: u128)
    ensures
        r == played_samples(elapsed_ms as int, duration_ms as int, sample_rate as int),
{
    let shown_ms: u64 = if elapsed_ms <= duration_ms {
        elapsed_ms
    } else {
        duration_ms
    };
    assert((shown_ms as int) * (sample_rate as int) <= 0xffff_ffff_ffff_ffff * 0xffff_ffff)
        by (nonlinear_arith)
        requires
            shown_ms <= 0xffff_ffff_ffff_ffff,
            sample_rate <= 0xffff_ffff,
    ;
    (shown_ms as u128) * (sample_rate as u128) / 1000
}

/// Every `factor`-th sample of `samples`, starting with the first, and at
/// most `count / factor` of them: the points of a graph thinned by
/// `factor`.
pub fn downsample<S: Copy>(samples: &Vec<S>, factor: usize, count: usize) -> (r: Vec<S>)
    requires
        factor > 0,
    ensures
        r@.len() == thinned_len(samples@.len() as int, factor as int, count as int),
        r@.len() > 0 ==> (r@.len() - 1) * factor < samples@.len(),
        forall|k: int| 0 <= k < r@.len() ==> #[trigger] r@[k] == samples@[k * factor],
{
    let wanted: usize = count / factor;
    let mut points: Vec<S> = Vec::new();
    let mut index: usize = 0;
    let mut more: bool = samples.len() > 0;
    let ghost len = samples@.len() as int;
    let ghost f = factor as int;
    proof {
        if len > 0 {
            lemma_taken_count(len, f, 1);
        } else {
            assert((f - 1) / f == 0) by (nonlinear_arith)
                requires
                    f > 0,
            ;
        }
    }
    while more && points.len() < wanted
        invariant
            factor > 0,
            f == factor,
            len == samples@.len(),
            wanted == count / factor,
            points@.len() <= wanted,
            points@.len() <= (len + f - 1) / f,
            more ==> index == points@.len() * f && index < len,
            more ==> points@.len() < (len + f - 1) / f,
            !more ==> points@.len() == (len + f - 1) / f,
            points@.len() > 0 ==> (points@.len() - 1) * f < len,
            forall|k: int| 0 <= k < points@.len() ==> #[trigger] points@[k] == samples@[k * factor],
        decreases wanted - points@.len(),
    {
        let ghost taken = points@.len() as int;
        let ghost before = points@;
        points.push(samples[index]);
        proof {
            assert((taken + 1) * f == taken * f + f) by (nonlinear_arith);
            lemma_taken_count(len, f, taken + 1);
            assert forall|k: int| 0 <= k < points@.len() implies #[trigger] points@[k]
                == samples@[k * factor] by {
                if k == taken {
                    assert(points@[k] == samples@[index as int]);
                    assert(k * factor == index);
                } else {
                    assert(points@[k] == before[k]);
                }
            }
        }
        if samples.len() - index <= factor {
            more = false;
        } else {
            index = index + factor;
        }
    }
    points
}

/// After taking the sample at `(p - 1) * f`, the next one lies at `p * f`;
/// `p` points are all there are exactly when that is past the end.
proof fn lemma_taken_count(len: int, f: int, p: int)
    requires
        f > 0,
        p >= 1,
        (p - 1) * f < len,
    ensures
        p <= (len + f - 1) / f,
        p * f < len ==> p < (len + f - 1) / f,
        p * f >= len ==> p == (len + f - 1) / f,
{
    let q = (len + f - 1) / f;
    lemma_fundamental_div_mod(len + f - 1, f);
    lemma_mod_bound(len + f - 1, f);
    assert(f * q <= len + f - 1 && len + f - 1 < f * q + f);
    assert(p <= q) by (nonlinear_arith)
        requires
            (p - 1) * f < len,
            len + f - 1 < f * q + f,
            f > 0,
    ;
    if p * f < len {
        assert(p < q) by (nonlinear_arith)
            requires
                p * f < len,
                len + f - 1 < f * q + f,
                f > 0,
        ;
    }
    if p * f >= len {
        assert(q <= p) by (nonlinear_arith)
            requires
                p * f >= len,
                f * q <= len + f - 1,
                f > 0,
        ;
    }
}

/// Index of the first sample a graph keeps when it shows at most the last
/// `keep` of `len` samples.
pub fn window_start(len: usize, keep: usize) -> (r: usize)
    ensures
        r == if len > keep {
            len - keep
        } else {
            0
        },
{
    if len > keep {
        len - keep
    } else {
        0
    }
}

} // verus!
