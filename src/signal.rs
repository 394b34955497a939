//! Excitation signals: sizing, the linear sweep law, and per-sample phase.

use vstd::arithmetic::div_mod::{
    lemma_div_by_multiple, lemma_div_is_ordered, lemma_fundamental_div_mod, lemma_mod_bound,
};
use vstd::arithmetic::mul::lemma_mul_upper_bound;
use vstd::prelude::*;

use crate::cursor::SampleCursor;

verus! {

/// Number of milliseconds in a second.
pub const MILLIS_PER_SECOND: u64 = 1000;

/// `round(sample_rate * duration)` for a duration given in milliseconds,
/// halves rounded up.
pub open spec fn rounded_sample_count(sample_rate: nat, duration_ms: nat) -> nat {
    (sample_rate * duration_ms + 500) / 1000
}

proof fn lemma_u32_product_fits(a: nat, b: nat)
    requires
        a <= 0xffff_ffff,
        b <= 0xffff_ffff,
    ensures
        a * b <= 0xffff_fffe_0000_0001,
{
    assert(a * b <= 0xffff_ffff * 0xffff_ffff) by (nonlinear_arith)
        requires
            a <= 0xffff_ffff,
            b <= 0xffff_ffff,
    ;
}

/// Why a signal could not be built.
#[derive(Debug, Clone, Copy, PartialEq, Eq, Structural)]
pub enum SignalError {
    /// The sample rate was zero.
    InvalidSampleRate,
    /// The duration was zero.
    InvalidDuration,
    /// Rate and duration round to no sample at all.
    EmptySignal,
    /// More samples than a `u32` can count.
    TooLong,
}

/// Number of samples in a signal of `duration_ms` milliseconds at
/// `sample_rate` samples per second.
pub fn sample_count(sample_rate: u32, duration_ms: u32) -> (r: u64)
    ensures
        r == rounded_sample_count(sample_rate as nat, duration_ms as nat),
{
    proof {
        lemma_u32_product_fits(sample_rate as nat, duration_ms as nat);
    }
    let product: u64 = (sample_rate as u64) * (duration_ms as u64);
    (product + 500) / MILLIS_PER_SECOND
}

/// Largest sweep span (`sample_rate * duration_ms`) whose sample count
/// still fits a `u32`.
pub const MAX_SWEEP_SPAN: u64 = 4_294_967_295_499;

/// A fraction of one cycle, `num / den` with `num < den`: where in its
/// period a sample falls. A sample's value is a function of its phase.
#[derive(Debug, Clone, Copy, PartialEq, Eq, Structural)]
pub struct Phase {
    pub num: u128,
    pub den: u128,
}

/// The weighted sum `start * (span - pos) + end * pos`. Divided by `span`
/// it is the frequency of a linear sweep from `start` to `end` at the
/// fraction `pos / span` of its duration.
pub open spec fn sweep_weight(start: int, end: int, span: int, pos: int) -> int {
    start * (span - pos) + end * pos
}

/// Instantaneous frequency of a linear sweep in millihertz, rounded down:
/// `start + (end - start) * pos / span`, times a thousand.
pub open spec fn sweep_millihertz(start: int, end: int, span: int, pos: int) -> int {
    1000 * sweep_weight(start, end, span, pos) / span
}

/// The span that sample positions of a chirp are measured against:
/// sample `i` lies at time `i / rate`, the fraction
/// `1000 * i / (rate * duration_ms)` of the chirp.
pub open spec fn chirp_span(sample_rate: int, duration_ms: int) -> int {
    sample_rate * duration_ms
}

/// Position of sample `i` on the chirp span.
pub open spec fn chirp_position(i: int) -> int {
    1000 * i
}

/// Denominator of the cycle count of a chirp sample.
pub open spec fn chirp_cycles_den(sample_rate: int, duration_ms: int) -> int {
    chirp_span(sample_rate, duration_ms) * sample_rate
}

/// Cycles elapsed at chirp sample `i`, over `chirp_cycles_den`:
/// `f(t) * t` with `f(t) = weight / span` and `t = i / rate`.
pub open spec fn chirp_cycles_num(
    start: int,
    end: int,
    sample_rate: int,
    duration_ms: int,
    i: int,
) -> int {
    i * sweep_weight(start, end, chirp_span(sample_rate, duration_ms), chirp_position(i))
}

/// Phase of chirp sample `i`: its cycle count modulo one.
pub open spec fn chirp_phase(
    start: int,
    end: int,
    sample_rate: int,
    duration_ms: int,
    i: int,
) -> Phase {
    let den = chirp_cycles_den(sample_rate, duration_ms);
    Phase {
        num: (chirp_cycles_num(start, end, sample_rate, duration_ms, i) % den) as u128,
        den: den as u128,
    }
}

/// Phase of sample `i` of a tone: `frequency * i / rate` cycles, modulo one.
pub open spec fn wave_phase(frequency: int, sample_rate: int, i: int) -> Phase {
    Phase { num: ((frequency * i) % sample_rate) as u128, den: sample_rate as u128 }
}

proof fn lemma_product_le(a: int, b: int, ab: int, bb: int)
    requires
        0 <= a <= ab,
        0 <= b <= bb,
    ensures
        0 <= a * b <= ab * bb,
{
    lemma_mul_upper_bound(a, ab, b, bb);
    assert(0 <= a * b) by (nonlinear_arith)
        requires
            0 <= a,
            0 <= b,
    ;
}

/// The sweep weight lies between zero and `max(start, end) * span`.
proof fn lemma_sweep_weight_bounds(start: int, end: int, span: int, pos: int, top: int)
    requires
        0 <= start <= top,
        0 <= end <= top,
        0 <= pos <= span,
    ensures
        0 <= sweep_weight(start, end, span, pos) <= top * span,
{
    lemma_product_le(start, span - pos, top, span - pos);
    lemma_product_le(end, pos, top, pos);
    assert(top * (span - pos) + top * pos == top * span) by (nonlinear_arith);
}

/// A linear sweep starts at its start frequency and ends at its end
/// frequency: at time zero its instantaneous frequency is `start`, and at
/// the full duration it is `end`, exactly.
pub proof fn lemma_sweep_endpoints(start: u32, end: u32, span: int)
    requires
        span > 0,
    ensures
        sweep_millihertz(start as int, end as int, span, 0) == 1000 * start,
        sweep_millihertz(start as int, end as int, span, span) == 1000 * end,
{
    assert(sweep_weight(start as int, end as int, span, 0) == start * span) by (nonlinear_arith);
    assert(sweep_weight(start as int, end as int, span, span) == end * span) by (nonlinear_arith);
    assert(1000 * (start * span) == (1000 * start) * span) by (nonlinear_arith);
    assert(1000 * (end * span) == (1000 * end) * span) by (nonlinear_arith);
    lemma_div_by_multiple(1000 * start, span);
    lemma_div_by_multiple(1000 * end, span);
}

/// Computes `sweep_millihertz` for spans of up to 64 bits.
fn sweep_millihertz_exec(start: u32, end: u32, span: u128, pos: u128) -> (r: u64)
    requires
        0 < span <= 0xffff_ffff_ffff_ffff,
        pos <= span,
    ensures
        r == sweep_millihertz(start as int, end as int, span as int, pos as int),
        r <= 1000 * (if start >= end { start as int } else { end as int }),
{
    let top: u32 = if start >= end { start } else { end };
    proof {
        lemma_sweep_weight_bounds(start as int, end as int, span as int, pos as int, top as int);
        lemma_product_le(start as int, (span - pos) as int, 0xffff_ffff, 0xffff_ffff_ffff_ffff);
        lemma_product_le(end as int, pos as int, 0xffff_ffff, 0xffff_ffff_ffff_ffff);
    }
    let weight: u128 = (start as u128) * (span - pos) + (end as u128) * pos;
    proof {
        lemma_product_le(top as int, span as int, 0xffff_ffff, 0xffff_ffff_ffff_ffff);
        lemma_div_is_ordered(1000 * weight, 1000 * (top * span), span as int);
        lemma_div_by_multiple(1000 * top, span as int);
        assert(1000 * (top * span) == (1000 * top) * span) by (nonlinear_arith);
    }
    let r: u128 = 1000 * weight / span;
    r as u64
}

/// Computes `chirp_phase` for sample positions inside the chirp.
fn chirp_phase_exec(start: u32, end: u32, sample_rate: u32, duration_ms: u32, i: u32) -> (r: Phase)
    requires
        0 < chirp_span(sample_rate as int, duration_ms as int) <= MAX_SWEEP_SPAN,
        chirp_position(i as int) < chirp_span(sample_rate as int, duration_ms as int),
    ensures
        r == chirp_phase(start as int, end as int, sample_rate as int, duration_ms as int, i as int),
        r.num < r.den,
{
    let span: u128 = (sample_rate as u128) * (duration_ms as u128);
    let pos: u128 = 1000 * (i as u128);
    let top: u32 = if start >= end { start } else { end };
    proof {
        lemma_sweep_weight_bounds(start as int, end as int, span as int, pos as int, top as int);
        lemma_product_le(start as int, (span - pos) as int, 0xffff_ffff, MAX_SWEEP_SPAN as int);
        lemma_product_le(end as int, pos as int, 0xffff_ffff, MAX_SWEEP_SPAN as int);
        lemma_product_le(top as int, span as int, 0xffff_ffff, MAX_SWEEP_SPAN as int);
    }
    let weight: u128 = (start as u128) * (span - pos) + (end as u128) * pos;
    proof {
        lemma_product_le(i as int, weight as int, 0xffff_ffff, 0xffff_ffff * MAX_SWEEP_SPAN);
        lemma_product_le(span as int, sample_rate as int, MAX_SWEEP_SPAN as int, 0xffff_ffff);
        assert(sample_rate > 0) by (nonlinear_arith)
            requires
                span == sample_rate * duration_ms,
                span > 0,
        ;
        assert(span * sample_rate > 0) by (nonlinear_arith)
            requires
                span > 0,
                sample_rate > 0,
        ;
    }
    let den: u128 = span * (sample_rate as u128);
    let cycles: u128 = (i as u128) * weight;
    proof {
        lemma_mod_bound(cycles as int, den as int);
    }
    Phase { num: cycles % den, den }
}

/// The error, if any, that parameters of a generated signal give, checked
/// in this order.
pub open spec fn generation_error(sample_rate: nat, duration_ms: nat) -> Option<SignalError> {
    if sample_rate == 0 {
        Some(SignalError::InvalidSampleRate)
    } else if duration_ms == 0 {
        Some(SignalError::InvalidDuration)
    } else if rounded_sample_count(sample_rate, duration_ms) == 0 {
        Some(SignalError::EmptySignal)
    } else if rounded_sample_count(sample_rate, duration_ms) > 0xffff_ffff {
        Some(SignalError::TooLong)
    } else {
        None
    }
}

/// Duration of a recording, `len / sample_rate` seconds, in milliseconds
/// rounded up: positive for every non-empty recording, and never short of
/// the time the recording takes to play.
pub open spec fn recording_duration_ms(len: nat, sample_rate: nat) -> nat {
    ((len * 1000 + sample_rate - 1) / (sample_rate as int)) as nat
}

/// The error, if any, that a recording gives, checked in this order.
pub open spec fn recording_error(len: nat, sample_rate: nat) -> Option<SignalError> {
    if sample_rate == 0 {
        Some(SignalError::InvalidSampleRate)
    } else if len == 0 {
        Some(SignalError::EmptySignal)
    } else if len > 0xffff_ffff {
        Some(SignalError::TooLong)
    } else {
        None
    }
}

/// Samples of a signal accepted by `generation_error` sit strictly before
/// the end of its span, and the span is in range.
proof fn lemma_generated_positions(sample_rate: nat, duration_ms: nat, i: nat)
    requires
        generation_error(sample_rate, duration_ms).is_none(),
        i < rounded_sample_count(sample_rate, duration_ms),
    ensures
        0 < chirp_span(sample_rate as int, duration_ms as int) <= MAX_SWEEP_SPAN,
        chirp_position(i as int) < chirp_span(sample_rate as int, duration_ms as int),
{
    let span: int = (sample_rate * duration_ms) as int;
    lemma_fundamental_div_mod(span + 500, 1000);
    lemma_mod_bound(span + 500, 1000);
    assert(span > 0) by (nonlinear_arith)
        requires
            sample_rate > 0,
            duration_ms > 0,
            span == sample_rate * duration_ms,
    ;
}

/// Distance from `a` to `b`.
pub open spec fn distance(a: int, b: int) -> int {
    if a >= b {
        a - b
    } else {
        b - a
    }
}

/// The last sample of a generated sweep lies between a half and one and a
/// half sample periods before the end of the sweep, so its instantaneous
/// frequency, `weight / span` hertz, is within
/// `1.5 * |end - start| / (sample_rate * duration)` hertz of `end`: within
/// one sample's resolution.
pub proof fn lemma_last_sample_near_end(start: u32, end: u32, sample_rate: u32, duration_ms: u32)
    requires
        generation_error(sample_rate as nat, duration_ms as nat).is_none(),
    ensures
        ({
            let span = chirp_span(sample_rate as int, duration_ms as int);
            let last = rounded_sample_count(sample_rate as nat, duration_ms as nat) - 1;
            let pos = chirp_position(last);
            &&& 500 <= span - pos < 1500
            &&& distance(sweep_weight(start as int, end as int, span, pos), end * span) <= 1500
                * distance(start as int, end as int)
        }),
{
    let span = chirp_span(sample_rate as int, duration_ms as int);
    let n = rounded_sample_count(sample_rate as nat, duration_ms as nat) as int;
    let pos = chirp_position(n - 1);
    let rem = (span + 500) % 1000;
    lemma_fundamental_div_mod(span + 500, 1000);
    lemma_mod_bound(span + 500, 1000);
    assert(span - pos == rem + 500);
    let gap = span - pos;
    let diff = start as int - end as int;
    assert(sweep_weight(start as int, end as int, span, pos) - end * span == diff * gap)
        by (nonlinear_arith)
        requires
            gap == span - pos,
            diff == start as int - end as int,
    ;
    assert(distance(diff * gap, 0) <= 1500 * distance(start as int, end as int))
        by (nonlinear_arith)
        requires
            0 < gap < 1500,
            diff == start as int - end as int,
    ;
}

/// A fixed-frequency tone, precomputed: sample `i` is the sample function
/// applied to `wave_phase(frequency, sample_rate, i)`.
pub struct Wave<S> {
    sample_rate: u32,
    frequency: u32,
    duration_ms: u32,
    cursor: SampleCursor<S>,
}

impl<S> Wave<S> {
    pub closed spec fn rate(&self) -> nat {
        self.sample_rate as nat
    }

    pub closed spec fn tone(&self) -> nat {
        self.frequency as nat
    }

    pub closed spec fn duration(&self) -> nat {
        self.duration_ms as nat
    }

    pub closed spec fn samples_view(&self) -> Seq<S> {
        self.cursor.samples_view()
    }

    /// How many samples have been handed out.
    pub closed spec fn position(&self) -> nat {
        self.cursor.position()
    }

    pub open spec fn well_formed(&self) -> bool {
        &&& self.rate() > 0
        &&& self.duration() > 0
        &&& 0 < self.samples_view().len() <= 0xffff_ffff
        &&& self.position() <= self.samples_view().len()
    }

    /// Precomputes a tone of `frequency` hertz lasting `duration_ms`
    /// milliseconds at `sample_rate` samples per second:
    /// `round(sample_rate * duration)` samples, sample `i` being `synth`
    /// of its phase.
    pub fn new<F: Fn(Phase) -> S>(sample_rate: u32, frequency: u32, duration_ms: u32, synth: F) -> (r:
        Result<Wave<S>, SignalError>)
        requires
            forall|p: Phase| p.num < p.den ==> #[trigger] synth.requires((p,)),
        ensures
            match r {
                Ok(w) => {
                    &&& generation_error(sample_rate as nat, duration_ms as nat).is_none()
                    &&& w.well_formed()
                    &&& w.rate() == sample_rate
                    &&& w.tone() == frequency
                    &&& w.duration() == duration_ms
                    &&& w.position() == 0
                    &&& w.samples_view().len() == rounded_sample_count(
                        sample_rate as nat,
                        duration_ms as nat,
                    )
                    &&& forall|i: int|
                        0 <= i < w.samples_view().len() ==> synth.ensures(
                            (wave_phase(frequency as int, sample_rate as int, i),),
                            #[trigger] w.samples_view()[i],
                        )
                },
                Err(e) => generation_error(sample_rate as nat, duration_ms as nat) == Some(e),
            },
    {
        let n: u32 = match check_generation(sample_rate, duration_ms) {
            Ok(n) => n,
            Err(e) => {
                return Err(e);
            },
        };
        let mut samples: Vec<S> = Vec::new();
        let mut i: u32 = 0;
        while i < n
            invariant
                n == rounded_sample_count(sample_rate as nat, duration_ms as nat),
                sample_rate > 0,
                i <= n,
                samples@.len() == i,
                forall|p: Phase| p.num < p.den ==> #[trigger] synth.requires((p,)),
                forall|k: int|
                    0 <= k < i ==> synth.ensures(
                        (wave_phase(frequency as int, sample_rate as int, k),),
                        #[trigger] samples@[k],
                    ),
            decreases n - i,
        {
            proof {
                lemma_product_le(frequency as int, i as int, 0xffff_ffff, 0xffff_ffff);
                lemma_mod_bound(frequency * i, sample_rate as int);
            }
            let cycles: u128 = (frequency as u128) * (i as u128);
            let phase = Phase { num: cycles % (sample_rate as u128), den: sample_rate as u128 };
            let value = synth(phase);
            samples.push(value);
            i = i + 1;
        }
        Ok(Wave { sample_rate, frequency, duration_ms, cursor: SampleCursor::new(samples) })
    }

    /// Samples per second.
    pub fn sample_rate(&self) -> (r: u32)
        ensures
            r == self.rate(),
    {
        self.sample_rate
    }

    /// The tone's frequency in hertz.
    pub fn frequency(&self) -> (r: u32)
        ensures
            r == self.tone(),
    {
        self.frequency
    }

    /// Nominal duration in milliseconds.
    pub fn duration_ms(&self) -> (r: u32)
        ensures
            r == self.duration(),
    {
        self.duration_ms
    }

    /// Every sample, consumed or not.
    pub fn samples(&self) -> (r: &Vec<S>)
        ensures
            r@ == self.samples_view(),
    {
        self.cursor.samples()
    }

    /// A tone is mono.
    pub fn channels(&self) -> (r: u16)
        ensures
            r == 1,
    {
        1
    }

    /// Number of samples not yet handed out.
    pub fn current_frame_len(&self) -> (r: usize)
        requires
            self.well_formed(),
        ensures
            r == self.samples_view().len() - self.position(),
    {
        self.cursor.remaining()
    }

    /// Length of the whole tone in nanoseconds, rounded down.
    pub fn total_duration_nanos(&self) -> (r: u64)
        requires
            self.well_formed(),
        ensures
            r == self.samples_view().len() as int * 1_000_000_000 / (self.rate() as int),
    {
        playing_time_nanos(self.cursor.len(), self.sample_rate)
    }
}

impl<S: Copy> Wave<S> {
    /// The next sample, or `None` once the tone is exhausted.
    pub fn next(&mut self) -> (r: Option<S>)
        requires
            old(self).well_formed(),
        ensures
            final(self).well_formed(),
            final(self).samples_view() == old(self).samples_view(),
            final(self).rate() == old(self).rate(),
            final(self).tone() == old(self).tone(),
            final(self).duration() == old(self).duration(),
            old(self).position() < old(self).samples_view().len() ==> {
                &&& r == Some(old(self).samples_view()[old(self).position() as int])
                &&& final(self).position() == old(self).position() + 1
            },
            old(self).position() >= old(self).samples_view().len() ==> {
                &&& r.is_none()
                &&& final(self).position() == old(self).position()
            },
    {
        self.cursor.next()
    }
}

/// A linear frequency sweep, precomputed: its instantaneous frequency at
/// sample `i` is `start + (end - start) * (i / sample_rate) / duration`.
/// Built either from parameters, sample `i` then being the sample function
/// applied to `chirp_phase(..)`, or from a recording, whose frequency
/// fields are then zero and only informative.
pub struct Chirp<S> {
    start_freq: u32,
    end_freq: u32,
    duration_ms: u64,
    sample_rate: u32,
    cursor: SampleCursor<S>,
}

impl<S> Chirp<S> {
    pub closed spec fn start_hz(&self) -> nat {
        self.start_freq as nat
    }

    pub closed spec fn end_hz(&self) -> nat {
        self.end_freq as nat
    }

    pub closed spec fn duration(&self) -> nat {
        self.duration_ms as nat
    }

    pub closed spec fn rate(&self) -> nat {
        self.sample_rate as nat
    }

    pub closed spec fn samples_view(&self) -> Seq<S> {
        self.cursor.samples_view()
    }

    /// How many samples have been handed out.
    pub closed spec fn position(&self) -> nat {
        self.cursor.position()
    }

    /// The span that sample positions are measured against.
    pub open spec fn span(&self) -> int {
        chirp_span(self.rate() as int, self.duration() as int)
    }

    pub open spec fn well_formed(&self) -> bool {
        &&& self.rate() > 0
        &&& 0 < self.span() <= 0xffff_ffff_ffff_ffff
        &&& 0 < self.samples_view().len() <= 0xffff_ffff
        &&& self.position() <= self.samples_view().len()
    }

    /// Precomputes a sweep from `start_freq` to `end_freq` hertz over
    /// `duration_ms` milliseconds at `sample_rate` samples per second:
    /// `round(sample_rate * duration)` samples, sample `i` being `synth`
    /// of its phase.
    pub fn new<F: Fn(Phase) -> S>(
        sample_rate: u32,
        duration_ms: u32,
        start_freq: u32,
        end_freq: u32,
        synth: F,
    ) -> (r: Result<Chirp<S>, SignalError>)
        requires
            forall|p: Phase| p.num < p.den ==> #[trigger] synth.requires((p,)),
        ensures
            match r {
                Ok(c) => {
                    &&& generation_error(sample_rate as nat, duration_ms as nat).is_none()
                    &&& c.well_formed()
                    &&& c.rate() == sample_rate
                    &&& c.duration() == duration_ms
                    &&& c.start_hz() == start_freq
                    &&& c.end_hz() == end_freq
                    &&& c.position() == 0
                    &&& c.samples_view().len() == rounded_sample_count(
                        sample_rate as nat,
                        duration_ms as nat,
                    )
                    &&& forall|i: int|
                        0 <= i < c.samples_view().len() ==> synth.ensures(
                            (
                                chirp_phase(
                                    start_freq as int,
                                    end_freq as int,
                                    sample_rate as int,
                                    duration_ms as int,
                                    i,
                                ),
                            ),
                            #[trigger] c.samples_view()[i],
                        )
                },
                Err(e) => generation_error(sample_rate as nat, duration_ms as nat) == Some(e),
            },
    {
        let n: u32 = match check_generation(sample_rate, duration_ms) {
            Ok(n) => n,
            Err(e) => {
                return Err(e);
            },
        };
        proof {
            lemma_generated_positions(sample_rate as nat, duration_ms as nat, 0);
        }
        let mut samples: Vec<S> = Vec::new();
        let mut i: u32 = 0;
        while i < n
            invariant
                n == rounded_sample_count(sample_rate as nat, duration_ms as nat),
                generation_error(sample_rate as nat, duration_ms as nat).is_none(),
                i <= n,
                samples@.len() == i,
                forall|p: Phase| p.num < p.den ==> #[trigger] synth.requires((p,)),
                forall|k: int|
                    0 <= k < i ==> synth.ensures(
                        (
                            chirp_phase(
                                start_freq as int,
                                end_freq as int,
                                sample_rate as int,
                                duration_ms as int,
                                k,
                            ),
                        ),
                        #[trigger] samples@[k],
                    ),
            decreases n - i,
        {
            proof {
                lemma_generated_positions(sample_rate as nat, duration_ms as nat, i as nat);
            }
            let phase = chirp_phase_exec(start_freq, end_freq, sample_rate, duration_ms, i);
            let value = synth(phase);
            samples.push(value);
            i = i + 1;
        }
        Ok(
            Chirp {
                start_freq,
                end_freq,
                duration_ms: duration_ms as u64,
                sample_rate,
                cursor: SampleCursor::new(samples),
            },
        )
    }

    /// A chirp replaying recorded samples taken at `sample_rate`. Any
    /// non-empty recording at a positive rate is accepted; its duration is
    /// the recording's length in milliseconds, rounded up; its frequency
    /// fields are zero.
    pub fn from_recording(samples: Vec<S>, sample_rate: u32) -> (r: Result<Chirp<S>, SignalError>)
        ensures
            match r {
                Ok(c) => {
                    &&& recording_error(samples@.len(), sample_rate as nat).is_none()
                    &&& c.well_formed()
                    &&& c.rate() == sample_rate
                    &&& c.duration() == recording_duration_ms(samples@.len(), sample_rate as nat)
                    &&& c.start_hz() == 0
                    &&& c.end_hz() == 0
                    &&& c.position() == 0
                    &&& c.samples_view() == samples@
                },
                Err(e) => recording_error(samples@.len(), sample_rate as nat) == Some(e),
            },
    {
        if sample_rate == 0 {
            return Err(SignalError::InvalidSampleRate);
        }
        let len = samples.len();
        if len == 0 {
            return Err(SignalError::EmptySignal);
        }
        if len > 0xffff_ffff {
            return Err(SignalError::TooLong);
        }
        proof {
            lemma_product_le(len as int, 1000, 0xffff_ffff, 1000);
        }
        let total_ms: u64 = (len as u64) * 1000;
        let duration_ms: u64 = (total_ms + (sample_rate as u64) - 1) / (sample_rate as u64);
        proof {
            let rounded_up: int = total_ms + sample_rate - 1;
            let rate: int = sample_rate as int;
            let q: int = duration_ms as int;
            let m: int = rounded_up % rate;
            lemma_fundamental_div_mod(rounded_up, rate);
            lemma_mod_bound(rounded_up, rate);
            assert(q > 0) by (nonlinear_arith)
                requires
                    rounded_up == rate * q + m,
                    m < rate,
                    rounded_up >= rate,
                    rate > 0,
            ;
            assert(sample_rate * duration_ms > 0) by (nonlinear_arith)
                requires
                    sample_rate > 0,
                    duration_ms > 0,
            ;
        }
        Ok(
            Chirp {
                start_freq: 0,
                end_freq: 0,
                duration_ms,
                sample_rate,
                cursor: SampleCursor::new(samples),
            },
        )
    }

    /// Frequency at the start of the sweep, in hertz.
    pub fn start_freq(&self) -> (r: u32)
        ensures
            r == self.start_hz(),
    {
        self.start_freq
    }

    /// Frequency at the end of the sweep, in hertz.
    pub fn end_freq(&self) -> (r: u32)
        ensures
            r == self.end_hz(),
    {
        self.end_freq
    }

    /// Nominal duration in milliseconds.
    pub fn duration_ms(&self) -> (r: u64)
        ensures
            r == self.duration(),
    {
        self.duration_ms
    }

    /// Samples per second.
    pub fn sample_rate(&self) -> (r: u32)
        ensures
            r == self.rate(),
    {
        self.sample_rate
    }

    /// Every sample, consumed or not.
    pub fn samples(&self) -> (r: &Vec<S>)
        ensures
            r@ == self.samples_view(),
    {
        self.cursor.samples()
    }

    /// A chirp is mono.
    pub fn channels(&self) -> (r: u16)
        ensures
            r == 1,
    {
        1
    }

    /// Number of samples not yet handed out.
    pub fn current_frame_len(&self) -> (r: usize)
        requires
            self.well_formed(),
        ensures
            r == self.samples_view().len() - self.position(),
    {
        self.cursor.remaining()
    }

    /// Length of the whole chirp in nanoseconds, rounded down.
    pub fn total_duration_nanos(&self) -> (r: u64)
        requires
            self.well_formed(),
        ensures
            r == self.samples_view().len() as int * 1_000_000_000 / (self.rate() as int),
    {
        playing_time_nanos(self.cursor.len(), self.sample_rate)
    }

    /// Instantaneous frequency at sample `i`, in millihertz rounded down.
    /// Positions past the nominal duration read as its end.
    pub fn frequency_at_millihertz(&self, i: usize) -> (r: u64)
        requires
            self.well_formed(),
            i < self.samples_view().len(),
        ensures
            r == sweep_millihertz(
                self.start_hz() as int,
                self.end_hz() as int,
                self.span(),
                if chirp_position(i as int) <= self.span() {
                    chirp_position(i as int)
                } else {
                    self.span()
                },
            ),
    {
        let span: u128 = (self.sample_rate as u128) * (self.duration_ms as u128);
        let position: u128 = 1000 * (i as u128);
        let pos: u128 = if position <= span {
            position
        } else {
            span
        };
        sweep_millihertz_exec(self.start_freq, self.end_freq, span, pos)
    }
}

impl<S: Copy> Chirp<S> {
    /// The next sample, or `None` once the chirp is exhausted.
    pub fn next(&mut self) -> (r: Option<S>)
        requires
            old(self).well_formed(),
        ensures
            final(self).well_formed(),
            final(self).samples_view() == old(self).samples_view(),
            final(self).rate() == old(self).rate(),
            final(self).duration() == old(self).duration(),
            final(self).start_hz() == old(self).start_hz(),
            final(self).end_hz() == old(self).end_hz(),
            old(self).position() < old(self).samples_view().len() ==> {
                &&& r == Some(old(self).samples_view()[old(self).position() as int])
                &&& final(self).position() == old(self).position() + 1
            },
            old(self).position() >= old(self).samples_view().len() ==> {
                &&& r.is_none()
                &&& final(self).position() == old(self).position()
            },
    {
        self.cursor.next()
    }
}

/// An excitation signal: a sweep or a tone, consumed once.
pub enum ExcitationSignal<S> {
    Chirp(Chirp<S>),
    Wave(Wave<S>),
}

impl<S> ExcitationSignal<S> {
    pub open spec fn well_formed(&self) -> bool {
        match self {
            ExcitationSignal::Chirp(c) => c.well_formed(),
            ExcitationSignal::Wave(w) => w.well_formed(),
        }
    }

    pub open spec fn samples_view(&self) -> Seq<S> {
        match self {
            ExcitationSignal::Chirp(c) => c.samples_view(),
            ExcitationSignal::Wave(w) => w.samples_view(),
        }
    }

    /// How many samples have been handed out.
    pub open spec fn position(&self) -> nat {
        match self {
            ExcitationSignal::Chirp(c) => c.position(),
            ExcitationSignal::Wave(w) => w.position(),
        }
    }

    pub open spec fn rate(&self) -> nat {
        match self {
            ExcitationSignal::Chirp(c) => c.rate(),
            ExcitationSignal::Wave(w) => w.rate(),
        }
    }

    pub open spec fn duration(&self) -> nat {
        match self {
            ExcitationSignal::Chirp(c) => c.duration(),
            ExcitationSignal::Wave(w) => w.duration(),
        }
    }

    /// Nominal duration in milliseconds.
    pub fn duration_ms(&self) -> (r: u64)
        ensures
            r == self.duration(),
    {
        match self {
            ExcitationSignal::Chirp(c) => c.duration_ms(),
            ExcitationSignal::Wave(w) => w.duration_ms() as u64,
        }
    }

    /// Samples per second.
    pub fn sample_rate(&self) -> (r: u32)
        ensures
            r == self.rate(),
    {
        match self {
            ExcitationSignal::Chirp(c) => c.sample_rate(),
            ExcitationSignal::Wave(w) => w.sample_rate(),
        }
    }

    /// Signals are mono.
    pub fn channels(&self) -> (r: u16)
        ensures
            r == 1,
    {
        1
    }

    /// Number of samples not yet handed out.
    pub fn current_frame_len(&self) -> (r: usize)
        requires
            self.well_formed(),
        ensures
            r == self.samples_view().len() - self.position(),
    {
        match self {
            ExcitationSignal::Chirp(c) => c.current_frame_len(),
            ExcitationSignal::Wave(w) => w.current_frame_len(),
        }
    }

    /// Length of the whole signal in nanoseconds, rounded down.
    pub fn total_duration_nanos(&self) -> (r: u64)
        requires
            self.well_formed(),
        ensures
            r == self.samples_view().len() as int * 1_000_000_000 / (self.rate() as int),
    {
        match self {
            ExcitationSignal::Chirp(c) => c.total_duration_nanos(),
            ExcitationSignal::Wave(w) => w.total_duration_nanos(),
        }
    }
}

impl<S: Copy> ExcitationSignal<S> {
    /// The next sample, or `None` once the signal is exhausted.
    pub fn next(&mut self) -> (r: Option<S>)
        requires
            old(self).well_formed(),
        ensures
            final(self).well_formed(),
            final(self).samples_view() == old(self).samples_view(),
            final(self).rate() == old(self).rate(),
            final(self).duration() == old(self).duration(),
            old(self).position() < old(self).samples_view().len() ==> {
                &&& r == Some(old(self).samples_view()[old(self).position() as int])
                &&& final(self).position() == old(self).position() + 1
            },
            old(self).position() >= old(self).samples_view().len() ==> {
                &&& r.is_none()
                &&& final(self).position() == old(self).position()
            },
    {
        match self {
            ExcitationSignal::Chirp(c) => c.next(),
            ExcitationSignal::Wave(w) => w.next(),
        }
    }
}

/// The sample count of a generated signal, or the error its parameters give.
fn check_generation(sample_rate: u32, duration_ms: u32) -> (r: Result<u32, SignalError>)
    ensures
        match r {
            Ok(n) => generation_error(sample_rate as nat, duration_ms as nat).is_none() && n
                == rounded_sample_count(sample_rate as nat, duration_ms as nat),
            Err(e) => generation_error(sample_rate as nat, duration_ms as nat) == Some(e),
        },
{
    if sample_rate == 0 {
        return Err(SignalError::InvalidSampleRate);
    }
    if duration_ms == 0 {
        return Err(SignalError::InvalidDuration);
    }
    let n = sample_count(sample_rate, duration_ms);
    if n == 0 {
        return Err(SignalError::EmptySignal);
    }
    if n > 0xffff_ffff {
        return Err(SignalError::TooLong);
    }
    Ok(n as u32)
}

/// `len / sample_rate` seconds, in nanoseconds rounded down.
fn playing_time_nanos(len: usize, sample_rate: u32) -> (r: u64)
    requires
        len <= 0xffff_ffff,
        sample_rate > 0,
    ensures
        r == len as int * 1_000_000_000 / (sample_rate as int),
{
    proof {
        let total = len as int * 1_000_000_000;
        lemma_product_le(len as int, 1_000_000_000, 0xffff_ffff, 1_000_000_000);
        lemma_div_is_ordered(0, total, sample_rate as int);
        assert(total / (sample_rate as int) <= total) by (nonlinear_arith)
            requires
                sample_rate >= 1,
                total >= 0,
        ;
    }
    ((len as u64) * 1_000_000_000) / (sample_rate as u64)
}

} // verus!
