//! Bit timing: from a clock, a baud rate and a sample point to the prescaler
//! and the segments of a bit, all counted in time quanta.
//!
//! A bit lasts `1 + tseg1 + tseg2` quanta (one for synchronisation) and a
//! quantum lasts `prescaler` clock cycles. The bus is sampled at the end of
//! `tseg1`.
//!
//! The calculator keeps to prescalers under which both segments lie within
//! the limits of the timing register. Among those it takes the one that
//! misses the baud rate by the fewest clock cycles, then the one that comes
//! closest to the sample point, then the largest. The sample point is rounded
//! to the nearest quantum, and to the earlier one where two are equally near:
//! with an odd number of quanta a sample point of 50.00% is met one half
//! quantum early. Where no prescaler keeps both segments within their limits,
//! the prescaler, the length of the bit and the segments are clamped to them.

use vstd::prelude::*;

verus! {

/// What one timing register can hold, in time quanta and clock cycles.
#[derive(Clone, Copy, Debug)]
pub struct TimingLimits {
    /// The largest prescaler.
    pub prescaler_max: u32,
    /// The shortest first segment.
    pub tseg1_min: u32,
    /// The longest first segment.
    pub tseg1_max: u32,
    /// The shortest second segment.
    pub tseg2_min: u32,
    /// The longest second segment.
    pub tseg2_max: u32,
    /// The largest synchronisation jump width.
    pub sjw_max: u32,
}

/// The timing of one bit, in time quanta; `prescaler` in clock cycles.
#[derive(Clone, Copy, Debug, PartialEq, Eq, Structural)]
pub struct BitTiming {
    /// Clock cycles per time quantum.
    pub prescaler: u16,
    /// Quanta by which a bit may be stretched or shortened to resynchronise.
    pub sync_jump_width: u16,
    /// Quanta between the synchronisation quantum and the sample point.
    pub time_segment_1: u16,
    /// Quanta after the sample point.
    pub time_segment_2: u16,
}

/// The sample point is given in parts of this many.
pub const SAMPLE_POINT_SCALE: u32 = 10000;

impl TimingLimits {
    /// Limits under which every sum of this module fits its type.
    pub open spec fn wf(self) -> bool {
        &&& 1 <= self.prescaler_max <= 512
        &&& 1 <= self.tseg1_min <= self.tseg1_max <= 256
        &&& 1 <= self.tseg2_min <= self.tseg2_max <= 128
        &&& 1 <= self.sjw_max <= 128
    }

    /// The fewest quanta a bit can have.
    pub open spec fn quanta_min(self) -> int {
        1 + self.tseg1_min + self.tseg2_min
    }

    /// The most quanta a bit can have.
    pub open spec fn quanta_max(self) -> int {
        1 + self.tseg1_max + self.tseg2_max
    }
}

/// The limits of the nominal bit timing register.
pub open spec fn nominal_limits() -> TimingLimits {
    TimingLimits {
        prescaler_max: 512,
        tseg1_min: 2,
        tseg1_max: 256,
        tseg2_min: 2,
        tseg2_max: 128,
        sjw_max: 128,
    }
}

/// The limits of the data phase bit timing register, which has narrower fields.
pub open spec fn fast_limits() -> TimingLimits {
    TimingLimits {
        prescaler_max: 32,
        tseg1_min: 1,
        tseg1_max: 32,
        tseg2_min: 1,
        tseg2_max: 16,
        sjw_max: 16,
    }
}

/// `x` moved into `lo..=hi`.
pub open spec fn clamp(x: int, lo: int, hi: int) -> int {
    if x < lo {
        lo
    } else if x > hi {
        hi
    } else {
        x
    }
}

/// The distance between two numbers.
pub open spec fn distance(a: int, b: int) -> int {
    if a >= b {
        a - b
    } else {
        b - a
    }
}

/// Clock cycles per bit: the clock divided by the baud rate, rounded down.
/// A baud rate of 0 counts as 1.
pub open spec fn cycles_per_bit(clock_hz: int, baud: int) -> int {
    if baud <= 0 {
        clock_hz
    } else {
        clock_hz / baud
    }
}

/// The sample point that is aimed at: the one asked for, at most 100%.
pub open spec fn sample_target(sample_point: int) -> int {
    if sample_point > 10000 {
        10000
    } else {
        sample_point
    }
}

/// Of `quanta` quanta, those up to the sample point: the nearest whole number
/// to `quanta * sample / 10000`, the lower one of two that are equally near.
pub open spec fn quanta_before_sample(quanta: int, sample: int) -> int {
    (2 * quanta * sample + 9999) / 20000
}

/// Whether prescaler `p` keeps both segments within the limits, for a bit of
/// `cycles` clock cycles sampled at `sample`.
pub open spec fn is_candidate(l: TimingLimits, cycles: int, sample: int, p: int) -> bool {
    &&& 1 <= p <= l.prescaler_max
    &&& l.tseg1_min <= quanta_before_sample(cycles / p, sample) - 1 <= l.tseg1_max
    &&& l.tseg2_min <= cycles / p - quanta_before_sample(cycles / p, sample) <= l.tseg2_max
}

/// Whether some prescaler keeps both segments within the limits.
pub open spec fn has_candidate(l: TimingLimits, cycles: int, sample: int) -> bool {
    exists|p: int| is_candidate(l, cycles, sample, p)
}

/// Clock cycles of the bit that prescaler `p` leaves unused.
pub open spec fn baud_deviation(cycles: int, p: int) -> int {
    cycles % p
}

/// How far the sample point reached with `quanta` quanta is from `sample`, in
/// parts of 10000.
pub open spec fn sample_deviation(quanta: int, sample: int) -> int {
    distance(10000 * quanta_before_sample(quanta, sample) / quanta, sample)
}

/// Whether prescaler `a` is at least as good as prescaler `b`: it misses the
/// baud rate by less, or by as much and the sample point by no more.
pub open spec fn no_worse(cycles: int, sample: int, a: int, b: int) -> bool {
    ||| baud_deviation(cycles, a) < baud_deviation(cycles, b)
    ||| (baud_deviation(cycles, a) == baud_deviation(cycles, b) && sample_deviation(
        cycles / a,
        sample,
    ) <= sample_deviation(cycles / b, sample))
}

/// Whether `p` is the prescaler to take: a candidate, no worse than any
/// other, and the largest of those that are as good.
pub open spec fn is_best(l: TimingLimits, cycles: int, sample: int, p: int) -> bool {
    &&& is_candidate(l, cycles, sample, p)
    &&& forall|c: int| #[trigger]
        is_candidate(l, cycles, sample, c) ==> no_worse(cycles, sample, p, c) && (no_worse(
            cycles,
            sample,
            c,
            p,
        ) ==> c <= p)
}

/// The prescaler that is taken where there is no candidate: the smallest
/// under which the bit has no more quanta than the limits allow, at most the
/// largest prescaler.
pub open spec fn fallback_prescaler(l: TimingLimits, cycles: int) -> int {
    clamp((cycles + l.quanta_max() - 1) / l.quanta_max(), 1, l.prescaler_max as int)
}

/// The prescaler that the calculator takes.
pub open spec fn chosen_prescaler(l: TimingLimits, cycles: int, sample: int) -> int {
    if has_candidate(l, cycles, sample) {
        choose|p: int| is_best(l, cycles, sample, p)
    } else {
        fallback_prescaler(l, cycles)
    }
}

/// The quanta of a bit under prescaler `p`, within the limits.
pub open spec fn chosen_quanta(l: TimingLimits, cycles: int, p: int) -> int {
    clamp(cycles / p, l.quanta_min(), l.quanta_max())
}

/// The first segment of a bit of `quanta` quanta: up to the sample point
/// without the synchronisation quantum, within what the limits leave to it.
pub open spec fn first_segment(l: TimingLimits, quanta: int, sample: int) -> int {
    clamp(
        quanta_before_sample(quanta, sample) - 1,
        if quanta - 1 - l.tseg2_max > l.tseg1_min {
            quanta - 1 - l.tseg2_max
        } else {
            l.tseg1_min as int
        },
        if quanta - 1 - l.tseg2_min < l.tseg1_max {
            quanta - 1 - l.tseg2_min
        } else {
            l.tseg1_max as int
        },
    )
}

/// The jump width: the one asked for, at least one quantum, at most the
/// second segment and the limit.
pub open spec fn jump_width(l: TimingLimits, tseg2: int, sjw: int) -> int {
    clamp(
        sjw,
        1,
        if tseg2 < l.sjw_max {
            tseg2
        } else {
            l.sjw_max as int
        },
    )
}

/// The timing under prescaler `p`.
pub open spec fn timing_under(l: TimingLimits, cycles: int, sample: int, sjw: int, p: int) -> BitTiming {
    let quanta = chosen_quanta(l, cycles, p);
    let tseg1 = first_segment(l, quanta, sample);
    let tseg2 = quanta - 1 - tseg1;
    BitTiming {
        prescaler: p as u16,
        sync_jump_width: jump_width(l, tseg2, sjw) as u16,
        time_segment_1: tseg1 as u16,
        time_segment_2: tseg2 as u16,
    }
}

/// The timing that the calculator returns.
pub open spec fn timing_for(
    l: TimingLimits,
    clock_hz: int,
    baud: int,
    sample_point: int,
    sjw: int,
) -> BitTiming {
    let cycles = cycles_per_bit(clock_hz, baud);
    let sample = sample_target(sample_point);
    timing_under(l, cycles, sample, sjw, chosen_prescaler(l, cycles, sample))
}

impl BitTiming {
    /// The quanta of one bit.
    pub open spec fn quanta(self) -> int {
        1 + self.time_segment_1 + self.time_segment_2
    }

    /// The clock cycles of one bit.
    pub open spec fn cycles(self) -> int {
        self.prescaler * self.quanta()
    }

    /// Whether every part lies within `l`.
    pub open spec fn within(self, l: TimingLimits) -> bool {
        &&& 1 <= self.prescaler <= l.prescaler_max
        &&& l.tseg1_min <= self.time_segment_1 <= l.tseg1_max
        &&& l.tseg2_min <= self.time_segment_2 <= l.tseg2_max
        &&& 1 <= self.sync_jump_width <= l.sjw_max
        &&& self.sync_jump_width <= self.time_segment_2
    }
}


/// Only one prescaler is the one to take.
pub proof fn lemma_best_is_unique(l: TimingLimits, cycles: int, sample: int, a: int, b: int)
    requires
        is_best(l, cycles, sample, a),
        is_best(l, cycles, sample, b),
    ensures
        a == b,
{
    assert(is_candidate(l, cycles, sample, a));
    assert(is_candidate(l, cycles, sample, b));
}

/// Under a candidate prescaler the timing lies within the limits, the bit is
/// less than one quantum short of the cycles it was given, and the sample
/// point is at most half a quantum off.
pub proof fn lemma_candidate_timing(l: TimingLimits, cycles: int, sample: int, sjw: int, p: int)
    requires
        l.wf(),
        0 <= cycles,
        0 <= sample <= 10000,
        is_candidate(l, cycles, sample, p),
    ensures
        timing_under(l, cycles, sample, sjw, p).within(l),
        timing_under(l, cycles, sample, sjw, p).prescaler == p,
        timing_under(l, cycles, sample, sjw, p).quanta() == cycles / p,
        0 <= cycles - timing_under(l, cycles, sample, sjw, p).cycles() < p,
        distance(
            10000 * (1 + timing_under(l, cycles, sample, sjw, p).time_segment_1),
            sample * timing_under(l, cycles, sample, sjw, p).quanta(),
        ) <= 5000,
{
    let n = cycles / p;
    let b = quanta_before_sample(n, sample);
    let t = timing_under(l, cycles, sample, sjw, p);
    assert(chosen_quanta(l, cycles, p) == n);
    assert(first_segment(l, n, sample) == b - 1);
    assert(t.time_segment_1 == b - 1);
    assert(t.time_segment_2 == n - b);
    assert(t.quanta() == n);
    assert(cycles == p * n + cycles % p && 0 <= cycles % p < p) by (nonlinear_arith)
        requires
            n == cycles / p,
            0 <= cycles,
            1 <= p,
    ;
    assert(t.cycles() == p * n);
    let x = n * sample;
    assert(2 * n * sample == 2 * x) by (nonlinear_arith)
        requires
            x == n * sample,
    ;
    assert(sample * t.quanta() == x) by (nonlinear_arith)
        requires
            x == n * sample,
            t.quanta() == n,
    ;
}

/// Where no prescaler is a candidate, the timing still lies within the limits.
pub proof fn lemma_fallback_timing(l: TimingLimits, cycles: int, sample: int, sjw: int)
    requires
        l.wf(),
        0 <= cycles,
    ensures
        timing_under(l, cycles, sample, sjw, fallback_prescaler(l, cycles)).within(l),
        timing_under(l, cycles, sample, sjw, fallback_prescaler(l, cycles)).prescaler
            == fallback_prescaler(l, cycles),
{
}

/// The timing for the nominal bit rate of the given targets.
pub open spec fn nominal_timing(clock_hz: u32, baud: u32, sample_point: u16, sjw: u16) -> BitTiming {
    timing_for(nominal_limits(), clock_hz as int, baud as int, sample_point as int, sjw as int)
}

/// The timing for the data phase bit rate of the given targets.
pub open spec fn fast_timing(clock_hz: u32, baud: u32, sample_point: u16, sjw: u16) -> BitTiming {
    timing_for(fast_limits(), clock_hz as int, baud as int, sample_point as int, sjw as int)
}

/// Whether the targets can be met with both segments within `l`.
pub open spec fn representable(l: TimingLimits, clock_hz: u32, baud: u32, sample_point: u16) -> bool {
    has_candidate(
        l,
        cycles_per_bit(clock_hz as int, baud as int),
        sample_target(sample_point as int),
    )
}

/// For every clock, baud rate, sample point and jump width the timing lies
/// within the limits. Where the targets are representable, the bit that it
/// describes is less than one time quantum shorter than the clock cycles of
/// one bit at the baud rate, and never longer; and its sample point is within
/// half a quantum of the target.
pub proof fn lemma_timing_meets_targets(
    l: TimingLimits,
    clock_hz: u32,
    baud: u32,
    sample_point: u16,
    sjw: u16,
)
    requires
        l.wf(),
    ensures
        timing_for(l, clock_hz as int, baud as int, sample_point as int, sjw as int).within(l),
        representable(l, clock_hz, baud, sample_point) ==> {
            let t = timing_for(l, clock_hz as int, baud as int, sample_point as int, sjw as int);
            &&& 0 <= cycles_per_bit(clock_hz as int, baud as int) - t.cycles() < t.prescaler
            &&& distance(
                10000 * (1 + t.time_segment_1),
                sample_target(sample_point as int) * t.quanta(),
            ) <= 5000
        },
{
    let cycles = cycles_per_bit(clock_hz as int, baud as int);
    let sample = sample_target(sample_point as int);
    assert(0 <= cycles) by (nonlinear_arith)
        requires
            cycles == cycles_per_bit(clock_hz as int, baud as int),
            0 <= clock_hz,
    ;
    if has_candidate(l, cycles, sample) {
        let w = choose|p: int| is_candidate(l, cycles, sample, p);
        lemma_best_exists(l, cycles, sample, l.prescaler_max as int);
        let p = chosen_prescaler(l, cycles, sample);
        assert(is_best(l, cycles, sample, p));
        lemma_candidate_timing(l, cycles, sample, sjw as int, p);
    } else {
        lemma_fallback_timing(l, cycles, sample, sjw as int);
    }
}

/// Whether `p` is the prescaler to take among those up to `bound`.
pub open spec fn is_best_up_to(l: TimingLimits, cycles: int, sample: int, bound: int, p: int) -> bool {
    &&& is_candidate(l, cycles, sample, p)
    &&& p <= bound
    &&& forall|c: int|
        c <= bound && #[trigger] is_candidate(l, cycles, sample, c) ==> no_worse(cycles, sample, p, c)
            && (no_worse(cycles, sample, c, p) ==> c <= p)
}

/// Among the candidates up to `bound`, if there is any, one is the best.
pub proof fn lemma_best_exists(l: TimingLimits, cycles: int, sample: int, bound: int)
    requires
        0 <= bound <= l.prescaler_max,
    ensures
        (exists|c: int| c <= bound && is_candidate(l, cycles, sample, c)) ==> exists|p: int|
            is_best_up_to(l, cycles, sample, bound, p),
        bound == l.prescaler_max && has_candidate(l, cycles, sample) ==> exists|p: int|
            is_best(l, cycles, sample, p),
    decreases bound,
{
    if bound > 0 {
        let prev = bound - 1;
        lemma_best_exists(l, cycles, sample, prev);
        let before = exists|c: int| c <= prev && is_candidate(l, cycles, sample, c);
        if is_candidate(l, cycles, sample, bound) {
            if before {
                let q = choose|p: int| is_best_up_to(l, cycles, sample, prev, p);
                if no_worse(cycles, sample, bound, q) {
                    assert(is_best_up_to(l, cycles, sample, bound, bound));
                } else {
                    assert(is_best_up_to(l, cycles, sample, bound, q));
                }
            } else {
                assert(is_best_up_to(l, cycles, sample, bound, bound));
            }
        } else {
            if before {
                let q = choose|p: int| is_best_up_to(l, cycles, sample, prev, p);
                assert(is_best_up_to(l, cycles, sample, bound, q));
            } else {
                assert forall|c: int| c <= bound implies !is_candidate(l, cycles, sample, c) by {
                    if c <= prev {
                    }
                }
            }
        }
    }
    if bound == l.prescaler_max && has_candidate(l, cycles, sample) {
        let w = choose|p: int| is_candidate(l, cycles, sample, p);
        assert(w <= bound && is_candidate(l, cycles, sample, w));
        let p = choose|p: int| is_best_up_to(l, cycles, sample, bound, p);
        assert(is_best(l, cycles, sample, p));
    }
}


/// The limits of the nominal bit timing register.
pub fn nominal_timing_limits() -> (l: TimingLimits)
    ensures
        l == nominal_limits(),
        l.wf(),
{
    TimingLimits {
        prescaler_max: 512,
        tseg1_min: 2,
        tseg1_max: 256,
        tseg2_min: 2,
        tseg2_max: 128,
        sjw_max: 128,
    }
}

/// The limits of the data phase bit timing register.
pub fn fast_timing_limits() -> (l: TimingLimits)
    ensures
        l == fast_limits(),
        l.wf(),
{
    TimingLimits {
        prescaler_max: 32,
        tseg1_min: 1,
        tseg1_max: 32,
        tseg2_min: 1,
        tseg2_max: 16,
        sjw_max: 16,
    }
}

/// Of `quanta` quanta, those up to the sample point.
fn sample_quanta(quanta: u32, sample: u32) -> (before: u32)
    requires
        quanta <= 385,
        sample <= 10000,
    ensures
        before == quanta_before_sample(quanta as int, sample as int),
        before <= quanta,
{
    assert(0 <= quanta * sample <= quanta * 10000 <= 3850000) by (nonlinear_arith)
        requires
            quanta <= 385,
            sample <= 10000,
    ;
    assert(2 * quanta as int * sample as int == 2 * (quanta * sample)) by (nonlinear_arith);
    (2 * (quanta * sample) + 9999) / 20000
}

/// How far the sample point reached with `quanta` quanta is from `sample`.
fn sample_miss(quanta: u32, before: u32, sample: u32) -> (miss: u32)
    requires
        1 <= quanta <= 385,
        sample <= 10000,
        before == quanta_before_sample(quanta as int, sample as int),
        before <= quanta,
    ensures
        miss == sample_deviation(quanta as int, sample as int),
{
    let reached: u32 = 10000 * before / quanta;
    assert(reached <= 10000) by (nonlinear_arith)
        requires
            reached == 10000 * before / quanta as int,
            before <= quanta,
            1 <= quanta,
    ;
    if reached >= sample {
        reached - sample
    } else {
        sample - reached
    }
}

/// The timing under prescaler `p`.
fn timing_with(l: &TimingLimits, cycles: u32, sample: u32, sjw: u16, p: u32) -> (t: BitTiming)
    requires
        l.wf(),
        sample <= 10000,
        1 <= p <= l.prescaler_max,
    ensures
        t == timing_under(*l, cycles as int, sample as int, sjw as int, p as int),
{
    let quanta_min: u32 = 1 + l.tseg1_min + l.tseg2_min;
    let quanta_max: u32 = 1 + l.tseg1_max + l.tseg2_max;
    let per_bit: u32 = cycles / p;
    let quanta: u32 = if per_bit < quanta_min {
        quanta_min
    } else if per_bit > quanta_max {
        quanta_max
    } else {
        per_bit
    };
    let wanted: u32 = sample_quanta(quanta, sample);
    let lowest: u32 = if quanta - 1 > l.tseg2_max + l.tseg1_min {
        quanta - 1 - l.tseg2_max
    } else {
        l.tseg1_min
    };
    let highest: u32 = if quanta - 1 - l.tseg2_min < l.tseg1_max {
        quanta - 1 - l.tseg2_min
    } else {
        l.tseg1_max
    };
    let tseg1: u32 = if wanted < lowest + 1 {
        lowest
    } else if wanted - 1 > highest {
        highest
    } else {
        wanted - 1
    };
    let tseg2: u32 = quanta - 1 - tseg1;
    let widest: u32 = if tseg2 < l.sjw_max {
        tseg2
    } else {
        l.sjw_max
    };
    let jump: u32 = if sjw == 0 {
        1
    } else if sjw as u32 > widest {
        widest
    } else {
        sjw as u32
    };
    BitTiming {
        prescaler: p as u16,
        sync_jump_width: jump as u16,
        time_segment_1: tseg1 as u16,
        time_segment_2: tseg2 as u16,
    }
}

/// The prescaler that is taken where there is no candidate.
fn prescaler_fallback(l: &TimingLimits, cycles: u32) -> (p: u32)
    requires
        l.wf(),
    ensures
        p == fallback_prescaler(*l, cycles as int),
        1 <= p <= l.prescaler_max,
{
    let quanta_max: u32 = 1 + l.tseg1_max + l.tseg2_max;
    assert(cycles / quanta_max <= cycles / 2) by (nonlinear_arith)
        requires
            quanta_max >= 2,
    ;
    let needed: u32 = cycles / quanta_max + (if cycles % quanta_max == 0 {
        0
    } else {
        1
    });
    assert(needed == (cycles + quanta_max - 1) / quanta_max as int) by (nonlinear_arith)
        requires
            1 <= quanta_max,
            needed == cycles / quanta_max + (if cycles % quanta_max == 0 {
                0int
            } else {
                1int
            }),
    ;
    if needed < 1 {
        1
    } else if needed > l.prescaler_max {
        l.prescaler_max
    } else {
        needed
    }
}

/// The timing for a clock of `clock_hz`, a baud rate of `baud`, a sample
/// point of `sample_point` parts of 10000 and a jump width of `sjw` quanta,
/// within the limits `l`.
pub fn calculate_timing(l: &TimingLimits, clock_hz: u32, baud: u32, sample_point: u16, sjw: u16) -> (t:
    BitTiming)
    requires
        l.wf(),
    ensures
        t == timing_for(*l, clock_hz as int, baud as int, sample_point as int, sjw as int),
        t.within(*l),
        representable(*l, clock_hz, baud, sample_point) ==> {
            &&& 0 <= cycles_per_bit(clock_hz as int, baud as int) - t.cycles() < t.prescaler
            &&& distance(
                10000 * (1 + t.time_segment_1),
                sample_target(sample_point as int) * t.quanta(),
            ) <= 5000
        },
{
    let cycles: u32 = if baud == 0 {
        clock_hz
    } else {
        clock_hz / baud
    };
    let sample: u32 = if sample_point > 10000 {
        10000
    } else {
        sample_point as u32
    };
    let quanta_min: u32 = 1 + l.tseg1_min + l.tseg2_min;
    let quanta_max: u32 = 1 + l.tseg1_max + l.tseg2_max;
    let mut found = false;
    let mut best: u32 = 0;
    let mut best_cycles_lost: u32 = 0;
    let mut best_sample_miss: u32 = 0;
    let mut p: u32 = 1;
    while p <= l.prescaler_max
        invariant
            l.wf(),
            sample <= 10000,
            quanta_min == l.quanta_min(),
            quanta_max == l.quanta_max(),
            1 <= p <= l.prescaler_max + 1,
            found ==> is_best_up_to(*l, cycles as int, sample as int, p - 1, best as int),
            found ==> best_cycles_lost == baud_deviation(cycles as int, best as int),
            found ==> best_sample_miss == sample_deviation(cycles as int / best as int, sample as int),
            !found ==> forall|c: int| c <= p - 1 ==> !is_candidate(*l, cycles as int, sample as int, c),
        decreases l.prescaler_max + 1 - p,
    {
        let quanta: u32 = cycles / p;
        if quanta_min <= quanta && quanta <= quanta_max {
            let before: u32 = sample_quanta(quanta, sample);
            if l.tseg1_min + 1 <= before && before - 1 <= l.tseg1_max && before <= quanta && l.tseg2_min
                <= quanta - before && quanta - before <= l.tseg2_max {
                assert(is_candidate(*l, cycles as int, sample as int, p as int));
                let cycles_lost: u32 = cycles % p;
                let miss: u32 = sample_miss(quanta, before, sample);
                if !found || cycles_lost < best_cycles_lost || (cycles_lost == best_cycles_lost && miss
                    <= best_sample_miss) {
                    found = true;
                    best = p;
                    best_cycles_lost = cycles_lost;
                    best_sample_miss = miss;
                }
            }
        }
        p = p + 1;
    }
    proof {
        lemma_timing_meets_targets(*l, clock_hz, baud, sample_point, sjw);
        if found {
            assert(is_best(*l, cycles as int, sample as int, best as int));
            assert(has_candidate(*l, cycles as int, sample as int));
            lemma_best_is_unique(
                *l,
                cycles as int,
                sample as int,
                best as int,
                chosen_prescaler(*l, cycles as int, sample as int),
            );
        } else {
            assert(!has_candidate(*l, cycles as int, sample as int));
        }
    }
    let chosen: u32 = if found {
        best
    } else {
        prescaler_fallback(l, cycles)
    };
    timing_with(l, cycles, sample, sjw, chosen)
}

/// The timing of the nominal bit rate: the arbitration phase, and the whole
/// frame in classic CAN.
pub fn calculate_nominal_timing(clock_hz: u32, target_baud: u32, target_sample_point: u16, sync_jump_width: u16) -> (t:
    BitTiming)
    ensures
        t == nominal_timing(clock_hz, target_baud, target_sample_point, sync_jump_width),
        t.within(nominal_limits()),
        representable(nominal_limits(), clock_hz, target_baud, target_sample_point) ==> {
            &&& 0 <= cycles_per_bit(clock_hz as int, target_baud as int) - t.cycles() < t.prescaler
            &&& distance(
                10000 * (1 + t.time_segment_1),
                sample_target(target_sample_point as int) * t.quanta(),
            ) <= 5000
        },
{
    let l = nominal_timing_limits();
    calculate_timing(&l, clock_hz, target_baud, target_sample_point, sync_jump_width)
}

/// The timing of the data phase of a frame with bit rate switching.
pub fn calculate_fast_timing(clock_hz: u32, target_baud: u32, target_sample_point: u16, sync_jump_width: u16) -> (t:
    BitTiming)
    ensures
        t == fast_timing(clock_hz, target_baud, target_sample_point, sync_jump_width),
        t.within(fast_limits()),
        representable(fast_limits(), clock_hz, target_baud, target_sample_point) ==> {
            &&& 0 <= cycles_per_bit(clock_hz as int, target_baud as int) - t.cycles() < t.prescaler
            &&& distance(
                10000 * (1 + t.time_segment_1),
                sample_target(target_sample_point as int) * t.quanta(),
            ) <= 5000
        },
{
    let l = fast_timing_limits();
    calculate_timing(&l, clock_hz, target_baud, target_sample_point, sync_jump_width)
}


/// What the nominal bit timing register holds: each part one less than it
/// counts.
#[derive(Clone, Copy, Debug, PartialEq, Eq, Structural)]
pub struct NominalBitTiming {
    /// The prescaler field.
    pub brp: u16,
    /// The jump width field.
    pub sjw: u8,
    /// The field of the first segment.
    pub tseg1: u8,
    /// The field of the second segment.
    pub tseg2: u8,
}

/// What the data phase bit timing register holds: each part one less than
/// it counts.
#[derive(Clone, Copy, Debug, PartialEq, Eq, Structural)]
pub struct DataBitTiming {
    /// The prescaler field.
    pub brp: u8,
    /// The jump width field.
    pub sjw: u8,
    /// The field of the first segment.
    pub tseg1: u8,
    /// The field of the second segment.
    pub tseg2: u8,
}

/// What a register field holds for a count of `count`: one less, at least
/// 0 and at most `max`.
pub open spec fn field_for(count: int, max: int) -> int {
    clamp(count - 1, 0, max)
}

/// What a register field holds for a count of `count`.
fn field_value(count: u16, max: u16) -> (field: u16)
    ensures
        field == field_for(count as int, max as int),
        field <= max,
{
    if count == 0 {
        0
    } else if count - 1 > max {
        max
    } else {
        count - 1
    }
}

impl BitTiming {
    /// What the nominal bit timing register holds for this timing.
    pub open spec fn nominal(self) -> NominalBitTiming {
        NominalBitTiming {
            brp: field_for(self.prescaler as int, 511) as u16,
            sjw: field_for(self.sync_jump_width as int, 127) as u8,
            tseg1: field_for(self.time_segment_1 as int, 255) as u8,
            tseg2: field_for(self.time_segment_2 as int, 127) as u8,
        }
    }

    /// What the data phase bit timing register holds for this timing.
    pub open spec fn data(self) -> DataBitTiming {
        DataBitTiming {
            brp: field_for(self.prescaler as int, 31) as u8,
            sjw: field_for(self.sync_jump_width as int, 15) as u8,
            tseg1: field_for(self.time_segment_1 as int, 31) as u8,
            tseg2: field_for(self.time_segment_2 as int, 15) as u8,
        }
    }

    /// What the nominal bit timing register holds for this timing.
    pub fn to_nominal(&self) -> (fields: NominalBitTiming)
        ensures
            fields == self.nominal(),
            self.within(nominal_limits()) ==> fields.brp + 1 == self.prescaler && fields.sjw + 1
                == self.sync_jump_width && fields.tseg1 + 1 == self.time_segment_1 && fields.tseg2
                + 1 == self.time_segment_2,
    {
        NominalBitTiming {
            brp: field_value(self.prescaler, 511),
            sjw: field_value(self.sync_jump_width, 127) as u8,
            tseg1: field_value(self.time_segment_1, 255) as u8,
            tseg2: field_value(self.time_segment_2, 127) as u8,
        }
    }

    /// What the data phase bit timing register holds for this timing.
    pub fn to_data(&self) -> (fields: DataBitTiming)
        ensures
            fields == self.data(),
            self.within(fast_limits()) ==> fields.brp + 1 == self.prescaler && fields.sjw + 1
                == self.sync_jump_width && fields.tseg1 + 1 == self.time_segment_1 && fields.tseg2
                + 1 == self.time_segment_2,
    {
        DataBitTiming {
            brp: field_value(self.prescaler, 31) as u8,
            sjw: field_value(self.sync_jump_width, 15) as u8,
            tseg1: field_value(self.time_segment_1, 31) as u8,
            tseg2: field_value(self.time_segment_2, 15) as u8,
        }
    }
}

} // verus!
