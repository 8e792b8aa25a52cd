//! Per-event latency measurement through HDR histograms.
//!
//! Every percentile comes from a histogram of recorded values. Where nothing
//! was recorded there are no figures.
use vstd::multiset::Multiset;
use vstd::prelude::*;
use crate::decimal::{decimal, decimal_text, one_place, one_place_text, two_place_text, two_places};
use crate::metric::Metric;
use crate::text::{contains_text, has_prefix, lemma_labelled, lemma_whole_prefix};

verus! {

/// Latency figures of a histogram.
#[derive(Clone, Copy, Debug, PartialEq, Eq, Structural)]
pub struct LatencyStats {
    pub count: u64,
    pub min_ns: u64,
    pub max_ns: u64,
    pub mean_ns: Metric,
    pub stdev_ns: Metric,
    pub p1_ns: u64,
    pub p10_ns: u64,
    pub p25_ns: u64,
    pub p50_ns: u64,
    pub p75_ns: u64,
    pub p90_ns: u64,
    pub p95_ns: u64,
    pub p99_ns: u64,
    pub p999_ns: u64,
    pub p9999_ns: u64,
    pub p99999_ns: u64,
    pub p999999_ns: u64,
}

/// A histogram of 64-bit counts with three significant digits, as the
/// `hdrhistogram` crate keeps it. It counts values by level: values that agree
/// in their leading eleven bits share one.
#[verifier::external_body]
pub struct LatencyHistogram {
    inner: hdrhistogram::Histogram<u64>,
}

/// The levels counted in a histogram, each as often as it was recorded.
pub uninterp spec fn histogram_levels(histogram: LatencyHistogram) -> Multiset<u64>;

/// The highest value that a histogram was made to track.
pub uninterp spec fn histogram_high(histogram: LatencyHistogram) -> u64;

/// The value of `hdrhistogram::Histogram::value_at_percentile` for the
/// percentile written in decimal notation.
pub uninterp spec fn percentile_of(levels: Multiset<u64>, percentile: Seq<char>) -> u64;

/// The value of `hdrhistogram::Histogram::mean`.
pub uninterp spec fn mean_of(levels: Multiset<u64>) -> Metric;

/// The value of `hdrhistogram::Histogram::stdev`.
pub uninterp spec fn stdev_of(levels: Multiset<u64>) -> Metric;

/// How many neighbouring values share a level with `value`.
pub open spec fn level_width(value: nat) -> nat
    decreases value,
{
    if value < 2048 {
        1
    } else {
        2 * level_width(value / 2)
    }
}

/// The level of a value: the lowest value that is counted together with it.
pub open spec fn level_of(value: nat) -> nat {
    (value - value % level_width(value)) as nat
}

/// The highest value that is counted together with `value`.
pub open spec fn level_top(value: nat) -> nat {
    (level_of(value) + level_width(value) - 1) as nat
}

/// The least doubling of `unit` above `high`.
pub open spec fn doubling_above(unit: nat, high: nat) -> nat
    decreases 2 * high + 1 - unit,
{
    if unit == 0 || unit > high {
        unit
    } else {
        doubling_above(2 * unit, high)
    }
}

/// The first value beyond the range of a histogram made to track up to `high`.
pub open spec fn range_end(high: nat) -> nat {
    doubling_above(2048, high)
}

/// The last level of 64 bits.
pub const LAST_LEVEL: u64 = 0xFFE0_0000_0000_0000;

/// `level` is the least in the multiset.
pub open spec fn is_least_level(levels: Multiset<u64>, level: u64) -> bool {
    levels.contains(level) && forall|x: u64| #[trigger] levels.contains(x) ==> level <= x
}

/// `level` is the greatest in the multiset.
pub open spec fn is_greatest_level(levels: Multiset<u64>, level: u64) -> bool {
    levels.contains(level) && forall|x: u64| #[trigger] levels.contains(x) ==> x <= level
}

/// `value` is reported as the highest value of a level: that value, but for
/// the last level the value before it.
pub open spec fn is_reported_top(level: u64, value: u64) -> bool {
    if level < LAST_LEVEL {
        value == level_top(level as nat)
    } else {
        value == u64::MAX - 1
    }
}

/// `value` is reported as the highest value of a level in the multiset.
pub open spec fn is_top_of_some_level(levels: Multiset<u64>, value: u64) -> bool {
    exists|level: u64| #[trigger] levels.contains(level) && is_reported_top(level, value)
}

/// `value` is reported as the least level of the multiset: that level, but the
/// last level may be reported as the highest value of 64 bits.
pub open spec fn is_reported_least(levels: Multiset<u64>, value: u64) -> bool {
    exists|level: u64| #[trigger]
        is_least_level(levels, level) && (value == level || level >= LAST_LEVEL && value
            == u64::MAX)
}

/// `value` is reported as the highest value of the greatest level of the
/// multiset: that value, but for the last level it may be the one before it.
pub open spec fn is_reported_greatest(levels: Multiset<u64>, value: u64) -> bool {
    exists|level: u64| #[trigger]
        is_greatest_level(levels, level) && (is_reported_top(level, value) || level >= LAST_LEVEL
            && value == u64::MAX)
}

/// The levels with one more entry; a level counts up to 64 bits.
pub open spec fn counted(levels: Multiset<u64>, level: u64) -> Multiset<u64> {
    if levels.count(level) < u64::MAX {
        levels.insert(level)
    } else {
        levels
    }
}

/// The levels with a latency more, in a recorder with the given limit.
pub open spec fn with_latency(levels: Multiset<u64>, nanos: u64, limit: u64) -> Multiset<u64> {
    counted(levels, level_of(clamped(nanos, limit) as nat) as u64)
}

/// `sum` holds the entries of both multisets; a level counts up to 64 bits.
pub open spec fn is_sum(a: Multiset<u64>, b: Multiset<u64>, sum: Multiset<u64>) -> bool {
    forall|level: u64| #[trigger]
        sum.count(level) == if a.count(level) + b.count(level) <= u64::MAX {
            a.count(level) + b.count(level)
        } else {
            u64::MAX as nat
        }
}

/// How many of the levels lie at or below `level`.
pub open spec fn count_up_to(levels: Multiset<u64>, level: u64) -> nat {
    levels.filter(|other: u64| other <= level).len()
}

/// How many of the levels lie below `level`.
pub open spec fn count_below(levels: Multiset<u64>, level: u64) -> nat {
    levels.filter(|other: u64| other < level).len()
}

/// `value` is the highest value of the level at which the given share of the
/// levels, in millionths, is reached: that share lies at or below it, and at
/// most that share, rounded up, lies below it.
pub open spec fn reaches_share(levels: Multiset<u64>, millionths: nat, value: u64) -> bool {
    exists|level: u64| #[trigger]
        levels.contains(level) && is_reported_top(level, value) && count_up_to(levels, level)
            * 1_000_000 >= millionths * levels.len() && count_below(levels, level) * 1_000_000
            < millionths * levels.len() + 1_000_000
}

/// `value` reaches the share that the percentile names.
pub open spec fn reaches_percentile(
    levels: Multiset<u64>,
    percentile: Seq<char>,
    value: u64,
) -> bool {
    &&& percentile == "1"@ ==> reaches_share(levels, 10_000, value)
    &&& percentile == "10"@ ==> reaches_share(levels, 100_000, value)
    &&& percentile == "25"@ ==> reaches_share(levels, 250_000, value)
    &&& percentile == "50"@ ==> reaches_share(levels, 500_000, value)
    &&& percentile == "75"@ ==> reaches_share(levels, 750_000, value)
    &&& percentile == "90"@ ==> reaches_share(levels, 900_000, value)
    &&& percentile == "95"@ ==> reaches_share(levels, 950_000, value)
    &&& percentile == "99"@ ==> reaches_share(levels, 990_000, value)
    &&& percentile == "99.9"@ ==> reaches_share(levels, 999_000, value)
    &&& percentile == "99.99"@ ==> reaches_share(levels, 999_900, value)
    &&& percentile == "99.999"@ ==> reaches_share(levels, 999_990, value)
    &&& percentile == "99.9999"@ ==> reaches_share(levels, 999_999, value)
}

/// `value` is at least the next lower percentile.
pub open spec fn is_above_lower_percentile(
    levels: Multiset<u64>,
    percentile: Seq<char>,
    value: u64,
) -> bool {
    &&& percentile == "10"@ ==> value >= percentile_of(levels, "1"@)
    &&& percentile == "25"@ ==> value >= percentile_of(levels, "10"@)
    &&& percentile == "50"@ ==> value >= percentile_of(levels, "25"@)
    &&& percentile == "75"@ ==> value >= percentile_of(levels, "50"@)
    &&& percentile == "90"@ ==> value >= percentile_of(levels, "75"@)
    &&& percentile == "95"@ ==> value >= percentile_of(levels, "90"@)
    &&& percentile == "99"@ ==> value >= percentile_of(levels, "95"@)
    &&& percentile == "99.9"@ ==> value >= percentile_of(levels, "99"@)
    &&& percentile == "99.99"@ ==> value >= percentile_of(levels, "99.9"@)
    &&& percentile == "99.999"@ ==> value >= percentile_of(levels, "99.99"@)
    &&& percentile == "99.9999"@ ==> value >= percentile_of(levels, "99.999"@)
}

/// Makes an empty histogram by `hdrhistogram::Histogram::new_with_max`, which
/// fails only where `high` is below two or more than five digits are asked for.
/// Three digits give levels of eleven leading bits.
#[verifier::external_body]
fn new_histogram(high: u64, digits: u8) -> (r: LatencyHistogram)
    requires
        high >= 2,
        digits == 3,
    ensures
        histogram_levels(r) == Multiset::<u64>::empty(),
        histogram_high(r) == high,
{
    LatencyHistogram {
        inner: hdrhistogram::Histogram::new_with_max(high, digits).expect("valid bounds"),
    }
}

/// Records a value by `hdrhistogram::Histogram::record`: it is counted exactly
/// where it lies within the histogram's range, up to 64 bits of count in each
/// level.
#[verifier::external_body]
fn record_value(histogram: &mut LatencyHistogram, value: u64) -> (r: bool)
    ensures
        r == (value < range_end(histogram_high(*old(histogram)) as nat)),
        histogram_high(*final(histogram)) == histogram_high(*old(histogram)),
        !r ==> histogram_levels(*final(histogram)) == histogram_levels(*old(histogram)),
        r ==> histogram_levels(*final(histogram)) == counted(
            histogram_levels(*old(histogram)),
            level_of(value as nat) as u64,
        ),
{
    histogram.inner.record(value).is_ok()
}

/// How many values were recorded, by `hdrhistogram::Histogram::len`.
#[verifier::external_body]
fn recorded_len(histogram: &LatencyHistogram) -> (r: u64)
    ensures
        histogram_levels(*histogram).len() <= u64::MAX ==> r == histogram_levels(*histogram).len(),
        histogram_levels(*histogram).len() > u64::MAX ==> r == u64::MAX,
{
    histogram.inner.len()
}

/// Whether nothing was recorded, by `hdrhistogram::Histogram::is_empty`.
#[verifier::external_body]
fn nothing_recorded(histogram: &LatencyHistogram) -> (r: bool)
    ensures
        r == (histogram_levels(*histogram).len() == 0),
{
    histogram.inner.is_empty()
}

/// The least recorded level, by `hdrhistogram::Histogram::min`. Where nothing
/// but the highest value of 64 bits was recorded, it is that value.
#[verifier::external_body]
fn least_recorded(histogram: &LatencyHistogram) -> (r: u64)
    requires
        histogram_levels(*histogram).len() > 0,
    ensures
        is_reported_least(histogram_levels(*histogram), r),
{
    histogram.inner.min()
}

/// The highest value of the greatest recorded level, by
/// `hdrhistogram::Histogram::max`. Of the last level it is the value before
/// the highest, unless the highest itself was recorded.
#[verifier::external_body]
fn greatest_recorded(histogram: &LatencyHistogram) -> (r: u64)
    requires
        histogram_levels(*histogram).len() > 0,
    ensures
        is_reported_greatest(histogram_levels(*histogram), r),
{
    histogram.inner.max()
}

/// The mean of the recorded levels' midpoints, by
/// `hdrhistogram::Histogram::mean`, as its bits.
#[verifier::external_body]
fn mean_recorded(histogram: &LatencyHistogram) -> (r: Metric)
    ensures
        r == mean_of(histogram_levels(*histogram)),
{
    Metric { bits: histogram.inner.mean().to_bits() }
}

/// The standard deviation of the recorded levels' midpoints, by
/// `hdrhistogram::Histogram::stdev`, as its bits.
#[verifier::external_body]
fn stdev_recorded(histogram: &LatencyHistogram) -> (r: Metric)
    ensures
        r == stdev_of(histogram_levels(*histogram)),
{
    Metric { bits: histogram.inner.stdev().to_bits() }
}

/// The value at a percentile, by
/// `hdrhistogram::Histogram::value_at_percentile`: the highest value of some
/// recorded level, at least that of a lower percentile. Up to thirty bits of
/// count the level is the one at which the percentage is reached; the product
/// of percentage and count is rounded, so that it may lie one entry too high.
/// Beyond sixty-four bits the counts no longer add up.
#[verifier::external_body]
fn percentile_recorded(histogram: &LatencyHistogram, percentile: &str) -> (r: u64)
    requires
        percentile@ == "1"@ || percentile@ == "10"@ || percentile@ == "25"@ || percentile@ == "50"@
            || percentile@ == "75"@ || percentile@ == "90"@ || percentile@ == "95"@ || percentile@
            == "99"@ || percentile@ == "99.9"@ || percentile@ == "99.99"@ || percentile@
            == "99.999"@ || percentile@ == "99.9999"@,
        histogram_levels(*histogram).len() <= u64::MAX,
    ensures
        r == percentile_of(histogram_levels(*histogram), percentile@),
        histogram_levels(*histogram).len() > 0 ==> is_top_of_some_level(
            histogram_levels(*histogram),
            r,
        ),
        histogram_levels(*histogram).len() > 0 ==> is_above_lower_percentile(
            histogram_levels(*histogram),
            percentile@,
            r,
        ),
        0 < histogram_levels(*histogram).len() < 0x4000_0000 ==> reaches_percentile(
            histogram_levels(*histogram),
            percentile@,
            r,
        ),
{
    histogram.inner.value_at_percentile(percentile.parse().expect("a decimal number"))
}

/// Forgets what was recorded, by `hdrhistogram::Histogram::reset`.
#[verifier::external_body]
fn forget_recorded(histogram: &mut LatencyHistogram)
    ensures
        histogram_levels(*final(histogram)) == Multiset::<u64>::empty(),
        histogram_high(*final(histogram)) == histogram_high(*old(histogram)),
{
    histogram.inner.reset()
}

/// Adds what another histogram recorded, by `hdrhistogram::Histogram::add`:
/// all of it where its levels lie within this histogram's range, up to 64 bits
/// of count in each level, else nothing. A histogram of the whole range may
/// refuse one that recorded in the last level.
#[verifier::external_body]
fn add_recorded(histogram: &mut LatencyHistogram, other: &LatencyHistogram) -> (r: bool)
    ensures
        histogram_high(*final(histogram)) == histogram_high(*old(histogram)),
        r ==> fits_range(histogram_levels(*other), histogram_high(*old(histogram))),
        fits_range(histogram_levels(*other), histogram_high(*old(histogram))) && !histogram_levels(
            *other,
        ).contains(LAST_LEVEL) ==> r,
        !r ==> histogram_levels(*final(histogram)) == histogram_levels(*old(histogram)),
        r ==> is_sum(
            histogram_levels(*old(histogram)),
            histogram_levels(*other),
            histogram_levels(*final(histogram)),
        ),
{
    histogram.inner.add(&other.inner).is_ok()
}

/// A doubling above `high` is above it.
proof fn lemma_doubling_above(unit: nat, high: nat)
    requires
        unit > 0,
    ensures
        doubling_above(unit, high) > high,
    decreases 2 * high + 1 - unit,
{
    if unit <= high {
        lemma_doubling_above(2 * unit, high);
    }
}

/// The level of a value is at most the value, and the value at most the
/// level's highest.
pub proof fn lemma_level_bounds(value: nat)
    ensures
        level_width(value) >= 1,
        level_of(value) <= value <= level_top(value),
    decreases value,
{
    if value >= 2048 {
        lemma_level_bounds(value / 2);
    }
    let width = level_width(value);
    assert(0 <= value % width < width) by (nonlinear_arith)
        requires
            width >= 1,
    ;
    assert(value % width <= value) by (nonlinear_arith)
        requires
            width >= 1,
    ;
}

/// Recording keeps three significant digits: a value and the bounds of its
/// level are within one part in a thousand.
pub proof fn law_levels_keep_three_digits(value: nat)
    ensures
        level_width(value) == 1 || 1000 * level_width(value) <= value,
    decreases value,
{
    if value >= 2048 {
        law_levels_keep_three_digits(value / 2);
    }
}

/// The highest value of a level, from that of half the value.
proof fn lemma_top_doubles(value: nat)
    requires
        value >= 2048,
    ensures
        level_top(value) == 2 * level_top(value / 2) + 1,
{
    let half = value / 2;
    let width = level_width(half);
    lemma_level_bounds(half);
    lemma_level_bounds(value);
    vstd::arithmetic::div_mod::lemma_breakdown(value as int, 2, width as int);
    assert(level_width(value) == 2 * width);
    assert(value == 2 * half + value % 2);
    assert(half % width <= half) by (nonlinear_arith)
        requires
            width >= 1,
    ;
    assert(value % (2 * width) <= value) by (nonlinear_arith)
        requires
            width >= 1,
    ;
    assert(level_of(half) == half - half % width);
    assert(level_of(value) == value - value % (2 * width));
}

/// A greater value lies in a level at least as high.
pub proof fn law_levels_keep_order(a: nat, b: nat)
    requires
        a <= b,
    ensures
        level_top(a) <= level_top(b),
    decreases b,
{
    if a >= 2048 {
        lemma_top_doubles(a);
        lemma_top_doubles(b);
        law_levels_keep_order(a / 2, b / 2);
    } else {
        lemma_level_bounds(b);
        assert(level_top(a) == a);
    }
}

/// A value doubled so many times.
pub open spec fn doubled(value: nat, times: nat) -> nat
    decreases times,
{
    if times == 0 {
        value
    } else {
        doubled(2 * value, (times - 1) as nat)
    }
}

/// A value that ends a level still does when its end is doubled.
proof fn lemma_ends_double(end: nat, times: nat)
    requires
        end >= 1025,
        level_top((end - 1) as nat) == end - 1,
    ensures
        level_top((doubled(end, times) - 1) as nat) == doubled(end, times) - 1,
    decreases times,
{
    if times > 0 {
        lemma_top_doubles((2 * end - 1) as nat);
        lemma_ends_double(2 * end, (times - 1) as nat);
    }
}

/// A level before the last ends before it.
proof fn lemma_top_before_last(level: u64)
    requires
        level < LAST_LEVEL,
    ensures
        level_top(level as nat) < LAST_LEVEL,
{
    assert(doubled(2047, 53) == LAST_LEVEL) by {
        reveal_with_fuel(doubled, 54);
    }
    lemma_ends_double(2047, 53);
    law_levels_keep_order(level as nat, (LAST_LEVEL - 1) as nat);
}

/// Doubling stops at the first doubling known to lie above `high`.
proof fn lemma_doubling_stops(unit: nat, times: nat, high: nat)
    requires
        unit > 0,
        doubled(unit, times) > high,
    ensures
        doubling_above(unit, high) <= doubled(unit, times),
    decreases times,
{
    if times > 0 {
        lemma_doubled_grows(unit, times);
        if unit <= high {
            lemma_doubling_stops(2 * unit, (times - 1) as nat, high);
        }
    }
}

/// Doubling makes nothing smaller.
proof fn lemma_doubled_grows(value: nat, times: nat)
    ensures
        doubled(value, times) >= value,
    decreases times,
{
    if times > 0 {
        lemma_doubled_grows(2 * value, (times - 1) as nat);
    }
}

/// A recorder whose limit lies in the lower half of 64 bits records nothing
/// in the upper half.
pub proof fn law_lower_limits_bound_levels(levels: Multiset<u64>, limit: u64)
    requires
        fits_range(levels, limit),
        limit < 0x8000_0000_0000_0000,
    ensures
        forall|level: u64| #[trigger] levels.contains(level) ==> level < 0x8000_0000_0000_0000,
{
    assert(doubled(2048, 52) == 0x8000_0000_0000_0000) by {
        reveal_with_fuel(doubled, 53);
    }
    lemma_doubling_stops(2048, 52, limit as nat);
}

/// Recording a latency keeps the levels within the range of the recorder.
pub proof fn law_recording_stays_in_range(levels: Multiset<u64>, nanos: u64, limit: u64)
    requires
        fits_range(levels, limit),
    ensures
        fits_range(with_latency(levels, nanos, limit), limit),
{
    let value = clamped(nanos, limit);
    lemma_doubling_above(2048, limit as nat);
    lemma_level_bounds(value as nat);
    let level = level_of(value as nat) as u64;
    assert forall|other: u64| #[trigger]
        with_latency(levels, nanos, limit).contains(other) implies other < range_end(
        limit as nat,
    ) by {
        assert(levels.contains(other) || other == level);
    }
}

/// Merging levels within the range of a recorder keeps them there.
pub proof fn law_merging_stays_in_range(
    levels: Multiset<u64>,
    other: Multiset<u64>,
    sum: Multiset<u64>,
    limit: u64,
)
    requires
        fits_range(levels, limit),
        fits_range(other, limit),
        is_sum(levels, other, sum),
    ensures
        fits_range(sum, limit),
{
    assert forall|level: u64| #[trigger] sum.contains(level) implies level < range_end(
        limit as nat,
    ) by {
        assert(sum.count(level) > 0);
        assert(levels.contains(level) || other.contains(level));
    }
}

/// The least figure, the percentiles and the greatest figure are in order,
/// unless nothing but the last level of 64 bits was recorded.
pub proof fn law_figures_are_in_order(levels: Multiset<u64>, stats: LatencyStats, lower: u64)
    requires
        stats_of(levels, stats),
        levels.contains(lower),
        lower < LAST_LEVEL,
    ensures
        figures_in_order(stats),
{
    lemma_top_lies_within(levels, stats, lower, stats.p1_ns);
    lemma_top_lies_within(levels, stats, lower, stats.p999999_ns);
}

/// What is reported as the highest value of a recorded level lies between the
/// extreme figures.
proof fn lemma_top_lies_within(levels: Multiset<u64>, stats: LatencyStats, lower: u64, value: u64)
    requires
        stats_of(levels, stats),
        levels.contains(lower),
        lower < LAST_LEVEL,
        is_top_of_some_level(levels, value),
    ensures
        stats.min_ns <= value <= stats.max_ns,
{
    let level = choose|level: u64| #[trigger]
        levels.contains(level) && is_reported_top(level, value);
    let greatest = choose|greatest: u64| #[trigger]
        is_greatest_level(levels, greatest) && (is_reported_top(greatest, stats.max_ns) || greatest
            >= LAST_LEVEL && stats.max_ns == u64::MAX);
    lemma_level_bounds(level as nat);
    law_levels_keep_order(level as nat, greatest as nat);
    if level < LAST_LEVEL {
        lemma_top_before_last(level);
    }
}

/// What a recorder recorded up to a limit: the value, or the limit for a
/// value above it.
pub open spec fn clamped(value: u64, limit: u64) -> u64 {
    if value <= limit {
        value
    } else {
        limit
    }
}

/// Records per-event latencies and gives their percentiles.
///
/// Backed by a histogram with three significant digits. Values above the
/// recorder's maximum are recorded as the maximum.
pub struct LatencyRecorder {
    histogram: LatencyHistogram,
    max_value_ns: u64,
}

impl LatencyRecorder {
    /// The histogram tracks up to the recorder's maximum, and every level
    /// recorded lies within its range.
    pub closed spec fn well_formed(&self) -> bool {
        &&& self.max_value_ns >= 2
        &&& histogram_high(self.histogram) == self.max_value_ns
        &&& fits_range(histogram_levels(self.histogram), self.max_value_ns)
    }

    /// Every level recorded lies within the range of the recorder.
    pub proof fn law_levels_lie_in_range(&self)
        requires
            self.well_formed(),
        ensures
            fits_range(self.recorded(), self.limit()),
    {
    }

    /// The levels recorded.
    pub closed spec fn recorded(&self) -> Multiset<u64> {
        histogram_levels(self.histogram)
    }

    /// The highest value recorded as it is.
    pub closed spec fn limit(&self) -> u64 {
        self.max_value_ns
    }

    /// A recorder for values up to `max_value_ns`.
    pub fn new(max_value_ns: u64) -> (r: LatencyRecorder)
        requires
            max_value_ns >= 2,
        ensures
            r.well_formed(),
            r.recorded() == Multiset::<u64>::empty(),
            r.limit() == max_value_ns,
    {
        LatencyRecorder { histogram: new_histogram(max_value_ns, 3), max_value_ns }
    }

    /// A recorder for values up to ten seconds.
    pub fn default_range() -> (r: LatencyRecorder)
        ensures
            r.well_formed(),
            r.recorded() == Multiset::<u64>::empty(),
            r.limit() == 10_000_000_000,
    {
        LatencyRecorder::new(10_000_000_000)
    }

    /// Records a latency, one above the maximum as the maximum.
    pub fn record(&mut self, nanos: u64)
        requires
            old(self).well_formed(),
        ensures
            final(self).well_formed(),
            final(self).limit() == old(self).limit(),
            final(self).recorded() == with_latency(old(self).recorded(), nanos, old(self).limit()),
    {
        let value: u64 = if nanos <= self.max_value_ns {
            nanos
        } else {
            self.max_value_ns
        };
        proof {
            lemma_doubling_above(2048, self.max_value_ns as nat);
            law_recording_stays_in_range(self.recorded(), nanos, self.limit());
        }
        record_value(&mut self.histogram, value);
    }

    /// Records the time from `send_ns` to `recv_ns`, where it is positive.
    pub fn record_delta(&mut self, send_ns: u64, recv_ns: u64)
        requires
            old(self).well_formed(),
        ensures
            final(self).well_formed(),
            final(self).limit() == old(self).limit(),
            recv_ns <= send_ns ==> final(self).recorded() == old(self).recorded(),
            recv_ns > send_ns ==> final(self).recorded() == with_latency(
                old(self).recorded(),
                (recv_ns - send_ns) as u64,
                old(self).limit(),
            ),
    {
        if recv_ns > send_ns {
            self.record(recv_ns - send_ns);
        }
    }

    /// How many values were recorded.
    pub fn count(&self) -> (r: u64)
        requires
            self.well_formed(),
        ensures
            self.recorded().len() <= u64::MAX ==> r == self.recorded().len(),
            self.recorded().len() > u64::MAX ==> r == u64::MAX,
    {
        recorded_len(&self.histogram)
    }

    /// The figures of what was recorded; none where nothing was.
    pub fn stats(&self) -> (r: Option<LatencyStats>)
        requires
            self.well_formed(),
            self.recorded().len() <= u64::MAX,
        ensures
            r is None <==> self.recorded().len() == 0,
            r is Some ==> stats_of(self.recorded(), r->0),
            r is Some && self.limit() < 0x8000_0000_0000_0000 ==> figures_in_order(r->0),
            forall|lower: u64|
                r is Some && #[trigger] self.recorded().contains(lower) && lower < LAST_LEVEL
                    ==> figures_in_order(r->0),
    {
        if nothing_recorded(&self.histogram) {
            return None;
        }
        let h = &self.histogram;
        let stats = LatencyStats {
            count: recorded_len(h),
            min_ns: least_recorded(h),
            max_ns: greatest_recorded(h),
            mean_ns: mean_recorded(h),
            stdev_ns: stdev_recorded(h),
            p1_ns: percentile_recorded(h, "1"),
            p10_ns: percentile_recorded(h, "10"),
            p25_ns: percentile_recorded(h, "25"),
            p50_ns: percentile_recorded(h, "50"),
            p75_ns: percentile_recorded(h, "75"),
            p90_ns: percentile_recorded(h, "90"),
            p95_ns: percentile_recorded(h, "95"),
            p99_ns: percentile_recorded(h, "99"),
            p999_ns: percentile_recorded(h, "99.9"),
            p9999_ns: percentile_recorded(h, "99.99"),
            p99999_ns: percentile_recorded(h, "99.999"),
            p999999_ns: percentile_recorded(h, "99.9999"),
        };
        proof {
            if self.limit() < 0x8000_0000_0000_0000 {
                law_lower_limits_bound_levels(self.recorded(), self.limit());
                let least = choose|least: u64| #[trigger] is_least_level(self.recorded(), least);
                law_figures_are_in_order(self.recorded(), stats, least);
            }
            assert forall|lower: u64| #[trigger]
                self.recorded().contains(lower) && lower < LAST_LEVEL implies figures_in_order(
                stats,
            ) by {
                law_figures_are_in_order(self.recorded(), stats, lower);
            }
        }
        Some(stats)
    }

    /// Forgets what was recorded.
    pub fn reset(&mut self)
        requires
            old(self).well_formed(),
        ensures
            final(self).well_formed(),
            final(self).limit() == old(self).limit(),
            final(self).recorded() == Multiset::<u64>::empty(),
    {
        forget_recorded(&mut self.histogram)
    }

    /// Adds what another recorder recorded, where this one's range holds it;
    /// leaves this one as it is where it does not. One of the whole range may
    /// stay as it is where the other recorded in the last level.
    pub fn merge(&mut self, other: &LatencyRecorder)
        requires
            old(self).well_formed(),
            other.well_formed(),
        ensures
            final(self).well_formed(),
            final(self).limit() == old(self).limit(),
            !fits_range(other.recorded(), old(self).limit()) ==> final(self).recorded() == old(
                self,
            ).recorded(),
            fits_range(other.recorded(), old(self).limit()) && !other.recorded().contains(
                LAST_LEVEL,
            ) ==> is_sum(old(self).recorded(), other.recorded(), final(self).recorded()),
            final(self).recorded() == old(self).recorded() || is_sum(
                old(self).recorded(),
                other.recorded(),
                final(self).recorded(),
            ),
    {
        let ghost before = self.recorded();
        if add_recorded(&mut self.histogram, &other.histogram) {
            proof {
                law_merging_stays_in_range(before, other.recorded(), self.recorded(), self.limit());
            }
        }
    }
}

/// Every level lies within the range of a recorder with the given limit.
pub open spec fn fits_range(levels: Multiset<u64>, limit: u64) -> bool {
    forall|level: u64| #[trigger] levels.contains(level) ==> level < range_end(limit as nat)
}

/// `value` is the given percentile of the levels, which stands for the given
/// share in millionths.
pub open spec fn is_percentile(
    levels: Multiset<u64>,
    percentile: Seq<char>,
    millionths: nat,
    value: u64,
) -> bool {
    &&& value == percentile_of(levels, percentile)
    &&& is_top_of_some_level(levels, value)
    &&& levels.len() < 0x4000_0000 ==> reaches_share(levels, millionths, value)
}

/// `stats` holds the figures of the recorded levels.
pub open spec fn stats_of(levels: Multiset<u64>, stats: LatencyStats) -> bool {
    &&& levels.len() <= u64::MAX ==> stats.count == levels.len()
    &&& levels.len() > u64::MAX ==> stats.count == u64::MAX
    &&& is_reported_least(levels, stats.min_ns)
    &&& is_reported_greatest(levels, stats.max_ns)
    &&& stats.mean_ns == mean_of(levels)
    &&& stats.stdev_ns == stdev_of(levels)
    &&& is_percentile(levels, "1"@, 10_000, stats.p1_ns)
    &&& is_percentile(levels, "10"@, 100_000, stats.p10_ns)
    &&& is_percentile(levels, "25"@, 250_000, stats.p25_ns)
    &&& is_percentile(levels, "50"@, 500_000, stats.p50_ns)
    &&& is_percentile(levels, "75"@, 750_000, stats.p75_ns)
    &&& is_percentile(levels, "90"@, 900_000, stats.p90_ns)
    &&& is_percentile(levels, "95"@, 950_000, stats.p95_ns)
    &&& is_percentile(levels, "99"@, 990_000, stats.p99_ns)
    &&& is_percentile(levels, "99.9"@, 999_000, stats.p999_ns)
    &&& is_percentile(levels, "99.99"@, 999_900, stats.p9999_ns)
    &&& is_percentile(levels, "99.999"@, 999_990, stats.p99999_ns)
    &&& is_percentile(levels, "99.9999"@, 999_999, stats.p999999_ns)
    &&& percentiles_grow(stats)
}

/// No percentile lies below a lower one.
pub open spec fn percentiles_grow(stats: LatencyStats) -> bool {
    &&& stats.p1_ns <= stats.p10_ns <= stats.p25_ns <= stats.p50_ns <= stats.p75_ns
    &&& stats.p75_ns <= stats.p90_ns <= stats.p95_ns <= stats.p99_ns <= stats.p999_ns
    &&& stats.p999_ns <= stats.p9999_ns <= stats.p99999_ns <= stats.p999999_ns
}

/// The least figure, the percentiles and the greatest figure are in order.
pub open spec fn figures_in_order(stats: LatencyStats) -> bool {
    stats.min_ns <= stats.p1_ns && percentiles_grow(stats) && stats.p999999_ns <= stats.max_ns
}

/// Nanoseconds in the unit that suits them: ns, μs, ms or s.
pub open spec fn ns_text(ns: nat) -> Seq<char> {
    if ns < 1_000 {
        decimal_text(ns) + "ns"@
    } else if ns < 1_000_000 {
        one_place_text(ns, 1_000) + "μs"@
    } else if ns < 1_000_000_000 {
        two_place_text(ns, 1_000_000) + "ms"@
    } else {
        two_place_text(ns, 1_000_000_000) + "s"@
    }
}

/// Nanoseconds for display: ns, μs, ms or s.
pub fn format_ns(ns: u64) -> (r: String)
    ensures
        r@ == ns_text(ns as nat),
{
    if ns < 1_000 {
        let mut out = decimal(ns);
        out.append("ns");
        out
    } else if ns < 1_000_000 {
        let mut out = one_place(ns, 1_000);
        out.append("μs");
        out
    } else if ns < 1_000_000_000 {
        let mut out = two_places(ns, 1_000_000);
        out.append("ms");
        out
    } else {
        let mut out = two_places(ns, 1_000_000_000);
        out.append("s");
        out
    }
}

impl LatencyStats {
    /// The figures on one line, with the mean in the notation given.
    pub open spec fn summary_text(&self, mean: Seq<char>) -> Seq<char> {
        "P1="@ + ns_text(self.p1_ns as nat) + " P10="@ + ns_text(self.p10_ns as nat) + " P25="@
            + ns_text(self.p25_ns as nat) + " P50="@ + ns_text(self.p50_ns as nat) + " P90="@
            + ns_text(self.p90_ns as nat) + " P95="@ + ns_text(self.p95_ns as nat) + " P99="@
            + ns_text(self.p99_ns as nat) + " P99.9="@ + ns_text(self.p999_ns as nat) + " P99.99="@
            + ns_text(self.p9999_ns as nat) + " P99.999="@ + ns_text(self.p99999_ns as nat)
            + " P99.9999="@ + ns_text(self.p999999_ns as nat) + " mean="@ + mean + " min="@
            + ns_text(self.min_ns as nat) + " max="@ + ns_text(self.max_ns as nat) + " (n="@
            + decimal_text(self.count as nat) + ")"@
    }

    /// The figures on one line. `mean` is the mean in decimal notation,
    /// rounded to a whole number.
    pub fn summary(&self, mean: &str) -> (r: String)
        ensures
            r@ == self.summary_text(mean@),
    {
        let mut out: String = "P1=".to_owned();
        out.append(format_ns(self.p1_ns).as_str());
        out.append(" P10=");
        out.append(format_ns(self.p10_ns).as_str());
        out.append(" P25=");
        out.append(format_ns(self.p25_ns).as_str());
        out.append(" P50=");
        out.append(format_ns(self.p50_ns).as_str());
        out.append(" P90=");
        out.append(format_ns(self.p90_ns).as_str());
        out.append(" P95=");
        out.append(format_ns(self.p95_ns).as_str());
        out.append(" P99=");
        out.append(format_ns(self.p99_ns).as_str());
        out.append(" P99.9=");
        out.append(format_ns(self.p999_ns).as_str());
        out.append(" P99.99=");
        out.append(format_ns(self.p9999_ns).as_str());
        out.append(" P99.999=");
        out.append(format_ns(self.p99999_ns).as_str());
        out.append(" P99.9999=");
        out.append(format_ns(self.p999999_ns).as_str());
        out.append(" mean=");
        out.append(mean);
        out.append(" min=");
        out.append(format_ns(self.min_ns).as_str());
        out.append(" max=");
        out.append(format_ns(self.max_ns).as_str());
        out.append(" (n=");
        out.append(decimal(self.count).as_str());
        out.append(")");
        out
    }
}

/// A percentile of a latency is the value at which its own share of the recorded
/// values is reached.
pub proof fn law_percentiles_reach_their_shares(levels: Multiset<u64>, stats: LatencyStats)
    requires
        stats_of(levels, stats),
        levels.len() < 0x4000_0000,
    ensures
        stats.count == levels.len(),
        reaches_share(levels, 10_000, stats.p1_ns),
        reaches_share(levels, 100_000, stats.p10_ns),
        reaches_share(levels, 250_000, stats.p25_ns),
        reaches_share(levels, 500_000, stats.p50_ns),
        reaches_share(levels, 750_000, stats.p75_ns),
        reaches_share(levels, 900_000, stats.p90_ns),
        reaches_share(levels, 950_000, stats.p95_ns),
        reaches_share(levels, 990_000, stats.p99_ns),
        reaches_share(levels, 999_000, stats.p999_ns),
        reaches_share(levels, 999_900, stats.p9999_ns),
        reaches_share(levels, 999_990, stats.p99999_ns),
        reaches_share(levels, 999_999, stats.p999999_ns),
        stats.p1_ns <= stats.p10_ns <= stats.p25_ns <= stats.p50_ns <= stats.p75_ns,
        stats.p75_ns <= stats.p90_ns <= stats.p95_ns <= stats.p99_ns <= stats.p999_ns,
        stats.p999_ns <= stats.p9999_ns <= stats.p99999_ns <= stats.p999999_ns,
        stats.mean_ns == mean_of(levels),
        stats.stdev_ns == stdev_of(levels),
{
}

/// Recording a latency counts it once, at the level of the lesser of the latency
/// and the limit, and leaves every other level as it was.
pub proof fn law_recording_counts_one_more(levels: Multiset<u64>, nanos: u64, limit: u64)
    requires
        levels.len() < u64::MAX,
    ensures
        with_latency(levels, nanos, limit).len() == levels.len() + 1,
        forall|level: u64|
            #![trigger with_latency(levels, nanos, limit).count(level)]
            with_latency(levels, nanos, limit).count(level) == levels.count(level) + (if (nanos
                <= limit && level as nat == level_of(nanos as nat)) || (nanos > limit
                && level as nat == level_of(limit as nat)) {
                1nat
            } else {
                0
            }),
{
    let value = if nanos <= limit {
        nanos
    } else {
        limit
    };
    assert(clamped(nanos, limit) == value);
    lemma_level_bounds(value as nat);
    let level = level_of(value as nat) as u64;
    assert(levels.count(level) <= levels.len());
}

/// The unit of a time is nanoseconds below a microsecond, microseconds below a
/// millisecond, milliseconds below a second, and seconds from there on. Before
/// the unit stands the number of nanoseconds, or the tenth of a microsecond, or
/// the hundredth of a millisecond or second, nearest to the time.
pub proof fn law_times_are_shown_in_fitting_units(ns: u64)
    ensures
        ns < 1_000 ==> ns_text(ns as nat) == decimal_text(ns as nat) + seq!['n', 's'],
        1_000 <= ns < 1_000_000 ==> ns_text(ns as nat) == one_place_text(ns as nat, 1_000) + seq![
            'μ',
            's',
        ],
        1_000_000 <= ns < 1_000_000_000 ==> ns_text(ns as nat) == two_place_text(
            ns as nat,
            1_000_000,
        ) + seq!['m', 's'],
        ns >= 1_000_000_000 ==> ns_text(ns as nat) == two_place_text(ns as nat, 1_000_000_000)
            + seq!['s'],
{
    reveal_strlit("ns");
    reveal_strlit("μs");
    reveal_strlit("ms");
    reveal_strlit("s");
    assert("ns"@ =~= seq!['n', 's']);
    assert("μs"@ =~= seq!['μ', 's']);
    assert("ms"@ =~= seq!['m', 's']);
    assert("s"@ =~= seq!['s']);
}

/// The summary line gives every figure behind its own label.
pub proof fn law_summary_labels_every_figure(stats: LatencyStats, mean: Seq<char>)
    ensures
        has_prefix(stats.summary_text(mean), "P1="@ + ns_text(stats.p1_ns as nat)),
        contains_text(stats.summary_text(mean), " P10="@ + ns_text(stats.p10_ns as nat)),
        contains_text(stats.summary_text(mean), " P25="@ + ns_text(stats.p25_ns as nat)),
        contains_text(stats.summary_text(mean), " P50="@ + ns_text(stats.p50_ns as nat)),
        contains_text(stats.summary_text(mean), " P90="@ + ns_text(stats.p90_ns as nat)),
        contains_text(stats.summary_text(mean), " P95="@ + ns_text(stats.p95_ns as nat)),
        contains_text(stats.summary_text(mean), " P99="@ + ns_text(stats.p99_ns as nat)),
        contains_text(stats.summary_text(mean), " P99.9="@ + ns_text(stats.p999_ns as nat)),
        contains_text(stats.summary_text(mean), " P99.99="@ + ns_text(stats.p9999_ns as nat)),
        contains_text(stats.summary_text(mean), " P99.999="@ + ns_text(stats.p99999_ns as nat)),
        contains_text(stats.summary_text(mean), " P99.9999="@ + ns_text(stats.p999999_ns as nat)),
        contains_text(stats.summary_text(mean), " mean="@ + mean),
        contains_text(stats.summary_text(mean), " min="@ + ns_text(stats.min_ns as nat)),
        contains_text(stats.summary_text(mean), " max="@ + ns_text(stats.max_ns as nat)),
        contains_text(
            stats.summary_text(mean),
            " (n="@ + (decimal_text(stats.count as nat) + ")"@),
        ),
{
    let whole = stats.summary_text(mean);
    let a = "P1="@ + ns_text(stats.p1_ns as nat);
    let b = a + " P10="@ + ns_text(stats.p10_ns as nat);
    let c = b + " P25="@ + ns_text(stats.p25_ns as nat);
    let d = c + " P50="@ + ns_text(stats.p50_ns as nat);
    let e = d + " P90="@ + ns_text(stats.p90_ns as nat);
    let f = e + " P95="@ + ns_text(stats.p95_ns as nat);
    let g = f + " P99="@ + ns_text(stats.p99_ns as nat);
    let h = g + " P99.9="@ + ns_text(stats.p999_ns as nat);
    let i = h + " P99.99="@ + ns_text(stats.p9999_ns as nat);
    let j = i + " P99.999="@ + ns_text(stats.p99999_ns as nat);
    let k = j + " P99.9999="@ + ns_text(stats.p999999_ns as nat);
    let l = k + " mean="@ + mean;
    let m = l + " min="@ + ns_text(stats.min_ns as nat);
    let n = m + " max="@ + ns_text(stats.max_ns as nat);
    assert(whole == n + " (n="@ + decimal_text(stats.count as nat) + ")"@);
    lemma_whole_prefix(whole);
    assert(whole =~= n + " (n="@ + (decimal_text(stats.count as nat) + ")"@));
    lemma_labelled(whole, n, " (n="@, decimal_text(stats.count as nat) + ")"@);
    lemma_labelled(whole, m, " max="@, ns_text(stats.max_ns as nat));
    lemma_labelled(whole, l, " min="@, ns_text(stats.min_ns as nat));
    lemma_labelled(whole, k, " mean="@, mean);
    lemma_labelled(whole, j, " P99.9999="@, ns_text(stats.p999999_ns as nat));
    lemma_labelled(whole, i, " P99.999="@, ns_text(stats.p99999_ns as nat));
    lemma_labelled(whole, h, " P99.99="@, ns_text(stats.p9999_ns as nat));
    lemma_labelled(whole, g, " P99.9="@, ns_text(stats.p999_ns as nat));
    lemma_labelled(whole, f, " P99="@, ns_text(stats.p99_ns as nat));
    lemma_labelled(whole, e, " P95="@, ns_text(stats.p95_ns as nat));
    lemma_labelled(whole, d, " P90="@, ns_text(stats.p90_ns as nat));
    lemma_labelled(whole, c, " P50="@, ns_text(stats.p50_ns as nat));
    lemma_labelled(whole, b, " P25="@, ns_text(stats.p25_ns as nat));
    lemma_labelled(whole, a, " P10="@, ns_text(stats.p10_ns as nat));
}

} // verus!
