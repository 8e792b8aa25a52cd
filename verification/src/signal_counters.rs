//! Queueing of signal events, as seen by an observer of their counters.
use vstd::prelude::*;
use crate::double::{
    law_scaling_gives_the_nearest_integer, law_scaling_keeps_order, scale_integer, scaled_integer,
};
use crate::metric::{Metric, ZERO_BITS};
use crate::naming::{short_name, unique_shm_segment};
use crate::text::{option_str_view, same_text};

verus! {

/// The consumer that a single-consumer run is observed by.
pub fn signal_single_consumer_id() -> (r: &'static str)
    ensures
        r@ == "ad_0"@,
{
    "ad_0"
}

/// Which counters a run keeps.
#[derive(Clone, Copy, Debug, PartialEq, Eq, Structural)]
pub enum SignalCountersMode {
    Full,
    Lite,
}

/// The name of a mode.
pub open spec fn counters_mode_text(mode: SignalCountersMode) -> Seq<char> {
    match mode {
        SignalCountersMode::Full => "full"@,
        SignalCountersMode::Lite => "lite"@,
    }
}

/// A mode is read from its name; any other name is an error that gives it.
pub open spec fn reads_counters_mode(
    text: Seq<char>,
    r: Result<SignalCountersMode, String>,
) -> bool {
    match r {
        Ok(mode) => counters_mode_text(mode) == text,
        Err(message) => text != "full"@ && text != "lite"@ && message@
            == "unknown signal counters mode: "@ + text,
    }
}

impl SignalCountersMode {
    /// Reads a mode from its name.
    pub fn parse(raw: &str) -> (r: Result<SignalCountersMode, String>)
        ensures
            reads_counters_mode(raw@, r),
    {
        if same_text(raw, "full") {
            Ok(SignalCountersMode::Full)
        } else if same_text(raw, "lite") {
            Ok(SignalCountersMode::Lite)
        } else {
            let mut message: String = "unknown signal counters mode: ".to_owned();
            message.append(raw);
            Err(message)
        }
    }

    /// Reads a mode from the value of its variable; full where it is not set.
    pub fn from_env(value: Option<&str>) -> (r: Result<SignalCountersMode, String>)
        ensures
            match option_str_view(value) {
                Some(text) => reads_counters_mode(text, r),
                None => r == Ok::<SignalCountersMode, String>(SignalCountersMode::Full),
            },
    {
        match value {
            Some(text) => SignalCountersMode::parse(text),
            None => Ok(SignalCountersMode::Full),
        }
    }

    /// The name of the mode.
    pub fn as_str(self) -> (r: &'static str)
        ensures
            r@ == counters_mode_text(self),
    {
        match self {
            SignalCountersMode::Full => "full",
            SignalCountersMode::Lite => "lite",
        }
    }
}

/// Different modes have different names.
pub proof fn law_counters_mode_reads_back(mode: SignalCountersMode, read: SignalCountersMode)
    requires
        counters_mode_text(mode) == counters_mode_text(read),
    ensures
        mode == read,
{
    reveal_strlit("full");
    reveal_strlit("lite");
    assert("full"@[0] != "lite"@[0]);
}

/// A name for the counters of a run.
pub fn unique_signal_counters_name(process_id: u32, nanos: u128) -> (r: String)
    ensures
        r@ == short_name("sigctr"@, process_id as nat, nanos as nat),
{
    unique_shm_segment("sigctr", process_id, nanos)
}

/// What a counter counts.
#[derive(Clone, Copy, Debug, PartialEq, Eq, Structural)]
pub enum CounterId {
    EventsPublished,
    EventsConsumed,
    ProducerFullEvents,
    ConsumerEmptySpins,
    ConsumerLagMax,
    Other,
}

/// A counter as it was read.
#[derive(Clone, Copy, Debug, PartialEq, Eq, Structural)]
pub struct CounterReading {
    pub id: CounterId,
    pub value: u64,
}

/// The counters of a run at one time.
#[derive(Clone, Copy, Debug, PartialEq, Eq, Structural)]
pub struct CounterValues {
    pub events_published: u64,
    pub events_consumed: u64,
    pub producer_full_events: u64,
    pub consumer_empty_spins: u64,
    pub consumer_lag_max: u64,
}

/// The last value that was read of a counter; zero where none was.
pub open spec fn last_reading(snapshot: Seq<CounterReading>, id: CounterId) -> u64
    decreases snapshot.len(),
{
    if snapshot.len() == 0 {
        0
    } else if snapshot.last().id == id {
        snapshot.last().value
    } else {
        last_reading(snapshot.drop_last(), id)
    }
}

/// The counters that a snapshot holds.
pub open spec fn values_in(snapshot: Seq<CounterReading>) -> CounterValues {
    CounterValues {
        events_published: last_reading(snapshot, CounterId::EventsPublished),
        events_consumed: last_reading(snapshot, CounterId::EventsConsumed),
        producer_full_events: last_reading(snapshot, CounterId::ProducerFullEvents),
        consumer_empty_spins: last_reading(snapshot, CounterId::ConsumerEmptySpins),
        consumer_lag_max: last_reading(snapshot, CounterId::ConsumerLagMax),
    }
}

impl CounterValues {
    /// All counters at zero.
    pub fn zero() -> (r: CounterValues)
        ensures
            r == values_in(Seq::empty()),
    {
        CounterValues {
            events_published: 0,
            events_consumed: 0,
            producer_full_events: 0,
            consumer_empty_spins: 0,
            consumer_lag_max: 0,
        }
    }

    /// The counters that a snapshot holds.
    pub fn from_snapshot(snapshot: &Vec<CounterReading>) -> (r: CounterValues)
        ensures
            r == values_in(snapshot@),
    {
        let mut values = CounterValues::zero();
        assert(snapshot@.take(0) =~= Seq::empty());
        for i in 0..snapshot.len()
            invariant
                values == values_in(snapshot@.take(i as int)),
        {
            assert(snapshot@.take(i + 1).drop_last() =~= snapshot@.take(i as int));
            let counter = snapshot[i];
            match counter.id {
                CounterId::EventsPublished => {
                    values.events_published = counter.value;
                },
                CounterId::EventsConsumed => {
                    values.events_consumed = counter.value;
                },
                CounterId::ProducerFullEvents => {
                    values.producer_full_events = counter.value;
                },
                CounterId::ConsumerEmptySpins => {
                    values.consumer_empty_spins = counter.value;
                },
                CounterId::ConsumerLagMax => {
                    values.consumer_lag_max = counter.value;
                },
                CounterId::Other => {},
            }
        }
        assert(snapshot@.take(snapshot@.len() as int) =~= snapshot@);
        values
    }

    /// The counters that a pair of sequence cursors amounts to.
    pub fn from_cursors(producer_seq: i64, consumer_seq: i64) -> (r: CounterValues)
        ensures
            r.events_published == event_count(producer_seq as int),
            r.events_consumed == event_count(consumer_seq as int),
            r.producer_full_events == 0,
            r.consumer_empty_spins == 0,
            r.consumer_lag_max == 0,
    {
        CounterValues {
            events_published: absolute_event_count(producer_seq),
            events_consumed: absolute_event_count(consumer_seq),
            producer_full_events: 0,
            consumer_empty_spins: 0,
            consumer_lag_max: 0,
        }
    }
}

/// How many events a cursor has passed. Sequence numbers begin at zero; a
/// negative cursor has passed none.
pub open spec fn event_count(sequence: int) -> int {
    if sequence < 0 {
        0
    } else {
        sequence + 1
    }
}

/// How many events a cursor has passed.
pub fn absolute_event_count(sequence: i64) -> (r: u64)
    ensures
        r == event_count(sequence as int),
{
    if sequence < 0 {
        0
    } else {
        sequence as u64 + 1
    }
}

/// The name of the cursor of a segment's producer.
pub fn producer_cursor_name(segment: &str) -> (r: String)
    ensures
        r@ == segment@ + "_producer_seq"@,
{
    let mut out: String = segment.to_owned();
    out.append("_producer_seq");
    out
}

/// The name of the cursor of a segment's consumer.
pub fn consumer_cursor_name(segment: &str, consumer_id: &str) -> (r: String)
    ensures
        r@ == segment@ + "_"@ + consumer_id@ + "_seq"@,
{
    let mut out: String = segment.to_owned();
    out.append("_");
    out.append(consumer_id);
    out.append("_seq");
    out
}

/// `a` less `b`, and no less than zero.
pub open spec fn less(a: u64, b: u64) -> u64 {
    if a >= b {
        (a - b) as u64
    } else {
        0
    }
}

/// The events that were published and not consumed since `first`.
pub open spec fn backlog_since(first: CounterValues, now: CounterValues) -> u64 {
    less(
        less(now.events_published, first.events_published),
        less(now.events_consumed, first.events_consumed),
    )
}

/// An observer of a run's counters. It begins once the warmup was published
/// and notes the backlog at every look from then on.
#[derive(Debug)]
pub struct BacklogObserver {
    pub warmup_messages: u64,
    pub measured_messages: u64,
    pub started: bool,
    pub start_ns: u64,
    pub first: CounterValues,
    pub last: CounterValues,
    pub backlogs: Vec<u64>,
}

/// The run is over: warmup and measured events were published and consumed.
pub open spec fn run_is_over(warmup: u64, measured: u64, values: CounterValues) -> bool {
    let total = if warmup + measured <= u64::MAX {
        warmup + measured
    } else {
        u64::MAX as int
    };
    values.events_published >= total && values.events_consumed >= total
}

impl BacklogObserver {
    /// Nothing is noted before the observer has begun, and something from
    /// then on.
    pub open spec fn well_formed(&self) -> bool {
        self.started <==> self.backlogs@.len() > 0
    }

    /// An observer that has not begun.
    pub fn new(warmup_messages: u64, measured_messages: u64) -> (r: BacklogObserver)
        ensures
            r.well_formed(),
            r.warmup_messages == warmup_messages,
            r.measured_messages == measured_messages,
            !r.started,
            r.start_ns == 0,
            r.first == values_in(Seq::empty()),
            r.last == values_in(Seq::empty()),
            r.backlogs@ == Seq::<u64>::empty(),
    {
        BacklogObserver {
            warmup_messages,
            measured_messages,
            started: false,
            start_ns: 0,
            first: CounterValues::zero(),
            last: CounterValues::zero(),
            backlogs: Vec::new(),
        }
    }

    /// Takes a look at the counters, and says whether it was the last one:
    /// where the run is over, or where the observer has begun and is asked to
    /// stop. `now_ns` is the time of the look.
    pub fn observe(&mut self, values: CounterValues, now_ns: u64, stop: bool) -> (done: bool)
        requires
            old(self).well_formed(),
        ensures
            final(self).well_formed(),
            final(self).warmup_messages == old(self).warmup_messages,
            final(self).measured_messages == old(self).measured_messages,
            final(self).started == (old(self).started || values.events_published
                >= old(self).warmup_messages),
            final(self).start_ns == if !old(self).started && final(self).started {
                now_ns
            } else {
                old(self).start_ns
            },
            final(self).first == if !old(self).started && final(self).started {
                values
            } else {
                old(self).first
            },
            final(self).last == if final(self).started {
                values
            } else {
                old(self).last
            },
            final(self).backlogs@ == if final(self).started {
                old(self).backlogs@.push(backlog_since(final(self).first, values))
            } else {
                old(self).backlogs@
            },
            done == (final(self).started && (stop || run_is_over(
                old(self).warmup_messages,
                old(self).measured_messages,
                values,
            ))),
    {
        if !self.started && values.events_published >= self.warmup_messages {
            self.started = true;
            self.start_ns = now_ns;
            self.first = values;
        }
        if !self.started {
            return false;
        }
        let published: u64 = values.events_published.saturating_sub(self.first.events_published);
        let consumed: u64 = values.events_consumed.saturating_sub(self.first.events_consumed);
        self.backlogs.push(published.saturating_sub(consumed));
        self.last = values;
        let total: u64 = self.warmup_messages.saturating_add(self.measured_messages);
        stop || (values.events_published >= total && values.events_consumed >= total)
    }
}

/// Every value is at most the next.
pub open spec fn is_sorted(values: Seq<u64>) -> bool {
    forall|i: int, j: int| 0 <= i <= j < values.len() ==> #[trigger] values[i] <= #[trigger] values[j]
}

/// Sorts the values by `slice::sort_unstable`: they come out in order, and
/// the same values.
#[verifier::external_body]
fn sort_values(values: &mut Vec<u64>)
    ensures
        is_sorted(final(values)@),
        final(values)@.to_multiset() == old(values)@.to_multiset(),
        final(values)@.len() == old(values)@.len(),
{
    values.sort_unstable()
}

/// The place of the quantile `num / den` among `len` sorted values.
pub open spec fn quantile_index(len: nat, num: nat, den: nat) -> nat {
    let index = scaled_integer((len - 1) as nat, num, den);
    if index <= len - 1 {
        index
    } else {
        (len - 1) as nat
    }
}

/// The quantile of sorted values; zero of none.
pub open spec fn quantile_of(sorted: Seq<u64>, num: nat, den: nat) -> u64 {
    if sorted.len() == 0 {
        0
    } else {
        sorted[quantile_index(sorted.len(), num, den) as int]
    }
}

/// The quantile `num / den` of sorted values.
pub fn percentile(sorted: &Vec<u64>, num: u64, den: u64) -> (r: u64)
    requires
        0 < num,
        0 < den,
    ensures
        r == quantile_of(sorted@, num as nat, den as nat),
{
    if sorted.len() == 0 {
        return 0;
    }
    let last: usize = sorted.len() - 1;
    let index: u64 = scale_integer(last as u64, num, den);
    if index <= last as u64 {
        sorted[index as usize]
    } else {
        sorted[last]
    }
}

/// What an observer saw.
#[derive(Clone, Copy, Debug, PartialEq, Eq, Structural)]
pub struct BacklogSummary {
    pub sample_count: usize,
    pub published_total: u64,
    pub consumed_total: u64,
    pub producer_full_events: u64,
    pub consumer_empty_spins: u64,
    pub consumer_lag_max: u64,
    pub observed_duration_ns: u64,
    pub p50_backlog: u64,
    pub p95_backlog: u64,
    pub p99_backlog: u64,
    pub p999_backlog: u64,
    pub p9999_backlog: u64,
    pub p99999_backlog: u64,
    pub max_backlog: u64,
}

/// The greatest of sorted values; zero of none.
pub open spec fn last_or_zero(sorted: Seq<u64>) -> u64 {
    if sorted.len() == 0 {
        0
    } else {
        sorted.last()
    }
}

/// `summary` sums up what the observer saw until `end_ns`, `sorted` being its
/// backlogs in order.
pub open spec fn sums_up(
    observer: BacklogObserver,
    end_ns: u64,
    sorted: Seq<u64>,
    summary: BacklogSummary,
) -> bool {
    &&& is_sorted(sorted)
    &&& sorted.to_multiset() == observer.backlogs@.to_multiset()
    &&& summary == (BacklogSummary {
        sample_count: observer.backlogs@.len() as usize,
        published_total: less(observer.last.events_published, observer.first.events_published),
        consumed_total: less(observer.last.events_consumed, observer.first.events_consumed),
        producer_full_events: observer.last.producer_full_events,
        consumer_empty_spins: observer.last.consumer_empty_spins,
        consumer_lag_max: observer.last.consumer_lag_max,
        observed_duration_ns: less(end_ns, observer.start_ns),
        p50_backlog: quantile_of(sorted, 50, 100),
        p95_backlog: quantile_of(sorted, 95, 100),
        p99_backlog: quantile_of(sorted, 99, 100),
        p999_backlog: quantile_of(sorted, 999, 1000),
        p9999_backlog: quantile_of(sorted, 9999, 10000),
        p99999_backlog: quantile_of(sorted, 99999, 100000),
        max_backlog: last_or_zero(sorted),
    })
}

impl BacklogObserver {
    /// What the observer saw until `end_ns`.
    pub fn summary(&self, end_ns: u64) -> (r: BacklogSummary)
        ensures
            exists|sorted: Seq<u64>| #[trigger] sums_up(*self, end_ns, sorted, r),
    {
        let mut sorted: Vec<u64> = Vec::new();
        for i in 0..self.backlogs.len()
            invariant
                sorted@ == self.backlogs@.take(i as int),
        {
            sorted.push(self.backlogs[i]);
            assert(self.backlogs@.take(i + 1) =~= self.backlogs@.take(i as int).push(
                self.backlogs@[i as int],
            ));
        }
        assert(self.backlogs@.take(self.backlogs@.len() as int) =~= self.backlogs@);
        sort_values(&mut sorted);
        let max_backlog: u64 = if sorted.len() > 0 {
            sorted[sorted.len() - 1]
        } else {
            0
        };
        let summary = BacklogSummary {
            sample_count: self.backlogs.len(),
            published_total: self.last.events_published.saturating_sub(self.first.events_published),
            consumed_total: self.last.events_consumed.saturating_sub(self.first.events_consumed),
            producer_full_events: self.last.producer_full_events,
            consumer_empty_spins: self.last.consumer_empty_spins,
            consumer_lag_max: self.last.consumer_lag_max,
            observed_duration_ns: end_ns.saturating_sub(self.start_ns),
            p50_backlog: percentile(&sorted, 50, 100),
            p95_backlog: percentile(&sorted, 95, 100),
            p99_backlog: percentile(&sorted, 99, 100),
            p999_backlog: percentile(&sorted, 999, 1000),
            p9999_backlog: percentile(&sorted, 9999, 10000),
            p99999_backlog: percentile(&sorted, 99999, 100000),
            max_backlog,
        };
        assert(sums_up(*self, end_ns, sorted@, summary));
        summary
    }
}

/// No quantile of the backlog is above its greatest value.
pub proof fn law_quantiles_stay_below_maximum(sorted: Seq<u64>, num: nat, den: nat)
    requires
        is_sorted(sorted),
    ensures
        quantile_of(sorted, num, den) <= last_or_zero(sorted),
        sorted.len() > 0 ==> sorted.contains(quantile_of(sorted, num, den)),
{
    if sorted.len() > 0 {
        let i = quantile_index(sorted.len(), num, den) as int;
        assert(sorted[i] <= sorted[sorted.len() - 1]);
    }
}

/// A summary does not depend on how its backlogs came to be sorted.
pub proof fn law_summary_is_unique(
    observer: BacklogObserver,
    end_ns: u64,
    x: Seq<u64>,
    a: BacklogSummary,
    y: Seq<u64>,
    b: BacklogSummary,
)
    requires
        sums_up(observer, end_ns, x, a),
        sums_up(observer, end_ns, y, b),
    ensures
        a == b,
{
    lemma_sorted_values_unique(x, y);
}

/// Sorted lists of the same values are the same list.
proof fn lemma_sorted_values_unique(x: Seq<u64>, y: Seq<u64>)
    requires
        is_sorted(x),
        is_sorted(y),
        x.to_multiset() == y.to_multiset(),
    ensures
        x == y,
    decreases x.len(),
{
    x.to_multiset_ensures();
    y.to_multiset_ensures();
    assert(x.len() == y.len());
    if x.len() == 0 {
        assert(x =~= y);
    } else {
        let n = x.len() - 1;
        assert(x.to_multiset().contains(x[n]));
        assert(y.to_multiset().contains(x[n]));
        assert(y.contains(x[n]));
        assert(y.to_multiset().contains(y[n]));
        assert(x.to_multiset().contains(y[n]));
        assert(x.contains(y[n]));
        let i = choose|i: int| 0 <= i < y.len() && y[i] == x[n];
        let j = choose|j: int| 0 <= j < x.len() && x[j] == y[n];
        assert(y[i] <= y[n]);
        assert(x[j] <= x[n]);
        assert(x[n] == y[n]);
        let p = x.drop_last();
        let q = y.drop_last();
        assert(p.push(x[n]) =~= x);
        assert(q.push(y[n]) =~= y);
        p.to_multiset_ensures();
        q.to_multiset_ensures();
        assert(p.to_multiset().insert(x[n]) =~= x.to_multiset());
        assert(q.to_multiset().insert(y[n]) =~= y.to_multiset());
        assert forall|v: u64| p.to_multiset().count(v) == q.to_multiset().count(v) by {
            let before = p.to_multiset().insert(x[n]);
            let after = q.to_multiset().insert(x[n]);
            assert(before.count(v) == after.count(v));
            if v == x[n] {
                vstd::multiset::lemma_insert_increases_count_by_1(p.to_multiset(), v);
                vstd::multiset::lemma_insert_increases_count_by_1(q.to_multiset(), v);
            } else {
                vstd::multiset::lemma_insert_other_elements_unchanged(p.to_multiset(), x[n], v);
                vstd::multiset::lemma_insert_other_elements_unchanged(q.to_multiset(), x[n], v);
            }
        }
        assert(p.to_multiset() =~= q.to_multiset());
        assert forall|a: int, b: int| 0 <= a <= b < p.len() implies #[trigger] p[a]
            <= #[trigger] p[b] by {
            assert(x[a] <= x[b]);
        }
        assert forall|a: int, b: int| 0 <= a <= b < q.len() implies #[trigger] q[a]
            <= #[trigger] q[b] by {
            assert(y[a] <= y[b]);
        }
        lemma_sorted_values_unique(p, q);
    }
}

/// The rates and times that a summary amounts to, computed by the caller.
#[derive(Clone, Copy, Debug, PartialEq, Eq, Structural)]
pub struct BacklogRates {
    pub observed_publish_ops_sec: Metric,
    pub observed_consume_ops_sec: Metric,
    pub avg_backlog: Metric,
    pub estimated_mean_queue_latency_ns: Metric,
    pub estimated_p50_queue_latency_ns: Metric,
    pub estimated_p95_queue_latency_ns: Metric,
    pub estimated_p99_queue_latency_ns: Metric,
    pub estimated_p999_queue_latency_ns: Metric,
    pub estimated_p9999_queue_latency_ns: Metric,
    pub estimated_p99999_queue_latency_ns: Metric,
    pub estimated_max_queue_latency_ns: Metric,
}

/// What an observer saw, and the queueing latency that it suggests.
#[derive(Clone, Debug)]
pub struct SignalCountersEstimate {
    pub warmup_messages: u64,
    pub measured_messages: u64,
    pub poll_interval_us: u64,
    pub summary: BacklogSummary,
    pub rates: BacklogRates,
    pub note: String,
}

/// What is read: shared counters, or the cursors that producer and consumer
/// keep anyway.
#[derive(Clone, Copy, Debug, PartialEq, Eq, Structural)]
pub enum ObserverSource {
    Counters,
    Cursors,
}

/// The remark on an estimate.
pub open spec fn estimate_note(source: ObserverSource) -> Seq<char> {
    match source {
        ObserverSource::Counters =>
            "queueing-only estimate from shared RFC-0040 counters; excludes base propagation latency"@,
        ObserverSource::Cursors =>
            "queueing-only estimate from existing producer/consumer sequence cursors; zero extra hot-path metrics atomics; excludes base propagation latency"@,
    }
}

impl SignalCountersEstimate {
    /// The estimate of an observer that never began.
    pub fn empty(warmup_messages: u64, measured_messages: u64, poll_interval_us: u64) -> (r:
        SignalCountersEstimate)
        ensures
            r.warmup_messages == warmup_messages,
            r.measured_messages == measured_messages,
            r.poll_interval_us == poll_interval_us,
            r.summary == empty_summary(),
            r.rates == zero_rates(),
            r.note@ == "no counters samples collected"@,
    {
        let zero = Metric::zero();
        SignalCountersEstimate {
            warmup_messages,
            measured_messages,
            poll_interval_us,
            summary: BacklogSummary {
                sample_count: 0,
                published_total: 0,
                consumed_total: 0,
                producer_full_events: 0,
                consumer_empty_spins: 0,
                consumer_lag_max: 0,
                observed_duration_ns: 0,
                p50_backlog: 0,
                p95_backlog: 0,
                p99_backlog: 0,
                p999_backlog: 0,
                p9999_backlog: 0,
                p99999_backlog: 0,
                max_backlog: 0,
            },
            rates: BacklogRates {
                observed_publish_ops_sec: zero,
                observed_consume_ops_sec: zero,
                avg_backlog: zero,
                estimated_mean_queue_latency_ns: zero,
                estimated_p50_queue_latency_ns: zero,
                estimated_p95_queue_latency_ns: zero,
                estimated_p99_queue_latency_ns: zero,
                estimated_p999_queue_latency_ns: zero,
                estimated_p9999_queue_latency_ns: zero,
                estimated_p99999_queue_latency_ns: zero,
                estimated_max_queue_latency_ns: zero,
            },
            note: "no counters samples collected".to_owned(),
        }
    }

    /// The estimate of an observer: what it saw with the rates given, or the
    /// empty one where it never began.
    pub fn from_observer(
        observer: &BacklogObserver,
        source: ObserverSource,
        poll_interval_us: u64,
        end_ns: u64,
        rates: BacklogRates,
    ) -> (r: SignalCountersEstimate)
        ensures
            r.warmup_messages == observer.warmup_messages,
            r.measured_messages == observer.measured_messages,
            r.poll_interval_us == poll_interval_us,
            observer.started ==> exists|sorted: Seq<u64>| #[trigger]
                sums_up(*observer, end_ns, sorted, r.summary),
            observer.started ==> r.rates == rates,
            observer.started ==> r.note@ == estimate_note(source),
            !observer.started ==> {
                &&& r.summary == empty_summary()
                &&& r.rates == zero_rates()
                &&& r.note@ == "no counters samples collected"@
            },
    {
        if !observer.started {
            return SignalCountersEstimate::empty(
                observer.warmup_messages,
                observer.measured_messages,
                poll_interval_us,
            );
        }
        let note: String = match source {
            ObserverSource::Counters =>
                "queueing-only estimate from shared RFC-0040 counters; excludes base propagation latency".to_owned(),
            ObserverSource::Cursors =>
                "queueing-only estimate from existing producer/consumer sequence cursors; zero extra hot-path metrics atomics; excludes base propagation latency".to_owned(),
        };
        let summary = observer.summary(end_ns);
        let ghost sorted = choose|sorted: Seq<u64>| #[trigger]
            sums_up(*observer, end_ns, sorted, summary);
        let estimate = SignalCountersEstimate {
            warmup_messages: observer.warmup_messages,
            measured_messages: observer.measured_messages,
            poll_interval_us,
            summary,
            rates,
            note,
        };
        assert(sums_up(*observer, end_ns, sorted, estimate.summary));
        estimate
    }
}

/// The summary of an observer that saw nothing.
pub open spec fn empty_summary() -> BacklogSummary {
    BacklogSummary {
        sample_count: 0,
        published_total: 0,
        consumed_total: 0,
        producer_full_events: 0,
        consumer_empty_spins: 0,
        consumer_lag_max: 0,
        observed_duration_ns: 0,
        p50_backlog: 0,
        p95_backlog: 0,
        p99_backlog: 0,
        p999_backlog: 0,
        p9999_backlog: 0,
        p99999_backlog: 0,
        max_backlog: 0,
    }
}

/// Rates of which all are zero.
pub open spec fn zero_rates() -> BacklogRates {
    let zero = Metric { bits: ZERO_BITS };
    BacklogRates {
        observed_publish_ops_sec: zero,
        observed_consume_ops_sec: zero,
        avg_backlog: zero,
        estimated_mean_queue_latency_ns: zero,
        estimated_p50_queue_latency_ns: zero,
        estimated_p95_queue_latency_ns: zero,
        estimated_p99_queue_latency_ns: zero,
        estimated_p999_queue_latency_ns: zero,
        estimated_p9999_queue_latency_ns: zero,
        estimated_p99999_queue_latency_ns: zero,
        estimated_max_queue_latency_ns: zero,
    }
}

/// The place of a quantile is within the values, and, for up to two to the
/// thirty-two of them, the one nearest to its share of the way to the last.
proof fn lemma_quantile_place(len: nat, num: nat, den: nat)
    requires
        0 < len <= usize::MAX,
        0 < num <= den <= 0x2_0000,
    ensures
        quantile_index(len, num, den) < len,
        len <= 0x1_0000_0000 ==> {
            &&& 2 * (quantile_index(len, num, den) * den - (len - 1) * num) <= den
            &&& 2 * ((len - 1) * num - quantile_index(len, num, den) * den) <= den
        },
{
    if len <= 0x1_0000_0000 {
        law_scaling_gives_the_nearest_integer((len - 1) as nat, num, den);
    }
}

/// A greater quantile is no smaller value.
pub proof fn law_quantiles_grow(sorted: Seq<u64>, num: nat, den: nat, more: nat, per: nat)
    requires
        is_sorted(sorted),
        sorted.len() <= usize::MAX,
        0 < num <= den <= 0x2_0000,
        0 < more <= per <= 0x2_0000,
        num * per < more * den,
    ensures
        quantile_of(sorted, num, den) <= quantile_of(sorted, more, per),
{
    if sorted.len() > 0 {
        lemma_quantile_place(sorted.len(), num, den);
        lemma_quantile_place(sorted.len(), more, per);
        law_scaling_keeps_order((sorted.len() - 1) as nat, num, den, more, per);
        let i = quantile_index(sorted.len(), num, den) as int;
        let j = quantile_index(sorted.len(), more, per) as int;
        assert(i <= j);
        assert(sorted[i] <= sorted[j]);
    }
}

/// `value` stands among the sorted values at the place nearest to the given
/// share of the way from the first to the last.
pub open spec fn stands_at_share(sorted: Seq<u64>, num: nat, den: nat, value: u64) -> bool {
    exists|i: int|
        {
            &&& 0 <= i < sorted.len()
            &&& #[trigger] sorted[i] == value
            &&& 2 * (i * den - (sorted.len() - 1) * num) <= den
            &&& 2 * ((sorted.len() - 1) * num - i * den) <= den
        }
}

/// The figures of a summary are what their names say: how many looks were taken,
/// what was published and consumed since the first, what the counters stand at,
/// how long it took, and of the backlogs the values at a half, at 95, 99, 99.9,
/// 99.99 and 99.999 percent of the way through them in order, none smaller than
/// the one before, and the greatest.
pub proof fn law_summary_figures_are_as_named(
    observer: BacklogObserver,
    end_ns: u64,
    sorted: Seq<u64>,
    summary: BacklogSummary,
)
    requires
        sums_up(observer, end_ns, sorted, summary),
        observer.backlogs@.len() <= usize::MAX,
    ensures
        sorted.to_multiset() == observer.backlogs@.to_multiset(),
        forall|i: int, j: int|
            0 <= i <= j < sorted.len() ==> #[trigger] sorted[i] <= #[trigger] sorted[j],
        summary.sample_count == observer.backlogs@.len(),
        summary.published_total == if observer.last.events_published
            >= observer.first.events_published {
            observer.last.events_published - observer.first.events_published
        } else {
            0
        },
        summary.consumed_total == if observer.last.events_consumed
            >= observer.first.events_consumed {
            observer.last.events_consumed - observer.first.events_consumed
        } else {
            0
        },
        summary.producer_full_events == observer.last.producer_full_events,
        summary.consumer_empty_spins == observer.last.consumer_empty_spins,
        summary.consumer_lag_max == observer.last.consumer_lag_max,
        summary.observed_duration_ns == if end_ns >= observer.start_ns {
            end_ns - observer.start_ns
        } else {
            0
        },
        summary.p50_backlog <= summary.p95_backlog <= summary.p99_backlog <= summary.p999_backlog
            <= summary.p9999_backlog <= summary.p99999_backlog <= summary.max_backlog,
        0 < sorted.len() <= 0x1_0000_0000 ==> {
            &&& stands_at_share(sorted, 1, 2, summary.p50_backlog)
            &&& stands_at_share(sorted, 95, 100, summary.p95_backlog)
            &&& stands_at_share(sorted, 99, 100, summary.p99_backlog)
            &&& stands_at_share(sorted, 999, 1000, summary.p999_backlog)
            &&& stands_at_share(sorted, 9999, 10000, summary.p9999_backlog)
            &&& stands_at_share(sorted, 99999, 100000, summary.p99999_backlog)
        },
        sorted.len() > 0 ==> summary.max_backlog == sorted[sorted.len() - 1],
        sorted.len() == 0 ==> summary.p50_backlog == 0 && summary.p95_backlog == 0
            && summary.p99_backlog == 0 && summary.p999_backlog == 0 && summary.p9999_backlog == 0
            && summary.p99999_backlog == 0 && summary.max_backlog == 0,
{
    sorted.to_multiset_ensures();
    observer.backlogs@.to_multiset_ensures();
    assert(sorted.len() == observer.backlogs@.len());
    law_quantiles_grow(sorted, 50, 100, 95, 100);
    law_quantiles_grow(sorted, 95, 100, 99, 100);
    law_quantiles_grow(sorted, 99, 100, 999, 1000);
    law_quantiles_grow(sorted, 999, 1000, 9999, 10000);
    law_quantiles_grow(sorted, 9999, 10000, 99999, 100000);
    law_quantiles_stay_below_maximum(sorted, 99999, 100000);
    if 0 < sorted.len() <= 0x1_0000_0000 {
        lemma_stands_at_share(sorted, 50, 100);
        lemma_stands_at_share(sorted, 95, 100);
        lemma_stands_at_share(sorted, 99, 100);
        lemma_stands_at_share(sorted, 999, 1000);
        lemma_stands_at_share(sorted, 9999, 10000);
        lemma_stands_at_share(sorted, 99999, 100000);
        let i = choose|i: int|
            {
                &&& 0 <= i < sorted.len()
                &&& #[trigger] sorted[i] == summary.p50_backlog
                &&& 2 * (i * 100 - (sorted.len() - 1) * 50) <= 100
                &&& 2 * ((sorted.len() - 1) * 50 - i * 100) <= 100
            };
        assert(sorted[i] == summary.p50_backlog);
    }
}

/// A quantile stands at the place nearest to its share.
proof fn lemma_stands_at_share(sorted: Seq<u64>, num: nat, den: nat)
    requires
        0 < sorted.len() <= 0x1_0000_0000,
        sorted.len() <= usize::MAX,
        0 < num <= den <= 0x2_0000,
    ensures
        stands_at_share(sorted, num, den, quantile_of(sorted, num, den)),
{
    lemma_quantile_place(sorted.len(), num, den);
    let i = quantile_index(sorted.len(), num, den) as int;
    assert(sorted[i] == quantile_of(sorted, num, den));
}

/// The backlog of a look is what was published since the first look and not yet
/// consumed since; none where the consumers have kept up.
pub proof fn law_backlog_is_published_less_consumed(first: CounterValues, now: CounterValues)
    requires
        now.events_published >= first.events_published,
        now.events_consumed >= first.events_consumed,
    ensures
        ({
            let published = now.events_published - first.events_published;
            let consumed = now.events_consumed - first.events_consumed;
            backlog_since(first, now) == if published > consumed {
                published - consumed
            } else {
                0
            }
        }),
{
}

/// A run is over exactly where all its events, those that warm up and those that
/// are measured, were published and consumed.
pub proof fn law_run_is_over_with_all_events(warmup: u64, measured: u64, values: CounterValues)
    requires
        warmup + measured <= u64::MAX,
    ensures
        run_is_over(warmup, measured, values) <==> values.events_published >= warmup + measured
            && values.events_consumed >= warmup + measured,
{
}

/// A cursor that stands before the first event has passed none, and each step of
/// it is one event.
pub proof fn law_cursor_steps_are_events(sequence: int)
    ensures
        event_count(-1) == 0,
        sequence >= -1 ==> event_count(sequence + 1) == event_count(sequence) + 1,
        sequence < 0 ==> event_count(sequence) == 0,
{
}

/// Each reading of a snapshot sets its own counter, and the last one counts.
pub proof fn law_last_reading_counts(snapshot: Seq<CounterReading>, next: CounterReading)
    ensures
        ({
            let before = values_in(snapshot);
            let after = values_in(snapshot.push(next));
            &&& after.events_published == if next.id == CounterId::EventsPublished {
                next.value
            } else {
                before.events_published
            }
            &&& after.events_consumed == if next.id == CounterId::EventsConsumed {
                next.value
            } else {
                before.events_consumed
            }
            &&& after.producer_full_events == if next.id == CounterId::ProducerFullEvents {
                next.value
            } else {
                before.producer_full_events
            }
            &&& after.consumer_empty_spins == if next.id == CounterId::ConsumerEmptySpins {
                next.value
            } else {
                before.consumer_empty_spins
            }
            &&& after.consumer_lag_max == if next.id == CounterId::ConsumerLagMax {
                next.value
            } else {
                before.consumer_lag_max
            }
        }),
        ({
            let none = values_in(Seq::empty());
            &&& none.events_published == 0
            &&& none.events_consumed == 0
            &&& none.producer_full_events == 0
            &&& none.consumer_empty_spins == 0
            &&& none.consumer_lag_max == 0
        }),
{
    assert(snapshot.push(next).drop_last() =~= snapshot);
}

/// Where nothing was observed nothing was counted, no time passed, no backlog was
/// seen and every rate is zero.
pub proof fn law_nothing_observed_is_nothing()
    ensures
        ({
            let s = empty_summary();
            &&& s.sample_count == 0 && s.observed_duration_ns == 0
            &&& s.published_total == 0 && s.consumed_total == 0
            &&& s.producer_full_events == 0 && s.consumer_empty_spins == 0
            &&& s.consumer_lag_max == 0 && s.max_backlog == 0
            &&& s.p50_backlog == 0 && s.p95_backlog == 0 && s.p99_backlog == 0
            &&& s.p999_backlog == 0 && s.p9999_backlog == 0 && s.p99999_backlog == 0
        }),
        ({
            let r = zero_rates();
            &&& r.observed_publish_ops_sec.bits == 0 && r.observed_consume_ops_sec.bits == 0
            &&& r.avg_backlog.bits == 0 && r.estimated_mean_queue_latency_ns.bits == 0
            &&& r.estimated_p50_queue_latency_ns.bits == 0
            &&& r.estimated_p95_queue_latency_ns.bits == 0
            &&& r.estimated_p99_queue_latency_ns.bits == 0
            &&& r.estimated_p999_queue_latency_ns.bits == 0
            &&& r.estimated_p9999_queue_latency_ns.bits == 0
            &&& r.estimated_p99999_queue_latency_ns.bits == 0
            &&& r.estimated_max_queue_latency_ns.bits == 0
        }),
{
}

} // verus!
