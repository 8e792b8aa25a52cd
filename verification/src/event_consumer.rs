//! How a consumer counts the events of a run.
//!
//! A consumer takes warmup events first and measured events then. Events come
//! in polls: each poll hands over some events, or none, and ends.
use vstd::prelude::*;
use crate::decimal::{decimal, decimal_text};
use crate::latency::{
    figures_in_order, stats_of, with_latency, LatencyRecorder, LatencyStats,
};
use crate::results::{ConsumerOutput, MeasuredRates};
use crate::signal_latency::{
    collect_signal_latency_offline, delta_ns, delta_of, deltas_ns, keeps_ticks,
    record_signal_latency, recorded_values,
    OfflineSignalSamples, SignalLatencyMode, TscCalibration,
};

verus! {

/// How warmup events are told from measured ones.
#[derive(Clone, Copy, Debug, PartialEq, Eq, Structural)]
pub enum CountingRule {
    /// By their number, whatever their sequence numbers are.
    ByNumber,
    /// By their sequence numbers, until the first measured one; then every
    /// event counts.
    BySequenceAtFirst,
    /// By their sequence numbers throughout.
    BySequence,
    /// Not at all: there is no warmup, every event counts, and the clock starts
    /// with the first.
    Unwarmed,
}

/// What an event counts as.
#[derive(Clone, Copy, Debug, PartialEq, Eq, Structural)]
pub enum Verdict {
    Warmup,
    Measured,
    Ignored,
}

/// A consumer's count of the events of a run.
#[derive(Clone, Copy, Debug, PartialEq, Eq, Structural)]
pub struct EventConsumer {
    pub rule: CountingRule,
    pub warmup_target: u64,
    pub num_events: u64,
    pub warmup_count: u64,
    pub consumed: u64,
    pub checksum: u64,
    pub measuring: bool,
    pub clock_started: bool,
}

/// `a` and `b` added up, modulo two to the sixty-four.
pub open spec fn wrapped_sum(a: nat, b: nat) -> nat {
    (a + b) % 0x1_0000_0000_0000_0000
}

impl EventConsumer {
    /// A consumer that has taken nothing.
    pub open spec fn fresh(
        rule: CountingRule,
        warmup_target: u64,
        num_events: u64,
    ) -> EventConsumer {
        let ready = rule == CountingRule::ByNumber && warmup_target == 0;
        EventConsumer {
            rule,
            warmup_target,
            num_events,
            warmup_count: 0,
            consumed: 0,
            checksum: 0,
            measuring: ready || rule == CountingRule::Unwarmed,
            clock_started: ready,
        }
    }

    /// What an event with the given sequence number counts as.
    pub open spec fn judged(&self, sequence: u64) -> Verdict {
        if self.measuring {
            if self.rule == CountingRule::BySequence && sequence < self.warmup_target {
                Verdict::Ignored
            } else {
                Verdict::Measured
            }
        } else if self.rule == CountingRule::ByNumber || sequence < self.warmup_target {
            Verdict::Warmup
        } else {
            Verdict::Measured
        }
    }

    /// The count after an event that adds so much to the checksum.
    pub open spec fn after_event(&self, sequence: u64, addend: u64) -> EventConsumer {
        match self.judged(sequence) {
            Verdict::Warmup => EventConsumer {
                warmup_count: (self.warmup_count + 1) as u64,
                ..*self
            },
            Verdict::Measured => EventConsumer {
                consumed: (self.consumed + 1) as u64,
                checksum: wrapped_sum(self.checksum as nat, addend as nat) as u64,
                clock_started: true,
                ..*self
            },
            Verdict::Ignored => *self,
        }
    }

    /// The warmup is over.
    pub open spec fn is_warm(&self) -> bool {
        self.warmup_count >= self.warmup_target || (self.rule != CountingRule::ByNumber
            && self.consumed > 0)
    }

    /// The count after the end of a poll.
    pub open spec fn after_poll(&self) -> EventConsumer {
        let measuring = self.measuring || self.is_warm();
        EventConsumer {
            measuring,
            clock_started: self.clock_started || (measuring && self.rule
                != CountingRule::Unwarmed),
            ..*self
        }
    }

    /// A consumer that has taken nothing.
    pub fn new(rule: CountingRule, warmup_target: u64, num_events: u64) -> (r: EventConsumer)
        ensures
            r == EventConsumer::fresh(rule, warmup_target, num_events),
    {
        let ready = matches!(rule, CountingRule::ByNumber) && warmup_target == 0;
        EventConsumer {
            rule,
            warmup_target,
            num_events,
            warmup_count: 0,
            consumed: 0,
            checksum: 0,
            measuring: ready || matches!(rule, CountingRule::Unwarmed),
            clock_started: ready,
        }
    }

    /// Takes an event, and says what it counts as and whether the clock of
    /// the measured events starts with it. A measured event adds to the
    /// checksum: its sequence number, the sum of its payload, or nothing.
    pub fn take(&mut self, sequence: u64, addend: u64) -> (r: (Verdict, bool))
        requires
            old(self).warmup_count < u64::MAX,
            old(self).consumed < u64::MAX,
        ensures
            *final(self) == old(self).after_event(sequence, addend),
            r.0 == old(self).judged(sequence),
            r.1 == (final(self).clock_started && !old(self).clock_started),
    {
        let by_number = matches!(self.rule, CountingRule::ByNumber);
        let by_sequence = matches!(self.rule, CountingRule::BySequence);
        let verdict = if self.measuring {
            if by_sequence && sequence < self.warmup_target {
                Verdict::Ignored
            } else {
                Verdict::Measured
            }
        } else if by_number || sequence < self.warmup_target {
            Verdict::Warmup
        } else {
            Verdict::Measured
        };
        let mut starts = false;
        match verdict {
            Verdict::Warmup => {
                self.warmup_count = self.warmup_count + 1;
            },
            Verdict::Measured => {
                self.consumed = self.consumed + 1;
                self.checksum = self.checksum.wrapping_add(addend);
                starts = !self.clock_started;
                self.clock_started = true;
            },
            Verdict::Ignored => {},
        }
        (verdict, starts)
    }

    /// Ends a poll, and says whether the clock of the measured events starts
    /// now.
    pub fn end_poll(&mut self) -> (starts: bool)
        ensures
            *final(self) == old(self).after_poll(),
            starts == (final(self).clock_started && !old(self).clock_started),
    {
        let by_number = matches!(self.rule, CountingRule::ByNumber);
        let warm = self.warmup_count >= self.warmup_target || (!by_number && self.consumed > 0);
        if self.measuring || warm {
            self.measuring = true;
            let starts = !self.clock_started && !matches!(self.rule, CountingRule::Unwarmed);
            self.clock_started = self.clock_started || starts;
            starts
        } else {
            false
        }
    }

    /// Whether as many measured events were taken as there are to be.
    pub fn is_finished(&self) -> (r: bool)
        ensures
            r == (self.measuring && self.consumed >= self.num_events),
    {
        self.measuring && self.consumed >= self.num_events
    }

    /// Whether the producer is done and as many measured events were taken as
    /// it produced.
    pub fn is_finished_with(&self, producer_done: bool, events_produced: u64) -> (r: bool)
        ensures
            r == (self.measuring && producer_done && self.consumed >= events_produced),
    {
        self.measuring && producer_done && self.consumed >= events_produced
    }

    /// What the deadline of the current phase is about.
    pub fn phase_context(&self, consumer: &str) -> (r: String)
        ensures
            r@ == consumer@ + if self.measuring {
                " measured"@
            } else {
                " warmup"@
            },
    {
        let mut out: String = consumer.to_owned();
        if self.measuring {
            out.append(" measured");
        } else {
            out.append(" warmup");
        }
        out
    }

    /// The report of the consumer, with latency figures where there are any.
    pub fn report(
        &self,
        consumer_id: usize,
        rates: MeasuredRates,
        latency: Option<LatencyStats>,
    ) -> (r: ConsumerOutput)
        ensures
            r == (ConsumerOutput {
                consumer_id,
                throughput_ops_sec: rates.throughput_ops_sec,
                events_consumed: self.consumed,
                bandwidth_bytes_sec: rates.bandwidth_bytes_sec,
                data_rate_gbps: rates.data_rate_gbps,
                latency,
                phase_timing: None,
                checksum: self.checksum,
            }),
    {
        let output = ConsumerOutput::from_elapsed(consumer_id, self.consumed, rates, self.checksum);
        match latency {
            Some(stats) => output.with_latency(stats),
            None => output,
        }
    }
}

/// A consumer that has taken the events with the sequence numbers from zero
/// up to `k`, each in a poll of its own, event `i` adding `addends[i]`.
pub open spec fn taken_in_order(consumer: EventConsumer, addends: Seq<u64>, k: nat) -> EventConsumer
    decreases k,
{
    if k == 0 {
        consumer
    } else {
        taken_in_order(consumer, addends, (k - 1) as nat).after_event(
            (k - 1) as u64,
            addends[k - 1],
        ).after_poll()
    }
}

/// The sum of `addends` from `from` up to `to`, modulo two to the sixty-four.
pub open spec fn checksum_of(addends: Seq<u64>, from: nat, to: nat) -> nat
    decreases to - from,
{
    if to <= from {
        0
    } else {
        wrapped_sum(checksum_of(addends, from, (to - 1) as nat), addends[to - 1] as nat)
    }
}

/// A consumer that takes every event in order counts exactly the warmup
/// events as warmup and exactly the others as measured, whatever its rule, and
/// keeps the checksum of the measured ones. A rule without warmup is for runs
/// without any.
pub proof fn law_events_in_order_are_counted(
    rule: CountingRule,
    warmup_target: u64,
    num_events: u64,
    addends: Seq<u64>,
    k: nat,
)
    requires
        k <= u64::MAX,
        k <= addends.len(),
        rule == CountingRule::Unwarmed ==> warmup_target == 0,
    ensures
        ({
            let c = taken_in_order(
                EventConsumer::fresh(rule, warmup_target, num_events),
                addends,
                k,
            );
            &&& c.warmup_count == if k < warmup_target {
                k
            } else {
                warmup_target as nat
            }
            &&& c.consumed == if k > warmup_target {
                (k - warmup_target) as nat
            } else {
                0
            }
            &&& c.checksum == checksum_of(addends, warmup_target as nat, k)
            &&& c.measuring <==> k >= warmup_target && (k > 0 || rule == CountingRule::ByNumber
                || rule == CountingRule::Unwarmed)
            &&& c.rule == rule && c.warmup_target == warmup_target && c.num_events == num_events
        }),
    decreases k,
{
    if k > 0 {
        law_events_in_order_are_counted(
            rule,
            warmup_target,
            num_events,
            addends,
            (k - 1) as nat,
        );
    }
}

/// A consumer that takes every event of a run in order finishes with the last
/// one, and not before.
pub proof fn law_run_finishes_with_last_event(
    rule: CountingRule,
    warmup_target: u64,
    num_events: u64,
    addends: Seq<u64>,
    k: nat,
)
    requires
        num_events > 0,
        k <= warmup_target + num_events <= u64::MAX,
        k <= addends.len(),
        rule == CountingRule::Unwarmed ==> warmup_target == 0,
    ensures
        ({
            let c = taken_in_order(
                EventConsumer::fresh(rule, warmup_target, num_events),
                addends,
                k,
            );
            (c.measuring && c.consumed >= c.num_events) <==> k == warmup_target + num_events
        }),
{
    law_events_in_order_are_counted(rule, warmup_target, num_events, addends, k);
}

/// A consumer that has taken the events with the sequence numbers from zero up
/// to `k`, event `i` adding `addends[i]`. So many polls end before the first
/// event, and `ends[i]` after event `i`: none where the next event comes in the
/// same poll, several where polls find nothing.
pub open spec fn taken_in_polls(
    consumer: EventConsumer,
    addends: Seq<u64>,
    idle_polls: nat,
    ends: Seq<nat>,
    k: nat,
) -> EventConsumer
    decreases k,
{
    if k == 0 {
        after_polls(consumer, idle_polls)
    } else {
        after_polls(
            taken_in_polls(consumer, addends, idle_polls, ends, (k - 1) as nat).after_event(
                (k - 1) as u64,
                addends[k - 1],
            ),
            ends[k - 1],
        )
    }
}

/// A consumer after the end of so many polls.
pub open spec fn after_polls(consumer: EventConsumer, polls: nat) -> EventConsumer
    decreases polls,
{
    if polls == 0 {
        consumer
    } else {
        after_polls(consumer, (polls - 1) as nat).after_poll()
    }
}

/// All addends from `from` up to `to` added up.
pub open spec fn sum_of(addends: Seq<u64>, from: nat, to: nat) -> nat
    decreases to - from,
{
    if to <= from {
        0
    } else {
        sum_of(addends, from, (to - 1) as nat) + addends[to - 1] as nat
    }
}

/// The end of a poll counts nothing, and nothing that has begun ends with it.
proof fn lemma_polls_count_nothing(consumer: EventConsumer, polls: nat)
    ensures
        ({
            let c = after_polls(consumer, polls);
            &&& c.rule == consumer.rule
            &&& c.warmup_target == consumer.warmup_target
            &&& c.num_events == consumer.num_events
            &&& c.warmup_count == consumer.warmup_count
            &&& c.consumed == consumer.consumed
            &&& c.checksum == consumer.checksum
            &&& consumer.measuring ==> c.measuring
            &&& consumer.clock_started ==> c.clock_started
            &&& c.measuring && !consumer.measuring ==> consumer.warmup_count
                >= consumer.warmup_target || (consumer.rule != CountingRule::ByNumber
                && consumer.consumed > 0)
            &&& c.clock_started && !consumer.clock_started ==> c.measuring
            &&& polls > 0 && consumer.warmup_count >= consumer.warmup_target ==> c.measuring
            &&& polls > 0 && consumer.consumed > 0 && consumer.rule != CountingRule::ByNumber
                ==> c.measuring
            &&& consumer.rule == CountingRule::Unwarmed && consumer.measuring ==> c.clock_started
                == consumer.clock_started
        }),
    decreases polls,
{
    if polls > 0 {
        lemma_polls_count_nothing(consumer, (polls - 1) as nat);
    }
}

/// However the events of a run are cut into polls, a consumer that goes by
/// sequence numbers and takes the events in order has counted the first ones, as
/// many as there are to warm up, as warmup, all others as measured, and added up
/// what the measured ones add. No event of the run proper is ever taken for
/// warmup or ignored, and no event of the warmup is measured.
pub proof fn law_polls_do_not_matter(
    rule: CountingRule,
    warmup_target: u64,
    num_events: u64,
    addends: Seq<u64>,
    idle_polls: nat,
    ends: Seq<nat>,
    k: nat,
)
    requires
        rule == CountingRule::BySequence || rule == CountingRule::BySequenceAtFirst,
        k <= u64::MAX,
        k <= addends.len(),
        k <= ends.len(),
    ensures
        ({
            let c = taken_in_polls(
                EventConsumer::fresh(rule, warmup_target, num_events),
                addends,
                idle_polls,
                ends,
                k,
            );
            &&& c.warmup_count == if k < warmup_target {
                k as int
            } else {
                warmup_target as int
            }
            &&& c.consumed == if k > warmup_target {
                k - warmup_target
            } else {
                0
            }
            &&& c.checksum as nat == sum_of(addends, warmup_target as nat, k)
                % 0x1_0000_0000_0000_0000
            &&& c.rule == rule && c.warmup_target == warmup_target && c.num_events == num_events
            &&& k < warmup_target ==> c.judged(k as u64) == Verdict::Warmup
            &&& forall|sequence: u64|
                sequence >= warmup_target ==> #[trigger] c.judged(sequence) == Verdict::Measured
            &&& c.measuring ==> k >= warmup_target
            &&& c.clock_started ==> k >= warmup_target
            &&& c.consumed > 0 ==> c.clock_started
            &&& k > 0 && ends[k - 1] > 0 ==> (c.measuring && c.consumed >= c.num_events <==> k
                >= warmup_target + num_events)
        }),
    decreases k,
{
    let fresh = EventConsumer::fresh(rule, warmup_target, num_events);
    if k == 0 {
        lemma_polls_count_nothing(fresh, idle_polls);
    } else {
        law_polls_do_not_matter(
            rule,
            warmup_target,
            num_events,
            addends,
            idle_polls,
            ends,
            (k - 1) as nat,
        );
        let before = taken_in_polls(fresh, addends, idle_polls, ends, (k - 1) as nat);
        let after = before.after_event((k - 1) as u64, addends[k - 1]);
        lemma_polls_count_nothing(after, ends[k - 1]);
        assert(before.judged((k - 1) as u64) == if k - 1 < warmup_target {
            Verdict::Warmup
        } else {
            Verdict::Measured
        });
    }
}

/// A consumer that goes by numbers loses no event and counts none twice,
/// however the events are cut into polls: nothing is measured before as many
/// have warmed up as are to, and everything from the end of that poll on.
pub proof fn law_every_event_counts_once(
    warmup_target: u64,
    num_events: u64,
    addends: Seq<u64>,
    idle_polls: nat,
    ends: Seq<nat>,
    k: nat,
)
    requires
        k <= u64::MAX,
        k <= addends.len(),
        k <= ends.len(),
    ensures
        ({
            let c = taken_in_polls(
                EventConsumer::fresh(CountingRule::ByNumber, warmup_target, num_events),
                addends,
                idle_polls,
                ends,
                k,
            );
            &&& c.warmup_count + c.consumed == k
            &&& c.checksum as nat == sum_of(addends, c.warmup_count as nat, k)
                % 0x1_0000_0000_0000_0000
            &&& c.warmup_target == warmup_target && c.num_events == num_events
            &&& c.rule == CountingRule::ByNumber
            &&& c.measuring ==> c.warmup_count >= warmup_target
            &&& !c.measuring ==> c.consumed == 0
            &&& k > 0 && ends[k - 1] > 0 && c.warmup_count >= warmup_target ==> c.measuring
            &&& forall|sequence: u64| #[trigger]
                c.judged(sequence) == if c.measuring {
                    Verdict::Measured
                } else {
                    Verdict::Warmup
                }
        }),
    decreases k,
{
    let fresh = EventConsumer::fresh(CountingRule::ByNumber, warmup_target, num_events);
    if k == 0 {
        lemma_polls_count_nothing(fresh, idle_polls);
    } else {
        law_every_event_counts_once(
            warmup_target,
            num_events,
            addends,
            idle_polls,
            ends,
            (k - 1) as nat,
        );
        let before = taken_in_polls(fresh, addends, idle_polls, ends, (k - 1) as nat);
        let after = before.after_event((k - 1) as u64, addends[k - 1]);
        lemma_polls_count_nothing(after, ends[k - 1]);
        lemma_no_sum(addends, k);
    }
}

/// Nothing adds up to nothing.
proof fn lemma_no_sum(addends: Seq<u64>, k: nat)
    ensures
        sum_of(addends, k, k) == 0,
{
}

/// A consumer without warmup measures every event, and its clock runs from the
/// first one on, however the events are cut into polls.
pub proof fn law_unwarmed_counts_every_event(
    num_events: u64,
    addends: Seq<u64>,
    idle_polls: nat,
    ends: Seq<nat>,
    k: nat,
)
    requires
        k <= u64::MAX,
        k <= addends.len(),
        k <= ends.len(),
    ensures
        ({
            let c = taken_in_polls(
                EventConsumer::fresh(CountingRule::Unwarmed, 0, num_events),
                addends,
                idle_polls,
                ends,
                k,
            );
            &&& c.warmup_count == 0
            &&& c.consumed == k
            &&& c.checksum as nat == sum_of(addends, 0, k) % 0x1_0000_0000_0000_0000
            &&& c.measuring
            &&& c.clock_started <==> k > 0
            &&& c.rule == CountingRule::Unwarmed && c.warmup_target == 0 && c.num_events
                == num_events
        }),
    decreases k,
{
    let fresh = EventConsumer::fresh(CountingRule::Unwarmed, 0, num_events);
    if k == 0 {
        lemma_polls_count_nothing(fresh, idle_polls);
    } else {
        law_unwarmed_counts_every_event(num_events, addends, idle_polls, ends, (k - 1) as nat);
        let before = taken_in_polls(fresh, addends, idle_polls, ends, (k - 1) as nat);
        let after = before.after_event((k - 1) as u64, addends[k - 1]);
        lemma_polls_count_nothing(after, ends[k - 1]);
    }
}

/// The clock of a run without warmup starts with its first event, however long
/// nothing comes before it.
pub proof fn law_unwarmed_clock_starts_with_first_event(
    num_events: u64,
    sequence: u64,
    addend: u64,
)
    ensures
        ({
            let fresh = EventConsumer::fresh(CountingRule::Unwarmed, 0, num_events);
            &&& fresh.after_poll() == fresh
            &&& !fresh.clock_started
            &&& fresh.after_event(sequence, addend).clock_started
            &&& fresh.after_event(sequence, addend).consumed == 1
        }),
{
}

/// The bytes added up, modulo two hundred and fifty-six.
pub open spec fn byte_sum(bytes: Seq<u8>) -> nat
    decreases bytes.len(),
{
    if bytes.len() == 0 {
        0
    } else {
        (byte_sum(bytes.drop_last()) + bytes.last() as nat) % 256
    }
}

/// The sum of a payload's bytes in eight bits.
pub fn checksum_bytes(bytes: &[u8]) -> (r: u64)
    ensures
        r == byte_sum(bytes@),
{
    let mut sum: u8 = 0;
    for i in 0..bytes.len()
        invariant
            sum == byte_sum(bytes@.take(i as int)),
    {
        assert(bytes@.take(i + 1).drop_last() =~= bytes@.take(i as int));
        sum = sum.wrapping_add(bytes[i]);
    }
    assert(bytes@.take(bytes@.len() as int) =~= bytes@);
    sum as u64
}

/// The bytes added up.
pub open spec fn plain_byte_sum(bytes: Seq<u8>) -> nat
    decreases bytes.len(),
{
    if bytes.len() == 0 {
        0
    } else {
        plain_byte_sum(bytes.drop_last()) + bytes.last() as nat
    }
}

/// The checksum of a payload is the sum of its bytes in eight bits.
pub proof fn law_checksum_is_sum_in_eight_bits(bytes: Seq<u8>)
    ensures
        byte_sum(bytes) == plain_byte_sum(bytes) % 256,
    decreases bytes.len(),
{
    if bytes.len() > 0 {
        law_checksum_is_sum_in_eight_bits(bytes.drop_last());
    }
}

/// Records the latency of a measured message, where it has a timestamp.
pub fn record_message_latency(
    recorder: &mut LatencyRecorder,
    verdict: Verdict,
    timestamp_ns: u64,
    now_ns: u64,
)
    requires
        old(recorder).well_formed(),
    ensures
        final(recorder).well_formed(),
        final(recorder).limit() == old(recorder).limit(),
        verdict != Verdict::Measured || timestamp_ns == 0 || now_ns <= timestamp_ns
            ==> final(recorder).recorded() == old(recorder).recorded(),
        verdict == Verdict::Measured && 0 < timestamp_ns < now_ns ==> final(recorder).recorded()
            == with_latency(
            old(recorder).recorded(),
            (now_ns - timestamp_ns) as u64,
            old(recorder).limit(),
        ),
{
    if matches!(verdict, Verdict::Measured) && timestamp_ns > 0 {
        recorder.record_delta(timestamp_ns, now_ns);
    }
}

/// The latency measurement of a signal consumer, as its mode has it: none,
/// recorded at once, or kept for after the run.
pub enum SignalMeasurement {
    Nothing,
    Recorded(LatencyRecorder),
    Kept(OfflineSignalSamples),
}

impl SignalMeasurement {
    /// What measures is well formed.
    pub open spec fn well_formed(&self) -> bool {
        match *self {
            SignalMeasurement::Nothing => true,
            SignalMeasurement::Recorded(recorder) => recorder.well_formed(),
            SignalMeasurement::Kept(samples) => samples.well_formed(),
        }
    }

    /// The measurement that a mode asks for, with room for as many samples.
    pub fn new(mode: SignalLatencyMode, capacity: usize) -> (r: SignalMeasurement)
        ensures
            r.well_formed(),
            r is Nothing <==> mode == SignalLatencyMode::Disabled,
            r is Kept <==> mode.spec_uses_offline_samples(),
            match r {
                SignalMeasurement::Nothing => true,
                SignalMeasurement::Recorded(recorder) => recorder.recorded().len() == 0
                    && recorder.limit() == 10_000_000_000,
                SignalMeasurement::Kept(samples) => samples.samples().len() == 0
                    && samples.capacity() == if capacity >= 1 {
                    capacity as nat
                } else {
                    1
                },
            },
    {
        if mode.uses_offline_samples() {
            SignalMeasurement::Kept(OfflineSignalSamples::new(capacity))
        } else if mode.records_latency() {
            SignalMeasurement::Recorded(LatencyRecorder::default_range())
        } else {
            SignalMeasurement::Nothing
        }
    }

    /// The stamp that an event was sent with: beside it or within it, as the
    /// mode has it.
    pub fn send_stamp(mode: SignalLatencyMode, event_stamp: u64, sidecar_stamp: Option<u64>) -> (r:
        u64)
        ensures
            r == if mode.spec_uses_sidecar() {
                match sidecar_stamp {
                    Some(stamp) => stamp,
                    None => 0,
                }
            } else {
                event_stamp
            },
    {
        if mode.uses_sidecar() {
            match sidecar_stamp {
                Some(stamp) => stamp,
                None => 0,
            }
        } else {
            event_stamp
        }
    }

    /// Measures a received event by its stamps.
    pub fn measure(
        &mut self,
        mode: SignalLatencyMode,
        send_stamp: u64,
        recv_stamp: u64,
        tsc: &Option<TscCalibration>,
    )
        requires
            old(self).well_formed(),
            *tsc is Some ==> (*tsc)->0.well_formed(),
        ensures
            final(self).well_formed(),
            match (*old(self), *final(self)) {
                (SignalMeasurement::Nothing, SignalMeasurement::Nothing) => true,
                (SignalMeasurement::Recorded(a), SignalMeasurement::Recorded(b)) => {
                    &&& b.limit() == a.limit()
                    &&& match delta_of(mode, send_stamp, recv_stamp) {
                        Some(delta) => match delta_ns(mode, *tsc, delta) {
                            Some(ns) => b.recorded() == with_latency(a.recorded(), ns, a.limit()),
                            None => b.recorded() == a.recorded(),
                        },
                        None => b.recorded() == a.recorded(),
                    }
                },
                (SignalMeasurement::Kept(a), SignalMeasurement::Kept(b)) => {
                    &&& b.capacity() == a.capacity()
                    &&& b.samples() == match delta_of(mode, send_stamp, recv_stamp) {
                        Some(delta) => if a.samples().len() < a.capacity() {
                            a.samples().push(delta)
                        } else {
                            a.samples()
                        },
                        None => a.samples(),
                    }
                },
                _ => false,
            },
    {
        match self {
            SignalMeasurement::Nothing => {},
            SignalMeasurement::Recorded(recorder) => {
                record_signal_latency(recorder, mode, send_stamp, recv_stamp, tsc);
            },
            SignalMeasurement::Kept(samples) => {
                collect_signal_latency_offline(samples, mode, send_stamp, recv_stamp);
            },
        }
    }

    /// The figures of what was measured; none where nothing was, or where
    /// ticks were kept and there is no calibration.
    pub fn finish(self, mode: SignalLatencyMode, tsc: &Option<TscCalibration>) -> (r: Option<
        LatencyStats,
    >)
        requires
            self.well_formed(),
            *tsc is Some ==> (*tsc)->0.well_formed(),
            self matches SignalMeasurement::Recorded(recorder) ==> recorder.recorded().len()
                <= u64::MAX,
        ensures
            match self {
                SignalMeasurement::Nothing => r is None,
                SignalMeasurement::Recorded(recorder) => {
                    &&& r is None <==> recorder.recorded().len() == 0
                    &&& r is Some ==> stats_of(recorder.recorded(), r->0)
                    &&& r is Some && recorder.limit() < 0x8000_0000_0000_0000 ==> figures_in_order(
                        r->0,
                    )
                },
                SignalMeasurement::Kept(samples) => {
                    &&& r is Some <==> samples.samples().len() > 0 && (keeps_ticks(mode)
                        ==> *tsc is Some)
                    &&& r is Some ==> stats_of(
                        recorded_values(
                            deltas_ns(mode, *tsc, samples.samples()),
                            10_000_000_000,
                        ),
                        r->0,
                    )
                    &&& r is Some ==> figures_in_order(r->0)
                },
            },
    {
        match self {
            SignalMeasurement::Nothing => None,
            SignalMeasurement::Recorded(recorder) => recorder.stats(),
            SignalMeasurement::Kept(samples) => samples.into_latency_stats(mode, tsc),
        }
    }
}

/// The name of a memory-mapped consumer.
pub fn mmap_consumer_name(consumer_id: usize) -> (r: String)
    ensures
        r@ == "c"@ + decimal_text(consumer_id as nat),
{
    let mut out: String = "c".to_owned();
    out.append(decimal(consumer_id as u64).as_str());
    out
}

/// The name of one of several shared-memory consumers: a prefix and its number.
pub fn multi_consumer_id(prefix: &str, consumer_id: usize) -> (r: String)
    ensures
        r@ == prefix@ + "_"@ + decimal_text(consumer_id as nat),
{
    let mut out: String = prefix.to_owned();
    out.append("_");
    out.append(decimal(consumer_id as u64).as_str());
    out
}

/// The name of a consumer in a given process: a prefix, its number and the
/// process.
pub fn process_consumer_name(prefix: &str, consumer_id: usize, process_id: u32) -> (r: String)
    ensures
        r@ == prefix@ + decimal_text(consumer_id as nat) + "_"@ + decimal_text(process_id as nat),
{
    let mut out: String = prefix.to_owned();
    out.append(decimal(consumer_id as u64).as_str());
    out.append("_");
    out.append(decimal(process_id as u64).as_str());
    out
}

/// The error of a consumer that could not attach.
pub fn attach_failure(consumer: &str, error: &str) -> (r: String)
    ensures
        r@ == "attach failed for "@ + consumer@ + ": "@ + error@,
{
    let mut out: String = "attach failed for ".to_owned();
    out.append(consumer);
    out.append(": ");
    out.append(error);
    out
}

/// The error of a consumer over mapped files that could not attach.
pub fn mmap_attach_failure(error: &str) -> (r: String)
    ensures
        r@ == "attach failed: "@ + error@,
{
    let mut out: String = "attach failed: ".to_owned();
    out.append(error);
    out
}

/// What to do about a consumer that could not attach.
#[derive(Clone, Copy, Debug, PartialEq, Eq, Structural)]
pub enum AttachAction {
    /// Try again after so many milliseconds.
    Retry { millis: u64 },
    /// Give up.
    Fail,
}

/// What to do about a consumer that could not attach: try again until the
/// deadline.
pub fn attach_retry(now_ns: u64, deadline_ns: u128) -> (r: AttachAction)
    ensures
        r == if now_ns < deadline_ns {
            AttachAction::Retry { millis: 25 }
        } else {
            AttachAction::Fail
        },
{
    if (now_ns as u128) < deadline_ns {
        AttachAction::Retry { millis: 25 }
    } else {
        AttachAction::Fail
    }
}

/// What an event counts as by its sequence number, whatever came before it. By
/// sequence numbers throughout, an event of the warmup never counts as measured,
/// and every other one does. By sequence numbers at first, every event counts
/// once one was measured. By number, sequence numbers do not matter.
pub proof fn law_verdict_follows_the_rule(consumer: EventConsumer, sequence: u64, other: u64)
    ensures
        consumer.rule == CountingRule::BySequence ==> (consumer.judged(sequence)
            == Verdict::Measured <==> sequence >= consumer.warmup_target),
        consumer.rule == CountingRule::BySequenceAtFirst && consumer.measuring ==> consumer.judged(
            sequence,
        ) == Verdict::Measured,
        consumer.rule == CountingRule::BySequenceAtFirst && !consumer.measuring ==> (
        consumer.judged(sequence) == Verdict::Measured <==> sequence >= consumer.warmup_target),
        consumer.rule == CountingRule::ByNumber ==> consumer.judged(sequence) == consumer.judged(
            other,
        ),
        consumer.rule == CountingRule::ByNumber ==> (consumer.judged(sequence)
            == Verdict::Measured <==> consumer.measuring),
        consumer.rule == CountingRule::Unwarmed && consumer.measuring ==> consumer.judged(sequence)
            == Verdict::Measured,
        consumer.judged(sequence) == Verdict::Warmup ==> !consumer.measuring,
        consumer.judged(sequence) == Verdict::Ignored ==> consumer.measuring && consumer.rule
            == CountingRule::BySequence,
{
}

/// An event changes what it counts as and nothing else: a measured one adds one
/// event and its addend and starts the clock, one of the warmup adds to the
/// warmup, and an ignored one leaves everything as it was.
pub proof fn law_event_adds_what_it_counts_as(
    consumer: EventConsumer,
    sequence: u64,
    addend: u64,
)
    requires
        consumer.warmup_count < u64::MAX,
        consumer.consumed < u64::MAX,
    ensures
        ({
            let after = consumer.after_event(sequence, addend);
            let verdict = consumer.judged(sequence);
            &&& after.rule == consumer.rule
            &&& after.warmup_target == consumer.warmup_target
            &&& after.num_events == consumer.num_events
            &&& after.measuring == consumer.measuring
            &&& verdict == Verdict::Measured ==> {
                &&& after.consumed == consumer.consumed + 1
                &&& after.warmup_count == consumer.warmup_count
                &&& after.clock_started
                &&& after.checksum == (consumer.checksum + addend) % 0x1_0000_0000_0000_0000
            }
            &&& verdict == Verdict::Warmup ==> {
                &&& after.warmup_count == consumer.warmup_count + 1
                &&& after.consumed == consumer.consumed
                &&& after.checksum == consumer.checksum
                &&& after.clock_started == consumer.clock_started
            }
            &&& verdict == Verdict::Ignored ==> after == consumer
        }),
{
}

/// A poll ends the warmup once as many events came as it has, or, by sequence
/// numbers, once an event was measured; it changes no count, and a warmup that is
/// over stays over.
pub proof fn law_poll_ends_the_warmup(consumer: EventConsumer)
    ensures
        ({
            let after = consumer.after_poll();
            &&& after.warmup_count == consumer.warmup_count
            &&& after.consumed == consumer.consumed
            &&& after.checksum == consumer.checksum
            &&& consumer.measuring ==> after.measuring
            &&& consumer.warmup_count >= consumer.warmup_target ==> after.measuring
            &&& consumer.rule != CountingRule::ByNumber && consumer.consumed > 0 ==> after.measuring
            &&& !consumer.measuring && consumer.warmup_count < consumer.warmup_target && (
            consumer.rule == CountingRule::ByNumber || consumer.consumed == 0) ==> !after.measuring
            &&& consumer.clock_started ==> after.clock_started
            &&& after.measuring && consumer.rule != CountingRule::Unwarmed ==> after.clock_started
            &&& !consumer.clock_started && (!after.measuring || consumer.rule
                == CountingRule::Unwarmed) ==> !after.clock_started
        }),
{
}

} // verus!
