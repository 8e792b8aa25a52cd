//! When the events of a run are due, and what they carry.
use vstd::prelude::*;
use crate::decimal::{decimal, decimal_text};
use crate::signal_latency::{
    is_sampled, law_samples_are_multiples, saturating_product, saturating_sum, saturating_times,
    should_sample, SignalEvent, SignalLatencyMode,
};

verus! {

/// The interval between two events at a target rate, in nanoseconds; none
/// where no rate is set.
pub open spec fn interval_of(target_rate: nat) -> Option<nat> {
    if target_rate > 0 {
        Some(1_000_000_000nat / target_rate)
    } else {
        None
    }
}

/// The interval between two events at a target rate.
pub fn co_interval_ns(target_rate: u64) -> (r: Option<u64>)
    ensures
        match r {
            Some(interval) => interval_of(target_rate as nat) == Some(interval as nat),
            None => interval_of(target_rate as nat) is None,
        },
{
    if target_rate > 0 {
        Some(1_000_000_000 / target_rate)
    } else {
        None
    }
}

/// The time at which the event at `index` is due.
pub open spec fn due_at(base_ns: nat, index: nat, interval_ns: nat) -> nat {
    saturating_sum(base_ns, saturating_product(index, interval_ns))
}

/// The time at which the event at `index` is due, whether or not earlier
/// events were late.
pub fn intended_ns(base_ns: u64, index: u64, interval_ns: u64) -> (r: u64)
    ensures
        r == due_at(base_ns as nat, index as nat, interval_ns as nat),
{
    base_ns.saturating_add(saturating_times(index, interval_ns))
}

/// Later events are due no earlier.
pub proof fn law_due_times_keep_order(base_ns: nat, i: nat, j: nat, interval_ns: nat)
    requires
        i <= j,
    ensures
        due_at(base_ns, i, interval_ns) <= due_at(base_ns, j, interval_ns),
{
    assert(i * interval_ns <= j * interval_ns) by (nonlinear_arith)
        requires
            i <= j,
    ;
}

/// Events that are due in time are due one interval apart.
pub proof fn law_due_times_are_evenly_spaced(base_ns: nat, i: nat, interval_ns: nat)
    requires
        base_ns + (i + 1) * interval_ns <= u64::MAX,
    ensures
        due_at(base_ns, i + 1, interval_ns) == due_at(base_ns, i, interval_ns) + interval_ns,
{
    assert((i + 1) * interval_ns == i * interval_ns + interval_ns) by (nonlinear_arith);
}

/// The byte that fills the payload of a message.
pub open spec fn fill_of(sequence: nat) -> nat {
    sequence % 256
}

/// The byte that fills the payload of a message.
pub fn payload_fill(sequence: u64) -> (r: u8)
    ensures
        r == fill_of(sequence as nat),
{
    (sequence % 256) as u8
}

/// The odd number by which sequence numbers are spread over signal data.
pub const SIGNAL_SPREAD: u64 = 0x9E37_79B9_7F4A_7C15;

/// The data of the signal event of a sequence number.
pub open spec fn signal_data(sequence: nat) -> nat {
    (sequence * SIGNAL_SPREAD as nat) % 0x1_0000_0000_0000_0000
}

/// A signal event.
pub fn signal_event(sequence: u64, stamp: u64) -> (r: SignalEvent)
    ensures
        r.sequence == sequence,
        r.data == signal_data(sequence as nat),
        r.stamp == stamp,
{
    SignalEvent { sequence, data: sequence.wrapping_mul(SIGNAL_SPREAD), stamp }
}

/// The last sequence number of a run, as ring cursors count.
pub fn last_sequence(warmup: u64, num_events: u64) -> (r: i64)
    requires
        1 <= warmup + num_events <= i64::MAX,
    ensures
        r == warmup + num_events - 1,
{
    (warmup + num_events - 1) as i64
}

/// What a message event carries besides its payload's length.
#[derive(Clone, Copy, Debug, PartialEq, Eq, Structural)]
pub struct MessageHeader {
    pub sequence: u64,
    pub timestamp_ns: u64,
    pub fill: u8,
}

/// What a producer does next.
#[derive(Clone, Copy, Debug, PartialEq, Eq, Structural)]
pub enum ProducerStep<T> {
    /// Publish the event.
    Publish(T),
    /// Start the clock: the measured events begin.
    StartClock,
    /// Wait: the next event is not due yet.
    Wait,
    /// All events are published.
    Done,
}

/// The producer of a run: warmup events as fast as they go, then measured
/// events, as fast as they go or at a target rate.
#[derive(Clone, Copy, Debug, PartialEq, Eq, Structural)]
pub struct PacedProducer {
    pub warmup: u64,
    pub num_events: u64,
    pub interval_ns: Option<u64>,
    pub published: u64,
    pub base_ns: Option<u64>,
}

impl PacedProducer {
    /// No more is published than there is, and the clock runs once measured
    /// events are.
    pub open spec fn well_formed(&self) -> bool {
        &&& self.warmup + self.num_events <= u64::MAX
        &&& self.published <= self.warmup + self.num_events
        &&& self.published < self.warmup ==> self.base_ns is None
        &&& self.published > self.warmup ==> self.base_ns is Some
    }

    /// The time at which the next measured event is due, where one is set.
    pub open spec fn next_due(&self) -> Option<nat> {
        match (self.interval_ns, self.base_ns) {
            (Some(interval), Some(base)) => Some(
                due_at(base as nat, (self.published - self.warmup) as nat, interval as nat),
            ),
            _ => None,
        }
    }

    /// What comes next at the time `now_ns`.
    pub open spec fn next_step(&self, now_ns: u64) -> ProducerStep<u64> {
        if self.published == self.warmup + self.num_events && self.base_ns is Some {
            ProducerStep::Done
        } else if self.published < self.warmup {
            ProducerStep::Publish(self.published)
        } else if self.base_ns is None {
            ProducerStep::StartClock
        } else if self.next_due() is Some && now_ns < self.next_due()->0 {
            ProducerStep::Wait
        } else {
            ProducerStep::Publish(self.published)
        }
    }

    /// A producer that has published nothing.
    pub fn new(warmup: u64, num_events: u64, target_rate: u64) -> (r: PacedProducer)
        requires
            warmup + num_events <= u64::MAX,
        ensures
            r.well_formed(),
            r.warmup == warmup,
            r.num_events == num_events,
            match r.interval_ns {
                Some(interval) => interval_of(target_rate as nat) == Some(interval as nat),
                None => interval_of(target_rate as nat) is None,
            },
            r.published == 0,
            r.base_ns is None,
    {
        PacedProducer {
            warmup,
            num_events,
            interval_ns: co_interval_ns(target_rate),
            published: 0,
            base_ns: None,
        }
    }

    /// Whether the event that comes next is a measured one.
    pub fn is_measuring(&self) -> (r: bool)
        ensures
            r == (self.published >= self.warmup),
    {
        self.published >= self.warmup
    }

    /// Takes the next step at the time `now_ns`: the sequence number to
    /// publish, or what else is to be done.
    pub fn step(&mut self, now_ns: u64) -> (r: ProducerStep<u64>)
        requires
            old(self).well_formed(),
        ensures
            final(self).well_formed(),
            r == old(self).next_step(now_ns),
            *final(self) == (PacedProducer {
                published: if r is Publish {
                    (old(self).published + 1) as u64
                } else {
                    old(self).published
                },
                base_ns: if r is StartClock {
                    Some(now_ns)
                } else {
                    old(self).base_ns
                },
                ..*old(self)
            }),
    {
        if self.published < self.warmup {
            let sequence: u64 = self.published;
            self.published = sequence + 1;
            return ProducerStep::Publish(sequence);
        }
        match self.base_ns {
            None => {
                self.base_ns = Some(now_ns);
                ProducerStep::StartClock
            },
            Some(base) => {
                if self.published == self.warmup + self.num_events {
                    return ProducerStep::Done;
                }
                if let Some(interval) = self.interval_ns {
                    if now_ns < intended_ns(base, self.published - self.warmup, interval) {
                        return ProducerStep::Wait;
                    }
                }
                let sequence: u64 = self.published;
                self.published = sequence + 1;
                ProducerStep::Publish(sequence)
            },
        }
    }

    /// The header of the message of a sequence number: a warmup message has no
    /// timestamp, a paced one has the time at which it was due, another one
    /// the time at which it is sent.
    pub fn message_header(&self, sequence: u64, now_ns: u64) -> (r: MessageHeader)
        requires
            self.well_formed(),
            sequence < self.warmup + self.num_events,
            sequence >= self.warmup ==> self.base_ns is Some,
        ensures
            r.sequence == sequence,
            r.fill == fill_of(sequence as nat),
            r.timestamp_ns == if sequence < self.warmup {
                0
            } else {
                match self.interval_ns {
                    Some(interval) => due_at(
                        self.base_ns->0 as nat,
                        (sequence - self.warmup) as nat,
                        interval as nat,
                    ),
                    None => now_ns as nat,
                }
            },
    {
        let timestamp_ns: u64 = if sequence < self.warmup {
            0
        } else {
            match (self.interval_ns, self.base_ns) {
                (Some(interval), Some(base)) => intended_ns(base, sequence - self.warmup, interval),
                _ => now_ns,
            }
        };
        MessageHeader { sequence, timestamp_ns, fill: payload_fill(sequence) }
    }
}

/// A producer's steps, one for each of the times.
pub open spec fn produced(producer: PacedProducer, times: Seq<u64>) -> PacedProducer
    decreases times.len(),
{
    if times.len() == 0 {
        producer
    } else {
        let before = produced(producer, times.drop_last());
        let step = before.next_step(times.last());
        PacedProducer {
            published: if step is Publish {
                (before.published + 1) as u64
            } else {
                before.published
            },
            base_ns: if step is StartClock {
                Some(times.last())
            } else {
                before.base_ns
            },
            ..before
        }
    }
}

/// The sequence numbers that a producer publishes.
pub open spec fn published_sequences(producer: PacedProducer, times: Seq<u64>) -> Seq<nat>
    decreases times.len(),
{
    if times.len() == 0 {
        Seq::empty()
    } else {
        let earlier = published_sequences(producer, times.drop_last());
        match produced(producer, times.drop_last()).next_step(times.last()) {
            ProducerStep::Publish(sequence) => earlier.push(sequence as nat),
            _ => earlier,
        }
    }
}

/// Whatever the clock shows, a producer publishes its sequence numbers in
/// order, each once, and stays within its run.
pub proof fn law_sequences_are_published_in_order(producer: PacedProducer, times: Seq<u64>)
    requires
        producer.well_formed(),
        producer.published == 0,
        producer.base_ns is None,
    ensures
        produced(producer, times).well_formed(),
        produced(producer, times).warmup == producer.warmup,
        produced(producer, times).num_events == producer.num_events,
        published_sequences(producer, times) == Seq::new(
            produced(producer, times).published as nat,
            |i: int| i as nat,
        ),
    decreases times.len(),
{
    if times.len() > 0 {
        law_sequences_are_published_in_order(producer, times.drop_last());
        let before = produced(producer, times.drop_last());
        let after = produced(producer, times);
        assert(published_sequences(producer, times) =~= Seq::new(
            after.published as nat,
            |i: int| i as nat,
        ));
    } else {
        assert(published_sequences(producer, times) =~= Seq::new(0, |i: int| i as nat));
    }
}

/// A producer is done once it has published every event of its run.
pub proof fn law_done_means_all_published(producer: PacedProducer, now_ns: u64)
    requires
        producer.well_formed(),
        producer.next_step(now_ns) is Done,
    ensures
        producer.published == producer.warmup + producer.num_events,
{
}

/// The settings of a signal producer's stamps.
#[derive(Clone, Copy, Debug, PartialEq, Eq, Structural)]
pub struct SignalStamping {
    pub mode: SignalLatencyMode,
    pub warmup: u64,
    pub sample_every: u64,
}

/// A signal event to publish, and the stamp to put beside it, if any.
#[derive(Clone, Copy, Debug, PartialEq, Eq, Structural)]
pub struct StampedSignal {
    pub event: SignalEvent,
    pub sidecar_stamp: Option<u64>,
}

impl SignalStamping {
    /// The event of the sequence number is stamped: it is a measured one, and
    /// sampled.
    pub open spec fn stamps(&self, sequence: u64) -> bool {
        sequence >= self.warmup && self.mode != SignalLatencyMode::Disabled && is_sampled(
            sequence as nat,
            self.sample_every as nat,
        )
    }

    /// Whether a stamp is to be read for the event of the sequence number.
    pub fn needs_stamp(&self, sequence: u64) -> (r: bool)
        ensures
            r == self.stamps(sequence),
    {
        sequence >= self.warmup && self.mode.records_latency() && should_sample(
            sequence,
            self.sample_every,
        )
    }

    /// The event of a sequence number, with the stamp that was read, where one
    /// was to be read: within the event or beside it, as the mode has it.
    pub fn stamped(&self, sequence: u64, reading: u64) -> (r: StampedSignal)
        ensures
            r.event.sequence == sequence,
            r.event.data == signal_data(sequence as nat),
            r.event.stamp == if self.stamps(sequence) && self.mode.spec_is_inline() {
                reading
            } else {
                0
            },
            r.sidecar_stamp == if sequence >= self.warmup && self.mode.spec_uses_sidecar() {
                Some(
                    if self.stamps(sequence) {
                        reading
                    } else {
                        0
                    },
                )
            } else {
                None
            },
    {
        let stamp: u64 = if self.needs_stamp(sequence) {
            reading
        } else {
            0
        };
        let inline_stamp: u64 = if self.mode.is_inline() {
            stamp
        } else {
            0
        };
        let sidecar_stamp: Option<u64> = if sequence >= self.warmup && self.mode.uses_sidecar() {
            Some(stamp)
        } else {
            None
        };
        StampedSignal { event: signal_event(sequence, inline_stamp), sidecar_stamp }
    }
}

/// Seconds that a producer waits for its consumers to appear. `many` tells a
/// producer for several consumers from one for a single consumer.
pub fn ready_timeout_secs(many: bool) -> (r: u64)
    ensures
        r == if many {
            60u64
        } else {
            30
        },
{
    if many {
        60
    } else {
        30
    }
}

/// Seconds that a producer waits for its events to be consumed.
pub fn drain_timeout_secs(many: bool) -> (r: u64)
    ensures
        r == if many {
            90u64
        } else {
            30
        },
{
    if many {
        90
    } else {
        30
    }
}

/// The error of a producer whose consumers do not appear.
pub fn ready_timeout_error(many: bool, num_consumers: usize) -> (r: String)
    ensures
        r@ == if many {
            "Timeout waiting for "@ + decimal_text(num_consumers as nat) + " consumers"@
        } else {
            "Timeout waiting for consumer"@
        },
{
    if many {
        let mut out: String = "Timeout waiting for ".to_owned();
        out.append(decimal(num_consumers as u64).as_str());
        out.append(" consumers");
        out
    } else {
        "Timeout waiting for consumer".to_owned()
    }
}

/// The interval is the longest whole number of nanoseconds at which the rate is
/// reached: so many of them fit into a second as events are wanted, and one
/// nanosecond more would be too long. Without a rate there is none.
pub proof fn law_interval_reaches_the_rate(target_rate: nat)
    ensures
        interval_of(target_rate) is None <==> target_rate == 0,
        target_rate > 0 ==> interval_of(target_rate)->0 * target_rate <= 1_000_000_000,
        target_rate > 0 ==> (interval_of(target_rate)->0 + 1) * target_rate > 1_000_000_000,
{
    if target_rate > 0 {
        let q = 1_000_000_000nat / target_rate;
        assert(q * target_rate <= 1_000_000_000 < (q + 1) * target_rate) by (nonlinear_arith)
            requires
                q == 1_000_000_000nat / target_rate,
                target_rate > 0,
        ;
    }
}

/// The first event is due when the clock starts, and each one as many intervals
/// later as events come before it, as far as 64 bits tell.
pub proof fn law_events_are_due_by_their_place(base_ns: nat, index: nat, interval_ns: nat)
    requires
        base_ns <= u64::MAX,
    ensures
        due_at(base_ns, 0, interval_ns) == base_ns,
        base_ns + index * interval_ns <= u64::MAX ==> due_at(base_ns, index, interval_ns) == base_ns
            + index * interval_ns,
        base_ns + index * interval_ns > u64::MAX ==> due_at(base_ns, index, interval_ns)
            == u64::MAX,
{
    assert(0 * interval_ns == 0) by (nonlinear_arith);
    assert(index * interval_ns >= 0) by (nonlinear_arith);
}

/// A producer publishes the next sequence number and no other; a measured event
/// only once the clock runs and, at a target rate, not before it is due.
pub proof fn law_nothing_is_published_early(producer: PacedProducer, now_ns: u64)
    requires
        producer.well_formed(),
        producer.next_step(now_ns) is Publish,
    ensures
        producer.next_step(now_ns)->Publish_0 == producer.published,
        producer.published < producer.warmup + producer.num_events,
        producer.published >= producer.warmup ==> producer.base_ns is Some,
        producer.published >= producer.warmup && producer.interval_ns is Some ==> now_ns >= due_at(
            producer.base_ns->0 as nat,
            (producer.published - producer.warmup) as nat,
            producer.interval_ns->0 as nat,
        ),
{
}

/// A producer waits only for a measured event of a paced run that is not due.
/// What is due, what is warmup and what has no pace goes out at once.
pub proof fn law_nothing_due_waits(producer: PacedProducer, now_ns: u64)
    requires
        producer.well_formed(),
    ensures
        producer.published < producer.warmup ==> producer.next_step(now_ns) is Publish,
        producer.published >= producer.warmup && producer.base_ns is None ==> producer.next_step(
            now_ns,
        ) is StartClock,
        producer.next_step(now_ns) is StartClock ==> producer.published == producer.warmup
            && producer.base_ns is None,
        producer.published == producer.warmup + producer.num_events && producer.base_ns is Some
            ==> producer.next_step(now_ns) is Done,
        producer.warmup <= producer.published < producer.warmup + producer.num_events
            && producer.base_ns is Some && producer.interval_ns is None ==> producer.next_step(
            now_ns,
        ) is Publish,
        producer.warmup <= producer.published < producer.warmup + producer.num_events
            && producer.base_ns is Some && producer.interval_ns is Some && now_ns >= due_at(
            producer.base_ns->0 as nat,
            (producer.published - producer.warmup) as nat,
            producer.interval_ns->0 as nat,
        ) ==> producer.next_step(now_ns) is Publish,
        producer.next_step(now_ns) is Wait ==> producer.interval_ns is Some && producer.base_ns
            is Some && now_ns < due_at(
            producer.base_ns->0 as nat,
            (producer.published - producer.warmup) as nat,
            producer.interval_ns->0 as nat,
        ),
{
}

/// The fill of a payload counts up with the sequence numbers and starts over
/// after 255.
pub proof fn law_fill_counts_up(sequence: nat)
    ensures
        fill_of(0) == 0,
        fill_of(sequence) < 256,
        fill_of(sequence) < 255 ==> fill_of(sequence + 1) == fill_of(sequence) + 1,
        fill_of(sequence) == 255 ==> fill_of(sequence + 1) == 0,
{
}

/// The sequence number can be told from the data of its signal event: the spread
/// has an inverse.
pub proof fn law_signal_data_tells_the_sequence(sequence: nat)
    requires
        sequence <= u64::MAX,
    ensures
        (signal_data(sequence) * 0xF1DE_83E1_9937_733D) % 0x1_0000_0000_0000_0000 == sequence,
{
    let modulus: int = 0x1_0000_0000_0000_0000;
    let spread: int = SIGNAL_SPREAD as int;
    let inverse: int = 0xF1DE_83E1_9937_733D;
    let s = sequence as int;
    let turns: int = (spread * inverse) / modulus;
    assert(spread * inverse == turns * modulus + 1);
    let data = (s * spread) % modulus;
    let cut = (s * spread) / modulus;
    assert(s * spread == cut * modulus + data) by (nonlinear_arith)
        requires
            data == (s * spread) % modulus,
            cut == (s * spread) / modulus,
            modulus > 0,
    ;
    assert(data * inverse == (s * turns - cut * inverse) * modulus + s) by (nonlinear_arith)
        requires
            s * spread == cut * modulus + data,
            spread * inverse == turns * modulus + 1,
    ;
    vstd::arithmetic::div_mod::lemma_fundamental_div_mod_converse(
        data * inverse,
        modulus,
        s * turns - cut * inverse,
        s,
    );
}

/// Warmup events carry no stamp, nor do any where latency is not measured; of
/// the measured ones every one is stamped, or those at multiples of the stride.
pub proof fn law_measured_events_are_stamped(stamping: SignalStamping, sequence: u64)
    ensures
        sequence < stamping.warmup ==> !stamping.stamps(sequence),
        stamping.mode == SignalLatencyMode::Disabled ==> !stamping.stamps(sequence),
        stamping.mode != SignalLatencyMode::Disabled && sequence >= stamping.warmup
            && stamping.sample_every <= 1 ==> stamping.stamps(sequence),
        stamping.mode != SignalLatencyMode::Disabled && sequence >= stamping.warmup
            && stamping.sample_every > 1 ==> (stamping.stamps(sequence) <==> exists|k: nat|
            sequence == #[trigger] (k * stamping.sample_every as nat)),
{
    if stamping.sample_every > 1 {
        law_samples_are_multiples(sequence as nat, stamping.sample_every as nat);
    }
}

} // verus!
