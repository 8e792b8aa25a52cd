//! What the sums and averages over the consumers of a run are formed of.
//!
//! The sums and quotients themselves are floating-point arithmetic, and left to
//! a function of the caller: it adds the values from the first to the last, and
//! divides the sum by the divisor.
use vstd::prelude::*;
use crate::metric::{Metric, ZERO_BITS};
use crate::reporting::{some_phase_timing, throughputs};
use crate::results::{ConsumerOutput, PhaseTiming};

verus! {

/// A sum of values in their order, divided by a number; zero where that number
/// is.
#[derive(Clone, Debug)]
pub struct MeanPlan {
    pub values: Vec<Metric>,
    pub divisor: usize,
}

/// What the sums over consumers that a result takes in are formed of.
#[derive(Clone, Debug)]
pub struct ConsumerPlan {
    /// The total, which is divided by one.
    pub throughput: MeanPlan,
    pub bandwidth: MeanPlan,
    pub data_rate: MeanPlan,
    pub phase_read: MeanPlan,
    pub phase_decode: MeanPlan,
}

impl MeanPlan {
    /// The plan divides the sum of these values by this number.
    pub open spec fn divides(&self, values: Seq<Metric>, divisor: nat) -> bool {
        self.values@ == values && self.divisor == divisor
    }
}

/// `value` is what the function gives of these values and this divisor.
pub open spec fn is_mean<F: Fn(MeanPlan) -> Metric>(
    mean: F,
    values: Seq<Metric>,
    divisor: nat,
    value: Metric,
) -> bool {
    exists|plan: MeanPlan| #[trigger]
        plan.divides(values, divisor) && mean.ensures((plan,), value)
}

/// The function takes any values and divisor.
pub open spec fn takes_any_plan<F: Fn(MeanPlan) -> Metric>(mean: F) -> bool {
    forall|plan: MeanPlan| #[trigger] mean.requires((plan,))
}

/// A time, or zero where it was not reported.
pub open spec fn time_or_zero(time: Option<Metric>) -> Metric {
    match time {
        Some(time) => time,
        None => Metric { bits: ZERO_BITS },
    }
}

/// The phase times of the consumers that report any, in order.
pub open spec fn phase_timings(consumers: Seq<ConsumerOutput>) -> Seq<PhaseTiming>
    decreases consumers.len(),
{
    if consumers.len() == 0 {
        Seq::empty()
    } else {
        let earlier = phase_timings(consumers.drop_last());
        match consumers.last().phase_timing {
            Some(timing) => earlier.push(timing),
            None => earlier,
        }
    }
}

/// The read times of the consumers that report phase times.
pub open spec fn read_times(consumers: Seq<ConsumerOutput>) -> Seq<Metric> {
    let timings = phase_timings(consumers);
    Seq::new(timings.len(), |i: int| time_or_zero(timings[i].transport_read_avg_ns))
}

/// The decode times of the consumers that report phase times.
pub open spec fn decode_times(consumers: Seq<ConsumerOutput>) -> Seq<Metric> {
    let timings = phase_timings(consumers);
    Seq::new(timings.len(), |i: int| time_or_zero(timings[i].decode_avg_ns))
}

/// The bandwidths of the consumers.
pub open spec fn bandwidths(consumers: Seq<ConsumerOutput>) -> Seq<Metric> {
    Seq::new(consumers.len(), |i: int| consumers[i].bandwidth_bytes_sec)
}

/// The data rates of the consumers.
pub open spec fn data_rates(consumers: Seq<ConsumerOutput>) -> Seq<Metric> {
    Seq::new(consumers.len(), |i: int| consumers[i].data_rate_gbps)
}

/// The decode time of a consumer; zero where it reports none.
pub open spec fn decode_time_of(consumer: ConsumerOutput) -> Metric {
    match consumer.phase_timing {
        Some(timing) => time_or_zero(timing.decode_avg_ns),
        None => Metric { bits: ZERO_BITS },
    }
}

impl ConsumerPlan {
    /// The plan is that of the consumers: throughputs are added up; bandwidths
    /// and data rates are averaged over all of them; read and decode times over
    /// those that report phase times, an unreported time counting as zero.
    pub open spec fn is_of(&self, consumers: Seq<ConsumerOutput>) -> bool {
        &&& self.throughput.divides(throughputs(consumers), 1)
        &&& self.bandwidth.divides(bandwidths(consumers), consumers.len())
        &&& self.data_rate.divides(data_rates(consumers), consumers.len())
        &&& self.phase_read.divides(read_times(consumers), phase_timings(consumers).len())
        &&& self.phase_decode.divides(decode_times(consumers), phase_timings(consumers).len())
    }
}

/// A time, or zero where it was not reported.
fn known_time(time: Option<Metric>) -> (r: Metric)
    ensures
        r == time_or_zero(time),
{
    match time {
        Some(time) => time,
        None => Metric::zero(),
    }
}

/// What the sums over consumers that a result takes in are formed of.
pub fn consumer_plan(consumers: &Vec<ConsumerOutput>) -> (r: ConsumerPlan)
    ensures
        r.is_of(consumers@),
{
    let mut rates: Vec<Metric> = Vec::new();
    let mut widths: Vec<Metric> = Vec::new();
    let mut data: Vec<Metric> = Vec::new();
    let mut reads: Vec<Metric> = Vec::new();
    let mut decodes: Vec<Metric> = Vec::new();
    for i in 0..consumers.len()
        invariant
            rates@ == throughputs(consumers@.take(i as int)),
            widths@ == bandwidths(consumers@.take(i as int)),
            data@ == data_rates(consumers@.take(i as int)),
            reads@ == read_times(consumers@.take(i as int)),
            decodes@ == decode_times(consumers@.take(i as int)),
    {
        let ghost taken = consumers@.take(i + 1);
        assert(taken.drop_last() =~= consumers@.take(i as int));
        assert(taken.last() == consumers@[i as int]);
        let output = consumers[i];
        rates.push(output.throughput_ops_sec);
        widths.push(output.bandwidth_bytes_sec);
        data.push(output.data_rate_gbps);
        if let Some(timing) = output.phase_timing {
            reads.push(known_time(timing.transport_read_avg_ns));
            decodes.push(known_time(timing.decode_avg_ns));
        }
        assert(rates@ =~= throughputs(taken));
        assert(widths@ =~= bandwidths(taken));
        assert(data@ =~= data_rates(taken));
        assert(reads@ =~= read_times(taken));
        assert(decodes@ =~= decode_times(taken));
    }
    assert(consumers@.take(consumers@.len() as int) =~= consumers@);
    let timed = reads.len();
    ConsumerPlan {
        throughput: MeanPlan { values: rates, divisor: 1 },
        bandwidth: MeanPlan { values: widths, divisor: consumers.len() },
        data_rate: MeanPlan { values: data, divisor: consumers.len() },
        phase_read: MeanPlan { values: reads, divisor: timed },
        phase_decode: MeanPlan { values: decodes, divisor: timed },
    }
}

/// What the decode time that the line of a run shows is formed of: it is taken
/// over all consumers, an unreported time counting as zero.
pub fn shown_decode_plan(consumers: &Vec<ConsumerOutput>) -> (r: MeanPlan)
    ensures
        r.divides(
            Seq::new(consumers@.len(), |i: int| decode_time_of(consumers@[i])),
            consumers@.len(),
        ),
{
    let mut values: Vec<Metric> = Vec::new();
    for i in 0..consumers.len()
        invariant
            values@ == Seq::new(i as nat, |k: int| decode_time_of(consumers@[k])),
    {
        values.push(
            match consumers[i].phase_timing {
                Some(timing) => known_time(timing.decode_avg_ns),
                None => Metric::zero(),
            },
        );
        assert(values@ =~= Seq::new((i + 1) as nat, |k: int| decode_time_of(consumers@[k])));
    }
    MeanPlan { values, divisor: consumers.len() }
}

/// The average read and decode times enter a result exactly where there are
/// some to average: they are never divided by zero.
pub proof fn law_phase_averages_are_of_some(consumers: Seq<ConsumerOutput>)
    ensures
        some_phase_timing(consumers) <==> phase_timings(consumers).len() > 0,
        phase_timings(consumers).len() <= consumers.len(),
    decreases consumers.len(),
{
    if consumers.len() > 0 {
        let earlier = consumers.drop_last();
        law_phase_averages_are_of_some(earlier);
        if some_phase_timing(earlier) {
            let k = choose|k: int|
                0 <= k < earlier.len() && (#[trigger] earlier[k]).phase_timing is Some;
            assert(consumers[k].phase_timing is Some);
        }
        if some_phase_timing(consumers) {
            let k = choose|k: int|
                0 <= k < consumers.len() && (#[trigger] consumers[k]).phase_timing is Some;
            if k < earlier.len() {
                assert(earlier[k].phase_timing is Some);
            }
        }
        if consumers.last().phase_timing is Some {
            assert(consumers[consumers.len() - 1].phase_timing is Some);
        }
    }
}

/// The operands of the averages, consumer by consumer: each adds its bandwidth,
/// its data rate and its throughput; one that reports phase times adds its read
/// time and its decode time, zero where it reports none of a phase; and one that
/// does not adds no time.
pub proof fn law_each_consumer_adds_its_own(
    consumers: Seq<ConsumerOutput>,
    next: ConsumerOutput,
    before: ConsumerPlan,
    after: ConsumerPlan,
)
    requires
        before.is_of(consumers),
        after.is_of(consumers.push(next)),
    ensures
        after.throughput.values@ == before.throughput.values@.push(next.throughput_ops_sec),
        after.bandwidth.values@ == before.bandwidth.values@.push(next.bandwidth_bytes_sec),
        after.data_rate.values@ == before.data_rate.values@.push(next.data_rate_gbps),
        after.throughput.divisor == 1,
        after.bandwidth.divisor == consumers.len() + 1,
        after.data_rate.divisor == consumers.len() + 1,
        next.phase_timing is None ==> {
            &&& after.phase_read.values@ == before.phase_read.values@
            &&& after.phase_decode.values@ == before.phase_decode.values@
            &&& after.phase_read.divisor == before.phase_read.divisor
            &&& after.phase_decode.divisor == before.phase_decode.divisor
        },
        next.phase_timing is Some ==> {
            let read = next.phase_timing->0.transport_read_avg_ns;
            let decode = next.phase_timing->0.decode_avg_ns;
            &&& after.phase_read.values@ == before.phase_read.values@.push(
                if read is Some {
                    read->0
                } else {
                    Metric { bits: 0 }
                },
            )
            &&& after.phase_decode.values@ == before.phase_decode.values@.push(
                if decode is Some {
                    decode->0
                } else {
                    Metric { bits: 0 }
                },
            )
            &&& after.phase_read.divisor == before.phase_read.divisor + 1
            &&& after.phase_decode.divisor == before.phase_decode.divisor + 1
        },
        consumers.len() == 0 ==> {
            &&& before.throughput.values@.len() == 0
            &&& before.bandwidth.values@.len() == 0
            &&& before.data_rate.values@.len() == 0
            &&& before.phase_read.values@.len() == 0
            &&& before.phase_decode.values@.len() == 0
            &&& before.phase_read.divisor == 0
            &&& before.phase_decode.divisor == 0
        },
{
    let all = consumers.push(next);
    assert(all.drop_last() =~= consumers);
    assert(throughputs(all) =~= throughputs(consumers).push(next.throughput_ops_sec));
    assert(bandwidths(all) =~= bandwidths(consumers).push(next.bandwidth_bytes_sec));
    assert(data_rates(all) =~= data_rates(consumers).push(next.data_rate_gbps));
    if next.phase_timing is Some {
        let timing = next.phase_timing->0;
        assert(read_times(all) =~= read_times(consumers).push(
            time_or_zero(timing.transport_read_avg_ns),
        ));
        assert(decode_times(all) =~= decode_times(consumers).push(
            time_or_zero(timing.decode_avg_ns),
        ));
    }
}

} // verus!
