//! What producer and consumer children measure and report.
use vstd::prelude::*;
use crate::latency::LatencyStats;
use crate::metric::Metric;

verus! {

/// The rates that a number of events over an elapsed time amounts to.
#[derive(Clone, Copy, Debug, PartialEq, Eq, Structural)]
pub struct MeasuredRates {
    pub throughput_ops_sec: Metric,
    pub elapsed_secs: Metric,
    pub bandwidth_bytes_sec: Metric,
    pub data_rate_gbps: Metric,
}

/// Average times of the phases of one message.
#[derive(Clone, Copy, Debug, PartialEq, Eq, Structural)]
pub struct PhaseTiming {
    pub encode_avg_ns: Option<Metric>,
    pub transport_write_avg_ns: Option<Metric>,
    pub transport_read_avg_ns: Option<Metric>,
    pub decode_avg_ns: Option<Metric>,
}

/// What a producer child reports.
#[derive(Clone, Copy, Debug, PartialEq, Eq, Structural)]
pub struct ProducerOutput {
    pub throughput_ops_sec: Metric,
    pub elapsed_secs: Metric,
    pub events_produced: u64,
    pub bandwidth_bytes_sec: Metric,
    pub data_rate_gbps: Metric,
    pub phase_timing: Option<PhaseTiming>,
}

/// What a consumer child reports.
#[derive(Clone, Copy, Debug, PartialEq, Eq, Structural)]
pub struct ConsumerOutput {
    pub consumer_id: usize,
    pub throughput_ops_sec: Metric,
    pub events_consumed: u64,
    pub bandwidth_bytes_sec: Metric,
    pub data_rate_gbps: Metric,
    pub latency: Option<LatencyStats>,
    pub phase_timing: Option<PhaseTiming>,
    pub checksum: u64,
}

impl ProducerOutput {
    /// The report of `events` events that were produced at the given rates.
    pub fn from_elapsed(events: u64, rates: MeasuredRates) -> (r: ProducerOutput)
        ensures
            r == (ProducerOutput {
                throughput_ops_sec: rates.throughput_ops_sec,
                elapsed_secs: rates.elapsed_secs,
                events_produced: events,
                bandwidth_bytes_sec: rates.bandwidth_bytes_sec,
                data_rate_gbps: rates.data_rate_gbps,
                phase_timing: None,
            }),
    {
        ProducerOutput {
            throughput_ops_sec: rates.throughput_ops_sec,
            elapsed_secs: rates.elapsed_secs,
            events_produced: events,
            bandwidth_bytes_sec: rates.bandwidth_bytes_sec,
            data_rate_gbps: rates.data_rate_gbps,
            phase_timing: None,
        }
    }
}

impl ConsumerOutput {
    /// The report of a consumer that took `events` events at the given rates.
    pub fn from_elapsed(
        consumer_id: usize,
        events: u64,
        rates: MeasuredRates,
        checksum: u64,
    ) -> (r: ConsumerOutput)
        ensures
            r == (ConsumerOutput {
                consumer_id,
                throughput_ops_sec: rates.throughput_ops_sec,
                events_consumed: events,
                bandwidth_bytes_sec: rates.bandwidth_bytes_sec,
                data_rate_gbps: rates.data_rate_gbps,
                latency: None,
                phase_timing: None,
                checksum,
            }),
    {
        ConsumerOutput {
            consumer_id,
            throughput_ops_sec: rates.throughput_ops_sec,
            events_consumed: events,
            bandwidth_bytes_sec: rates.bandwidth_bytes_sec,
            data_rate_gbps: rates.data_rate_gbps,
            latency: None,
            phase_timing: None,
            checksum,
        }
    }

    /// The same report with latency figures.
    pub fn with_latency(self, latency: LatencyStats) -> (r: ConsumerOutput)
        ensures
            r == (ConsumerOutput { latency: Some(latency), ..self }),
    {
        ConsumerOutput { latency: Some(latency), ..self }
    }

    /// The same report with phase times.
    pub fn with_phase_timing(self, timing: PhaseTiming) -> (r: ConsumerOutput)
        ensures
            r == (ConsumerOutput { phase_timing: Some(timing), ..self }),
    {
        ConsumerOutput { phase_timing: Some(timing), ..self }
    }
}

} // verus!
