//! The structured report of a benchmark run.
use vstd::prelude::*;
use crate::latency::LatencyStats;
use crate::metric::Metric;
use crate::report::kinds::{
    BackendKind, CodecKind, CoordinationKind, DiscoveryKind, FramingKind, MeasurementKind,
    ScenarioFamily, WaitStrategyKind, ZeroCopyKind,
};
use crate::results::PhaseTiming;
use crate::text::copied_option_text;

verus! {

/// Where and when a run took place.
#[derive(Clone, Debug)]
pub struct RunMetadata {
    pub timestamp: String,
    pub platform: String,
    pub cpu: String,
    pub git_commit: Option<String>,
    pub rust_version: String,
}

impl RunMetadata {
    /// A copy.
    pub fn copied(&self) -> (r: RunMetadata)
        ensures
            r == *self,
    {
        RunMetadata {
            timestamp: self.timestamp.clone(),
            platform: self.platform.clone(),
            cpu: self.cpu.clone(),
            git_commit: copied_option_text(&self.git_commit),
            rust_version: self.rust_version.clone(),
        }
    }
}

/// What a scenario is.
#[derive(Clone, Debug)]
pub struct ScenarioIdentity {
    pub benchmark_id: String,
    pub suite: String,
    pub benchmark: String,
    pub family: ScenarioFamily,
    pub scenario: String,
    pub backend: BackendKind,
    pub layer: String,
    pub codec: Option<CodecKind>,
}

/// The transport that a scenario used.
#[derive(Clone, Debug)]
pub struct TransportSpec {
    pub wait_strategy: WaitStrategyKind,
    pub coordination: Option<CoordinationKind>,
    pub discovery: Option<DiscoveryKind>,
    pub framing: Option<FramingKind>,
    pub zero_copy: Option<ZeroCopyKind>,
}

/// The load that a scenario put on the transport.
#[derive(Clone, Copy, Debug, PartialEq, Eq, Structural)]
pub struct WorkloadConfig {
    pub message_size_bytes: usize,
    pub payload_bytes: usize,
    pub buffer_depth: usize,
    pub num_messages: u64,
    pub warmup_messages: u64,
    pub num_producers: usize,
    pub num_consumers: usize,
    pub batch_size: Option<usize>,
}

/// How a scenario was run.
#[derive(Clone, Debug)]
pub struct ScenarioConfig {
    pub measurement: MeasurementKind,
    pub transport: TransportSpec,
    pub workload: WorkloadConfig,
}

/// What the producer reached.
#[derive(Clone, Copy, Debug, PartialEq, Eq, Structural)]
pub struct ProducerMetrics {
    pub throughput_ops_sec: Metric,
    pub bandwidth_bytes_sec: Option<Metric>,
    pub data_rate_gbps: Option<Metric>,
    pub data_rate_mbps: Metric,
}

/// What the consumers reached together.
#[derive(Clone, Copy, Debug, PartialEq, Eq, Structural)]
pub struct ConsumerAggregate {
    pub average_throughput_ops_sec: Metric,
    pub min_throughput_ops_sec: Option<Metric>,
    pub max_throughput_ops_sec: Option<Metric>,
    pub total_throughput_ops_sec: Option<Metric>,
    pub average_bandwidth_bytes_sec: Option<Metric>,
    pub average_data_rate_gbps: Option<Metric>,
    pub checksum_total: Option<u64>,
}

/// What one consumer reached.
#[derive(Clone, Copy, Debug, PartialEq, Eq, Structural)]
pub struct ConsumerMetrics {
    pub consumer_id: usize,
    pub throughput_ops_sec: Metric,
    pub events_consumed: u64,
    pub bandwidth_bytes_sec: Metric,
    pub data_rate_gbps: Metric,
    pub checksum: u64,
    pub latency: Option<LatencyStats>,
    pub phase_timing: Option<PhaseTiming>,
}

/// Whether the run did what it was to do.
#[derive(Clone, Copy, Debug, PartialEq, Eq, Structural)]
pub struct VerificationMetrics {
    pub passed: bool,
    pub messages_processed: u64,
}

/// Figures set against other scenarios and against the hardware.
#[derive(Clone, Copy, Debug, PartialEq, Eq, Structural)]
pub struct DerivedMetrics {
    pub pct_of_raw_ring: Option<Metric>,
    pub delta_vs_raw_ring_pct: Option<Metric>,
    pub speedup_vs_bincode: Option<Metric>,
    pub delta_vs_bincode_pct: Option<Metric>,
    pub access_avg_ns: Option<Metric>,
    pub access_vs_decode_speedup: Option<Metric>,
    pub alloc_count: Option<u64>,
    pub alloc_bytes: Option<u64>,
    pub hw_bandwidth_limit_gbps: Option<Metric>,
    pub hw_efficiency_pct: Option<Metric>,
}

impl Default for DerivedMetrics {
    /// No figure at all.
    fn default() -> (r: DerivedMetrics)
        ensures
            r == (DerivedMetrics {
                pct_of_raw_ring: None,
                delta_vs_raw_ring_pct: None,
                speedup_vs_bincode: None,
                delta_vs_bincode_pct: None,
                access_avg_ns: None,
                access_vs_decode_speedup: None,
                alloc_count: None,
                alloc_bytes: None,
                hw_bandwidth_limit_gbps: None,
                hw_efficiency_pct: None,
            }),
    {
        DerivedMetrics {
            pct_of_raw_ring: None,
            delta_vs_raw_ring_pct: None,
            speedup_vs_bincode: None,
            delta_vs_bincode_pct: None,
            access_avg_ns: None,
            access_vs_decode_speedup: None,
            alloc_count: None,
            alloc_bytes: None,
            hw_bandwidth_limit_gbps: None,
            hw_efficiency_pct: None,
        }
    }
}

/// What a throughput scenario came to.
#[derive(Clone, Debug)]
pub struct ThroughputOutcome {
    pub producer: ProducerMetrics,
    pub consumers: ConsumerAggregate,
    pub per_consumer: Vec<ConsumerMetrics>,
    pub verification: VerificationMetrics,
    pub latency: Option<LatencyStats>,
    pub phase_timing: Option<PhaseTiming>,
    pub derived: DerivedMetrics,
}

/// What a layout scenario came to.
#[derive(Clone, Copy, Debug, PartialEq, Eq, Structural)]
pub struct LayoutOutcome {
    pub avg_ns: u64,
    pub budget_ns: u64,
    pub iterations: usize,
    pub pass: bool,
}

/// What a scenario came to.
#[derive(Clone, Debug)]
pub enum ScenarioOutcome {
    Throughput(ThroughputOutcome),
    Layout(LayoutOutcome),
}

/// The report of one scenario.
#[derive(Clone, Debug)]
pub struct ScenarioReport {
    pub identity: ScenarioIdentity,
    pub config: ScenarioConfig,
    pub outcome: ScenarioOutcome,
    pub metadata: RunMetadata,
}

/// The report of a run.
#[derive(Clone, Debug)]
pub struct ReportBundle {
    pub metadata: RunMetadata,
    pub scenarios: Vec<ScenarioReport>,
}

} // verus!
