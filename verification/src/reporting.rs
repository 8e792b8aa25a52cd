//! Flat benchmark results: building them, rolling child metrics up into them,
//! and relating them to their baselines.
use vstd::prelude::*;
use crate::averages::{
    bandwidths, consumer_plan, data_rates, decode_times, is_mean, law_phase_averages_are_of_some,
    phase_timings, read_times, takes_any_plan, MeanPlan,
};
use crate::decimal::{
    decimal, decimal_text, is_digit, law_decimal_is_injective, lemma_decimal_denotes,
};
use crate::host::{model_field, platform, printed_commit, result_cpu, trimmed};
use crate::latency::LatencyStats;
use crate::metric::{
    greatest_metric, is_greatest, is_least, least_metric, Metric, HUNDRED_BITS, THREE_HUNDRED_BITS,
    ZERO_BITS,
};
use crate::results::{ConsumerOutput, PhaseTiming, ProducerOutput};
use crate::text::{
    contains_text, copied_option_text, holds_text, is_first_from, lemma_first_is_unique, occurs_at,
    option_view, replace_once, replaced_once, same_text, split_on, split_text, views,
};

verus! {

/// The configuration of a scenario.
#[derive(Clone, Debug)]
pub struct BenchConfig {
    pub message_size_bytes: usize,
    pub payload_bytes: usize,
    pub buffer_depth: usize,
    pub num_messages: u64,
    pub warmup_messages: u64,
    pub num_producers: usize,
    pub num_consumers: usize,
    pub coordination: Option<String>,
    pub discovery_mode: Option<String>,
    pub zero_copy: Option<bool>,
    pub framing: Option<String>,
}

/// What one consumer reached.
#[derive(Clone, Copy, Debug, PartialEq, Eq, Structural)]
pub struct BenchConsumerResult {
    pub consumer_id: usize,
    pub throughput_ops_sec: Metric,
    pub events_consumed: u64,
    pub bandwidth_bytes_sec: Metric,
    pub data_rate_gbps: Metric,
    pub checksum: u64,
    pub latency: Option<LatencyStats>,
    pub phase_timing: Option<PhaseTiming>,
}

/// A measured time against its budget.
#[derive(Clone, Copy, Debug, PartialEq, Eq, Structural)]
pub struct LayoutValidationMetrics {
    pub avg_ns: u64,
    pub budget_ns: u64,
    pub pass: bool,
    pub iterations: usize,
}

/// The figures of a scenario.
#[derive(Clone, Debug)]
pub struct BenchResults {
    pub producer_throughput_ops_sec: Metric,
    pub consumer_throughput_ops_sec: Metric,
    pub data_rate_mbps: Metric,
    pub messages_processed: u64,
    pub verification_passed: bool,
    pub producer_bandwidth_bytes_sec: Option<Metric>,
    pub producer_data_rate_gbps: Option<Metric>,
    pub consumer_avg_bandwidth_bytes_sec: Option<Metric>,
    pub consumer_avg_data_rate_gbps: Option<Metric>,
    pub consumer_min_throughput_ops_sec: Option<Metric>,
    pub consumer_max_throughput_ops_sec: Option<Metric>,
    pub consumer_total_throughput_ops_sec: Option<Metric>,
    pub consumer_checksum_total: Option<u64>,
    pub phase_timing: Option<PhaseTiming>,
    pub pct_of_raw_ring: Option<Metric>,
    pub delta_vs_raw_ring_pct: Option<Metric>,
    pub speedup_vs_bincode: Option<Metric>,
    pub delta_vs_bincode_pct: Option<Metric>,
    pub access_avg_ns: Option<Metric>,
    pub access_vs_decode_speedup: Option<Metric>,
    pub alloc_count: Option<u64>,
    pub alloc_bytes: Option<u64>,
    pub hw_bandwidth_limit_gbps: Option<Metric>,
    pub hw_efficiency_pct: Option<Metric>,
    pub per_consumer: Vec<BenchConsumerResult>,
    pub layout_validation: Option<LayoutValidationMetrics>,
}

/// Where and when a run took place.
#[derive(Clone, Debug)]
pub struct BenchMetadata {
    pub timestamp: String,
    pub platform: String,
    pub cpu: String,
    pub git_commit: Option<String>,
    pub rust_version: String,
}

/// The result of one scenario.
#[derive(Clone, Debug)]
pub struct BenchResult {
    pub benchmark_id: String,
    pub scenario: String,
    pub backend: String,
    pub layer: String,
    pub codec: Option<String>,
    pub measurement_mode: String,
    pub wait_strategy: String,
    pub config: BenchConfig,
    pub results: BenchResults,
    pub latency: Option<LatencyStats>,
    pub metadata: BenchMetadata,
}

/// The results of a run.
#[derive(Clone, Debug)]
pub struct BenchReport {
    pub metadata: BenchMetadata,
    pub results: Vec<BenchResult>,
}

impl BenchMetadata {
    /// What is noted of a run that begins at the given time: `cpuinfo` is what
    /// the system tells of its processors, and `commit` is what the command
    /// that names the commit printed.
    pub fn capture(
        timestamp: &str,
        os: &str,
        arch: &str,
        cpuinfo: Option<&str>,
        commit_found: bool,
        commit: Option<&str>,
        rust_version: &str,
    ) -> (r: BenchMetadata)
        ensures
            r.timestamp@ == timestamp@,
            r.platform@ == os@ + " "@ + arch@,
            r.cpu@ == match cpuinfo {
                Some(text) => match model_field(text@) {
                    Some(Some(model)) => model,
                    Some(None) => Seq::empty(),
                    None => "unknown"@,
                },
                None => "unknown"@,
            },
            option_view(r.git_commit) == if commit_found && commit is Some {
                Some(trimmed(commit->0@))
            } else {
                None
            },
            r.rust_version@ == rust_version@,
    {
        BenchMetadata {
            timestamp: timestamp.to_owned(),
            platform: platform(os, arch),
            cpu: result_cpu(cpuinfo),
            git_commit: printed_commit(commit_found, commit),
            rust_version: rust_version.to_owned(),
        }
    }

    /// A copy.
    pub fn copied(&self) -> (r: BenchMetadata)
        ensures
            r == *self,
    {
        BenchMetadata {
            timestamp: self.timestamp.clone(),
            platform: self.platform.clone(),
            cpu: self.cpu.clone(),
            git_commit: copied_option_text(&self.git_commit),
            rust_version: self.rust_version.clone(),
        }
    }
}

impl BenchConfig {
    /// A copy.
    pub fn copied(&self) -> (r: BenchConfig)
        ensures
            r == *self,
    {
        BenchConfig {
            message_size_bytes: self.message_size_bytes,
            payload_bytes: self.payload_bytes,
            buffer_depth: self.buffer_depth,
            num_messages: self.num_messages,
            warmup_messages: self.warmup_messages,
            num_producers: self.num_producers,
            num_consumers: self.num_consumers,
            coordination: copied_option_text(&self.coordination),
            discovery_mode: copied_option_text(&self.discovery_mode),
            zero_copy: self.zero_copy,
            framing: copied_option_text(&self.framing),
        }
    }
}

impl BenchResults {
    /// The same figures, consumer by consumer.
    pub open spec fn agrees_with(self, other: BenchResults) -> bool {
        &&& self == (BenchResults { per_consumer: self.per_consumer, ..other })
        &&& self.per_consumer@ == other.per_consumer@
    }

    /// A copy.
    pub fn copied(&self) -> (r: BenchResults)
        ensures
            r.agrees_with(*self),
    {
        let mut per_consumer: Vec<BenchConsumerResult> = Vec::new();
        for i in 0..self.per_consumer.len()
            invariant
                per_consumer@ == self.per_consumer@.take(i as int),
        {
            per_consumer.push(self.per_consumer[i]);
            assert(self.per_consumer@.take(i + 1) =~= self.per_consumer@.take(i as int).push(
                self.per_consumer@[i as int],
            ));
        }
        assert(self.per_consumer@.take(self.per_consumer@.len() as int) =~= self.per_consumer@);
        BenchResults {
            producer_throughput_ops_sec: self.producer_throughput_ops_sec,
            consumer_throughput_ops_sec: self.consumer_throughput_ops_sec,
            data_rate_mbps: self.data_rate_mbps,
            messages_processed: self.messages_processed,
            verification_passed: self.verification_passed,
            producer_bandwidth_bytes_sec: self.producer_bandwidth_bytes_sec,
            producer_data_rate_gbps: self.producer_data_rate_gbps,
            consumer_avg_bandwidth_bytes_sec: self.consumer_avg_bandwidth_bytes_sec,
            consumer_avg_data_rate_gbps: self.consumer_avg_data_rate_gbps,
            consumer_min_throughput_ops_sec: self.consumer_min_throughput_ops_sec,
            consumer_max_throughput_ops_sec: self.consumer_max_throughput_ops_sec,
            consumer_total_throughput_ops_sec: self.consumer_total_throughput_ops_sec,
            consumer_checksum_total: self.consumer_checksum_total,
            phase_timing: self.phase_timing,
            pct_of_raw_ring: self.pct_of_raw_ring,
            delta_vs_raw_ring_pct: self.delta_vs_raw_ring_pct,
            speedup_vs_bincode: self.speedup_vs_bincode,
            delta_vs_bincode_pct: self.delta_vs_bincode_pct,
            access_avg_ns: self.access_avg_ns,
            access_vs_decode_speedup: self.access_vs_decode_speedup,
            alloc_count: self.alloc_count,
            alloc_bytes: self.alloc_bytes,
            hw_bandwidth_limit_gbps: self.hw_bandwidth_limit_gbps,
            hw_efficiency_pct: self.hw_efficiency_pct,
            per_consumer,
            layout_validation: self.layout_validation,
        }
    }
}

impl BenchResult {
    /// The same result, but for its figures.
    pub open spec fn agrees_but_for_results(self, other: BenchResult) -> bool {
        self == (BenchResult { results: self.results, ..other })
    }

    /// A copy.
    pub fn copied(&self) -> (r: BenchResult)
        ensures
            r.agrees_but_for_results(*self),
            r.results.agrees_with(self.results),
    {
        BenchResult {
            benchmark_id: self.benchmark_id.clone(),
            scenario: self.scenario.clone(),
            backend: self.backend.clone(),
            layer: self.layer.clone(),
            codec: copied_option_text(&self.codec),
            measurement_mode: self.measurement_mode.clone(),
            wait_strategy: self.wait_strategy.clone(),
            config: self.config.copied(),
            results: self.results.copied(),
            latency: self.latency,
            metadata: self.metadata.copied(),
        }
    }
}

/// The transport settings of a scenario, by name.
#[derive(Clone, Debug)]
pub struct BenchTransportSpec {
    pub coordination: Option<String>,
    pub discovery_mode: Option<String>,
    pub zero_copy: Option<bool>,
    pub framing: Option<String>,
}

impl Default for BenchTransportSpec {
    /// No setting at all.
    fn default() -> (r: BenchTransportSpec)
        ensures
            r.coordination is None,
            r.discovery_mode is None,
            r.zero_copy is None,
            r.framing is None,
    {
        BenchTransportSpec {
            coordination: None,
            discovery_mode: None,
            zero_copy: None,
            framing: None,
        }
    }
}

impl BenchTransportSpec {
    /// Shared memory with benchmark coordination and discovery of `consumers`.
    pub fn benchmark_shm(consumers: usize) -> (r: BenchTransportSpec)
        ensures
            option_view(r.coordination) == Some("BenchmarkCoordination"@),
            option_view(r.discovery_mode) == Some(
                "enabled("@ + decimal_text(consumers as nat) + ")"@,
            ),
            r.zero_copy is None,
            r.framing is None,
    {
        let mut discovery: String = "enabled(".to_owned();
        discovery.append(decimal(consumers as u64).as_str());
        discovery.append(")");
        BenchTransportSpec {
            coordination: Some("BenchmarkCoordination".to_owned()),
            discovery_mode: Some(discovery),
            zero_copy: None,
            framing: None,
        }
    }

    /// Memory-mapped files with their built-in coordination.
    pub fn mmap_builtin() -> (r: BenchTransportSpec)
        ensures
            option_view(r.coordination) == Some("mmap_builtin"@),
            option_view(r.discovery_mode) == Some("disabled"@),
            r.zero_copy is None,
            r.framing is None,
    {
        BenchTransportSpec {
            coordination: Some("mmap_builtin".to_owned()),
            discovery_mode: Some("disabled".to_owned()),
            zero_copy: None,
            framing: None,
        }
    }

    /// Unified coordination, as ping-pong scenarios use it.
    pub fn unified_pingpong() -> (r: BenchTransportSpec)
        ensures
            option_view(r.coordination) == Some("UnifiedCoordination"@),
            option_view(r.discovery_mode) == Some("disabled"@),
            r.zero_copy is None,
            r.framing is None,
    {
        BenchTransportSpec {
            coordination: Some("UnifiedCoordination".to_owned()),
            discovery_mode: Some("disabled".to_owned()),
            zero_copy: None,
            framing: None,
        }
    }

    /// The same settings with the zero-copy flag set.
    pub fn with_zero_copy(self, zero_copy: bool) -> (r: BenchTransportSpec)
        ensures
            r == (BenchTransportSpec { zero_copy: Some(zero_copy), ..self }),
    {
        BenchTransportSpec { zero_copy: Some(zero_copy), ..self }
    }

    /// The same settings with the framing set.
    pub fn with_framing(self, framing: &str) -> (r: BenchTransportSpec)
        ensures
            option_view(r.framing) == Some(framing@),
            r == (BenchTransportSpec { framing: r.framing, ..self }),
    {
        BenchTransportSpec { framing: Some(framing.to_owned()), ..self }
    }
}

/// What a result is made from.
#[derive(Clone, Debug)]
pub struct BenchResultSpec {
    pub bench_name: String,
    pub scenario: String,
    pub backend: String,
    pub layer: String,
    pub codec: Option<String>,
    pub measurement_mode: String,
    pub wait_strategy: String,
    pub transport: BenchTransportSpec,
    pub message_size_bytes: usize,
    pub payload_bytes: usize,
    pub buffer_depth: usize,
    pub num_messages: u64,
    pub warmup_messages: u64,
    pub num_producers: usize,
    pub num_consumers: usize,
    pub producer_throughput_ops_sec: Metric,
    pub consumer_throughput_ops_sec: Metric,
    pub latency: Option<LatencyStats>,
}

/// A way of showing a report.
#[derive(Clone, Copy, Debug, PartialEq, Eq, Structural)]
pub enum ReportView {
    Summary,
    Tree,
}

/// Where a report goes.
#[derive(Clone, Debug)]
pub struct ReportOutputArgs {
    pub json_mode: bool,
    pub quick_mode: bool,
    pub tree_mode: bool,
    pub json_out: Option<String>,
    pub csv_out: Option<String>,
    pub markdown_out: Option<String>,
}

/// `flag` is among the arguments.
pub open spec fn has_flag(args: Seq<String>, flag: Seq<char>) -> bool {
    exists|i: int| 0 <= i < args.len() && #[trigger] args[i]@ == flag
}

/// `value` follows the first `flag` that something follows.
pub open spec fn is_flag_value(
    args: Seq<String>,
    flag: Seq<char>,
    value: Option<Seq<char>>,
) -> bool {
    match value {
        Some(v) => exists|i: int|
            {
                &&& 0 <= i < args.len() - 1
                &&& #[trigger] args[i]@ == flag
                &&& args[i + 1]@ == v
                &&& forall|j: int| 0 <= j < i ==> #[trigger] args[j]@ != flag
            },
        None => forall|j: int| 0 <= j < args.len() - 1 ==> #[trigger] args[j]@ != flag,
    }
}

/// Whether `flag` is among the arguments.
pub fn holds_flag(args: &[String], flag: &str) -> (r: bool)
    ensures
        r == has_flag(args@, flag@),
{
    for i in 0..args.len()
        invariant
            forall|j: int| 0 <= j < i ==> #[trigger] args@[j]@ != flag@,
    {
        if same_text(args[i].as_str(), flag) {
            assert(args@[i as int]@ == flag@);
            return true;
        }
    }
    false
}

/// The argument after the first `flag` that another argument follows.
pub fn find_arg_value(args: &[String], flag: &str) -> (r: Option<String>)
    ensures
        is_flag_value(args@, flag@, option_view(r)),
{
    if args.len() == 0 {
        return None;
    }
    for i in 0..args.len() - 1
        invariant
            args@.len() > 0,
            forall|j: int| 0 <= j < i ==> #[trigger] args@[j]@ != flag@,
    {
        if same_text(args[i].as_str(), flag) {
            assert(args@[i as int]@ == flag@);
            return Some(args[i + 1].clone());
        }
    }
    None
}

impl ReportOutputArgs {
    /// Reads the output flags among the arguments.
    pub fn from_args(args: &[String]) -> (r: ReportOutputArgs)
        ensures
            r.json_mode == has_flag(args@, "--json"@),
            r.quick_mode == has_flag(args@, "--quick"@),
            r.tree_mode == has_flag(args@, "--tree"@),
            is_flag_value(args@, "--json-out"@, option_view(r.json_out)),
            is_flag_value(args@, "--csv-out"@, option_view(r.csv_out)),
            is_flag_value(args@, "--md-out"@, option_view(r.markdown_out)),
    {
        ReportOutputArgs {
            json_mode: holds_flag(args, "--json"),
            quick_mode: holds_flag(args, "--quick"),
            tree_mode: holds_flag(args, "--tree"),
            json_out: find_arg_value(args, "--json-out"),
            csv_out: find_arg_value(args, "--csv-out"),
            markdown_out: find_arg_value(args, "--md-out"),
        }
    }
}

/// The second field of a benchmark identifier, which names the benchmark.
pub open spec fn benchmark_field(id: Seq<char>) -> Option<Seq<char>> {
    if split_on(id, '/').len() > 1 {
        Some(split_on(id, '/')[1])
    } else {
        None
    }
}

/// The name under which a benchmark meets its codec baselines.
pub open spec fn benchmark_family(name: Seq<char>) -> Seq<char> {
    if name == "pingpong_codec_shm"@ || name == "pingpong_codec_mmap"@ || name
        == "pingpong_typed_zero_copy_shm"@ || name == "pingpong_typed_zero_copy_mmap"@ {
        "pingpong_codec_family"@
    } else {
        name
    }
}

/// The name under which a layer meets its codec baselines.
pub open spec fn layer_family(layer: Seq<char>) -> Seq<char> {
    if layer == "typed"@ || layer == "typed_zero_copy"@ || layer == "typed_zero_copy_flatbuf"@ {
        "typed_family"@
    } else {
        layer
    }
}

/// What a result and its codec baseline share: all but the codec, in whose
/// place in the scenario's name a mark stands. A result without a codec, or
/// whose scenario does not name it, has none.
pub open spec fn speedup_key(result: BenchResult) -> Option<Seq<char>> {
    match result.codec {
        Some(codec) => if contains_text(result.scenario@, codec@) {
            let name = match benchmark_field(result.benchmark_id@) {
                Some(field) => field,
                None => result.benchmark_id@,
            };
            Some(
                benchmark_family(name) + "|"@ + result.backend@ + "|"@ + layer_family(result.layer@)
                    + "|"@ + result.measurement_mode@ + "|"@ + decimal_text(
                    result.config.num_consumers as nat,
                ) + "|"@ + replaced_once(result.scenario@, codec@, "__codec__"@),
            )
        } else {
            None
        },
        None => None,
    }
}

/// The second field of a benchmark identifier.
pub fn infer_benchmark_name(result: &BenchResult) -> (r: Option<String>)
    ensures
        option_view(r) == benchmark_field(result.benchmark_id@),
{
    let fields = split_text(result.benchmark_id.as_str(), '/');
    if fields.len() > 1 {
        assert(views(fields@)[1] == fields@[1]@);
        Some(fields[1].clone())
    } else {
        None
    }
}

/// The name under which a benchmark meets its codec baselines.
pub fn codec_speedup_benchmark_family(benchmark: &str) -> (r: String)
    ensures
        r@ == benchmark_family(benchmark@),
{
    if same_text(benchmark, "pingpong_codec_shm") || same_text(benchmark, "pingpong_codec_mmap")
        || same_text(benchmark, "pingpong_typed_zero_copy_shm") || same_text(
        benchmark,
        "pingpong_typed_zero_copy_mmap",
    ) {
        "pingpong_codec_family".to_owned()
    } else {
        benchmark.to_owned()
    }
}

/// The name under which a layer meets its codec baselines.
pub fn codec_speedup_layer_family(layer: &str) -> (r: String)
    ensures
        r@ == layer_family(layer@),
{
    if same_text(layer, "typed") || same_text(layer, "typed_zero_copy") || same_text(
        layer,
        "typed_zero_copy_flatbuf",
    ) {
        "typed_family".to_owned()
    } else {
        layer.to_owned()
    }
}

/// What a result and its codec baseline share.
pub fn codec_speedup_key(result: &BenchResult) -> (r: Option<String>)
    ensures
        option_view(r) == speedup_key(*result),
{
    match &result.codec {
        Some(codec) => {
            if !holds_text(result.scenario.as_str(), codec.as_str()) {
                return None;
            }
            let benchmark = match infer_benchmark_name(result) {
                Some(name) => name,
                None => result.benchmark_id.clone(),
            };
            let mut key = codec_speedup_benchmark_family(benchmark.as_str());
            key.append("|");
            key.append(result.backend.as_str());
            key.append("|");
            key.append(codec_speedup_layer_family(result.layer.as_str()).as_str());
            key.append("|");
            key.append(result.measurement_mode.as_str());
            key.append("|");
            key.append(decimal(result.config.num_consumers as u64).as_str());
            key.append("|");
            let scenario = replace_once(result.scenario.as_str(), codec.as_str(), "__codec__");
            key.append(scenario.as_str());
            Some(key)
        },
        None => None,
    }
}

/// `baseline` is a raw ring run of the same backend, payload, number of
/// consumers and measurement as `result`.
pub open spec fn is_raw_baseline(baseline: BenchResult, result: BenchResult) -> bool {
    &&& baseline.layer@ == "raw_ring"@
    &&& baseline.backend@ == result.backend@
    &&& baseline.config.payload_bytes == result.config.payload_bytes
    &&& baseline.config.num_consumers == result.config.num_consumers
    &&& baseline.measurement_mode@ == result.measurement_mode@
}

/// `baseline` is a bincode run that differs from `result` in the codec only.
pub open spec fn is_bincode_baseline(baseline: BenchResult, result: BenchResult) -> bool {
    &&& option_view(baseline.codec) == Some("bincode"@)
    &&& speedup_key(baseline) is Some
    &&& speedup_key(baseline) == speedup_key(result)
}

/// The consumer throughput of the last raw baseline of `result`.
pub open spec fn raw_baseline(results: Seq<BenchResult>, result: BenchResult) -> Option<Metric>
    decreases results.len(),
{
    if results.len() == 0 {
        None
    } else if is_raw_baseline(results.last(), result) {
        Some(results.last().results.consumer_throughput_ops_sec)
    } else {
        raw_baseline(results.drop_last(), result)
    }
}

/// The consumer throughput of the last bincode baseline of `result`.
pub open spec fn bincode_baseline(results: Seq<BenchResult>, result: BenchResult) -> Option<Metric>
    decreases results.len(),
{
    if results.len() == 0 {
        None
    } else if is_bincode_baseline(results.last(), result) {
        Some(results.last().results.consumer_throughput_ops_sec)
    } else {
        bincode_baseline(results.drop_last(), result)
    }
}

/// What the throughput of a result is set against.
#[derive(Clone, Copy, Debug, PartialEq, Eq, Structural)]
pub enum RawShare {
    /// The result is a raw ring run itself.
    Whole,
    /// The throughput of its raw baseline.
    Against(Metric),
    /// It has no raw baseline.
    Missing,
}

/// How the derived figures of a result are to be computed: its data rate, or
/// else what gives it; what its throughput is a share of; and what it is a
/// speedup over.
#[derive(Clone, Copy, Debug, PartialEq, Eq, Structural)]
pub struct DerivationPlan {
    pub recorded_rate_gbps: Option<Metric>,
    pub consumer_throughput_ops_sec: Metric,
    pub message_size_bytes: usize,
    pub raw_share: RawShare,
    pub bincode_baseline: Option<Metric>,
}

/// The values computed after a plan. Those that the plan leaves out count for
/// nothing.
#[derive(Clone, Copy, Debug, PartialEq, Eq, Structural)]
pub struct DerivedValues {
    pub hw_efficiency_pct: Metric,
    pub pct_of_raw_ring: Metric,
    pub delta_vs_raw_ring_pct: Metric,
    pub speedup_vs_bincode: Metric,
    pub delta_vs_bincode_pct: Metric,
}

/// How the derived figures of `result` are to be computed among `results`.
/// A layout result has none.
pub open spec fn plan_of(results: Seq<BenchResult>, result: BenchResult) -> Option<DerivationPlan> {
    if result.results.layout_validation is Some {
        None
    } else {
        Some(
            DerivationPlan {
                recorded_rate_gbps: result.results.consumer_avg_data_rate_gbps,
                consumer_throughput_ops_sec: result.results.consumer_throughput_ops_sec,
                message_size_bytes: result.config.message_size_bytes,
                raw_share: if result.layer@ == "raw_ring"@ {
                    RawShare::Whole
                } else {
                    match raw_baseline(results, result) {
                        Some(baseline) => RawShare::Against(baseline),
                        None => RawShare::Missing,
                    }
                },
                bincode_baseline: bincode_baseline(results, result),
            },
        )
    }
}

/// The figures of a result with the values of its plan in place.
pub open spec fn with_derived(
    results: BenchResults,
    plan: Option<DerivationPlan>,
    values: DerivedValues,
) -> BenchResults {
    match plan {
        None => results,
        Some(plan) => BenchResults {
            hw_bandwidth_limit_gbps: Some(Metric { bits: THREE_HUNDRED_BITS }),
            hw_efficiency_pct: Some(values.hw_efficiency_pct),
            pct_of_raw_ring: match plan.raw_share {
                RawShare::Whole => Some(Metric { bits: HUNDRED_BITS }),
                RawShare::Against(_) => Some(values.pct_of_raw_ring),
                RawShare::Missing => None,
            },
            delta_vs_raw_ring_pct: match plan.raw_share {
                RawShare::Whole => Some(Metric { bits: ZERO_BITS }),
                RawShare::Against(_) => Some(values.delta_vs_raw_ring_pct),
                RawShare::Missing => None,
            },
            speedup_vs_bincode: match plan.bincode_baseline {
                Some(_) => Some(values.speedup_vs_bincode),
                None => None,
            },
            delta_vs_bincode_pct: match plan.bincode_baseline {
                Some(_) => Some(values.delta_vs_bincode_pct),
                None => None,
            },
            ..results
        },
    }
}

/// `after` is `before` with the derived figures of every result in place.
pub open spec fn is_finalized(
    before: Seq<BenchResult>,
    after: Seq<BenchResult>,
    values: Seq<DerivedValues>,
) -> bool {
    &&& after.len() == before.len()
    &&& forall|i: int|
        #![trigger after[i]]
        0 <= i < before.len() ==> after[i].agrees_but_for_results(before[i])
            && after[i].results.agrees_with(
            with_derived(before[i].results, plan_of(before, before[i]), values[i]),
        )
}

/// Whether `baseline` is a raw baseline of `result`.
fn is_raw_baseline_of(baseline: &BenchResult, result: &BenchResult) -> (r: bool)
    ensures
        r == is_raw_baseline(*baseline, *result),
{
    same_text(baseline.layer.as_str(), "raw_ring") && same_text(
        baseline.backend.as_str(),
        result.backend.as_str(),
    ) && baseline.config.payload_bytes == result.config.payload_bytes
        && baseline.config.num_consumers == result.config.num_consumers && same_text(
        baseline.measurement_mode.as_str(),
        result.measurement_mode.as_str(),
    )
}

/// Whether `baseline` is a bincode baseline of `result`, whose key is given.
fn is_bincode_baseline_of(
    baseline: &BenchResult,
    key: &Option<String>,
    result: Ghost<BenchResult>,
) -> (r: bool)
    requires
        option_view(*key) == speedup_key(result@),
    ensures
        r == is_bincode_baseline(*baseline, result@),
{
    let is_bincode = match &baseline.codec {
        Some(codec) => same_text(codec.as_str(), "bincode"),
        None => false,
    };
    if !is_bincode {
        return false;
    }
    match (codec_speedup_key(baseline), key) {
        (Some(a), Some(b)) => same_text(a.as_str(), b.as_str()),
        _ => false,
    }
}

impl BenchReport {
    /// A report without results.
    pub fn new(metadata: BenchMetadata) -> (r: BenchReport)
        ensures
            r.metadata == metadata,
            r.results@.len() == 0,
    {
        BenchReport { metadata, results: Vec::new() }
    }

    /// Adds a result to the end.
    pub fn add(&mut self, result: BenchResult)
        ensures
            final(self).results@ == old(self).results@.push(result),
            final(self).metadata == old(self).metadata,
    {
        self.results.push(result);
    }

    /// How the derived figures of the result at `index` are to be computed.
    pub fn derivation_plan(&self, index: usize) -> (r: Option<DerivationPlan>)
        requires
            index < self.results@.len(),
        ensures
            r == plan_of(self.results@, self.results@[index as int]),
    {
        let result = &self.results[index];
        if result.results.layout_validation.is_some() {
            return None;
        }
        let key = codec_speedup_key(result);
        let mut raw: Option<Metric> = None;
        let mut bincode: Option<Metric> = None;
        for i in 0..self.results.len()
            invariant
                option_view(key) == speedup_key(*result),
                raw == raw_baseline(self.results@.take(i as int), *result),
                bincode == bincode_baseline(self.results@.take(i as int), *result),
        {
            let ghost taken = self.results@.take(i + 1);
            assert(taken.drop_last() =~= self.results@.take(i as int));
            assert(taken.last() == self.results@[i as int]);
            if is_raw_baseline_of(&self.results[i], result) {
                raw = Some(self.results[i].results.consumer_throughput_ops_sec);
            }
            if is_bincode_baseline_of(&self.results[i], &key, Ghost(*result)) {
                bincode = Some(self.results[i].results.consumer_throughput_ops_sec);
            }
        }
        assert(self.results@.take(self.results@.len() as int) =~= self.results@);
        let raw_share = if same_text(result.layer.as_str(), "raw_ring") {
            RawShare::Whole
        } else {
            match raw {
                Some(baseline) => RawShare::Against(baseline),
                None => RawShare::Missing,
            }
        };
        Some(
            DerivationPlan {
                recorded_rate_gbps: result.results.consumer_avg_data_rate_gbps,
                consumer_throughput_ops_sec: result.results.consumer_throughput_ops_sec,
                message_size_bytes: result.config.message_size_bytes,
                raw_share,
                bincode_baseline: bincode,
            },
        )
    }

    /// The report with derived figures in place. `values` holds, for each
    /// result, the values computed after its plan.
    pub fn finalized(&self, values: &Vec<DerivedValues>) -> (r: BenchReport)
        requires
            values@.len() == self.results@.len(),
        ensures
            r.metadata == self.metadata,
            is_finalized(self.results@, r.results@, values@),
    {
        let mut results: Vec<BenchResult> = Vec::new();
        for i in 0..self.results.len()
            invariant
                values@.len() == self.results@.len(),
                results@.len() == i,
                forall|k: int|
                    #![trigger results@[k]]
                    0 <= k < i ==> results@[k].agrees_but_for_results(self.results@[k])
                        && results@[k].results.agrees_with(
                        with_derived(
                            self.results@[k].results,
                            plan_of(self.results@, self.results@[k]),
                            values@[k],
                        ),
                    ),
        {
            let mut result = self.results[i].copied();
            if let Some(plan) = self.derivation_plan(i) {
                let value = values[i];
                result.results.hw_bandwidth_limit_gbps = Some(Metric { bits: THREE_HUNDRED_BITS });
                result.results.hw_efficiency_pct = Some(value.hw_efficiency_pct);
                match plan.raw_share {
                    RawShare::Whole => {
                        result.results.pct_of_raw_ring = Some(Metric { bits: HUNDRED_BITS });
                        result.results.delta_vs_raw_ring_pct = Some(Metric { bits: ZERO_BITS });
                    },
                    RawShare::Against(_) => {
                        result.results.pct_of_raw_ring = Some(value.pct_of_raw_ring);
                        result.results.delta_vs_raw_ring_pct = Some(value.delta_vs_raw_ring_pct);
                    },
                    RawShare::Missing => {
                        result.results.pct_of_raw_ring = None;
                        result.results.delta_vs_raw_ring_pct = None;
                    },
                }
                if plan.bincode_baseline.is_some() {
                    result.results.speedup_vs_bincode = Some(value.speedup_vs_bincode);
                    result.results.delta_vs_bincode_pct = Some(value.delta_vs_bincode_pct);
                } else {
                    result.results.speedup_vs_bincode = None;
                    result.results.delta_vs_bincode_pct = None;
                }
            }
            results.push(result);
        }
        BenchReport { metadata: self.metadata.copied(), results }
    }
}

/// Baselines are found by what derived figures leave alone.
proof fn lemma_baselines_survive(
    before: Seq<BenchResult>,
    after: Seq<BenchResult>,
    old_result: BenchResult,
    new_result: BenchResult,
)
    requires
        before.len() == after.len(),
        forall|i: int|
            #![trigger after[i]]
            0 <= i < before.len() ==> after[i].agrees_but_for_results(before[i])
                && after[i].results.consumer_throughput_ops_sec
                == before[i].results.consumer_throughput_ops_sec,
        new_result.agrees_but_for_results(old_result),
    ensures
        raw_baseline(after, new_result) == raw_baseline(before, old_result),
        bincode_baseline(after, new_result) == bincode_baseline(before, old_result),
    decreases before.len(),
{
    if before.len() > 0 {
        let last = after.len() - 1;
        assert(after[last].agrees_but_for_results(before[last]));
        assert(speedup_key(after.last()) == speedup_key(before.last()));
        assert(speedup_key(new_result) == speedup_key(old_result));
        assert forall|i: int|
            #![trigger after.drop_last()[i]]
            0 <= i < before.drop_last().len() implies after.drop_last()[i].agrees_but_for_results(
            before.drop_last()[i],
        ) && after.drop_last()[i].results.consumer_throughput_ops_sec
            == before.drop_last()[i].results.consumer_throughput_ops_sec by {
            assert(after[i].agrees_but_for_results(before[i]));
        }
        lemma_baselines_survive(before.drop_last(), after.drop_last(), old_result, new_result);
    }
}

/// Deriving figures a second time asks for the same values and changes
/// nothing.
pub proof fn law_finalizing_twice_is_once(
    before: Seq<BenchResult>,
    once: Seq<BenchResult>,
    twice: Seq<BenchResult>,
    values: Seq<DerivedValues>,
    i: int,
)
    requires
        is_finalized(before, once, values),
        is_finalized(once, twice, values),
        0 <= i < before.len(),
    ensures
        plan_of(once, once[i]) == plan_of(before, before[i]),
        twice[i].agrees_but_for_results(once[i]),
        twice[i].results.agrees_with(once[i].results),
{
    assert forall|k: int|
        #![trigger once[k]]
        0 <= k < before.len() implies once[k].agrees_but_for_results(before[k])
        && once[k].results.consumer_throughput_ops_sec
        == before[k].results.consumer_throughput_ops_sec by {
        let derived = with_derived(before[k].results, plan_of(before, before[k]), values[k]);
        assert(once[k].results.agrees_with(derived));
    }
    assert(once[i].results.agrees_with(
        with_derived(before[i].results, plan_of(before, before[i]), values[i]),
    ));
    lemma_baselines_survive(before, once, before[i], once[i]);
    assert(twice[i].results.agrees_with(
        with_derived(once[i].results, plan_of(once, once[i]), values[i]),
    ));
}

/// A raw ring run reads as the whole of its own baseline, without a delta.
pub proof fn law_raw_ring_is_its_own_baseline(
    before: Seq<BenchResult>,
    after: Seq<BenchResult>,
    values: Seq<DerivedValues>,
    i: int,
)
    requires
        is_finalized(before, after, values),
        0 <= i < before.len(),
        before[i].layer@ == "raw_ring"@,
        before[i].results.layout_validation is None,
    ensures
        after[i].results.pct_of_raw_ring == Some(Metric { bits: HUNDRED_BITS }),
        after[i].results.delta_vs_raw_ring_pct == Some(Metric { bits: ZERO_BITS }),
{
    assert(after[i].results.agrees_with(
        with_derived(before[i].results, plan_of(before, before[i]), values[i]),
    ));
}

/// A result as it is made: what the specification says, and no further figure.
pub open spec fn is_made_from(
    spec: BenchResultSpec,
    data_rate_mbps: Metric,
    metadata: BenchMetadata,
    r: BenchResult,
) -> bool {
    &&& r.benchmark_id@ == "myelon-bench/"@ + spec.bench_name@ + "/"@ + spec.scenario@
    &&& r.results.per_consumer@.len() == 0
    &&& r == (BenchResult {
        benchmark_id: r.benchmark_id,
        scenario: spec.scenario,
        backend: spec.backend,
        layer: spec.layer,
        codec: spec.codec,
        measurement_mode: spec.measurement_mode,
        wait_strategy: spec.wait_strategy,
        config: BenchConfig {
            message_size_bytes: spec.message_size_bytes,
            payload_bytes: spec.payload_bytes,
            buffer_depth: spec.buffer_depth,
            num_messages: spec.num_messages,
            warmup_messages: spec.warmup_messages,
            num_producers: spec.num_producers,
            num_consumers: spec.num_consumers,
            coordination: spec.transport.coordination,
            discovery_mode: spec.transport.discovery_mode,
            zero_copy: spec.transport.zero_copy,
            framing: spec.transport.framing,
        },
        results: BenchResults {
            producer_throughput_ops_sec: spec.producer_throughput_ops_sec,
            consumer_throughput_ops_sec: spec.consumer_throughput_ops_sec,
            data_rate_mbps,
            messages_processed: spec.num_messages,
            verification_passed: true,
            producer_bandwidth_bytes_sec: None,
            producer_data_rate_gbps: None,
            consumer_avg_bandwidth_bytes_sec: None,
            consumer_avg_data_rate_gbps: None,
            consumer_min_throughput_ops_sec: None,
            consumer_max_throughput_ops_sec: None,
            consumer_total_throughput_ops_sec: None,
            consumer_checksum_total: None,
            phase_timing: None,
            pct_of_raw_ring: None,
            delta_vs_raw_ring_pct: None,
            speedup_vs_bincode: None,
            delta_vs_bincode_pct: None,
            access_avg_ns: None,
            access_vs_decode_speedup: None,
            alloc_count: None,
            alloc_bytes: None,
            hw_bandwidth_limit_gbps: None,
            hw_efficiency_pct: None,
            per_consumer: r.results.per_consumer,
            layout_validation: None,
        },
        latency: spec.latency,
        metadata,
    })
}

/// Makes a result. `data_rate_mbps` is the producer's throughput times the
/// message size, in megabytes per second.
pub fn make_result(
    spec: BenchResultSpec,
    data_rate_mbps: Metric,
    metadata: BenchMetadata,
) -> (r: BenchResult)
    ensures
        is_made_from(spec, data_rate_mbps, metadata, r),
{
    let mut benchmark_id: String = "myelon-bench/".to_owned();
    benchmark_id.append(spec.bench_name.as_str());
    benchmark_id.append("/");
    benchmark_id.append(spec.scenario.as_str());
    BenchResult {
        benchmark_id,
        scenario: spec.scenario,
        backend: spec.backend,
        layer: spec.layer,
        codec: spec.codec,
        measurement_mode: spec.measurement_mode,
        wait_strategy: spec.wait_strategy,
        config: BenchConfig {
            message_size_bytes: spec.message_size_bytes,
            payload_bytes: spec.payload_bytes,
            buffer_depth: spec.buffer_depth,
            num_messages: spec.num_messages,
            warmup_messages: spec.warmup_messages,
            num_producers: spec.num_producers,
            num_consumers: spec.num_consumers,
            coordination: spec.transport.coordination,
            discovery_mode: spec.transport.discovery_mode,
            zero_copy: spec.transport.zero_copy,
            framing: spec.transport.framing,
        },
        results: BenchResults {
            producer_throughput_ops_sec: spec.producer_throughput_ops_sec,
            consumer_throughput_ops_sec: spec.consumer_throughput_ops_sec,
            data_rate_mbps,
            messages_processed: spec.num_messages,
            verification_passed: true,
            producer_bandwidth_bytes_sec: None,
            producer_data_rate_gbps: None,
            consumer_avg_bandwidth_bytes_sec: None,
            consumer_avg_data_rate_gbps: None,
            consumer_min_throughput_ops_sec: None,
            consumer_max_throughput_ops_sec: None,
            consumer_total_throughput_ops_sec: None,
            consumer_checksum_total: None,
            phase_timing: None,
            pct_of_raw_ring: None,
            delta_vs_raw_ring_pct: None,
            speedup_vs_bincode: None,
            delta_vs_bincode_pct: None,
            access_avg_ns: None,
            access_vs_decode_speedup: None,
            alloc_count: None,
            alloc_bytes: None,
            hw_bandwidth_limit_gbps: None,
            hw_efficiency_pct: None,
            per_consumer: Vec::new(),
            layout_validation: None,
        },
        latency: spec.latency,
        metadata,
    }
}

/// The checksums of the consumers added up, modulo two to the sixty-four.
pub open spec fn checksum_total(consumers: Seq<ConsumerOutput>) -> nat
    decreases consumers.len(),
{
    if consumers.len() == 0 {
        0
    } else {
        (checksum_total(consumers.drop_last()) + consumers.last().checksum as nat)
            % 0x1_0000_0000_0000_0000
    }
}

/// The consumers' throughputs.
pub open spec fn throughputs(consumers: Seq<ConsumerOutput>) -> Seq<Metric> {
    Seq::new(consumers.len(), |i: int| consumers[i].throughput_ops_sec)
}

/// The entry of a consumer in a result.
pub open spec fn consumer_entry(output: ConsumerOutput) -> BenchConsumerResult {
    BenchConsumerResult {
        consumer_id: output.consumer_id,
        throughput_ops_sec: output.throughput_ops_sec,
        events_consumed: output.events_consumed,
        bandwidth_bytes_sec: output.bandwidth_bytes_sec,
        data_rate_gbps: output.data_rate_gbps,
        checksum: output.checksum,
        latency: output.latency,
        phase_timing: output.phase_timing,
    }
}

/// Some consumer reports phase times.
pub open spec fn some_phase_timing(consumers: Seq<ConsumerOutput>) -> bool {
    exists|i: int| 0 <= i < consumers.len() && (#[trigger] consumers[i]).phase_timing is Some
}

/// The phase times of a producer; none known where it reports none.
pub open spec fn producer_phases(producer: ProducerOutput) -> PhaseTiming {
    match producer.phase_timing {
        Some(timing) => timing,
        None => PhaseTiming {
            encode_avg_ns: None,
            transport_write_avg_ns: None,
            transport_read_avg_ns: None,
            decode_avg_ns: None,
        },
    }
}

/// `after` are the phase times of a run: the producer's, with the averages of
/// the read and decode times of the consumers that report phase times, where
/// there are any; as before where nobody reports phase times. In an average an
/// unreported time counts as zero.
pub open spec fn is_phase_timing<F: Fn(MeanPlan) -> Metric>(
    before: Option<PhaseTiming>,
    producer: ProducerOutput,
    consumers: Seq<ConsumerOutput>,
    mean: F,
    after: Option<PhaseTiming>,
) -> bool {
    let timed = phase_timings(consumers).len();
    if timed > 0 {
        &&& after is Some
        &&& after->0.encode_avg_ns == producer_phases(producer).encode_avg_ns
        &&& after->0.transport_write_avg_ns == producer_phases(producer).transport_write_avg_ns
        &&& after->0.transport_read_avg_ns is Some
        &&& is_mean(mean, read_times(consumers), timed, after->0.transport_read_avg_ns->0)
        &&& after->0.decode_avg_ns is Some
        &&& is_mean(mean, decode_times(consumers), timed, after->0.decode_avg_ns->0)
    } else if producer.phase_timing is Some {
        after == producer.phase_timing
    } else {
        after == before
    }
}

/// `after` is `before` with the metrics of the children rolled up into it;
/// `mean` divides sums.
pub open spec fn has_child_metrics<F: Fn(MeanPlan) -> Metric>(
    before: BenchResults,
    producer: ProducerOutput,
    consumers: Seq<ConsumerOutput>,
    mean: F,
    after: BenchResults,
) -> bool {
    &&& after.per_consumer@ == Seq::new(consumers.len(), |i: int| consumer_entry(consumers[i]))
    &&& after == (BenchResults {
        producer_bandwidth_bytes_sec: Some(producer.bandwidth_bytes_sec),
        producer_data_rate_gbps: Some(producer.data_rate_gbps),
        consumer_min_throughput_ops_sec: after.consumer_min_throughput_ops_sec,
        consumer_max_throughput_ops_sec: after.consumer_max_throughput_ops_sec,
        consumer_total_throughput_ops_sec: after.consumer_total_throughput_ops_sec,
        consumer_avg_bandwidth_bytes_sec: after.consumer_avg_bandwidth_bytes_sec,
        consumer_avg_data_rate_gbps: after.consumer_avg_data_rate_gbps,
        consumer_checksum_total: after.consumer_checksum_total,
        per_consumer: after.per_consumer,
        phase_timing: after.phase_timing,
        ..before
    })
    &&& is_phase_timing(before.phase_timing, producer, consumers, mean, after.phase_timing)
    &&& if consumers.len() > 0 {
        &&& after.consumer_min_throughput_ops_sec is Some
        &&& is_least(throughputs(consumers), after.consumer_min_throughput_ops_sec->0)
        &&& after.consumer_max_throughput_ops_sec is Some
        &&& is_greatest(throughputs(consumers), after.consumer_max_throughput_ops_sec->0)
        &&& after.consumer_total_throughput_ops_sec is Some
        &&& is_mean(
            mean,
            throughputs(consumers),
            1,
            after.consumer_total_throughput_ops_sec->0,
        )
        &&& after.consumer_avg_bandwidth_bytes_sec is Some
        &&& is_mean(
            mean,
            bandwidths(consumers),
            consumers.len(),
            after.consumer_avg_bandwidth_bytes_sec->0,
        )
        &&& after.consumer_avg_data_rate_gbps is Some
        &&& is_mean(
            mean,
            data_rates(consumers),
            consumers.len(),
            after.consumer_avg_data_rate_gbps->0,
        )
        &&& after.consumer_checksum_total == Some(checksum_total(consumers) as u64)
    } else {
        &&& after.consumer_min_throughput_ops_sec == before.consumer_min_throughput_ops_sec
        &&& after.consumer_max_throughput_ops_sec == before.consumer_max_throughput_ops_sec
        &&& after.consumer_total_throughput_ops_sec == before.consumer_total_throughput_ops_sec
        &&& after.consumer_avg_bandwidth_bytes_sec == before.consumer_avg_bandwidth_bytes_sec
        &&& after.consumer_avg_data_rate_gbps == before.consumer_avg_data_rate_gbps
        &&& after.consumer_checksum_total == before.consumer_checksum_total
    }
}

/// Rolls the metrics of the children up into a result. `mean` adds values and
/// divides their sum.
pub fn attach_child_metrics<F: Fn(MeanPlan) -> Metric>(
    result: &mut BenchResult,
    producer: &ProducerOutput,
    consumers: &Vec<ConsumerOutput>,
    mean: &F,
)
    requires
        takes_any_plan(*mean),
    ensures
        final(result).agrees_but_for_results(*old(result)),
        has_child_metrics(
            old(result).results,
            *producer,
            consumers@,
            *mean,
            final(result).results,
        ),
{
    result.results.producer_bandwidth_bytes_sec = Some(producer.bandwidth_bytes_sec);
    result.results.producer_data_rate_gbps = Some(producer.data_rate_gbps);
    let mut checksum: u64 = 0;
    let mut entries: Vec<BenchConsumerResult> = Vec::new();
    for i in 0..consumers.len()
        invariant
            checksum == checksum_total(consumers@.take(i as int)),
            entries@ == Seq::new(i as nat, |k: int| consumer_entry(consumers@[k])),
    {
        let ghost taken = consumers@.take(i + 1);
        assert(taken.drop_last() =~= consumers@.take(i as int));
        assert(taken.last() == consumers@[i as int]);
        let output = consumers[i];
        checksum = checksum.wrapping_add(output.checksum);
        entries.push(
            BenchConsumerResult {
                consumer_id: output.consumer_id,
                throughput_ops_sec: output.throughput_ops_sec,
                events_consumed: output.events_consumed,
                bandwidth_bytes_sec: output.bandwidth_bytes_sec,
                data_rate_gbps: output.data_rate_gbps,
                checksum: output.checksum,
                latency: output.latency,
                phase_timing: output.phase_timing,
            },
        );
        assert(entries@ =~= Seq::new((i + 1) as nat, |k: int| consumer_entry(consumers@[k])));
    }
    assert(consumers@.take(consumers@.len() as int) =~= consumers@);
    let plan = consumer_plan(consumers);
    if consumers.len() > 0 {
        result.results.consumer_min_throughput_ops_sec = least_metric(&plan.throughput.values);
        result.results.consumer_max_throughput_ops_sec = greatest_metric(&plan.throughput.values);
        result.results.consumer_total_throughput_ops_sec = Some(mean(plan.throughput));
        result.results.consumer_avg_bandwidth_bytes_sec = Some(mean(plan.bandwidth));
        result.results.consumer_avg_data_rate_gbps = Some(mean(plan.data_rate));
        result.results.consumer_checksum_total = Some(checksum);
    }
    result.results.per_consumer = entries;
    let timed = plan.phase_read.divisor;
    if producer.phase_timing.is_some() || timed > 0 {
        let mut phase = match producer.phase_timing {
            Some(timing) => timing,
            None => PhaseTiming {
                encode_avg_ns: None,
                transport_write_avg_ns: None,
                transport_read_avg_ns: None,
                decode_avg_ns: None,
            },
        };
        if timed > 0 {
            phase.transport_read_avg_ns = Some(mean(plan.phase_read));
            phase.decode_avg_ns = Some(mean(plan.phase_decode));
        }
        result.results.phase_timing = Some(phase);
    }
}

/// The joint checksum as a fold.
proof fn lemma_checksum_folds(
    consumers: Seq<ConsumerOutput>,
    add_one: spec_fn(nat, ConsumerOutput) -> nat,
)
    requires
        add_one == (|total: nat, c: ConsumerOutput|
            (total + c.checksum as nat) % 0x1_0000_0000_0000_0000),
    ensures
        checksum_total(consumers) == consumers.fold_left(0nat, add_one),
    decreases consumers.len(),
{
    if consumers.len() > 0 {
        lemma_checksum_folds(consumers.drop_last(), add_one);
    }
}

/// The order of the consumers does not matter to their joint checksum.
pub proof fn law_checksum_ignores_order(a: Seq<ConsumerOutput>, b: Seq<ConsumerOutput>)
    requires
        a.to_multiset() == b.to_multiset(),
    ensures
        checksum_total(a) == checksum_total(b),
{
    let add_one = |total: nat, c: ConsumerOutput|
        (total + c.checksum as nat) % 0x1_0000_0000_0000_0000;
    lemma_checksum_folds(a, add_one);
    lemma_checksum_folds(b, add_one);
    vstd::seq_lib::lemma_fold_left_permutation(a, b, add_one, 0nat);
}

/// The plan of a result says what is recorded of it. Its throughput is set
/// against the last run of a raw ring with its backend, payload, number of
/// consumers and measurement, where there is one; that of a raw ring is the
/// whole. A layout result has no plan.
pub proof fn law_raw_share_is_of_a_like_run(results: Seq<BenchResult>, result: BenchResult)
    ensures
        plan_of(results, result) is None <==> result.results.layout_validation is Some,
        plan_of(results, result) is Some ==> {
            let plan = plan_of(results, result)->0;
            &&& plan.recorded_rate_gbps == result.results.consumer_avg_data_rate_gbps
            &&& plan.consumer_throughput_ops_sec == result.results.consumer_throughput_ops_sec
            &&& plan.message_size_bytes == result.config.message_size_bytes
            &&& plan.raw_share is Whole <==> result.layer@ == "raw_ring"@
            &&& plan.raw_share matches RawShare::Against(b) ==> exists|k: int|
                {
                    &&& 0 <= k < results.len()
                    &&& (#[trigger] results[k]).layer@ == "raw_ring"@
                    &&& results[k].backend@ == result.backend@
                    &&& results[k].config.payload_bytes == result.config.payload_bytes
                    &&& results[k].config.num_consumers == result.config.num_consumers
                    &&& results[k].measurement_mode@ == result.measurement_mode@
                    &&& results[k].results.consumer_throughput_ops_sec == b
                    &&& forall|j: int|
                        k < j < results.len() ==> !((#[trigger] results[j]).layer@ == "raw_ring"@
                            && results[j].backend@ == result.backend@
                            && results[j].config.payload_bytes == result.config.payload_bytes
                            && results[j].config.num_consumers == result.config.num_consumers
                            && results[j].measurement_mode@ == result.measurement_mode@)
                }
            &&& plan.raw_share is Missing ==> forall|j: int|
                0 <= j < results.len() ==> !((#[trigger] results[j]).layer@ == "raw_ring"@
                    && results[j].backend@ == result.backend@ && results[j].config.payload_bytes
                    == result.config.payload_bytes && results[j].config.num_consumers
                    == result.config.num_consumers && results[j].measurement_mode@
                    == result.measurement_mode@)
        },
    decreases results.len(),
{
    if results.len() > 0 {
        let shorter = results.drop_last();
        law_raw_share_is_of_a_like_run(shorter, result);
        let last = results.len() - 1;
        assert(results[last] == results.last());
        assert forall|j: int| 0 <= j < last implies results[j] == #[trigger] shorter[j] by {}
        if plan_of(results, result) is Some && !is_raw_baseline(results.last(), result) {
            if plan_of(shorter, result)->0.raw_share is Against {
                let b = plan_of(shorter, result)->0.raw_share->Against_0;
                let k = choose|k: int|
                    {
                        &&& 0 <= k < shorter.len()
                        &&& (#[trigger] shorter[k]).layer@ == "raw_ring"@
                        &&& shorter[k].backend@ == result.backend@
                        &&& shorter[k].config.payload_bytes == result.config.payload_bytes
                        &&& shorter[k].config.num_consumers == result.config.num_consumers
                        &&& shorter[k].measurement_mode@ == result.measurement_mode@
                        &&& shorter[k].results.consumer_throughput_ops_sec == b
                        &&& forall|j: int|
                            k < j < shorter.len() ==> !((#[trigger] shorter[j]).layer@
                                == "raw_ring"@ && shorter[j].backend@ == result.backend@
                                && shorter[j].config.payload_bytes == result.config.payload_bytes
                                && shorter[j].config.num_consumers == result.config.num_consumers
                                && shorter[j].measurement_mode@ == result.measurement_mode@)
                    };
                assert(results[k] == shorter[k]);
                assert forall|j: int| k < j < results.len() implies !((
                #[trigger] results[j]).layer@ == "raw_ring"@ && results[j].backend@
                    == result.backend@ && results[j].config.payload_bytes
                    == result.config.payload_bytes && results[j].config.num_consumers
                    == result.config.num_consumers && results[j].measurement_mode@
                    == result.measurement_mode@) by {
                    if j < last {
                        assert(results[j] == shorter[j]);
                    }
                }
            }
            if plan_of(shorter, result)->0.raw_share is Missing {
                assert forall|j: int| 0 <= j < results.len() implies !((
                #[trigger] results[j]).layer@ == "raw_ring"@ && results[j].backend@
                    == result.backend@ && results[j].config.payload_bytes
                    == result.config.payload_bytes && results[j].config.num_consumers
                    == result.config.num_consumers && results[j].measurement_mode@
                    == result.measurement_mode@) by {
                    if j < last {
                        assert(results[j] == shorter[j]);
                    }
                }
            }
        }
    }
}

/// `text` holds no bar.
pub open spec fn is_barless(text: Seq<char>) -> bool {
    !text.contains('|')
}

/// The benchmark that a result is of: the second field of its identifier, or
/// all of it.
pub open spec fn benchmark_of(result: BenchResult) -> Seq<char> {
    match benchmark_field(result.benchmark_id@) {
        Some(field) => field,
        None => result.benchmark_id@,
    }
}

/// A text up to its first bar, and what follows it, can be told apart.
proof fn lemma_bar_parts(a: Seq<char>, x: Seq<char>, b: Seq<char>, y: Seq<char>)
    requires
        is_barless(a),
        is_barless(b),
        a + ("|"@ + x) == b + ("|"@ + y),
    ensures
        a == b,
        x == y,
{
    reveal_strlit("|");
    let whole = a + ("|"@ + x);
    assert(whole[a.len() as int] == '|');
    assert(whole[b.len() as int] == '|');
    if a.len() < b.len() {
        assert(whole[a.len() as int] == b[a.len() as int]);
        assert(b.contains('|'));
    }
    if b.len() < a.len() {
        assert(whole[b.len() as int] == a[b.len() as int]);
        assert(a.contains('|'));
    }
    assert(a =~= whole.take(a.len() as int));
    assert(b =~= whole.take(a.len() as int));
    assert(x =~= whole.skip(a.len() as int + 1));
    assert(y =~= whole.skip(a.len() as int + 1));
}

/// A decimal notation holds no bar.
proof fn lemma_number_is_barless(n: nat)
    ensures
        is_barless(decimal_text(n)),
{
    lemma_decimal_denotes(n);
    if decimal_text(n).contains('|') {
        let i = choose|i: int| 0 <= i < decimal_text(n).len() && decimal_text(n)[i] == '|';
        assert(is_digit(decimal_text(n)[i]));
    }
}

/// The names of families hold no bar.
proof fn lemma_families_are_barless(name: Seq<char>, layer: Seq<char>)
    requires
        is_barless(name),
        is_barless(layer),
    ensures
        is_barless(benchmark_family(name)),
        is_barless(layer_family(layer)),
{
    reveal_strlit("pingpong_codec_family");
    reveal_strlit("typed_family");
}

/// Two results with one codec key ran alike: benchmarks and layers of one
/// family, with the same backend, measurement and number of consumers, in
/// scenarios of the same name but for the codec.
pub proof fn law_codec_key_tells_runs_apart(a: BenchResult, b: BenchResult)
    requires
        speedup_key(a) is Some,
        speedup_key(a) == speedup_key(b),
        is_barless(benchmark_of(a)) && is_barless(benchmark_of(b)),
        is_barless(a.backend@) && is_barless(b.backend@),
        is_barless(a.layer@) && is_barless(b.layer@),
        is_barless(a.measurement_mode@) && is_barless(b.measurement_mode@),
    ensures
        a.codec is Some && b.codec is Some,
        contains_text(a.scenario@, a.codec->0@),
        contains_text(b.scenario@, b.codec->0@),
        benchmark_family(benchmark_of(a)) == benchmark_family(benchmark_of(b)),
        a.backend@ == b.backend@,
        layer_family(a.layer@) == layer_family(b.layer@),
        a.measurement_mode@ == b.measurement_mode@,
        a.config.num_consumers == b.config.num_consumers,
        replaced_once(a.scenario@, a.codec->0@, "__codec__"@) == replaced_once(
            b.scenario@,
            b.codec->0@,
            "__codec__"@,
        ),
{
    lemma_families_are_barless(benchmark_of(a), a.layer@);
    lemma_families_are_barless(benchmark_of(b), b.layer@);
    lemma_number_is_barless(a.config.num_consumers as nat);
    lemma_number_is_barless(b.config.num_consumers as nat);
    let (a1, a2, a3, a4, a5, a6) = (
        benchmark_family(benchmark_of(a)),
        a.backend@,
        layer_family(a.layer@),
        a.measurement_mode@,
        decimal_text(a.config.num_consumers as nat),
        replaced_once(a.scenario@, a.codec->0@, "__codec__"@),
    );
    let (b1, b2, b3, b4, b5, b6) = (
        benchmark_family(benchmark_of(b)),
        b.backend@,
        layer_family(b.layer@),
        b.measurement_mode@,
        decimal_text(b.config.num_consumers as nat),
        replaced_once(b.scenario@, b.codec->0@, "__codec__"@),
    );
    lemma_six_parts(a1, a2, a3, a4, a5, a6);
    lemma_six_parts(b1, b2, b3, b4, b5, b6);
    let (x5, y5) = (a5 + ("|"@ + a6), b5 + ("|"@ + b6));
    let (x4, y4) = (a4 + ("|"@ + x5), b4 + ("|"@ + y5));
    let (x3, y3) = (a3 + ("|"@ + x4), b3 + ("|"@ + y4));
    let (x2, y2) = (a2 + ("|"@ + x3), b2 + ("|"@ + y3));
    lemma_bar_parts(a1, x2, b1, y2);
    lemma_bar_parts(a2, x3, b2, y3);
    lemma_bar_parts(a3, x4, b3, y4);
    lemma_bar_parts(a4, x5, b4, y5);
    lemma_bar_parts(a5, a6, b5, b6);
    law_decimal_is_injective(a.config.num_consumers as nat, b.config.num_consumers as nat);
}

/// Six parts joined by bars, joined from the last.
proof fn lemma_six_parts(
    a: Seq<char>,
    b: Seq<char>,
    c: Seq<char>,
    d: Seq<char>,
    e: Seq<char>,
    f: Seq<char>,
)
    ensures
        a + "|"@ + b + "|"@ + c + "|"@ + d + "|"@ + e + "|"@ + f == a + ("|"@ + (b + ("|"@ + (c + (
        "|"@ + (d + ("|"@ + (e + ("|"@ + f))))))))),
{
    let four = a + "|"@ + b + "|"@ + c + "|"@ + d;
    assert(four + "|"@ + e + "|"@ + f =~= four + ("|"@ + (e + ("|"@ + f))));
    let last = "|"@ + (e + ("|"@ + f));
    let three = a + "|"@ + b + "|"@ + c;
    assert(three + "|"@ + d + last =~= three + ("|"@ + (d + last)));
    let from_d = "|"@ + (d + last);
    let two = a + "|"@ + b;
    assert(two + "|"@ + c + from_d =~= two + ("|"@ + (c + from_d)));
    let from_c = "|"@ + (c + from_d);
    assert(a + "|"@ + b + from_c =~= a + ("|"@ + (b + from_c)));
}

/// Runs of two codecs that agree in everything else, in scenarios that name the
/// codec in one place, have one codec key.
pub proof fn law_like_runs_share_their_codec_key(
    a: BenchResult,
    b: BenchResult,
    front: Seq<char>,
    back: Seq<char>,
)
    requires
        a.codec is Some && b.codec is Some,
        a.benchmark_id@ == b.benchmark_id@,
        a.backend@ == b.backend@,
        a.layer@ == b.layer@,
        a.measurement_mode@ == b.measurement_mode@,
        a.config.num_consumers == b.config.num_consumers,
        a.scenario@ == front + a.codec->0@ + back,
        b.scenario@ == front + b.codec->0@ + back,
        is_first_from(a.scenario@, a.codec->0@, 0, front.len() as int),
        is_first_from(b.scenario@, b.codec->0@, 0, front.len() as int),
    ensures
        speedup_key(a) is Some,
        speedup_key(a) == speedup_key(b),
{
    lemma_replaced_at(a.scenario@, a.codec->0@, front, back);
    lemma_replaced_at(b.scenario@, b.codec->0@, front, back);
}

/// Replacing what stands in one place of a text.
proof fn lemma_replaced_at(
    text: Seq<char>,
    pattern: Seq<char>,
    front: Seq<char>,
    back: Seq<char>,
)
    requires
        text == front + pattern + back,
        is_first_from(text, pattern, 0, front.len() as int),
    ensures
        contains_text(text, pattern),
        replaced_once(text, pattern, "__codec__"@) == front + "__codec__"@ + back,
{
    assert(occurs_at(text, pattern, front.len() as int));
    let first = choose|i: int| is_first_from(text, pattern, 0, i);
    lemma_first_is_unique(text, pattern, 0, first, front.len() as int);
    assert(text.take(front.len() as int) =~= front);
    assert(text.skip((front.len() + pattern.len()) as int) =~= back);
}

/// The layers of typed messages meet the same codec baselines; any other layer
/// meets its own only.
pub proof fn law_typed_layers_are_one_family(a: Seq<char>, b: Seq<char>)
    requires
        a != "typed_family"@,
        b != "typed_family"@,
    ensures
        layer_family(a) == layer_family(b) <==> a == b || ((a == "typed"@ || a
            == "typed_zero_copy"@ || a == "typed_zero_copy_flatbuf"@) && (b == "typed"@ || b
            == "typed_zero_copy"@ || b == "typed_zero_copy_flatbuf"@)),
{
}

/// The codec ping-pongs meet the same codec baselines, whatever they run over
/// and however they read; any other benchmark meets its own only.
pub proof fn law_codec_pingpongs_are_one_family(a: Seq<char>, b: Seq<char>)
    requires
        a != "pingpong_codec_family"@,
        b != "pingpong_codec_family"@,
    ensures
        benchmark_family(a) == benchmark_family(b) <==> a == b || ((a == "pingpong_codec_shm"@ || a
            == "pingpong_codec_mmap"@ || a == "pingpong_typed_zero_copy_shm"@ || a
            == "pingpong_typed_zero_copy_mmap"@) && (b == "pingpong_codec_shm"@ || b
            == "pingpong_codec_mmap"@ || b == "pingpong_typed_zero_copy_shm"@ || b
            == "pingpong_typed_zero_copy_mmap"@)),
{
}

/// The speedup of a result is over the last bincode run with its codec key,
/// where there is one.
pub proof fn law_speedup_is_over_bincode(results: Seq<BenchResult>, result: BenchResult)
    requires
        result.results.layout_validation is None,
    ensures
        plan_of(results, result)->0.bincode_baseline matches Some(b) ==> exists|k: int|
            {
                &&& 0 <= k < results.len()
                &&& (#[trigger] results[k]).codec is Some
                &&& results[k].codec->0@ == "bincode"@
                &&& speedup_key(result) is Some
                &&& speedup_key(results[k]) == speedup_key(result)
                &&& results[k].results.consumer_throughput_ops_sec == b
                &&& forall|j: int|
                    k < j < results.len() ==> !((#[trigger] results[j]).codec is Some
                        && results[j].codec->0@ == "bincode"@ && speedup_key(results[j])
                        == speedup_key(result))
            },
        plan_of(results, result)->0.bincode_baseline is None && speedup_key(result) is Some
            ==> forall|j: int|
            0 <= j < results.len() ==> !((#[trigger] results[j]).codec is Some
                && results[j].codec->0@ == "bincode"@ && speedup_key(results[j]) == speedup_key(
                result,
            )),
        speedup_key(result) is None ==> plan_of(results, result)->0.bincode_baseline is None,
    decreases results.len(),
{
    if results.len() > 0 {
        let shorter = results.drop_last();
        law_speedup_is_over_bincode(shorter, result);
        let last = results.len() - 1;
        assert(results[last] == results.last());
        if !is_bincode_baseline(results.last(), result) {
            if plan_of(shorter, result)->0.bincode_baseline is Some {
                let b = plan_of(shorter, result)->0.bincode_baseline->0;
                let k = choose|k: int|
                    {
                        &&& 0 <= k < shorter.len()
                        &&& (#[trigger] shorter[k]).codec is Some
                        &&& shorter[k].codec->0@ == "bincode"@
                        &&& speedup_key(result) is Some
                        &&& speedup_key(shorter[k]) == speedup_key(result)
                        &&& shorter[k].results.consumer_throughput_ops_sec == b
                        &&& forall|j: int|
                            k < j < shorter.len() ==> !((#[trigger] shorter[j]).codec is Some
                                && shorter[j].codec->0@ == "bincode"@ && speedup_key(shorter[j])
                                == speedup_key(result))
                    };
                assert(results[k] == shorter[k]);
                assert forall|j: int| k < j < results.len() implies !((
                #[trigger] results[j]).codec is Some && results[j].codec->0@ == "bincode"@
                    && speedup_key(results[j]) == speedup_key(result)) by {
                    if j < last {
                        assert(results[j] == shorter[j]);
                    }
                }
            } else if speedup_key(result) is Some {
                assert forall|j: int| 0 <= j < results.len() implies !((
                #[trigger] results[j]).codec is Some && results[j].codec->0@ == "bincode"@
                    && speedup_key(results[j]) == speedup_key(result)) by {
                    if j < last {
                        assert(results[j] == shorter[j]);
                    }
                }
            }
        }
    }
}

/// A finalized report says of each result what it said before, and besides: how
/// much of the 300 gigabytes per second of the memory it reached; the share of
/// the raw ring where there is a run to set it against, which is a hundred
/// percent with no difference for a raw ring itself, and nothing where there is
/// none; and the speedup over bincode where there is a bincode run. A layout
/// result stays as it is.
pub proof fn law_finalized_figures_follow_the_plan(
    before: Seq<BenchResult>,
    after: Seq<BenchResult>,
    values: Seq<DerivedValues>,
    i: int,
)
    requires
        is_finalized(before, after, values),
        0 <= i < before.len(),
    ensures
        after.len() == before.len(),
        ({
            let (old_result, new_result) = (before[i], after[i]);
            let (was, is) = (old_result.results, new_result.results);
            let plan = plan_of(before, old_result);
            &&& new_result.benchmark_id == old_result.benchmark_id
            &&& new_result.scenario == old_result.scenario
            &&& new_result.backend == old_result.backend
            &&& new_result.layer == old_result.layer
            &&& new_result.codec == old_result.codec
            &&& new_result.measurement_mode == old_result.measurement_mode
            &&& new_result.wait_strategy == old_result.wait_strategy
            &&& new_result.config == old_result.config
            &&& new_result.latency == old_result.latency
            &&& new_result.metadata == old_result.metadata
            &&& is.producer_throughput_ops_sec == was.producer_throughput_ops_sec
            &&& is.consumer_throughput_ops_sec == was.consumer_throughput_ops_sec
            &&& is.data_rate_mbps == was.data_rate_mbps
            &&& is.messages_processed == was.messages_processed
            &&& is.verification_passed == was.verification_passed
            &&& is.producer_bandwidth_bytes_sec == was.producer_bandwidth_bytes_sec
            &&& is.producer_data_rate_gbps == was.producer_data_rate_gbps
            &&& is.consumer_avg_bandwidth_bytes_sec == was.consumer_avg_bandwidth_bytes_sec
            &&& is.consumer_avg_data_rate_gbps == was.consumer_avg_data_rate_gbps
            &&& is.consumer_min_throughput_ops_sec == was.consumer_min_throughput_ops_sec
            &&& is.consumer_max_throughput_ops_sec == was.consumer_max_throughput_ops_sec
            &&& is.consumer_total_throughput_ops_sec == was.consumer_total_throughput_ops_sec
            &&& is.consumer_checksum_total == was.consumer_checksum_total
            &&& is.phase_timing == was.phase_timing
            &&& is.access_avg_ns == was.access_avg_ns
            &&& is.access_vs_decode_speedup == was.access_vs_decode_speedup
            &&& is.alloc_count == was.alloc_count
            &&& is.alloc_bytes == was.alloc_bytes
            &&& is.layout_validation == was.layout_validation
            &&& is.per_consumer@ == was.per_consumer@
            &&& plan is None ==> is.agrees_with(was)
            &&& plan is Some ==> {
                &&& is.hw_bandwidth_limit_gbps == Some(Metric { bits: 0x4072_C000_0000_0000 })
                &&& is.hw_efficiency_pct == Some(values[i].hw_efficiency_pct)
                &&& plan->0.raw_share is Whole ==> is.pct_of_raw_ring == Some(
                    Metric { bits: 0x4059_0000_0000_0000 },
                ) && is.delta_vs_raw_ring_pct == Some(Metric { bits: 0 })
                &&& plan->0.raw_share is Against ==> is.pct_of_raw_ring == Some(
                    values[i].pct_of_raw_ring,
                ) && is.delta_vs_raw_ring_pct == Some(values[i].delta_vs_raw_ring_pct)
                &&& plan->0.raw_share is Missing ==> is.pct_of_raw_ring is None
                    && is.delta_vs_raw_ring_pct is None
                &&& plan->0.bincode_baseline is Some ==> is.speedup_vs_bincode == Some(
                    values[i].speedup_vs_bincode,
                ) && is.delta_vs_bincode_pct == Some(values[i].delta_vs_bincode_pct)
                &&& plan->0.bincode_baseline is None ==> is.speedup_vs_bincode is None
                    && is.delta_vs_bincode_pct is None
            }
        }),
{
    assert(after[i].agrees_but_for_results(before[i]));
}

/// A result is made with the identifier of its benchmark and scenario and with
/// what is specified, verified, and without any figure that is found later.
pub proof fn law_made_result_says_what_is_specified(
    spec: BenchResultSpec,
    data_rate_mbps: Metric,
    metadata: BenchMetadata,
    r: BenchResult,
)
    requires
        is_made_from(spec, data_rate_mbps, metadata, r),
    ensures
        r.benchmark_id@ == "myelon-bench/"@ + spec.bench_name@ + "/"@ + spec.scenario@,
        r.scenario == spec.scenario,
        r.backend == spec.backend,
        r.layer == spec.layer,
        r.codec == spec.codec,
        r.measurement_mode == spec.measurement_mode,
        r.wait_strategy == spec.wait_strategy,
        r.latency == spec.latency,
        r.metadata == metadata,
        r.config.message_size_bytes == spec.message_size_bytes,
        r.config.payload_bytes == spec.payload_bytes,
        r.config.buffer_depth == spec.buffer_depth,
        r.config.num_messages == spec.num_messages,
        r.config.warmup_messages == spec.warmup_messages,
        r.config.num_producers == spec.num_producers,
        r.config.num_consumers == spec.num_consumers,
        r.config.coordination == spec.transport.coordination,
        r.config.discovery_mode == spec.transport.discovery_mode,
        r.config.zero_copy == spec.transport.zero_copy,
        r.config.framing == spec.transport.framing,
        r.results.producer_throughput_ops_sec == spec.producer_throughput_ops_sec,
        r.results.consumer_throughput_ops_sec == spec.consumer_throughput_ops_sec,
        r.results.data_rate_mbps == data_rate_mbps,
        r.results.messages_processed == spec.num_messages,
        r.results.verification_passed,
        r.results.producer_bandwidth_bytes_sec is None,
        r.results.producer_data_rate_gbps is None,
        r.results.consumer_avg_bandwidth_bytes_sec is None,
        r.results.consumer_avg_data_rate_gbps is None,
        r.results.consumer_min_throughput_ops_sec is None,
        r.results.consumer_max_throughput_ops_sec is None,
        r.results.consumer_total_throughput_ops_sec is None,
        r.results.consumer_checksum_total is None,
        r.results.phase_timing is None,
        r.results.pct_of_raw_ring is None,
        r.results.delta_vs_raw_ring_pct is None,
        r.results.speedup_vs_bincode is None,
        r.results.delta_vs_bincode_pct is None,
        r.results.access_avg_ns is None,
        r.results.access_vs_decode_speedup is None,
        r.results.alloc_count is None,
        r.results.alloc_bytes is None,
        r.results.hw_bandwidth_limit_gbps is None,
        r.results.hw_efficiency_pct is None,
        r.results.layout_validation is None,
        r.results.per_consumer@.len() == 0,
{
}

/// A result with the metrics of its children has an entry for each consumer with
/// what it reported; the producer's bandwidth and data rate; the least and the
/// greatest of the consumers' throughputs, each that of some consumer; and the
/// sum of their checksums. What the children do not say stays as it was.
pub proof fn law_child_metrics_are_those_reported<F: Fn(MeanPlan) -> Metric>(
    before: BenchResults,
    producer: ProducerOutput,
    consumers: Seq<ConsumerOutput>,
    mean: F,
    after: BenchResults,
)
    requires
        has_child_metrics(before, producer, consumers, mean, after),
    ensures
        after.per_consumer@.len() == consumers.len(),
        forall|i: int|
            0 <= i < consumers.len() ==> {
                let entry = #[trigger] after.per_consumer@[i];
                &&& entry.consumer_id == consumers[i].consumer_id
                &&& entry.throughput_ops_sec == consumers[i].throughput_ops_sec
                &&& entry.events_consumed == consumers[i].events_consumed
                &&& entry.bandwidth_bytes_sec == consumers[i].bandwidth_bytes_sec
                &&& entry.data_rate_gbps == consumers[i].data_rate_gbps
                &&& entry.checksum == consumers[i].checksum
                &&& entry.latency == consumers[i].latency
                &&& entry.phase_timing == consumers[i].phase_timing
            },
        after.producer_bandwidth_bytes_sec == Some(producer.bandwidth_bytes_sec),
        after.producer_data_rate_gbps == Some(producer.data_rate_gbps),
        after.producer_throughput_ops_sec == before.producer_throughput_ops_sec,
        after.consumer_throughput_ops_sec == before.consumer_throughput_ops_sec,
        after.data_rate_mbps == before.data_rate_mbps,
        after.messages_processed == before.messages_processed,
        after.verification_passed == before.verification_passed,
        after.pct_of_raw_ring == before.pct_of_raw_ring,
        after.delta_vs_raw_ring_pct == before.delta_vs_raw_ring_pct,
        after.speedup_vs_bincode == before.speedup_vs_bincode,
        after.delta_vs_bincode_pct == before.delta_vs_bincode_pct,
        after.access_avg_ns == before.access_avg_ns,
        after.access_vs_decode_speedup == before.access_vs_decode_speedup,
        after.alloc_count == before.alloc_count,
        after.alloc_bytes == before.alloc_bytes,
        after.hw_bandwidth_limit_gbps == before.hw_bandwidth_limit_gbps,
        after.hw_efficiency_pct == before.hw_efficiency_pct,
        after.layout_validation == before.layout_validation,
        consumers.len() > 0 ==> {
            &&& after.consumer_min_throughput_ops_sec is Some
            &&& after.consumer_max_throughput_ops_sec is Some
            &&& exists|i: int|
                0 <= i < consumers.len() && (#[trigger] consumers[i]).throughput_ops_sec
                    == after.consumer_min_throughput_ops_sec->0
            &&& exists|i: int|
                0 <= i < consumers.len() && (#[trigger] consumers[i]).throughput_ops_sec
                    == after.consumer_max_throughput_ops_sec->0
            &&& forall|i: int|
                0 <= i < consumers.len() ==> after.consumer_min_throughput_ops_sec->0.total_rank()
                    <= (#[trigger] consumers[i]).throughput_ops_sec.total_rank()
                    <= after.consumer_max_throughput_ops_sec->0.total_rank()
            &&& after.consumer_checksum_total is Some
            &&& after.consumer_checksum_total->0 as nat == plain_checksum(consumers)
                % 0x1_0000_0000_0000_0000
        },
        consumers.len() == 0 ==> {
            &&& after.consumer_min_throughput_ops_sec == before.consumer_min_throughput_ops_sec
            &&& after.consumer_max_throughput_ops_sec == before.consumer_max_throughput_ops_sec
            &&& after.consumer_total_throughput_ops_sec == before.consumer_total_throughput_ops_sec
            &&& after.consumer_avg_bandwidth_bytes_sec == before.consumer_avg_bandwidth_bytes_sec
            &&& after.consumer_avg_data_rate_gbps == before.consumer_avg_data_rate_gbps
            &&& after.consumer_checksum_total == before.consumer_checksum_total
        },
{
    lemma_checksum_is_plain(consumers);
    if consumers.len() > 0 {
        let rates = throughputs(consumers);
        let low = after.consumer_min_throughput_ops_sec->0;
        let high = after.consumer_max_throughput_ops_sec->0;
        assert(rates.contains(low));
        assert(rates.contains(high));
        let i = choose|i: int| 0 <= i < rates.len() && rates[i] == low;
        let j = choose|j: int| 0 <= j < rates.len() && rates[j] == high;
        assert(consumers[i].throughput_ops_sec == low);
        assert(consumers[j].throughput_ops_sec == high);
        assert forall|i: int| 0 <= i < consumers.len() implies low.total_rank() <= (
        #[trigger] consumers[i]).throughput_ops_sec.total_rank() <= high.total_rank() by {
            assert(rates[i] == consumers[i].throughput_ops_sec);
        }
    }
}

/// The checksums of the consumers added up.
pub open spec fn plain_checksum(consumers: Seq<ConsumerOutput>) -> nat
    decreases consumers.len(),
{
    if consumers.len() == 0 {
        0
    } else {
        plain_checksum(consumers.drop_last()) + consumers.last().checksum as nat
    }
}

/// The joint checksum is the sum of the checksums in sixty-four bits.
proof fn lemma_checksum_is_plain(consumers: Seq<ConsumerOutput>)
    ensures
        checksum_total(consumers) == plain_checksum(consumers) % 0x1_0000_0000_0000_0000,
    decreases consumers.len(),
{
    if consumers.len() > 0 {
        lemma_checksum_is_plain(consumers.drop_last());
    }
}

/// The figures of the consumers together are those of all of them: the total
/// comes of their throughputs, undivided; the average bandwidth and data rate of
/// their bandwidths and data rates, divided by their number.
pub proof fn law_averages_are_over_all_consumers<F: Fn(MeanPlan) -> Metric>(
    before: BenchResults,
    producer: ProducerOutput,
    consumers: Seq<ConsumerOutput>,
    mean: F,
    after: BenchResults,
) -> (plans: (MeanPlan, MeanPlan, MeanPlan))
    requires
        has_child_metrics(before, producer, consumers, mean, after),
        consumers.len() > 0,
    ensures
        after.consumer_total_throughput_ops_sec is Some,
        call_ensures(mean, (plans.0,), after.consumer_total_throughput_ops_sec->0),
        plans.0.divisor == 1,
        plans.0.values@.len() == consumers.len(),
        forall|i: int|
            0 <= i < consumers.len() ==> plans.0.values@[i] == (
            #[trigger] consumers[i]).throughput_ops_sec,
        after.consumer_avg_bandwidth_bytes_sec is Some,
        call_ensures(mean, (plans.1,), after.consumer_avg_bandwidth_bytes_sec->0),
        plans.1.divisor == consumers.len(),
        plans.1.values@.len() == consumers.len(),
        forall|i: int|
            0 <= i < consumers.len() ==> plans.1.values@[i] == (
            #[trigger] consumers[i]).bandwidth_bytes_sec,
        after.consumer_avg_data_rate_gbps is Some,
        call_ensures(mean, (plans.2,), after.consumer_avg_data_rate_gbps->0),
        plans.2.divisor == consumers.len(),
        plans.2.values@.len() == consumers.len(),
        forall|i: int|
            0 <= i < consumers.len() ==> plans.2.values@[i] == (
            #[trigger] consumers[i]).data_rate_gbps,
{
    let total = after.consumer_total_throughput_ops_sec->0;
    let bandwidth = after.consumer_avg_bandwidth_bytes_sec->0;
    let data_rate = after.consumer_avg_data_rate_gbps->0;
    let first = choose|plan: MeanPlan| #[trigger]
        plan.divides(throughputs(consumers), 1) && mean.ensures((plan,), total);
    let second = choose|plan: MeanPlan| #[trigger]
        plan.divides(bandwidths(consumers), consumers.len()) && mean.ensures((plan,), bandwidth);
    let third = choose|plan: MeanPlan| #[trigger]
        plan.divides(data_rates(consumers), consumers.len()) && mean.ensures((plan,), data_rate);
    (first, second, third)
}

/// The phase times of a run are those of the producer for encoding and writing;
/// where a consumer reports any, reading and decoding are averages over the
/// consumers that do; where none does, the producer's own stand for all phases,
/// and where it reports none either, those from before.
pub proof fn law_phase_times_are_of_both_sides<F: Fn(MeanPlan) -> Metric>(
    before: BenchResults,
    producer: ProducerOutput,
    consumers: Seq<ConsumerOutput>,
    mean: F,
    after: BenchResults,
)
    requires
        has_child_metrics(before, producer, consumers, mean, after),
    ensures
        ({
            let some = exists|i: int|
                0 <= i < consumers.len() && (#[trigger] consumers[i]).phase_timing is Some;
            &&& some ==> after.phase_timing is Some && {
                let phases = after.phase_timing->0;
                &&& phases.transport_read_avg_ns is Some
                &&& phases.decode_avg_ns is Some
                &&& producer.phase_timing is Some ==> phases.encode_avg_ns
                    == producer.phase_timing->0.encode_avg_ns && phases.transport_write_avg_ns
                    == producer.phase_timing->0.transport_write_avg_ns
                &&& producer.phase_timing is None ==> phases.encode_avg_ns is None
                    && phases.transport_write_avg_ns is None
            }
            &&& !some && producer.phase_timing is Some ==> after.phase_timing
                == producer.phase_timing
            &&& !some && producer.phase_timing is None ==> after.phase_timing
                == before.phase_timing
        }),
        phase_timings(consumers).len() > 0 ==> exists|plan: MeanPlan| #[trigger]
            call_ensures(mean, (plan,), after.phase_timing->0.transport_read_avg_ns->0)
                && plan.values@ == read_times(consumers) && plan.divisor == phase_timings(
                consumers,
            ).len(),
        phase_timings(consumers).len() > 0 ==> exists|plan: MeanPlan| #[trigger]
            call_ensures(mean, (plan,), after.phase_timing->0.decode_avg_ns->0) && plan.values@
                == decode_times(consumers) && plan.divisor == phase_timings(consumers).len(),
{
    law_phase_averages_are_of_some(consumers);
    let timed = phase_timings(consumers).len();
    if timed > 0 {
        let read = after.phase_timing->0.transport_read_avg_ns->0;
        let decode = after.phase_timing->0.decode_avg_ns->0;
        let first = choose|plan: MeanPlan| #[trigger]
            plan.divides(read_times(consumers), timed) && mean.ensures((plan,), read);
        let second = choose|plan: MeanPlan| #[trigger]
            plan.divides(decode_times(consumers), timed) && mean.ensures((plan,), decode);
        assert(call_ensures(mean, (first,), read));
        assert(call_ensures(mean, (second,), decode));
    }
}

} // verus!
