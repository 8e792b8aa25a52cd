//! Between flat results and structured reports.
use vstd::prelude::*;
use crate::decimal::{decimal_text, law_number_reads_back, parse_usize, parsed_number};
use crate::metric::{Metric, ZERO_BITS};
use crate::report::kinds::{
    backend_name, backend_text, codec_name, codec_text, coordination_name, coordination_text,
    discovery_name, discovery_text, family_of, framing_name, framing_text, infer_family,
    law_backend_reads_back, law_codec_reads_back, law_coordination_reads_back,
    law_discovery_reads_back, law_framing_reads_back, law_measurement_reads_back,
    law_wait_strategy_reads_back, measurement_name, measurement_text, parse_backend, parse_codec,
    parse_coordination, parse_discovery, parse_framing, parse_measurement, parse_wait_strategy,
    parse_zero_copy, reads_backend, reads_codec, reads_coordination, reads_discovery,
    reads_framing, reads_measurement, reads_wait_strategy, same_backend, same_codec,
    same_coordination, same_discovery, same_framing, same_measurement, same_wait_strategy,
    wait_strategy_name, wait_strategy_text, zero_copy_enabled, DiscoveryKind, MeasurementKind,
    ZeroCopyKind,
};
use crate::report::model::{
    ConsumerAggregate, ConsumerMetrics, DerivedMetrics, LayoutOutcome, ProducerMetrics,
    ReportBundle, RunMetadata, ScenarioConfig, ScenarioIdentity, ScenarioOutcome, ScenarioReport,
    ThroughputOutcome, TransportSpec, VerificationMetrics, WorkloadConfig,
};
use crate::reporting::{
    benchmark_field, is_finalized, BenchConfig, BenchConsumerResult, BenchMetadata, BenchReport,
    BenchResult, BenchResults, DerivedValues, LayoutValidationMetrics,
};
use crate::text::{
    after_prefix, before_suffix, copied_option_text, has_prefix, has_suffix,
    law_split_cuts_at_separator, option_view, same_text, split_on, split_text, views,
};

verus! {

/// The benchmark that an identifier names: its second field, or all of it
/// where it has only one.
pub open spec fn benchmark_of(id: Seq<char>) -> Seq<char> {
    match benchmark_field(id) {
        Some(field) => field,
        None => id,
    }
}

/// What precedes the ending `b` in the first part that has one.
pub open spec fn first_before_b(parts: Seq<Seq<char>>) -> Option<Seq<char>>
    decreases parts.len(),
{
    if parts.len() == 0 {
        None
    } else if has_suffix(parts[0], "b"@) {
        Some(parts[0].take(parts[0].len() - "b"@.len()))
    } else {
        first_before_b(parts.skip(1))
    }
}

/// What follows the leading `b` in the first part that has one.
pub open spec fn first_after_b(parts: Seq<Seq<char>>) -> Option<Seq<char>>
    decreases parts.len(),
{
    if parts.len() == 0 {
        None
    } else if has_prefix(parts[0], "b"@) {
        Some(parts[0].skip("b"@.len() as int))
    } else {
        first_after_b(parts.skip(1))
    }
}

/// The batch size that a scenario's name states. Unfragmented codec scenarios
/// write `8b`, end-to-end codec scenarios `b8`; others state none.
pub open spec fn stated_batch_size(id: Seq<char>, scenario: Seq<char>) -> Option<nat> {
    let benchmark = benchmark_field(id);
    let part = if benchmark == Some("codec_nofrag_shm"@) {
        first_before_b(split_on(scenario, '_'))
    } else if benchmark == Some("codec_e2e_shm"@) || benchmark == Some("codec_e2e_mmap"@) {
        first_after_b(split_on(scenario, '_'))
    } else {
        None
    };
    match part {
        Some(digits) => parsed_number(digits, usize::MAX as nat),
        None => None,
    }
}

/// The metadata of a run, as a structured report holds it.
pub open spec fn run_metadata_of(metadata: BenchMetadata) -> RunMetadata {
    RunMetadata {
        timestamp: metadata.timestamp,
        platform: metadata.platform,
        cpu: metadata.cpu,
        git_commit: metadata.git_commit,
        rust_version: metadata.rust_version,
    }
}

/// The metadata of a run, as a flat report holds it.
pub open spec fn bench_metadata_of(metadata: RunMetadata) -> BenchMetadata {
    BenchMetadata {
        timestamp: metadata.timestamp,
        platform: metadata.platform,
        cpu: metadata.cpu,
        git_commit: metadata.git_commit,
        rust_version: metadata.rust_version,
    }
}

/// A consumer's entry, as a structured report holds it.
pub open spec fn consumer_metrics_of(entry: BenchConsumerResult) -> ConsumerMetrics {
    ConsumerMetrics {
        consumer_id: entry.consumer_id,
        throughput_ops_sec: entry.throughput_ops_sec,
        events_consumed: entry.events_consumed,
        bandwidth_bytes_sec: entry.bandwidth_bytes_sec,
        data_rate_gbps: entry.data_rate_gbps,
        checksum: entry.checksum,
        latency: entry.latency,
        phase_timing: entry.phase_timing,
    }
}

/// A consumer's entry, as a flat report holds it.
pub open spec fn consumer_entry_of(entry: ConsumerMetrics) -> BenchConsumerResult {
    BenchConsumerResult {
        consumer_id: entry.consumer_id,
        throughput_ops_sec: entry.throughput_ops_sec,
        events_consumed: entry.events_consumed,
        bandwidth_bytes_sec: entry.bandwidth_bytes_sec,
        data_rate_gbps: entry.data_rate_gbps,
        checksum: entry.checksum,
        latency: entry.latency,
        phase_timing: entry.phase_timing,
    }
}

/// `identity` says what `result` is a result of.
pub open spec fn identifies(result: BenchResult, identity: ScenarioIdentity) -> bool {
    &&& identity.benchmark_id == result.benchmark_id
    &&& identity.suite@ == split_on(result.benchmark_id@, '/')[0]
    &&& identity.benchmark@ == benchmark_of(result.benchmark_id@)
    &&& family_of(benchmark_of(result.benchmark_id@), identity.family)
    &&& identity.scenario == result.scenario
    &&& reads_backend(result.backend@, identity.backend)
    &&& identity.layer == result.layer
    &&& match (result.codec, identity.codec) {
        (None, None) => true,
        (Some(text), Some(kind)) => reads_codec(text@, kind),
        _ => false,
    }
}

/// `transport` says what transport `result` was measured on.
pub open spec fn describes_transport(result: BenchResult, transport: TransportSpec) -> bool {
    &&& reads_wait_strategy(result.wait_strategy@, transport.wait_strategy)
    &&& match (result.config.coordination, transport.coordination) {
        (None, None) => true,
        (Some(text), Some(kind)) => reads_coordination(text@, kind),
        _ => false,
    }
    &&& match (result.config.discovery_mode, transport.discovery) {
        (None, None) => true,
        (Some(text), Some(kind)) => reads_discovery(text@, kind),
        _ => false,
    }
    &&& match (result.config.framing, transport.framing) {
        (None, None) => true,
        (Some(text), Some(kind)) => reads_framing(text@, kind),
        _ => false,
    }
    &&& match (result.config.zero_copy, transport.zero_copy) {
        (None, None) => true,
        (Some(flag), Some(kind)) => flag == (kind == ZeroCopyKind::Enabled),
        _ => false,
    }
}

/// `workload` says what load `result` was measured under.
pub open spec fn describes_workload(result: BenchResult, workload: WorkloadConfig) -> bool {
    &&& workload == (WorkloadConfig {
        message_size_bytes: result.config.message_size_bytes,
        payload_bytes: result.config.payload_bytes,
        buffer_depth: result.config.buffer_depth,
        num_messages: result.config.num_messages,
        warmup_messages: result.config.warmup_messages,
        num_producers: result.config.num_producers,
        num_consumers: result.config.num_consumers,
        batch_size: workload.batch_size,
    })
    &&& match workload.batch_size {
        Some(size) => stated_batch_size(result.benchmark_id@, result.scenario@) == Some(
            size as nat,
        ),
        None => stated_batch_size(result.benchmark_id@, result.scenario@) is None,
    }
}

/// `outcome` holds the figures of `result`: the layout figures where it has
/// them, the throughput figures otherwise.
pub open spec fn holds_figures(result: BenchResult, outcome: ScenarioOutcome) -> bool {
    match (result.results.layout_validation, outcome) {
        (Some(layout), ScenarioOutcome::Layout(o)) => o == (LayoutOutcome {
            avg_ns: layout.avg_ns,
            budget_ns: layout.budget_ns,
            iterations: layout.iterations,
            pass: layout.pass,
        }),
        (None, ScenarioOutcome::Throughput(o)) => holds_throughput(result, o),
        _ => false,
    }
}

/// `outcome` holds the throughput figures of `result`.
pub open spec fn holds_throughput(result: BenchResult, outcome: ThroughputOutcome) -> bool {
    let figures = result.results;
    &&& outcome.per_consumer@ == Seq::new(
        figures.per_consumer@.len(),
        |i: int| consumer_metrics_of(figures.per_consumer@[i]),
    )
    &&& outcome == (ThroughputOutcome {
        producer: ProducerMetrics {
            throughput_ops_sec: figures.producer_throughput_ops_sec,
            bandwidth_bytes_sec: figures.producer_bandwidth_bytes_sec,
            data_rate_gbps: figures.producer_data_rate_gbps,
            data_rate_mbps: figures.data_rate_mbps,
        },
        consumers: ConsumerAggregate {
            average_throughput_ops_sec: figures.consumer_throughput_ops_sec,
            min_throughput_ops_sec: figures.consumer_min_throughput_ops_sec,
            max_throughput_ops_sec: figures.consumer_max_throughput_ops_sec,
            total_throughput_ops_sec: figures.consumer_total_throughput_ops_sec,
            average_bandwidth_bytes_sec: figures.consumer_avg_bandwidth_bytes_sec,
            average_data_rate_gbps: figures.consumer_avg_data_rate_gbps,
            checksum_total: figures.consumer_checksum_total,
        },
        per_consumer: outcome.per_consumer,
        verification: VerificationMetrics {
            passed: figures.verification_passed,
            messages_processed: figures.messages_processed,
        },
        latency: result.latency,
        phase_timing: figures.phase_timing,
        derived: DerivedMetrics {
            pct_of_raw_ring: figures.pct_of_raw_ring,
            delta_vs_raw_ring_pct: figures.delta_vs_raw_ring_pct,
            speedup_vs_bincode: figures.speedup_vs_bincode,
            delta_vs_bincode_pct: figures.delta_vs_bincode_pct,
            access_avg_ns: figures.access_avg_ns,
            access_vs_decode_speedup: figures.access_vs_decode_speedup,
            alloc_count: figures.alloc_count,
            alloc_bytes: figures.alloc_bytes,
            hw_bandwidth_limit_gbps: figures.hw_bandwidth_limit_gbps,
            hw_efficiency_pct: figures.hw_efficiency_pct,
        },
    })
}

/// `scenario` is the structured report of `result`.
pub open spec fn adapts(result: BenchResult, scenario: ScenarioReport) -> bool {
    &&& identifies(result, scenario.identity)
    &&& reads_measurement(result.measurement_mode@, scenario.config.measurement)
    &&& describes_transport(result, scenario.config.transport)
    &&& describes_workload(result, scenario.config.workload)
    &&& holds_figures(result, scenario.outcome)
    &&& scenario.metadata == run_metadata_of(result.metadata)
}

/// `result` names what `scenario` classifies.
pub open spec fn names_scenario(scenario: ScenarioReport, result: BenchResult) -> bool {
    &&& result.benchmark_id == scenario.identity.benchmark_id
    &&& result.scenario == scenario.identity.scenario
    &&& result.backend@ == backend_text(scenario.identity.backend)
    &&& result.layer == scenario.identity.layer
    &&& match (scenario.identity.codec, result.codec) {
        (None, None) => true,
        (Some(kind), Some(text)) => text@ == codec_text(kind),
        _ => false,
    }
    &&& result.measurement_mode@ == measurement_text(scenario.config.measurement)
    &&& result.wait_strategy@ == wait_strategy_text(scenario.config.transport.wait_strategy)
    &&& result.metadata == bench_metadata_of(scenario.metadata)
}

/// `config` names the configuration of a scenario.
pub open spec fn names_config(scenario: ScenarioConfig, config: BenchConfig) -> bool {
    &&& config == (BenchConfig {
        message_size_bytes: scenario.workload.message_size_bytes,
        payload_bytes: scenario.workload.payload_bytes,
        buffer_depth: scenario.workload.buffer_depth,
        num_messages: scenario.workload.num_messages,
        warmup_messages: scenario.workload.warmup_messages,
        num_producers: scenario.workload.num_producers,
        num_consumers: scenario.workload.num_consumers,
        coordination: config.coordination,
        discovery_mode: config.discovery_mode,
        zero_copy: match scenario.transport.zero_copy {
            Some(kind) => Some(kind == ZeroCopyKind::Enabled),
            None => None,
        },
        framing: config.framing,
    })
    &&& match (scenario.transport.coordination, config.coordination) {
        (None, None) => true,
        (Some(kind), Some(text)) => text@ == coordination_text(kind),
        _ => false,
    }
    &&& match (scenario.transport.discovery, config.discovery_mode) {
        (None, None) => true,
        (Some(kind), Some(text)) => text@ == discovery_text(kind),
        _ => false,
    }
    &&& match (scenario.transport.framing, config.framing) {
        (None, None) => true,
        (Some(kind), Some(text)) => text@ == framing_text(kind),
        _ => false,
    }
}

/// The figures of a throughput outcome, without those per consumer.
pub open spec fn throughput_figures(
    outcome: ThroughputOutcome,
    per_consumer: Vec<BenchConsumerResult>,
) -> BenchResults {
    BenchResults {
        producer_throughput_ops_sec: outcome.producer.throughput_ops_sec,
        consumer_throughput_ops_sec: outcome.consumers.average_throughput_ops_sec,
        data_rate_mbps: outcome.producer.data_rate_mbps,
        messages_processed: outcome.verification.messages_processed,
        verification_passed: outcome.verification.passed,
        producer_bandwidth_bytes_sec: outcome.producer.bandwidth_bytes_sec,
        producer_data_rate_gbps: outcome.producer.data_rate_gbps,
        consumer_avg_bandwidth_bytes_sec: outcome.consumers.average_bandwidth_bytes_sec,
        consumer_avg_data_rate_gbps: outcome.consumers.average_data_rate_gbps,
        consumer_min_throughput_ops_sec: outcome.consumers.min_throughput_ops_sec,
        consumer_max_throughput_ops_sec: outcome.consumers.max_throughput_ops_sec,
        consumer_total_throughput_ops_sec: outcome.consumers.total_throughput_ops_sec,
        consumer_checksum_total: outcome.consumers.checksum_total,
        phase_timing: outcome.phase_timing,
        pct_of_raw_ring: outcome.derived.pct_of_raw_ring,
        delta_vs_raw_ring_pct: outcome.derived.delta_vs_raw_ring_pct,
        speedup_vs_bincode: outcome.derived.speedup_vs_bincode,
        delta_vs_bincode_pct: outcome.derived.delta_vs_bincode_pct,
        access_avg_ns: outcome.derived.access_avg_ns,
        access_vs_decode_speedup: outcome.derived.access_vs_decode_speedup,
        alloc_count: outcome.derived.alloc_count,
        alloc_bytes: outcome.derived.alloc_bytes,
        hw_bandwidth_limit_gbps: outcome.derived.hw_bandwidth_limit_gbps,
        hw_efficiency_pct: outcome.derived.hw_efficiency_pct,
        per_consumer,
        layout_validation: None,
    }
}

/// The figures of a layout outcome: the layout figures, and no throughput.
pub open spec fn layout_figures(
    layout: LayoutOutcome,
    per_consumer: Vec<BenchConsumerResult>,
) -> BenchResults {
    BenchResults {
        producer_throughput_ops_sec: Metric { bits: ZERO_BITS },
        consumer_throughput_ops_sec: Metric { bits: ZERO_BITS },
        data_rate_mbps: Metric { bits: ZERO_BITS },
        messages_processed: 0,
        verification_passed: layout.pass,
        producer_bandwidth_bytes_sec: None,
        producer_data_rate_gbps: None,
        consumer_avg_bandwidth_bytes_sec: None,
        consumer_avg_data_rate_gbps: None,
        consumer_min_throughput_ops_sec: None,
        consumer_max_throughput_ops_sec: None,
        consumer_total_throughput_ops_sec: None,
        consumer_checksum_total: None,
        phase_timing: None,
        pct_of_raw_ring: None,
        delta_vs_raw_ring_pct: None,
        speedup_vs_bincode: None,
        delta_vs_bincode_pct: None,
        access_avg_ns: None,
        access_vs_decode_speedup: None,
        alloc_count: None,
        alloc_bytes: None,
        hw_bandwidth_limit_gbps: None,
        hw_efficiency_pct: None,
        per_consumer,
        layout_validation: Some(
            LayoutValidationMetrics {
                avg_ns: layout.avg_ns,
                budget_ns: layout.budget_ns,
                pass: layout.pass,
                iterations: layout.iterations,
            },
        ),
    }
}

/// `result` holds the figures of `outcome`.
pub open spec fn restores_figures(outcome: ScenarioOutcome, result: BenchResult) -> bool {
    match outcome {
        ScenarioOutcome::Throughput(o) => {
            &&& result.results == throughput_figures(o, result.results.per_consumer)
            &&& result.results.per_consumer@ == Seq::new(
                o.per_consumer@.len(),
                |i: int| consumer_entry_of(o.per_consumer@[i]),
            )
            &&& result.latency == o.latency
        },
        ScenarioOutcome::Layout(o) => {
            &&& result.results == layout_figures(o, result.results.per_consumer)
            &&& result.results.per_consumer@.len() == 0
            &&& result.latency is None
        },
    }
}

/// `result` is the flat result of `scenario`.
pub open spec fn restores(scenario: ScenarioReport, result: BenchResult) -> bool {
    &&& names_scenario(scenario, result)
    &&& names_config(scenario.config, result.config)
    &&& restores_figures(scenario.outcome, result)
}

/// The suite and the benchmark that an identifier names.
pub fn parse_benchmark_id(benchmark_id: &str) -> (r: (String, String))
    ensures
        r.0@ == split_on(benchmark_id@, '/')[0],
        r.1@ == benchmark_of(benchmark_id@),
{
    let fields = split_text(benchmark_id, '/');
    assert(views(fields@)[0] == fields@[0]@);
    let suite = fields[0].clone();
    let benchmark = if fields.len() > 1 {
        assert(views(fields@)[1] == fields@[1]@);
        fields[1].clone()
    } else {
        benchmark_id.to_owned()
    };
    (suite, benchmark)
}

/// The batch size that a scenario's name states.
pub fn batch_size_from_result(result: &BenchResult) -> (r: Option<usize>)
    ensures
        match r {
            Some(size) => stated_batch_size(result.benchmark_id@, result.scenario@) == Some(
                size as nat,
            ),
            None => stated_batch_size(result.benchmark_id@, result.scenario@) is None,
        },
{
    let fields = split_text(result.benchmark_id.as_str(), '/');
    if fields.len() < 2 {
        return None;
    }
    assert(views(fields@)[1] == fields@[1]@);
    let benchmark = fields[1].as_str();
    let parts = split_text(result.scenario.as_str(), '_');
    let ghost all = split_on(result.scenario@, '_');
    proof {
        reveal_strlit("codec_nofrag_shm");
        reveal_strlit("codec_e2e_shm");
        reveal_strlit("codec_e2e_mmap");
        assert("codec_nofrag_shm"@.len() == 16);
        assert("codec_e2e_shm"@.len() == 13);
        assert("codec_e2e_mmap"@.len() == 14);
        assert(all.skip(0) =~= all);
    }
    if same_text(benchmark, "codec_nofrag_shm") {
        for i in 0..parts.len()
            invariant
                views(parts@) == all,
                first_before_b(all) == first_before_b(all.skip(i as int)),
                benchmark_field(result.benchmark_id@) == Some("codec_nofrag_shm"@),
                all == split_on(result.scenario@, '_'),
        {
            assert(all[i as int] == parts@[i as int]@);
            assert(all.skip(i as int)[0] == all[i as int]);
            assert(all.skip(i as int).skip(1) =~= all.skip(i + 1));
            if let Some(digits) = before_suffix(parts[i].as_str(), "b") {
                return parse_usize(digits.as_str());
            }
        }
        return None;
    }
    if same_text(benchmark, "codec_e2e_shm") || same_text(benchmark, "codec_e2e_mmap") {
        for i in 0..parts.len()
            invariant
                views(parts@) == all,
                first_after_b(all) == first_after_b(all.skip(i as int)),
                benchmark_field(result.benchmark_id@) == Some("codec_e2e_shm"@) || benchmark_field(
                    result.benchmark_id@,
                ) == Some("codec_e2e_mmap"@),
                benchmark_field(result.benchmark_id@) != Some("codec_nofrag_shm"@),
                all == split_on(result.scenario@, '_'),
        {
            assert(all[i as int] == parts@[i as int]@);
            assert(all.skip(i as int)[0] == all[i as int]);
            assert(all.skip(i as int).skip(1) =~= all.skip(i + 1));
            if let Some(digits) = after_prefix(parts[i].as_str(), "b") {
                return parse_usize(digits.as_str());
            }
        }
        return None;
    }
    None
}

/// The metadata of a run, as a structured report holds it.
pub fn run_metadata(metadata: &BenchMetadata) -> (r: RunMetadata)
    ensures
        r == run_metadata_of(*metadata),
{
    RunMetadata {
        timestamp: metadata.timestamp.clone(),
        platform: metadata.platform.clone(),
        cpu: metadata.cpu.clone(),
        git_commit: copied_option_text(&metadata.git_commit),
        rust_version: metadata.rust_version.clone(),
    }
}

/// The metadata of a run, as a flat report holds it.
pub fn bench_metadata(metadata: &RunMetadata) -> (r: BenchMetadata)
    ensures
        r == bench_metadata_of(*metadata),
{
    BenchMetadata {
        timestamp: metadata.timestamp.clone(),
        platform: metadata.platform.clone(),
        cpu: metadata.cpu.clone(),
        git_commit: copied_option_text(&metadata.git_commit),
        rust_version: metadata.rust_version.clone(),
    }
}

/// The figures of a result, as a structured report holds them.
pub fn adapt_outcome(result: &BenchResult) -> (r: ScenarioOutcome)
    ensures
        holds_figures(*result, r),
{
    if let Some(layout) = &result.results.layout_validation {
        return ScenarioOutcome::Layout(
            LayoutOutcome {
                avg_ns: layout.avg_ns,
                budget_ns: layout.budget_ns,
                iterations: layout.iterations,
                pass: layout.pass,
            },
        );
    }
    let figures = &result.results;
    let mut per_consumer: Vec<ConsumerMetrics> = Vec::new();
    for i in 0..figures.per_consumer.len()
        invariant
            per_consumer@ == Seq::new(
                i as nat,
                |k: int| consumer_metrics_of(figures.per_consumer@[k]),
            ),
    {
        let entry = figures.per_consumer[i];
        per_consumer.push(
            ConsumerMetrics {
                consumer_id: entry.consumer_id,
                throughput_ops_sec: entry.throughput_ops_sec,
                events_consumed: entry.events_consumed,
                bandwidth_bytes_sec: entry.bandwidth_bytes_sec,
                data_rate_gbps: entry.data_rate_gbps,
                checksum: entry.checksum,
                latency: entry.latency,
                phase_timing: entry.phase_timing,
            },
        );
        assert(per_consumer@ =~= Seq::new(
            (i + 1) as nat,
            |k: int| consumer_metrics_of(figures.per_consumer@[k]),
        ));
    }
    ScenarioOutcome::Throughput(
        ThroughputOutcome {
            producer: ProducerMetrics {
                throughput_ops_sec: figures.producer_throughput_ops_sec,
                bandwidth_bytes_sec: figures.producer_bandwidth_bytes_sec,
                data_rate_gbps: figures.producer_data_rate_gbps,
                data_rate_mbps: figures.data_rate_mbps,
            },
            consumers: ConsumerAggregate {
                average_throughput_ops_sec: figures.consumer_throughput_ops_sec,
                min_throughput_ops_sec: figures.consumer_min_throughput_ops_sec,
                max_throughput_ops_sec: figures.consumer_max_throughput_ops_sec,
                total_throughput_ops_sec: figures.consumer_total_throughput_ops_sec,
                average_bandwidth_bytes_sec: figures.consumer_avg_bandwidth_bytes_sec,
                average_data_rate_gbps: figures.consumer_avg_data_rate_gbps,
                checksum_total: figures.consumer_checksum_total,
            },
            per_consumer,
            verification: VerificationMetrics {
                passed: figures.verification_passed,
                messages_processed: figures.messages_processed,
            },
            latency: result.latency,
            phase_timing: figures.phase_timing,
            derived: DerivedMetrics {
                pct_of_raw_ring: figures.pct_of_raw_ring,
                delta_vs_raw_ring_pct: figures.delta_vs_raw_ring_pct,
                speedup_vs_bincode: figures.speedup_vs_bincode,
                delta_vs_bincode_pct: figures.delta_vs_bincode_pct,
                access_avg_ns: figures.access_avg_ns,
                access_vs_decode_speedup: figures.access_vs_decode_speedup,
                alloc_count: figures.alloc_count,
                alloc_bytes: figures.alloc_bytes,
                hw_bandwidth_limit_gbps: figures.hw_bandwidth_limit_gbps,
                hw_efficiency_pct: figures.hw_efficiency_pct,
            },
        },
    )
}

/// The structured report of a result.
pub fn adapt_scenario(result: &BenchResult) -> (r: ScenarioReport)
    ensures
        adapts(*result, r),
{
    let (suite, benchmark) = parse_benchmark_id(result.benchmark_id.as_str());
    let family = infer_family(benchmark.as_str());
    ScenarioReport {
        identity: ScenarioIdentity {
            benchmark_id: result.benchmark_id.clone(),
            suite,
            benchmark,
            family,
            scenario: result.scenario.clone(),
            backend: parse_backend(result.backend.as_str()),
            layer: result.layer.clone(),
            codec: match &result.codec {
                Some(text) => Some(parse_codec(text.as_str())),
                None => None,
            },
        },
        config: ScenarioConfig {
            measurement: parse_measurement(result.measurement_mode.as_str()),
            transport: TransportSpec {
                wait_strategy: parse_wait_strategy(result.wait_strategy.as_str()),
                coordination: match &result.config.coordination {
                    Some(text) => Some(parse_coordination(text.as_str())),
                    None => None,
                },
                discovery: match &result.config.discovery_mode {
                    Some(text) => Some(parse_discovery(text.as_str())),
                    None => None,
                },
                framing: match &result.config.framing {
                    Some(text) => Some(parse_framing(text.as_str())),
                    None => None,
                },
                zero_copy: match result.config.zero_copy {
                    Some(flag) => Some(parse_zero_copy(flag)),
                    None => None,
                },
            },
            workload: WorkloadConfig {
                message_size_bytes: result.config.message_size_bytes,
                payload_bytes: result.config.payload_bytes,
                buffer_depth: result.config.buffer_depth,
                num_messages: result.config.num_messages,
                warmup_messages: result.config.warmup_messages,
                num_producers: result.config.num_producers,
                num_consumers: result.config.num_consumers,
                batch_size: batch_size_from_result(result),
            },
        },
        outcome: adapt_outcome(result),
        metadata: run_metadata(&result.metadata),
    }
}

/// The names of a scenario's configuration.
fn config_names(config: &ScenarioConfig) -> (r: BenchConfig)
    ensures
        names_config(*config, r),
{
    BenchConfig {
        message_size_bytes: config.workload.message_size_bytes,
        payload_bytes: config.workload.payload_bytes,
        buffer_depth: config.workload.buffer_depth,
        num_messages: config.workload.num_messages,
        warmup_messages: config.workload.warmup_messages,
        num_producers: config.workload.num_producers,
        num_consumers: config.workload.num_consumers,
        coordination: match &config.transport.coordination {
            Some(kind) => Some(coordination_name(kind)),
            None => None,
        },
        discovery_mode: match &config.transport.discovery {
            Some(kind) => Some(discovery_name(kind)),
            None => None,
        },
        zero_copy: match &config.transport.zero_copy {
            Some(kind) => Some(zero_copy_enabled(kind)),
            None => None,
        },
        framing: match &config.transport.framing {
            Some(kind) => Some(framing_name(kind)),
            None => None,
        },
    }
}

/// The flat figures of a throughput outcome.
fn restore_throughput(outcome: &ThroughputOutcome) -> (r: BenchResults)
    ensures
        r == throughput_figures(*outcome, r.per_consumer),
        r.per_consumer@ == Seq::new(
            outcome.per_consumer@.len(),
            |i: int| consumer_entry_of(outcome.per_consumer@[i]),
        ),
{
    let mut per_consumer: Vec<BenchConsumerResult> = Vec::new();
    for i in 0..outcome.per_consumer.len()
        invariant
            per_consumer@ == Seq::new(
                i as nat,
                |k: int| consumer_entry_of(outcome.per_consumer@[k]),
            ),
    {
        let entry = outcome.per_consumer[i];
        per_consumer.push(
            BenchConsumerResult {
                consumer_id: entry.consumer_id,
                throughput_ops_sec: entry.throughput_ops_sec,
                events_consumed: entry.events_consumed,
                bandwidth_bytes_sec: entry.bandwidth_bytes_sec,
                data_rate_gbps: entry.data_rate_gbps,
                checksum: entry.checksum,
                latency: entry.latency,
                phase_timing: entry.phase_timing,
            },
        );
        assert(per_consumer@ =~= Seq::new(
            (i + 1) as nat,
            |k: int| consumer_entry_of(outcome.per_consumer@[k]),
        ));
    }
    BenchResults {
        producer_throughput_ops_sec: outcome.producer.throughput_ops_sec,
        consumer_throughput_ops_sec: outcome.consumers.average_throughput_ops_sec,
        data_rate_mbps: outcome.producer.data_rate_mbps,
        messages_processed: outcome.verification.messages_processed,
        verification_passed: outcome.verification.passed,
        producer_bandwidth_bytes_sec: outcome.producer.bandwidth_bytes_sec,
        producer_data_rate_gbps: outcome.producer.data_rate_gbps,
        consumer_avg_bandwidth_bytes_sec: outcome.consumers.average_bandwidth_bytes_sec,
        consumer_avg_data_rate_gbps: outcome.consumers.average_data_rate_gbps,
        consumer_min_throughput_ops_sec: outcome.consumers.min_throughput_ops_sec,
        consumer_max_throughput_ops_sec: outcome.consumers.max_throughput_ops_sec,
        consumer_total_throughput_ops_sec: outcome.consumers.total_throughput_ops_sec,
        consumer_checksum_total: outcome.consumers.checksum_total,
        phase_timing: outcome.phase_timing,
        pct_of_raw_ring: outcome.derived.pct_of_raw_ring,
        delta_vs_raw_ring_pct: outcome.derived.delta_vs_raw_ring_pct,
        speedup_vs_bincode: outcome.derived.speedup_vs_bincode,
        delta_vs_bincode_pct: outcome.derived.delta_vs_bincode_pct,
        access_avg_ns: outcome.derived.access_avg_ns,
        access_vs_decode_speedup: outcome.derived.access_vs_decode_speedup,
        alloc_count: outcome.derived.alloc_count,
        alloc_bytes: outcome.derived.alloc_bytes,
        hw_bandwidth_limit_gbps: outcome.derived.hw_bandwidth_limit_gbps,
        hw_efficiency_pct: outcome.derived.hw_efficiency_pct,
        per_consumer,
        layout_validation: None,
    }
}

/// The flat figures of a layout outcome.
fn restore_layout(layout: &LayoutOutcome) -> (r: BenchResults)
    ensures
        r == layout_figures(*layout, r.per_consumer),
        r.per_consumer@.len() == 0,
{
    BenchResults {
        producer_throughput_ops_sec: Metric::zero(),
        consumer_throughput_ops_sec: Metric::zero(),
        data_rate_mbps: Metric::zero(),
        messages_processed: 0,
        verification_passed: layout.pass,
        producer_bandwidth_bytes_sec: None,
        producer_data_rate_gbps: None,
        consumer_avg_bandwidth_bytes_sec: None,
        consumer_avg_data_rate_gbps: None,
        consumer_min_throughput_ops_sec: None,
        consumer_max_throughput_ops_sec: None,
        consumer_total_throughput_ops_sec: None,
        consumer_checksum_total: None,
        phase_timing: None,
        pct_of_raw_ring: None,
        delta_vs_raw_ring_pct: None,
        speedup_vs_bincode: None,
        delta_vs_bincode_pct: None,
        access_avg_ns: None,
        access_vs_decode_speedup: None,
        alloc_count: None,
        alloc_bytes: None,
        hw_bandwidth_limit_gbps: None,
        hw_efficiency_pct: None,
        per_consumer: Vec::new(),
        layout_validation: Some(
            LayoutValidationMetrics {
                avg_ns: layout.avg_ns,
                budget_ns: layout.budget_ns,
                pass: layout.pass,
                iterations: layout.iterations,
            },
        ),
    }
}

/// The flat result of a scenario.
pub fn adapt_scenario_back(scenario: &ScenarioReport) -> (r: BenchResult)
    ensures
        restores(*scenario, r),
{
    let (results, latency) = match &scenario.outcome {
        ScenarioOutcome::Throughput(outcome) => (restore_throughput(outcome), outcome.latency),
        ScenarioOutcome::Layout(layout) => (restore_layout(layout), None),
    };
    BenchResult {
        benchmark_id: scenario.identity.benchmark_id.clone(),
        scenario: scenario.identity.scenario.clone(),
        backend: backend_name(&scenario.identity.backend),
        layer: scenario.identity.layer.clone(),
        codec: match &scenario.identity.codec {
            Some(kind) => Some(codec_name(kind)),
            None => None,
        },
        measurement_mode: measurement_name(&scenario.config.measurement),
        wait_strategy: wait_strategy_name(&scenario.config.transport.wait_strategy),
        config: config_names(&scenario.config),
        results,
        latency,
        metadata: bench_metadata(&scenario.metadata),
    }
}

/// Every scenario is the structured report of the result in its place.
pub open spec fn bundles(results: Seq<BenchResult>, scenarios: Seq<ScenarioReport>) -> bool {
    &&& scenarios.len() == results.len()
    &&& forall|i: int|
        0 <= i < results.len() ==> #[trigger] adapts(results[i], scenarios[i])
}

/// What can be turned into a structured report.
pub trait ReportBundleCompat {
    /// The derived figures that the report takes in fit.
    spec fn takes_derived(&self, derived: Seq<DerivedValues>) -> bool;

    /// `bundle` is the structured report.
    spec fn bundles_to(&self, derived: Seq<DerivedValues>, bundle: ReportBundle) -> bool;

    /// The structured report, with derived figures in place.
    fn to_report(&self, derived: &Vec<DerivedValues>) -> (r: ReportBundle)
        requires
            self.takes_derived(derived@),
        ensures
            self.bundles_to(derived@, r),
    ;
}

/// What can be turned into a flat report.
pub trait BenchReportCompat {
    /// `report` is the flat report.
    spec fn flattens_to(&self, report: BenchReport) -> bool;

    /// The flat report.
    fn to_report_v1_compat(&self) -> (r: BenchReport)
        ensures
            self.flattens_to(r),
    ;
}

impl ReportBundleCompat for BenchReport {
    open spec fn takes_derived(&self, derived: Seq<DerivedValues>) -> bool {
        derived.len() == self.results@.len()
    }

    open spec fn bundles_to(&self, derived: Seq<DerivedValues>, bundle: ReportBundle) -> bool {
        &&& bundle.metadata == run_metadata_of(self.metadata)
        &&& exists|finalized: Seq<BenchResult>| #[trigger]
            is_finalized(self.results@, finalized, derived) && bundles(
                finalized,
                bundle.scenarios@,
            )
    }

    fn to_report(&self, derived: &Vec<DerivedValues>) -> (r: ReportBundle) {
        let finalized = self.finalized(derived);
        let mut scenarios: Vec<ScenarioReport> = Vec::new();
        for i in 0..finalized.results.len()
            invariant
                scenarios@.len() == i,
                forall|k: int|
                    0 <= k < i ==> #[trigger] adapts(finalized.results@[k], scenarios@[k]),
        {
            scenarios.push(adapt_scenario(&finalized.results[i]));
        }
        assert(is_finalized(self.results@, finalized.results@, derived@));
        assert(bundles(finalized.results@, scenarios@));
        ReportBundle { metadata: run_metadata(&finalized.metadata), scenarios }
    }
}

impl BenchReportCompat for ReportBundle {
    open spec fn flattens_to(&self, report: BenchReport) -> bool {
        &&& report.metadata == bench_metadata_of(self.metadata)
        &&& report.results@.len() == self.scenarios@.len()
        &&& forall|i: int|
            0 <= i < self.scenarios@.len() ==> #[trigger] restores(
                self.scenarios@[i],
                report.results@[i],
            )
    }

    fn to_report_v1_compat(&self) -> (r: BenchReport) {
        let mut results: Vec<BenchResult> = Vec::new();
        for i in 0..self.scenarios.len()
            invariant
                results@.len() == i,
                forall|k: int|
                    0 <= k < i ==> #[trigger] restores(self.scenarios@[k], results@[k]),
        {
            results.push(adapt_scenario_back(&self.scenarios[i]));
        }
        BenchReport { metadata: bench_metadata(&self.metadata), results }
    }
}

/// The two results say the same.
pub open spec fn same_result(a: BenchResult, b: BenchResult) -> bool {
    &&& a.benchmark_id@ == b.benchmark_id@
    &&& a.scenario@ == b.scenario@
    &&& a.backend@ == b.backend@
    &&& a.layer@ == b.layer@
    &&& option_view(a.codec) == option_view(b.codec)
    &&& a.measurement_mode@ == b.measurement_mode@
    &&& a.wait_strategy@ == b.wait_strategy@
    &&& option_view(a.config.coordination) == option_view(b.config.coordination)
    &&& option_view(a.config.discovery_mode) == option_view(b.config.discovery_mode)
    &&& option_view(a.config.framing) == option_view(b.config.framing)
    &&& a.config == (BenchConfig {
        coordination: a.config.coordination,
        discovery_mode: a.config.discovery_mode,
        framing: a.config.framing,
        ..b.config
    })
    &&& a.results.agrees_with(b.results)
    &&& a.latency == b.latency
    &&& a.metadata == b.metadata
}

/// The two transports are one.
pub open spec fn same_transport(a: TransportSpec, b: TransportSpec) -> bool {
    &&& same_wait_strategy(a.wait_strategy, b.wait_strategy)
    &&& match (a.coordination, b.coordination) {
        (None, None) => true,
        (Some(x), Some(y)) => same_coordination(x, y),
        _ => false,
    }
    &&& match (a.discovery, b.discovery) {
        (None, None) => true,
        (Some(x), Some(y)) => same_discovery(x, y),
        _ => false,
    }
    &&& match (a.framing, b.framing) {
        (None, None) => true,
        (Some(x), Some(y)) => same_framing(x, y),
        _ => false,
    }
    &&& a.zero_copy == b.zero_copy
}

/// The two scenarios say the same, but for the family, which goes by the
/// benchmark.
pub open spec fn same_scenario(a: ScenarioReport, b: ScenarioReport) -> bool {
    &&& a.identity.benchmark_id@ == b.identity.benchmark_id@
    &&& a.identity.suite@ == b.identity.suite@
    &&& a.identity.benchmark@ == b.identity.benchmark@
    &&& a.identity.scenario@ == b.identity.scenario@
    &&& same_backend(a.identity.backend, b.identity.backend)
    &&& a.identity.layer@ == b.identity.layer@
    &&& match (a.identity.codec, b.identity.codec) {
        (None, None) => true,
        (Some(x), Some(y)) => same_codec(x, y),
        _ => false,
    }
    &&& same_measurement(a.config.measurement, b.config.measurement)
    &&& same_transport(a.config.transport, b.config.transport)
    &&& a.config.workload == b.config.workload
    &&& match (a.outcome, b.outcome) {
        (ScenarioOutcome::Layout(x), ScenarioOutcome::Layout(y)) => x == y,
        (ScenarioOutcome::Throughput(x), ScenarioOutcome::Throughput(y)) => {
            &&& x == (ThroughputOutcome { per_consumer: x.per_consumer, ..y })
            &&& x.per_consumer@ == y.per_consumer@
        },
        _ => false,
    }
    &&& a.metadata == b.metadata
}

/// A text that was read and written as it is: a discovery mode of the form
/// `enabled(n)`, or a measurement of the form `co_aware@n`, gives its number
/// in plain decimal notation.
pub open spec fn is_canonical(result: BenchResult) -> bool {
    &&& match result.config.discovery_mode {
        Some(text) => forall|kind: DiscoveryKind| #[trigger]
            reads_discovery(text@, kind) ==> discovery_text(kind) == text@,
        None => true,
    }
    &&& forall|kind: MeasurementKind| #[trigger]
        reads_measurement(result.measurement_mode@, kind) ==> measurement_text(kind)
            == result.measurement_mode@
}

/// Structuring a throughput result and flattening it again keeps all of it.
/// Numbers that its names spell otherwise than in plain decimal notation are
/// respelled.
pub proof fn law_structured_report_keeps_result(
    result: BenchResult,
    scenario: ScenarioReport,
    back: BenchResult,
)
    requires
        adapts(result, scenario),
        restores(scenario, back),
        result.results.layout_validation is None,
        is_canonical(result),
    ensures
        same_result(back, result),
{
    assert(reads_measurement(result.measurement_mode@, scenario.config.measurement));
    if let Some(kind) = scenario.config.transport.discovery {
        assert(reads_discovery(result.config.discovery_mode->0@, kind));
    }
    let outcome = scenario.outcome->Throughput_0;
    assert(back.results.per_consumer@ =~= result.results.per_consumer@);
}

/// Structuring a layout result and flattening it again keeps its layout
/// figures and its verdict, and drops figures of throughput.
pub proof fn law_structured_report_keeps_layout(
    result: BenchResult,
    scenario: ScenarioReport,
    back: BenchResult,
)
    requires
        adapts(result, scenario),
        restores(scenario, back),
        result.results.layout_validation is Some,
    ensures
        back.results.layout_validation == result.results.layout_validation,
        back.results.verification_passed == result.results.layout_validation->0.pass,
        back.results.producer_throughput_ops_sec.bits == ZERO_BITS,
        back.results.consumer_throughput_ops_sec.bits == ZERO_BITS,
        back.results.per_consumer@.len() == 0,
        back.latency is None,
{
}

/// A structured report that was flattened gives the same structured report.
pub proof fn law_flat_report_keeps_scenario(
    result: BenchResult,
    scenario: ScenarioReport,
    back: BenchResult,
    again: ScenarioReport,
)
    requires
        adapts(result, scenario),
        restores(scenario, back),
        adapts(back, again),
    ensures
        same_scenario(scenario, again),
{
    law_backend_reads_back(scenario.identity.backend, again.identity.backend);
    if let Some(kind) = scenario.identity.codec {
        law_codec_reads_back(kind, again.identity.codec->0);
    }
    law_measurement_reads_back(scenario.config.measurement, again.config.measurement);
    let before = scenario.config.transport;
    let after = again.config.transport;
    law_wait_strategy_reads_back(before.wait_strategy, after.wait_strategy);
    if let Some(kind) = before.coordination {
        law_coordination_reads_back(kind, after.coordination->0);
    }
    if let Some(kind) = before.discovery {
        law_discovery_reads_back(kind, after.discovery->0);
    }
    if let Some(kind) = before.framing {
        law_framing_reads_back(kind, after.framing->0);
    }
    if let ScenarioOutcome::Throughput(x) = scenario.outcome {
        let y = again.outcome->Throughput_0;
        assert(x.per_consumer@ =~= y.per_consumer@);
    }
}

/// A structured report holds every figure of a throughput result in its place:
/// the producer's with the producer, the consumers' with the consumers, and
/// those set against other runs among the derived ones.
pub proof fn law_structured_figures_are_those_measured(
    result: BenchResult,
    scenario: ScenarioReport,
)
    requires
        adapts(result, scenario),
        result.results.layout_validation is None,
    ensures
        scenario.outcome is Throughput,
        ({
            let o = scenario.outcome->Throughput_0;
            let f = result.results;
            &&& o.producer.throughput_ops_sec == f.producer_throughput_ops_sec
            &&& o.producer.bandwidth_bytes_sec == f.producer_bandwidth_bytes_sec
            &&& o.producer.data_rate_gbps == f.producer_data_rate_gbps
            &&& o.producer.data_rate_mbps == f.data_rate_mbps
            &&& o.consumers.average_throughput_ops_sec == f.consumer_throughput_ops_sec
            &&& o.consumers.min_throughput_ops_sec == f.consumer_min_throughput_ops_sec
            &&& o.consumers.max_throughput_ops_sec == f.consumer_max_throughput_ops_sec
            &&& o.consumers.total_throughput_ops_sec == f.consumer_total_throughput_ops_sec
            &&& o.consumers.average_bandwidth_bytes_sec == f.consumer_avg_bandwidth_bytes_sec
            &&& o.consumers.average_data_rate_gbps == f.consumer_avg_data_rate_gbps
            &&& o.consumers.checksum_total == f.consumer_checksum_total
            &&& o.verification.passed == f.verification_passed
            &&& o.verification.messages_processed == f.messages_processed
            &&& o.latency == result.latency
            &&& o.phase_timing == f.phase_timing
            &&& o.derived.pct_of_raw_ring == f.pct_of_raw_ring
            &&& o.derived.delta_vs_raw_ring_pct == f.delta_vs_raw_ring_pct
            &&& o.derived.speedup_vs_bincode == f.speedup_vs_bincode
            &&& o.derived.delta_vs_bincode_pct == f.delta_vs_bincode_pct
            &&& o.derived.access_avg_ns == f.access_avg_ns
            &&& o.derived.access_vs_decode_speedup == f.access_vs_decode_speedup
            &&& o.derived.alloc_count == f.alloc_count
            &&& o.derived.alloc_bytes == f.alloc_bytes
            &&& o.derived.hw_bandwidth_limit_gbps == f.hw_bandwidth_limit_gbps
            &&& o.derived.hw_efficiency_pct == f.hw_efficiency_pct
            &&& o.per_consumer@.len() == f.per_consumer@.len()
        }),
        forall|i: int|
            #![trigger result.results.per_consumer@[i]]
            0 <= i < result.results.per_consumer@.len() ==> {
                let kept = scenario.outcome->Throughput_0.per_consumer@[i];
                let entry = result.results.per_consumer@[i];
                &&& kept.consumer_id == entry.consumer_id
                &&& kept.throughput_ops_sec == entry.throughput_ops_sec
                &&& kept.events_consumed == entry.events_consumed
                &&& kept.bandwidth_bytes_sec == entry.bandwidth_bytes_sec
                &&& kept.data_rate_gbps == entry.data_rate_gbps
                &&& kept.checksum == entry.checksum
                &&& kept.latency == entry.latency
                &&& kept.phase_timing == entry.phase_timing
            },
{
}

/// A structured report of a layout result holds the layout figures alone.
pub proof fn law_structured_layout_is_that_measured(result: BenchResult, scenario: ScenarioReport)
    requires
        adapts(result, scenario),
        result.results.layout_validation is Some,
    ensures
        scenario.outcome is Layout,
        ({
            let kept = scenario.outcome->Layout_0;
            let layout = result.results.layout_validation->0;
            &&& kept.avg_ns == layout.avg_ns
            &&& kept.budget_ns == layout.budget_ns
            &&& kept.iterations == layout.iterations
            &&& kept.pass == layout.pass
        }),
{
}

/// A structured report says of a result what was run, on what and under which
/// load, where and when.
pub proof fn law_structured_report_says_what_ran(result: BenchResult, scenario: ScenarioReport)
    requires
        adapts(result, scenario),
    ensures
        scenario.identity.benchmark_id@ == result.benchmark_id@,
        scenario.identity.scenario@ == result.scenario@,
        scenario.identity.layer@ == result.layer@,
        backend_text(scenario.identity.backend) == result.backend@,
        scenario.identity.codec is Some <==> result.codec is Some,
        result.codec is Some ==> codec_text(scenario.identity.codec->0) == result.codec->0@,
        wait_strategy_text(scenario.config.transport.wait_strategy) == result.wait_strategy@,
        scenario.config.transport.coordination is Some <==> result.config.coordination is Some,
        result.config.coordination is Some ==> coordination_text(
            scenario.config.transport.coordination->0,
        ) == result.config.coordination->0@,
        scenario.config.transport.discovery is Some <==> result.config.discovery_mode is Some,
        scenario.config.transport.framing is Some <==> result.config.framing is Some,
        result.config.framing is Some ==> framing_text(scenario.config.transport.framing->0)
            == result.config.framing->0@,
        scenario.config.transport.zero_copy == (if result.config.zero_copy == Some(true) {
            Some(ZeroCopyKind::Enabled)
        } else if result.config.zero_copy == Some(false) {
            Some(ZeroCopyKind::Disabled)
        } else {
            None
        }),
        scenario.config.workload.message_size_bytes == result.config.message_size_bytes,
        scenario.config.workload.payload_bytes == result.config.payload_bytes,
        scenario.config.workload.buffer_depth == result.config.buffer_depth,
        scenario.config.workload.num_messages == result.config.num_messages,
        scenario.config.workload.warmup_messages == result.config.warmup_messages,
        scenario.config.workload.num_producers == result.config.num_producers,
        scenario.config.workload.num_consumers == result.config.num_consumers,
        scenario.metadata.timestamp == result.metadata.timestamp,
        scenario.metadata.platform == result.metadata.platform,
        scenario.metadata.cpu == result.metadata.cpu,
        scenario.metadata.git_commit == result.metadata.git_commit,
        scenario.metadata.rust_version == result.metadata.rust_version,
{
    if let Some(kind) = scenario.config.transport.zero_copy {
        assert(kind == ZeroCopyKind::Enabled || kind == ZeroCopyKind::Disabled);
    }
}

/// Of an identifier `suite/benchmark/...` a structured report keeps the suite
/// and the benchmark apart.
pub proof fn law_identifier_gives_suite_and_benchmark(
    result: BenchResult,
    scenario: ScenarioReport,
    suite: Seq<char>,
    benchmark: Seq<char>,
    rest: Seq<char>,
)
    requires
        adapts(result, scenario),
        result.benchmark_id@ == suite + seq!['/'] + benchmark + seq!['/'] + rest,
        !suite.contains('/'),
        !benchmark.contains('/'),
    ensures
        scenario.identity.suite@ == suite,
        scenario.identity.benchmark@ == benchmark,
{
    let id = result.benchmark_id@;
    let after = benchmark + seq!['/'] + rest;
    assert(id =~= suite + seq!['/'] + after);
    law_split_cuts_at_separator(suite, '/', after);
    law_split_cuts_at_separator(benchmark, '/', rest);
}

/// A flat result holds every figure of a structured throughput report under
/// the name of the flat form, and no layout figures.
pub proof fn law_flat_figures_are_those_reported(scenario: ScenarioReport, result: BenchResult)
    requires
        restores(scenario, result),
        scenario.outcome is Throughput,
    ensures
        ({
            let o = scenario.outcome->Throughput_0;
            let f = result.results;
            &&& f.producer_throughput_ops_sec == o.producer.throughput_ops_sec
            &&& f.producer_bandwidth_bytes_sec == o.producer.bandwidth_bytes_sec
            &&& f.producer_data_rate_gbps == o.producer.data_rate_gbps
            &&& f.data_rate_mbps == o.producer.data_rate_mbps
            &&& f.consumer_throughput_ops_sec == o.consumers.average_throughput_ops_sec
            &&& f.consumer_min_throughput_ops_sec == o.consumers.min_throughput_ops_sec
            &&& f.consumer_max_throughput_ops_sec == o.consumers.max_throughput_ops_sec
            &&& f.consumer_total_throughput_ops_sec == o.consumers.total_throughput_ops_sec
            &&& f.consumer_avg_bandwidth_bytes_sec == o.consumers.average_bandwidth_bytes_sec
            &&& f.consumer_avg_data_rate_gbps == o.consumers.average_data_rate_gbps
            &&& f.consumer_checksum_total == o.consumers.checksum_total
            &&& f.verification_passed == o.verification.passed
            &&& f.messages_processed == o.verification.messages_processed
            &&& result.latency == o.latency
            &&& f.phase_timing == o.phase_timing
            &&& f.pct_of_raw_ring == o.derived.pct_of_raw_ring
            &&& f.delta_vs_raw_ring_pct == o.derived.delta_vs_raw_ring_pct
            &&& f.speedup_vs_bincode == o.derived.speedup_vs_bincode
            &&& f.delta_vs_bincode_pct == o.derived.delta_vs_bincode_pct
            &&& f.access_avg_ns == o.derived.access_avg_ns
            &&& f.access_vs_decode_speedup == o.derived.access_vs_decode_speedup
            &&& f.alloc_count == o.derived.alloc_count
            &&& f.alloc_bytes == o.derived.alloc_bytes
            &&& f.hw_bandwidth_limit_gbps == o.derived.hw_bandwidth_limit_gbps
            &&& f.hw_efficiency_pct == o.derived.hw_efficiency_pct
            &&& f.layout_validation is None
            &&& f.per_consumer@.len() == o.per_consumer@.len()
        }),
        forall|i: int|
            #![trigger result.results.per_consumer@[i]]
            0 <= i < result.results.per_consumer@.len() ==> {
                let entry = scenario.outcome->Throughput_0.per_consumer@[i];
                let kept = result.results.per_consumer@[i];
                &&& kept.consumer_id == entry.consumer_id
                &&& kept.throughput_ops_sec == entry.throughput_ops_sec
                &&& kept.events_consumed == entry.events_consumed
                &&& kept.bandwidth_bytes_sec == entry.bandwidth_bytes_sec
                &&& kept.data_rate_gbps == entry.data_rate_gbps
                &&& kept.checksum == entry.checksum
                &&& kept.latency == entry.latency
                &&& kept.phase_timing == entry.phase_timing
            },
{
}

/// A flat result holds the figures of a structured layout report, counts no
/// message and states no throughput.
pub proof fn law_flat_layout_is_that_reported(scenario: ScenarioReport, result: BenchResult)
    requires
        restores(scenario, result),
        scenario.outcome is Layout,
    ensures
        result.results.layout_validation is Some,
        ({
            let kept = result.results.layout_validation->0;
            let layout = scenario.outcome->Layout_0;
            &&& kept.avg_ns == layout.avg_ns
            &&& kept.budget_ns == layout.budget_ns
            &&& kept.iterations == layout.iterations
            &&& kept.pass == layout.pass
            &&& result.results.verification_passed == layout.pass
        }),
        result.results.messages_processed == 0,
        result.results.producer_throughput_ops_sec.bits == ZERO_BITS,
        result.results.consumer_throughput_ops_sec.bits == ZERO_BITS,
        result.results.data_rate_mbps.bits == ZERO_BITS,
        result.results.producer_bandwidth_bytes_sec is None,
        result.results.producer_data_rate_gbps is None,
        result.results.consumer_avg_bandwidth_bytes_sec is None,
        result.results.consumer_avg_data_rate_gbps is None,
        result.results.consumer_min_throughput_ops_sec is None,
        result.results.consumer_max_throughput_ops_sec is None,
        result.results.consumer_total_throughput_ops_sec is None,
        result.results.consumer_checksum_total is None,
        result.results.phase_timing is None,
        result.results.pct_of_raw_ring is None,
        result.results.delta_vs_raw_ring_pct is None,
        result.results.speedup_vs_bincode is None,
        result.results.delta_vs_bincode_pct is None,
        result.results.access_avg_ns is None,
        result.results.access_vs_decode_speedup is None,
        result.results.alloc_count is None,
        result.results.alloc_bytes is None,
        result.results.hw_bandwidth_limit_gbps is None,
        result.results.hw_efficiency_pct is None,
        result.results.per_consumer@.len() == 0,
        result.latency is None,
{
}

/// A flat result says of a structured report what was run, on what and under
/// which load, where and when.
pub proof fn law_flat_result_says_what_ran(scenario: ScenarioReport, result: BenchResult)
    requires
        restores(scenario, result),
    ensures
        result.benchmark_id@ == scenario.identity.benchmark_id@,
        result.scenario@ == scenario.identity.scenario@,
        result.layer@ == scenario.identity.layer@,
        reads_backend(result.backend@, scenario.identity.backend) || scenario.identity.backend
            is Unknown,
        result.codec is Some <==> scenario.identity.codec is Some,
        result.config.message_size_bytes == scenario.config.workload.message_size_bytes,
        result.config.payload_bytes == scenario.config.workload.payload_bytes,
        result.config.buffer_depth == scenario.config.workload.buffer_depth,
        result.config.num_messages == scenario.config.workload.num_messages,
        result.config.warmup_messages == scenario.config.workload.warmup_messages,
        result.config.num_producers == scenario.config.workload.num_producers,
        result.config.num_consumers == scenario.config.workload.num_consumers,
        result.config.zero_copy is Some <==> scenario.config.transport.zero_copy is Some,
        result.config.zero_copy == Some(true) <==> scenario.config.transport.zero_copy == Some(
            ZeroCopyKind::Enabled,
        ),
        result.config.coordination is Some <==> scenario.config.transport.coordination is Some,
        result.config.discovery_mode is Some <==> scenario.config.transport.discovery is Some,
        result.config.framing is Some <==> scenario.config.transport.framing is Some,
        result.metadata.timestamp == scenario.metadata.timestamp,
        result.metadata.platform == scenario.metadata.platform,
        result.metadata.cpu == scenario.metadata.cpu,
        result.metadata.git_commit == scenario.metadata.git_commit,
        result.metadata.rust_version == scenario.metadata.rust_version,
{
}

/// A flat report and its structured form list the same runs in the same order,
/// under the same metadata of the whole.
pub proof fn law_reports_list_the_same_runs(
    report: BenchReport,
    derived: Seq<DerivedValues>,
    bundle: ReportBundle,
)
    requires
        report.bundles_to(derived, bundle),
    ensures
        bundle.scenarios@.len() == report.results@.len(),
        forall|i: int|
            #![trigger bundle.scenarios@[i]]
            0 <= i < bundle.scenarios@.len() ==> {
                &&& bundle.scenarios@[i].identity.benchmark_id@ == report.results@[i].benchmark_id@
                &&& bundle.scenarios@[i].identity.scenario@ == report.results@[i].scenario@
                &&& bundle.scenarios@[i].config.workload.num_messages
                    == report.results@[i].config.num_messages
                &&& bundle.scenarios@[i].config.workload.num_consumers
                    == report.results@[i].config.num_consumers
            },
        bundle.metadata.timestamp == report.metadata.timestamp,
        bundle.metadata.platform == report.metadata.platform,
        bundle.metadata.cpu == report.metadata.cpu,
        bundle.metadata.git_commit == report.metadata.git_commit,
        bundle.metadata.rust_version == report.metadata.rust_version,
{
    let finalized = choose|finalized: Seq<BenchResult>| #[trigger]
        is_finalized(report.results@, finalized, derived) && bundles(
            finalized,
            bundle.scenarios@,
        );
    assert forall|i: int|
        #![trigger bundle.scenarios@[i]]
        0 <= i < bundle.scenarios@.len() implies {
            &&& bundle.scenarios@[i].identity.benchmark_id@ == report.results@[i].benchmark_id@
            &&& bundle.scenarios@[i].identity.scenario@ == report.results@[i].scenario@
            &&& bundle.scenarios@[i].config.workload.num_messages
                == report.results@[i].config.num_messages
            &&& bundle.scenarios@[i].config.workload.num_consumers
                == report.results@[i].config.num_consumers
        } by {
        assert(adapts(finalized[i], bundle.scenarios@[i]));
    }
}

/// The batch size of an unfragmented codec scenario is the number before the
/// first `b` that ends a part of its name; that of an end-to-end codec scenario
/// the number behind the first `b` that begins one. Other benchmarks state none.
pub proof fn law_batch_size_is_that_of_the_name(
    id: Seq<char>,
    scenario: Seq<char>,
    at: int,
    size: nat,
)
    requires
        0 <= at < split_on(scenario, '_').len(),
        size <= usize::MAX,
    ensures
        benchmark_field(id) == Some("codec_nofrag_shm"@) && split_on(scenario, '_')[at]
            == decimal_text(size).push('b') && (forall|j: int|
            0 <= j < at ==> (#[trigger] split_on(scenario, '_')[j]).len() == 0 || split_on(
                scenario,
                '_',
            )[j].last() != 'b') ==> stated_batch_size(id, scenario) == Some(size),
        (benchmark_field(id) == Some("codec_e2e_shm"@) || benchmark_field(id) == Some(
            "codec_e2e_mmap"@,
        )) && split_on(scenario, '_')[at] == seq!['b'] + decimal_text(size) && (forall|j: int|
            0 <= j < at ==> (#[trigger] split_on(scenario, '_')[j]).len() == 0 || split_on(
                scenario,
                '_',
            )[j][0] != 'b') ==> stated_batch_size(id, scenario) == Some(size),
        benchmark_field(id) != Some("codec_nofrag_shm"@) && benchmark_field(id) != Some(
            "codec_e2e_shm"@,
        ) && benchmark_field(id) != Some("codec_e2e_mmap"@) ==> stated_batch_size(id, scenario)
            is None,
{
    let parts = split_on(scenario, '_');
    reveal_strlit("b");
    assert("b"@ =~= seq!['b']);
    law_number_reads_back(size, usize::MAX as nat);
    reveal_strlit("codec_nofrag_shm");
    reveal_strlit("codec_e2e_shm");
    reveal_strlit("codec_e2e_mmap");
    assert("codec_nofrag_shm"@.len() == 16);
    assert("codec_e2e_shm"@.len() == 13);
    assert("codec_e2e_mmap"@.len() == 14);
    if parts[at] == decimal_text(size).push('b') && (forall|j: int|
        0 <= j < at ==> (#[trigger] parts[j]).len() == 0 || parts[j].last() != 'b') {
        lemma_first_before_b(parts, at, decimal_text(size));
    }
    if parts[at] == seq!['b'] + decimal_text(size) && (forall|j: int|
        0 <= j < at ==> (#[trigger] parts[j]).len() == 0 || parts[j][0] != 'b') {
        lemma_first_after_b(parts, at, decimal_text(size));
    }
}

/// What precedes the first ending `b`.
proof fn lemma_first_before_b(parts: Seq<Seq<char>>, at: int, digits: Seq<char>)
    requires
        0 <= at < parts.len(),
        parts[at] == digits.push('b'),
        forall|j: int|
            0 <= j < at ==> (#[trigger] parts[j]).len() == 0 || parts[j].last() != 'b',
    ensures
        first_before_b(parts) == Some(digits),
    decreases parts.len(),
{
    reveal_strlit("b");
    let first = parts[0];
    if at == 0 {
        assert(first.subrange(first.len() - 1, first.len() as int) =~= "b"@);
        assert(first.take(first.len() - 1) =~= digits);
    } else {
        if has_suffix(first, "b"@) {
            assert(first.subrange(first.len() - 1, first.len() as int)[0] == first.last());
        }
        let rest = parts.skip(1);
        assert(rest[at - 1] == parts[at]);
        assert forall|j: int| 0 <= j < at - 1 implies (#[trigger] rest[j]).len() == 0
            || rest[j].last() != 'b' by {
            assert(rest[j] == parts[j + 1]);
        }
        lemma_first_before_b(rest, at - 1, digits);
    }
}

/// What follows the first leading `b`.
proof fn lemma_first_after_b(parts: Seq<Seq<char>>, at: int, digits: Seq<char>)
    requires
        0 <= at < parts.len(),
        parts[at] == seq!['b'] + digits,
        forall|j: int| 0 <= j < at ==> (#[trigger] parts[j]).len() == 0 || parts[j][0] != 'b',
    ensures
        first_after_b(parts) == Some(digits),
    decreases parts.len(),
{
    reveal_strlit("b");
    let first = parts[0];
    if at == 0 {
        assert(first.subrange(0, 1) =~= "b"@);
        assert(first.skip(1) =~= digits);
    } else {
        if has_prefix(first, "b"@) {
            assert(first.subrange(0, 1)[0] == first[0]);
        }
        let rest = parts.skip(1);
        assert(rest[at - 1] == parts[at]);
        assert forall|j: int| 0 <= j < at - 1 implies (#[trigger] rest[j]).len() == 0
            || rest[j][0] != 'b' by {
            assert(rest[j] == parts[j + 1]);
        }
        lemma_first_after_b(rest, at - 1, digits);
    }
}

} // verus!
