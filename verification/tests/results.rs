use perf_bench::averages::MeanPlan;
use perf_bench::latency::{LatencyRecorder, LatencyStats};
use perf_bench::metric::{greatest_metric, least_metric, Metric};
use perf_bench::repeatability::{
    aggregate_reports, index_report, render_markdown, render_summary_table, repeatability_samples,
    shell_words, MetricStats, RepeatabilityNumbers, RepeatabilityReport, RunSample, ScenarioStats,
};
use perf_bench::reporting::{
    attach_child_metrics, codec_speedup_key, make_result, BenchConfig, BenchMetadata, BenchReport,
    BenchResult, BenchResultSpec, BenchResults, BenchTransportSpec, DerivationPlan,
    DerivedValues, RawShare, ReportOutputArgs,
};
use perf_bench::results::{ConsumerOutput, PhaseTiming, ProducerOutput};

fn metric(value: f64) -> Metric {
    Metric { bits: value.to_bits() }
}

fn number(value: Metric) -> f64 {
    f64::from_bits(value.bits)
}

fn bench_metadata() -> BenchMetadata {
    BenchMetadata {
        timestamp: "2026-04-25T14:30:00+00:00".to_string(),
        platform: "linux x86_64".to_string(),
        cpu: "cpu".to_string(),
        git_commit: None,
        rust_version: "1.85".to_string(),
    }
}

fn mean(plan: MeanPlan) -> Metric {
    let sum: f64 = plan.values.iter().map(|value| number(*value)).sum();
    metric(sum / plan.divisor as f64)
}

fn derived(plan: Option<DerivationPlan>) -> DerivedValues {
    let nothing = metric(f64::NAN);
    let Some(plan) = plan else {
        return DerivedValues {
            hw_efficiency_pct: nothing,
            pct_of_raw_ring: nothing,
            delta_vs_raw_ring_pct: nothing,
            speedup_vs_bincode: nothing,
            delta_vs_bincode_pct: nothing,
        };
    };
    let throughput = number(plan.consumer_throughput_ops_sec);
    let rate = plan
        .recorded_rate_gbps
        .map(number)
        .unwrap_or(throughput * plan.message_size_bytes as f64 / 1e9);
    let share = match plan.raw_share {
        RawShare::Whole => 100.0,
        RawShare::Against(baseline) => throughput / number(baseline) * 100.0,
        RawShare::Missing => f64::NAN,
    };
    let speedup = plan.bincode_baseline.map(|b| throughput / number(b)).unwrap_or(f64::NAN);
    DerivedValues {
        hw_efficiency_pct: metric((rate / 300.0) * 100.0),
        pct_of_raw_ring: metric(share),
        delta_vs_raw_ring_pct: metric(share - 100.0),
        speedup_vs_bincode: metric(speedup),
        delta_vs_bincode_pct: metric((speedup - 1.0) * 100.0),
    }
}

fn all_derived(report: &BenchReport) -> Vec<DerivedValues> {
    (0..report.results.len()).map(|i| derived(report.derivation_plan(i))).collect()
}

#[allow(clippy::too_many_arguments)]
fn make_test_result(
    bench_name: &str,
    scenario: &str,
    backend: &str,
    layer: &str,
    codec: Option<&str>,
    measurement_mode: &str,
    transport: BenchTransportSpec,
    msg_bytes: usize,
    payload_bytes: usize,
    buffer_depth: usize,
    num_messages: u64,
    warmup_messages: u64,
    num_consumers: usize,
    prod_ops: f64,
    cons_ops: f64,
    latency: Option<LatencyStats>,
) -> BenchResult {
    make_result(
        BenchResultSpec {
            bench_name: bench_name.to_string(),
            scenario: scenario.to_string(),
            backend: backend.to_string(),
            layer: layer.to_string(),
            codec: codec.map(|value| value.to_string()),
            measurement_mode: measurement_mode.to_string(),
            wait_strategy: "BusySpin".to_string(),
            transport,
            message_size_bytes: msg_bytes,
            payload_bytes,
            buffer_depth,
            num_messages,
            warmup_messages,
            num_producers: 1,
            num_consumers,
            producer_throughput_ops_sec: metric(prod_ops),
            consumer_throughput_ops_sec: metric(cons_ops),
            latency,
        },
        metric(prod_ops * msg_bytes as f64 / 1_000_000.0),
        bench_metadata(),
    )
}


fn metric_stats(values: &[f64]) -> MetricStats {
    let count = values.len() as f64;
    let mean = values.iter().sum::<f64>() / count;
    let variance = if values.len() > 1 {
        values.iter().map(|value| (value - mean) * (value - mean)).sum::<f64>() / (count - 1.0)
    } else {
        0.0
    };
    let stddev = variance.sqrt();
    let cv_pct = if mean.abs() > f64::EPSILON { stddev / mean * 100.0 } else { 0.0 };
    MetricStats {
        mean: metric(mean),
        min: metric(values.iter().copied().fold(f64::INFINITY, f64::min)),
        max: metric(values.iter().copied().fold(f64::NEG_INFINITY, f64::max)),
        stddev: metric(stddev),
        cv_pct: metric(cv_pct),
    }
}

fn scenario_stats(runs: &[RunSample]) -> ScenarioStats {
    let values = |pick: fn(&RunSample) -> f64| -> Vec<f64> { runs.iter().map(pick).collect() };
    let producer = metric_stats(&values(|run| number(run.producer_throughput_ops_sec)));
    let consumer = metric_stats(&values(|run| number(run.consumer_throughput_ops_sec)));
    ScenarioStats {
        producer_cv: format!("{:.2}", number(producer.cv_pct)),
        consumer_cv: format!("{:.2}", number(consumer.cv_pct)),
        producer_throughput: producer,
        consumer_throughput: consumer,
        latency_p50_ns: metric_stats(&values(|run| run.latency_p50_ns.unwrap_or(0) as f64)),
        latency_p99_ns: metric_stats(&values(|run| run.latency_p99_ns.unwrap_or(0) as f64)),
    }
}

fn aggregated(
    command: &[&str],
    reports: Vec<BenchReport>,
    threshold: f64,
) -> Result<RepeatabilityReport, String> {
    let command: Vec<String> = command.iter().map(|part| part.to_string()).collect();
    let stats: Vec<ScenarioStats> = match repeatability_samples(&reports) {
        Ok(samples) => samples.iter().map(|runs| scenario_stats(runs)).collect(),
        Err(message) => return Err(message),
    };
    aggregate_reports(
        &command,
        &reports,
        metric(threshold),
        &format!("{threshold:.2}"),
        &stats,
        "2026-04-25T14:30:00+00:00",
    )
}

#[test]
fn test_attach_child_metrics_populates_consumer_rollups() {
    let mut result = make_test_result(
        "raw_ring_shm",
        "message_1p2c_144B",
        "shm",
        "raw_ring",
        None,
        "max_throughput",
        BenchTransportSpec::benchmark_shm(2)
            .with_zero_copy(false)
            .with_framing("none"),
        144,
        144,
        1024,
        100_000,
        1_000,
        2,
        20_000_000.0,
        19_000_000.0,
        None,
    );

    let producer = ProducerOutput {
        throughput_ops_sec: metric(20_000_000.0),
        elapsed_secs: metric(0.005),
        events_produced: 100_000,
        bandwidth_bytes_sec: metric(2_880_000_000.0),
        data_rate_gbps: metric(2.88),
        phase_timing: None,
    };
    let consumers = vec![
        ConsumerOutput {
            consumer_id: 0,
            throughput_ops_sec: metric(9_000_000.0),
            bandwidth_bytes_sec: metric(1_296_000_000.0),
            data_rate_gbps: metric(1.296),
            events_consumed: 50_000,
            checksum: 123,
            latency: None,
            phase_timing: None,
        },
        ConsumerOutput {
            consumer_id: 1,
            throughput_ops_sec: metric(10_000_000.0),
            bandwidth_bytes_sec: metric(1_440_000_000.0),
            data_rate_gbps: metric(1.44),
            events_consumed: 50_000,
            checksum: 456,
            latency: None,
            phase_timing: None,
        },
    ];

    attach_child_metrics(&mut result, &producer, &consumers, &mean);

    assert_eq!(
        result.results.consumer_total_throughput_ops_sec.map(number),
        Some(19_000_000.0)
    );
    assert_eq!(result.results.consumer_checksum_total, Some(579));
    assert_eq!(result.results.per_consumer.len(), 2);
}

#[test]
fn test_finalized_report_populates_schema_and_derived_metrics() {
    let mut raw = make_test_result(
        "raw_ring_shm",
        "message_1p2c_144B",
        "shm",
        "raw_ring",
        None,
        "max_throughput",
        BenchTransportSpec::benchmark_shm(2)
            .with_zero_copy(false)
            .with_framing("none"),
        144,
        144,
        1024,
        100_000,
        1000,
        2,
        20_000_000.0,
        20_000_000.0,
        None,
    );
    raw.results.consumer_avg_data_rate_gbps = Some(metric(2.88));

    let mut raw_single = make_test_result(
        "raw_ring_shm",
        "message_1p1c_144B",
        "shm",
        "raw_ring",
        None,
        "max_throughput",
        BenchTransportSpec::benchmark_shm(1)
            .with_zero_copy(false)
            .with_framing("none"),
        144,
        144,
        1024,
        100_000,
        1000,
        1,
        19_000_000.0,
        19_000_000.0,
        None,
    );
    raw_single.results.consumer_avg_data_rate_gbps = Some(metric(2.736));

    let mut bincode = make_test_result(
        "codec_e2e_shm",
        "codec_e2e_1p2c_8seq_bincode",
        "shm",
        "typed",
        Some("bincode"),
        "max_throughput",
        BenchTransportSpec::benchmark_shm(2)
            .with_zero_copy(false)
            .with_framing("fixed_64k"),
        512,
        144,
        1024,
        100_000,
        0,
        2,
        150_000.0,
        15_000.0,
        None,
    );
    bincode.results.consumer_avg_data_rate_gbps = Some(metric(0.00216));

    let mut raw_myelon = make_test_result(
        "pingpong_raw_myelon_shm",
        "pingpong_raw_myelon_1p2c_144B",
        "shm",
        "raw_myelon",
        None,
        "max_throughput",
        BenchTransportSpec::benchmark_shm(2)
            .with_zero_copy(false)
            .with_framing("none"),
        144,
        144,
        1024,
        100_000,
        1000,
        2,
        19_600_000.0,
        19_600_000.0,
        None,
    );
    raw_myelon.results.consumer_avg_data_rate_gbps = Some(metric(2.8224));

    let mut rkyv = make_test_result(
        "codec_e2e_shm",
        "codec_e2e_1p2c_8seq_rkyv",
        "shm",
        "typed",
        Some("rkyv"),
        "max_throughput",
        BenchTransportSpec::benchmark_shm(2)
            .with_zero_copy(false)
            .with_framing("fixed_64k"),
        384,
        144,
        1024,
        100_000,
        0,
        2,
        160_000.0,
        18_000.0,
        None,
    );
    rkyv.results.consumer_avg_data_rate_gbps = Some(metric(0.002592));

    let mut zero_copy_rkyv = make_test_result(
        "pingpong_typed_zero_copy_shm",
        "pingpong_codec_1p1c_rkyv_b8",
        "shm",
        "typed_zero_copy",
        Some("rkyv"),
        "max_throughput",
        BenchTransportSpec::unified_pingpong()
            .with_zero_copy(true)
            .with_framing("fixed_64k"),
        384,
        144,
        1024,
        100_000,
        10_000,
        1,
        18_500.0,
        18_500.0,
        None,
    );
    zero_copy_rkyv.results.consumer_avg_data_rate_gbps = Some(metric(0.002664));

    let mut pingpong_bincode = make_test_result(
        "pingpong_codec_shm",
        "pingpong_codec_1p1c_bincode_b8",
        "shm",
        "typed",
        Some("bincode"),
        "max_throughput",
        BenchTransportSpec::unified_pingpong()
            .with_zero_copy(false)
            .with_framing("fixed_64k"),
        512,
        144,
        1024,
        100_000,
        10_000,
        1,
        16_500.0,
        16_500.0,
        None,
    );
    pingpong_bincode.results.consumer_avg_data_rate_gbps = Some(metric(0.002376));

    let mut report = BenchReport::new(bench_metadata());
    report.add(raw);
    report.add(raw_single);
    report.add(raw_myelon);
    report.add(bincode);
    report.add(pingpong_bincode);
    report.add(rkyv);
    report.add(zero_copy_rkyv);

    let finalized = report.finalized(&all_derived(&report));
    let raw_myelon = finalized
        .results
        .iter()
        .find(|result| result.layer == "raw_myelon")
        .unwrap();
    let bincode = finalized
        .results
        .iter()
        .find(|result| result.codec.as_deref() == Some("bincode"))
        .unwrap();
    let rkyv = finalized
        .results
        .iter()
        .find(|result| result.codec.as_deref() == Some("rkyv"))
        .unwrap();
    let zero_copy_rkyv = finalized
        .results
        .iter()
        .find(|result| result.layer == "typed_zero_copy")
        .unwrap();

    assert_eq!(
        bincode.config.coordination.as_deref(),
        Some("BenchmarkCoordination")
    );
    assert_eq!(bincode.config.discovery_mode.as_deref(), Some("enabled(2)"));
    assert_eq!(bincode.config.zero_copy, Some(false));
    assert_eq!(bincode.config.framing.as_deref(), Some("fixed_64k"));
    assert_eq!(bincode.results.speedup_vs_bincode.map(number), Some(1.0));
    assert_eq!(bincode.results.delta_vs_bincode_pct.map(number), Some(0.0));
    assert!(number(raw_myelon.results.pct_of_raw_ring.unwrap()) > 95.0);
    assert!(number(raw_myelon.results.delta_vs_raw_ring_pct.unwrap()) > -5.0);
    assert!(number(raw_myelon.results.delta_vs_raw_ring_pct.unwrap()) < 0.0);
    assert!(number(rkyv.results.speedup_vs_bincode.unwrap()) > 1.0);
    assert!(number(rkyv.results.delta_vs_bincode_pct.unwrap()) > 0.0);
    assert!(number(rkyv.results.pct_of_raw_ring.unwrap()) > 0.0);
    assert!(number(rkyv.results.delta_vs_raw_ring_pct.unwrap()) < 0.0);
    assert!(number(rkyv.results.hw_efficiency_pct.unwrap()) > 0.0);
    assert!(number(zero_copy_rkyv.results.speedup_vs_bincode.unwrap()) > 1.0);
    assert!(number(zero_copy_rkyv.results.delta_vs_bincode_pct.unwrap()) > 0.0);
    assert!(number(zero_copy_rkyv.results.pct_of_raw_ring.unwrap()) > 0.0);
}

#[test]
fn test_report_output_args_parse_common_flags() {
    let args = vec![
        "bench".to_string(),
        "--quick".to_string(),
        "--tree".to_string(),
        "--json-out".to_string(),
        "/tmp/out.json".to_string(),
        "--csv-out".to_string(),
        "/tmp/out.csv".to_string(),
        "--md-out".to_string(),
        "/tmp/out.md".to_string(),
    ];

    let parsed = ReportOutputArgs::from_args(&args);
    assert!(!parsed.json_mode);
    assert!(parsed.quick_mode);
    assert!(parsed.tree_mode);
    assert_eq!(parsed.json_out.as_deref(), Some("/tmp/out.json"));
    assert_eq!(parsed.csv_out.as_deref(), Some("/tmp/out.csv"));
    assert_eq!(parsed.markdown_out.as_deref(), Some("/tmp/out.md"));
}

fn sample_result(
    benchmark_id: &str,
    scenario: &str,
    producer: f64,
    consumer: f64,
) -> BenchResult {
    BenchResult {
        benchmark_id: benchmark_id.to_string(),
        scenario: scenario.to_string(),
        backend: "shm".to_string(),
        layer: "raw_ring".to_string(),
        codec: None,
        measurement_mode: "max_throughput".to_string(),
        wait_strategy: "BusySpin".to_string(),
        config: BenchConfig {
            message_size_bytes: 64,
            payload_bytes: 64,
            buffer_depth: 1024,
            num_messages: 1_000,
            warmup_messages: 100,
            num_producers: 1,
            num_consumers: 2,
            coordination: None,
            discovery_mode: None,
            zero_copy: None,
            framing: None,
        },
        results: BenchResults {
            producer_throughput_ops_sec: metric(producer),
            consumer_throughput_ops_sec: metric(consumer),
            data_rate_mbps: metric(0.0),
            messages_processed: 1_000,
            verification_passed: true,
            producer_bandwidth_bytes_sec: None,
            producer_data_rate_gbps: None,
            consumer_avg_bandwidth_bytes_sec: None,
            consumer_avg_data_rate_gbps: None,
            consumer_min_throughput_ops_sec: None,
            consumer_max_throughput_ops_sec: None,
            consumer_total_throughput_ops_sec: None,
            consumer_checksum_total: None,
            phase_timing: None,
            pct_of_raw_ring: None,
            delta_vs_raw_ring_pct: None,
            speedup_vs_bincode: None,
            delta_vs_bincode_pct: None,
            access_avg_ns: None,
            access_vs_decode_speedup: None,
            alloc_count: None,
            alloc_bytes: None,
            hw_bandwidth_limit_gbps: None,
            hw_efficiency_pct: None,
            per_consumer: Vec::new(),
            layout_validation: None,
        },
        latency: Some(LatencyStats {
            count: 1_000,
            min_ns: 90,
            max_ns: 220,
            mean_ns: metric(110.0),
            stdev_ns: metric(12.0),
            p1_ns: 90,
            p10_ns: 95,
            p25_ns: 98,
            p50_ns: 100,
            p75_ns: 80,
            p90_ns: 120,
            p95_ns: 130,
            p99_ns: 150,
            p999_ns: 200,
            p9999_ns: 210,
            p99999_ns: 220,
            p999999_ns: 220,
        }),
        metadata: bench_metadata(),
    }
}

#[test]
fn aggregate_reports_computes_cv_and_pass() {
    let mut run1 = BenchReport::new(bench_metadata());
    run1.add(sample_result(
        "bench/raw_ring/signal_1p2c_64B",
        "signal_1p2c_64B",
        100.0,
        98.0,
    ));
    let mut run2 = BenchReport::new(bench_metadata());
    run2.add(sample_result(
        "bench/raw_ring/signal_1p2c_64B",
        "signal_1p2c_64B",
        103.0,
        97.0,
    ));
    let mut run3 = BenchReport::new(bench_metadata());
    run3.add(sample_result(
        "bench/raw_ring/signal_1p2c_64B",
        "signal_1p2c_64B",
        101.0,
        99.0,
    ));

    let report =
        aggregated(&["cargo", "bench"], vec![run1, run2, run3], 10.0)
            .expect("aggregate");

    assert!(report.overall_pass);
    assert_eq!(report.repeat_count, 3);
    assert_eq!(report.scenarios.len(), 1);
    assert!(number(report.scenarios[0].producer_throughput.cv_pct) < 10.0);
    assert!(report.scenarios[0].latency_p99_ns.is_some());
}

#[test]
fn aggregate_reports_rejects_mismatched_scenarios() {
    let mut run1 = BenchReport::new(bench_metadata());
    run1.add(sample_result("bench/raw_ring/a", "a", 100.0, 98.0));
    let mut run2 = BenchReport::new(bench_metadata());
    run2.add(sample_result("bench/raw_ring/b", "b", 103.0, 97.0));

    let error = aggregated(&["cargo", "bench"], vec![run1, run2], 10.0)
        .expect_err("mismatch should fail");
    assert!(error.contains("different scenario set"));
}


#[test]
fn test_result_with_latency() {
    let mut recorder = LatencyRecorder::default_range();
    for _ in 0..1000 {
        recorder.record(250);
    }
    let result = make_test_result(
        "test",
        "test",
        "shm",
        "raw_ring",
        None,
        "max_throughput",
        BenchTransportSpec::benchmark_shm(1)
            .with_zero_copy(false)
            .with_framing("none"),
        64,
        64,
        1024,
        1000,
        100,
        1,
        1_000_000.0,
        1_000_000.0,
        recorder.stats(),
    );
    assert!(result.latency.is_some());
    let shown = format!("{:?}", result.latency);
    assert!(shown.contains("p50_ns"));
    assert!(shown.contains("p99_ns"));
}

#[test]
fn a_result_is_made_from_its_specification() {
    let result = make_test_result(
        "raw_ring_shm",
        "signal_1p1c_64B",
        "shm",
        "raw_ring",
        None,
        "max_throughput",
        BenchTransportSpec::benchmark_shm(1)
            .with_zero_copy(false)
            .with_framing("none"),
        64,
        64,
        65_536,
        10_000_000,
        100_000,
        1,
        207_000_000.0,
        207_000_000.0,
        None,
    );
    assert_eq!(result.benchmark_id, "myelon-bench/raw_ring_shm/signal_1p1c_64B");
    assert_eq!(result.config.discovery_mode.as_deref(), Some("enabled(1)"));
    assert_eq!(number(result.results.data_rate_mbps), 13_248.0);
    assert_eq!(result.results.messages_processed, 10_000_000);
    assert!(result.results.verification_passed);
    assert!(result.results.per_consumer.is_empty());
}

fn consumer(id: usize, ops: f64, checksum: u64) -> ConsumerOutput {
    ConsumerOutput {
        consumer_id: id,
        throughput_ops_sec: metric(ops),
        bandwidth_bytes_sec: metric(ops),
        data_rate_gbps: metric(ops / 1e9),
        events_consumed: 1,
        checksum,
        latency: None,
        phase_timing: None,
    }
}

fn plain_result() -> BenchResult {
    make_test_result(
        "raw_ring_shm",
        "message_1p2c_144B",
        "shm",
        "raw_ring",
        None,
        "max_throughput",
        BenchTransportSpec::benchmark_shm(2),
        144,
        144,
        1024,
        100_000,
        1_000,
        2,
        20.0,
        19.0,
        None,
    )
}

fn plain_producer() -> ProducerOutput {
    ProducerOutput {
        throughput_ops_sec: metric(20.0),
        elapsed_secs: metric(1.0),
        events_produced: 20,
        bandwidth_bytes_sec: metric(2880.0),
        data_rate_gbps: metric(0.00000288),
        phase_timing: None,
    }
}

#[test]
fn checksums_add_up_modulo_sixty_four_bits_in_any_order() {
    let mut forward = plain_result();
    let mut backward = plain_result();
    let consumers = vec![consumer(0, 3.0, u64::MAX), consumer(1, 2.0, 5), consumer(2, 4.0, 7)];
    let reversed: Vec<ConsumerOutput> = consumers.iter().rev().copied().collect();
    attach_child_metrics(&mut forward, &plain_producer(), &consumers, &mean);
    attach_child_metrics(&mut backward, &plain_producer(), &reversed, &mean);
    assert_eq!(forward.results.consumer_checksum_total, Some(11));
    assert_eq!(backward.results.consumer_checksum_total, Some(11));
    assert_eq!(forward.results.consumer_min_throughput_ops_sec.map(number), Some(2.0));
    assert_eq!(forward.results.consumer_max_throughput_ops_sec.map(number), Some(4.0));
    assert_eq!(forward.results.per_consumer[2].checksum, 7);
}

#[test]
fn no_consumers_leave_the_consumer_figures_out() {
    let mut result = plain_result();
    let none: Vec<ConsumerOutput> = Vec::new();
    attach_child_metrics(&mut result, &plain_producer(), &none, &mean);
    assert!(result.results.consumer_total_throughput_ops_sec.is_none());
    assert!(result.results.consumer_checksum_total.is_none());
    assert!(result.results.phase_timing.is_none());
    assert_eq!(result.results.producer_bandwidth_bytes_sec.map(number), Some(2880.0));
}

#[test]
fn phase_times_of_consumers_replace_those_of_the_producer() {
    let mut result = plain_result();
    let timing = |read: f64, decode: f64| PhaseTiming {
        encode_avg_ns: None,
        transport_write_avg_ns: None,
        transport_read_avg_ns: Some(metric(read)),
        decode_avg_ns: Some(metric(decode)),
    };
    let mut producer = plain_producer();
    producer.phase_timing = Some(PhaseTiming {
        encode_avg_ns: Some(metric(7.0)),
        transport_write_avg_ns: Some(metric(8.0)),
        transport_read_avg_ns: Some(metric(9.0)),
        decode_avg_ns: None,
    });
    let consumers = vec![
        consumer(0, 1.0, 0).with_phase_timing(timing(10.0, 30.0)),
        consumer(1, 1.0, 0).with_phase_timing(timing(20.0, 50.0)),
        consumer(2, 1.0, 0),
    ];
    attach_child_metrics(&mut result, &producer, &consumers, &mean);
    let phase = result.results.phase_timing.unwrap();
    assert_eq!(phase.encode_avg_ns.map(number), Some(7.0));
    assert_eq!(phase.transport_write_avg_ns.map(number), Some(8.0));
    assert_eq!(phase.transport_read_avg_ns.map(number), Some(15.0));
    assert_eq!(phase.decode_avg_ns.map(number), Some(40.0));
}

#[test]
fn a_raw_ring_is_its_own_baseline() {
    let mut report = BenchReport::new(bench_metadata());
    report.add(plain_result());
    let plan = report.derivation_plan(0).unwrap();
    assert!(matches!(plan.raw_share, RawShare::Whole));
    let finalized = report.finalized(&all_derived(&report));
    assert_eq!(finalized.results[0].results.pct_of_raw_ring.map(number), Some(100.0));
    assert_eq!(finalized.results[0].results.delta_vs_raw_ring_pct.map(number), Some(0.0));
    assert_eq!(finalized.results[0].results.hw_bandwidth_limit_gbps.map(number), Some(300.0));
}

#[test]
fn finalizing_again_changes_nothing() {
    let mut report = BenchReport::new(bench_metadata());
    report.add(plain_result());
    let mut other = plain_result();
    other.layer = "raw_myelon".to_string();
    report.add(other);
    let values = all_derived(&report);
    let once = report.finalized(&values);
    let twice = once.finalized(&all_derived(&once));
    assert_eq!(format!("{once:?}"), format!("{twice:?}"));
    assert_eq!(once.results[1].results.pct_of_raw_ring.map(number), Some(100.0));
}

#[test]
fn the_last_of_equal_baselines_counts() {
    let mut report = BenchReport::new(bench_metadata());
    let mut slow = plain_result();
    slow.results.consumer_throughput_ops_sec = metric(10.0);
    let mut other = plain_result();
    other.layer = "typed".to_string();
    report.add(slow);
    report.add(plain_result());
    report.add(other);
    let plan = report.derivation_plan(2).unwrap();
    match plan.raw_share {
        RawShare::Against(baseline) => assert_eq!(number(baseline), 19.0),
        _ => panic!("expected a baseline"),
    }
}

#[test]
fn codec_keys_join_a_codec_with_its_bincode_baseline() {
    let of = |bench: &str, scenario: &str, layer: &str, codec: Option<&str>| {
        codec_speedup_key(&make_test_result(
            bench,
            scenario,
            "shm",
            layer,
            codec,
            "max_throughput",
            BenchTransportSpec::unified_pingpong(),
            512,
            144,
            1024,
            100_000,
            10_000,
            1,
            1.0,
            1.0,
            None,
        ))
    };
    let bincode =
        of("pingpong_codec_shm", "pingpong_codec_1p1c_bincode_b8", "typed", Some("bincode"));
    let rkyv = of(
        "pingpong_typed_zero_copy_shm",
        "pingpong_codec_1p1c_rkyv_b8",
        "typed_zero_copy",
        Some("rkyv"),
    );
    assert!(bincode.is_some());
    assert_eq!(bincode, rkyv);
    assert_eq!(of("raw_ring_shm", "signal_1p1c_64B", "raw_ring", None), None);
}

#[test]
fn metrics_are_ordered_as_floating_point_totals_are() {
    let values: Vec<f64> = vec![3.5, -0.0, 0.0, f64::INFINITY, -7.25, f64::NAN, 1e-300];
    let metrics: Vec<Metric> = values.iter().map(|value| metric(*value)).collect();
    let least = values.iter().copied().min_by(f64::total_cmp).unwrap();
    let greatest = values.iter().copied().max_by(f64::total_cmp).unwrap();
    assert_eq!(least_metric(&metrics).unwrap().bits, least.to_bits());
    assert_eq!(greatest_metric(&metrics).unwrap().bits, greatest.to_bits());
    for a in &values {
        for b in &values {
            assert_eq!(metric(*a).exceeds(&metric(*b)), a > b);
            assert_eq!(
                metric(*a).ranks_below(&metric(*b)),
                a.total_cmp(b) == std::cmp::Ordering::Less
            );
        }
    }
    assert!(least_metric(&Vec::new()).is_none());
}

#[test]
fn no_reports_cannot_be_aggregated() {
    let error = aggregated(&["cargo"], Vec::new(), 10.0).unwrap_err();
    assert_eq!(error, "repeatability aggregation requires at least one report");
}

#[test]
fn a_repeated_benchmark_id_is_refused() {
    let mut run = BenchReport::new(bench_metadata());
    run.add(sample_result("bench/raw_ring/a", "a", 100.0, 98.0));
    run.add(sample_result("bench/raw_ring/a", "a", 100.0, 98.0));
    assert_eq!(
        index_report(&run).unwrap_err(),
        "duplicate benchmark_id in repeatability input: bench/raw_ring/a"
    );
}

#[test]
fn scenarios_come_out_sorted_by_their_ids() {
    let mut run1 = BenchReport::new(bench_metadata());
    run1.add(sample_result("bench/b", "b", 100.0, 98.0));
    run1.add(sample_result("bench/a", "a", 50.0, 49.0));
    let mut run2 = BenchReport::new(bench_metadata());
    run2.add(sample_result("bench/a", "a", 50.0, 49.0));
    run2.add(sample_result("bench/b", "b", 100.0, 98.0));
    let report = aggregated(&["cargo"], vec![run1, run2], 10.0).unwrap();
    assert_eq!(report.scenarios[0].scenario, "a");
    assert_eq!(report.scenarios[1].scenario, "b");
    assert_eq!(report.scenarios[1].runs.len(), 2);
    assert_eq!(number(report.scenarios[1].runs[1].producer_throughput_ops_sec), 100.0);
    assert_eq!(report.scenarios[1].runs[1].run_index, 1);
}

#[test]
fn unsteady_and_unverified_scenarios_fail_for_cause() {
    let mut run1 = BenchReport::new(bench_metadata());
    run1.add(sample_result("bench/a", "a", 100.0, 98.0));
    let mut run2 = BenchReport::new(bench_metadata());
    let mut bad = sample_result("bench/a", "a", 300.0, 98.0);
    bad.results.verification_passed = false;
    bad.latency = None;
    run2.add(bad);
    let report = aggregated(&["cargo"], vec![run1, run2], 10.0).unwrap();
    assert!(!report.overall_pass);
    let scenario = &report.scenarios[0];
    assert!(!scenario.pass);
    assert_eq!(
        scenario.failures,
        vec![
            "verification failed in at least one run".to_string(),
            "producer throughput CV 70.71% exceeded 10.00%".to_string(),
        ]
    );
    assert!(scenario.latency_p50_ns.is_none());
    assert!(scenario.latency_p99_ns.is_none());
}

#[test]
fn words_with_blanks_are_quoted() {
    let parts = vec!["cargo".to_string(), "bench it".to_string(), "--quick".to_string()];
    assert_eq!(shell_words(&parts), "cargo \"bench it\" --quick");
    assert_eq!(shell_words(&Vec::new()), "");
}

fn shown_numbers() -> Vec<RepeatabilityNumbers> {
    vec![RepeatabilityNumbers {
        producer_mean: "101".to_string(),
        producer_cv: "1.51%".to_string(),
        consumer_mean: "98".to_string(),
        consumer_cv: "1.02%".to_string(),
        p99_mean: "150ns".to_string(),
    }]
}

#[test]
fn repeatability_is_drawn_in_two_styles() {
    let mut run = BenchReport::new(bench_metadata());
    run.add(sample_result("bench/a", "a", 101.0, 98.0));
    let report = aggregated(&["cargo", "bench it"], vec![run], 10.0).unwrap();
    let table = render_summary_table(&report, &shown_numbers());
    assert!(table.starts_with('┌'));
    assert!(table.contains("Prod Mean"));
    assert!(table.contains("1.51%"));
    assert!(table.contains("PASS"));
    let markdown = render_markdown(&report, "10.00", &shown_numbers());
    assert!(markdown.starts_with("# Repeatability Report\n\n- **Generated At**: "));
    assert!(markdown.contains("- **Repeats**: 1\n- **Threshold**: 10.00% CV\n- **Overall Pass**: true\n- **Command**: `cargo \"bench it\"`\n"));
    assert!(markdown.contains("\n## Scenarios\n\n| Scenario "));
    assert!(markdown.ends_with("|\n"));
}
