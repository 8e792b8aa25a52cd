use perf_bench::averages::MeanPlan;
use perf_bench::latency::{LatencyRecorder, LatencyStats};
use perf_bench::metric::Metric;
use perf_bench::report::adapt::{
    adapt_scenario, adapt_scenario_back, batch_size_from_result, parse_benchmark_id,
    BenchReportCompat, ReportBundleCompat,
};
use perf_bench::report::csv::CsvNumbers;
use perf_bench::report::emit::{
    emit_flat_report_with_extra_json, emit_report, emit_report_with_extra_json, EmitStep,
};
use perf_bench::report::kinds::{
    backend_name, codec_name, coordination_name, discovery_name, framing_name, infer_family,
    measurement_name, parse_backend, parse_codec, parse_coordination, parse_discovery,
    parse_framing, parse_measurement, parse_wait_strategy, parse_zero_copy, wait_strategy_name,
    zero_copy_enabled, BackendKind, CodecKind, DiscoveryKind, FramingKind, MeasurementKind,
    ScenarioFamily, WaitStrategyKind, ZeroCopyKind,
};
use perf_bench::report::layout::{LayoutTargetMeasurement, LayoutTargetSpec};
use perf_bench::report::model::{
    ConsumerAggregate, DerivedMetrics, ProducerMetrics, ReportBundle, RunMetadata, ScenarioConfig,
    ScenarioIdentity, ScenarioOutcome, ScenarioReport, ThroughputOutcome, TransportSpec,
    VerificationMetrics, WorkloadConfig,
};
use perf_bench::report::table::{human_alloc_bytes, throughput_rows, SummaryNumbers};
use perf_bench::reporting::{
    attach_child_metrics, make_result, BenchMetadata, BenchReport, BenchResult, BenchResultSpec,
    BenchTransportSpec, DerivationPlan, DerivedValues, RawShare, ReportOutputArgs,
    ReportView,
};
use perf_bench::results::{ConsumerOutput, MeasuredRates, PhaseTiming, ProducerOutput};
use std::time::Duration;

fn metric(value: f64) -> Metric {
    Metric { bits: value.to_bits() }
}

fn number(value: Metric) -> f64 {
    f64::from_bits(value.bits)
}

fn bench_metadata() -> BenchMetadata {
    BenchMetadata {
        timestamp: "2026-04-25T14:30:00+00:00".to_string(),
        platform: "linux x86_64".to_string(),
        cpu: "cpu".to_string(),
        git_commit: None,
        rust_version: "1.85".to_string(),
    }
}

fn run_metadata() -> RunMetadata {
    RunMetadata {
        timestamp: "2026-04-25T14:30:00+00:00".to_string(),
        platform: "linux x86_64".to_string(),
        cpu: "cpu".to_string(),
        git_commit: None,
        rust_version: "1.85".to_string(),
    }
}

fn typed_shm_consumer_attach() -> LayoutTargetSpec {
    LayoutTargetSpec {
        scenario: "typed-shm-consumer-attach".to_string(),
        backend: BackendKind::Shm,
        layer: "typed".to_string(),
        budget_ns: 50_000_000,
    }
}

fn layout_bundle(spec: &LayoutTargetSpec, avg_ns: u64) -> ReportBundle {
    ReportBundle::from_layout_targets(
        "layout_validation",
        50,
        &vec![LayoutTargetMeasurement::new(spec, avg_ns)],
        &run_metadata(),
    )
}

fn measured(events: u64, elapsed: Duration, payload_bytes: usize) -> MeasuredRates {
    let secs = elapsed.as_secs_f64();
    let throughput = events as f64 / secs;
    let bandwidth = throughput * payload_bytes as f64;
    MeasuredRates {
        throughput_ops_sec: metric(throughput),
        elapsed_secs: metric(secs),
        bandwidth_bytes_sec: metric(bandwidth),
        data_rate_gbps: metric(bandwidth / 1e9),
    }
}

fn mean(plan: MeanPlan) -> Metric {
    let sum: f64 = plan.values.iter().map(|value| number(*value)).sum();
    metric(sum / plan.divisor as f64)
}

fn derived(plan: Option<DerivationPlan>) -> DerivedValues {
    let nothing = metric(f64::NAN);
    let Some(plan) = plan else {
        return DerivedValues {
            hw_efficiency_pct: nothing,
            pct_of_raw_ring: nothing,
            delta_vs_raw_ring_pct: nothing,
            speedup_vs_bincode: nothing,
            delta_vs_bincode_pct: nothing,
        };
    };
    let throughput = number(plan.consumer_throughput_ops_sec);
    let rate = plan
        .recorded_rate_gbps
        .map(number)
        .unwrap_or(throughput * plan.message_size_bytes as f64 / 1e9);
    let share = match plan.raw_share {
        RawShare::Whole => 100.0,
        RawShare::Against(baseline) => throughput / number(baseline) * 100.0,
        RawShare::Missing => f64::NAN,
    };
    let speedup = plan.bincode_baseline.map(|b| throughput / number(b)).unwrap_or(f64::NAN);
    DerivedValues {
        hw_efficiency_pct: metric((rate / 300.0) * 100.0),
        pct_of_raw_ring: metric(share),
        delta_vs_raw_ring_pct: metric(share - 100.0),
        speedup_vs_bincode: metric(speedup),
        delta_vs_bincode_pct: metric((speedup - 1.0) * 100.0),
    }
}

fn all_derived(report: &BenchReport) -> Vec<DerivedValues> {
    (0..report.results.len()).map(|i| derived(report.derivation_plan(i))).collect()
}

#[allow(clippy::too_many_arguments)]
fn make_test_result(
    bench_name: &str,
    scenario: &str,
    backend: &str,
    layer: &str,
    codec: Option<&str>,
    measurement_mode: &str,
    transport: BenchTransportSpec,
    msg_bytes: usize,
    payload_bytes: usize,
    buffer_depth: usize,
    num_messages: u64,
    warmup_messages: u64,
    num_consumers: usize,
    prod_ops: f64,
    cons_ops: f64,
    latency: Option<LatencyStats>,
) -> BenchResult {
    make_result(
        BenchResultSpec {
            bench_name: bench_name.to_string(),
            scenario: scenario.to_string(),
            backend: backend.to_string(),
            layer: layer.to_string(),
            codec: codec.map(|value| value.to_string()),
            measurement_mode: measurement_mode.to_string(),
            wait_strategy: "BusySpin".to_string(),
            transport,
            message_size_bytes: msg_bytes,
            payload_bytes,
            buffer_depth,
            num_messages,
            warmup_messages,
            num_producers: 1,
            num_consumers,
            producer_throughput_ops_sec: metric(prod_ops),
            consumer_throughput_ops_sec: metric(cons_ops),
            latency,
        },
        metric(prod_ops * msg_bytes as f64 / 1_000_000.0),
        bench_metadata(),
    )
}

#[test]
fn adapts_throughput_result_with_structured_metrics() {
    let mut recorder = LatencyRecorder::default_range();
    recorder.record(200);
    recorder.record(400);
    let latency = recorder.stats().expect("latency stats");

    let mut result = make_test_result(
        "codec_e2e_shm",
        "rkyv_b8_1p2c",
        "shm",
        "raw_ring+codec",
        Some("rkyv"),
        "co_aware@20000",
        BenchTransportSpec::benchmark_shm(2)
            .with_zero_copy(true)
            .with_framing("none"),
        2048,
        2048,
        4096,
        50_000,
        5_000,
        2,
        123_456.0,
        120_000.0,
        Some(latency),
    );

    let producer = ProducerOutput {
        throughput_ops_sec: metric(123_456.0),
        elapsed_secs: metric(1.0),
        events_produced: 50_000,
        bandwidth_bytes_sec: metric(252_837_888.0),
        data_rate_gbps: metric(0.252837888),
        phase_timing: Some(PhaseTiming {
            encode_avg_ns: Some(metric(100.0)),
            transport_write_avg_ns: Some(metric(200.0)),
            transport_read_avg_ns: Some(metric(300.0)),
            decode_avg_ns: Some(metric(400.0)),
        }),
    };
    let consumer0 = ConsumerOutput::from_elapsed(
        0,
        50_000,
        measured(50_000, Duration::from_millis(400), 2048),
        11,
    )
    .with_latency(latency);
    let consumer1 = ConsumerOutput::from_elapsed(
        1,
        50_000,
        measured(50_000, Duration::from_millis(420), 2048),
        17,
    );
    let consumers = vec![consumer0, consumer1];
    attach_child_metrics(&mut result, &producer, &consumers, &mean);
    result.results.access_avg_ns = Some(metric(42.5));
    result.results.access_vs_decode_speedup = Some(metric(4.25));
    result.results.alloc_count = Some(0);
    result.results.alloc_bytes = Some(0);

    let mut report = BenchReport::new(bench_metadata());
    report.add(result);
    let bundle = report.to_report(&all_derived(&report));

    assert_eq!(bundle.scenarios.len(), 1);
    let scenario = &bundle.scenarios[0];
    assert_eq!(scenario.identity.benchmark, "codec_e2e_shm");
    assert_eq!(scenario.identity.family, ScenarioFamily::CodecE2E);
    assert_eq!(scenario.identity.backend, BackendKind::Shm);
    assert_eq!(scenario.identity.codec, Some(CodecKind::Rkyv));
    assert_eq!(
        scenario.config.measurement,
        MeasurementKind::CoAware {
            target_rate: 20_000
        }
    );
    assert_eq!(scenario.config.workload.batch_size, Some(8));

    let ScenarioOutcome::Throughput(outcome) = &scenario.outcome else {
        panic!("expected throughput outcome");
    };
    assert_eq!(outcome.per_consumer.len(), 2);
    assert_eq!(outcome.verification.messages_processed, 50_000);
    assert_eq!(number(outcome.producer.throughput_ops_sec), 123_456.0);
    assert_eq!(outcome.consumers.checksum_total, Some(28));
    assert!(outcome.phase_timing.is_some());
    assert!(outcome.latency.is_some());
    assert_eq!(outcome.derived.access_avg_ns.map(number), Some(42.5));
    assert_eq!(outcome.derived.access_vs_decode_speedup.map(number), Some(4.25));
    assert_eq!(outcome.derived.alloc_count, Some(0));
    assert_eq!(outcome.derived.alloc_bytes, Some(0));
}

#[test]
fn adapts_layout_result_as_first_class_layout_outcome() {
    let spec = typed_shm_consumer_attach();
    let report = layout_bundle(&spec, 12_345);

    let bundle = report;
    assert_eq!(bundle.scenarios.len(), 1);
    let scenario = &bundle.scenarios[0];
    assert_eq!(scenario.identity.family, ScenarioFamily::LayoutValidation);
    assert_eq!(
        scenario.config.measurement,
        MeasurementKind::LayoutValidation
    );

    let ScenarioOutcome::Layout(outcome) = &scenario.outcome else {
        panic!("expected layout outcome");
    };
    assert_eq!(outcome.avg_ns, 12_345);
    assert_eq!(outcome.iterations, 50);
    assert!(outcome.pass);
}

#[test]
fn round_trips_report_bundle_back_into_v1_compat_report() {
    let mut result = make_test_result(
        "raw_ring_shm",
        "signal_1p2c_64B",
        "shm",
        "raw_ring",
        None,
        "max_throughput",
        BenchTransportSpec::benchmark_shm(2)
            .with_zero_copy(false)
            .with_framing("none"),
        64,
        64,
        65_536,
        1_000_000,
        100_000,
        2,
        10_000_000.0,
        9_500_000.0,
        None,
    );
    result.results.consumer_checksum_total = Some(18);
    result.results.access_avg_ns = Some(metric(18.0));
    result.results.access_vs_decode_speedup = Some(metric(3.5));
    result.results.alloc_count = Some(0);
    result.results.alloc_bytes = Some(0);

    let mut report = BenchReport::new(bench_metadata());
    report.add(result);

    let compat = report.to_report(&all_derived(&report)).to_report_v1_compat();
    assert_eq!(compat.results.len(), 1);
    assert_eq!(
        compat.results[0].benchmark_id,
        "myelon-bench/raw_ring_shm/signal_1p2c_64B"
    );
    assert_eq!(compat.results[0].backend, "shm");
    assert_eq!(compat.results[0].results.consumer_checksum_total, Some(18));
    assert_eq!(compat.results[0].results.access_avg_ns.map(number), Some(18.0));
    assert_eq!(
        compat.results[0].results.access_vs_decode_speedup.map(number),
        Some(3.5)
    );
    assert_eq!(compat.results[0].results.alloc_count, Some(0));
    assert_eq!(compat.results[0].results.alloc_bytes, Some(0));
}

#[test]
fn pingpong_typed_zero_copy_benches_map_to_pingpong_family() {
    assert_eq!(
        infer_family("pingpong_typed_zero_copy_shm"),
        ScenarioFamily::PingPong
    );
    assert_eq!(
        infer_family("pingpong_typed_zero_copy_mmap"),
        ScenarioFamily::PingPong
    );
}

#[test]
fn writes_layout_csv() {
    let spec = typed_shm_consumer_attach();
    let report = layout_bundle(&spec, 123);
    let csv = report.write_csv(&vec![no_csv_numbers()]);
    assert!(csv.contains("layout_avg_ns"));
    assert!(csv.contains("typed-shm-consumer-attach"));
}

fn no_csv_numbers() -> CsvNumbers {
    CsvNumbers {
        prod_ops: String::new(),
        cons_ops: String::new(),
        mbps: String::new(),
        cons_min_ops: String::new(),
        cons_max_ops: String::new(),
        cons_total_ops: String::new(),
        pct_raw: String::new(),
        delta_raw_pct: String::new(),
        speedup_vs_bincode: String::new(),
        delta_bincode_pct: String::new(),
        access_avg_ns: String::new(),
        access_vs_decode_speedup: String::new(),
        hw_limit_gbps: String::new(),
        hw_efficiency_pct: String::new(),
    }
}

#[test]
fn builds_first_class_layout_bundle() {
    let spec = typed_shm_consumer_attach();
    let report = layout_bundle(&spec, 123);
    assert_eq!(report.scenarios.len(), 1);
    assert!(matches!(
        report.scenarios[0].outcome,
        ScenarioOutcome::Layout(_)
    ));
    assert_eq!(report.scenarios[0].identity.layer, "typed");
    assert!(matches!(
        report.scenarios[0].identity.backend,
        BackendKind::Shm
    ));
}

#[test]
fn renders_layout_summary_table() {
    let spec = typed_shm_consumer_attach();
    let report = layout_bundle(&spec, 123);
    let table = report.render_summary_table(&vec![no_summary_numbers()]);
    assert!(table.contains("typed-shm-consumer-attach"));
    assert!(table.contains("PASS"));
}

fn no_summary_numbers() -> SummaryNumbers {
    SummaryNumbers {
        access_avg: "-".to_string(),
        access_speedup: "-".to_string(),
        prod_ops: "-".to_string(),
        cons_ops: "-".to_string(),
    }
}

fn access_report() -> ReportBundle {
    ReportBundle {
        metadata: run_metadata(),
        scenarios: vec![ScenarioReport {
            identity: ScenarioIdentity {
                benchmark_id: "myelon-bench/typed_zero_copy_sweep/demo".into(),
                suite: "myelon-bench".into(),
                benchmark: "typed_zero_copy_sweep".into(),
                family: ScenarioFamily::MyelonLayerSweep,
                scenario: "typed_zero_copy_rkyv_shm_1KB_1p1c".into(),
                backend: BackendKind::Shm,
                layer: "typed_zero_copy".into(),
                codec: Some(CodecKind::Rkyv),
            },
            config: ScenarioConfig {
                measurement: MeasurementKind::MaxThroughput,
                transport: TransportSpec {
                    wait_strategy: WaitStrategyKind::BusySpin,
                    coordination: None,
                    discovery: None,
                    framing: None,
                    zero_copy: Some(ZeroCopyKind::Enabled),
                },
                workload: WorkloadConfig {
                    message_size_bytes: 1024,
                    payload_bytes: 1024,
                    buffer_depth: 1024,
                    num_messages: 1000,
                    warmup_messages: 100,
                    num_producers: 1,
                    num_consumers: 1,
                    batch_size: Some(8),
                },
            },
            outcome: ScenarioOutcome::Throughput(ThroughputOutcome {
                producer: ProducerMetrics {
                    throughput_ops_sec: metric(1000.0),
                    bandwidth_bytes_sec: None,
                    data_rate_gbps: None,
                    data_rate_mbps: metric(1.0),
                },
                consumers: ConsumerAggregate {
                    average_throughput_ops_sec: metric(1000.0),
                    min_throughput_ops_sec: None,
                    max_throughput_ops_sec: None,
                    total_throughput_ops_sec: None,
                    average_bandwidth_bytes_sec: None,
                    average_data_rate_gbps: None,
                    checksum_total: None,
                },
                per_consumer: Vec::new(),
                verification: VerificationMetrics {
                    passed: true,
                    messages_processed: 1000,
                },
                latency: None,
                phase_timing: None,
                derived: DerivedMetrics {
                    access_avg_ns: Some(metric(123.4)),
                    access_vs_decode_speedup: Some(metric(5.6)),
                    alloc_count: Some(0),
                    alloc_bytes: Some(0),
                    ..Default::default()
                },
            }),
            metadata: run_metadata(),
        }],
    }
}

#[test]
fn renders_access_columns_in_summary_table() {
    let report = access_report();
    let numbers = SummaryNumbers {
        access_avg: format!("{:.1}ns", 123.4),
        access_speedup: format!("{:.1}x", 5.6),
        prod_ops: "1.0K".to_string(),
        cons_ops: "1.0K".to_string(),
    };
    let table = report.render_summary_table(&vec![numbers]);
    assert!(table.contains("Access"));
    assert!(table.contains("123.4ns"));
    assert!(table.contains("5.6x"));
    assert!(table.contains("Allocs"));
    assert!(table.contains("0B"));
}

#[test]
fn missing_figures_show_as_dashes() {
    let mut report = access_report();
    if let ScenarioOutcome::Throughput(outcome) = &mut report.scenarios[0].outcome {
        outcome.derived = DerivedMetrics::default();
    }
    report.scenarios[0].identity.codec = None;
    let rows = throughput_rows(&report, &vec![no_summary_numbers()]);
    let header = &rows[0];
    let row = &rows[1];
    assert_eq!(header.len(), row.len());
    assert_eq!(header[0], "Scenario");
    assert_eq!(row[0], "typed_zero_copy_rkyv_shm_1KB_1p1c");
    let position = header.iter().position(|cell| cell == "Codec").unwrap();
    assert_eq!(row[position], "-");
    let position = header.iter().position(|cell| cell == "P99.999").unwrap();
    assert_eq!(row[position], "-");
    let position = header.iter().position(|cell| cell == "Alloc bytes").unwrap();
    assert_eq!(row[position], "-");
}

#[test]
fn the_table_is_drawn_by_the_table_crate() {
    let spec = typed_shm_consumer_attach();
    let report = layout_bundle(&spec, 123);
    let table = report.render_summary_table(&vec![no_summary_numbers()]);
    let lines: Vec<&str> = table.lines().collect();
    assert_eq!(lines.len(), 5);
    assert!(lines[0].starts_with("+-"));
    assert!(lines[1].starts_with("| Target "));
    assert!(lines[3].contains("| typed-shm-consumer-attach |"));
    assert_eq!(lines[0], lines[4]);
}

#[test]
fn allocated_bytes_read_as_floating_point_division_prints_them() {
    for bytes in [0u64, 999, 1_000, 1_049, 1_050, 1_051, 1_250, 999_949, 999_950, 1_000_000, 1_250_000, 7_654_321, u64::MAX] {
        let expected = if bytes >= 1_000_000 {
            format!("{:.1}MB", bytes as f64 / 1_000_000.0)
        } else if bytes >= 1_000 {
            format!("{:.1}KB", bytes as f64 / 1_000.0)
        } else {
            format!("{bytes}B")
        };
        assert_eq!(human_alloc_bytes(bytes), expected);
    }
}

#[test]
fn a_target_over_its_budget_fails() {
    let spec = typed_shm_consumer_attach();
    let report = layout_bundle(&spec, 50_000_001);
    let ScenarioOutcome::Layout(outcome) = &report.scenarios[0].outcome else {
        panic!("expected layout outcome");
    };
    assert!(!outcome.pass);
    let table = report.render_summary_table(&vec![no_summary_numbers()]);
    assert!(table.contains("FAIL"));
    assert_eq!(
        report.scenarios[0].identity.benchmark_id,
        "perf-bench/layout_validation/typed-shm-consumer-attach"
    );
}

#[test]
fn a_throughput_line_has_a_cell_for_each_column() {
    let report = access_report();
    let numbers = CsvNumbers {
        prod_ops: "1000".to_string(),
        cons_ops: "1000".to_string(),
        mbps: "1.000".to_string(),
        ..no_csv_numbers()
    };
    let csv = report.write_csv(&vec![numbers]);
    let lines: Vec<&str> = csv.lines().collect();
    assert_eq!(lines.len(), 2);
    assert!(csv.ends_with('\n'));
    let header: Vec<&str> = lines[0].split(',').collect();
    let cells: Vec<&str> = lines[1].split(',').collect();
    assert_eq!(header.len(), 48);
    assert_eq!(header.len(), cells.len());
    let cell = |name: &str| cells[header.iter().position(|column| *column == name).unwrap()];
    assert_eq!(cell("scenario"), "typed_zero_copy_rkyv_shm_1KB_1p1c");
    assert_eq!(cell("backend"), "shm");
    assert_eq!(cell("codec"), "rkyv");
    assert_eq!(cell("mode"), "max_throughput");
    assert_eq!(cell("strategy"), "BusySpin");
    assert_eq!(cell("zero_copy"), "true");
    assert_eq!(cell("prod_ops"), "1000");
    assert_eq!(cell("alloc_count"), "0");
    assert_eq!(cell("verified"), "true");
    assert_eq!(cell("layout_pass"), "");
}

#[test]
fn a_layout_line_is_written_in_full() {
    let spec = typed_shm_consumer_attach();
    let report = layout_bundle(&spec, 123);
    let csv = report.write_csv(&vec![no_csv_numbers()]);
    let line = csv.lines().nth(1).unwrap();
    assert_eq!(
        line,
        "typed-shm-consumer-attach,shm,typed,,layout_validation,n/a,0,0,0,1,,,,,,,,,,,,,,,,,,,,,,,,,true,123,50000000,true,50"
    );
}

#[test]
fn names_of_kinds_read_back() {
    for name in ["shm", "mmap", "layout", "other"] {
        assert_eq!(backend_name(&parse_backend(name)), name);
    }
    for name in ["bincode", "rkyv", "flatbuf", "cbor"] {
        assert_eq!(codec_name(&parse_codec(name)), name);
    }
    for name in ["BusySpin", "BusySpinWithSpinLoopHint", "Block", "Sleep", "n/a"] {
        assert_eq!(wait_strategy_name(&parse_wait_strategy(name)), name);
    }
    for name in ["BenchmarkCoordination", "UnifiedCoordination", "mmap_builtin", "none"] {
        assert_eq!(coordination_name(&parse_coordination(name)), name);
    }
    for name in ["none", "fixed_64k", "fixed_64k_batch", "right_sized", "odd"] {
        assert_eq!(framing_name(&parse_framing(name)), name);
    }
    for name in ["disabled", "enabled(3)", "explicit_consumer_id"] {
        assert_eq!(discovery_name(&parse_discovery(name)), name);
    }
    for name in ["max_throughput", "batch_timing", "layout_validation", "co_aware@20000", "odd"] {
        assert_eq!(measurement_name(&parse_measurement(name)), name);
    }
    assert!(zero_copy_enabled(&parse_zero_copy(true)));
    assert!(!zero_copy_enabled(&parse_zero_copy(false)));
}

#[test]
fn unknown_kinds_keep_their_text() {
    assert_eq!(parse_backend("ring"), BackendKind::Unknown("ring".to_string()));
    assert_eq!(parse_codec("cbor"), CodecKind::Unknown("cbor".to_string()));
    assert_eq!(parse_framing("none"), FramingKind::Unframed);
    assert_eq!(parse_discovery("enabled(12)"), DiscoveryKind::Enabled { consumers: 12 });
    assert_eq!(
        parse_discovery("enabled(x)"),
        DiscoveryKind::Unknown("enabled(x)".to_string())
    );
    assert_eq!(
        parse_measurement("co_aware@fast"),
        MeasurementKind::Unknown("co_aware@fast".to_string())
    );
}

#[test]
fn benchmark_ids_split_into_suite_and_benchmark() {
    assert_eq!(
        parse_benchmark_id("myelon-bench/raw_ring_shm/signal_1p2c_64B"),
        ("myelon-bench".to_string(), "raw_ring_shm".to_string())
    );
}

#[test]
fn batch_sizes_come_from_scenario_names() {
    let plain = |scenario: &str| {
        make_test_result(
            "codec_e2e_shm",
            scenario,
            "shm",
            "typed",
            Some("rkyv"),
            "max_throughput",
            BenchTransportSpec::benchmark_shm(1),
            64,
            64,
            64,
            1,
            0,
            1,
            1.0,
            1.0,
            None,
        )
    };
    assert_eq!(batch_size_from_result(&plain("rkyv_b8_1p2c")), Some(8));
    assert_eq!(batch_size_from_result(&plain("message_1p1c_144B")), None);
}

#[test]
fn adapting_there_and_back_keeps_a_result() {
    let result = make_test_result(
        "raw_ring_mmap",
        "message_1p1c_144B",
        "mmap",
        "raw_ring",
        None,
        "co_aware@400000",
        BenchTransportSpec::mmap_builtin()
            .with_zero_copy(false)
            .with_framing("none"),
        144,
        128,
        1024,
        100_000,
        1_000,
        1,
        20_000_000.0,
        19_000_000.0,
        None,
    );
    let back = adapt_scenario_back(&adapt_scenario(&result));
    assert_eq!(back.benchmark_id, result.benchmark_id);
    assert_eq!(back.scenario, result.scenario);
    assert_eq!(back.backend, result.backend);
    assert_eq!(back.layer, result.layer);
    assert_eq!(back.measurement_mode, result.measurement_mode);
    assert_eq!(back.wait_strategy, result.wait_strategy);
    assert_eq!(back.config.coordination, result.config.coordination);
    assert_eq!(back.config.discovery_mode, result.config.discovery_mode);
    assert_eq!(back.config.framing, result.config.framing);
    assert_eq!(back.config.zero_copy, result.config.zero_copy);
    assert_eq!(
        back.results.producer_throughput_ops_sec,
        result.results.producer_throughput_ops_sec
    );
    assert_eq!(back.results.data_rate_mbps, result.results.data_rate_mbps);
}

fn output_args(flags: &[&str]) -> ReportOutputArgs {
    let args: Vec<String> = flags.iter().map(|flag| flag.to_string()).collect();
    ReportOutputArgs::from_args(&args)
}

#[test]
fn json_mode_prints_json_whatever_the_views_are() {
    let steps = emit_report(
        &output_args(&["bench", "--json", "--tree", "--quick"]),
        Some(ReportView::Summary),
        Some(ReportView::Tree),
        false,
        None,
    );
    assert_eq!(steps, vec![EmitStep::PrintJson]);
}

#[test]
fn quick_mode_uses_its_own_view() {
    let quick = emit_report(
        &output_args(&["bench", "--quick"]),
        Some(ReportView::Summary),
        Some(ReportView::Tree),
        false,
        None,
    );
    assert_eq!(quick, vec![EmitStep::PrintTree]);
    let silent = emit_report(
        &output_args(&["bench", "--quick"]),
        Some(ReportView::Summary),
        None,
        false,
        None,
    );
    assert!(silent.is_empty());
    let plain = emit_report(
        &output_args(&["bench"]),
        Some(ReportView::Summary),
        Some(ReportView::Tree),
        false,
        None,
    );
    assert_eq!(plain, vec![EmitStep::PrintSummary]);
}

#[test]
fn files_are_written_in_order() {
    let steps = emit_report_with_extra_json(
        &output_args(&[
            "bench",
            "--json-out",
            "a.json",
            "--csv-out",
            "b.csv",
            "--md-out",
            "c.md",
        ]),
        None,
        None,
        true,
        Some("env.json"),
        Some("extra.json"),
    );
    assert_eq!(
        steps,
        vec![
            EmitStep::WriteJson { path: "a.json".to_string(), announced: true },
            EmitStep::WriteCsv { path: "b.csv".to_string() },
            EmitStep::WriteMarkdown { path: "c.md".to_string(), own_writer: true },
            EmitStep::WriteJson { path: "env.json".to_string(), announced: false },
            EmitStep::WriteJson { path: "extra.json".to_string(), announced: false },
        ]
    );
}

#[test]
fn a_flat_report_goes_to_the_same_places() {
    let args = output_args(&["bench", "--csv-out", "b.csv"]);
    let flat = emit_flat_report_with_extra_json(
        &args,
        Some(ReportView::Summary),
        None,
        false,
        None,
        Some("extra.json"),
    );
    assert!(flat.contains(&EmitStep::WriteCsv { path: "b.csv".to_string() }));
    assert!(flat.contains(&EmitStep::PrintSummary));
}

#[test]
fn layout_reports_survive_the_flat_form() {
    let spec = typed_shm_consumer_attach();
    let report = layout_bundle(&spec, 123);
    let flat = report.to_report_v1_compat();
    assert_eq!(flat.results.len(), 1);
    let metrics = flat.results[0].results.layout_validation.unwrap();
    assert_eq!((metrics.avg_ns, metrics.budget_ns, metrics.iterations), (123, 50_000_000, 50));
    assert!(metrics.pass);
    let back = adapt_scenario(&flat.results[0]);
    assert_eq!(back.identity.benchmark_id, report.scenarios[0].identity.benchmark_id);
    assert_eq!(back.identity.family, ScenarioFamily::LayoutValidation);
    let ScenarioOutcome::Layout(outcome) = &back.outcome else {
        panic!("expected layout outcome");
    };
    assert_eq!((outcome.avg_ns, outcome.iterations, outcome.pass), (123, 50, true));
}
