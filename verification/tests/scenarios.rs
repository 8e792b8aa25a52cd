use perf_bench::averages::{consumer_plan, shown_decode_plan, MeanPlan};
use perf_bench::bench::{
    aggregate_latency, average_consumer_ops, rate_mode_name, rate_of_mode, summary_label,
    IpcBenchmark, LatencyRule, ScenarioChildren,
};
use perf_bench::child_env::{
    codec_keys, framed_mmap_keys, framed_shm_keys, nofrag_mmap_keys, raw_mmap_message_keys,
    raw_ring_keys, raw_shm_keys, sweep_keys, typed_shm_keys, ChildDefaults, ChildKeys,
    ChildSettings, RingExtras, TypedPingPongEnv, WaitEnv,
};
use perf_bench::event_consumer::CountingRule;
use perf_bench::latency::{LatencyRecorder, LatencyStats};
use perf_bench::launch::{EnvVar, LaunchPlace};
use perf_bench::metric::Metric;
use perf_bench::pingpong::{
    await_step, check_child_message_size, check_message_size, child_counters_enabled,
    comparison_note, echo_step, lane_segment, pingpong_mode, record_fixed_rate_echo, supports_size,
    verification_word, AwaitStep, ComparisonNote, EchoAction, FixedRate, PingPongMode, PingRun,
};
use perf_bench::process::ProcessOutput;
use perf_bench::reporting::BenchMetadata;
use perf_bench::results::{ConsumerOutput, MeasuredRates, PhaseTiming, ProducerOutput};
use perf_bench::scenarios::codec_nofrag::{
    check_encoded_len, check_mode, parse_batch_codec, plan_codec_nofrag, rate_is_readable,
    slot_capacity, BatchCodec, CodecNoFragArgs, CodecNoFragScenario,
};
use perf_bench::scenarios::framed_sweep::{plan_framed_sweep, FramedSweepScenario, FramedSweepSpec};
use perf_bench::scenarios::monster_sweep::{plan_monster_sweep, MonsterSweepSpec, SweepPoint};
use perf_bench::scenarios::nofrag_all::{
    nofrag_run_line, plan_nofrag_sweep, NofragScenario, NofragVariant, PayloadSweepSpec,
};
use perf_bench::scenarios::raw_ring::{
    counting_rule, ring_signal_mode, RawRingScenario, RawRingScenarioKind, RawRingScenarioSpec,
    RawRingSuite, RawRingTransport,
};
use perf_bench::scenarios::selection::{
    backlog_timeout, checks_backlog, flag_number, flag_or, matches_number, matches_value,
    throttle_mmap_backlog, SweepBackend, SweepSelection,
};
use perf_bench::scenarios::typed_pingpong::{
    parse_typed_wait_strategy, reassembly_capacity, typed_echo_step, zero_copy_layer, Initiator,
    InitiatorStep, TypedEchoStep, TypedPingPongScenario, TypedPingPongSpec, TypedWaitStrategy,
};
use perf_bench::scenarios::typed_zero_copy::{
    parse_pingpong_codec, parse_sweep_codec, plan_typed_sweep, TypedRoles, TypedSweep,
    TypedSweepSpec, TypedZeroCopyCodec, TypedZeroCopyScenario,
};
use perf_bench::scenarios::wait_strategy::{
    apply_wait_strategy, drain_strategy, wait_discovery_scans, wait_mode, wait_num_events,
    DrainStrategy, IdleAction, WaitStrategyScenario,
};
use perf_bench::signal_latency::SignalLatencyMode;
use perf_bench::summary::SummaryFigures;

fn owned(args: &[&str]) -> Vec<String> {
    args.iter().map(|arg| arg.to_string()).collect()
}

fn metric(value: f64) -> Metric {
    Metric { bits: value.to_bits() }
}

fn mean(plan: MeanPlan) -> Metric {
    let sum: f64 = plan.values.iter().map(|value| f64::from_bits(value.bits)).sum();
    metric(sum / plan.divisor as f64)
}

fn place() -> LaunchPlace {
    LaunchPlace {
        segment: "seg".to_string(),
        pong_segment: "pong".to_string(),
        coordination_segment: "coord".to_string(),
        root: "/tmp/root".to_string(),
        signal_mode: SignalLatencyMode::SidecarMonoRawNs,
        sample_every: 64,
    }
}

fn pairs(envs: &[EnvVar]) -> Vec<(&str, &str)> {
    envs.iter().map(|var| (var.key.as_str(), var.value.as_str())).collect()
}

fn reads(envs: &Vec<EnvVar>, keys: &ChildKeys) -> ChildSettings {
    let defaults = ChildDefaults { buffer: 1, events: 1, consumers: 99 };
    ChildSettings::read(envs, keys, &defaults).unwrap()
}

fn figures() -> SummaryFigures {
    SummaryFigures {
        producer_ops: "1.50M".to_string(),
        consumer_ops: "50.0K".to_string(),
        target_rate: "20.0K".to_string(),
        bandwidth_gbs: "1.2".to_string(),
        encode_us: "0.1".to_string(),
        write_us: "0.2".to_string(),
        decode_us: "0.3".to_string(),
        latency: None,
        p99_ns: None,
    }
}

fn ring(transport: RawRingTransport, label: &str, target_rate: u64) -> RawRingScenario {
    RawRingScenario::from_spec(
        transport,
        &RawRingScenarioSpec {
            label: label.to_string(),
            kind: RawRingScenarioKind::Message,
            producer_role: "msg_producer".to_string(),
            consumer_role: "msg_consumer".to_string(),
            event_bytes: 144,
            events: 100_000,
            buffer: 1024,
            warmup: 1_000,
            consumers: 2,
            record_latency: false,
            target_rate,
        },
    )
}

#[test]
fn a_raw_ring_tells_its_children_the_load() {
    let scenario = ring(RawRingTransport::Shm, "message_1p2c_144B", 0);
    let plan = scenario.launch(&place());
    assert_eq!(plan.producer.role, "msg_producer");
    let child = reads(&plan.consumers[1].envs, &raw_shm_keys());
    assert_eq!(child.segment, "seg");
    assert_eq!((child.buffer, child.events, child.consumers), (1024, 100_000, 2));
    assert_eq!((child.consumer_id, child.target_rate), (1, 0));
    let paced = ring(RawRingTransport::Shm, "message_1p2c_144B", 400_000).launch(&place());
    let child = reads(&paced.consumers[0].envs, &raw_shm_keys());
    assert_eq!(child.target_rate, 400_000);
    assert!(pairs(&paced.consumers[0].envs).contains(&("BENCH_RECORD_LATENCY", "1")));
    assert!(!pairs(&paced.producer.envs).contains(&("BENCH_RECORD_LATENCY", "1")));
}

#[test]
fn a_mapped_signal_ring_has_a_sidecar() {
    let mut scenario = ring(RawRingTransport::Mmap, "signal_1p1c_64B", 0);
    let plan = scenario.launch(&place());
    let envs = pairs(&plan.producer.envs);
    assert!(envs.contains(&(
        "PERF_BENCH_SIGNAL_SIDECAR_MMAP_PATH",
        "/tmp/root/seg.signal_timestamps"
    )));
    assert!(envs.contains(&("PERF_BENCH_SIGNAL_LATENCY_MODE", "sidecar-ns")));
    assert!(envs.contains(&("PERF_BENCH_SIGNAL_SAMPLE_EVERY", "64")));
    assert_eq!(plan.cleanup_path.as_deref(), Some("/tmp/root"));
    let child = reads(&plan.consumers[0].envs, &raw_mmap_message_keys());
    assert_eq!(child.root.as_deref(), Some("/tmp/root"));
    assert_eq!((child.buffer, child.events), (1024, 100_000));
    scenario.label = "message_1p2c_144B".to_string();
    let plan = scenario.launch(&place());
    assert!(plan.producer.envs.iter().all(|var| var.key != "PERF_BENCH_SIGNAL_SIDECAR_MMAP_PATH"));
}

#[test]
fn the_layer_above_has_roles_of_its_own() {
    let scenario = ring(RawRingTransport::MyelonMmap, "message_1p2c_144B", 0);
    assert_eq!(scenario.bench_name(), "raw_myelon_mmap");
    assert_eq!(scenario.producer_role, "my_mmap_multi_msg_producer");
    assert_eq!(scenario.consumer_role, "my_mmap_multi_msg_consumer");
}

#[test]
fn a_summary_shows_throughput_and_latency() {
    let scenario = ring(RawRingTransport::Shm, "message_1p2c_144B", 0);
    let line = scenario.summary_line(&figures()).unwrap();
    let expected = format!(
        "  {:<30} producer: {:>10} {}  {}: {:>10} {}{}",
        scenario.scenario_name(),
        "1.50M",
        scenario.throughput_unit(),
        "avg consumer",
        "50.0K",
        scenario.throughput_unit(),
        ""
    );
    assert_eq!(line, expected);
    let with_latency =
        SummaryFigures { latency: Some("P50=1ns".to_string()), ..figures() };
    assert_eq!(scenario.summary_line(&with_latency).unwrap(), format!("{expected}  P50=1ns"));
}

#[test]
fn rates_name_their_mode() {
    assert_eq!(rate_mode_name(0), "max_throughput");
    assert_eq!(rate_mode_name(400_000), "co_aware@400000");
    assert_eq!(summary_label(1), "consumer");
    assert_eq!(summary_label(3), "avg consumer");
    assert_eq!(ring(RawRingTransport::Shm, "m", 5).measurement_mode(), "co_aware@5");
}

fn stats(p99: u64) -> LatencyStats {
    let mut recorder = LatencyRecorder::default_range();
    recorder.record(p99);
    recorder.stats().unwrap()
}

fn consumer(id: usize, latency: Option<LatencyStats>) -> ConsumerOutput {
    let rates = MeasuredRates {
        throughput_ops_sec: metric(5.0),
        elapsed_secs: metric(1.0),
        bandwidth_bytes_sec: metric(5.0),
        data_rate_gbps: metric(0.5),
    };
    let output = ConsumerOutput::from_elapsed(id, 5, rates, 1);
    match latency {
        Some(stats) => output.with_latency(stats),
        None => output,
    }
}

#[test]
fn the_reported_latency_follows_its_rule() {
    let consumers =
        vec![consumer(0, Some(stats(900))), consumer(1, Some(stats(100))), consumer(2, None)];
    assert_eq!(aggregate_latency(LatencyRule::Last, &consumers).unwrap().p99_ns, 100);
    assert_eq!(aggregate_latency(LatencyRule::WorstP99, &consumers).unwrap().p99_ns, 900);
    assert!(aggregate_latency(LatencyRule::WorstP99, &vec![consumer(0, None)]).is_none());
}

#[test]
fn a_run_comes_to_a_result() {
    let scenario = ring(RawRingTransport::Shm, "message_1p2c_144B", 0);
    let consumers = vec![consumer(0, None), consumer(1, None)];
    let producer = ProducerOutput {
        throughput_ops_sec: metric(10.0),
        elapsed_secs: metric(1.0),
        events_produced: 10,
        bandwidth_bytes_sec: metric(10.0),
        data_rate_gbps: metric(1.0),
        phase_timing: None,
    };
    let metadata = BenchMetadata {
        timestamp: "t".to_string(),
        platform: "p".to_string(),
        cpu: "c".to_string(),
        git_commit: None,
        rust_version: "r".to_string(),
    };
    let result = scenario.build_result_with_metrics(
        &producer,
        &consumers,
        None,
        metric(0.00144),
        &mean,
        metadata,
    );
    assert_eq!(
        result.benchmark_id,
        format!("myelon-bench/raw_ring_shm/{}", scenario.scenario_name())
    );
    assert_eq!(result.config.num_consumers, 2);
    assert_eq!(result.config.buffer_depth, 1024);
    assert_eq!(result.results.consumer_total_throughput_ops_sec, Some(metric(10.0)));
    assert_eq!(result.results.consumer_checksum_total, Some(2));
    assert_eq!(result.results.consumer_throughput_ops_sec, metric(5.0));
    assert_eq!(result.measurement_mode, "max_throughput");
}

#[test]
fn a_failed_producer_is_an_error() {
    let scenario = ring(RawRingTransport::Shm, "message_1p2c_144B", 0);
    let output = |success: bool| ProcessOutput {
        stdout: String::new(),
        stderr: "boom".to_string(),
        success,
    };
    assert_eq!(scenario.producer_failure(&output(true)), None);
    assert_eq!(
        scenario.producer_failure(&output(false)).unwrap(),
        format!("{} producer failed\nstderr:\nboom", scenario.scenario_name())
    );
    assert_eq!(scenario.effective_timeout(Some(9)), 9);
    assert_eq!(scenario.effective_timeout(None), scenario.timeout());
    assert!(scenario.producer_label().ends_with(" prod"));
    assert!(scenario.consumer_label(3).ends_with(" cons3"));
}

#[test]
fn children_are_kept_with_what_they_leave() {
    let children = ScenarioChildren::new(1, vec![2, 3]).with_cleanup_path("/tmp/a".to_string());
    assert_eq!(children.producer, 1);
    assert_eq!(children.consumers, vec![2, 3]);
    assert_eq!(children.cleanup_paths, vec!["/tmp/a".to_string()]);
}

#[test]
fn selections_match_all_or_one() {
    assert!(matches_value("all", "shm"));
    assert!(matches_value("shm", "shm"));
    assert!(!matches_value("mmap", "shm"));
    assert!(matches_number("4", 4));
    assert!(!matches_number("x", 4));
    let args = owned(&["bench", "--size", "4KB", "--num-messages", "10", "--target-rate", "x"]);
    assert_eq!(flag_or(&args, "--size", "all"), "4KB");
    assert_eq!(flag_or(&args, "--mode", "all"), "all");
    assert_eq!(flag_number(&args, "--num-messages"), Some(10));
    assert_eq!(flag_number(&args, "--target-rate"), None);
    let selection = SweepSelection::parse(&args, "throughput");
    assert_eq!(selection.size, "4KB");
    assert!(selection.selects_rate(0));
    assert!(!selection.selects_rate(5));
    assert_eq!(selection.co_rate(7), 7);
    assert_eq!(selection.events_for(99), 10);
    assert!(selection.matches_size("4KB"));
    assert!(selection.matches_layer("raw_ring"));
    assert!(selection.matches_consumers(3));
}

#[test]
fn a_mapped_producer_waits_for_half_a_buffer() {
    assert_eq!(throttle_mmap_backlog(99, 64, 2), Some(67));
    assert_eq!(throttle_mmap_backlog(31, 64, 2), None);
    assert_eq!(throttle_mmap_backlog(32, 64, 2), Some(0));
    assert_eq!(throttle_mmap_backlog(99, 64, 1), None);
    assert_eq!(throttle_mmap_backlog(99, 1, 2), None);
    assert!(checks_backlog(31, 2));
    assert!(!checks_backlog(32, 2));
    assert!(!checks_backlog(31, 1));
    assert_eq!(
        backlog_timeout("framed", 67),
        "timeout waiting for consumers to drain framed mmap backlog at seq 67"
    );
}

fn framed_specs() -> Vec<FramedSweepSpec> {
    let spec = |layer: &str, tag: &str, payload_bytes: usize| FramedSweepSpec {
        layer: layer.to_string(),
        tag: tag.to_string(),
        payload_bytes,
        events: 1_000,
        base_buffer: 100,
        default_co_rate: 5_000,
        shm_producer_role: "shm_frame64_prod".to_string(),
        shm_consumer_role: "shm_frame64_cons".to_string(),
        mmap_producer_role: "mmap_frame64_prod".to_string(),
        mmap_consumer_role: "mmap_frame64_cons".to_string(),
    };
    vec![spec("framed", "1KB", 1024), spec("framed_right", "4KB", 4096)]
}

#[test]
fn a_framed_sweep_is_planned_by_its_flags() {
    let args = owned(&["bench", "--backend", "shm", "--mode", "all", "--size", "1KB"]);
    let selection = SweepSelection::parse(&args, "throughput");
    let plan = plan_framed_sweep(&framed_specs(), &selection, &vec![1, 4]);
    assert_eq!(plan.len(), 4);
    assert!(plan.iter().all(|s| s.backend == SweepBackend::Shm && s.size_tag == "1KB"));
    let rates: Vec<u64> = plan.iter().map(|s| s.target_rate).collect();
    assert_eq!(rates.iter().filter(|rate| **rate == 5_000).count(), 2);
    assert!(plan.iter().any(|s| s.consumers == 4 && s.buffer == 1024));
    assert!(plan.iter().any(|s| s.consumers == 1 && s.buffer == 256));
}

fn framed(backend: SweepBackend, target_rate: u64) -> FramedSweepScenario {
    FramedSweepScenario {
        layer: "framed_right".to_string(),
        backend,
        size_tag: "4KB".to_string(),
        payload_size: 4096,
        events: 1_000,
        buffer: 512,
        consumers: 2,
        target_rate,
        producer_role: "mmap_frame8k_prod".to_string(),
        consumer_role: "mmap_frame8k_cons".to_string(),
    }
}

#[test]
fn framed_children_read_their_scenario() {
    let plan = framed(SweepBackend::Mmap, 5_000).launch(&place());
    let child = reads(&plan.consumers[1].envs, &framed_mmap_keys());
    assert_eq!((child.segment.as_str(), child.root.as_deref()), ("seg", Some("/tmp/root")));
    assert_eq!((child.buffer, child.events, child.consumers), (512, 1_000, 2));
    assert_eq!((child.consumer_id, child.target_rate), (1, 5_000));
    let plan = framed(SweepBackend::Shm, 0).launch(&place());
    let child = reads(&plan.consumers[0].envs, &framed_shm_keys());
    assert_eq!((child.consumer_id, child.target_rate), (0, 0));
    assert!(child.root.is_none());
}

#[test]
fn framed_scenarios_say_what_they_are() {
    let scenario = framed(SweepBackend::Mmap, 5_000);
    assert_eq!(scenario.scenario_name(), "framed_right_mmap_4KB_1p2c_co_5000rps");
    assert_eq!(scenario.transport_metadata().framing.as_deref(), Some("right_sized"));
    assert_eq!(scenario.transport_metadata().coordination.as_deref(), Some("mmap_builtin"));
    let line = scenario.summary_line(&figures()).unwrap();
    assert_eq!(
        line,
        format!(
            "  {:<14} {:<4} {:<8} 1p{:<2}c prod={:>10} cons={:>10} p99={:>8}",
            "framed_right", "mmap", "CO@5000", 2, "1.50M", "50.0K", "-"
        )
    );
    let timed = SummaryFigures { p99_ns: Some(1500), ..figures() };
    assert!(scenario.summary_line(&timed).unwrap().ends_with("p99=   1.5μs"));
}

fn sweep_point(target_rate: u64) -> SweepPoint {
    SweepPoint::from_spec(
        &MonsterSweepSpec {
            label: "4KB".to_string(),
            size_bytes: 4096,
            events: 100_000,
            buffer: 1024,
            consumers: 3,
            target_rate,
            producer_role: "prod_4k".to_string(),
            consumer_role: "cons_4k".to_string(),
            tag: "4k".to_string(),
        },
        Some(500),
    )
}

#[test]
fn sweep_points_take_the_asked_number_of_events() {
    let point = sweep_point(250_000);
    assert_eq!(point.num_messages(), 500);
    assert_eq!(point.warmup_messages(), 5);
    assert_eq!(point.ring_mb(), 4);
    assert_eq!(point.mode_label(), "CO@250K");
    let child = reads(&point.launch(&place()).consumers[2].envs, &sweep_keys());
    assert_eq!((child.buffer, child.events, child.consumers), (1024, 500, 3));
    assert_eq!((child.consumer_id, child.target_rate), (2, 250_000));
    let line = point.summary_line(&figures()).unwrap();
    assert_eq!(
        line,
        format!(
            "  {:<12} {:>5} 1p{:<2}c  ring={:>5}MB  {:>8} events  prod: {:>10}  {}: {:>10}  {:>6} GB/s  {}",
            "4KB", "CO@250K", 3, 4, 500, "1.50M", "avg_c", "50.0K", "1.2", "-"
        )
    );
}

#[test]
fn codec_arguments_are_checked() {
    assert_eq!(check_mode("throughput", None), Ok(0));
    assert_eq!(check_mode("co", Some(5)), Ok(5));
    assert_eq!(check_mode("both", None).unwrap_err(), "unsupported mode: both");
    assert_eq!(check_mode("co", None).unwrap_err(), "--mode co requires --target-rate");
    assert_eq!(
        check_mode("throughput", Some(5)).unwrap_err(),
        "--target-rate requires --mode co"
    );
    assert!(rate_is_readable(&owned(&["bench", "--target-rate", "5"])));
    assert!(!rate_is_readable(&owned(&["bench", "--target-rate", "fast"])));
    assert_eq!(parse_batch_codec("flatbuf"), Ok(BatchCodec::Flatbuf));
    assert_eq!(parse_batch_codec("cbor").unwrap_err(), "unknown codec: cbor");
    assert_eq!(check_encoded_len(8180, 8180), Ok(()));
    assert_eq!(
        check_encoded_len(8181, 8180).unwrap_err(),
        "payload 8181B exceeds slot 8180B"
    );
    assert_eq!(slot_capacity(8), 8180);
    assert_eq!(slot_capacity(64), 65524);
    assert_eq!(slot_capacity(256), 262132);
}

#[test]
fn codec_scenarios_are_planned_by_their_flags() {
    let all = plan_codec_nofrag(&CodecNoFragArgs::parse(&owned(&["bench"]))).unwrap();
    assert_eq!(all.len(), 54);
    assert_eq!((all[0].batch_size, all[0].consumers, all[0].codec), (8, 1, BatchCodec::Bincode));
    assert_eq!((all[53].batch_size, all[53].consumers), (256, 12));
    assert_eq!(all[0].buffer_depth, 16384);
    assert_eq!(all[53].buffer_depth, 4096);
    let some = plan_codec_nofrag(&CodecNoFragArgs::parse(&owned(&[
        "bench",
        "--codec",
        "rkyv",
        "--consumers",
        "2",
        "--mode",
        "co",
        "--target-rate",
        "20000",
    ])))
    .unwrap();
    assert_eq!(some.len(), 3);
    assert!(some.iter().all(|s| s.codec == BatchCodec::Rkyv && s.target_rate == 20_000));
    assert!(plan_codec_nofrag(&CodecNoFragArgs::parse(&owned(&["bench", "--mode", "x"]))).is_err());
}

#[test]
fn codec_children_read_their_scenario() {
    let scenario = CodecNoFragScenario {
        codec: BatchCodec::Flatbuf,
        batch_size: 64,
        messages: 50_000,
        buffer_depth: 4096,
        consumers: 2,
        target_rate: 0,
    };
    let plan = scenario.launch(&place());
    assert_eq!(plan.producer.role, "nf_prod_64k");
    assert_eq!(plan.consumers[0].role, "nf_cons_64k");
    let child = reads(&plan.consumers[1].envs, &codec_keys());
    assert_eq!((child.buffer, child.events, child.consumers), (4096, 50_000, 2));
    assert_eq!((child.consumer_id, child.target_rate), (1, 0));
    assert_eq!(scenario.slot_bytes(), 65536);
    let line = scenario.summary_line(&figures()).unwrap();
    assert_eq!(
        line,
        format!(
            "  {:<8} mode={:<10} cons={:<2} batch={:<3} slot={:>4}KB  enc: {:>6}μs  write: {:>6}μs  dec: {:>6}μs  | prod: {:>8}  {}: {:>8}  {}",
            "flatbuf", "tput", 2, 64, 64, "0.1", "0.2", "0.3", "1.50M", "avg cons", "50.0K", "-"
        )
    );
}

fn nofrag_specs() -> Vec<PayloadSweepSpec> {
    let variant = |layer: &str, backend: SweepBackend, codec: bool| NofragVariant {
        layer: layer.to_string(),
        summary_label: layer.to_string(),
        backend,
        producer_role: format!("{layer}_prod"),
        consumer_role: format!("{layer}_cons"),
        uses_codec_slot: codec,
    };
    vec![PayloadSweepSpec {
        tag: "1KB".to_string(),
        batch_size: 8,
        events: 1_000,
        buffer_depth: 512,
        raw_slot_bytes: 1024,
        codec_slot_bytes: 2048,
        default_co_rate: 9_000,
        variants: vec![
            variant("raw_ring", SweepBackend::Shm, false),
            variant("rkyv_nofrag", SweepBackend::Mmap, true),
        ],
    }]
}

#[test]
fn the_full_matrix_is_planned_by_its_flags() {
    let selection = SweepSelection::parse(&owned(&["bench"]), "throughput");
    let plan = plan_nofrag_sweep(&nofrag_specs(), &selection, &vec![1, 2]);
    assert_eq!(plan.len(), 4);
    let raw: Vec<&NofragScenario> = plan.iter().filter(|s| s.layer == "raw_ring").collect();
    assert!(raw.iter().all(|s| s.slot_size == 1024));
    let codec: Vec<&NofragScenario> = plan.iter().filter(|s| s.layer == "rkyv_nofrag").collect();
    assert!(codec.iter().all(|s| s.slot_size == 2048 && s.backend == SweepBackend::Mmap));
    assert_eq!(codec[0].transport_metadata().zero_copy, Some(true));
    assert_eq!(raw[0].transport_metadata().zero_copy, Some(false));
    let launched = codec[1].launch(&place());
    let child = reads(&launched.consumers[0].envs, &nofrag_mmap_keys());
    assert_eq!(child.root.as_deref(), Some("/tmp/root"));
    assert_eq!(child.events, 1_000);
    assert!(codec[0].summary_line(&figures()).is_none());
    let mmap = SweepSelection::parse(&owned(&["bench", "--backend", "mmap"]), "throughput");
    assert_eq!(plan_nofrag_sweep(&nofrag_specs(), &mmap, &vec![1, 2]).len(), 2);
}

#[test]
fn typed_sweeps_are_planned_by_their_flags() {
    let spec = |tag: &str| TypedSweepSpec {
        tag: tag.to_string(),
        payload_bytes: 1024,
        batch_size: 8,
        events: 1_000,
        base_buffer: 512,
    };
    let roles = |kind: &str| TypedRoles {
        producer_role: format!("typed_zc_{kind}_prod"),
        consumer_role: format!("typed_zc_{kind}_cons"),
    };
    let sweep = TypedSweep {
        rkyv_specs: vec![spec("1KB"), spec("4KB")],
        flatbuf_specs: vec![spec("1KB")],
        shm_roles: roles("shm"),
        mmap_roles: roles("mmap"),
        counts: vec![1],
    };
    let all = SweepSelection::parse(&owned(&["bench"]), "all");
    let plan = plan_typed_sweep(&sweep, &all);
    assert_eq!(plan.len(), 6);
    assert_eq!(plan.iter().filter(|s| s.codec == TypedZeroCopyCodec::Flatbuf).count(), 2);
    let rkyv = SweepSelection::parse(&owned(&["bench", "--codec", "rkyv"]), "all");
    assert_eq!(plan_typed_sweep(&sweep, &rkyv).len(), 4);
    let scenario: &TypedZeroCopyScenario =
        plan.iter().find(|s| s.backend == SweepBackend::Shm).unwrap();
    let child = reads(&scenario.launch(&place()).consumers[0].envs, &typed_shm_keys());
    assert_eq!((child.segment.as_str(), child.events), ("seg", 1_000));
    let line = scenario.summary_line(&figures()).unwrap();
    assert_eq!(
        line,
        format!(
            "  {:<8} {:<5} {:<8} {:<5} prod={:>10} cons={:>10} batch={:<4} bytes={}",
            scenario.codec.slug(),
            "shm",
            scenario.size_tag,
            "1p1c",
            "1.50M",
            "50.0K",
            8,
            1024
        )
    );
    assert_eq!(
        parse_sweep_codec("cbor").unwrap_err(),
        "unsupported MYELON_BENCH_CODEC 'cbor'"
    );
    assert_eq!(parse_sweep_codec("rkyv"), Ok(TypedZeroCopyCodec::Rkyv));
    assert_eq!(parse_pingpong_codec("cbor").unwrap_err(), "unsupported codec: cbor");
}

#[test]
fn wait_strategies_decide_what_idling_is() {
    assert_eq!(apply_wait_strategy(SweepBackend::Shm, "BusySpin"), IdleAction::Nothing);
    assert_eq!(apply_wait_strategy(SweepBackend::Mmap, "BusySpin"), IdleAction::SpinHint);
    assert_eq!(apply_wait_strategy(SweepBackend::Mmap, "Sleep"), IdleAction::SleepMicros(1));
    assert_eq!(apply_wait_strategy(SweepBackend::Mmap, "Block"), IdleAction::SleepMillis(1));
    assert_eq!(apply_wait_strategy(SweepBackend::Shm, "Block"), IdleAction::BlockWait);
    assert_eq!(drain_strategy("Sleep"), DrainStrategy::SleepMicros(1));
    assert_eq!(drain_strategy("odd"), DrainStrategy::Block);
    assert_eq!(wait_discovery_scans(4), 40);
    assert_eq!(wait_num_events(Some("0")), 100_000);
    assert_eq!(wait_num_events(Some("7")), 7);
    let args = owned(&["bench", "--quick", "wait_strategy_mmap", "full"]);
    assert_eq!(wait_mode(SweepBackend::Mmap, None, &args), "full");
    assert_eq!(wait_mode(SweepBackend::Shm, None, &args), "wait_strategy_mmap");
    assert_eq!(wait_mode(SweepBackend::Shm, Some("x"), &args), "x");
    assert_eq!(wait_mode(SweepBackend::Shm, None, &owned(&["bench"])), "quick");
}

#[test]
fn wait_scenarios_show_their_strategy() {
    let scenario = WaitStrategyScenario {
        backend: SweepBackend::Mmap,
        consumers: 2,
        wait_strategy: "Sleep".to_string(),
        producer_role: "mmap_wait_producer".to_string(),
        consumer_role: "mmap_wait_consumer".to_string(),
        throughput_unit: "ops/s".to_string(),
        num_events: 100_000,
    };
    assert_eq!(scenario.wait_strategy(), "Sleep");
    assert_eq!(
        scenario.summary_line(&figures()).unwrap(),
        format!(
            "  {:<6} {:<24} producer: {:>10} {}  avg consumer: {:>10} {}",
            "1p2c", "Sleep", "1.50M", "ops/s", "50.0K", "ops/s"
        )
    );
    let plan = scenario.launch(&place());
    assert!(pairs(&plan.consumers[1].envs).contains(&("CONSUMER_ID", "1")));
    assert!(pairs(&plan.producer.envs).contains(&("MMAP_ROOT", "/tmp/root")));
}

fn typed_pingpong() -> TypedPingPongScenario {
    TypedPingPongScenario::from_spec(
        &TypedPingPongSpec {
            codec: "flatbuf".to_string(),
            batch_size: 8,
            messages: 1_000,
            warmup: 100,
            buffer_depth: 4096,
            wait_strategy: "BLOCK".to_string(),
            measurement: "co_aware@5".to_string(),
            target_rate: 5,
            producer_role: "pingpong_typed_zero_copy_shm_echo".to_string(),
            consumer_role: "pingpong_typed_zero_copy_shm_initiator".to_string(),
        },
        777,
    )
}

#[test]
fn typed_ping_pong_children_read_their_scenario() {
    let scenario = typed_pingpong();
    assert_eq!(scenario.layer(), "typed_zero_copy_flatbuf");
    assert_eq!(scenario.wait_strategy(), "Block");
    let plan = scenario.launch(&place());
    let env = TypedPingPongEnv::read(&plan.consumers[0].envs).unwrap();
    assert_eq!(env.ping_segment, "seg");
    assert_eq!(env.pong_segment, "pong");
    assert_eq!(env.coordination_segment, "coord");
    assert_eq!((env.codec.as_str(), env.wait_strategy.as_str()), ("flatbuf", "BLOCK"));
    assert_eq!((env.batch_size, env.encoded_bytes, env.buffer_depth), (8, 777, 4096));
    assert_eq!((env.messages, env.warmup, env.target_rate), (1_000, 100, 5));
    assert_eq!(pairs(&plan.producer.envs), pairs(&plan.consumers[0].envs));
}

#[test]
fn typed_wait_strategies_ignore_case() {
    assert_eq!(parse_typed_wait_strategy("BusySpin"), Ok(TypedWaitStrategy::BusySpin));
    assert_eq!(parse_typed_wait_strategy("block"), Ok(TypedWaitStrategy::Block));
    assert_eq!(
        parse_typed_wait_strategy("Sleep").unwrap_err(),
        "unsupported wait strategy: sleep"
    );
    assert_eq!(reassembly_capacity(5), 262_144);
    assert_eq!(reassembly_capacity(300_000), 300_000);
    assert_eq!(zero_copy_layer("rkyv"), "typed_zero_copy");
}

fn some_rates() -> MeasuredRates {
    MeasuredRates {
        throughput_ops_sec: metric(1.0),
        elapsed_secs: metric(1.0),
        bandwidth_bytes_sec: metric(1.0),
        data_rate_gbps: metric(1.0),
    }
}

#[test]
fn an_initiator_checks_the_answers() {
    let mut initiator = Initiator::new(1, 2, 0, 0);
    let mut recorder = LatencyRecorder::default_range();
    let mut clock_starts = Vec::new();
    let mut now = 100u64;
    loop {
        match initiator.step(now) {
            InitiatorStep::Send { send_ns, starts_clock } => {
                clock_starts.push(starts_clock);
                initiator.receive(40, send_ns, send_ns + 7, &mut recorder);
            }
            InitiatorStep::Wait => now += 1,
            InitiatorStep::Done => break,
        }
    }
    assert_eq!(clock_starts, vec![false, true, false]);
    assert_eq!(recorder.count(), 2);
    let output = initiator.report(40, recorder.stats(), some_rates()).unwrap();
    assert_eq!((output.checksum, output.events_consumed), (80, 2));
    assert_eq!(
        initiator.report(41, recorder.stats(), some_rates()).unwrap_err(),
        "checksum mismatch: got 80 expected 82"
    );
    assert_eq!(
        initiator.report(40, None, some_rates()).unwrap_err(),
        "no latency samples recorded"
    );
}

#[test]
fn a_paced_initiator_waits_until_a_message_is_due() {
    let mut initiator = Initiator::new(0, 2, 1_000_000_000, 50);
    let mut recorder = LatencyRecorder::default_range();
    assert!(matches!(initiator.step(49), InitiatorStep::Wait));
    match initiator.step(90) {
        InitiatorStep::Send { send_ns, starts_clock } => {
            assert_eq!(send_ns, 50);
            assert!(starts_clock);
            initiator.receive(1, send_ns, 95, &mut recorder);
        }
        _ => panic!("expected a message"),
    }
    assert_eq!(recorder.stats().unwrap().max_ns, 45);
    assert!(matches!(initiator.step(90), InitiatorStep::Send { send_ns: 51, .. }));
}

#[test]
fn a_typed_echo_answers_until_the_end() {
    assert_eq!(typed_echo_step(0, 1, 2, false), TypedEchoStep::Answer { starts_clock: false });
    assert_eq!(typed_echo_step(1, 1, 2, false), TypedEchoStep::Answer { starts_clock: true });
    assert_eq!(typed_echo_step(2, 1, 2, true), TypedEchoStep::CalledOff);
    assert_eq!(typed_echo_step(3, 1, 2, true), TypedEchoStep::Done);
}

#[test]
fn message_sizes_are_checked() {
    assert!(supports_size(64));
    assert!(!supports_size(256));
    assert_eq!(check_message_size(67_108_864), Ok(()));
    assert_eq!(
        check_message_size(100).unwrap_err(),
        "unsupported message size: 100 (expected 32, 64, 128, 512, 1024, 2048, 4096, 16384, 32768, 65536, 131072, 524288, 1048576, 2097152, 8388608, 16777216, 33554432, 67108864)"
    );
    assert_eq!(
        check_child_message_size(100).unwrap_err(),
        "unsupported child message size: 100"
    );
    assert_eq!(lane_segment("ping_", 3), "ping_3");
}

#[test]
fn rounds_use_each_lane_once_and_join_up() {
    let mut run = PingRun::new(3, 100, 8);
    let mut sequences = Vec::new();
    while !run.is_finished() {
        let round = run.next_round();
        let mut lanes: Vec<usize> = round.iter().map(|ping| ping.lane).collect();
        lanes.sort();
        lanes.dedup();
        assert_eq!(lanes.len(), round.len());
        sequences.extend(round.iter().map(|ping| ping.sequence));
    }
    assert_eq!(sequences, (100..108).collect::<Vec<u64>>());
    let mut run = PingRun::new(3, 100, 8);
    assert_eq!(run.next_batch(5).len(), 5);
    let rest = run.next_batch(5);
    assert_eq!(rest.len(), 3);
    assert_eq!(rest[0].sequence, 105);
    assert_eq!(rest[0].lane, 2);
    assert!(run.is_finished());
}

#[test]
fn a_fixed_rate_ignores_how_messages_are_batched() {
    let mut one_by_one = FixedRate::new(1_000_000);
    let mut at_once = FixedRate::new(1_000_000);
    assert!(one_by_one.is_due(0));
    for _ in 0..5 {
        one_by_one.advance(1);
    }
    assert_eq!(at_once.advance(5), 0);
    assert_eq!(one_by_one.next_send_ns, at_once.next_send_ns);
    assert_eq!(at_once.next_send_ns, 5_000);
    assert!(!at_once.is_due(4_999));
}

#[test]
fn the_corrected_delay_counts_from_the_intended_time() {
    let mut actual = LatencyRecorder::default_range();
    let mut corrected = LatencyRecorder::default_range();
    record_fixed_rate_echo(&mut actual, &mut corrected, 1_000, 900, 400);
    assert_eq!(actual.stats().unwrap().max_ns, 100);
    assert_eq!(corrected.stats().unwrap().max_ns, 600);
}

#[test]
fn ping_pong_modes_and_steps() {
    assert_eq!(pingpong_mode(Some(5), true), PingPongMode::FixedRate { target_rate: 5 });
    assert_eq!(pingpong_mode(None, true), PingPongMode::BatchTiming);
    assert_eq!(pingpong_mode(None, false), PingPongMode::Throughput);
    assert_eq!(await_step(true, true), AwaitStep::Take);
    assert_eq!(await_step(false, true), AwaitStep::Stopped);
    assert_eq!(await_step(false, false), AwaitStep::Wait);
    assert_eq!(echo_step(false, true, true), EchoAction::Echo);
    assert_eq!(echo_step(false, false, true), EchoAction::Stop);
    assert_eq!(echo_step(true, true, false), EchoAction::Stop);
    assert_eq!(echo_step(false, false, false), EchoAction::Wait);
    assert_eq!((verification_word(true), verification_word(false)), ("PASSED", "FAILED"));
    assert!(child_counters_enabled(Some("1")));
    assert!(!child_counters_enabled(Some("true")));
}

#[test]
fn comparisons_need_a_histogram_of_one_consumer() {
    assert_eq!(comparison_note(true, false, false, 1, true), ComparisonNote::Nothing);
    assert_eq!(comparison_note(false, false, false, 1, true), ComparisonNote::Speedups);
    assert_eq!(comparison_note(false, false, false, 1, false), ComparisonNote::NoHistogram);
    assert_eq!(comparison_note(false, true, false, 1, true), ComparisonNote::Nothing);
    assert_eq!(comparison_note(false, false, true, 2, true), ComparisonNote::NoMultiConsumerData);
}

#[test]
fn the_line_of_a_matrix_run_is_padded() {
    let mut figures = SummaryFigures {
        producer_ops: "1.50M".to_string(),
        consumer_ops: "50.0K".to_string(),
        target_rate: String::new(),
        bandwidth_gbs: String::new(),
        encode_us: String::new(),
        write_us: String::new(),
        decode_us: String::new(),
        latency: None,
        p99_ns: Some(1_500),
    };
    assert_eq!(
        nofrag_run_line("rkyv", "SHM", "co_aware@9000", &figures),
        format!(
            "  {:<12} {:<5} {:<8} prod={:>10} cons={:>10} p99={:>8}",
            "rkyv", "SHM", "CO@9000", "1.50M", "50.0K", "1.5μs"
        )
    );
    figures.p99_ns = None;
    let mode = "co_aware@1co_aware@2";
    assert_eq!(
        nofrag_run_line("a label too long", "mmap", mode, &figures),
        format!(
            "  {:<12} {:<5} {:<8} prod={:>10} cons={:>10} p99={:>8}",
            "a label too long",
            "mmap",
            mode.replace("co_aware@", "CO@"),
            "1.50M",
            "50.0K",
            "-"
        )
    );
}

fn timed(read: Option<f64>, decode: Option<f64>) -> Option<PhaseTiming> {
    Some(PhaseTiming {
        encode_avg_ns: None,
        transport_write_avg_ns: None,
        transport_read_avg_ns: read.map(metric),
        decode_avg_ns: decode.map(metric),
    })
}

#[test]
fn averages_are_formed_of_those_that_report() {
    let mut consumers: Vec<ConsumerOutput> = (0..4).map(|id| consumer(id, None)).collect();
    consumers[0].phase_timing = timed(Some(10.0), Some(1.0));
    consumers[2].phase_timing = timed(None, Some(5.0));
    let plan = consumer_plan(&consumers);
    assert_eq!(plan.throughput.values, vec![metric(5.0); 4]);
    assert_eq!(plan.throughput.divisor, 1);
    assert_eq!((plan.bandwidth.values.len(), plan.bandwidth.divisor), (4, 4));
    assert_eq!(plan.data_rate.values, vec![metric(0.5); 4]);
    assert_eq!(plan.phase_read.values, vec![metric(10.0), metric(0.0)]);
    assert_eq!(plan.phase_read.divisor, 2);
    assert_eq!(plan.phase_decode.values, vec![metric(1.0), metric(5.0)]);
    assert_eq!(plan.phase_decode.divisor, 2);
    let shown = shown_decode_plan(&consumers);
    assert_eq!(shown.values, vec![metric(1.0), metric(0.0), metric(5.0), metric(0.0)]);
    assert_eq!(shown.divisor, 4);
    assert_eq!(average_consumer_ops(&consumers, 8, &mean), metric(2.5));
    assert_eq!(average_consumer_ops(&consumers, 0, &mean), metric(0.0));
    let scenario = ring(RawRingTransport::Shm, "message_1p2c_144B", 0);
    let producer = ProducerOutput {
        throughput_ops_sec: metric(10.0),
        elapsed_secs: metric(1.0),
        events_produced: 10,
        bandwidth_bytes_sec: metric(10.0),
        data_rate_gbps: metric(1.0),
        phase_timing: None,
    };
    let metadata = BenchMetadata {
        timestamp: "t".to_string(),
        platform: "p".to_string(),
        cpu: "c".to_string(),
        git_commit: None,
        rust_version: "r".to_string(),
    };
    let result = scenario.build_result_with_metrics(
        &producer,
        &consumers,
        None,
        metric(1.0),
        &mean,
        metadata,
    );
    assert_eq!(result.results.phase_timing, timed(Some(5.0), Some(3.0)));
    assert_eq!(result.results.consumer_total_throughput_ops_sec, Some(metric(20.0)));
    assert_eq!(result.results.consumer_avg_data_rate_gbps, Some(metric(0.5)));
}

#[test]
fn the_name_of_a_mode_states_its_rate() {
    for rate in [0u64, 1, 9_000, u64::MAX] {
        assert_eq!(rate_of_mode(&rate_mode_name(rate)), rate);
    }
    assert_eq!(rate_of_mode("co_aware@many"), 0);
}

#[test]
fn raw_rings_count_by_their_rule() {
    let off = SignalLatencyMode::Disabled;
    let on = SignalLatencyMode::InlineRdtsc;
    let (message, signal) = (RawRingScenarioKind::Message, RawRingScenarioKind::Signal);
    for (transport, kind, many, mode, rule) in [
        (RawRingTransport::Shm, message, false, off, CountingRule::ByNumber),
        (RawRingTransport::Shm, message, true, off, CountingRule::BySequence),
        (RawRingTransport::Shm, signal, false, on, CountingRule::ByNumber),
        (RawRingTransport::Shm, signal, true, off, CountingRule::BySequence),
        (RawRingTransport::Mmap, message, true, on, CountingRule::ByNumber),
        (RawRingTransport::Mmap, signal, false, off, CountingRule::BySequenceAtFirst),
        (RawRingTransport::Mmap, signal, true, on, CountingRule::BySequence),
        (RawRingTransport::MyelonMmap, signal, true, on, CountingRule::ByNumber),
    ] {
        assert_eq!(counting_rule(transport, kind, many, mode), rule);
    }
    assert_eq!(ring_signal_mode(RawRingTransport::Mmap, on), on);
    assert_eq!(ring_signal_mode(RawRingTransport::MyelonMmap, on), off);
}

#[test]
fn the_large_sweep_is_planned_by_its_flags() {
    let spec = |tag: &str, target_rate: u64| MonsterSweepSpec {
        label: format!("{tag}@{target_rate}"),
        size_bytes: 64,
        events: 1_000,
        buffer: 1024,
        consumers: 2,
        target_rate,
        producer_role: "p".to_string(),
        consumer_role: "c".to_string(),
        tag: tag.to_string(),
    };
    let specs = vec![spec("1KB", 0), spec("4KB", 0), spec("1KB", 9_000), spec("4KB", 8_000)];
    let labels = |args: &[&str]| {
        let selection = SweepSelection::parse(&owned(args), "all");
        let plan = plan_monster_sweep(&specs, &selection);
        plan.iter().map(|point| point.label.clone()).collect::<Vec<_>>()
    };
    assert_eq!(labels(&["bench"]), ["1KB@0", "4KB@0", "1KB@9000", "4KB@8000"]);
    assert_eq!(labels(&["bench", "--size", "1KB"]), ["1KB@0", "1KB@9000"]);
    assert_eq!(labels(&["bench", "--mode", "co"]), ["1KB@9000", "4KB@8000"]);
    assert_eq!(labels(&["bench", "--mode", "throughput", "--size", "4KB"]), ["4KB@0"]);
    let selection = SweepSelection::parse(&owned(&["bench", "--num-messages", "7"]), "all");
    assert!(plan_monster_sweep(&specs, &selection).iter().all(|point| point.events == 7));
}

#[test]
fn both_sides_of_a_mapped_ring_read_their_scenario() {
    let scenario = ring(RawRingTransport::Mmap, "signal_1p2c", 5_000);
    let plan = scenario.launch(&place());
    for (child, id) in [(&plan.producer, 0), (&plan.consumers[0], 0), (&plan.consumers[1], 1)] {
        let keys = raw_ring_keys(RawRingTransport::Mmap, RawRingScenarioKind::Message);
        let settings = reads(&child.envs, &keys);
        assert_eq!((settings.buffer, settings.events), (1024, 100_000));
        assert_eq!((settings.consumers, settings.consumer_id), (2, id));
        assert_eq!(settings.target_rate, 5_000);
        let keys = raw_ring_keys(RawRingTransport::Mmap, RawRingScenarioKind::Signal);
        assert_eq!(reads(&child.envs, &keys).target_rate, 0);
        let extras =
            RingExtras::read(&child.envs, RawRingTransport::Mmap, RawRingScenarioKind::Signal);
        assert_eq!((extras.event_bytes, extras.warmup), (144, 1_000));
        let envs = pairs(&child.envs);
        assert!(envs.contains(&("PERF_BENCH_SIGNAL_SAMPLE_EVERY", "64")));
        assert!(envs.contains(&(
            "PERF_BENCH_SIGNAL_SIDECAR_MMAP_PATH",
            "/tmp/root/seg.signal_timestamps"
        )));
    }
}

#[test]
fn both_sides_of_a_wait_scenario_read_it() {
    for backend in [SweepBackend::Shm, SweepBackend::Mmap] {
        let scenario = WaitStrategyScenario {
            backend,
            consumers: 3,
            wait_strategy: "Sleep".to_string(),
            producer_role: "p".to_string(),
            consumer_role: "c".to_string(),
            throughput_unit: "ops/s".to_string(),
            num_events: 10,
        };
        let plan = scenario.launch(&place());
        let producer = WaitEnv::read(&plan.producer.envs, backend, false).unwrap();
        assert_eq!((producer.number, producer.wait_strategy.as_str()), (3, "Sleep"));
        let consumer = WaitEnv::read(&plan.consumers[2].envs, backend, true).unwrap();
        assert_eq!((consumer.number, consumer.segment.as_str()), (2, "seg"));
    }
}

#[test]
fn a_raw_ring_suite_announces_itself() {
    let mut suite = RawRingSuite {
        transport: RawRingTransport::Shm,
        target_rate: 0,
        message_bytes: Some(144),
        signal_events: None,
        signal_bytes: 64,
    };
    assert_eq!(
        suite.banner(),
        [
            "=== Raw Ring SHM Benchmark ===",
            "Backend: POSIX shared memory",
            "Mode: throughput",
            "Message class: 144B event, full 128B payload fill + timestamp",
        ]
    );
    suite.transport = RawRingTransport::MyelonMmap;
    suite.target_rate = 9_000;
    suite.signal_events = Some(10);
    assert_eq!(
        suite.banner(),
        [
            "=== Raw Myelon MMAP Benchmark ===",
            "Backend: file-backed mmap (via myelon re-exports)",
            "Mode: co_aware",
            "Target rate: 9000 ops/s",
            "CO mode applies only to message-class scenarios; signal scenarios are skipped.",
            "Message class: request 144B, physical slot 192B, full 128B payload fill + timestamp",
            "Signal class:  64B event (16B data), 10 events, 64K buffer",
        ]
    );
    suite.transport = RawRingTransport::Shm;
    assert!(suite.banner()[6].ends_with(" — vs Alvarez Rosa V5 (305M ops/s)"));
}
