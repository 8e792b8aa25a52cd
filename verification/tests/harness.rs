use perf_bench::backend::SegmentHandle;
use perf_bench::child_env::{
    codec_keys, find_env, framed_mmap_keys, framed_shm_keys, nofrag_mmap_keys, raw_mmap_message_keys,
    raw_mmap_signal_keys, raw_ring_keys, raw_shm_keys, ring_defaults, sweep_keys, typed_shm_keys,
    ChildDefaults, ChildEnvError, ChildSettings, EchoEnv, RingExtras, TypedPingPongEnv, WaitEnv,
};
use perf_bench::discovery::discovery_scan_rounds;
use perf_bench::env_config::{
    apply_timeout_arg, bench_timeout_duration, bench_timeout_override_secs, bench_timeout_secs,
    bench_timeout_secs_or, check_deadline, read_env_bool, read_env_string, read_env_u64,
    read_env_usize, spin_deadline, spin_deadline_or,
};
use perf_bench::launch::{
    launch_mmap_group, launch_shm_group, push_env, push_number, EnvVar, MultiConsumerSpawn,
};
use perf_bench::liveness::{liveness_config, liveness_enabled, FailureAction};
use perf_bench::pingpong::EchoSettings;
use perf_bench::process::{
    collect_output, parse_json_output, timeout_error, wait_timeout, ChildExit, ProcessOutput,
    WaitAction,
};
use perf_bench::runner::{maybe_run_child, parse_child_metrics, role_failure, ChildRole};
use perf_bench::scenarios::codec_nofrag::{BatchCodec, CodecNoFragScenario};
use perf_bench::scenarios::raw_ring::{RawRingScenarioKind, RawRingTransport};
use perf_bench::scenarios::selection::SweepBackend;
use perf_bench::suites::{
    BenchHarness, CodecNoFragShmBench, MonsterSweepShm, MyelonFramedSweep, NofragAllBench,
    PingPongTypedZeroCopyShmBench, RawMyelonMmapBench, RawRingMmapBench, RawRingShmBench,
    TypedZeroCopySweep, WaitStrategyMmapBench, WaitStrategyShmBench,
};

fn noop_child() -> Result<(), String> {
    Ok(())
}

fn failing_child() -> Result<(), String> {
    Err("no segment".to_string())
}

fn owned(args: &[&str]) -> Vec<String> {
    args.iter().map(|arg| arg.to_string()).collect()
}

fn environment(pairs: &[(&str, &str)]) -> Vec<EnvVar> {
    let mut envs = Vec::new();
    for (key, value) in pairs {
        push_env(&mut envs, key, value.to_string());
    }
    envs
}

#[test]
fn test_maybe_run_child_ignores_flag_args() {
    let args = vec!["bench".to_string(), "--quick".to_string()];
    let roles: [ChildRole<fn() -> Result<(), String>>; 0] = [];
    assert!(maybe_run_child(&args, &roles).is_none());
}

#[test]
fn test_maybe_run_child_dispatches_registered_role() {
    let args = vec!["bench".to_string(), "child".to_string()];
    let roles = [ChildRole::new("child", noop_child)];
    let Some((role, result)) = maybe_run_child(&args, &roles) else {
        panic!("expected child dispatch");
    };
    assert_eq!(role, "child");
    assert!(result.is_ok());
}

#[test]
fn the_first_role_of_a_name_runs() {
    let args = owned(&["bench", "child", "--quick"]);
    let first: fn() -> Result<(), String> = failing_child;
    let second: fn() -> Result<(), String> = noop_child;
    let roles = [ChildRole::new("child", first), ChildRole::new("child", second)];
    let (role, result) = maybe_run_child(&args, &roles).unwrap();
    assert_eq!(role, "child");
    assert_eq!(role_failure(role, &result.unwrap_err()), "child failed: no segment");
}

#[test]
fn an_unknown_role_does_nothing() {
    let args = owned(&["bench", "stranger"]);
    let roles = [ChildRole::new("child", failing_child)];
    let (role, result) = maybe_run_child(&args, &roles).unwrap();
    assert_eq!(role, "stranger");
    assert!(result.is_ok());
    assert!(maybe_run_child(&owned(&["bench"]), &roles).is_none());
}

#[test]
fn shm_handle_labels() {
    let h = SegmentHandle::shm("test_seg");
    assert_eq!(h.backend_label(), "shm");
    assert_eq!(h.display_name(), "test_seg");
}

#[test]
fn mmap_handle_labels() {
    let h = SegmentHandle::mmap("/tmp/bench", "ring_0");
    assert_eq!(h.backend_label(), "mmap");
    assert_eq!(h.display_name(), "ring_0");
}

#[test]
fn only_mapped_segments_leave_a_directory() {
    assert_eq!(SegmentHandle::shm("test_seg").cleanup(), None);
    assert_eq!(SegmentHandle::mmap("/tmp/bench", "ring_0").cleanup(), Some("/tmp/bench"));
}

#[test]
fn rounds_scale_with_multi_consumer_topologies() {
    assert_eq!(discovery_scan_rounds(1), 8);
    assert_eq!(discovery_scan_rounds(4), 12);
    assert_eq!(discovery_scan_rounds(8), 16);
}

#[test]
fn test_apply_timeout_arg_sets_explicit_override() {
    let args = vec![
        "bench".to_string(),
        "--timeout".to_string(),
        "45".to_string(),
        "--quick".to_string(),
    ];
    let applied = apply_timeout_arg(&args);
    let filtered = applied.outcome.expect("timeout parsing should succeed");
    assert_eq!(filtered, vec!["bench".to_string(), "--quick".to_string()]);
    assert_eq!(applied.exported, Some(45));
    let exported = applied.exported.unwrap().to_string();
    assert_eq!(bench_timeout_secs(Some(&exported)), 45);
    assert_eq!(bench_timeout_override_secs(Some(&exported)), Some(45));
}

#[test]
fn a_wrong_timeout_is_refused() {
    let outcome = |args: &[&str]| apply_timeout_arg(&owned(args)).outcome;
    assert_eq!(outcome(&["bench", "--timeout"]).unwrap_err(), "--timeout requires a value");
    assert_eq!(
        outcome(&["bench", "--timeout", "soon"]).unwrap_err(),
        "invalid --timeout value: soon"
    );
    assert_eq!(
        outcome(&["bench", "--timeout", "0"]).unwrap_err(),
        "--timeout must be greater than zero"
    );
    assert_eq!(outcome(&["bench", "--quick"]).unwrap(), owned(&["bench", "--quick"]));
    let later = apply_timeout_arg(&owned(&["--timeout", "5", "x", "--timeout", "bad"]));
    assert_eq!(later.exported, Some(5));
    assert!(later.outcome.is_err());
}

#[test]
fn the_last_timeout_counts() {
    let applied = apply_timeout_arg(&owned(&["--timeout", "5", "--timeout", "6"]));
    assert_eq!(applied.exported, Some(6));
    assert!(applied.outcome.unwrap().is_empty());
}

#[test]
fn variables_fall_back_to_their_defaults() {
    assert_eq!(read_env_usize(Some("12"), 3), 12);
    assert_eq!(read_env_usize(Some("+12"), 3), 12);
    assert_eq!(read_env_usize(Some("-1"), 3), 3);
    assert_eq!(read_env_usize(None, 3), 3);
    assert_eq!(read_env_u64(Some("18446744073709551615"), 3), u64::MAX);
    assert_eq!(read_env_u64(Some("18446744073709551616"), 3), 3);
    assert_eq!(read_env_u64(Some(""), 3), 3);
    assert!(read_env_bool(Some("yes"), false));
    assert!(!read_env_bool(Some("on"), true));
    assert!(read_env_bool(None, true));
    assert_eq!(read_env_string(None, "busyspin"), "busyspin");
    assert_eq!(read_env_string(Some("block"), "busyspin"), "block");
}

#[test]
fn deadlines_are_counted_from_now() {
    assert_eq!(bench_timeout_secs(None), 300);
    assert_eq!(bench_timeout_secs_or(None, 60), 60);
    assert_eq!(bench_timeout_override_secs(Some("0")), None);
    assert_eq!(bench_timeout_duration(Some("2"), 60), 2_000_000_000);
    assert_eq!(spin_deadline(5, Some("1")), 1_000_000_005);
    assert_eq!(spin_deadline_or(5, None, 2), 2_000_000_005);
    assert!(check_deadline(10, 10, "warmup", 1).is_ok());
    let error = check_deadline(11, 10, "warmup", 1).unwrap_err();
    assert!(error.contains("warmup"));
    assert!(error.contains('1'));
}

#[test]
fn a_child_is_waited_for_killed_or_collected() {
    assert_eq!(wait_timeout(true, 9, 1), WaitAction::Collect);
    assert_eq!(wait_timeout(false, 1, 1), WaitAction::Kill);
    assert_eq!(wait_timeout(false, 0, 1), WaitAction::Pause { millis: 5 });
}

#[test]
fn output_of_a_child_is_read_as_text() {
    let (output, logged) = collect_output(
        "prod",
        Ok(ChildExit {
            success: true,
            stdout: vec![b'{', b'}', b'\n', 0xff],
            stderr: b"late".to_vec(),
        }),
    );
    assert!(output.success);
    assert_eq!(output.stdout, "{}\n\u{fffd}");
    assert_eq!(output.stderr, "late");
    assert_eq!(logged.unwrap(), "[prod stderr] late");
    let (quiet, nothing) = collect_output(
        "prod",
        Ok(ChildExit { success: false, stdout: Vec::new(), stderr: Vec::new() }),
    );
    assert!(!quiet.success);
    assert!(nothing.is_none());
    let (failed, logged) = collect_output("cons0", Err("timeout after 3s".to_string()));
    assert_eq!(failed.stderr, "timeout after 3s");
    assert_eq!(failed.stdout, "");
    assert_eq!(logged.unwrap(), "[cons0] timeout after 3s");
}

#[test]
fn a_timeout_tells_what_was_printed() {
    assert_eq!(
        timeout_error("300s", &vec![b'o', b'k', 0xc3]),
        "timeout after 300s; stderr: ok\u{fffd}"
    );
}

#[test]
fn the_first_json_line_is_taken() {
    assert_eq!(
        parse_json_output("hello\n{\"a\":1}\n{\"b\":2}\n"),
        Some("{\"a\":1}".to_string())
    );
    assert_eq!(parse_json_output("hello\r\n{\"a\":1}\r\n"), Some("{\"a\":1}".to_string()));
    assert_eq!(parse_json_output(" {\"a\":1}"), None);
    assert_eq!(parse_json_output(""), None);
}

#[test]
fn metrics_of_a_failed_child_are_an_error() {
    let output = |success: bool| ProcessOutput {
        stdout: "out".to_string(),
        stderr: "err".to_string(),
        success,
    };
    assert_eq!(parse_child_metrics("producer", &output(true), Some(7)), Ok(7));
    assert_eq!(
        parse_child_metrics("producer", &output(false), Some(7)),
        Err("producer child failed\nstderr:\nerr".to_string())
    );
    assert_eq!(
        parse_child_metrics::<u64>("consumer", &output(true), None),
        Err(
            "consumer child produced no structured JSON metrics\nstdout:\nout\nstderr:\nerr"
                .to_string()
        )
    );
}

fn spawn() -> MultiConsumerSpawn {
    MultiConsumerSpawn {
        producer_role: "prod".to_string(),
        consumer_role: "cons".to_string(),
        consumers: 2,
        consumer_id_env: "BENCH_CONSUMER_ID".to_string(),
        base_envs: environment(&[("BENCH_EVENTS", "10")]),
    }
}

fn pairs(envs: &[EnvVar]) -> Vec<(&str, &str)> {
    envs.iter().map(|var| (var.key.as_str(), var.value.as_str())).collect()
}

#[test]
fn a_shared_memory_group_shares_its_segment() {
    let plan = launch_shm_group("seg_1", "BENCH_SEGMENT", spawn());
    assert_eq!(plan.producer.role, "prod");
    assert_eq!(
        pairs(&plan.producer.envs),
        vec![("BENCH_EVENTS", "10"), ("BENCH_SEGMENT", "seg_1")]
    );
    assert_eq!(plan.consumers.len(), 2);
    assert_eq!(plan.consumers[1].role, "cons");
    assert_eq!(
        pairs(&plan.consumers[1].envs),
        vec![("BENCH_EVENTS", "10"), ("BENCH_SEGMENT", "seg_1"), ("BENCH_CONSUMER_ID", "1")]
    );
    assert!(plan.cleanup_path.is_none());
}

#[test]
fn a_mapped_group_is_cleaned_up() {
    let plan = launch_mmap_group("/tmp/r", "seg_1", "BENCH_ROOT", "BENCH_SEGMENT", spawn());
    assert_eq!(plan.cleanup_path.as_deref(), Some("/tmp/r"));
    assert_eq!(
        pairs(&plan.consumers[0].envs),
        vec![
            ("BENCH_EVENTS", "10"),
            ("BENCH_ROOT", "/tmp/r"),
            ("BENCH_SEGMENT", "seg_1"),
            ("BENCH_CONSUMER_ID", "0"),
        ]
    );
    assert_ne!(pairs(&plan.consumers[0].envs), pairs(&plan.consumers[1].envs));
}

#[test]
fn the_variable_that_was_set_last_is_read() {
    let envs = environment(&[("A", "1"), ("B", "2"), ("A", "3")]);
    assert_eq!(find_env(&envs, "A"), Some("3"));
    assert_eq!(find_env(&envs, "B"), Some("2"));
    assert_eq!(find_env(&envs, "C"), None);
}

fn small_defaults() -> ChildDefaults {
    ChildDefaults { buffer: 4, events: 5, consumers: 6 }
}

#[test]
fn a_child_without_a_segment_does_not_start() {
    let missing = |error: ChildEnvError| match error {
        ChildEnvError::Missing(key) => key,
        ChildEnvError::Malformed(key) => panic!("malformed {key}"),
    };
    let none = environment(&[]);
    let shm = ChildSettings::read(&none, &framed_shm_keys(), &small_defaults()).unwrap_err();
    assert_eq!(missing(shm), "BENCHMARK_SEGMENT_NAME");
    let mmap = ChildSettings::read(&none, &framed_mmap_keys(), &small_defaults()).unwrap_err();
    assert_eq!(missing(mmap), "MMAP_ROOT");
    let rooted = environment(&[("MMAP_ROOT", "/tmp/r")]);
    let mmap = ChildSettings::read(&rooted, &framed_mmap_keys(), &small_defaults()).unwrap_err();
    assert_eq!(missing(mmap), "MMAP_SEGMENT");
    let typed = ChildSettings::read(&none, &typed_shm_keys(), &small_defaults()).unwrap_err();
    assert_eq!(missing(typed), "MYELON_BENCH_SEGMENT_NAME");
    let nofrag = ChildSettings::read(&none, &nofrag_mmap_keys(), &small_defaults()).unwrap_err();
    assert_eq!(missing(nofrag), "BENCH_ROOT");
}

#[test]
fn a_mapped_ring_must_be_told_its_load() {
    let mut envs = environment(&[("MMAP_ROOT", "/tmp/r"), ("MMAP_SEGMENT", "s")]);
    let error =
        ChildSettings::read(&envs, &raw_mmap_message_keys(), &small_defaults()).unwrap_err();
    assert!(matches!(error, ChildEnvError::Missing(key) if key == "MMAP_BUFFER_SIZE"));
    push_env(&mut envs, "MMAP_BUFFER_SIZE", "many".to_string());
    let error =
        ChildSettings::read(&envs, &raw_mmap_message_keys(), &small_defaults()).unwrap_err();
    assert!(matches!(error, ChildEnvError::Malformed(key) if key == "MMAP_BUFFER_SIZE"));
    push_number(&mut envs, "MMAP_BUFFER_SIZE", 64);
    push_number(&mut envs, "MMAP_EVENTS", 1000);
    push_number(&mut envs, "MMAP_TARGET_RATE", 7);
    let settings =
        ChildSettings::read(&envs, &raw_mmap_message_keys(), &small_defaults()).unwrap();
    assert_eq!(settings.root.as_deref(), Some("/tmp/r"));
    assert_eq!(settings.segment, "s");
    assert_eq!(settings.buffer, 64);
    assert_eq!(settings.events, 1000);
    assert_eq!(settings.consumers, 6);
    assert_eq!(settings.consumer_id, 0);
    assert_eq!(settings.target_rate, 7);
    let signal = ChildSettings::read(&envs, &raw_mmap_signal_keys(), &small_defaults()).unwrap();
    assert_eq!(signal.target_rate, 0);
}

#[test]
fn defaults_stand_in_for_what_is_not_set() {
    let envs = environment(&[("SWEEP_SEGMENT", "s"), ("SWEEP_EVENTS", "x")]);
    let settings = ChildSettings::read(&envs, &sweep_keys(), &small_defaults()).unwrap();
    assert_eq!(settings.buffer, 4);
    assert_eq!(settings.events, 5);
    assert_eq!(settings.consumers, 6);
    assert!(settings.root.is_none());
    let envs = environment(&[("MYELON_BENCH_SEGMENT_NAME", "s"), ("MYELON_BENCH_MESSAGES", "9")]);
    assert_eq!(ChildSettings::read(&envs, &codec_keys(), &small_defaults()).unwrap().events, 9);
}

#[test]
fn raw_rings_have_defaults_of_their_own() {
    let single = ring_defaults(RawRingScenarioKind::Message, false);
    assert_eq!((single.buffer, single.events, single.consumers), (1024, 100_000, 1));
    let many = ring_defaults(RawRingScenarioKind::Message, true);
    assert_eq!((many.buffer, many.events, many.consumers), (4096, 100_000, 3));
    let signal = ring_defaults(RawRingScenarioKind::Signal, true);
    assert_eq!((signal.buffer, signal.events, signal.consumers), (65_536, 10_000_000, 2));
    let envs = environment(&[("BENCHMARK_SEGMENT_NAME", "s"), ("BENCH_RECORD_LATENCY", "1")]);
    let settings = ChildSettings::read(&envs, &raw_shm_keys(), &signal).unwrap();
    assert_eq!(settings.buffer, 65_536);
    let extras = RingExtras::read(&envs, RawRingTransport::Shm, RawRingScenarioKind::Signal);
    assert_eq!((extras.event_bytes, extras.warmup, extras.record_latency), (144, 100_000, true));
    let extras = RingExtras::read(&envs, RawRingTransport::Mmap, RawRingScenarioKind::Message);
    assert_eq!((extras.event_bytes, extras.warmup, extras.record_latency), (144, 1_000, false));
    let warm = environment(&[("MMAP_WARMUP", "7")]);
    for (transport, kind, warmup) in [
        (RawRingTransport::Mmap, RawRingScenarioKind::Signal, 7),
        (RawRingTransport::MyelonMmap, RawRingScenarioKind::Message, 7),
        (RawRingTransport::MyelonMmap, RawRingScenarioKind::Signal, 100_000),
        (RawRingTransport::Shm, RawRingScenarioKind::Message, 1_000),
    ] {
        assert_eq!(RingExtras::read(&warm, transport, kind).warmup, warmup);
    }
}

#[test]
fn both_sides_of_a_ping_pong_read_their_segments() {
    let mut envs = environment(&[("PING_SEGMENT", "a"), ("PONG_SEGMENT", "b")]);
    assert_eq!(TypedPingPongEnv::read(&envs).unwrap_err(), "COORDINATION_SEGMENT");
    push_env(&mut envs, "COORDINATION_SEGMENT", "c".to_string());
    assert_eq!(TypedPingPongEnv::read(&envs).unwrap_err(), "BENCH_CODEC");
    push_env(&mut envs, "BENCH_CODEC", "rkyv".to_string());
    let env = TypedPingPongEnv::read(&envs).unwrap();
    assert_eq!(env.pong_segment, "b");
    assert_eq!(env.messages, 100_000);
    assert_eq!(env.warmup, 10_000);
    assert_eq!(env.buffer_depth, 4096);
    assert_eq!(env.wait_strategy, "busyspin");
    assert_eq!(env.target_rate, 0);
}

#[test]
fn an_echo_process_reads_what_it_was_spawned_with() {
    let settings = EchoSettings {
        ping_segment: "a".to_string(),
        pong_segment: "b".to_string(),
        coordination_segment: "c".to_string(),
        message_size: 1024,
        buffer_size: 4096,
        wait_strategy: "block".to_string(),
        json_mode: true,
        enable_counters: true,
    };
    let envs = settings.spawn_envs();
    assert_eq!(find_env(&envs, "JSON_MODE"), Some("1"));
    assert_eq!(find_env(&envs, "PERF_BENCH_PINGPONG_COUNTERS"), Some("1"));
    let env = EchoEnv::read(&envs).unwrap();
    assert_eq!(env.ping_segment, "a");
    assert_eq!(env.coordination_segment, "c");
    assert_eq!(env.message_size, 1024);
    assert_eq!(env.buffer_size, 4096);
    assert_eq!(env.wait_strategy, "block");
    let mut bad = settings.spawn_envs();
    push_env(&mut bad, "BUFFER_SIZE", "-4".to_string());
    let error = EchoEnv::read(&bad).unwrap_err();
    assert!(matches!(error, ChildEnvError::Malformed(key) if key == "BUFFER_SIZE"));
}

#[test]
fn liveness_is_off_unless_switched_on() {
    assert!(liveness_enabled(Some("on")));
    assert!(!liveness_enabled(Some("1")));
    assert!(!liveness_enabled(None));
    let config = liveness_config(&vec!["cp_0", "cp_1"]);
    assert_eq!(config.required_consumer_ids, vec!["cp_0".to_string(), "cp_1".to_string()]);
    assert_eq!(config.progress_timeout_ms, 50);
    assert_eq!(config.failure_action, FailureAction::GracefulShutdown);
}

#[test]
fn benchmarks_know_their_roles() {
    assert_eq!(RawRingShmBench.child_roles().len(), 8);
    assert_eq!(RawRingShmBench.child_roles()[5], "sig_multi_consumer");
    assert_eq!(RawRingMmapBench.child_roles()[0], "mmap_msg_producer");
    assert_eq!(RawMyelonMmapBench.child_roles()[7], "my_mmap_multi_msg_consumer");
    assert_eq!(
        WaitStrategyShmBench.child_roles(),
        owned(&["shm_wait_producer", "shm_wait_consumer"])
    );
    assert_eq!(WaitStrategyMmapBench.child_roles()[1], "mmap_wait_consumer");
    assert_eq!(MonsterSweepShm.child_roles().len(), 18);
    assert_eq!(MyelonFramedSweep.child_roles().len(), 20);
    assert_eq!(TypedZeroCopySweep.child_roles().len(), 4);
    assert_eq!(CodecNoFragShmBench.child_roles()[4], "nf_prod_256k");
    assert_eq!(PingPongTypedZeroCopyShmBench.bench_name(), "pingpong_typed_zero_copy_shm");
    assert_eq!(
        PingPongTypedZeroCopyShmBench.failure("no segment"),
        "pingpong_typed_zero_copy_shm failed: no segment"
    );
}

#[test]
fn the_full_matrix_has_its_roles_in_order() {
    let roles = NofragAllBench.child_roles();
    assert_eq!(roles.len(), 48);
    assert_eq!(roles[0], "raw_shm_prod_1k");
    assert_eq!(roles[7], "raw_shm_cons_64k");
    assert_eq!(roles[8], "raw_mmap_prod_1k");
    assert_eq!(roles[16], "rkyv_shm_prod_2k");
    assert_eq!(roles[31], "fb_shm_cons_128k");
    assert_eq!(roles[32], "rkyv_mmap_prod_2k");
    assert_eq!(roles[47], "fb_mmap_cons_128k");
    for (i, role) in roles.iter().enumerate() {
        assert!(!roles[..i].contains(role));
    }
}

#[test]
fn scenarios_ask_for_roles_that_exist() {
    let roles = RawMyelonMmapBench.child_roles();
    for kind in ["msg", "sig", "multi_msg", "multi_sig"] {
        assert!(roles.contains(&format!("my_mmap_{kind}_producer")));
        assert!(roles.contains(&format!("my_mmap_{kind}_consumer")));
    }
    let roles = CodecNoFragShmBench.child_roles();
    for batch_size in [8usize, 64, 256] {
        let scenario = CodecNoFragScenario {
            codec: BatchCodec::Rkyv,
            batch_size,
            messages: 1,
            buffer_depth: 256,
            consumers: 1,
            target_rate: 0,
        };
        assert!(roles.contains(&scenario.producer_role().to_string()));
        assert!(roles.contains(&scenario.consumer_role().to_string()));
    }
}

#[test]
fn the_children_of_a_raw_ring_know_their_rate_variable() {
    for (transport, kind, rate) in [
        (RawRingTransport::Shm, RawRingScenarioKind::Message, Some("BENCH_TARGET_RATE")),
        (RawRingTransport::Shm, RawRingScenarioKind::Signal, None),
        (RawRingTransport::Mmap, RawRingScenarioKind::Message, Some("MMAP_TARGET_RATE")),
        (RawRingTransport::Mmap, RawRingScenarioKind::Signal, Some("PERF_BENCH_SIGNAL_TARGET_RATE")),
        (RawRingTransport::MyelonMmap, RawRingScenarioKind::Message, Some("MMAP_TARGET_RATE")),
        (RawRingTransport::MyelonMmap, RawRingScenarioKind::Signal, None),
    ] {
        let keys = raw_ring_keys(transport, kind);
        assert_eq!(keys.target_rate, rate);
        assert_eq!(keys.needs_load, transport != RawRingTransport::Shm);
    }
}

#[test]
fn waiting_children_read_where_and_how() {
    let none = environment(&[]);
    let missing = WaitEnv::read(&none, SweepBackend::Shm, true).unwrap_err();
    assert!(matches!(missing, ChildEnvError::Missing(key) if key == "BENCHMARK_SEGMENT_NAME"));
    let missing = WaitEnv::read(&none, SweepBackend::Mmap, true).unwrap_err();
    assert!(matches!(missing, ChildEnvError::Missing(key) if key == "MMAP_ROOT"));
    let shm = environment(&[("BENCHMARK_SEGMENT_NAME", "s"), ("NUM_CONSUMERS", "x")]);
    let producer = WaitEnv::read(&shm, SweepBackend::Shm, false).unwrap();
    assert_eq!((producer.number, producer.wait_strategy.as_str()), (1, "BusySpin"));
    let mut mmap = environment(&[("MMAP_ROOT", "/r"), ("MMAP_SEGMENT", "s"), ("CONSUMER_ID", "x")]);
    let producer = WaitEnv::read(&mmap, SweepBackend::Mmap, false).unwrap();
    assert_eq!((producer.number, producer.wait_strategy.as_str()), (1, "Block"));
    assert_eq!(producer.root.as_deref(), Some("/r"));
    let malformed = WaitEnv::read(&mmap, SweepBackend::Mmap, true).unwrap_err();
    assert!(matches!(malformed, ChildEnvError::Malformed(key) if key == "CONSUMER_ID"));
    push_number(&mut mmap, "CONSUMER_ID", 3);
    push_env(&mut mmap, "WAIT_STRATEGY", "Sleep".to_string());
    let consumer = WaitEnv::read(&mmap, SweepBackend::Mmap, true).unwrap();
    assert_eq!((consumer.number, consumer.wait_strategy.as_str()), (3, "Sleep"));
}
