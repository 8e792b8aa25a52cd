use perf_bench::bench_log::{is_enabled, log_dir, run_out_dir, BenchLog};
use perf_bench::competitors::{format_comparison, shmipc_go, shmipc_rs};
use perf_bench::coordination::{
    echo_process_timeout, echo_service_timeout, CoordinationFlag, CoordinationState, FlagWait,
};
use perf_bench::decimal::{decimal, decimal_wide, one_place, parse_u64, parse_usize, two_places};
use perf_bench::double::{quotient_parts, scale_integer};
use perf_bench::events::{
    epoch_nanos, nanos_now, BenchEvent, Event128K, Event16K, Event32K, Event8K, Event96K,
    PingPong1K, PingPong512, PingPong64, PingPongEvent,
};
use perf_bench::frames::{
    send_timestamp, Frame128K, Frame2K, MessageSlot, PhaseSums, TimedFrame,
};
use perf_bench::host::{
    platform, printed_commit, printed_or, result_cpu, run_cpu, trim, white_space,
};
use perf_bench::layout_validation::{
    layout_mmap_place, layout_shm_segment, layout_targets, measure_avg_ns, LayoutRun, LayoutTarget,
    LAYOUT_ITERATIONS,
};
use perf_bench::naming::{
    join_path, mmap_layout_from_env, segment_from_env, unique_mmap_root, unique_mmap_segment,
    unique_shm_segment,
};
use perf_bench::output_dir::{
    human_size, plan_run_dir, result_dir, result_path, RunMetadata as OutputRunMetadata,
};
use perf_bench::report::kinds::BackendKind;
use perf_bench::report::layout::LayoutTargetSpec;
use perf_bench::report::model::{RunMetadata, ScenarioOutcome};
use perf_bench::reporting::BenchMetadata;
use perf_bench::sizing::{
    aligned_slot_bytes, is_countable_depth, next_power_of_two, raw_payload_bytes, scaled_buffer,
};
use perf_bench::text::{
    after_prefix, before_suffix, begins_with, comes_before, holds_text, join_texts, lines, pad_left,
    pad_right, replace_all, replace_once, split_text, to_lower,
};

fn test_log(role: &str) -> BenchLog {
    BenchLog {
        buf: String::with_capacity(4096),
        pid: 4711,
        role: role.to_string(),
        count: 0,
        auto_flush: false,
    }
}

#[test]
fn test_basic_logging() {
    let mut log = test_log("test");
    log.auto_flush = true;
    log.event("hello");
    log.event("world");
    assert_eq!(log.count(), 2);
    let content = log.as_str();
    assert!(content.contains("\"role\":\"test\""));
    assert!(content.contains("\"msg\":\"hello\""));
    assert!(content.contains("\"msg\":\"world\""));
}

#[test]
fn test_event_val() {
    let mut log = test_log("producer");
    log.auto_flush = true;
    log.event_val("events_published", 100000);
    assert!(log.as_str().contains("\"val\":100000"));
}

#[test]
fn test_json_lines_format() {
    let mut log = test_log("consumer");
    log.auto_flush = true;
    log.event("start");
    log.event("end");
    let lines: Vec<&str> = log.as_str().lines().collect();
    assert_eq!(lines.len(), 2);
    for line in &lines {
        let _: serde_json::Value = serde_json::from_str(line).expect("valid JSON");
    }
}

#[test]
fn test_reset() {
    let mut log = test_log("test");
    log.auto_flush = true;
    log.event("first");
    assert_eq!(log.count(), 1);
    log.reset();
    assert_eq!(log.count(), 0);
    assert!(log.as_str().is_empty());
}

#[test]
fn test_disabled_is_noop() {
    let mut log = BenchLog::disabled(4711);
    log.event("should be ignored");
    log.event_val("also ignored", 42);
    assert_eq!(log.count(), 0);
    assert!(log.as_str().is_empty());
}

#[test]
fn entries_are_written_as_they_stand() {
    let mut log = test_log("producer");
    log.auto_flush = true;
    log.event_at(1713385200000000, "ring created");
    log.event_val_at(7, "done", 3);
    assert_eq!(
        log.as_str(),
        "{\"ts\":1713385200000000,\"pid\":4711,\"role\":\"producer\",\"msg\":\"ring created\"}\n{\"ts\":7,\"pid\":4711,\"role\":\"producer\",\"msg\":\"done\",\"val\":3}\n"
    );
}

#[test]
fn a_new_log_begins_with_its_start() {
    let log = BenchLog::new("producer", 64, 12, true);
    assert_eq!(log.count(), 1);
    assert!(log.as_str().contains("\"msg\":\"log_start\""));
    let quiet = BenchLog::default_capacity("producer", 12, false);
    assert_eq!(quiet.count(), 0);
    assert!(quiet.as_str().is_empty());
}

#[test]
fn a_finished_log_goes_to_a_file_of_its_own() {
    let mut log = test_log("producer");
    assert_eq!(log.finish(1, "logs", 9), None);
    log.auto_flush = true;
    assert_eq!(log.finish(1, "logs", 9), None);
    log.event_at(1, "work");
    assert_eq!(log.finish(2, "logs", 9), Some("logs/producer_4711_9.jsonl".to_string()));
    assert_eq!(log.count(), 2);
    assert!(log.as_str().ends_with("\"msg\":\"log_end\"}\n"));
}

#[test]
fn logs_go_to_the_directory_that_was_asked_for() {
    assert_eq!(log_dir(Some("/a"), Some("/b")), "/a");
    assert_eq!(log_dir(None, Some("/b")), "/b/logs");
    assert_eq!(log_dir(None, None), "output/logs");
    assert!(is_enabled(None));
    assert!(is_enabled(Some("1")));
    assert!(!is_enabled(Some("0")));
}

#[test]
fn test_large_event_sizes() {
    assert!(std::mem::size_of::<Event8K>() >= 8 * 1024);
    assert!(std::mem::size_of::<Event16K>() >= 16 * 1024);
    assert!(std::mem::size_of::<Event32K>() >= 32 * 1024);
    assert!(std::mem::size_of::<Event96K>() >= 96 * 1024);
    assert!(std::mem::size_of::<Event128K>() >= 128 * 1024);
}

#[test]
fn test_pingpong_event_sizes() {
    assert_eq!(std::mem::size_of::<PingPong64>(), 64);
    assert_eq!(std::mem::size_of::<PingPong512>(), 512);
    assert_eq!(std::mem::size_of::<PingPong1K>(), 1024);
}

#[test]
fn test_nanos_now() {
    let t1 = nanos_now();
    let t2 = nanos_now();
    assert!(t2 >= t1);
}

#[test]
fn the_clock_counts_from_the_epoch() {
    let before = std::time::SystemTime::UNIX_EPOCH.elapsed().unwrap().as_nanos() as u64;
    let now = nanos_now();
    let after = std::time::SystemTime::UNIX_EPOCH.elapsed().unwrap().as_nanos() as u64;
    assert!(before <= now && now <= after);
    assert_eq!(epoch_nanos(None), 0);
    assert_eq!(epoch_nanos(Some(5)), 5);
    assert_eq!(epoch_nanos(Some(u64::MAX as u128 + 7)), 6);
}

#[test]
fn events_start_as_zeros() {
    let event = BenchEvent::<8>::default();
    assert_eq!((event.sequence, event.timestamp_ns, event.payload), (0, 0, [0u8; 8]));
    let mut ping = PingPongEvent::<4>::default();
    assert_eq!(ping.payload, [0u8; 4]);
    ping.payload = [1, 2, 3, 4];
    ping.write_header(9, 10, 11);
    assert_eq!((ping.sequence, ping.timestamp_ns, ping.intended_send_time_ns), (9, 10, 11));
    assert_eq!(ping.payload, [1, 2, 3, 4]);
}

#[test]
fn a_frame_gives_back_what_was_written() {
    let mut frame = TimedFrame::<8>::default();
    assert_eq!(TimedFrame::<8>::payload_capacity(), 8);
    frame.write_frame(&[1, 2, 3, 4, 5], 7, 42, 1, 1000);
    let meta = frame.frame_meta();
    assert_eq!(meta.data, &[1, 2, 3, 4, 5]);
    assert_eq!((meta.len, meta.kind, meta.msg_id, meta.flags), (5, 7, 42, 1));
    assert_eq!(meta.timestamp_ns, Some(1000));
    frame.write_frame(&[9], 8, 43, 0, 1001);
    assert_eq!(frame.frame_meta().data, &[9]);
    assert_eq!(frame.data, [9, 2, 3, 4, 5, 0, 0, 0]);
    assert_eq!(std::mem::size_of::<Frame2K>(), 2048);
    assert_eq!(std::mem::size_of::<Frame128K>(), 131072);
}

#[test]
fn a_slot_gives_back_what_was_written() {
    let mut slot = MessageSlot::<4>::default();
    assert!(slot.bytes().is_empty());
    slot.write(&[1, 2, 3, 4], 5);
    slot.write(&[6, 7], 8);
    assert_eq!(slot.bytes(), &[6, 7]);
    assert_eq!((slot.len, slot.timestamp_ns), (2, 8));
    assert_eq!(send_timestamp(Some(3), 9), 3);
    assert_eq!(send_timestamp(None, 9), 9);
}

#[test]
fn phases_add_up() {
    let mut sums = PhaseSums::new();
    sums.add_phases(10, 15, 35);
    sums.add_phases(100, 101, 102);
    assert_eq!((sums.first_ns, sums.second_ns), (6, 21));
}

#[test]
fn human_size_formats_correctly() {
    assert_eq!(human_size(64), "64B");
    assert_eq!(human_size(1024), "1KB");
    assert_eq!(human_size(65536), "64KB");
    assert_eq!(human_size(1_048_576), "1MB");
    assert_eq!(human_size(33_554_432), "32MB");
}

#[test]
fn result_path_builds_nested_structure() {
    let path = result_path(
        "/tmp/test_run",
        "pingpong",
        "typed_zc",
        "shm",
        Some("rkyv"),
        Some("frag"),
        None,
        64,
        "throughput",
        None,
    );
    assert_eq!(path, "/tmp/test_run/pingpong/typed_zc/shm/frag/rkyv/64B_throughput.json");
}

#[test]
fn result_path_with_co_rate() {
    let path = result_path(
        "/tmp/test_run",
        "pingpong",
        "raw_ring",
        "mmap",
        None,
        None,
        None,
        1024,
        "co",
        Some(400000),
    );
    assert_eq!(path, "/tmp/test_run/pingpong/raw_ring/mmap/1KB_co_400000.json");
}

#[test]
fn result_path_broadcast_with_consumers() {
    let path = result_path(
        "/tmp/test_run",
        "broadcast",
        "raw_ring",
        "shm",
        None,
        None,
        Some(4),
        64,
        "throughput",
        None,
    );
    assert_eq!(path, "/tmp/test_run/broadcast/raw_ring/shm/4c/64B_throughput.json");
    let dir = result_dir("/tmp/test_run", "broadcast", "raw_ring", "shm", None, None, Some(4));
    assert_eq!(dir, "/tmp/test_run/broadcast/raw_ring/shm/4c");
}

#[test]
fn run_metadata_captures_platform() {
    let meta = OutputRunMetadata::current(
        Some("quick"),
        "2026-04-25T14:30:00+00:00",
        "linux",
        "x86_64",
        Some("processor : 0\nmodel name\t: Big CPU @ 3 GHz \n"),
        Some("abc1234\n"),
    );
    assert!(!meta.timestamp.is_empty());
    assert!(!meta.platform.is_empty());
    assert_eq!(meta.tier.as_deref(), Some("quick"));
    assert_eq!(meta.cpu, "Big CPU @ 3 GHz");
    assert_eq!(meta.git_commit, "abc1234");
}

#[test]
fn test_metadata_capture() {
    let meta = BenchMetadata::capture(
        "2026-04-25T14:30:00+00:00",
        "linux",
        "x86_64",
        None,
        true,
        Some("abc1234\n"),
        "1.85",
    );
    assert!(!meta.timestamp.is_empty());
    assert!(!meta.platform.is_empty());
    assert_eq!(meta.platform, "linux x86_64");
    assert_eq!(meta.cpu, "unknown");
    assert_eq!(meta.git_commit.as_deref(), Some("abc1234"));
}

#[test]
fn a_given_run_directory_is_used_as_it_is() {
    let given = plan_run_dir(Some("/tmp/run"), "2026-04-25T14-30-00");
    assert_eq!(given.path, "/tmp/run");
    assert!(given.fresh.is_none());
    let fresh = plan_run_dir(None, "2026-04-25T14-30-00");
    assert_eq!(fresh.path, "output/2026-04-25T14-30-00");
    let setup = fresh.fresh.unwrap();
    assert_eq!(setup.metadata_path, "output/2026-04-25T14-30-00/run.json");
    assert_eq!(setup.logs_dir, "output/2026-04-25T14-30-00/logs");
}

#[test]
fn white_space_is_what_unicode_says() {
    for code in 0..=0x10ffffu32 {
        if let Some(c) = char::from_u32(code) {
            assert_eq!(white_space(c), c.is_whitespace());
        }
    }
    for text in ["", " ", "a", " a b \n", "\u{3000}x\u{85}", "\t\t"] {
        assert_eq!(trim(text), text.trim());
        assert_eq!(trim(&trim(text)), text.trim());
    }
}

#[test]
fn processors_are_named_after_the_first_colon() {
    let info = "processor\t: 0\nmodel name\t: A: B\nmodel name\t: C\n";
    assert_eq!(result_cpu(Some(info)), "A");
    assert_eq!(run_cpu(Some(info)), "A");
    assert_eq!(result_cpu(Some("model name\n")), "");
    assert_eq!(run_cpu(Some("model name\n")), "unknown");
    assert_eq!(result_cpu(Some("vendor: x\n")), "unknown");
    assert_eq!(run_cpu(None), "unknown");
    assert_eq!(printed_or(Some(" x \n"), "unknown"), "x");
    assert_eq!(printed_or(None, "unknown"), "unknown");
    assert_eq!(printed_commit(false, Some("abc")), None);
    assert_eq!(printed_commit(true, Some("abc\n")), Some("abc".to_string()));
    assert_eq!(platform("linux", "x86_64"), "linux x86_64");
}

#[test]
fn test_lookup() {
    let p50 = |size: usize| shmipc_rs().p50_us(size).map(|latency| f64::from_bits(latency.bits));
    assert_eq!(p50(64), Some(1.066));
    assert_eq!(p50(999), None);
}

#[test]
fn test_format_comparison() {
    let competitor = shmipc_rs();
    let their = f64::from_bits(competitor.p50_us(64).unwrap().bits);
    let ratio = their / 0.25;
    let s = format_comparison(64, &competitor, &format!("{ratio:.1}x faster"));
    assert!(s.contains("reference, static"));
    assert!(s.contains("shmipc-rs"));
    assert!(s.contains("faster"));
    assert_eq!(s, "vs shmipc-rs [reference, static, commit 2f22b071]: 4.3x faster");
    assert_eq!(format_comparison(999, &competitor, ""), "vs shmipc-rs: no data for 999B");
}

#[test]
fn published_latencies_are_the_published_ones() {
    let rs: Vec<(usize, f64)> =
        shmipc_rs().latencies.iter().map(|(n, m)| (*n, f64::from_bits(m.bits))).collect();
    assert_eq!(
        rs,
        vec![
            (64, 1.066),
            (512, 1.013),
            (1024, 1.051),
            (4096, 1.018),
            (16384, 1.226),
            (32768, 1.184),
            (65536, 1.254),
            (262144, 1.167),
            (524288, 1.260),
            (1048576, 2.387),
            (4194304, 4.818),
        ]
    );
    let go: Vec<(usize, f64)> =
        shmipc_go().latencies.iter().map(|(n, m)| (*n, f64::from_bits(m.bits))).collect();
    assert_eq!(
        go,
        vec![
            (64, 1.970),
            (512, 1.990),
            (1024, 2.045),
            (4096, 2.063),
            (16384, 1.996),
            (32768, 1.937),
            (65536, 1.995),
            (262144, 1.793),
            (524288, 1.993),
            (1048576, 1.873),
            (4194304, 1.891),
        ]
    );
}

#[test]
fn a_raised_flag_ends_the_wait() {
    let mut state = CoordinationState::new();
    assert_eq!(state.wait_for(CoordinationFlag::EchoReady, 5, 5), FlagWait::Spin);
    assert_eq!(state.wait_for(CoordinationFlag::EchoReady, 6, 5), FlagWait::TimedOut);
    state.raise(CoordinationFlag::EchoReady);
    assert_eq!(state.wait_for(CoordinationFlag::EchoReady, 6, 5), FlagWait::Raised);
    assert_eq!(state.wait_for(CoordinationFlag::ProducerReady, 0, 5), FlagWait::Spin);
    assert_eq!(state.producer_ready, 0);
    assert!(!state.is_shutdown());
    state.signal_shutdown();
    assert!(state.is_shutdown());
    assert_eq!(state.echo_ready, 1);
    assert_eq!(echo_process_timeout(3), "timeout waiting for echo process on lane 3");
    assert_eq!(
        echo_service_timeout(0),
        "timeout waiting for echo service readiness on lane 0"
    );
}

#[test]
fn names_hold_the_process_and_the_time() {
    assert_eq!(unique_shm_segment("rr", 123_456, 9_876_543), "rr_3456_76543");
    assert_eq!(unique_mmap_segment("rr", 7, 5), "rr_7_5");
    assert_eq!(unique_mmap_root("/tmp", "rr", 123_456, 9_876_543), "/tmp/rr_123456_9876543");
    assert_ne!(unique_shm_segment("rr", 1, 5), unique_shm_segment("rr", 2, 5));
    assert_ne!(unique_shm_segment("rr", 1, 23), unique_shm_segment("rr", 12, 3));
    assert_ne!(unique_shm_segment("rr", 1, 5), unique_shm_segment("rr", 1, 6));
    assert_ne!(unique_mmap_root("/tmp", "rr", 1, 11), unique_mmap_root("/tmp", "rr", 11, 1));
    assert_eq!(segment_from_env("SEG", Some("x")).unwrap(), "x");
    assert_eq!(segment_from_env("SEG", None).unwrap_err(), "SEG env var not set");
    assert_eq!(
        mmap_layout_from_env("R", Some("/r"), "S", Some("s")).unwrap(),
        ("/r".to_string(), "s".to_string())
    );
    assert_eq!(mmap_layout_from_env("R", None, "S", None).unwrap_err(), "R not set");
    assert_eq!(mmap_layout_from_env("R", Some("/r"), "S", None).unwrap_err(), "S not set");
}

#[test]
fn paths_join_as_the_standard_library_joins_them() {
    for base in ["", "/", "a", "a/", "/tmp/x"] {
        for name in ["", "b", "/b", "b/c"] {
            let expected = std::path::Path::new(base).join(name);
            assert_eq!(join_path(base, name), expected.to_str().unwrap());
        }
    }
}

#[test]
fn numbers_read_back() {
    for n in [0u64, 9, 10, 99, 100, 12_345, u64::MAX] {
        assert_eq!(decimal(n), n.to_string());
        assert_eq!(parse_u64(&decimal(n)), Some(n));
    }
    assert_eq!(decimal_wide(u128::MAX), u128::MAX.to_string());
    for text in ["", "+", "-1", "1 ", "+5", "007", "1e3", "18446744073709551616"] {
        assert_eq!(parse_u64(text), text.parse::<u64>().ok());
        assert_eq!(parse_usize(text), text.parse::<usize>().ok());
    }
}

#[test]
fn quotients_round_as_floating_point_does() {
    for k in [1u64, 5, 49, 50, 51, 149, 150, 151, 1_005, 123_456_789, 9_007_199_254] {
        for den in [1_000u64, 1_000_000, 1_000_000_000] {
            let n = den + k * den / 100 + k;
            assert_eq!(one_place(n, den), format!("{:.1}", n as f64 / den as f64));
            assert_eq!(two_places(n, den), format!("{:.2}", n as f64 / den as f64));
        }
    }
    assert_eq!(quotient_parts(10, 3, 10), 33);
    for (ticks, num, den) in [
        (1u64, 20_000_123u64, 60_000_457u64),
        (1_000_000, 20_000_123, 60_000_457),
        (u64::MAX, 20_000_123, 60_000_457),
        (3, 1, 2),
        (7, 3, 1),
        (2, 9_007_199_254_740_993, 3),
        (5, 3, 9_007_199_254_740_993),
        (u64::MAX, u64::MAX, u64::MAX),
        (1, u64::MAX, u64::MAX - 1),
    ] {
        let expected = (ticks as f64 * (num as f64 / den as f64)).round() as u64;
        assert_eq!(scale_integer(ticks, num, den), expected);
    }
    assert_eq!(scale_integer(2, 9_007_199_254_740_993, 3), 6_004_799_503_160_661);
}

#[test]
fn depths_scale_with_consumers() {
    for n in [0usize, 1, 2, 3, 4, 5, 1000, 1024, 1025] {
        assert_eq!(next_power_of_two(n), n.next_power_of_two());
    }
    assert_eq!(scaled_buffer(100, 1), 256);
    assert_eq!(scaled_buffer(1024, 3), 1024);
    assert_eq!(scaled_buffer(1000, 5), 2048);
    assert_eq!(aligned_slot_bytes(144), 192);
    assert_eq!(aligned_slot_bytes(64), 64);
    assert_eq!(raw_payload_bytes(144), 128);
}

#[test]
fn texts_are_searched_split_and_joined() {
    assert!(holds_text("raw_ring_shm", "ring"));
    assert!(!holds_text("raw", "ring"));
    assert!(begins_with("--quick", "--"));
    assert_eq!(after_prefix("co_aware@5", "co_aware@"), Some("5".to_string()));
    assert_eq!(after_prefix("x", "co"), None);
    assert_eq!(before_suffix("enabled(3)", ")"), Some("enabled(3".to_string()));
    assert_eq!(replace_once("a_rkyv_rkyv", "rkyv", "{codec}"), "a_{codec}_rkyv");
    let fields = split_text("a//b/", '/');
    assert_eq!(fields, vec!["a", "", "b", ""]);
    assert_eq!(join_texts(&fields, "/"), "a//b/");
    assert_eq!(lines("a\r\nb\n\nc"), vec!["a", "b", "", "c"]);
    assert!(lines("").is_empty());
    assert_eq!(pad_right("ab", 4), "ab  ");
    assert_eq!(pad_left("ab", 4), "  ab");
    assert_eq!(pad_left("abcde", 4), "abcde");
    assert_eq!(to_lower("BusySPIN"), "busyspin");
    for a in ["", "a", "ab", "b", "μ"] {
        for b in ["", "a", "ab", "b", "μ"] {
            assert_eq!(comes_before(a, b), a < b);
        }
    }
}

fn run_metadata() -> RunMetadata {
    RunMetadata {
        timestamp: "t".to_string(),
        platform: "p".to_string(),
        cpu: "c".to_string(),
        git_commit: None,
        rust_version: "r".to_string(),
    }
}

fn target(name: &str, budget_ns: u64) -> LayoutTargetSpec {
    LayoutTargetSpec {
        scenario: name.to_string(),
        backend: BackendKind::Mmap,
        layer: "raw_ring".to_string(),
        budget_ns,
    }
}

#[test]
fn a_validation_passes_when_every_target_does() {
    let fast = target("mmap-ring-attach", 100);
    let slow = target("mmap-cursor-attach", 10);
    let mut run = LayoutRun::new();
    run.record(&fast, 100);
    assert!(run.all_pass);
    assert_eq!(run.exit_status(), 0);
    run.record(&slow, 11);
    run.record(&fast, 1);
    assert!(!run.all_pass);
    assert_eq!(run.exit_status(), 1);
    let report = run.report(&run_metadata());
    assert_eq!(report.scenarios.len(), 3);
    assert_eq!(report.scenarios[1].identity.scenario, "mmap-cursor-attach");
    let ScenarioOutcome::Layout(outcome) = &report.scenarios[1].outcome else {
        panic!("expected layout outcome");
    };
    assert!(!outcome.pass);
    assert_eq!(outcome.iterations, LAYOUT_ITERATIONS);
}

#[test]
fn layout_targets_have_names_of_their_own() {
    let targets = layout_targets();
    assert_eq!(targets.len(), 14);
    assert_eq!(targets[0], LayoutTarget::ShmRingProducerCreate);
    assert!(targets[0].creates());
    assert!(!targets[1].creates());
    assert_eq!(targets[7].prefix(), "lv_frc");
    for (i, a) in targets.iter().enumerate() {
        assert!(targets[..i].iter().all(|b| b.prefix() != a.prefix()));
    }
    assert_eq!(layout_shm_segment("lv_shm", 7, 3), "lv_shm_7_3");
    assert_eq!(
        layout_mmap_place("/tmp", "lv_mmap", 7, 3),
        ("/tmp/lv_mmap_7_3".to_string(), "lv_mmap_3".to_string())
    );
    assert_eq!(measure_avg_ns(149, 50), 2);
}

#[test]
fn any_message_makes_one_line_of_json() {
    let text = "a \"quoted\" \\ path\nand\r\ttabs \u{0}\u{1f} \u{7f} μ";
    let mut log = test_log(text);
    log.auto_flush = true;
    log.event_at(17, text);
    log.event_val_at(18, text, 42);
    log.event(text);
    let lines: Vec<&str> = log.as_str().split_terminator('\n').collect();
    assert_eq!(lines.len(), 3);
    for line in &lines {
        let read: serde_json::Value = serde_json::from_str(line).expect("valid JSON");
        assert_eq!(read["role"].as_str(), Some(text));
        assert_eq!(read["msg"].as_str(), Some(text));
        assert_eq!(read["pid"].as_u64(), Some(log.pid as u64));
    }
    let with_number: serde_json::Value = serde_json::from_str(lines[1]).expect("valid JSON");
    assert_eq!(with_number["ts"].as_u64(), Some(18));
    assert_eq!(with_number["val"].as_u64(), Some(42));
    let mut plain = test_log("r");
    plain.auto_flush = true;
    plain.pid = 3;
    plain.event_at(5, "x\ny");
    assert_eq!(plain.as_str(), "{\"ts\":5,\"pid\":3,\"role\":\"r\",\"msg\":\"x\\u000ay\"}\n");
}

#[test]
fn every_occurrence_is_replaced() {
    for (text, pattern, with) in [
        ("aaaa", "aa", "b"),
        ("aaa", "aa", "aa"),
        ("co_aware@5", "co_aware@", "CO@"),
        ("", "x", "y"),
        ("abc", "d", "e"),
        ("xyxyx", "xyx", ""),
    ] {
        assert_eq!(replace_all(text, pattern, with), text.replace(pattern, with));
    }
}

#[test]
fn a_depth_is_tested_before_it_is_scaled() {
    assert!(is_countable_depth(512, 12));
    assert!(is_countable_depth(usize::MAX / 2 + 1, 1));
    assert!(!is_countable_depth(usize::MAX / 2 + 2, 1));
    assert!(is_countable_depth(1, (usize::MAX / 2 + 1) / 256));
    assert!(!is_countable_depth(1, (usize::MAX / 2 + 1) / 256 + 1));
    assert!(!is_countable_depth(1, usize::MAX));
}

#[test]
fn the_first_output_directory_goes_first() {
    assert_eq!(run_out_dir(Some("a"), Some("b")), Some("a"));
    assert_eq!(run_out_dir(None, Some("b")), Some("b"));
    assert_eq!(run_out_dir(None, None), None);
    assert_eq!(log_dir(None, run_out_dir(None, Some("b"))), "b/logs");
}

#[test]
fn half_of_the_layout_targets_are_mapped() {
    for target in layout_targets() {
        assert_eq!(target.is_mapped(), target.prefix().contains("mmap"));
    }
}
