use perf_bench::latency::{format_ns, LatencyRecorder, LatencyStats};

fn recorded(values: &[u64]) -> LatencyStats {
    let mut recorder = LatencyRecorder::default_range();
    for value in values {
        recorder.record(*value);
    }
    recorder.stats().unwrap()
}

#[test]
fn test_basic_recording() {
    let mut recorder = LatencyRecorder::default_range();
    for i in 0..1000 {
        recorder.record(i * 100);
    }
    let stats = recorder.stats().unwrap();
    assert_eq!(stats.count, 1000);
    assert!(stats.p50_ns > 0);
    assert!(stats.p99_ns > stats.p50_ns);
    assert!(stats.max_ns >= stats.p99_ns);
}

#[test]
fn test_empty_returns_none() {
    let recorder = LatencyRecorder::default_range();
    assert!(recorder.stats().is_none());
}

#[test]
fn test_record_delta() {
    let mut recorder = LatencyRecorder::default_range();
    recorder.record_delta(1000, 2000);
    recorder.record_delta(1000, 3000);
    let stats = recorder.stats().unwrap();
    assert_eq!(stats.count, 2);
    assert!(stats.min_ns >= 1000);
    assert!(stats.max_ns <= 2100);
}

#[test]
fn test_merge() {
    let mut a = LatencyRecorder::default_range();
    let mut b = LatencyRecorder::default_range();
    for i in 0..500 {
        a.record(i * 100);
    }
    for i in 500..1000 {
        b.record(i * 100);
    }
    a.merge(&b);
    assert_eq!(a.count(), 1000);
}

#[test]
fn test_format_ns() {
    assert_eq!(format_ns(42), "42ns");
    assert_eq!(format_ns(1500), "1.5μs");
    assert_eq!(format_ns(2_500_000), "2.50ms");
    assert_eq!(format_ns(1_500_000_000), "1.50s");
}

#[test]
fn test_stats_summary() {
    let mut recorder = LatencyRecorder::default_range();
    for _ in 0..10000 {
        recorder.record(250);
    }
    let stats = recorder.stats().unwrap();
    let mean = format!("{:.0}", f64::from_bits(stats.mean_ns.bits));
    let summary = stats.summary(&mean);
    assert!(summary.contains("P50="));
    assert!(summary.contains("P99="));
    assert!(summary.contains("n=10000"));
}

#[test]
fn times_read_as_floating_point_division_prints_them() {
    let mut ns: u64 = 1;
    while ns < 1_000_000_000_000_000 {
        for offset in [0u64, 1, 49, 50, 51] {
            let value = ns + offset;
            let expected = if value < 1_000 {
                format!("{value}ns")
            } else if value < 1_000_000 {
                format!("{:.1}μs", value as f64 / 1_000.0)
            } else if value < 1_000_000_000 {
                format!("{:.2}ms", value as f64 / 1_000_000.0)
            } else {
                format!("{:.2}s", value as f64 / 1_000_000_000.0)
            };
            assert_eq!(format_ns(value), expected);
        }
        ns = ns * 3 + 7;
    }
    assert_eq!(format_ns(u64::MAX), format!("{:.2}s", u64::MAX as f64 / 1_000_000_000.0));
}

#[test]
fn ties_round_to_even_as_formatting_does() {
    for value in [1_050u64, 1_150, 1_250, 1_350, 1_450, 2_125_000, 2_375_000, 999_950, 999_949] {
        let expected = if value < 1_000_000 {
            format!("{:.1}μs", value as f64 / 1_000.0)
        } else {
            format!("{:.2}ms", value as f64 / 1_000_000.0)
        };
        assert_eq!(format_ns(value), expected);
    }
}

#[test]
fn equal_values_have_one_statistic() {
    let stats = recorded(&[250, 250, 250, 250]);
    assert_eq!(stats.count, 4);
    assert_eq!(stats.min_ns, 250);
    assert_eq!(stats.max_ns, 250);
    assert_eq!(stats.p1_ns, 250);
    assert_eq!(stats.p50_ns, 250);
    assert_eq!(stats.p999999_ns, 250);
    assert_eq!(f64::from_bits(stats.mean_ns.bits), 250.0);
    assert_eq!(f64::from_bits(stats.stdev_ns.bits), 0.0);
}

#[test]
fn percentiles_of_a_ramp_are_exact_below_the_precision() {
    let values: Vec<u64> = (1..=1000).collect();
    let stats = recorded(&values);
    assert_eq!(stats.count, 1000);
    assert_eq!(stats.min_ns, 1);
    assert_eq!(stats.p1_ns, 10);
    assert_eq!(stats.p10_ns, 100);
    assert_eq!(stats.p25_ns, 250);
    assert_eq!(stats.p50_ns, 500);
    assert_eq!(stats.p75_ns, 750);
    assert_eq!(stats.p90_ns, 900);
    assert_eq!(stats.p95_ns, 950);
    assert_eq!(stats.p99_ns, 990);
    assert_eq!(stats.max_ns, 1000);
    assert_eq!(f64::from_bits(stats.mean_ns.bits), 500.5);
}

#[test]
fn three_digits_of_a_value_are_kept() {
    for value in [1_234_567u64, 98_765_432, 9_876_543_210] {
        let stats = recorded(&[value]);
        assert!(stats.max_ns >= value);
        assert!(stats.max_ns - value <= value / 1000);
        assert!(stats.min_ns <= value);
    }
}

#[test]
fn values_above_the_range_count_at_its_end() {
    let mut recorder = LatencyRecorder::new(1_000);
    recorder.record(5_000);
    recorder.record(u64::MAX);
    assert_eq!(recorder.count(), 2);
    let stats = recorder.stats().unwrap();
    assert_eq!(stats.min_ns, 1_000);
    assert_eq!(stats.max_ns, 1_000);
}

#[test]
fn a_receive_that_is_not_after_its_send_is_not_counted() {
    let mut recorder = LatencyRecorder::default_range();
    recorder.record_delta(2_000, 1_000);
    recorder.record_delta(2_000, 2_000);
    assert_eq!(recorder.count(), 0);
}

#[test]
fn a_reset_recorder_is_empty() {
    let mut recorder = LatencyRecorder::default_range();
    recorder.record(10);
    recorder.reset();
    assert_eq!(recorder.count(), 0);
    assert!(recorder.stats().is_none());
    recorder.record(20);
    assert_eq!(recorder.stats().unwrap().max_ns, 20);
}

#[test]
fn merging_keeps_both_extremes() {
    let mut a = LatencyRecorder::default_range();
    let mut b = LatencyRecorder::default_range();
    a.record(5);
    b.record(700);
    a.merge(&b);
    let stats = a.stats().unwrap();
    assert_eq!(stats.min_ns, 5);
    assert_eq!(stats.max_ns, 700);
    assert_eq!(b.count(), 1);
}

#[test]
fn percentiles_grow_with_their_rank() {
    let values: Vec<u64> = (0..5000).map(|i| (i * i) % 77_777).collect();
    let stats = recorded(&values);
    let ranks = [
        stats.p1_ns,
        stats.p10_ns,
        stats.p25_ns,
        stats.p50_ns,
        stats.p75_ns,
        stats.p90_ns,
        stats.p95_ns,
        stats.p99_ns,
        stats.p999_ns,
        stats.p9999_ns,
        stats.p99999_ns,
        stats.p999999_ns,
    ];
    for pair in ranks.windows(2) {
        assert!(pair[0] <= pair[1]);
    }
    assert!(stats.p999999_ns <= stats.max_ns);
}

#[test]
fn the_spread_of_two_values_is_half_their_distance() {
    let stats = recorded(&[100, 300]);
    assert_eq!(f64::from_bits(stats.mean_ns.bits), 200.0);
    assert_eq!(f64::from_bits(stats.stdev_ns.bits), 100.0);
}

fn in_order(stats: &LatencyStats) -> bool {
    stats.min_ns <= stats.p1_ns && stats.p1_ns <= stats.p50_ns && stats.p999999_ns <= stats.max_ns
}

#[test]
fn figures_are_in_order_below_the_last_level() {
    let mut recorder = LatencyRecorder::new(u64::MAX);
    recorder.record(u64::MAX);
    recorder.record(1 << 63);
    let stats = recorder.stats().unwrap();
    assert_eq!(stats.min_ns, 1 << 63);
    assert_eq!(stats.p1_ns, (1 << 63) + (1 << 53) - 1);
    assert_eq!(stats.p999999_ns, u64::MAX - 1);
    assert_eq!(stats.max_ns, u64::MAX);
    assert!(in_order(&stats));
    let mut lower = LatencyRecorder::new(i64::MAX as u64);
    lower.record(u64::MAX);
    let stats = lower.stats().unwrap();
    assert_eq!(stats.min_ns, 0x7FF0_0000_0000_0000);
    assert_eq!(stats.max_ns, i64::MAX as u64);
    assert!(in_order(&stats));
}

#[test]
fn the_highest_value_alone_is_its_own_minimum() {
    let mut recorder = LatencyRecorder::new(u64::MAX);
    recorder.record(u64::MAX);
    let stats = recorder.stats().unwrap();
    assert_eq!(stats.min_ns, u64::MAX);
    assert_eq!(stats.p1_ns, u64::MAX - 1);
    assert_eq!(stats.max_ns, u64::MAX);
    recorder.reset();
    recorder.record(u64::MAX - 1);
    let stats = recorder.stats().unwrap();
    assert_eq!(stats.min_ns, 0xFFE0_0000_0000_0000);
    assert_eq!(stats.max_ns, u64::MAX - 1);
}

#[test]
fn merging_takes_what_the_range_holds() {
    let mut small = LatencyRecorder::new(1_000);
    let mut large = LatencyRecorder::new(1 << 62);
    small.record(7);
    large.record(1 << 62);
    small.merge(&large);
    assert_eq!(small.count(), 1);
    large.merge(&small);
    assert_eq!(large.count(), 2);
    assert_eq!(large.stats().unwrap().min_ns, 7);
    let mut whole = LatencyRecorder::new(u64::MAX);
    whole.record(1 << 63);
    whole.merge(&large);
    assert_eq!(whole.count(), 3);
    let mut highest = LatencyRecorder::new(u64::MAX);
    highest.record(u64::MAX);
    whole.merge(&highest);
    assert_eq!(whole.count(), 3);
    large.merge(&whole);
    assert_eq!(large.count(), 2);
}

#[test]
fn counts_stop_at_sixty_four_bits() {
    let mut a = LatencyRecorder::new(1_000);
    let mut b = LatencyRecorder::new(1_000);
    a.record(1);
    b.record(1);
    for _ in 0..50 {
        a.merge(&b);
        b.merge(&a);
    }
    assert_eq!(a.count(), u64::MAX);
    a.record(1);
    assert_eq!(a.count(), u64::MAX);
}
