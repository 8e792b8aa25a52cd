use perf_bench::event_consumer::{
    attach_failure, attach_retry, checksum_bytes, mmap_attach_failure, mmap_consumer_name,
    multi_consumer_id, process_consumer_name, record_message_latency, AttachAction, CountingRule, EventConsumer,
    SignalMeasurement, Verdict,
};
use perf_bench::latency::LatencyRecorder;
use perf_bench::metric::Metric;
use perf_bench::pacing::{
    co_interval_ns, drain_timeout_secs, intended_ns, last_sequence, payload_fill,
    ready_timeout_error, ready_timeout_secs, signal_event, PacedProducer, ProducerStep,
    SignalStamping,
};
use perf_bench::results::MeasuredRates;
use perf_bench::signal_counters::{
    absolute_event_count, consumer_cursor_name, percentile, producer_cursor_name,
    signal_single_consumer_id, unique_signal_counters_name, BacklogObserver, BacklogRates,
    CounterId, CounterReading, CounterValues, ObserverSource, SignalCountersEstimate,
    SignalCountersMode,
};
use perf_bench::signal_latency::{
    collect_signal_latency_offline, monotonic_raw_ns, read_stamp, record_signal_latency,
    sample_capacity, sample_every_from_env, sampled_delta, saturating_times, should_sample,
    sidecar_bytes, sidecar_index, LocalTimestampSidecar, OfflineSignalSamples, SignalLatencyMode,
    StampSource, TimestampSidecar, TscCalibration,
};

const MODES: [SignalLatencyMode; 9] = [
    SignalLatencyMode::Disabled,
    SignalLatencyMode::InlineMonoRawNs,
    SignalLatencyMode::InlineRdtsc,
    SignalLatencyMode::SidecarMonoRawNs,
    SignalLatencyMode::SidecarRdtsc,
    SignalLatencyMode::InlineMonoRawNsOffline,
    SignalLatencyMode::InlineRdtscOffline,
    SignalLatencyMode::SidecarMonoRawNsOffline,
    SignalLatencyMode::SidecarRdtscOffline,
];

#[test]
fn signal_latency_mode_parses() {
    assert_eq!(
        SignalLatencyMode::parse("none").unwrap(),
        SignalLatencyMode::Disabled
    );
    assert_eq!(
        SignalLatencyMode::parse("inline-ns").unwrap(),
        SignalLatencyMode::InlineMonoRawNs
    );
    assert_eq!(
        SignalLatencyMode::parse("inline-tsc").unwrap(),
        SignalLatencyMode::InlineRdtsc
    );
    assert_eq!(
        SignalLatencyMode::parse("sidecar-ns").unwrap(),
        SignalLatencyMode::SidecarMonoRawNs
    );
    assert_eq!(
        SignalLatencyMode::parse("sidecar-tsc").unwrap(),
        SignalLatencyMode::SidecarRdtsc
    );
    assert_eq!(
        SignalLatencyMode::parse("inline-tsc-offline").unwrap(),
        SignalLatencyMode::InlineRdtscOffline
    );
    assert_eq!(
        SignalLatencyMode::parse("sidecar-ns-offline").unwrap(),
        SignalLatencyMode::SidecarMonoRawNsOffline
    );
    assert!(SignalLatencyMode::parse("bogus").is_err());
}

#[test]
fn sample_every_zero_defaults_to_one() {
    assert_eq!(sample_every_from_env(Some("0")), 1);
    assert_eq!(sample_every_from_env(Some("64")), 64);
    assert_eq!(sample_every_from_env(Some("often")), 1);
    assert_eq!(sample_every_from_env(None), 1);
}

#[test]
fn should_sample_honors_stride() {
    assert!(should_sample(0, 64));
    assert!(!should_sample(1, 64));
    assert!(should_sample(64, 64));
}

#[test]
fn sample_capacity_rounds_up() {
    assert_eq!(sample_capacity(1000, 64), 16);
    assert_eq!(sample_capacity(1001, 64), 16);
    assert_eq!(sample_capacity(1002, 64), 16);
    assert_eq!(sample_capacity(1025, 64), 17);
}

#[test]
fn capacity_holds_every_sample() {
    for first in [0u64, 1, 63, 100] {
        for events in [0u64, 1, 64, 65, 1000] {
            for stride in [0u64, 1, 2, 64, 2000] {
                let samples =
                    (first..first + events).filter(|s| should_sample(*s, stride)).count();
                assert!(samples <= sample_capacity(events, stride));
            }
        }
    }
}

#[test]
fn mode_names_read_back() {
    for mode in MODES {
        assert_eq!(SignalLatencyMode::parse(mode.as_str()), Ok(mode));
        assert_eq!(SignalLatencyMode::from_env(Some(mode.as_str())), Ok(mode));
        assert_eq!(mode.records_latency(), mode != SignalLatencyMode::Disabled);
        assert!(!(mode.is_inline() && mode.uses_sidecar()));
        assert_eq!(mode.is_inline() || mode.uses_sidecar(), mode.records_latency());
        assert_eq!(mode.uses_rdtsc(), mode.stamp_source() == StampSource::TimestampCounter);
        assert_eq!(mode.uses_offline_samples(), mode.as_str().ends_with("-offline"));
    }
    assert_eq!(SignalLatencyMode::from_env(None), Ok(SignalLatencyMode::Disabled));
    assert_eq!(
        SignalLatencyMode::parse("bogus").unwrap_err(),
        "unsupported signal latency mode: bogus (expected one of: none, inline-ns, inline-tsc, sidecar-ns, sidecar-tsc, inline-ns-offline, inline-tsc-offline, sidecar-ns-offline, sidecar-tsc-offline)"
    );
    assert_eq!(SignalLatencyMode::canonical(true), SignalLatencyMode::InlineRdtscOffline);
    assert_eq!(SignalLatencyMode::canonical(false), SignalLatencyMode::InlineMonoRawNsOffline);
}

#[test]
fn clocks_saturate() {
    assert_eq!(saturating_times(3, 4), 12);
    assert_eq!(saturating_times(u64::MAX, 2), u64::MAX);
    assert_eq!(monotonic_raw_ns(true, 2, 5), 2_000_000_005);
    assert_eq!(monotonic_raw_ns(false, 2, 5), 0);
    assert_eq!(monotonic_raw_ns(true, u64::MAX, 5), u64::MAX);
}

#[test]
fn stamps_come_from_the_clock_of_the_mode() {
    assert_eq!(read_stamp(SignalLatencyMode::Disabled, 5, Some(6)), 0);
    assert_eq!(read_stamp(SignalLatencyMode::InlineMonoRawNs, 5, Some(6)), 5);
    assert_eq!(read_stamp(SignalLatencyMode::SidecarRdtscOffline, 5, Some(6)), 6);
    assert_eq!(read_stamp(SignalLatencyMode::InlineRdtsc, 5, None), 0);
}

#[test]
fn tsc_calibration_produces_scale() {
    let cal = TscCalibration::calibrate(1_000, 50, 61_001_000, 20_000_050).expect("tsc calibration");
    let ns_per_tick = 20_000_000f64 / 61_000_000f64;
    for ticks in [0u64, 1, 2, 1_000, 123_456_789, 1 << 60] {
        let expected = (ticks as f64 * ns_per_tick).round() as u64;
        assert_eq!(cal.delta_to_ns(7, 7 + ticks), expected);
    }
    assert_eq!(cal.delta_to_ns(9, 7), 0);
    assert_eq!(TscCalibration::deadline(5), 20_000_005);
    assert_eq!(TscCalibration::deadline(u64::MAX), u64::MAX);
    assert!(TscCalibration::calibrate(5, 1, 5, 2).is_none());
    assert!(TscCalibration::calibrate(5, 2, 6, 2).is_none());
}

#[test]
fn a_sidecar_gives_back_recent_stamps() {
    let mut sidecar = LocalTimestampSidecar::new(4);
    for sequence in 0..10u64 {
        sidecar.store(sequence, 100 + sequence);
    }
    for sequence in 6..10u64 {
        assert_eq!(sidecar.load(sequence), 100 + sequence);
    }
    assert_eq!(sidecar.load(5), 109);
    assert_eq!(sidecar_index(10, 4), 2);
    assert_eq!(sidecar_bytes(4).unwrap(), 32);
    assert_eq!(sidecar_bytes(usize::MAX).unwrap_err(), "sidecar size overflow");
}

#[test]
fn deltas_need_both_stamps() {
    let mode = SignalLatencyMode::InlineMonoRawNs;
    assert_eq!(sampled_delta(mode, 10, 25), Some(15));
    assert_eq!(sampled_delta(mode, 0, 25), None);
    assert_eq!(sampled_delta(mode, 25, 25), None);
    assert_eq!(sampled_delta(mode, 25, 10), None);
    assert_eq!(sampled_delta(SignalLatencyMode::Disabled, 10, 25), None);
}

#[test]
fn latency_in_ticks_is_converted() {
    let cal = TscCalibration::calibrate(0, 0, 2_000, 1_000);
    let mut recorder = LatencyRecorder::default_range();
    record_signal_latency(&mut recorder, SignalLatencyMode::InlineRdtsc, 10, 210, &cal);
    record_signal_latency(&mut recorder, SignalLatencyMode::InlineMonoRawNs, 10, 210, &cal);
    record_signal_latency(&mut recorder, SignalLatencyMode::InlineRdtsc, 10, 210, &None);
    let stats = recorder.stats().unwrap();
    assert_eq!(stats.count, 2);
    assert_eq!(stats.min_ns, 100);
    assert_eq!(stats.max_ns, 200);
}

#[test]
fn offline_samples_wait_until_the_end() {
    let cal = TscCalibration::calibrate(0, 0, 2_000, 1_000);
    let mode = SignalLatencyMode::InlineRdtscOffline;
    let mut samples = OfflineSignalSamples::new(2);
    collect_signal_latency_offline(&mut samples, mode, 10, 210);
    collect_signal_latency_offline(&mut samples, mode, 0, 210);
    collect_signal_latency_offline(&mut samples, mode, 10, 410);
    let stats = samples.into_latency_stats(mode, &cal).unwrap();
    assert_eq!((stats.count, stats.min_ns, stats.max_ns), (2, 100, 200));
    let mut kept = OfflineSignalSamples::new(1);
    kept.record(7);
    assert!(kept.into_latency_stats(mode, &None).is_none());
    assert!(OfflineSignalSamples::new(1).into_latency_stats(mode, &cal).is_none());
}

#[test]
fn rates_have_intervals() {
    assert_eq!(co_interval_ns(0), None);
    assert_eq!(co_interval_ns(400_000), Some(2_500));
    assert_eq!(co_interval_ns(2_000_000_000), Some(0));
    assert_eq!(intended_ns(100, 3, 2_500), 7_600);
    assert_eq!(payload_fill(257), 1);
    assert_eq!(last_sequence(100, 900), 999);
    let event = signal_event(2, 9);
    assert_eq!(event.data, 2u64.wrapping_mul(0x9E3779B97F4A7C15));
    assert_eq!((event.sequence, event.stamp), (2, 9));
}

#[test]
fn a_paced_producer_publishes_everything_in_order() {
    let mut producer = PacedProducer::new(2, 3, 1_000_000_000);
    let mut published = Vec::new();
    let mut now = 50u64;
    let mut waits = 0;
    loop {
        match producer.step(now) {
            ProducerStep::Publish(sequence) => {
                let header = producer.message_header(sequence, now);
                published.push((header.sequence, header.timestamp_ns, header.fill));
            }
            ProducerStep::StartClock => {
                assert_eq!(published.len(), 2);
                assert!(producer.is_measuring());
            }
            ProducerStep::Wait => {
                waits += 1;
                now += 1;
            }
            ProducerStep::Done => break,
        }
    }
    assert_eq!(published, vec![(0, 0, 0), (1, 0, 1), (2, 50, 2), (3, 51, 3), (4, 52, 4)]);
    assert_eq!(waits, 2);
}

#[test]
fn full_speed_stamps_with_the_current_time() {
    let mut producer = PacedProducer::new(0, 1, 0);
    assert!(matches!(producer.step(9), ProducerStep::StartClock));
    assert!(matches!(producer.step(9), ProducerStep::Publish(0)));
    assert_eq!(producer.message_header(0, 77).timestamp_ns, 77);
    assert!(matches!(producer.step(9), ProducerStep::Done));
}

#[test]
fn signals_are_stamped_after_the_warmup() {
    let inline = SignalStamping {
        mode: SignalLatencyMode::InlineMonoRawNs,
        warmup: 4,
        sample_every: 2,
    };
    assert!(!inline.needs_stamp(2));
    assert!(inline.needs_stamp(4));
    assert!(!inline.needs_stamp(5));
    assert_eq!(inline.stamped(4, 99).event.stamp, 99);
    assert_eq!(inline.stamped(5, 99).event.stamp, 0);
    assert_eq!(inline.stamped(4, 99).sidecar_stamp, None);
    let sidecar = SignalStamping { mode: SignalLatencyMode::SidecarRdtsc, ..inline };
    assert_eq!(sidecar.stamped(4, 99).sidecar_stamp, Some(99));
    assert_eq!(sidecar.stamped(5, 99).sidecar_stamp, Some(0));
    assert_eq!(sidecar.stamped(3, 99).sidecar_stamp, None);
    assert_eq!(sidecar.stamped(4, 99).event.stamp, 0);
}

#[test]
fn waiting_times_depend_on_the_number_of_consumers() {
    assert_eq!((ready_timeout_secs(false), ready_timeout_secs(true)), (30, 60));
    assert_eq!((drain_timeout_secs(false), drain_timeout_secs(true)), (30, 90));
    assert_eq!(ready_timeout_error(false, 1), "Timeout waiting for consumer");
    assert_eq!(ready_timeout_error(true, 4), "Timeout waiting for 4 consumers");
}

#[test]
fn events_in_order_are_counted_once() {
    for rule in [CountingRule::ByNumber, CountingRule::BySequenceAtFirst, CountingRule::BySequence] {
        let mut consumer = EventConsumer::new(rule, 3, 4);
        let mut measured = 0;
        let mut clock_starts = 0;
        for sequence in 0..7u64 {
            let (verdict, starts) = consumer.take(sequence, sequence);
            if starts {
                clock_starts += 1;
            }
            if verdict == Verdict::Measured {
                measured += 1;
            }
            if consumer.end_poll() {
                clock_starts += 1;
            }
            assert_eq!(consumer.is_finished(), sequence == 6);
        }
        assert_eq!(measured, 4);
        assert_eq!(clock_starts, 1);
        assert_eq!(consumer.checksum, 3 + 4 + 5 + 6);
        assert_eq!(consumer.phase_context("signal_consumer"), "signal_consumer measured");
    }
}

#[test]
fn a_late_warmup_event_is_ignored_only_by_sequence() {
    let mut strict = EventConsumer::new(CountingRule::BySequence, 2, 5);
    strict.take(2, 1);
    strict.end_poll();
    let mut lenient = EventConsumer::new(CountingRule::BySequenceAtFirst, 2, 5);
    lenient.take(2, 1);
    lenient.end_poll();
    if strict.measuring {
        assert_eq!(strict.take(0, 1).0, Verdict::Ignored);
    }
    if lenient.measuring {
        assert_eq!(lenient.take(0, 1).0, Verdict::Measured);
    }
    assert_eq!(strict.consumed, 1);
}

#[test]
fn a_consumer_can_finish_with_its_producer() {
    let mut consumer = EventConsumer::new(CountingRule::ByNumber, 0, 100);
    consumer.end_poll();
    consumer.take(0, u64::MAX);
    consumer.take(1, 2);
    assert!(!consumer.is_finished());
    assert!(!consumer.is_finished_with(false, 2));
    assert!(!consumer.is_finished_with(true, 3));
    assert!(consumer.is_finished_with(true, 2));
    let zero = Metric { bits: 0 };
    let rates = MeasuredRates {
        throughput_ops_sec: zero,
        elapsed_secs: zero,
        bandwidth_bytes_sec: zero,
        data_rate_gbps: zero,
    };
    let report = consumer.report(3, rates, None);
    assert_eq!((report.consumer_id, report.events_consumed, report.checksum), (3, 2, 1));
}

#[test]
fn payload_bytes_add_up_in_eight_bits() {
    assert_eq!(checksum_bytes(&[]), 0);
    assert_eq!(checksum_bytes(&[200, 100]), 44);
    assert_eq!(checksum_bytes(&[255; 3]), 253);
}

#[test]
fn message_latency_needs_a_stamp_and_a_measured_event() {
    let mut recorder = LatencyRecorder::default_range();
    record_message_latency(&mut recorder, Verdict::Measured, 10, 25);
    record_message_latency(&mut recorder, Verdict::Measured, 0, 25);
    record_message_latency(&mut recorder, Verdict::Warmup, 10, 25);
    assert_eq!(recorder.count(), 1);
    assert_eq!(recorder.stats().unwrap().max_ns, 15);
}

#[test]
fn signal_measurement_follows_its_mode() {
    assert!(matches!(
        SignalMeasurement::new(SignalLatencyMode::Disabled, 4),
        SignalMeasurement::Nothing
    ));
    let mode = SignalLatencyMode::InlineMonoRawNs;
    let mut recorded = SignalMeasurement::new(mode, 4);
    recorded.measure(mode, 10, 25, &None);
    match &recorded {
        SignalMeasurement::Recorded(recorder) => assert_eq!(recorder.count(), 1),
        _ => panic!("expected a recorder"),
    }
    let mode = SignalLatencyMode::SidecarMonoRawNsOffline;
    let mut kept = SignalMeasurement::new(mode, 4);
    let stamp = SignalMeasurement::send_stamp(mode, 1, Some(10));
    kept.measure(mode, stamp, 25, &None);
    match kept {
        SignalMeasurement::Kept(samples) => {
            assert_eq!(samples.into_latency_stats(mode, &None).unwrap().max_ns, 15)
        }
        _ => panic!("expected samples"),
    }
    assert_eq!(SignalMeasurement::send_stamp(SignalLatencyMode::InlineRdtsc, 1, Some(10)), 1);
    assert_eq!(SignalMeasurement::send_stamp(mode, 1, None), 0);
}

#[test]
fn consumers_have_names() {
    assert_eq!(mmap_consumer_name(3), "c3");
    assert_eq!(multi_consumer_id("rrc", 3), "rrc_3");
    assert_eq!(multi_consumer_id("msc", 0), "msc_0");
    assert_eq!(process_consumer_name("tzc", 1, 77), "tzc1_77");
    assert_eq!(attach_failure("rrc_1", "gone"), "attach failed for rrc_1: gone");
    assert_eq!(attach_retry(4, 5), AttachAction::Retry { millis: 25 });
    assert_eq!(attach_retry(5, 5), AttachAction::Fail);
}

#[test]
fn counter_modes_read_back() {
    assert_eq!(SignalCountersMode::parse("full"), Ok(SignalCountersMode::Full));
    assert_eq!(SignalCountersMode::parse("lite"), Ok(SignalCountersMode::Lite));
    assert!(SignalCountersMode::parse("odd").is_err());
    assert_eq!(SignalCountersMode::Full.as_str(), "full");
    assert_eq!(SignalCountersMode::from_env(Some("lite")), Ok(SignalCountersMode::Lite));
}

#[test]
fn counters_are_read_from_snapshots_and_cursors() {
    let snapshot = vec![
        CounterReading { id: CounterId::EventsPublished, value: 10 },
        CounterReading { id: CounterId::Other, value: 99 },
        CounterReading { id: CounterId::EventsConsumed, value: 7 },
        CounterReading { id: CounterId::ConsumerLagMax, value: 3 },
    ];
    let values = CounterValues::from_snapshot(&snapshot);
    assert_eq!((values.events_published, values.events_consumed), (10, 7));
    assert_eq!((values.consumer_lag_max, values.consumer_empty_spins), (3, 0));
    assert_eq!(absolute_event_count(-1), 0);
    assert_eq!(absolute_event_count(4), 5);
    let cursors = CounterValues::from_cursors(9, 4);
    assert_eq!((cursors.events_published, cursors.events_consumed), (10, 5));
    assert_eq!(producer_cursor_name("seg"), "seg_producer_seq");
    assert_eq!(consumer_cursor_name("seg", "ad_0"), "seg_ad_0_seq");
    assert_eq!(signal_single_consumer_id(), "ad_0");
    assert_eq!(unique_signal_counters_name(12_345, 1_234_567), "sigctr_2345_34567");
}

fn reading(published: u64, consumed: u64) -> CounterValues {
    CounterValues {
        events_published: published,
        events_consumed: consumed,
        producer_full_events: published,
        consumer_empty_spins: 2 * consumed,
        consumer_lag_max: 4,
    }
}

#[test]
fn the_backlog_is_observed_after_the_warmup() {
    let mut observer = BacklogObserver::new(10, 100);
    assert!(!observer.observe(reading(9, 9), 1, false));
    assert!(!observer.started);
    assert!(!observer.observe(reading(10, 10), 2, false));
    assert!(!observer.observe(reading(30, 25), 3, false));
    assert!(!observer.observe(reading(60, 30), 4, false));
    assert!(observer.observe(reading(110, 110), 12, false));
    let summary = observer.summary(12);
    assert_eq!(summary.sample_count, 4);
    assert_eq!(summary.published_total, 100);
    assert_eq!(summary.consumed_total, 100);
    assert_eq!(summary.observed_duration_ns, 10);
    assert_eq!(summary.max_backlog, 30);
    assert_eq!(summary.p50_backlog, 5);
    assert_eq!(summary.p99999_backlog, 30);
}

#[test]
fn observation_ends_when_told_to() {
    let mut observer = BacklogObserver::new(0, 1_000_000);
    assert!(observer.observe(reading(5, 1), 1, true));
    assert_eq!(observer.summary(1).sample_count, 1);
}

#[test]
fn quantiles_take_the_rank_that_floating_point_gives() {
    let sorted: Vec<u64> = (1..=100).collect();
    for (num, den) in
        [(50u64, 100u64), (95, 100), (99, 100), (999, 1000), (9_999, 10_000), (99_999, 100_000)]
    {
        let p = num as f64 / den as f64;
        let rank = ((sorted.len() - 1) as f64 * p).round() as usize;
        assert_eq!(percentile(&sorted, num, den), sorted[rank]);
    }
    assert_eq!(percentile(&Vec::new(), 1, 2), 0);
    assert_eq!(percentile(&vec![7], 99, 100), 7);
}

fn some_rates() -> BacklogRates {
    let one = Metric { bits: 1f64.to_bits() };
    BacklogRates {
        observed_publish_ops_sec: one,
        observed_consume_ops_sec: one,
        avg_backlog: one,
        estimated_mean_queue_latency_ns: one,
        estimated_p50_queue_latency_ns: one,
        estimated_p95_queue_latency_ns: one,
        estimated_p99_queue_latency_ns: one,
        estimated_p999_queue_latency_ns: one,
        estimated_p9999_queue_latency_ns: one,
        estimated_p99999_queue_latency_ns: one,
        estimated_max_queue_latency_ns: one,
    }
}

#[test]
fn an_estimate_without_samples_is_empty() {
    let observer = BacklogObserver::new(10, 100);
    let estimate = SignalCountersEstimate::from_observer(
        &observer,
        ObserverSource::Counters,
        50,
        9,
        some_rates(),
    );
    assert_eq!(estimate.note, "no counters samples collected");
    assert_eq!(estimate.summary.sample_count, 0);
    assert_eq!(estimate.rates.avg_backlog.bits, 0);
    let empty = SignalCountersEstimate::empty(10, 100, 50);
    assert_eq!(format!("{estimate:?}"), format!("{empty:?}"));
    let mut started = BacklogObserver::new(0, 100);
    started.observe(reading(5, 1), 1, true);
    let estimate = SignalCountersEstimate::from_observer(
        &started,
        ObserverSource::Cursors,
        50,
        9,
        some_rates(),
    );
    assert_eq!(estimate.summary.sample_count, 1);
    assert_ne!(estimate.note, "no counters samples collected");
    assert_eq!(estimate.rates.avg_backlog.bits, 1f64.to_bits());
}

#[test]
fn a_measurement_ends_in_the_figures_of_its_mode() {
    let none = SignalMeasurement::new(SignalLatencyMode::Disabled, 4);
    assert!(none.finish(SignalLatencyMode::Disabled, &None).is_none());
    let inline = SignalLatencyMode::InlineMonoRawNs;
    assert!(SignalMeasurement::new(inline, 4).finish(inline, &None).is_none());
    let mut recorded = SignalMeasurement::new(inline, 4);
    recorded.measure(inline, 10, 25, &None);
    assert_eq!(recorded.finish(inline, &None).unwrap().max_ns, 15);
    let ticks = SignalLatencyMode::InlineRdtscOffline;
    for (tsc, expected) in [
        (None, None),
        (TscCalibration::calibrate(0, 0, 10, 20), Some(30)),
    ] {
        let mut kept = SignalMeasurement::new(ticks, 4);
        kept.measure(ticks, 10, 25, &tsc);
        assert_eq!(kept.finish(ticks, &tsc).map(|stats| stats.max_ns), expected);
    }
}

#[test]
fn an_attach_over_mapped_files_names_no_consumer() {
    assert_eq!(mmap_attach_failure("no file"), "attach failed: no file");
    assert_eq!(attach_failure("c0", "no file"), "attach failed for c0: no file");
}

#[test]
fn without_warmup_the_clock_starts_with_the_first_event() {
    let mut consumer = EventConsumer::new(CountingRule::Unwarmed, 0, 2);
    assert!(!consumer.end_poll());
    assert!(!consumer.is_finished());
    assert_eq!(consumer.take(9, 4), (Verdict::Measured, true));
    assert!(!consumer.end_poll());
    assert_eq!(consumer.take(0, 5), (Verdict::Measured, false));
    assert!(consumer.is_finished());
    assert_eq!((consumer.consumed, consumer.checksum), (2, 9));
}
