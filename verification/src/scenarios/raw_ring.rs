//! Raw ring scenarios: events straight through a ring, over shared memory or
//! memory-mapped files.
use vstd::prelude::*;
use crate::bench::{
    mmap_transport, plain_summary, plain_summary_line, rate_mode, rate_mode_name, shm_transport,
    summary_label, summary_label_of, BenchFacts, IpcBenchmark, LatencyRule,
};
use crate::decimal::{decimal, decimal_text};
use crate::event_consumer::CountingRule;
use crate::launch::{
    copied_envs, env_views, numbered_consumers, numbered_envs, push_env, push_number, ChildSpawn,
    EnvVar, LaunchFacts, LaunchPlace, LaunchPlan,
};
use crate::naming::{join_path, joined_path};
use crate::reporting::BenchTransportSpec;
use crate::signal_latency::{mode_text, SignalLatencyMode};
use crate::sizing::{aligned_slot_bytes, payload_size, raw_payload_bytes, slot_size};
use crate::summary::SummaryFigures;
use crate::text::{begins_with, has_prefix, views};

verus! {

/// What carries the ring: shared memory, memory-mapped files, or
/// memory-mapped files by way of the layer above.
#[derive(Clone, Copy, Debug, PartialEq, Eq, Structural)]
pub enum RawRingTransport {
    Shm,
    Mmap,
    MyelonMmap,
}

/// The class of a scenario's events.
#[derive(Clone, Copy, Debug, PartialEq, Eq, Structural)]
pub enum RawRingScenarioKind {
    Message,
    Signal,
}

/// How the consumers of a raw ring tell warmup events from measured ones. One
/// consumer over shared memory, and every consumer of the layer above, goes by
/// their number; several over shared memory by their sequence numbers. Over
/// memory-mapped files messages go by their number; signals by their sequence
/// numbers, throughout where latency is measured and until the first measured
/// one where it is not.
pub open spec fn counting_rule_of(
    transport: RawRingTransport,
    kind: RawRingScenarioKind,
    many: bool,
    mode: SignalLatencyMode,
) -> CountingRule {
    match (transport, kind) {
        (RawRingTransport::Shm, _) => if many {
            CountingRule::BySequence
        } else {
            CountingRule::ByNumber
        },
        (RawRingTransport::Mmap, RawRingScenarioKind::Signal) => if mode
            == SignalLatencyMode::Disabled {
            CountingRule::BySequenceAtFirst
        } else {
            CountingRule::BySequence
        },
        _ => CountingRule::ByNumber,
    }
}

/// How the consumers of a raw ring tell warmup events from measured ones.
pub fn counting_rule(
    transport: RawRingTransport,
    kind: RawRingScenarioKind,
    many: bool,
    mode: SignalLatencyMode,
) -> (r: CountingRule)
    ensures
        r == counting_rule_of(transport, kind, many, mode),
{
    match (transport, kind) {
        (RawRingTransport::Shm, _) => if many {
            CountingRule::BySequence
        } else {
            CountingRule::ByNumber
        },
        (RawRingTransport::Mmap, RawRingScenarioKind::Signal) => if mode.records_latency() {
            CountingRule::BySequence
        } else {
            CountingRule::BySequenceAtFirst
        },
        _ => CountingRule::ByNumber,
    }
}

/// The latency mode of the signals of a raw ring: only those straight through
/// memory-mapped files carry stamps.
pub fn ring_signal_mode(transport: RawRingTransport, asked: SignalLatencyMode) -> (r:
    SignalLatencyMode)
    ensures
        r == if transport == RawRingTransport::Mmap {
            asked
        } else {
            SignalLatencyMode::Disabled
        },
{
    match transport {
        RawRingTransport::Mmap => asked,
        _ => SignalLatencyMode::Disabled,
    }
}

/// What is about to run: events of which classes, and at which rate.
#[derive(Clone, Copy, Debug, PartialEq, Eq, Structural)]
pub struct RawRingSuite {
    pub transport: RawRingTransport,
    pub target_rate: u64,
    /// The size of a message, where messages are sent.
    pub message_bytes: Option<usize>,
    /// The number of signals, where signals are sent.
    pub signal_events: Option<u64>,
    /// The size of a signal.
    pub signal_bytes: usize,
}

/// What is said of messages.
pub open spec fn message_line(transport: RawRingTransport, event_bytes: nat) -> Seq<char> {
    if transport == RawRingTransport::Shm {
        "Message class: "@ + decimal_text(event_bytes) + "B event, full "@ + decimal_text(
            payload_size(event_bytes),
        ) + "B payload fill + timestamp"@
    } else {
        "Message class: request "@ + decimal_text(event_bytes) + "B, physical slot "@
            + decimal_text(slot_size(event_bytes)) + "B, full "@ + decimal_text(
            payload_size(event_bytes),
        ) + "B payload fill + timestamp"@
    }
}

/// What is said of signals.
pub open spec fn signal_line(
    transport: RawRingTransport,
    signal_bytes: nat,
    events: nat,
) -> Seq<char> {
    "Signal class:  "@ + decimal_text(signal_bytes) + "B event (16B data), "@ + decimal_text(events)
        + " events, 64K buffer"@ + if transport == RawRingTransport::Shm {
        " — vs Alvarez Rosa V5 (305M ops/s)"@
    } else {
        Seq::empty()
    }
}

impl RawRingSuite {
    /// The lines that say what is about to run.
    pub open spec fn lines(&self) -> Seq<Seq<char>> {
        let head = seq![
            match self.transport {
                RawRingTransport::Shm => "=== Raw Ring SHM Benchmark ==="@,
                RawRingTransport::Mmap => "=== Raw Ring MMAP Benchmark ==="@,
                RawRingTransport::MyelonMmap => "=== Raw Myelon MMAP Benchmark ==="@,
            },
            match self.transport {
                RawRingTransport::Shm => "Backend: POSIX shared memory"@,
                RawRingTransport::Mmap => "Backend: file-backed mmap"@,
                RawRingTransport::MyelonMmap => "Backend: file-backed mmap (via myelon re-exports)"@,
            },
            if self.target_rate > 0 {
                "Mode: co_aware"@
            } else {
                "Mode: throughput"@
            },
        ];
        let rated = if self.target_rate > 0 {
            head.push("Target rate: "@ + decimal_text(self.target_rate as nat) + " ops/s"@)
        } else {
            head
        };
        let warned = if self.target_rate > 0 && self.message_bytes is Some
            && self.signal_events is Some {
            rated.push(
                "CO mode applies only to message-class scenarios; signal scenarios are skipped."@,
            )
        } else {
            rated
        };
        let with_messages = match self.message_bytes {
            Some(bytes) => warned.push(message_line(self.transport, bytes as nat)),
            None => warned,
        };
        match self.signal_events {
            Some(events) => with_messages.push(
                signal_line(self.transport, self.signal_bytes as nat, events as nat),
            ),
            None => with_messages,
        }
    }

    /// The lines that say what is about to run.
    pub fn banner(&self) -> (r: Vec<String>)
        requires
            self.message_bytes is Some ==> self.message_bytes->0 <= usize::MAX - 63,
        ensures
            views(r@) == self.lines(),
    {
        let shm = matches!(self.transport, RawRingTransport::Shm);
        let mut lines: Vec<String> = Vec::new();
        assert(views(lines@) =~= Seq::empty());
        push_line(
            &mut lines,
            match self.transport {
                RawRingTransport::Shm => "=== Raw Ring SHM Benchmark ===",
                RawRingTransport::Mmap => "=== Raw Ring MMAP Benchmark ===",
                RawRingTransport::MyelonMmap => "=== Raw Myelon MMAP Benchmark ===",
            }.to_owned(),
        );
        push_line(
            &mut lines,
            match self.transport {
                RawRingTransport::Shm => "Backend: POSIX shared memory",
                RawRingTransport::Mmap => "Backend: file-backed mmap",
                RawRingTransport::MyelonMmap => "Backend: file-backed mmap (via myelon re-exports)",
            }.to_owned(),
        );
        push_line(
            &mut lines,
            if self.target_rate > 0 {
                "Mode: co_aware".to_owned()
            } else {
                "Mode: throughput".to_owned()
            },
        );
        if self.target_rate > 0 {
            let mut line: String = "Target rate: ".to_owned();
            line.append(decimal(self.target_rate).as_str());
            line.append(" ops/s");
            push_line(&mut lines, line);
            if self.message_bytes.is_some() && self.signal_events.is_some() {
                push_line(
                    &mut lines,
                    "CO mode applies only to message-class scenarios; signal scenarios are skipped.".to_owned(),
                );
            }
        }
        if let Some(bytes) = self.message_bytes {
            let mut line: String = if shm {
                "Message class: ".to_owned()
            } else {
                "Message class: request ".to_owned()
            };
            line.append(decimal(bytes as u64).as_str());
            if shm {
                line.append("B event, full ");
            } else {
                line.append("B, physical slot ");
                line.append(decimal(aligned_slot_bytes(bytes) as u64).as_str());
                line.append("B, full ");
            }
            line.append(decimal(raw_payload_bytes(bytes) as u64).as_str());
            line.append("B payload fill + timestamp");
            push_line(&mut lines, line);
        }
        if let Some(events) = self.signal_events {
            let mut line: String = "Signal class:  ".to_owned();
            line.append(decimal(self.signal_bytes as u64).as_str());
            line.append("B event (16B data), ");
            line.append(decimal(events).as_str());
            line.append(" events, 64K buffer");
            let mut suffix = String::new();
            if shm {
                suffix = " — vs Alvarez Rosa V5 (305M ops/s)".to_owned();
            }
            assert(!shm ==> suffix@ =~= Seq::empty());
            line.append(suffix.as_str());
            push_line(&mut lines, line);
        }
        lines
    }
}

/// Adds a line.
fn push_line(lines: &mut Vec<String>, line: String)
    ensures
        views(final(lines)@) == views(old(lines)@).push(line@),
{
    let ghost before = views(lines@);
    lines.push(line);
    assert(views(lines@) =~= before.push(line@));
}

/// What a raw ring scenario is made from.
#[derive(Clone, Debug)]
pub struct RawRingScenarioSpec {
    pub label: String,
    pub kind: RawRingScenarioKind,
    pub producer_role: String,
    pub consumer_role: String,
    pub event_bytes: usize,
    pub events: u64,
    pub buffer: usize,
    pub warmup: u64,
    pub consumers: usize,
    pub record_latency: bool,
    pub target_rate: u64,
}

/// A raw ring scenario.
#[derive(Clone, Debug)]
pub struct RawRingScenario {
    pub transport: RawRingTransport,
    pub label: String,
    pub producer_role: String,
    pub consumer_role: String,
    pub event_bytes: usize,
    pub events: u64,
    pub buffer: usize,
    pub warmup: u64,
    pub consumers: usize,
    pub record_latency: bool,
    pub target_rate: u64,
}

/// The roles of the layer above for a class of events and one or several
/// consumers.
pub open spec fn myelon_roles(kind: RawRingScenarioKind, many: bool) -> (Seq<char>, Seq<char>) {
    match (kind, many) {
        (RawRingScenarioKind::Message, true) => (
            "my_mmap_multi_msg_producer"@,
            "my_mmap_multi_msg_consumer"@,
        ),
        (RawRingScenarioKind::Message, false) => ("my_mmap_msg_producer"@, "my_mmap_msg_consumer"@),
        (RawRingScenarioKind::Signal, true) => (
            "my_mmap_multi_sig_producer"@,
            "my_mmap_multi_sig_consumer"@,
        ),
        (RawRingScenarioKind::Signal, false) => ("my_mmap_sig_producer"@, "my_mmap_sig_consumer"@),
    }
}

impl RawRingScenario {
    /// The scenario that a specification asks for. The layer above has roles
    /// of its own.
    pub fn from_spec(transport: RawRingTransport, spec: &RawRingScenarioSpec) -> (r: RawRingScenario)
        ensures
            r.transport == transport,
            r.label == spec.label,
            transport == RawRingTransport::MyelonMmap ==> r.producer_role@ == myelon_roles(
                spec.kind,
                spec.consumers > 1,
            ).0 && r.consumer_role@ == myelon_roles(spec.kind, spec.consumers > 1).1,
            transport != RawRingTransport::MyelonMmap ==> r.producer_role == spec.producer_role
                && r.consumer_role == spec.consumer_role,
            r.event_bytes == spec.event_bytes,
            r.events == spec.events,
            r.buffer == spec.buffer,
            r.warmup == spec.warmup,
            r.consumers == spec.consumers,
            r.record_latency == spec.record_latency,
            r.target_rate == spec.target_rate,
    {
        let (producer_role, consumer_role): (String, String) = match transport {
            RawRingTransport::MyelonMmap => match (spec.kind, spec.consumers > 1) {
                (RawRingScenarioKind::Message, true) => (
                    "my_mmap_multi_msg_producer".to_owned(),
                    "my_mmap_multi_msg_consumer".to_owned(),
                ),
                (RawRingScenarioKind::Message, false) => (
                    "my_mmap_msg_producer".to_owned(),
                    "my_mmap_msg_consumer".to_owned(),
                ),
                (RawRingScenarioKind::Signal, true) => (
                    "my_mmap_multi_sig_producer".to_owned(),
                    "my_mmap_multi_sig_consumer".to_owned(),
                ),
                (RawRingScenarioKind::Signal, false) => (
                    "my_mmap_sig_producer".to_owned(),
                    "my_mmap_sig_consumer".to_owned(),
                ),
            },
            _ => (spec.producer_role.clone(), spec.consumer_role.clone()),
        };
        RawRingScenario {
            transport,
            label: spec.label.clone(),
            producer_role,
            consumer_role,
            event_bytes: spec.event_bytes,
            events: spec.events,
            buffer: spec.buffer,
            warmup: spec.warmup,
            consumers: spec.consumers,
            record_latency: spec.record_latency,
            target_rate: spec.target_rate,
        }
    }

    /// What the names of the scenario's places begin with.
    pub open spec fn place_prefix(&self) -> Seq<char> {
        match self.transport {
            RawRingTransport::Shm => if self.consumers > 1 {
                "raw_ring_multi"@
            } else {
                "raw_ring"@
            },
            RawRingTransport::Mmap => if self.consumers > 1 {
                "multi"@ + decimal_text(self.consumers as nat) + "c"@
            } else {
                self.label@
            },
            RawRingTransport::MyelonMmap => if self.consumers > 1 {
                "myelon_multi"@ + decimal_text(self.consumers as nat) + "c"@
            } else {
                self.label@
            },
        }
    }

    /// Consumers are asked to record latency.
    pub open spec fn asks_for_latency(&self) -> bool {
        self.record_latency || self.target_rate > 0
    }

    /// The environment of a child over shared memory.
    pub open spec fn shm_envs(&self, segment: Seq<char>) -> Seq<(Seq<char>, Seq<char>)> {
        let base = seq![
            ("BENCHMARK_SEGMENT_NAME"@, segment),
            ("BENCH_NUM_CONSUMERS"@, decimal_text(self.consumers as nat)),
            ("BENCH_BUFFER"@, decimal_text(self.buffer as nat)),
            ("BENCH_EVENTS"@, decimal_text(self.events as nat)),
            ("BENCH_WARMUP"@, decimal_text(self.warmup as nat)),
            ("BENCH_EVENT_SIZE"@, decimal_text(self.event_bytes as nat)),
        ];
        if self.target_rate > 0 {
            base.push(("BENCH_TARGET_RATE"@, decimal_text(self.target_rate as nat)))
        } else {
            base
        }
    }

    /// The environment of a child over memory-mapped files.
    pub open spec fn mmap_envs(&self, place: LaunchPlace) -> Seq<(Seq<char>, Seq<char>)> {
        let base = seq![
            ("MMAP_ROOT"@, place.root@),
            ("MMAP_SEGMENT"@, place.segment@),
            ("MMAP_BUFFER_SIZE"@, decimal_text(self.buffer as nat)),
            ("MMAP_EVENTS"@, decimal_text(self.events as nat)),
            ("MMAP_NUM_CONSUMERS"@, decimal_text(self.consumers as nat)),
            ("MMAP_EVENT_SIZE"@, decimal_text(self.event_bytes as nat)),
            ("MMAP_WARMUP"@, decimal_text(self.warmup as nat)),
        ];
        let stamped = if self.transport == RawRingTransport::Mmap {
            let sided = if has_prefix(self.label@, "signal_"@)
                && place.signal_mode.spec_uses_sidecar() {
                base.push(
                    (
                        "PERF_BENCH_SIGNAL_SIDECAR_MMAP_PATH"@,
                        joined_path(place.root@, place.segment@ + ".signal_timestamps"@),
                    ),
                )
            } else {
                base
            };
            sided.push(("PERF_BENCH_SIGNAL_LATENCY_MODE"@, mode_text(place.signal_mode))).push(
                ("PERF_BENCH_SIGNAL_SAMPLE_EVERY"@, decimal_text(place.sample_every as nat)),
            )
        } else {
            base
        };
        if self.target_rate > 0 {
            stamped.push(("MMAP_TARGET_RATE"@, decimal_text(self.target_rate as nat)))
        } else {
            stamped
        }
    }

    /// The environment of a child over shared memory.
    fn shm_env_list(&self, segment: &str) -> (r: Vec<EnvVar>)
        ensures
            env_views(r@) == self.shm_envs(segment@),
    {
        let mut envs: Vec<EnvVar> = Vec::new();
        assert(env_views(envs@) =~= Seq::empty());
        push_env(&mut envs, "BENCHMARK_SEGMENT_NAME", segment.to_owned());
        push_number(&mut envs, "BENCH_NUM_CONSUMERS", self.consumers as u64);
        push_number(&mut envs, "BENCH_BUFFER", self.buffer as u64);
        push_number(&mut envs, "BENCH_EVENTS", self.events);
        push_number(&mut envs, "BENCH_WARMUP", self.warmup);
        push_number(&mut envs, "BENCH_EVENT_SIZE", self.event_bytes as u64);
        if self.target_rate > 0 {
            push_number(&mut envs, "BENCH_TARGET_RATE", self.target_rate);
        }
        envs
    }

    /// The environment of a child over memory-mapped files.
    fn mmap_env_list(&self, place: &LaunchPlace) -> (r: Vec<EnvVar>)
        ensures
            env_views(r@) == self.mmap_envs(*place),
    {
        let mut envs: Vec<EnvVar> = Vec::new();
        assert(env_views(envs@) =~= Seq::empty());
        push_env(&mut envs, "MMAP_ROOT", place.root.clone());
        push_env(&mut envs, "MMAP_SEGMENT", place.segment.clone());
        push_number(&mut envs, "MMAP_BUFFER_SIZE", self.buffer as u64);
        push_number(&mut envs, "MMAP_EVENTS", self.events);
        push_number(&mut envs, "MMAP_NUM_CONSUMERS", self.consumers as u64);
        push_number(&mut envs, "MMAP_EVENT_SIZE", self.event_bytes as u64);
        push_number(&mut envs, "MMAP_WARMUP", self.warmup);
        if matches!(self.transport, RawRingTransport::Mmap) {
            if begins_with(self.label.as_str(), "signal_") && place.signal_mode.uses_sidecar() {
                let mut name = place.segment.clone();
                name.append(".signal_timestamps");
                push_env(
                    &mut envs,
                    "PERF_BENCH_SIGNAL_SIDECAR_MMAP_PATH",
                    join_path(place.root.as_str(), name.as_str()),
                );
            }
            push_env(
                &mut envs,
                "PERF_BENCH_SIGNAL_LATENCY_MODE",
                place.signal_mode.as_str().to_owned(),
            );
            push_number(&mut envs, "PERF_BENCH_SIGNAL_SAMPLE_EVERY", place.sample_every);
        }
        if self.target_rate > 0 {
            push_number(&mut envs, "MMAP_TARGET_RATE", self.target_rate);
        }
        envs
    }
}

impl IpcBenchmark for RawRingScenario {
    open spec fn facts(&self) -> BenchFacts {
        BenchFacts {
            bench_name: match self.transport {
                RawRingTransport::Shm => "raw_ring_shm"@,
                RawRingTransport::Mmap => "raw_ring_mmap"@,
                RawRingTransport::MyelonMmap => "raw_myelon_mmap"@,
            },
            scenario_name: self.label@,
            label: self.label@,
            backend: if self.transport == RawRingTransport::Shm {
                "shm"@
            } else {
                "mmap"@
            },
            layer: if self.transport == RawRingTransport::MyelonMmap {
                "raw_myelon"@
            } else {
                "raw_ring"@
            },
            transport: if self.transport == RawRingTransport::Shm {
                shm_transport(self.consumers as nat, false, "none"@)
            } else {
                mmap_transport(false, "none"@)
            },
            codec: None,
            measurement_mode: rate_mode(self.target_rate as nat),
            wait_strategy: "BusySpin"@,
            message_size_bytes: if self.transport == RawRingTransport::Shm {
                self.event_bytes as nat
            } else {
                slot_size(self.event_bytes as nat)
            },
            payload_bytes: if self.transport == RawRingTransport::Shm {
                self.event_bytes as nat
            } else {
                payload_size(self.event_bytes as nat)
            },
            buffer_depth: self.buffer as nat,
            num_messages: self.events as nat,
            warmup_messages: self.warmup as nat,
            num_consumers: self.consumers as nat,
            timeout_secs: if self.consumers > 1 {
                180
            } else {
                120
            },
            throughput_unit: "ops/s"@,
            summary_label: summary_label_of(self.consumers as nat),
            latency_rule: LatencyRule::WorstP99,
            segment_prefix: self.place_prefix(),
            root_prefix: if self.transport == RawRingTransport::Shm {
                None
            } else {
                Some(self.place_prefix())
            },
        }
    }

    open spec fn launch_facts(&self, place: LaunchPlace) -> LaunchFacts {
        let shm = self.transport == RawRingTransport::Shm;
        let envs = if shm {
            self.shm_envs(place.segment@)
        } else {
            self.mmap_envs(place)
        };
        let asked = if self.asks_for_latency() {
            envs.push(
                (
                    if shm {
                        "BENCH_RECORD_LATENCY"@
                    } else {
                        "MMAP_RECORD_LATENCY"@
                    },
                    "1"@,
                ),
            )
        } else {
            envs
        };
        LaunchFacts {
            producer_role: self.producer_role@,
            producer_envs: envs,
            consumer_role: self.consumer_role@,
            consumer_envs: numbered_envs(
                asked,
                if shm {
                    "BENCH_CONSUMER_ID"@
                } else {
                    "MMAP_CONSUMER_ID"@
                },
                Seq::empty(),
                self.consumers as nat,
            ),
            cleanup_path: if shm {
                None
            } else {
                Some(place.root@)
            },
        }
    }

    open spec fn summary(&self, figures: SummaryFigures) -> Option<Seq<char>> {
        Some(plain_summary(self.facts(), figures))
    }

    open spec fn runnable(&self) -> bool {
        self.transport != RawRingTransport::Shm ==> self.event_bytes <= usize::MAX - 63
    }

    fn bench_name(&self) -> (r: &str) {
        match self.transport {
            RawRingTransport::Shm => "raw_ring_shm",
            RawRingTransport::Mmap => "raw_ring_mmap",
            RawRingTransport::MyelonMmap => "raw_myelon_mmap",
        }
    }

    fn scenario_name(&self) -> (r: String) {
        self.label.clone()
    }

    fn label(&self) -> (r: String) {
        self.label.clone()
    }

    fn backend(&self) -> (r: &str) {
        if matches!(self.transport, RawRingTransport::Shm) {
            "shm"
        } else {
            "mmap"
        }
    }

    fn layer(&self) -> (r: &str) {
        if matches!(self.transport, RawRingTransport::MyelonMmap) {
            "raw_myelon"
        } else {
            "raw_ring"
        }
    }

    fn transport_metadata(&self) -> (r: BenchTransportSpec) {
        let base = if matches!(self.transport, RawRingTransport::Shm) {
            BenchTransportSpec::benchmark_shm(self.consumers)
        } else {
            BenchTransportSpec::mmap_builtin()
        };
        base.with_zero_copy(false).with_framing("none")
    }

    fn codec(&self) -> (r: Option<&str>) {
        None
    }

    fn measurement_mode(&self) -> (r: String) {
        rate_mode_name(self.target_rate)
    }

    fn wait_strategy(&self) -> (r: &str) {
        "BusySpin"
    }

    fn message_size_bytes(&self) -> (r: usize) {
        if matches!(self.transport, RawRingTransport::Shm) {
            self.event_bytes
        } else {
            aligned_slot_bytes(self.event_bytes)
        }
    }

    fn payload_bytes(&self) -> (r: usize) {
        if matches!(self.transport, RawRingTransport::Shm) {
            self.event_bytes
        } else {
            raw_payload_bytes(self.event_bytes)
        }
    }

    fn buffer_depth(&self) -> (r: usize) {
        self.buffer
    }

    fn num_messages(&self) -> (r: u64) {
        self.events
    }

    fn warmup_messages(&self) -> (r: u64) {
        self.warmup
    }

    fn num_consumers(&self) -> (r: usize) {
        self.consumers
    }

    fn timeout(&self) -> (r: u64) {
        if self.consumers > 1 {
            180
        } else {
            120
        }
    }

    fn throughput_unit(&self) -> (r: &str) {
        "ops/s"
    }

    fn consumer_summary_label(&self) -> (r: &str) {
        summary_label(self.consumers)
    }

    fn latency_rule(&self) -> (r: LatencyRule) {
        LatencyRule::WorstP99
    }

    fn segment_prefix(&self) -> (r: String) {
        match self.transport {
            RawRingTransport::Shm => if self.consumers > 1 {
                "raw_ring_multi".to_owned()
            } else {
                "raw_ring".to_owned()
            },
            RawRingTransport::Mmap => if self.consumers > 1 {
                let mut out: String = "multi".to_owned();
                out.append(decimal(self.consumers as u64).as_str());
                out.append("c");
                out
            } else {
                self.label.clone()
            },
            RawRingTransport::MyelonMmap => if self.consumers > 1 {
                let mut out: String = "myelon_multi".to_owned();
                out.append(decimal(self.consumers as u64).as_str());
                out.append("c");
                out
            } else {
                self.label.clone()
            },
        }
    }

    fn root_prefix(&self) -> (r: Option<String>) {
        if matches!(self.transport, RawRingTransport::Shm) {
            None
        } else {
            Some(self.segment_prefix())
        }
    }

    fn summary_line(&self, figures: &SummaryFigures) -> (r: Option<String>) {
        let name = self.scenario_name();
        Some(
            plain_summary_line(
                name.as_str(),
                self.throughput_unit(),
                self.consumer_summary_label(),
                figures,
            ),
        )
    }

    fn launch(&self, place: &LaunchPlace) -> (r: LaunchPlan) {
        let shm = matches!(self.transport, RawRingTransport::Shm);
        let envs = if shm {
            self.shm_env_list(place.segment.as_str())
        } else {
            self.mmap_env_list(place)
        };
        let mut asked = copied_envs(&envs);
        if self.record_latency || self.target_rate > 0 {
            let key = if shm {
                "BENCH_RECORD_LATENCY"
            } else {
                "MMAP_RECORD_LATENCY"
            };
            push_env(&mut asked, key, "1".to_owned());
        }
        let id_key = if shm {
            "BENCH_CONSUMER_ID"
        } else {
            "MMAP_CONSUMER_ID"
        };
        let tail: Vec<EnvVar> = Vec::new();
        assert(env_views(tail@) =~= Seq::empty());
        let consumers = numbered_consumers(
            self.consumer_role.as_str(),
            &asked,
            id_key,
            &tail,
            self.consumers,
        );
        LaunchPlan {
            producer: ChildSpawn { role: self.producer_role.clone(), envs },
            consumers,
            cleanup_path: if shm {
                None
            } else {
                Some(place.root.clone())
            },
        }
    }
}

/// Several consumers over shared memory, and signals straight through
/// memory-mapped files, are counted by sequence number; everything else by
/// number. Without latency, such signals go by sequence number only at first.
pub proof fn law_counting_follows_the_transport(
    kind: RawRingScenarioKind,
    many: bool,
    mode: SignalLatencyMode,
)
    ensures
        counting_rule_of(RawRingTransport::Shm, kind, true, mode) == CountingRule::BySequence,
        counting_rule_of(RawRingTransport::Shm, kind, false, mode) == CountingRule::ByNumber,
        counting_rule_of(RawRingTransport::MyelonMmap, kind, many, mode)
            == CountingRule::ByNumber,
        counting_rule_of(RawRingTransport::Mmap, RawRingScenarioKind::Message, many, mode)
            == CountingRule::ByNumber,
        mode != SignalLatencyMode::Disabled ==> counting_rule_of(
            RawRingTransport::Mmap,
            RawRingScenarioKind::Signal,
            many,
            mode,
        ) == CountingRule::BySequence,
        counting_rule_of(
            RawRingTransport::Mmap,
            RawRingScenarioKind::Signal,
            many,
            SignalLatencyMode::Disabled,
        ) == CountingRule::BySequenceAtFirst,
{
}

/// A raw ring scenario says of itself what it is made of. Over shared memory its
/// event is its message and its payload; over memory-mapped files its message is
/// the event's slot, and its payload the event without its two numbers.
pub proof fn law_raw_scenario_says_what_it_is(s: RawRingScenario)
    ensures
        s.facts().scenario_name == s.label@,
        s.transport == RawRingTransport::Shm ==> s.facts().bench_name == "raw_ring_shm"@
            && s.facts().backend == "shm"@ && s.facts().layer == "raw_ring"@,
        s.transport == RawRingTransport::Mmap ==> s.facts().bench_name == "raw_ring_mmap"@
            && s.facts().backend == "mmap"@ && s.facts().layer == "raw_ring"@,
        s.transport == RawRingTransport::MyelonMmap ==> s.facts().bench_name
            == "raw_myelon_mmap"@ && s.facts().backend == "mmap"@ && s.facts().layer
            == "raw_myelon"@,
        s.transport == RawRingTransport::Shm ==> s.facts().message_size_bytes == s.event_bytes
            && s.facts().payload_bytes == s.event_bytes,
        s.transport != RawRingTransport::Shm ==> s.event_bytes <= s.facts().message_size_bytes
            < s.event_bytes + 64 && s.facts().message_size_bytes % 64 == 0,
        s.transport != RawRingTransport::Shm && s.event_bytes >= 16 ==> s.facts().payload_bytes + 16
            == s.event_bytes,
        s.facts().codec is None,
        s.facts().transport.zero_copy == Some(false),
        s.facts().transport.framing == Some("none"@),
        s.target_rate == 0 ==> s.facts().measurement_mode == "max_throughput"@,
        s.target_rate > 0 ==> s.facts().measurement_mode == "co_aware@"@ + decimal_text(
            s.target_rate as nat,
        ),
        s.facts().wait_strategy == "BusySpin"@,
        s.facts().buffer_depth == s.buffer,
        s.facts().num_messages == s.events,
        s.facts().warmup_messages == s.warmup,
        s.facts().num_consumers == s.consumers,
        s.consumers > 1 ==> s.facts().timeout_secs == 180,
        s.consumers <= 1 ==> s.facts().timeout_secs == 120,
        s.facts().latency_rule == LatencyRule::WorstP99,
{
}

/// The consumers alone are asked for latency, and exactly where it is to be
/// recorded or a rate is set: their variables are the producer's, with that
/// request, and a number for each.
pub proof fn law_latency_is_asked_of_consumers(s: RawRingScenario, place: LaunchPlace, i: int)
    requires
        0 <= i < s.consumers,
    ensures
        s.launch_facts(place).consumer_envs.len() == s.consumers,
        !s.record_latency && s.target_rate == 0 ==> s.launch_facts(place).consumer_envs[i].len()
            == s.launch_facts(place).producer_envs.len() + 1,
        s.record_latency || s.target_rate > 0 ==> s.launch_facts(place).consumer_envs[i].len()
            == s.launch_facts(place).producer_envs.len() + 2,
        (s.record_latency || s.target_rate > 0) && s.transport == RawRingTransport::Shm
            ==> s.launch_facts(place).consumer_envs[i][s.launch_facts(
            place,
        ).producer_envs.len() as int] == ("BENCH_RECORD_LATENCY"@, "1"@),
        (s.record_latency || s.target_rate > 0) && s.transport != RawRingTransport::Shm
            ==> s.launch_facts(place).consumer_envs[i][s.launch_facts(
            place,
        ).producer_envs.len() as int] == ("MMAP_RECORD_LATENCY"@, "1"@),
        s.transport == RawRingTransport::Shm ==> s.launch_facts(place).consumer_envs[i].last() == (
            "BENCH_CONSUMER_ID"@,
            decimal_text(i as nat),
        ) && s.launch_facts(place).cleanup_path is None,
        s.transport != RawRingTransport::Shm ==> s.launch_facts(place).consumer_envs[i].last() == (
            "MMAP_CONSUMER_ID"@,
            decimal_text(i as nat),
        ) && s.launch_facts(place).cleanup_path == Some(place.root@),
        forall|j: int|
            0 <= j < s.launch_facts(place).producer_envs.len() ==> #[trigger] s.launch_facts(
                place,
            ).consumer_envs[i][j] == s.launch_facts(place).producer_envs[j],
{
}

} // verus!
