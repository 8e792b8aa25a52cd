//! Wait strategy scenarios: how consumers wait, and what it costs.
use vstd::prelude::*;
use crate::bench::{
    mmap_transport, shm_transport, summary_label, summary_label_of, BenchFacts, IpcBenchmark,
    LatencyRule,
};
use crate::decimal::{decimal, decimal_text, parse_u64, parsed_number};
use crate::launch::{
    env_views, group_facts, numbered_consumers, push_env, push_number, ChildSpawn, EnvVar,
    LaunchFacts, LaunchPlace, LaunchPlan,
};
use crate::reporting::BenchTransportSpec;
use crate::scenarios::selection::SweepBackend;
use crate::summary::SummaryFigures;
use crate::text::{
    begins_with, contains_text, has_prefix, lemma_labelled, lemma_whole_prefix, option_str_view,
    pad_left, pad_right, padded_left, padded_right, same_text,
};

verus! {

/// Slots of a ring.
pub const WAIT_BUFFER_SIZE: usize = 65536;

/// Events of a run.
pub const WAIT_NUM_EVENTS: u64 = 100_000;

/// Bytes of an event.
pub const WAIT_ELEMENT_SIZE: usize = 128;

/// The number of events: what its variable states, where that is positive;
/// the usual number otherwise.
pub fn wait_num_events(value: Option<&str>) -> (r: u64)
    ensures
        match option_str_view(value) {
            Some(text) => match parsed_number(text, u64::MAX as nat) {
                Some(n) => r == if n > 0 {
                    n
                } else {
                    WAIT_NUM_EVENTS as nat
                },
                None => r == WAIT_NUM_EVENTS,
            },
            None => r == WAIT_NUM_EVENTS,
        },
{
    match value {
        Some(text) => match parse_u64(text) {
            Some(n) => if n > 0 {
                n
            } else {
                WAIT_NUM_EVENTS
            },
            None => WAIT_NUM_EVENTS,
        },
        None => WAIT_NUM_EVENTS,
    }
}

/// What a consumer does while there is nothing to consume.
#[derive(Clone, Copy, Debug, PartialEq, Eq, Structural)]
pub enum IdleAction {
    Nothing,
    SpinHint,
    SleepMicros(u64),
    SleepMillis(u64),
    ConsumeSleep,
    BlockWait,
}

/// What a consumer of the given transport and wait strategy does while there
/// is nothing to consume.
pub open spec fn idle_action_of(backend: SweepBackend, strategy: Seq<char>) -> IdleAction {
    match backend {
        SweepBackend::Mmap => if strategy == "BusySpin"@ || strategy
            == "BusySpinWithSpinLoopHint"@ {
            IdleAction::SpinHint
        } else if strategy == "Sleep"@ {
            IdleAction::SleepMicros(1)
        } else {
            IdleAction::SleepMillis(1)
        },
        SweepBackend::Shm => if strategy == "BusySpin"@ {
            IdleAction::Nothing
        } else if strategy == "BusySpinWithSpinLoopHint"@ {
            IdleAction::SpinHint
        } else if strategy == "Sleep"@ {
            IdleAction::ConsumeSleep
        } else if strategy == "Block"@ {
            IdleAction::BlockWait
        } else {
            IdleAction::SpinHint
        },
    }
}

/// What a consumer does while there is nothing to consume.
pub fn apply_wait_strategy(backend: SweepBackend, strategy: &str) -> (r: IdleAction)
    ensures
        r == idle_action_of(backend, strategy@),
{
    match backend {
        SweepBackend::Mmap => if same_text(strategy, "BusySpin") || same_text(
            strategy,
            "BusySpinWithSpinLoopHint",
        ) {
            IdleAction::SpinHint
        } else if same_text(strategy, "Sleep") {
            IdleAction::SleepMicros(1)
        } else {
            IdleAction::SleepMillis(1)
        },
        SweepBackend::Shm => if same_text(strategy, "BusySpin") {
            IdleAction::Nothing
        } else if same_text(strategy, "BusySpinWithSpinLoopHint") {
            IdleAction::SpinHint
        } else if same_text(strategy, "Sleep") {
            IdleAction::ConsumeSleep
        } else if same_text(strategy, "Block") {
            IdleAction::BlockWait
        } else {
            IdleAction::SpinHint
        },
    }
}

/// How a producer over memory-mapped files waits for its events to be
/// consumed.
#[derive(Clone, Copy, Debug, PartialEq, Eq, Structural)]
pub enum DrainStrategy {
    BusySpin,
    BusySpinWithSpinLoopHint,
    SleepMicros(u64),
    Block,
}

/// How a producer waits for its events to be consumed; a name that is not
/// known means blocking.
pub fn drain_strategy(strategy: &str) -> (r: DrainStrategy)
    ensures
        r == if strategy@ == "BusySpin"@ {
            DrainStrategy::BusySpin
        } else if strategy@ == "BusySpinWithSpinLoopHint"@ {
            DrainStrategy::BusySpinWithSpinLoopHint
        } else if strategy@ == "Sleep"@ {
            DrainStrategy::SleepMicros(1)
        } else {
            DrainStrategy::Block
        },
{
    if same_text(strategy, "BusySpin") {
        DrainStrategy::BusySpin
    } else if same_text(strategy, "BusySpinWithSpinLoopHint") {
        DrainStrategy::BusySpinWithSpinLoopHint
    } else if same_text(strategy, "Sleep") {
        DrainStrategy::SleepMicros(1)
    } else {
        DrainStrategy::Block
    }
}

/// How many times a producer over shared memory looks for its consumers.
pub fn wait_discovery_scans(num_consumers: usize) -> (r: usize)
    requires
        20 + num_consumers * 5 <= usize::MAX,
    ensures
        r == 20 + num_consumers * 5,
{
    20 + num_consumers * 5
}

/// An argument that can name a mode: no flag, and, over memory-mapped files,
/// not the benchmark's own name.
pub open spec fn can_name_mode(backend: SweepBackend, argument: Seq<char>) -> bool {
    !has_prefix(argument, "--"@) && (backend == SweepBackend::Mmap ==> argument
        != "wait_strategy_mmap"@)
}

/// `mode` is named by the variable, or else by the first argument that can
/// name it, or else it is quick.
pub open spec fn is_wait_mode(
    backend: SweepBackend,
    value: Option<Seq<char>>,
    args: Seq<String>,
    mode: Seq<char>,
) -> bool {
    match value {
        Some(text) => mode == text,
        None => {
            ||| exists|i: int|
                {
                    &&& 1 <= i < args.len()
                    &&& can_name_mode(backend, #[trigger] args[i]@)
                    &&& args[i]@ == mode
                    &&& forall|j: int| 1 <= j < i ==> !can_name_mode(backend, #[trigger] args[j]@)
                }
            ||| {
                &&& forall|j: int|
                    1 <= j < args.len() ==> !can_name_mode(backend, #[trigger] args[j]@)
                &&& mode == "quick"@
            }
        },
    }
}

/// The mode of a run.
pub fn wait_mode(backend: SweepBackend, value: Option<&str>, args: &[String]) -> (r: String)
    ensures
        is_wait_mode(backend, option_str_view(value), args@, r@),
{
    if let Some(text) = value {
        return text.to_owned();
    }
    let mut i: usize = 1;
    while i < args.len()
        invariant
            value is None,
            1 <= i,
            forall|j: int| 1 <= j < i && j < args@.len() ==> !can_name_mode(backend, #[trigger] args@[j]@),
        decreases args@.len() - i,
    {
        let own_name = matches!(backend, SweepBackend::Mmap) && same_text(
            args[i].as_str(),
            "wait_strategy_mmap",
        );
        if !begins_with(args[i].as_str(), "--") && !own_name {
            assert(can_name_mode(backend, args@[i as int]@));
            return args[i].clone();
        }
        i = i + 1;
    }
    "quick".to_owned()
}

/// A wait strategy scenario.
#[derive(Clone, Debug)]
pub struct WaitStrategyScenario {
    pub backend: SweepBackend,
    pub consumers: usize,
    pub wait_strategy: String,
    pub producer_role: String,
    pub consumer_role: String,
    pub throughput_unit: String,
    pub num_events: u64,
}

impl WaitStrategyScenario {
    /// The variables that all children share, but for the segment.
    pub open spec fn settings(&self) -> Seq<(Seq<char>, Seq<char>)> {
        seq![
            ("NUM_CONSUMERS"@, decimal_text(self.consumers as nat)),
            ("WAIT_STRATEGY"@, self.wait_strategy@),
        ]
    }
}

impl IpcBenchmark for WaitStrategyScenario {
    open spec fn facts(&self) -> BenchFacts {
        BenchFacts {
            bench_name: match self.backend {
                SweepBackend::Shm => "wait_strategy_shm"@,
                SweepBackend::Mmap => "wait_strategy_mmap"@,
            },
            scenario_name: "1p"@ + decimal_text(self.consumers as nat) + "c_"@ + self.wait_strategy@,
            label: "1p"@ + decimal_text(self.consumers as nat) + "c_"@ + self.wait_strategy@,
            backend: match self.backend {
                SweepBackend::Shm => "shm"@,
                SweepBackend::Mmap => "mmap"@,
            },
            layer: "wait_strategy"@,
            transport: match self.backend {
                SweepBackend::Shm => shm_transport(self.consumers as nat, false, "none"@),
                SweepBackend::Mmap => mmap_transport(false, "none"@),
            },
            codec: None,
            measurement_mode: "max_throughput"@,
            wait_strategy: self.wait_strategy@,
            message_size_bytes: WAIT_ELEMENT_SIZE as nat,
            payload_bytes: WAIT_ELEMENT_SIZE as nat,
            buffer_depth: WAIT_BUFFER_SIZE as nat,
            num_messages: match self.backend {
                SweepBackend::Shm => self.num_events as nat,
                SweepBackend::Mmap => WAIT_NUM_EVENTS as nat,
            },
            warmup_messages: 0,
            num_consumers: self.consumers as nat,
            timeout_secs: 180,
            throughput_unit: match self.backend {
                SweepBackend::Shm => "ops/s"@,
                SweepBackend::Mmap => self.throughput_unit@,
            },
            summary_label: summary_label_of(self.consumers as nat),
            latency_rule: LatencyRule::Last,
            segment_prefix: match self.backend {
                SweepBackend::Shm => "ws_"@ + self.wait_strategy@ + "_"@ + decimal_text(
                    self.consumers as nat,
                ) + "c"@,
                SweepBackend::Mmap => "wait"@,
            },
            root_prefix: match self.backend {
                SweepBackend::Shm => None,
                SweepBackend::Mmap => Some("wait_mmap"@),
            },
        }
    }

    open spec fn launch_facts(&self, place: LaunchPlace) -> LaunchFacts {
        let located = match self.backend {
            SweepBackend::Shm => seq![("BENCHMARK_SEGMENT_NAME"@, place.segment@)],
            SweepBackend::Mmap => seq![
                ("MMAP_ROOT"@, place.root@),
                ("MMAP_SEGMENT"@, place.segment@),
            ],
        };
        group_facts(
            self.producer_role@,
            self.consumer_role@,
            self.consumers as nat,
            "CONSUMER_ID"@,
            located + self.settings(),
            match self.backend {
                SweepBackend::Shm => None,
                SweepBackend::Mmap => Some(place.root@),
            },
        )
    }

    open spec fn summary(&self, figures: SummaryFigures) -> Option<Seq<char>> {
        Some(
            "  "@
                + padded_right("1p"@ + decimal_text(self.consumers as nat) + "c"@, 6)
                + " "@
                + padded_right(self.wait_strategy@, 24)
                + " producer: "@
                + padded_left(figures.producer_ops@, 10)
                + " "@
                + self.throughput_unit@
                + "  avg consumer: "@
                + padded_left(figures.consumer_ops@, 10)
                + " "@
                + self.throughput_unit@,
        )
    }

    open spec fn runnable(&self) -> bool {
        true
    }

    fn bench_name(&self) -> (r: &str) {
        match self.backend {
            SweepBackend::Shm => "wait_strategy_shm",
            SweepBackend::Mmap => "wait_strategy_mmap",
        }
    }

    fn scenario_name(&self) -> (r: String) {
        let mut out: String = "1p".to_owned();
        out.append(decimal(self.consumers as u64).as_str());
        out.append("c_");
        out.append(self.wait_strategy.as_str());
        out
    }

    fn label(&self) -> (r: String) {
        let mut out: String = "1p".to_owned();
        out.append(decimal(self.consumers as u64).as_str());
        out.append("c_");
        out.append(self.wait_strategy.as_str());
        out
    }

    fn backend(&self) -> (r: &str) {
        self.backend.slug()
    }

    fn layer(&self) -> (r: &str) {
        "wait_strategy"
    }

    fn transport_metadata(&self) -> (r: BenchTransportSpec) {
        let base = match self.backend {
            SweepBackend::Shm => BenchTransportSpec::benchmark_shm(self.consumers),
            SweepBackend::Mmap => BenchTransportSpec::mmap_builtin(),
        };
        base.with_zero_copy(false).with_framing("none")
    }

    fn codec(&self) -> (r: Option<&str>) {
        None
    }

    fn measurement_mode(&self) -> (r: String) {
        "max_throughput".to_owned()
    }

    fn wait_strategy(&self) -> (r: &str) {
        self.wait_strategy.as_str()
    }

    fn message_size_bytes(&self) -> (r: usize) {
        WAIT_ELEMENT_SIZE
    }

    fn payload_bytes(&self) -> (r: usize) {
        WAIT_ELEMENT_SIZE
    }

    fn buffer_depth(&self) -> (r: usize) {
        WAIT_BUFFER_SIZE
    }

    fn num_messages(&self) -> (r: u64) {
        match self.backend {
            SweepBackend::Shm => self.num_events,
            SweepBackend::Mmap => WAIT_NUM_EVENTS,
        }
    }

    fn warmup_messages(&self) -> (r: u64) {
        0
    }

    fn num_consumers(&self) -> (r: usize) {
        self.consumers
    }

    fn timeout(&self) -> (r: u64) {
        180
    }

    fn throughput_unit(&self) -> (r: &str) {
        match self.backend {
            SweepBackend::Shm => "ops/s",
            SweepBackend::Mmap => self.throughput_unit.as_str(),
        }
    }

    fn consumer_summary_label(&self) -> (r: &str) {
        summary_label(self.consumers)
    }

    fn latency_rule(&self) -> (r: LatencyRule) {
        LatencyRule::Last
    }

    fn segment_prefix(&self) -> (r: String) {
        match self.backend {
            SweepBackend::Shm => {
                let mut out: String = "ws_".to_owned();
                out.append(self.wait_strategy.as_str());
                out.append("_");
                out.append(decimal(self.consumers as u64).as_str());
                out.append("c");
                out
            },
            SweepBackend::Mmap => "wait".to_owned(),
        }
    }

    fn root_prefix(&self) -> (r: Option<String>) {
        match self.backend {
            SweepBackend::Shm => None,
            SweepBackend::Mmap => Some("wait_mmap".to_owned()),
        }
    }

    fn summary_line(&self, figures: &SummaryFigures) -> (r: Option<String>) {
        let mut topology: String = "1p".to_owned();
        topology.append(decimal(self.consumers as u64).as_str());
        topology.append("c");
        let mut out: String = "  ".to_owned();
        out.append(pad_right(topology.as_str(), 6).as_str());
        out.append(" ");
        out.append(pad_right(self.wait_strategy.as_str(), 24).as_str());
        out.append(" producer: ");
        out.append(pad_left(figures.producer_ops.as_str(), 10).as_str());
        out.append(" ");
        out.append(self.throughput_unit.as_str());
        out.append("  avg consumer: ");
        out.append(pad_left(figures.consumer_ops.as_str(), 10).as_str());
        out.append(" ");
        out.append(self.throughput_unit.as_str());
        Some(out)
    }

    fn launch(&self, place: &LaunchPlace) -> (r: LaunchPlan) {
        let mut envs: Vec<EnvVar> = Vec::new();
        assert(env_views(envs@) =~= Seq::empty());
        let cleanup_path = match self.backend {
            SweepBackend::Shm => {
                push_env(&mut envs, "BENCHMARK_SEGMENT_NAME", place.segment.clone());
                None
            },
            SweepBackend::Mmap => {
                push_env(&mut envs, "MMAP_ROOT", place.root.clone());
                push_env(&mut envs, "MMAP_SEGMENT", place.segment.clone());
                Some(place.root.clone())
            },
        };
        let ghost located = match self.backend {
            SweepBackend::Shm => seq![("BENCHMARK_SEGMENT_NAME"@, place.segment@)],
            SweepBackend::Mmap => seq![
                ("MMAP_ROOT"@, place.root@),
                ("MMAP_SEGMENT"@, place.segment@),
            ],
        };
        assert(env_views(envs@) =~= located);
        push_number(&mut envs, "NUM_CONSUMERS", self.consumers as u64);
        push_env(&mut envs, "WAIT_STRATEGY", self.wait_strategy.clone());
        assert(env_views(envs@) =~= located + self.settings());
        let tail: Vec<EnvVar> = Vec::new();
        assert(env_views(tail@) =~= Seq::empty());
        let consumers = numbered_consumers(
            self.consumer_role.as_str(),
            &envs,
            "CONSUMER_ID",
            &tail,
            self.consumers,
        );
        LaunchPlan {
            producer: ChildSpawn { role: self.producer_role.clone(), envs },
            consumers,
            cleanup_path,
        }
    }
}

/// A consumer that spins never sleeps, one that is to sleep or block never spins,
/// and over memory-mapped files sleeping is shorter than blocking.
pub proof fn law_idling_follows_the_strategy(backend: SweepBackend)
    ensures
        backend == SweepBackend::Shm ==> idle_action_of(backend, "BusySpin"@)
            == IdleAction::Nothing,
        backend == SweepBackend::Mmap ==> idle_action_of(backend, "BusySpin"@)
            == IdleAction::SpinHint,
        idle_action_of(backend, "BusySpinWithSpinLoopHint"@) == IdleAction::SpinHint,
        backend == SweepBackend::Shm ==> idle_action_of(backend, "Sleep"@)
            == IdleAction::ConsumeSleep,
        backend == SweepBackend::Mmap ==> idle_action_of(backend, "Sleep"@)
            == IdleAction::SleepMicros(1),
        backend == SweepBackend::Shm ==> idle_action_of(backend, "Block"@)
            == IdleAction::BlockWait,
        backend == SweepBackend::Mmap ==> idle_action_of(backend, "Block"@)
            == IdleAction::SleepMillis(1),
        forall|other: Seq<char>|
            other != "BusySpin"@ && other != "BusySpinWithSpinLoopHint"@ && other != "Sleep"@
                && other != "Block"@ ==> #[trigger] idle_action_of(backend, other) == (if backend
                == SweepBackend::Shm {
                IdleAction::SpinHint
            } else {
                IdleAction::SleepMillis(1)
            }),
{
    reveal_strlit("BusySpin");
    reveal_strlit("BusySpinWithSpinLoopHint");
    reveal_strlit("Sleep");
    reveal_strlit("Block");
    assert("BusySpin"@.len() == 8);
    assert("BusySpinWithSpinLoopHint"@.len() == 24);
    assert("Sleep"@.len() == 5);
    assert("Block"@.len() == 5);
    assert("Sleep"@[0] != "Block"@[0]);
}

/// A wait strategy scenario says of itself what it is made of.
pub proof fn law_wait_scenario_says_what_it_is(s: WaitStrategyScenario)
    ensures
        s.backend == SweepBackend::Shm ==> s.facts().bench_name == "wait_strategy_shm"@
            && s.facts().backend == "shm"@ && s.facts().num_messages == s.num_events
            && s.facts().transport.coordination == Some("BenchmarkCoordination"@),
        s.backend == SweepBackend::Mmap ==> s.facts().bench_name == "wait_strategy_mmap"@
            && s.facts().backend == "mmap"@ && s.facts().num_messages == WAIT_NUM_EVENTS
            && s.facts().transport.coordination == Some("mmap_builtin"@),
        s.facts().layer == "wait_strategy"@,
        s.facts().wait_strategy == s.wait_strategy@,
        s.facts().codec is None,
        s.facts().measurement_mode == "max_throughput"@,
        s.facts().transport.zero_copy == Some(false),
        s.facts().transport.framing == Some("none"@),
        s.facts().message_size_bytes == WAIT_ELEMENT_SIZE,
        s.facts().payload_bytes == WAIT_ELEMENT_SIZE,
        s.facts().buffer_depth == WAIT_BUFFER_SIZE,
        s.facts().warmup_messages == 0,
        s.facts().num_consumers == s.consumers,
        s.facts().timeout_secs == 180,
        s.facts().latency_rule == LatencyRule::Last,
{
}

/// The line of a wait strategy scenario gives each side's throughput behind its
/// own label.
pub proof fn law_wait_line_labels_its_figures(s: WaitStrategyScenario, figures: SummaryFigures)
    ensures
        s.summary(figures) is Some,
        contains_text(
            s.summary(figures)->0,
            " producer: "@ + padded_left(figures.producer_ops@, 10),
        ),
        contains_text(
            s.summary(figures)->0,
            "  avg consumer: "@ + padded_left(figures.consumer_ops@, 10),
        ),
{
    let whole = s.summary(figures)->0;
    let a = "  "@ + padded_right("1p"@ + decimal_text(s.consumers as nat) + "c"@, 6) + " "@
        + padded_right(s.wait_strategy@, 24);
    let b = a + " producer: "@ + padded_left(figures.producer_ops@, 10);
    let c = b + " "@ + s.throughput_unit@;
    let d = c + "  avg consumer: "@ + padded_left(figures.consumer_ops@, 10);
    lemma_whole_prefix(whole);
    lemma_labelled(whole, d, " "@, s.throughput_unit@);
    lemma_labelled(whole, c, "  avg consumer: "@, padded_left(figures.consumer_ops@, 10));
    lemma_labelled(whole, b, " "@, s.throughput_unit@);
    lemma_labelled(whole, a, " producer: "@, padded_left(figures.producer_ops@, 10));
}

} // verus!
