//! Framed sweep scenarios: messages cut into frames, over both transports, at
//! full speed and at a target rate.
use vstd::prelude::*;
use crate::bench::{
    mmap_transport, rate_mode, rate_mode_name, shm_transport, summary_label, summary_label_of,
    BenchFacts, IpcBenchmark, LatencyRule,
};
use crate::decimal::{decimal, decimal_text};
use crate::launch::{
    env_views, group_facts, numbered_consumers, push_env, push_number, ChildSpawn, EnvVar,
    LaunchFacts, LaunchPlace, LaunchPlan,
};
use crate::reporting::BenchTransportSpec;
use crate::scenarios::selection::{
    backend_slug, matches_value, selects, selects_number, SweepBackend, SweepSelection,
};
use crate::sizing::{depth_fits, scaled_buffer, scaled_depth};
use crate::summary::{p99_of, SummaryFigures};
use crate::text::{
    contains_text, lemma_labelled, lemma_whole_prefix, pad_left, pad_right, padded_left,
    padded_right, same_text,
};

verus! {

/// What a size of the sweep is made from: its layer, the load, the rate at
/// which it is paced by default, and the roles for either transport.
#[derive(Clone, Debug)]
pub struct FramedSweepSpec {
    pub layer: String,
    pub tag: String,
    pub payload_bytes: usize,
    pub events: u64,
    pub base_buffer: usize,
    pub default_co_rate: u64,
    pub shm_producer_role: String,
    pub shm_consumer_role: String,
    pub mmap_producer_role: String,
    pub mmap_consumer_role: String,
}

/// A framed sweep scenario.
#[derive(Clone, Debug)]
pub struct FramedSweepScenario {
    pub layer: String,
    pub backend: SweepBackend,
    pub size_tag: String,
    pub payload_size: usize,
    pub events: u64,
    pub buffer: usize,
    pub consumers: usize,
    pub target_rate: u64,
    pub producer_role: String,
    pub consumer_role: String,
}

/// The scenario for a size, a transport, a number of consumers and a rate.
pub open spec fn framed_scenario(
    spec: FramedSweepSpec,
    selection: SweepSelection,
    backend: SweepBackend,
    consumers: usize,
    target_rate: u64,
) -> FramedSweepScenario {
    FramedSweepScenario {
        layer: spec.layer,
        backend,
        size_tag: spec.tag,
        payload_size: spec.payload_bytes,
        events: selection.events_or(spec.events),
        buffer: scaled_depth(spec.base_buffer as nat, consumers as nat) as usize,
        consumers,
        target_rate,
        producer_role: if backend == SweepBackend::Shm {
            spec.shm_producer_role
        } else {
            spec.mmap_producer_role
        },
        consumer_role: if backend == SweepBackend::Shm {
            spec.shm_consumer_role
        } else {
            spec.mmap_consumer_role
        },
    }
}

/// The scenarios for a size, a transport and a number of consumers: at full
/// speed, then at the rate, where there is one, as far as they are selected.
pub open spec fn framed_rates(
    spec: FramedSweepSpec,
    selection: SweepSelection,
    backend: SweepBackend,
    consumers: usize,
) -> Seq<FramedSweepScenario> {
    let rate = selection.rate_or(spec.default_co_rate);
    let full = if selection.wants(0) {
        seq![framed_scenario(spec, selection, backend, consumers, 0)]
    } else {
        Seq::empty()
    };
    let paced = if rate > 0 && selection.wants(rate) {
        seq![framed_scenario(spec, selection, backend, consumers, rate)]
    } else {
        Seq::empty()
    };
    full + paced
}

/// The scenarios for a size and a transport, by number of consumers.
pub open spec fn framed_counts(
    spec: FramedSweepSpec,
    selection: SweepSelection,
    backend: SweepBackend,
    counts: Seq<usize>,
) -> Seq<FramedSweepScenario>
    decreases counts.len(),
{
    if counts.len() == 0 {
        Seq::empty()
    } else {
        let earlier = framed_counts(spec, selection, backend, counts.drop_last());
        if selects_number(selection.consumers@, counts.last() as nat) {
            earlier + framed_rates(spec, selection, backend, counts.last())
        } else {
            earlier
        }
    }
}

/// The scenarios for a transport, by size.
pub open spec fn framed_sizes(
    specs: Seq<FramedSweepSpec>,
    selection: SweepSelection,
    backend: SweepBackend,
    counts: Seq<usize>,
) -> Seq<FramedSweepScenario>
    decreases specs.len(),
{
    if specs.len() == 0 {
        Seq::empty()
    } else {
        let earlier = framed_sizes(specs.drop_last(), selection, backend, counts);
        if selects(selection.layer@, specs.last().layer@) && selects(
            selection.size@,
            specs.last().tag@,
        ) {
            earlier + framed_counts(specs.last(), selection, backend, counts)
        } else {
            earlier
        }
    }
}

/// The scenarios for a transport, where it is selected.
pub open spec fn framed_backend(
    specs: Seq<FramedSweepSpec>,
    selection: SweepSelection,
    backend: SweepBackend,
    counts: Seq<usize>,
) -> Seq<FramedSweepScenario> {
    if selects(selection.backend@, backend_slug(backend)) {
        framed_sizes(specs, selection, backend, counts)
    } else {
        Seq::empty()
    }
}

/// The scenarios of a sweep: shared memory first, then memory-mapped files.
pub open spec fn framed_plan(
    specs: Seq<FramedSweepSpec>,
    selection: SweepSelection,
    counts: Seq<usize>,
) -> Seq<FramedSweepScenario> {
    framed_backend(specs, selection, SweepBackend::Shm, counts) + framed_backend(
        specs,
        selection,
        SweepBackend::Mmap,
        counts,
    )
}

/// Every buffer of the sweep is within what a machine can count.
pub open spec fn framed_depths_fit(specs: Seq<FramedSweepSpec>, counts: Seq<usize>) -> bool {
    forall|i: int, j: int|
        0 <= i < specs.len() && 0 <= j < counts.len() ==> depth_fits(
            (#[trigger] specs[i]).base_buffer as nat,
            #[trigger] counts[j] as nat,
        )
}

/// The scenario for a size, a transport, a number of consumers and a rate.
fn make_framed_scenario(
    spec: &FramedSweepSpec,
    selection: &SweepSelection,
    backend: SweepBackend,
    consumers: usize,
    target_rate: u64,
) -> (r: FramedSweepScenario)
    requires
        depth_fits(spec.base_buffer as nat, consumers as nat),
    ensures
        r == framed_scenario(*spec, *selection, backend, consumers, target_rate),
{
    let (producer_role, consumer_role): (String, String) = match backend {
        SweepBackend::Shm => (spec.shm_producer_role.clone(), spec.shm_consumer_role.clone()),
        SweepBackend::Mmap => (spec.mmap_producer_role.clone(), spec.mmap_consumer_role.clone()),
    };
    FramedSweepScenario {
        layer: spec.layer.clone(),
        backend,
        size_tag: spec.tag.clone(),
        payload_size: spec.payload_bytes,
        events: selection.events_for(spec.events),
        buffer: scaled_buffer(spec.base_buffer, consumers),
        consumers,
        target_rate,
        producer_role,
        consumer_role,
    }
}

/// Adds the scenarios for a size and a transport.
fn push_framed_counts(
    plan: &mut Vec<FramedSweepScenario>,
    spec: &FramedSweepSpec,
    selection: &SweepSelection,
    backend: SweepBackend,
    counts: &Vec<usize>,
)
    requires
        forall|j: int|
            0 <= j < counts@.len() ==> depth_fits(
                spec.base_buffer as nat,
                #[trigger] counts@[j] as nat,
            ),
    ensures
        final(plan)@ == old(plan)@ + framed_counts(*spec, *selection, backend, counts@),
{
    let ghost before = plan@;
    assert(plan@ =~= before + framed_counts(*spec, *selection, backend, counts@.take(0)));
    for j in 0..counts.len()
        invariant
            forall|j: int|
                0 <= j < counts@.len() ==> depth_fits(
                    spec.base_buffer as nat,
                    #[trigger] counts@[j] as nat,
                ),
            plan@ == before + framed_counts(*spec, *selection, backend, counts@.take(j as int)),
    {
        let ghost taken = counts@.take(j + 1);
        assert(taken.drop_last() =~= counts@.take(j as int));
        let consumers: usize = counts[j];
        assert(depth_fits(spec.base_buffer as nat, counts@[j as int] as nat));
        if selection.matches_consumers(consumers) {
            let ghost start = plan@;
            if selection.selects_rate(0) {
                plan.push(make_framed_scenario(spec, selection, backend, consumers, 0));
            }
            let rate: u64 = selection.co_rate(spec.default_co_rate);
            if rate > 0 && selection.selects_rate(rate) {
                plan.push(make_framed_scenario(spec, selection, backend, consumers, rate));
            }
            assert(plan@ =~= start + framed_rates(*spec, *selection, backend, consumers));
        }
        assert(plan@ =~= before + framed_counts(*spec, *selection, backend, taken));
    }
    assert(counts@.take(counts@.len() as int) =~= counts@);
}

/// Adds the scenarios for a transport, where it is selected.
fn push_framed_backend(
    plan: &mut Vec<FramedSweepScenario>,
    specs: &Vec<FramedSweepSpec>,
    selection: &SweepSelection,
    backend: SweepBackend,
    counts: &Vec<usize>,
)
    requires
        framed_depths_fit(specs@, counts@),
    ensures
        final(plan)@ == old(plan)@ + framed_backend(specs@, *selection, backend, counts@),
{
    let ghost before = plan@;
    if !matches_value(selection.backend.as_str(), backend.slug()) {
        assert(plan@ =~= before + Seq::<FramedSweepScenario>::empty());
        return;
    }
    assert(plan@ =~= before + framed_sizes(specs@.take(0), *selection, backend, counts@));
    for i in 0..specs.len()
        invariant
            framed_depths_fit(specs@, counts@),
            plan@ == before + framed_sizes(
                specs@.take(i as int),
                *selection,
                backend,
                counts@,
            ),
    {
        let ghost taken = specs@.take(i + 1);
        assert(taken.drop_last() =~= specs@.take(i as int));
        let spec = &specs[i];
        if selection.matches_layer(spec.layer.as_str()) && selection.matches_size(
            spec.tag.as_str(),
        ) {
            assert forall|j: int| 0 <= j < counts@.len() implies depth_fits(
                spec.base_buffer as nat,
                #[trigger] counts@[j] as nat,
            ) by {
                assert(depth_fits(specs@[i as int].base_buffer as nat, counts@[j] as nat));
            }
            push_framed_counts(plan, spec, selection, backend, counts);
        }
        assert(plan@ =~= before + framed_sizes(taken, *selection, backend, counts@));
    }
    assert(specs@.take(specs@.len() as int) =~= specs@);
}

/// The scenarios of a sweep that the command line selects.
pub fn plan_framed_sweep(
    specs: &Vec<FramedSweepSpec>,
    selection: &SweepSelection,
    counts: &Vec<usize>,
) -> (r: Vec<FramedSweepScenario>)
    requires
        framed_depths_fit(specs@, counts@),
    ensures
        r@ == framed_plan(specs@, *selection, counts@),
{
    let mut plan: Vec<FramedSweepScenario> = Vec::new();
    push_framed_backend(&mut plan, specs, selection, SweepBackend::Shm, counts);
    assert(plan@ =~= framed_backend(specs@, *selection, SweepBackend::Shm, counts@));
    push_framed_backend(&mut plan, specs, selection, SweepBackend::Mmap, counts);
    plan
}

impl FramedSweepScenario {
    /// The mode in short form.
    pub open spec fn short_mode(&self) -> Seq<char> {
        if self.target_rate > 0 {
            "CO@"@ + decimal_text(self.target_rate as nat)
        } else {
            "tput"@
        }
    }

    /// The mode in short form.
    pub fn mode_label(&self) -> (r: String)
        ensures
            r@ == self.short_mode(),
    {
        if self.target_rate > 0 {
            let mut out: String = "CO@".to_owned();
            out.append(decimal(self.target_rate).as_str());
            out
        } else {
            "tput".to_owned()
        }
    }

    /// The name of the scenario: its layer, transport, size and number of
    /// consumers, and its rate where it has one.
    pub open spec fn name(&self) -> Seq<char> {
        let base = self.layer@ + "_"@ + backend_slug(self.backend) + "_"@ + self.size_tag@ + "_1p"@
            + decimal_text(self.consumers as nat) + "c"@;
        if self.target_rate > 0 {
            base + "_co_"@ + decimal_text(self.target_rate as nat) + "rps"@
        } else {
            base
        }
    }

    /// The name of the scenario.
    fn name_text(&self) -> (r: String)
        ensures
            r@ == self.name(),
    {
        let mut out = self.layer.clone();
        out.append("_");
        out.append(self.backend.slug());
        out.append("_");
        out.append(self.size_tag.as_str());
        out.append("_1p");
        out.append(decimal(self.consumers as u64).as_str());
        out.append("c");
        if self.target_rate > 0 {
            out.append("_co_");
            out.append(decimal(self.target_rate).as_str());
            out.append("rps");
        }
        out
    }

    /// The variables of a child, after those that say where the ring is.
    pub open spec fn settings(&self) -> Seq<(Seq<char>, Seq<char>)> {
        let base = seq![
            ("BENCH_PAYLOAD_BYTES"@, decimal_text(self.payload_size as nat)),
            ("BENCH_NUM_MESSAGES"@, decimal_text(self.events as nat)),
            ("BENCH_BUFFER_DEPTH"@, decimal_text(self.buffer as nat)),
            ("BENCH_NUM_CONSUMERS"@, decimal_text(self.consumers as nat)),
        ];
        if self.target_rate > 0 {
            base.push(("BENCH_TARGET_RATE"@, decimal_text(self.target_rate as nat)))
        } else {
            base
        }
    }
}

/// The framing of a layer.
pub open spec fn framing_of(layer: Seq<char>) -> Seq<char> {
    if layer == "framed_right"@ {
        "right_sized"@
    } else {
        "fixed_64k"@
    }
}

impl IpcBenchmark for FramedSweepScenario {
    open spec fn facts(&self) -> BenchFacts {
        BenchFacts {
            bench_name: "myelon_framed_sweep"@,
            scenario_name: self.name(),
            label: self.name(),
            backend: backend_slug(self.backend),
            layer: self.layer@,
            transport: match self.backend {
                SweepBackend::Shm => shm_transport(
                    self.consumers as nat,
                    false,
                    framing_of(self.layer@),
                ),
                SweepBackend::Mmap => mmap_transport(false, framing_of(self.layer@)),
            },
            codec: None,
            measurement_mode: rate_mode(self.target_rate as nat),
            wait_strategy: "BusySpin"@,
            message_size_bytes: self.payload_size as nat,
            payload_bytes: self.payload_size as nat,
            buffer_depth: self.buffer as nat,
            num_messages: self.events as nat,
            warmup_messages: 0,
            num_consumers: self.consumers as nat,
            timeout_secs: 300,
            throughput_unit: "msgs/s"@,
            summary_label: summary_label_of(self.consumers as nat),
            latency_rule: LatencyRule::WorstP99,
            segment_prefix: match self.backend {
                SweepBackend::Shm => "mfs_"@ + self.layer@ + "_"@ + self.size_tag@,
                SweepBackend::Mmap => "framed"@,
            },
            root_prefix: match self.backend {
                SweepBackend::Shm => None,
                SweepBackend::Mmap => Some("mfs_"@ + self.layer@ + "_"@ + self.size_tag@),
            },
        }
    }

    open spec fn launch_facts(&self, place: LaunchPlace) -> LaunchFacts {
        let located = match self.backend {
            SweepBackend::Shm => seq![("BENCHMARK_SEGMENT_NAME"@, place.segment@)],
            SweepBackend::Mmap => seq![
                ("MMAP_ROOT"@, place.root@),
                ("MMAP_SEGMENT"@, place.segment@),
            ],
        };
        group_facts(
            self.producer_role@,
            self.consumer_role@,
            self.consumers as nat,
            "BENCH_CONSUMER_ID"@,
            located + self.settings(),
            match self.backend {
                SweepBackend::Shm => None,
                SweepBackend::Mmap => Some(place.root@),
            },
        )
    }

    open spec fn summary(&self, figures: SummaryFigures) -> Option<Seq<char>> {
        Some(
            "  "@
                + padded_right(self.layer@, 14)
                + " "@
                + padded_right(backend_slug(self.backend), 4)
                + " "@
                + padded_right(self.short_mode(), 8)
                + " 1p"@
                + padded_right(decimal_text(self.consumers as nat), 2)
                + "c prod="@
                + padded_left(figures.producer_ops@, 10)
                + " cons="@
                + padded_left(figures.consumer_ops@, 10)
                + " p99="@
                + padded_left(p99_of(figures), 8),
        )
    }

    open spec fn runnable(&self) -> bool {
        true
    }

    fn bench_name(&self) -> (r: &str) {
        "myelon_framed_sweep"
    }

    fn scenario_name(&self) -> (r: String) {
        self.name_text()
    }

    fn label(&self) -> (r: String) {
        self.name_text()
    }

    fn backend(&self) -> (r: &str) {
        self.backend.slug()
    }

    fn layer(&self) -> (r: &str) {
        self.layer.as_str()
    }

    fn transport_metadata(&self) -> (r: BenchTransportSpec) {
        let base = match self.backend {
            SweepBackend::Shm => BenchTransportSpec::benchmark_shm(self.consumers),
            SweepBackend::Mmap => BenchTransportSpec::mmap_builtin(),
        };
        let framing = if same_text(self.layer.as_str(), "framed_right") {
            "right_sized"
        } else {
            "fixed_64k"
        };
        base.with_zero_copy(false).with_framing(framing)
    }

    fn codec(&self) -> (r: Option<&str>) {
        None
    }

    fn measurement_mode(&self) -> (r: String) {
        rate_mode_name(self.target_rate)
    }

    fn wait_strategy(&self) -> (r: &str) {
        "BusySpin"
    }

    fn message_size_bytes(&self) -> (r: usize) {
        self.payload_size
    }

    fn payload_bytes(&self) -> (r: usize) {
        self.payload_size
    }

    fn buffer_depth(&self) -> (r: usize) {
        self.buffer
    }

    fn num_messages(&self) -> (r: u64) {
        self.events
    }

    fn warmup_messages(&self) -> (r: u64) {
        0
    }

    fn num_consumers(&self) -> (r: usize) {
        self.consumers
    }

    fn timeout(&self) -> (r: u64) {
        300
    }

    fn throughput_unit(&self) -> (r: &str) {
        "msgs/s"
    }

    fn consumer_summary_label(&self) -> (r: &str) {
        summary_label(self.consumers)
    }

    fn latency_rule(&self) -> (r: LatencyRule) {
        LatencyRule::WorstP99
    }

    fn segment_prefix(&self) -> (r: String) {
        match self.backend {
            SweepBackend::Shm => {
                let mut out: String = "mfs_".to_owned();
                out.append(self.layer.as_str());
                out.append("_");
                out.append(self.size_tag.as_str());
                out
            },
            SweepBackend::Mmap => "framed".to_owned(),
        }
    }

    fn root_prefix(&self) -> (r: Option<String>) {
        match self.backend {
            SweepBackend::Shm => None,
            SweepBackend::Mmap => {
                let mut out: String = "mfs_".to_owned();
                out.append(self.layer.as_str());
                out.append("_");
                out.append(self.size_tag.as_str());
                Some(out)
            },
        }
    }

    fn summary_line(&self, figures: &SummaryFigures) -> (r: Option<String>) {
        let mode = self.mode_label();
        let p99 = figures.p99_text();
        let mut out: String = "  ".to_owned();
        out.append(pad_right(self.layer.as_str(), 14).as_str());
        out.append(" ");
        out.append(pad_right(self.backend.slug(), 4).as_str());
        out.append(" ");
        out.append(pad_right(mode.as_str(), 8).as_str());
        out.append(" 1p");
        out.append(pad_right(decimal(self.consumers as u64).as_str(), 2).as_str());
        out.append("c prod=");
        out.append(pad_left(figures.producer_ops.as_str(), 10).as_str());
        out.append(" cons=");
        out.append(pad_left(figures.consumer_ops.as_str(), 10).as_str());
        out.append(" p99=");
        out.append(pad_left(p99.as_str(), 8).as_str());
        Some(out)
    }

    fn launch(&self, place: &LaunchPlace) -> (r: LaunchPlan) {
        let mut envs: Vec<EnvVar> = Vec::new();
        assert(env_views(envs@) =~= Seq::empty());
        let cleanup_path = match self.backend {
            SweepBackend::Shm => {
                push_env(&mut envs, "BENCHMARK_SEGMENT_NAME", place.segment.clone());
                None
            },
            SweepBackend::Mmap => {
                push_env(&mut envs, "MMAP_ROOT", place.root.clone());
                push_env(&mut envs, "MMAP_SEGMENT", place.segment.clone());
                Some(place.root.clone())
            },
        };
        let ghost located = match self.backend {
            SweepBackend::Shm => seq![("BENCHMARK_SEGMENT_NAME"@, place.segment@)],
            SweepBackend::Mmap => seq![
                ("MMAP_ROOT"@, place.root@),
                ("MMAP_SEGMENT"@, place.segment@),
            ],
        };
        assert(env_views(envs@) =~= located);
        push_number(&mut envs, "BENCH_PAYLOAD_BYTES", self.payload_size as u64);
        push_number(&mut envs, "BENCH_NUM_MESSAGES", self.events);
        push_number(&mut envs, "BENCH_BUFFER_DEPTH", self.buffer as u64);
        push_number(&mut envs, "BENCH_NUM_CONSUMERS", self.consumers as u64);
        if self.target_rate > 0 {
            push_number(&mut envs, "BENCH_TARGET_RATE", self.target_rate);
        }
        assert(env_views(envs@) =~= located + self.settings());
        let tail: Vec<EnvVar> = Vec::new();
        assert(env_views(tail@) =~= Seq::empty());
        let consumers = numbered_consumers(
            self.consumer_role.as_str(),
            &envs,
            "BENCH_CONSUMER_ID",
            &tail,
            self.consumers,
        );
        LaunchPlan {
            producer: ChildSpawn { role: self.producer_role.clone(), envs },
            consumers,
            cleanup_path,
        }
    }
}

/// What the scenarios of a number of consumers are.
proof fn lemma_framed_rates(
    spec: FramedSweepSpec,
    selection: SweepSelection,
    backend: SweepBackend,
    consumers: usize,
    s: FramedSweepScenario,
)
    ensures
        framed_rates(spec, selection, backend, consumers).contains(s) <==> {
            &&& s == framed_scenario(spec, selection, backend, consumers, s.target_rate)
            &&& selection.wants(s.target_rate)
            &&& s.target_rate == 0 || s.target_rate == selection.rate_or(spec.default_co_rate)
        },
{
    let all = framed_rates(spec, selection, backend, consumers);
    if all.contains(s) {
        let i = choose|i: int| 0 <= i < all.len() && all[i] == s;
        assert(all[i] == s);
    }
    let rate = selection.rate_or(spec.default_co_rate);
    if s == framed_scenario(spec, selection, backend, consumers, s.target_rate)
        && selection.wants(s.target_rate) {
        if s.target_rate == 0 {
            assert(all[0] == s);
        } else if s.target_rate == rate {
            assert(all[all.len() - 1] == s);
        }
    }
}

/// What the scenarios of the numbers of consumers are.
proof fn lemma_framed_counts(
    spec: FramedSweepSpec,
    selection: SweepSelection,
    backend: SweepBackend,
    counts: Seq<usize>,
    s: FramedSweepScenario,
)
    ensures
        framed_counts(spec, selection, backend, counts).contains(s) <==> {
            &&& counts.contains(s.consumers)
            &&& selects_number(selection.consumers@, s.consumers as nat)
            &&& s == framed_scenario(spec, selection, backend, s.consumers, s.target_rate)
            &&& selection.wants(s.target_rate)
            &&& s.target_rate == 0 || s.target_rate == selection.rate_or(spec.default_co_rate)
        },
    decreases counts.len(),
{
    if counts.len() > 0 {
        let earlier = counts.drop_last();
        let before = framed_counts(spec, selection, backend, earlier);
        let here = framed_rates(spec, selection, backend, counts.last());
        lemma_framed_counts(spec, selection, backend, earlier, s);
        lemma_framed_rates(spec, selection, backend, counts.last(), s);
        vstd::seq_lib::lemma_seq_concat_contains_all_elements(before, here, s);
        assert(counts =~= earlier.push(counts.last()));
        vstd::seq_lib::lemma_seq_contains_after_push(earlier, counts.last(), s.consumers);
    }
}

/// What the scenarios of the sizes are.
proof fn lemma_framed_sizes(
    specs: Seq<FramedSweepSpec>,
    selection: SweepSelection,
    backend: SweepBackend,
    counts: Seq<usize>,
    s: FramedSweepScenario,
)
    ensures
        framed_sizes(specs, selection, backend, counts).contains(s) <==> exists|k: int|
            0 <= k < specs.len() && selects(selection.layer@, (#[trigger] specs[k]).layer@)
                && selects(selection.size@, specs[k].tag@) && framed_counts(
                specs[k],
                selection,
                backend,
                counts,
            ).contains(s),
    decreases specs.len(),
{
    if specs.len() > 0 {
        let earlier = specs.drop_last();
        let last = specs.len() - 1;
        let before = framed_sizes(earlier, selection, backend, counts);
        let here = framed_counts(specs.last(), selection, backend, counts);
        lemma_framed_sizes(earlier, selection, backend, counts, s);
        vstd::seq_lib::lemma_seq_concat_contains_all_elements(before, here, s);
        if before.contains(s) {
            let k = choose|k: int|
                0 <= k < earlier.len() && selects(selection.layer@, (#[trigger] earlier[k]).layer@)
                    && selects(selection.size@, earlier[k].tag@) && framed_counts(
                    earlier[k],
                    selection,
                    backend,
                    counts,
                ).contains(s);
            assert(specs[k] == earlier[k]);
        }
        assert(specs[last] == specs.last());
        if exists|k: int|
            0 <= k < specs.len() && selects(selection.layer@, (#[trigger] specs[k]).layer@)
                && selects(selection.size@, specs[k].tag@) && framed_counts(
                specs[k],
                selection,
                backend,
                counts,
            ).contains(s) {
            let k = choose|k: int|
                0 <= k < specs.len() && selects(selection.layer@, (#[trigger] specs[k]).layer@)
                    && selects(selection.size@, specs[k].tag@) && framed_counts(
                    specs[k],
                    selection,
                    backend,
                    counts,
                ).contains(s);
            if k < last {
                assert(earlier[k] == specs[k]);
            }
        }
    }
}

/// `scenario` is one of the size `spec`: it has its layer and its load, the roles
/// of its own transport, and a buffer for its consumers.
pub open spec fn is_framed_scenario_of(
    spec: FramedSweepSpec,
    selection: SweepSelection,
    scenario: FramedSweepScenario,
) -> bool {
    &&& scenario.layer == spec.layer
    &&& scenario.size_tag == spec.tag
    &&& scenario.payload_size == spec.payload_bytes
    &&& selection.num_messages is Some ==> scenario.events == selection.num_messages->0
    &&& selection.num_messages is None ==> scenario.events == spec.events
    &&& scenario.buffer == scaled_depth(
        spec.base_buffer as nat,
        scenario.consumers as nat,
    ) as usize
    &&& scenario.backend == SweepBackend::Shm ==> scenario.producer_role == spec.shm_producer_role
    &&& scenario.backend == SweepBackend::Shm ==> scenario.consumer_role == spec.shm_consumer_role
    &&& scenario.backend == SweepBackend::Mmap ==> scenario.producer_role == spec.mmap_producer_role
    &&& scenario.backend == SweepBackend::Mmap ==> scenario.consumer_role == spec.mmap_consumer_role
}

/// A scenario is planned exactly where the command line selects it: its
/// transport, its size's layer and tag, its number of consumers, and its speed,
/// which is full speed or the one rate of the size.
pub proof fn law_framed_plan_is_what_is_selected(
    specs: Seq<FramedSweepSpec>,
    selection: SweepSelection,
    counts: Seq<usize>,
    s: FramedSweepScenario,
)
    ensures
        framed_plan(specs, selection, counts).contains(s) <==> {
            &&& selects(selection.backend@, backend_slug(s.backend))
            &&& counts.contains(s.consumers)
            &&& selects_number(selection.consumers@, s.consumers as nat)
            &&& selection.wants(s.target_rate)
            &&& exists|k: int|
                0 <= k < specs.len() && selects(selection.layer@, (#[trigger] specs[k]).layer@)
                    && selects(selection.size@, specs[k].tag@) && is_framed_scenario_of(
                    specs[k],
                    selection,
                    s,
                ) && (s.target_rate == 0 || s.target_rate == selection.rate_or(
                    specs[k].default_co_rate,
                ))
        },
{
    let shm = framed_backend(specs, selection, SweepBackend::Shm, counts);
    let mmap = framed_backend(specs, selection, SweepBackend::Mmap, counts);
    vstd::seq_lib::lemma_seq_concat_contains_all_elements(shm, mmap, s);
    lemma_framed_sizes(specs, selection, SweepBackend::Shm, counts, s);
    lemma_framed_sizes(specs, selection, SweepBackend::Mmap, counts, s);
    assert forall|k: int| 0 <= k < specs.len() implies (framed_counts(
        #[trigger] specs[k],
        selection,
        s.backend,
        counts,
    ).contains(s) <==> {
        &&& counts.contains(s.consumers)
        &&& selects_number(selection.consumers@, s.consumers as nat)
        &&& is_framed_scenario_of(specs[k], selection, s)
        &&& selection.wants(s.target_rate)
        &&& s.target_rate == 0 || s.target_rate == selection.rate_or(specs[k].default_co_rate)
    }) by {
        lemma_framed_counts(specs[k], selection, s.backend, counts, s);
    }
    assert forall|k: int, backend: SweepBackend|
        0 <= k < specs.len() && backend != s.backend implies !(#[trigger] framed_counts(
        specs[k],
        selection,
        backend,
        counts,
    )).contains(s) by {
        lemma_framed_counts(specs[k], selection, backend, counts, s);
    }
}

/// Scenarios over shared memory come before those over memory-mapped files.
pub proof fn law_shared_memory_comes_first(
    specs: Seq<FramedSweepSpec>,
    selection: SweepSelection,
    counts: Seq<usize>,
    i: int,
    j: int,
)
    requires
        0 <= i < framed_plan(specs, selection, counts).len(),
        0 <= j < framed_plan(specs, selection, counts).len(),
        framed_plan(specs, selection, counts)[i].backend == SweepBackend::Shm,
        framed_plan(specs, selection, counts)[j].backend == SweepBackend::Mmap,
    ensures
        i < j,
{
    let shm = framed_backend(specs, selection, SweepBackend::Shm, counts);
    let mmap = framed_backend(specs, selection, SweepBackend::Mmap, counts);
    let plan = framed_plan(specs, selection, counts);
    if i >= shm.len() {
        assert(mmap.contains(mmap[i - shm.len()]));
        lemma_framed_backend(specs, selection, SweepBackend::Mmap, counts, plan[i]);
    }
    if j < shm.len() {
        assert(shm.contains(shm[j]));
        lemma_framed_backend(specs, selection, SweepBackend::Shm, counts, plan[j]);
    }
}

/// The scenarios of a transport are over it.
proof fn lemma_framed_backend(
    specs: Seq<FramedSweepSpec>,
    selection: SweepSelection,
    backend: SweepBackend,
    counts: Seq<usize>,
    s: FramedSweepScenario,
)
    requires
        framed_backend(specs, selection, backend, counts).contains(s),
    ensures
        s.backend == backend,
{
    lemma_framed_sizes(specs, selection, backend, counts, s);
    let k = choose|k: int|
        0 <= k < specs.len() && selects(selection.layer@, (#[trigger] specs[k]).layer@) && selects(
            selection.size@,
            specs[k].tag@,
        ) && framed_counts(specs[k], selection, backend, counts).contains(s);
    lemma_framed_counts(specs[k], selection, backend, counts, s);
}

/// A framed scenario says of itself what it is made of.
pub proof fn law_framed_scenario_says_what_it_is(s: FramedSweepScenario)
    ensures
        s.facts().bench_name == "myelon_framed_sweep"@,
        s.facts().layer == s.layer@,
        s.backend == SweepBackend::Shm ==> s.facts().backend == "shm"@
            && s.facts().transport.coordination == Some("BenchmarkCoordination"@),
        s.backend == SweepBackend::Mmap ==> s.facts().backend == "mmap"@
            && s.facts().transport.coordination == Some("mmap_builtin"@),
        s.facts().transport.zero_copy == Some(false),
        s.layer@ == "framed_right"@ ==> s.facts().transport.framing == Some("right_sized"@),
        s.layer@ != "framed_right"@ ==> s.facts().transport.framing == Some("fixed_64k"@),
        s.facts().codec is None,
        s.target_rate == 0 ==> s.facts().measurement_mode == "max_throughput"@,
        s.target_rate > 0 ==> s.facts().measurement_mode == "co_aware@"@ + decimal_text(
            s.target_rate as nat,
        ),
        s.facts().wait_strategy == "BusySpin"@,
        s.facts().message_size_bytes == s.payload_size,
        s.facts().payload_bytes == s.payload_size,
        s.facts().buffer_depth == s.buffer,
        s.facts().num_messages == s.events,
        s.facts().warmup_messages == 0,
        s.facts().num_consumers == s.consumers,
        s.facts().timeout_secs == 300,
        s.facts().latency_rule == LatencyRule::WorstP99,
{
}

/// The line of a framed scenario gives each side's throughput and the latency
/// behind their own labels.
pub proof fn law_framed_line_labels_its_figures(s: FramedSweepScenario, figures: SummaryFigures)
    ensures
        s.summary(figures) is Some,
        contains_text(
            s.summary(figures)->0,
            "c prod="@ + padded_left(figures.producer_ops@, 10),
        ),
        contains_text(s.summary(figures)->0, " cons="@ + padded_left(figures.consumer_ops@, 10)),
        contains_text(s.summary(figures)->0, " p99="@ + padded_left(p99_of(figures), 8)),
        contains_text(
            s.summary(figures)->0,
            " 1p"@ + padded_right(decimal_text(s.consumers as nat), 2),
        ),
{
    let whole = s.summary(figures)->0;
    let a = "  "@ + padded_right(s.layer@, 14) + " "@ + padded_right(backend_slug(s.backend), 4)
        + " "@ + padded_right(s.short_mode(), 8);
    let b = a + " 1p"@ + padded_right(decimal_text(s.consumers as nat), 2);
    let c = b + "c prod="@ + padded_left(figures.producer_ops@, 10);
    let d = c + " cons="@ + padded_left(figures.consumer_ops@, 10);
    lemma_whole_prefix(whole);
    lemma_labelled(whole, d, " p99="@, padded_left(p99_of(figures), 8));
    lemma_labelled(whole, c, " cons="@, padded_left(figures.consumer_ops@, 10));
    lemma_labelled(whole, b, "c prod="@, padded_left(figures.producer_ops@, 10));
    lemma_labelled(whole, a, " 1p"@, padded_right(decimal_text(s.consumers as nat), 2));
}

} // verus!
