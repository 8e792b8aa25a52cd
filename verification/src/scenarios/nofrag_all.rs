//! Scenarios of right-sized slots: raw and zero-copy codecs, over both
//! transports, at full speed and at a target rate.
use vstd::prelude::*;
use crate::bench::{
    mmap_transport, rate_mode, rate_mode_name, shm_transport, summary_label, summary_label_of,
    BenchFacts, IpcBenchmark, LatencyRule,
};
use crate::decimal::{decimal, decimal_text};
use crate::launch::{
    env_views, group_facts, launch_mmap_group, launch_shm_group, push_number, EnvVar, LaunchFacts,
    LaunchPlace, LaunchPlan, MultiConsumerSpawn,
};
use crate::reporting::BenchTransportSpec;
use crate::scenarios::selection::{
    backend_slug, matches_value, selects, selects_number, SweepBackend, SweepSelection,
};
use crate::sizing::{depth_fits, scaled_buffer, scaled_depth};
use crate::summary::{p99_of, SummaryFigures};
use crate::text::{
    pad_left, pad_right, padded_left, padded_right, replace_all, replaced_all, same_text,
};

verus! {

/// A layer over a transport, and the roles that run it.
#[derive(Clone, Debug)]
pub struct NofragVariant {
    pub layer: String,
    /// What the line of a run calls it.
    pub summary_label: String,
    pub backend: SweepBackend,
    pub producer_role: String,
    pub consumer_role: String,
    pub uses_codec_slot: bool,
}

/// A size of the sweep, with the variants that run at it.
#[derive(Clone, Debug)]
pub struct PayloadSweepSpec {
    pub tag: String,
    pub batch_size: usize,
    pub events: u64,
    pub buffer_depth: usize,
    pub raw_slot_bytes: usize,
    pub codec_slot_bytes: usize,
    pub default_co_rate: u64,
    pub variants: Vec<NofragVariant>,
}

/// A scenario of the sweep.
#[derive(Clone, Debug)]
pub struct NofragScenario {
    pub layer: String,
    pub backend: SweepBackend,
    pub producer_role: String,
    pub consumer_role: String,
    pub events: u64,
    pub buffer: usize,
    pub batch: usize,
    pub size_tag: String,
    pub payload_bytes: usize,
    pub slot_size: usize,
    pub consumers: usize,
    pub target_rate: u64,
}

/// The scenario for a size, a variant, a number of consumers and a rate.
pub open spec fn nofrag_scenario(
    spec: PayloadSweepSpec,
    selection: SweepSelection,
    variant: NofragVariant,
    consumers: usize,
    target_rate: u64,
) -> NofragScenario {
    NofragScenario {
        layer: variant.layer,
        backend: variant.backend,
        producer_role: variant.producer_role,
        consumer_role: variant.consumer_role,
        events: selection.events_or(spec.events),
        buffer: scaled_depth(spec.buffer_depth as nat, consumers as nat) as usize,
        batch: spec.batch_size,
        size_tag: spec.tag,
        payload_bytes: spec.raw_slot_bytes,
        slot_size: if variant.uses_codec_slot {
            spec.codec_slot_bytes
        } else {
            spec.raw_slot_bytes
        },
        consumers,
        target_rate,
    }
}

/// The scenarios for a size, a number of consumers and a rate, by variant.
pub open spec fn nofrag_variants(
    spec: PayloadSweepSpec,
    selection: SweepSelection,
    consumers: usize,
    target_rate: u64,
    variants: Seq<NofragVariant>,
) -> Seq<NofragScenario>
    decreases variants.len(),
{
    if variants.len() == 0 {
        Seq::empty()
    } else {
        let earlier = nofrag_variants(
            spec,
            selection,
            consumers,
            target_rate,
            variants.drop_last(),
        );
        let variant = variants.last();
        if selects(selection.layer@, variant.layer@) && selects(
            selection.backend@,
            backend_slug(variant.backend),
        ) {
            earlier.push(nofrag_scenario(spec, selection, variant, consumers, target_rate))
        } else {
            earlier
        }
    }
}

/// The scenarios for a size, a number of consumers and a rate, where the rate
/// is selected.
pub open spec fn nofrag_at_rate(
    spec: PayloadSweepSpec,
    selection: SweepSelection,
    consumers: usize,
    target_rate: u64,
) -> Seq<NofragScenario> {
    if selection.wants(target_rate) {
        nofrag_variants(spec, selection, consumers, target_rate, spec.variants@)
    } else {
        Seq::empty()
    }
}

/// The scenarios for a size, by number of consumers: at full speed, then at
/// the rate. A rate of zero means full speed once more.
pub open spec fn nofrag_counts(
    spec: PayloadSweepSpec,
    selection: SweepSelection,
    counts: Seq<usize>,
) -> Seq<NofragScenario>
    decreases counts.len(),
{
    if counts.len() == 0 {
        Seq::empty()
    } else {
        let earlier = nofrag_counts(spec, selection, counts.drop_last());
        if selects_number(selection.consumers@, counts.last() as nat) {
            earlier + nofrag_at_rate(spec, selection, counts.last(), 0) + nofrag_at_rate(
                spec,
                selection,
                counts.last(),
                selection.rate_or(spec.default_co_rate),
            )
        } else {
            earlier
        }
    }
}

/// The scenarios of a sweep, by size.
pub open spec fn nofrag_plan(
    specs: Seq<PayloadSweepSpec>,
    selection: SweepSelection,
    counts: Seq<usize>,
) -> Seq<NofragScenario>
    decreases specs.len(),
{
    if specs.len() == 0 {
        Seq::empty()
    } else {
        let earlier = nofrag_plan(specs.drop_last(), selection, counts);
        if selects(selection.size@, specs.last().tag@) {
            earlier + nofrag_counts(specs.last(), selection, counts)
        } else {
            earlier
        }
    }
}

/// Every buffer of the sweep is within what a machine can count.
pub open spec fn nofrag_depths_fit(specs: Seq<PayloadSweepSpec>, counts: Seq<usize>) -> bool {
    forall|i: int, j: int|
        0 <= i < specs.len() && 0 <= j < counts.len() ==> depth_fits(
            (#[trigger] specs[i]).buffer_depth as nat,
            #[trigger] counts[j] as nat,
        )
}

/// Adds the scenarios for a size, a number of consumers and a rate.
fn push_nofrag_at_rate(
    plan: &mut Vec<NofragScenario>,
    spec: &PayloadSweepSpec,
    selection: &SweepSelection,
    consumers: usize,
    target_rate: u64,
)
    requires
        depth_fits(spec.buffer_depth as nat, consumers as nat),
    ensures
        final(plan)@ == old(plan)@ + nofrag_at_rate(*spec, *selection, consumers, target_rate),
{
    let ghost before = plan@;
    if !selection.selects_rate(target_rate) {
        assert(plan@ =~= before + Seq::<NofragScenario>::empty());
        return;
    }
    let ghost all = spec.variants@;
    assert(plan@ =~= before + nofrag_variants(
        *spec,
        *selection,
        consumers,
        target_rate,
        all.take(0),
    ));
    for i in 0..spec.variants.len()
        invariant
            depth_fits(spec.buffer_depth as nat, consumers as nat),
            all == spec.variants@,
            plan@ == before + nofrag_variants(
                *spec,
                *selection,
                consumers,
                target_rate,
                all.take(i as int),
            ),
    {
        let ghost taken = all.take(i + 1);
        assert(taken.drop_last() =~= all.take(i as int));
        let variant = &spec.variants[i];
        if selection.matches_layer(variant.layer.as_str()) && matches_value(
            selection.backend.as_str(),
            variant.backend.slug(),
        ) {
            plan.push(
                NofragScenario {
                    layer: variant.layer.clone(),
                    backend: variant.backend,
                    producer_role: variant.producer_role.clone(),
                    consumer_role: variant.consumer_role.clone(),
                    events: selection.events_for(spec.events),
                    buffer: scaled_buffer(spec.buffer_depth, consumers),
                    batch: spec.batch_size,
                    size_tag: spec.tag.clone(),
                    payload_bytes: spec.raw_slot_bytes,
                    slot_size: if variant.uses_codec_slot {
                        spec.codec_slot_bytes
                    } else {
                        spec.raw_slot_bytes
                    },
                    consumers,
                    target_rate,
                },
            );
        }
        assert(plan@ =~= before + nofrag_variants(
            *spec,
            *selection,
            consumers,
            target_rate,
            taken,
        ));
    }
    assert(all.take(all.len() as int) =~= all);
}

/// Adds the scenarios for a size.
fn push_nofrag_counts(
    plan: &mut Vec<NofragScenario>,
    spec: &PayloadSweepSpec,
    selection: &SweepSelection,
    counts: &Vec<usize>,
)
    requires
        forall|j: int|
            0 <= j < counts@.len() ==> depth_fits(
                spec.buffer_depth as nat,
                #[trigger] counts@[j] as nat,
            ),
    ensures
        final(plan)@ == old(plan)@ + nofrag_counts(*spec, *selection, counts@),
{
    let ghost before = plan@;
    assert(plan@ =~= before + nofrag_counts(*spec, *selection, counts@.take(0)));
    for j in 0..counts.len()
        invariant
            forall|j: int|
                0 <= j < counts@.len() ==> depth_fits(
                    spec.buffer_depth as nat,
                    #[trigger] counts@[j] as nat,
                ),
            plan@ == before + nofrag_counts(*spec, *selection, counts@.take(j as int)),
    {
        let ghost taken = counts@.take(j + 1);
        assert(taken.drop_last() =~= counts@.take(j as int));
        let consumers: usize = counts[j];
        assert(depth_fits(spec.buffer_depth as nat, counts@[j as int] as nat));
        if selection.matches_consumers(consumers) {
            push_nofrag_at_rate(plan, spec, selection, consumers, 0);
            let rate: u64 = selection.co_rate(spec.default_co_rate);
            push_nofrag_at_rate(plan, spec, selection, consumers, rate);
        }
        assert(plan@ =~= before + nofrag_counts(*spec, *selection, taken));
    }
    assert(counts@.take(counts@.len() as int) =~= counts@);
}

/// The scenarios of a sweep that the command line selects.
pub fn plan_nofrag_sweep(
    specs: &Vec<PayloadSweepSpec>,
    selection: &SweepSelection,
    counts: &Vec<usize>,
) -> (r: Vec<NofragScenario>)
    requires
        nofrag_depths_fit(specs@, counts@),
    ensures
        r@ == nofrag_plan(specs@, *selection, counts@),
{
    let mut plan: Vec<NofragScenario> = Vec::new();
    for i in 0..specs.len()
        invariant
            nofrag_depths_fit(specs@, counts@),
            plan@ == nofrag_plan(specs@.take(i as int), *selection, counts@),
    {
        assert(specs@.take(i + 1).drop_last() =~= specs@.take(i as int));
        let spec = &specs[i];
        if selection.matches_size(spec.tag.as_str()) {
            assert forall|j: int| 0 <= j < counts@.len() implies depth_fits(
                spec.buffer_depth as nat,
                #[trigger] counts@[j] as nat,
            ) by {
                assert(depth_fits(specs@[i as int].buffer_depth as nat, counts@[j] as nat));
            }
            push_nofrag_counts(&mut plan, spec, selection, counts);
        }
    }
    assert(specs@.take(specs@.len() as int) =~= specs@);
    plan
}

impl NofragScenario {
    /// The name of the scenario: its layer, transport, size and number of
    /// consumers, and its rate where it has one.
    pub open spec fn name(&self) -> Seq<char> {
        let base = self.layer@ + "_"@ + backend_slug(self.backend) + "_"@ + self.size_tag@ + "_1p"@
            + decimal_text(self.consumers as nat) + "c"@;
        if self.target_rate > 0 {
            base + "_co_"@ + decimal_text(self.target_rate as nat) + "rps"@
        } else {
            base
        }
    }

    /// The name of the scenario.
    fn name_text(&self) -> (r: String)
        ensures
            r@ == self.name(),
    {
        let mut out = self.layer.clone();
        out.append("_");
        out.append(self.backend.slug());
        out.append("_");
        out.append(self.size_tag.as_str());
        out.append("_1p");
        out.append(decimal(self.consumers as u64).as_str());
        out.append("c");
        if self.target_rate > 0 {
            out.append("_co_");
            out.append(decimal(self.target_rate).as_str());
            out.append("rps");
        }
        out
    }

    /// The layer reads messages in place.
    pub open spec fn reads_in_place(&self) -> bool {
        self.layer@ == "rkyv_nofrag"@ || self.layer@ == "flatbuf_nf"@ || self.layer@
            == "flatbuf_nofrag"@
    }

    /// The variables that all children share, but for those that say where
    /// the ring is.
    pub open spec fn settings(&self) -> Seq<(Seq<char>, Seq<char>)> {
        let base = seq![
            ("BENCH_EVENTS"@, decimal_text(self.events as nat)),
            ("BENCH_BUFFER"@, decimal_text(self.buffer as nat)),
            ("BENCH_BATCH_SIZE"@, decimal_text(self.batch as nat)),
            ("BENCH_CONSUMERS"@, decimal_text(self.consumers as nat)),
        ];
        if self.target_rate > 0 {
            base.push(("BENCH_TARGET_RATE"@, decimal_text(self.target_rate as nat)))
        } else {
            base
        }
    }
}

/// The line of a run: its label, transport and mode, the throughput of both
/// sides, and the 99th percentile of the latency.
pub open spec fn nofrag_run_text(
    label: Seq<char>,
    backend: Seq<char>,
    mode: Seq<char>,
    figures: SummaryFigures,
) -> Seq<char> {
    "  "@ + padded_right(label, 12) + " "@ + padded_right(backend, 5) + " "@ + padded_right(
        replaced_all(mode, "co_aware@"@, "CO@"@),
        8,
    ) + " prod="@ + padded_left(figures.producer_ops@, 10) + " cons="@ + padded_left(
        figures.consumer_ops@,
        10,
    ) + " p99="@ + padded_left(p99_of(figures), 8)
}

/// The line of a run.
pub fn nofrag_run_line(label: &str, backend: &str, mode: &str, figures: &SummaryFigures) -> (r:
    String)
    ensures
        r@ == nofrag_run_text(label@, backend@, mode@, *figures),
{
    proof {
        reveal_strlit("co_aware@");
    }
    let short_mode = replace_all(mode, "co_aware@", "CO@");
    let p99 = figures.p99_text();
    let mut out: String = "  ".to_owned();
    out.append(pad_right(label, 12).as_str());
    out.append(" ");
    out.append(pad_right(backend, 5).as_str());
    out.append(" ");
    out.append(pad_right(short_mode.as_str(), 8).as_str());
    out.append(" prod=");
    out.append(pad_left(figures.producer_ops.as_str(), 10).as_str());
    out.append(" cons=");
    out.append(pad_left(figures.consumer_ops.as_str(), 10).as_str());
    out.append(" p99=");
    out.append(pad_left(p99.as_str(), 8).as_str());
    out
}

impl IpcBenchmark for NofragScenario {
    open spec fn facts(&self) -> BenchFacts {
        BenchFacts {
            bench_name: "nofrag_all"@,
            scenario_name: self.name(),
            label: self.name(),
            backend: backend_slug(self.backend),
            layer: self.layer@,
            transport: match self.backend {
                SweepBackend::Shm => shm_transport(
                    self.consumers as nat,
                    self.reads_in_place(),
                    "none"@,
                ),
                SweepBackend::Mmap => mmap_transport(self.reads_in_place(), "none"@),
            },
            codec: None,
            measurement_mode: rate_mode(self.target_rate as nat),
            wait_strategy: "BusySpin"@,
            message_size_bytes: self.slot_size as nat,
            payload_bytes: self.payload_bytes as nat,
            buffer_depth: self.buffer as nat,
            num_messages: self.events as nat,
            warmup_messages: 0,
            num_consumers: self.consumers as nat,
            timeout_secs: 300,
            throughput_unit: "ops/s"@,
            summary_label: summary_label_of(self.consumers as nat),
            latency_rule: LatencyRule::WorstP99,
            segment_prefix: "nfa_"@ + self.layer@,
            root_prefix: match self.backend {
                SweepBackend::Shm => None,
                SweepBackend::Mmap => Some("nfa_mmap_"@ + self.layer@),
            },
        }
    }

    open spec fn launch_facts(&self, place: LaunchPlace) -> LaunchFacts {
        group_facts(
            self.producer_role@,
            self.consumer_role@,
            self.consumers as nat,
            "BENCH_CONSUMER_ID"@,
            match self.backend {
                SweepBackend::Shm => self.settings().push(("BENCH_SEGMENT"@, place.segment@)),
                SweepBackend::Mmap => self.settings().push(("BENCH_ROOT"@, place.root@)).push(
                    ("BENCH_SEGMENT"@, place.segment@),
                ),
            },
            match self.backend {
                SweepBackend::Shm => None,
                SweepBackend::Mmap => Some(place.root@),
            },
        )
    }

    open spec fn summary(&self, figures: SummaryFigures) -> Option<Seq<char>> {
        None
    }

    open spec fn runnable(&self) -> bool {
        true
    }

    fn bench_name(&self) -> (r: &str) {
        "nofrag_all"
    }

    fn scenario_name(&self) -> (r: String) {
        self.name_text()
    }

    fn label(&self) -> (r: String) {
        self.name_text()
    }

    fn backend(&self) -> (r: &str) {
        self.backend.slug()
    }

    fn layer(&self) -> (r: &str) {
        self.layer.as_str()
    }

    fn transport_metadata(&self) -> (r: BenchTransportSpec) {
        let layer = self.layer.as_str();
        let in_place = same_text(layer, "rkyv_nofrag") || same_text(layer, "flatbuf_nf") || same_text(
            layer,
            "flatbuf_nofrag",
        );
        let base = match self.backend {
            SweepBackend::Shm => BenchTransportSpec::benchmark_shm(self.consumers),
            SweepBackend::Mmap => BenchTransportSpec::mmap_builtin(),
        };
        base.with_zero_copy(in_place).with_framing("none")
    }

    fn codec(&self) -> (r: Option<&str>) {
        None
    }

    fn measurement_mode(&self) -> (r: String) {
        rate_mode_name(self.target_rate)
    }

    fn wait_strategy(&self) -> (r: &str) {
        "BusySpin"
    }

    fn message_size_bytes(&self) -> (r: usize) {
        self.slot_size
    }

    fn payload_bytes(&self) -> (r: usize) {
        self.payload_bytes
    }

    fn buffer_depth(&self) -> (r: usize) {
        self.buffer
    }

    fn num_messages(&self) -> (r: u64) {
        self.events
    }

    fn warmup_messages(&self) -> (r: u64) {
        0
    }

    fn num_consumers(&self) -> (r: usize) {
        self.consumers
    }

    fn timeout(&self) -> (r: u64) {
        300
    }

    fn throughput_unit(&self) -> (r: &str) {
        "ops/s"
    }

    fn consumer_summary_label(&self) -> (r: &str) {
        summary_label(self.consumers)
    }

    fn latency_rule(&self) -> (r: LatencyRule) {
        LatencyRule::WorstP99
    }

    fn segment_prefix(&self) -> (r: String) {
        let mut out: String = "nfa_".to_owned();
        out.append(self.layer.as_str());
        out
    }

    fn root_prefix(&self) -> (r: Option<String>) {
        match self.backend {
            SweepBackend::Shm => None,
            SweepBackend::Mmap => {
                let mut out: String = "nfa_mmap_".to_owned();
                out.append(self.layer.as_str());
                Some(out)
            },
        }
    }

    fn summary_line(&self, figures: &SummaryFigures) -> (r: Option<String>) {
        None
    }

    fn launch(&self, place: &LaunchPlace) -> (r: LaunchPlan) {
        let mut envs: Vec<EnvVar> = Vec::new();
        assert(env_views(envs@) =~= Seq::empty());
        push_number(&mut envs, "BENCH_EVENTS", self.events);
        push_number(&mut envs, "BENCH_BUFFER", self.buffer as u64);
        push_number(&mut envs, "BENCH_BATCH_SIZE", self.batch as u64);
        push_number(&mut envs, "BENCH_CONSUMERS", self.consumers as u64);
        if self.target_rate > 0 {
            push_number(&mut envs, "BENCH_TARGET_RATE", self.target_rate);
        }
        assert(env_views(envs@) =~= self.settings());
        let spawn = MultiConsumerSpawn {
            producer_role: self.producer_role.clone(),
            consumer_role: self.consumer_role.clone(),
            consumers: self.consumers,
            consumer_id_env: "BENCH_CONSUMER_ID".to_owned(),
            base_envs: envs,
        };
        match self.backend {
            SweepBackend::Shm => launch_shm_group(place.segment.as_str(), "BENCH_SEGMENT", spawn),
            SweepBackend::Mmap => launch_mmap_group(
                place.root.as_str(),
                place.segment.as_str(),
                "BENCH_ROOT",
                "BENCH_SEGMENT",
                spawn,
            ),
        }
    }
}

/// What the scenarios of the variants are.
proof fn lemma_nofrag_variants(
    spec: PayloadSweepSpec,
    selection: SweepSelection,
    consumers: usize,
    target_rate: u64,
    variants: Seq<NofragVariant>,
    s: NofragScenario,
)
    ensures
        nofrag_variants(spec, selection, consumers, target_rate, variants).contains(s)
            <==> exists|v: int|
            0 <= v < variants.len() && selects(selection.layer@, (#[trigger] variants[v]).layer@)
                && selects(selection.backend@, backend_slug(variants[v].backend)) && s
                == nofrag_scenario(spec, selection, variants[v], consumers, target_rate),
    decreases variants.len(),
{
    if variants.len() > 0 {
        let earlier = variants.drop_last();
        let last = variants.len() - 1;
        let before = nofrag_variants(spec, selection, consumers, target_rate, earlier);
        let here = nofrag_scenario(spec, selection, variants.last(), consumers, target_rate);
        lemma_nofrag_variants(spec, selection, consumers, target_rate, earlier, s);
        vstd::seq_lib::lemma_seq_contains_after_push(before, here, s);
        vstd::seq_lib::lemma_seq_contains_after_push(before, here, here);
        assert(variants[last] == variants.last());
        if before.contains(s) {
            let v = choose|v: int|
                0 <= v < earlier.len() && selects(selection.layer@, (#[trigger] earlier[v]).layer@)
                    && selects(selection.backend@, backend_slug(earlier[v].backend)) && s
                    == nofrag_scenario(spec, selection, earlier[v], consumers, target_rate);
            assert(variants[v] == earlier[v]);
        }
        if exists|v: int|
            0 <= v < variants.len() && selects(selection.layer@, (#[trigger] variants[v]).layer@)
                && selects(selection.backend@, backend_slug(variants[v].backend)) && s
                == nofrag_scenario(spec, selection, variants[v], consumers, target_rate) {
            let v = choose|v: int|
                0 <= v < variants.len() && selects(
                    selection.layer@,
                    (#[trigger] variants[v]).layer@,
                ) && selects(selection.backend@, backend_slug(variants[v].backend)) && s
                    == nofrag_scenario(spec, selection, variants[v], consumers, target_rate);
            if v < last {
                assert(earlier[v] == variants[v]);
            }
        }
    }
}

/// `scenario` is one of the size `spec` in the variant: it has the variant's
/// layer, transport and roles, the size's load, the slot that the variant uses,
/// and a buffer for its consumers.
pub open spec fn is_nofrag_scenario_of(
    spec: PayloadSweepSpec,
    selection: SweepSelection,
    variant: NofragVariant,
    scenario: NofragScenario,
) -> bool {
    &&& scenario.layer == variant.layer
    &&& scenario.backend == variant.backend
    &&& scenario.producer_role == variant.producer_role
    &&& scenario.consumer_role == variant.consumer_role
    &&& selection.num_messages is Some ==> scenario.events == selection.num_messages->0
    &&& selection.num_messages is None ==> scenario.events == spec.events
    &&& scenario.buffer == scaled_depth(
        spec.buffer_depth as nat,
        scenario.consumers as nat,
    ) as usize
    &&& scenario.batch == spec.batch_size
    &&& scenario.size_tag == spec.tag
    &&& scenario.payload_bytes == spec.raw_slot_bytes
    &&& variant.uses_codec_slot ==> scenario.slot_size == spec.codec_slot_bytes
    &&& !variant.uses_codec_slot ==> scenario.slot_size == spec.raw_slot_bytes
}

/// The command line selects the scenario as one of the size `spec`, in one of the
/// size's variants and at one of its speeds.
pub open spec fn selects_nofrag(
    spec: PayloadSweepSpec,
    selection: SweepSelection,
    s: NofragScenario,
) -> bool {
    &&& selection.wants(s.target_rate)
    &&& s.target_rate == 0 || s.target_rate == selection.rate_or(spec.default_co_rate)
    &&& exists|v: int|
        0 <= v < spec.variants@.len() && selects(
            selection.layer@,
            (#[trigger] spec.variants@[v]).layer@,
        ) && selects(selection.backend@, backend_slug(s.backend)) && is_nofrag_scenario_of(
            spec,
            selection,
            spec.variants@[v],
            s,
        )
}

/// What the scenarios at a rate are.
proof fn lemma_nofrag_at_rate(
    spec: PayloadSweepSpec,
    selection: SweepSelection,
    consumers: usize,
    target_rate: u64,
    s: NofragScenario,
)
    requires
        target_rate == 0 || target_rate == selection.rate_or(spec.default_co_rate),
    ensures
        nofrag_at_rate(spec, selection, consumers, target_rate).contains(s) <==> s.consumers
            == consumers && s.target_rate == target_rate && selects_nofrag(spec, selection, s),
{
    lemma_nofrag_variants(spec, selection, consumers, target_rate, spec.variants@, s);
    let all = spec.variants@;
    if nofrag_at_rate(spec, selection, consumers, target_rate).contains(s) {
        let v = choose|v: int|
            0 <= v < all.len() && selects(selection.layer@, (#[trigger] all[v]).layer@) && selects(
                selection.backend@,
                backend_slug(all[v].backend),
            ) && s == nofrag_scenario(spec, selection, all[v], consumers, target_rate);
        assert(is_nofrag_scenario_of(spec, selection, all[v], s));
    }
    if s.consumers == consumers && s.target_rate == target_rate && selects_nofrag(
        spec,
        selection,
        s,
    ) {
        let v = choose|v: int|
            0 <= v < all.len() && selects(selection.layer@, (#[trigger] all[v]).layer@) && selects(
                selection.backend@,
                backend_slug(s.backend),
            ) && is_nofrag_scenario_of(spec, selection, all[v], s);
        assert(s == nofrag_scenario(spec, selection, all[v], consumers, target_rate));
    }
}

/// What the scenarios of the numbers of consumers are.
proof fn lemma_nofrag_counts(
    spec: PayloadSweepSpec,
    selection: SweepSelection,
    counts: Seq<usize>,
    s: NofragScenario,
)
    ensures
        nofrag_counts(spec, selection, counts).contains(s) <==> counts.contains(s.consumers)
            && selects_number(selection.consumers@, s.consumers as nat) && selects_nofrag(
            spec,
            selection,
            s,
        ),
    decreases counts.len(),
{
    if counts.len() > 0 {
        let earlier = counts.drop_last();
        let rate = selection.rate_or(spec.default_co_rate);
        let before = nofrag_counts(spec, selection, earlier);
        let full = nofrag_at_rate(spec, selection, counts.last(), 0);
        let paced = nofrag_at_rate(spec, selection, counts.last(), rate);
        lemma_nofrag_counts(spec, selection, earlier, s);
        lemma_nofrag_at_rate(spec, selection, counts.last(), 0, s);
        lemma_nofrag_at_rate(spec, selection, counts.last(), rate, s);
        vstd::seq_lib::lemma_seq_concat_contains_all_elements(before, full, s);
        vstd::seq_lib::lemma_seq_concat_contains_all_elements(before + full, paced, s);
        assert(counts =~= earlier.push(counts.last()));
        vstd::seq_lib::lemma_seq_contains_after_push(earlier, counts.last(), s.consumers);
    }
}

/// A scenario is planned exactly where the command line selects it: its size, its
/// number of consumers, its variant's layer and transport, and its speed, which
/// is full speed or the one rate of the size.
pub proof fn law_nofrag_plan_is_what_is_selected(
    specs: Seq<PayloadSweepSpec>,
    selection: SweepSelection,
    counts: Seq<usize>,
    s: NofragScenario,
)
    ensures
        nofrag_plan(specs, selection, counts).contains(s) <==> {
            &&& counts.contains(s.consumers)
            &&& selects_number(selection.consumers@, s.consumers as nat)
            &&& exists|k: int|
                0 <= k < specs.len() && selects(selection.size@, (#[trigger] specs[k]).tag@)
                    && selects_nofrag(specs[k], selection, s)
        },
    decreases specs.len(),
{
    if specs.len() > 0 {
        let earlier = specs.drop_last();
        let last = specs.len() - 1;
        let before = nofrag_plan(earlier, selection, counts);
        let here = nofrag_counts(specs.last(), selection, counts);
        law_nofrag_plan_is_what_is_selected(earlier, selection, counts, s);
        lemma_nofrag_counts(specs.last(), selection, counts, s);
        vstd::seq_lib::lemma_seq_concat_contains_all_elements(before, here, s);
        assert(specs[last] == specs.last());
        if before.contains(s) {
            let k = choose|k: int|
                0 <= k < earlier.len() && selects(selection.size@, (#[trigger] earlier[k]).tag@)
                    && selects_nofrag(earlier[k], selection, s);
            assert(specs[k] == earlier[k]);
        }
        if exists|k: int|
            0 <= k < specs.len() && selects(selection.size@, (#[trigger] specs[k]).tag@)
                && selects_nofrag(specs[k], selection, s) {
            let k = choose|k: int|
                0 <= k < specs.len() && selects(selection.size@, (#[trigger] specs[k]).tag@)
                    && selects_nofrag(specs[k], selection, s);
            if k < last {
                assert(earlier[k] == specs[k]);
            }
        }
    }
}

/// A scenario of right-sized slots says of itself what it is made of: its slot is
/// its message, and the raw slot its payload.
pub proof fn law_nofrag_scenario_says_what_it_is(s: NofragScenario)
    ensures
        s.facts().bench_name == "nofrag_all"@,
        s.facts().layer == s.layer@,
        s.backend == SweepBackend::Shm ==> s.facts().backend == "shm"@
            && s.facts().transport.coordination == Some("BenchmarkCoordination"@),
        s.backend == SweepBackend::Mmap ==> s.facts().backend == "mmap"@
            && s.facts().transport.coordination == Some("mmap_builtin"@),
        s.facts().transport.framing == Some("none"@),
        s.facts().codec is None,
        s.target_rate == 0 ==> s.facts().measurement_mode == "max_throughput"@,
        s.target_rate > 0 ==> s.facts().measurement_mode == "co_aware@"@ + decimal_text(
            s.target_rate as nat,
        ),
        s.facts().wait_strategy == "BusySpin"@,
        s.facts().message_size_bytes == s.slot_size,
        s.facts().payload_bytes == s.payload_bytes,
        s.facts().buffer_depth == s.buffer,
        s.facts().num_messages == s.events,
        s.facts().warmup_messages == 0,
        s.facts().num_consumers == s.consumers,
        s.facts().timeout_secs == 300,
        s.facts().latency_rule == LatencyRule::WorstP99,
{
}

} // verus!
