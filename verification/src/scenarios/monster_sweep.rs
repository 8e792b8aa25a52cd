//! Monster sweep scenarios: payloads from a touch to a megabyte, for one or
//! many consumers.
use vstd::prelude::*;
use crate::bench::{
    rate_mode, rate_mode_name, shm_transport, summary_label, summary_label_of, BenchFacts,
    IpcBenchmark, LatencyRule,
};
use crate::decimal::{decimal, decimal_text, decimal_wide};
use crate::launch::{
    env_views, extend_envs, numbered_consumers, numbered_envs, push_env, push_number, ChildSpawn,
    EnvVar, LaunchFacts, LaunchPlace, LaunchPlan,
};
use crate::reporting::BenchTransportSpec;
use crate::scenarios::selection::{selects, SweepSelection};
use crate::summary::{latency_or_dash, SummaryFigures};
use crate::text::{
    contains_text, lemma_labelled, lemma_whole_prefix, pad_left, pad_right, padded_left,
    padded_right,
};

verus! {

/// What a point of the sweep is made from.
#[derive(Clone, Debug)]
pub struct MonsterSweepSpec {
    pub label: String,
    pub size_bytes: usize,
    pub events: u64,
    pub buffer: usize,
    pub consumers: usize,
    pub target_rate: u64,
    pub producer_role: String,
    pub consumer_role: String,
    pub tag: String,
}

/// A point of the sweep. A target rate of zero means full speed.
#[derive(Clone, Debug)]
pub struct SweepPoint {
    pub label: String,
    pub size_bytes: usize,
    pub events: u64,
    pub buffer: usize,
    pub consumers: usize,
    pub target_rate: u64,
    pub producer_role: String,
    pub consumer_role: String,
    pub tag: String,
}

/// The point that a specification asks for, with as many events as the command
/// line asks for, where it does.
pub open spec fn point_of(spec: MonsterSweepSpec, num_messages: Option<u64>) -> SweepPoint {
    SweepPoint {
        label: spec.label,
        size_bytes: spec.size_bytes,
        events: match num_messages {
            Some(n) => n,
            None => spec.events,
        },
        buffer: spec.buffer,
        consumers: spec.consumers,
        target_rate: spec.target_rate,
        producer_role: spec.producer_role,
        consumer_role: spec.consumer_role,
        tag: spec.tag,
    }
}

/// The points of the sweep whose size and rate the command line selects, in
/// order.
pub open spec fn monster_plan(
    specs: Seq<MonsterSweepSpec>,
    selection: SweepSelection,
) -> Seq<SweepPoint>
    decreases specs.len(),
{
    if specs.len() == 0 {
        Seq::empty()
    } else {
        let earlier = monster_plan(specs.drop_last(), selection);
        let spec = specs.last();
        if selects(selection.size@, spec.tag@) && selection.wants(spec.target_rate) {
            earlier.push(point_of(spec, selection.num_messages))
        } else {
            earlier
        }
    }
}

/// The points of the sweep that the command line selects.
pub fn plan_monster_sweep(specs: &Vec<MonsterSweepSpec>, selection: &SweepSelection) -> (r: Vec<
    SweepPoint,
>)
    ensures
        r@ == monster_plan(specs@, *selection),
{
    let mut plan: Vec<SweepPoint> = Vec::new();
    for i in 0..specs.len()
        invariant
            plan@ == monster_plan(specs@.take(i as int), *selection),
    {
        assert(specs@.take(i + 1).drop_last() =~= specs@.take(i as int));
        let spec = &specs[i];
        if selection.matches_size(spec.tag.as_str()) && selection.selects_rate(spec.target_rate) {
            plan.push(SweepPoint::from_spec(spec, selection.num_messages));
        }
    }
    assert(specs@.take(specs@.len() as int) =~= specs@);
    plan
}

/// Every planned point is a selected one of the sweep.
pub proof fn law_planned_points_are_selected(
    specs: Seq<MonsterSweepSpec>,
    selection: SweepSelection,
    i: int,
)
    requires
        0 <= i < monster_plan(specs, selection).len(),
    ensures
        exists|k: int|
            0 <= k < specs.len() && monster_plan(specs, selection)[i] == point_of(
                #[trigger] specs[k],
                selection.num_messages,
            ) && selects(selection.size@, specs[k].tag@) && selection.wants(specs[k].target_rate),
    decreases specs.len(),
{
    let earlier = specs.drop_last();
    if i < monster_plan(earlier, selection).len() {
        law_planned_points_are_selected(earlier, selection, i);
        let k = choose|k: int|
            0 <= k < earlier.len() && monster_plan(earlier, selection)[i] == point_of(
                #[trigger] earlier[k],
                selection.num_messages,
            ) && selects(selection.size@, earlier[k].tag@) && selection.wants(
                earlier[k].target_rate,
            );
        assert(specs[k] == earlier[k]);
    } else {
        assert(specs[specs.len() - 1] == specs.last());
    }
}

impl SweepPoint {
    /// The point that a specification asks for, with as many events as the
    /// command line asks for, where it does.
    pub fn from_spec(spec: &MonsterSweepSpec, num_messages: Option<u64>) -> (r: SweepPoint)
        ensures
            r == point_of(*spec, num_messages),
    {
        SweepPoint {
            label: spec.label.clone(),
            size_bytes: spec.size_bytes,
            events: match num_messages {
                Some(n) => n,
                None => spec.events,
            },
            buffer: spec.buffer,
            consumers: spec.consumers,
            target_rate: spec.target_rate,
            producer_role: spec.producer_role.clone(),
            consumer_role: spec.consumer_role.clone(),
            tag: spec.tag.clone(),
        }
    }

    /// The variables that all children share.
    pub open spec fn settings(&self, segment: Seq<char>) -> Seq<(Seq<char>, Seq<char>)> {
        seq![
            ("SWEEP_SEGMENT"@, segment),
            ("SWEEP_BUFFER"@, decimal_text(self.buffer as nat)),
            ("SWEEP_EVENTS"@, decimal_text(self.events as nat)),
            ("SWEEP_CONSUMERS"@, decimal_text(self.consumers as nat)),
        ]
    }

    /// The variable of the target rate, where there is one.
    pub open spec fn rate_setting(&self) -> Seq<(Seq<char>, Seq<char>)> {
        if self.target_rate > 0 {
            seq![("SWEEP_TARGET_RATE"@, decimal_text(self.target_rate as nat))]
        } else {
            Seq::empty()
        }
    }

    /// The memory that the ring takes, in whole mebibytes.
    pub fn ring_mb(&self) -> (r: u128)
        ensures
            r == self.size_bytes * self.buffer / 1_048_576,
    {
        let size: u128 = self.size_bytes as u128;
        let buffer: u128 = self.buffer as u128;
        assert(size * buffer <= 0xffff_ffff_ffff_ffff * 0xffff_ffff_ffff_ffff) by (nonlinear_arith)
            requires
                size <= 0xffff_ffff_ffff_ffff,
                buffer <= 0xffff_ffff_ffff_ffff,
        ;
        size * buffer / 1_048_576
    }

    /// The mode in short form.
    pub open spec fn short_mode(&self) -> Seq<char> {
        if self.target_rate > 0 {
            "CO@"@ + decimal_text(self.target_rate as nat / 1000) + "K"@
        } else {
            "tput"@
        }
    }

    /// The mode in short form.
    pub fn mode_label(&self) -> (r: String)
        ensures
            r@ == self.short_mode(),
    {
        if self.target_rate > 0 {
            let mut out: String = "CO@".to_owned();
            out.append(decimal(self.target_rate / 1000).as_str());
            out.append("K");
            out
        } else {
            "tput".to_owned()
        }
    }
}

impl IpcBenchmark for SweepPoint {
    open spec fn facts(&self) -> BenchFacts {
        BenchFacts {
            bench_name: "monster_sweep_shm"@,
            scenario_name: "sweep_"@ + self.tag@ + "_"@ + decimal_text(self.consumers as nat),
            label: self.label@,
            backend: "shm"@,
            layer: "raw_ring"@,
            transport: shm_transport(self.consumers as nat, false, "none"@),
            codec: None,
            measurement_mode: rate_mode(self.target_rate as nat),
            wait_strategy: "BusySpin"@,
            message_size_bytes: self.size_bytes as nat,
            payload_bytes: self.size_bytes as nat,
            buffer_depth: self.buffer as nat,
            num_messages: self.events as nat,
            warmup_messages: self.events as nat / 100,
            num_consumers: self.consumers as nat,
            timeout_secs: 300,
            throughput_unit: "ops/s"@,
            summary_label: summary_label_of(self.consumers as nat),
            latency_rule: LatencyRule::WorstP99,
            segment_prefix: "sw_"@ + self.tag@,
            root_prefix: None,
        }
    }

    open spec fn launch_facts(&self, place: LaunchPlace) -> LaunchFacts {
        LaunchFacts {
            producer_role: self.producer_role@,
            producer_envs: self.settings(place.segment@) + self.rate_setting(),
            consumer_role: self.consumer_role@,
            consumer_envs: numbered_envs(
                self.settings(place.segment@),
                "BENCH_CONSUMER_ID"@,
                self.rate_setting(),
                self.consumers as nat,
            ),
            cleanup_path: None,
        }
    }

    open spec fn summary(&self, figures: SummaryFigures) -> Option<Seq<char>> {
        Some(
            "  "@
                + padded_right(self.label@, 12)
                + " "@
                + padded_left(self.short_mode(), 5)
                + " 1p"@
                + padded_right(decimal_text(self.consumers as nat), 2)
                + "c  ring="@
                + padded_left(
                    decimal_text(self.size_bytes as nat * self.buffer as nat / 1_048_576),
                    5,
                )
                + "MB  "@
                + padded_left(decimal_text(self.events as nat), 8)
                + " events  prod: "@
                + padded_left(figures.producer_ops@, 10)
                + "  "@
                + if self.consumers == 1 {
                    "cons"@
                } else {
                    "avg_c"@
                }
                + ": "@
                + padded_left(figures.consumer_ops@, 10)
                + "  "@
                + padded_left(figures.bandwidth_gbs@, 6)
                + " GB/s  "@
                + latency_or_dash(figures),
        )
    }

    open spec fn runnable(&self) -> bool {
        true
    }

    fn bench_name(&self) -> (r: &str) {
        "monster_sweep_shm"
    }

    fn scenario_name(&self) -> (r: String) {
        let mut out: String = "sweep_".to_owned();
        out.append(self.tag.as_str());
        out.append("_");
        out.append(decimal(self.consumers as u64).as_str());
        out
    }

    fn label(&self) -> (r: String) {
        self.label.clone()
    }

    fn backend(&self) -> (r: &str) {
        "shm"
    }

    fn layer(&self) -> (r: &str) {
        "raw_ring"
    }

    fn transport_metadata(&self) -> (r: BenchTransportSpec) {
        BenchTransportSpec::benchmark_shm(self.consumers).with_zero_copy(false).with_framing("none")
    }

    fn codec(&self) -> (r: Option<&str>) {
        None
    }

    fn measurement_mode(&self) -> (r: String) {
        rate_mode_name(self.target_rate)
    }

    fn wait_strategy(&self) -> (r: &str) {
        "BusySpin"
    }

    fn message_size_bytes(&self) -> (r: usize) {
        self.size_bytes
    }

    fn payload_bytes(&self) -> (r: usize) {
        self.size_bytes
    }

    fn buffer_depth(&self) -> (r: usize) {
        self.buffer
    }

    fn num_messages(&self) -> (r: u64) {
        self.events
    }

    fn warmup_messages(&self) -> (r: u64) {
        self.events / 100
    }

    fn num_consumers(&self) -> (r: usize) {
        self.consumers
    }

    fn timeout(&self) -> (r: u64) {
        300
    }

    fn throughput_unit(&self) -> (r: &str) {
        "ops/s"
    }

    fn consumer_summary_label(&self) -> (r: &str) {
        summary_label(self.consumers)
    }

    fn latency_rule(&self) -> (r: LatencyRule) {
        LatencyRule::WorstP99
    }

    fn segment_prefix(&self) -> (r: String) {
        let mut out: String = "sw_".to_owned();
        out.append(self.tag.as_str());
        out
    }

    fn root_prefix(&self) -> (r: Option<String>) {
        None
    }

    fn summary_line(&self, figures: &SummaryFigures) -> (r: Option<String>) {
        let mode = self.mode_label();
        let ring = decimal_wide(self.ring_mb());
        let latency = figures.latency_text();
        let mut out: String = "  ".to_owned();
        out.append(pad_right(self.label.as_str(), 12).as_str());
        out.append(" ");
        out.append(pad_left(mode.as_str(), 5).as_str());
        out.append(" 1p");
        out.append(pad_right(decimal(self.consumers as u64).as_str(), 2).as_str());
        out.append("c  ring=");
        out.append(pad_left(ring.as_str(), 5).as_str());
        out.append("MB  ");
        out.append(pad_left(decimal(self.events).as_str(), 8).as_str());
        out.append(" events  prod: ");
        out.append(pad_left(figures.producer_ops.as_str(), 10).as_str());
        out.append("  ");
        out.append(if self.consumers == 1 { "cons" } else { "avg_c" });
        out.append(": ");
        out.append(pad_left(figures.consumer_ops.as_str(), 10).as_str());
        out.append("  ");
        out.append(pad_left(figures.bandwidth_gbs.as_str(), 6).as_str());
        out.append(" GB/s  ");
        out.append(latency.as_str());
        Some(out)
    }

    fn launch(&self, place: &LaunchPlace) -> (r: LaunchPlan) {
        let mut shared: Vec<EnvVar> = Vec::new();
        assert(env_views(shared@) =~= Seq::empty());
        push_env(&mut shared, "SWEEP_SEGMENT", place.segment.clone());
        push_number(&mut shared, "SWEEP_BUFFER", self.buffer as u64);
        push_number(&mut shared, "SWEEP_EVENTS", self.events);
        push_number(&mut shared, "SWEEP_CONSUMERS", self.consumers as u64);
        assert(env_views(shared@) =~= self.settings(place.segment@));
        let mut tail: Vec<EnvVar> = Vec::new();
        assert(env_views(tail@) =~= Seq::empty());
        if self.target_rate > 0 {
            push_number(&mut tail, "SWEEP_TARGET_RATE", self.target_rate);
        }
        assert(env_views(tail@) =~= self.rate_setting());
        let consumers = numbered_consumers(
            self.consumer_role.as_str(),
            &shared,
            "BENCH_CONSUMER_ID",
            &tail,
            self.consumers,
        );
        let mut envs = shared;
        extend_envs(&mut envs, &tail);
        LaunchPlan {
            producer: ChildSpawn { role: self.producer_role.clone(), envs },
            consumers,
            cleanup_path: None,
        }
    }
}

/// Every selected point of the sweep is planned, with the number of messages of
/// the command line where it states one, and everything else as specified.
pub proof fn law_selected_points_are_planned(
    specs: Seq<MonsterSweepSpec>,
    selection: SweepSelection,
    k: int,
) -> (i: int)
    requires
        0 <= k < specs.len(),
        selects(selection.size@, specs[k].tag@),
        selection.wants(specs[k].target_rate),
    ensures
        0 <= i < monster_plan(specs, selection).len(),
        ({
            let point = monster_plan(specs, selection)[i];
            &&& point.label == specs[k].label
            &&& point.size_bytes == specs[k].size_bytes
            &&& selection.num_messages is Some ==> point.events == selection.num_messages->0
            &&& selection.num_messages is None ==> point.events == specs[k].events
            &&& point.buffer == specs[k].buffer
            &&& point.consumers == specs[k].consumers
            &&& point.target_rate == specs[k].target_rate
            &&& point.producer_role == specs[k].producer_role
            &&& point.consumer_role == specs[k].consumer_role
            &&& point.tag == specs[k].tag
        }),
    decreases specs.len(),
{
    let earlier = specs.drop_last();
    if k < specs.len() - 1 {
        assert(earlier[k] == specs[k]);
        let i = law_selected_points_are_planned(earlier, selection, k);
        assert(monster_plan(specs, selection)[i] == monster_plan(earlier, selection)[i]);
        i
    } else {
        monster_plan(earlier, selection).len() as int
    }
}

/// Two sweeps one after the other plan what the whole plans: points keep their
/// order, and none is planned twice.
pub proof fn law_plans_join_up(
    a: Seq<MonsterSweepSpec>,
    b: Seq<MonsterSweepSpec>,
    selection: SweepSelection,
)
    ensures
        monster_plan(a + b, selection) == monster_plan(a, selection) + monster_plan(b, selection),
    decreases b.len(),
{
    if b.len() == 0 {
        assert(a + b =~= a);
        assert(monster_plan(a, selection) + monster_plan(b, selection) =~= monster_plan(
            a,
            selection,
        ));
    } else {
        assert((a + b).drop_last() =~= a + b.drop_last());
        law_plans_join_up(a, b.drop_last(), selection);
        assert(monster_plan(a + b, selection) =~= monster_plan(a, selection) + monster_plan(
            b,
            selection,
        ));
    }
}

/// A point of the sweep says of itself what it is made of: its size is its
/// message and its payload, it warms up with a hundredth of its events, and its
/// name tells its size and its consumers.
pub proof fn law_point_says_what_it_is(point: SweepPoint)
    ensures
        point.facts().message_size_bytes == point.size_bytes,
        point.facts().payload_bytes == point.size_bytes,
        point.facts().buffer_depth == point.buffer,
        point.facts().num_messages == point.events,
        100 * point.facts().warmup_messages <= point.events < 100 * (point.facts().warmup_messages
            + 1),
        point.facts().num_consumers == point.consumers,
        point.facts().scenario_name == "sweep_"@ + point.tag@ + "_"@ + decimal_text(
            point.consumers as nat,
        ),
        point.facts().bench_name == "monster_sweep_shm"@,
        point.facts().backend == "shm"@,
        point.facts().layer == "raw_ring"@,
        point.facts().codec is None,
        point.target_rate == 0 ==> point.facts().measurement_mode == "max_throughput"@,
        point.target_rate > 0 ==> point.facts().measurement_mode == "co_aware@"@ + decimal_text(
            point.target_rate as nat,
        ),
        point.facts().wait_strategy == "BusySpin"@,
        point.facts().latency_rule == LatencyRule::WorstP99,
        point.facts().timeout_secs == 300,
        point.facts().transport.zero_copy == Some(false),
        point.facts().transport.framing == Some("none"@),
{
}

/// The line of a point gives the memory of its ring, its events, each side's
/// throughput and its bandwidth behind their own labels.
pub proof fn law_point_line_labels_its_figures(s: SweepPoint, figures: SummaryFigures)
    ensures
        s.summary(figures) is Some,
        contains_text(
            s.summary(figures)->0,
            "c  ring="@ + padded_left(
                decimal_text(s.size_bytes as nat * s.buffer as nat / 1_048_576),
                5,
            ),
        ),
        contains_text(s.summary(figures)->0, "MB  "@ + padded_left(decimal_text(s.events as nat), 8)),
        contains_text(
            s.summary(figures)->0,
            " events  prod: "@ + padded_left(figures.producer_ops@, 10),
        ),
        contains_text(s.summary(figures)->0, ": "@ + padded_left(figures.consumer_ops@, 10)),
        contains_text(s.summary(figures)->0, "  "@ + padded_left(figures.bandwidth_gbs@, 6)),
        contains_text(s.summary(figures)->0, " GB/s  "@ + latency_or_dash(figures)),
{
    let whole = s.summary(figures)->0;
    let ring = padded_left(decimal_text(s.size_bytes as nat * s.buffer as nat / 1_048_576), 5);
    let side = if s.consumers == 1 {
        "cons"@
    } else {
        "avg_c"@
    };
    let a = "  "@ + padded_right(s.label@, 12) + " "@ + padded_left(s.short_mode(), 5) + " 1p"@
        + padded_right(decimal_text(s.consumers as nat), 2);
    let b = a + "c  ring="@ + ring;
    let c = b + "MB  "@ + padded_left(decimal_text(s.events as nat), 8);
    let d = c + " events  prod: "@ + padded_left(figures.producer_ops@, 10);
    let e = d + "  "@ + side;
    let f = e + ": "@ + padded_left(figures.consumer_ops@, 10);
    let g = f + "  "@ + padded_left(figures.bandwidth_gbs@, 6);
    lemma_whole_prefix(whole);
    lemma_labelled(whole, g, " GB/s  "@, latency_or_dash(figures));
    lemma_labelled(whole, f, "  "@, padded_left(figures.bandwidth_gbs@, 6));
    lemma_labelled(whole, e, ": "@, padded_left(figures.consumer_ops@, 10));
    lemma_labelled(whole, d, "  "@, side);
    lemma_labelled(whole, c, " events  prod: "@, padded_left(figures.producer_ops@, 10));
    lemma_labelled(whole, b, "MB  "@, padded_left(decimal_text(s.events as nat), 8));
    lemma_labelled(whole, a, "c  ring="@, ring);
}

} // verus!
