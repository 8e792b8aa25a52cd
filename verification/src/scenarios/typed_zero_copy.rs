//! Typed zero-copy sweep scenarios: framed messages read in place, over both
//! transports.
use vstd::prelude::*;
use crate::bench::{
    mmap_transport, shm_transport, summary_label, summary_label_of, BenchFacts, IpcBenchmark,
    LatencyRule,
};
use crate::decimal::{decimal, decimal_text};
use crate::launch::{
    env_views, group_facts, launch_mmap_group, launch_shm_group, push_env, push_number, EnvVar,
    LaunchFacts, LaunchPlace, LaunchPlan, MultiConsumerSpawn,
};
use crate::metric::Metric;
use crate::reporting::{BenchResult, BenchResults, BenchTransportSpec};
use crate::scenarios::selection::{
    backend_slug, matches_value, selects, selects_number, SweepBackend, SweepSelection,
};
use crate::sizing::{depth_fits, scaled_buffer, scaled_depth};
use crate::summary::SummaryFigures;
use crate::text::{
    contains_text, lemma_labelled, lemma_whole_prefix, pad_left, pad_right, padded_left,
    padded_right, same_text,
};

verus! {

/// A codec that reads messages in place.
#[derive(Clone, Copy, Debug, PartialEq, Eq, Structural)]
pub enum TypedZeroCopyCodec {
    Rkyv,
    Flatbuf,
}

/// The name of a codec.
pub open spec fn typed_codec_slug(codec: TypedZeroCopyCodec) -> Seq<char> {
    match codec {
        TypedZeroCopyCodec::Rkyv => "rkyv"@,
        TypedZeroCopyCodec::Flatbuf => "flatbuf"@,
    }
}

impl TypedZeroCopyCodec {
    /// The name of the codec.
    pub fn slug(&self) -> (r: &'static str)
        ensures
            r@ == typed_codec_slug(*self),
    {
        match self {
            TypedZeroCopyCodec::Rkyv => "rkyv",
            TypedZeroCopyCodec::Flatbuf => "flatbuf",
        }
    }
}

/// Reads the codec of a sweep's child from its name.
pub fn parse_sweep_codec(name: &str) -> (r: Result<TypedZeroCopyCodec, String>)
    ensures
        match r {
            Ok(codec) => typed_codec_slug(codec) == name@,
            Err(message) => name@ != "rkyv"@ && name@ != "flatbuf"@ && message@
                == "unsupported MYELON_BENCH_CODEC '"@ + name@ + "'"@,
        },
{
    if same_text(name, "rkyv") {
        Ok(TypedZeroCopyCodec::Rkyv)
    } else if same_text(name, "flatbuf") {
        Ok(TypedZeroCopyCodec::Flatbuf)
    } else {
        let mut message: String = "unsupported MYELON_BENCH_CODEC '".to_owned();
        message.append(name);
        message.append("'");
        Err(message)
    }
}

/// Reads the codec of a ping-pong child from its name.
pub fn parse_pingpong_codec(name: &str) -> (r: Result<TypedZeroCopyCodec, String>)
    ensures
        match r {
            Ok(codec) => typed_codec_slug(codec) == name@,
            Err(message) => name@ != "rkyv"@ && name@ != "flatbuf"@ && message@
                == "unsupported codec: "@ + name@,
        },
{
    if same_text(name, "rkyv") {
        Ok(TypedZeroCopyCodec::Rkyv)
    } else if same_text(name, "flatbuf") {
        Ok(TypedZeroCopyCodec::Flatbuf)
    } else {
        let mut message: String = "unsupported codec: ".to_owned();
        message.append(name);
        Err(message)
    }
}

/// A size of the sweep.
#[derive(Clone, Debug)]
pub struct TypedSweepSpec {
    pub tag: String,
    pub payload_bytes: usize,
    pub batch_size: usize,
    pub events: u64,
    pub base_buffer: usize,
}

/// The roles that run the sweep over a transport.
#[derive(Clone, Debug)]
pub struct TypedRoles {
    pub producer_role: String,
    pub consumer_role: String,
}

/// A typed zero-copy scenario.
#[derive(Clone, Debug)]
pub struct TypedZeroCopyScenario {
    pub backend: SweepBackend,
    pub codec: TypedZeroCopyCodec,
    pub size_tag: String,
    pub payload_size: usize,
    pub batch_size: usize,
    pub events: u64,
    pub buffer: usize,
    pub consumers: usize,
    pub producer_role: String,
    pub consumer_role: String,
}

/// The scenario for a transport, a codec, a size and a number of consumers.
pub open spec fn typed_scenario(
    selection: SweepSelection,
    backend: SweepBackend,
    roles: TypedRoles,
    codec: TypedZeroCopyCodec,
    spec: TypedSweepSpec,
    consumers: usize,
) -> TypedZeroCopyScenario {
    TypedZeroCopyScenario {
        backend,
        codec,
        size_tag: spec.tag,
        payload_size: spec.payload_bytes,
        batch_size: spec.batch_size,
        events: selection.events_or(spec.events),
        buffer: scaled_depth(spec.base_buffer as nat, consumers as nat) as usize,
        consumers,
        producer_role: roles.producer_role,
        consumer_role: roles.consumer_role,
    }
}

/// The scenarios for a transport, a codec and a size, by number of consumers.
pub open spec fn typed_counts(
    selection: SweepSelection,
    backend: SweepBackend,
    roles: TypedRoles,
    codec: TypedZeroCopyCodec,
    spec: TypedSweepSpec,
    counts: Seq<usize>,
) -> Seq<TypedZeroCopyScenario>
    decreases counts.len(),
{
    if counts.len() == 0 {
        Seq::empty()
    } else {
        let earlier = typed_counts(selection, backend, roles, codec, spec, counts.drop_last());
        if selects_number(selection.consumers@, counts.last() as nat) {
            earlier.push(typed_scenario(selection, backend, roles, codec, spec, counts.last()))
        } else {
            earlier
        }
    }
}

/// The scenarios for a transport and a codec, by size.
pub open spec fn typed_sizes(
    selection: SweepSelection,
    backend: SweepBackend,
    roles: TypedRoles,
    codec: TypedZeroCopyCodec,
    specs: Seq<TypedSweepSpec>,
    counts: Seq<usize>,
) -> Seq<TypedZeroCopyScenario>
    decreases specs.len(),
{
    if specs.len() == 0 {
        Seq::empty()
    } else {
        let earlier = typed_sizes(selection, backend, roles, codec, specs.drop_last(), counts);
        if selects(selection.size@, specs.last().tag@) {
            earlier + typed_counts(selection, backend, roles, codec, specs.last(), counts)
        } else {
            earlier
        }
    }
}

/// The scenarios for a transport and a codec, where both are selected.
pub open spec fn typed_part(
    selection: SweepSelection,
    backend: SweepBackend,
    roles: TypedRoles,
    codec: TypedZeroCopyCodec,
    specs: Seq<TypedSweepSpec>,
    counts: Seq<usize>,
) -> Seq<TypedZeroCopyScenario> {
    if selects(selection.backend@, backend_slug(backend)) && selects(
        selection.codec@,
        typed_codec_slug(codec),
    ) {
        typed_sizes(selection, backend, roles, codec, specs, counts)
    } else {
        Seq::empty()
    }
}

/// What a sweep is made from: the sizes for either codec, the roles for either
/// transport, and the numbers of consumers.
#[derive(Clone, Debug)]
pub struct TypedSweep {
    pub rkyv_specs: Vec<TypedSweepSpec>,
    pub flatbuf_specs: Vec<TypedSweepSpec>,
    pub shm_roles: TypedRoles,
    pub mmap_roles: TypedRoles,
    pub counts: Vec<usize>,
}

/// The scenarios of a sweep: by transport, then by codec.
pub open spec fn typed_plan(sweep: TypedSweep, selection: SweepSelection) -> Seq<
    TypedZeroCopyScenario,
> {
    let rkyv = TypedZeroCopyCodec::Rkyv;
    let flatbuf = TypedZeroCopyCodec::Flatbuf;
    let r = sweep.rkyv_specs@;
    let f = sweep.flatbuf_specs@;
    let n = sweep.counts@;
    typed_part(selection, SweepBackend::Shm, sweep.shm_roles, rkyv, r, n) + typed_part(
        selection,
        SweepBackend::Shm,
        sweep.shm_roles,
        flatbuf,
        f,
        n,
    ) + typed_part(selection, SweepBackend::Mmap, sweep.mmap_roles, rkyv, r, n) + typed_part(
        selection,
        SweepBackend::Mmap,
        sweep.mmap_roles,
        flatbuf,
        f,
        n,
    )
}

/// Every buffer of the sweep is within what a machine can count.
pub open spec fn typed_depths_fit(specs: Seq<TypedSweepSpec>, counts: Seq<usize>) -> bool {
    forall|i: int, j: int|
        0 <= i < specs.len() && 0 <= j < counts.len() ==> depth_fits(
            (#[trigger] specs[i]).base_buffer as nat,
            #[trigger] counts[j] as nat,
        )
}

/// Adds the scenarios for a transport, a codec and a size.
fn push_typed_counts(
    plan: &mut Vec<TypedZeroCopyScenario>,
    selection: &SweepSelection,
    backend: SweepBackend,
    roles: &TypedRoles,
    codec: TypedZeroCopyCodec,
    spec: &TypedSweepSpec,
    counts: &Vec<usize>,
)
    requires
        forall|j: int|
            0 <= j < counts@.len() ==> depth_fits(
                spec.base_buffer as nat,
                #[trigger] counts@[j] as nat,
            ),
    ensures
        final(plan)@ == old(plan)@ + typed_counts(
            *selection,
            backend,
            *roles,
            codec,
            *spec,
            counts@,
        ),
{
    let ghost before = plan@;
    assert(plan@ =~= before + typed_counts(
        *selection,
        backend,
        *roles,
        codec,
        *spec,
        counts@.take(0),
    ));
    for j in 0..counts.len()
        invariant
            forall|j: int|
                0 <= j < counts@.len() ==> depth_fits(
                    spec.base_buffer as nat,
                    #[trigger] counts@[j] as nat,
                ),
            plan@ == before + typed_counts(
                *selection,
                backend,
                *roles,
                codec,
                *spec,
                counts@.take(j as int),
            ),
    {
        let ghost taken = counts@.take(j + 1);
        assert(taken.drop_last() =~= counts@.take(j as int));
        let consumers: usize = counts[j];
        assert(depth_fits(spec.base_buffer as nat, counts@[j as int] as nat));
        if selection.matches_consumers(consumers) {
            plan.push(
                TypedZeroCopyScenario {
                    backend,
                    codec,
                    size_tag: spec.tag.clone(),
                    payload_size: spec.payload_bytes,
                    batch_size: spec.batch_size,
                    events: selection.events_for(spec.events),
                    buffer: scaled_buffer(spec.base_buffer, consumers),
                    consumers,
                    producer_role: roles.producer_role.clone(),
                    consumer_role: roles.consumer_role.clone(),
                },
            );
        }
        assert(plan@ =~= before + typed_counts(
            *selection,
            backend,
            *roles,
            codec,
            *spec,
            taken,
        ));
    }
    assert(counts@.take(counts@.len() as int) =~= counts@);
}

/// Adds the scenarios for a transport and a codec, where both are selected.
fn push_typed_part(
    plan: &mut Vec<TypedZeroCopyScenario>,
    selection: &SweepSelection,
    backend: SweepBackend,
    roles: &TypedRoles,
    codec: TypedZeroCopyCodec,
    specs: &Vec<TypedSweepSpec>,
    counts: &Vec<usize>,
)
    requires
        typed_depths_fit(specs@, counts@),
    ensures
        final(plan)@ == old(plan)@ + typed_part(
            *selection,
            backend,
            *roles,
            codec,
            specs@,
            counts@,
        ),
{
    let ghost before = plan@;
    if !matches_value(selection.backend.as_str(), backend.slug()) || !matches_value(
        selection.codec.as_str(),
        codec.slug(),
    ) {
        assert(plan@ =~= before + Seq::<TypedZeroCopyScenario>::empty());
        return;
    }
    assert(plan@ =~= before + typed_sizes(
        *selection,
        backend,
        *roles,
        codec,
        specs@.take(0),
        counts@,
    ));
    for i in 0..specs.len()
        invariant
            typed_depths_fit(specs@, counts@),
            plan@ == before + typed_sizes(
                *selection,
                backend,
                *roles,
                codec,
                specs@.take(i as int),
                counts@,
            ),
    {
        let ghost taken = specs@.take(i + 1);
        assert(taken.drop_last() =~= specs@.take(i as int));
        let spec = &specs[i];
        if selection.matches_size(spec.tag.as_str()) {
            assert forall|j: int| 0 <= j < counts@.len() implies depth_fits(
                spec.base_buffer as nat,
                #[trigger] counts@[j] as nat,
            ) by {
                assert(depth_fits(specs@[i as int].base_buffer as nat, counts@[j] as nat));
            }
            push_typed_counts(plan, selection, backend, roles, codec, spec, counts);
        }
        assert(plan@ =~= before + typed_sizes(
            *selection,
            backend,
            *roles,
            codec,
            taken,
            counts@,
        ));
    }
    assert(specs@.take(specs@.len() as int) =~= specs@);
}

/// The scenarios of a sweep that the command line selects.
pub fn plan_typed_sweep(sweep: &TypedSweep, selection: &SweepSelection) -> (r: Vec<
    TypedZeroCopyScenario,
>)
    requires
        typed_depths_fit(sweep.rkyv_specs@, sweep.counts@),
        typed_depths_fit(sweep.flatbuf_specs@, sweep.counts@),
    ensures
        r@ == typed_plan(*sweep, *selection),
{
    let rkyv = TypedZeroCopyCodec::Rkyv;
    let flatbuf = TypedZeroCopyCodec::Flatbuf;
    let n = &sweep.counts;
    let mut plan: Vec<TypedZeroCopyScenario> = Vec::new();

    push_typed_part(
        &mut plan,
        selection,
        SweepBackend::Shm,
        &sweep.shm_roles,
        rkyv,
        &sweep.rkyv_specs,
        n,
    );
    assert(plan@ =~= typed_part(
        *selection,
        SweepBackend::Shm,
        sweep.shm_roles,
        rkyv,
        sweep.rkyv_specs@,
        sweep.counts@,
    ));
    push_typed_part(
        &mut plan,
        selection,
        SweepBackend::Shm,
        &sweep.shm_roles,
        flatbuf,
        &sweep.flatbuf_specs,
        n,
    );
    push_typed_part(
        &mut plan,
        selection,
        SweepBackend::Mmap,
        &sweep.mmap_roles,
        rkyv,
        &sweep.rkyv_specs,
        n,
    );
    push_typed_part(
        &mut plan,
        selection,
        SweepBackend::Mmap,
        &sweep.mmap_roles,
        flatbuf,
        &sweep.flatbuf_specs,
        n,
    );
    plan
}

/// What reading a message in place costs.
#[derive(Clone, Copy, Debug, PartialEq, Eq, Structural)]
pub struct AccessTelemetry {
    pub access_avg_ns: Metric,
    pub access_vs_decode_speedup: Metric,
    pub access_alloc_count: u64,
    pub access_alloc_bytes: u64,
}

/// Puts what reading in place costs into a result.
pub fn attach_access_telemetry(result: &mut BenchResult, telemetry: &AccessTelemetry)
    ensures
        final(result).agrees_but_for_results(*old(result)),
        final(result).results == (BenchResults {
            access_avg_ns: Some(telemetry.access_avg_ns),
            access_vs_decode_speedup: Some(telemetry.access_vs_decode_speedup),
            alloc_count: Some(telemetry.access_alloc_count),
            alloc_bytes: Some(telemetry.access_alloc_bytes),
            ..old(result).results
        }),
{
    result.results.access_avg_ns = Some(telemetry.access_avg_ns);
    result.results.access_vs_decode_speedup = Some(telemetry.access_vs_decode_speedup);
    result.results.alloc_count = Some(telemetry.access_alloc_count);
    result.results.alloc_bytes = Some(telemetry.access_alloc_bytes);
}

impl TypedZeroCopyScenario {
    /// The name of the scenario.
    pub open spec fn name(&self) -> Seq<char> {
        "typed_zero_copy_"@ + typed_codec_slug(self.codec) + "_"@ + backend_slug(self.backend)
            + "_"@ + self.size_tag@ + "_1p"@ + decimal_text(self.consumers as nat) + "c"@
    }

    /// The name of the scenario.
    fn name_text(&self) -> (r: String)
        ensures
            r@ == self.name(),
    {
        let mut out: String = "typed_zero_copy_".to_owned();
        out.append(self.codec.slug());
        out.append("_");
        out.append(self.backend.slug());
        out.append("_");
        out.append(self.size_tag.as_str());
        out.append("_1p");
        out.append(decimal(self.consumers as u64).as_str());
        out.append("c");
        out
    }

    /// The variables that all children share, but for those that say where
    /// the ring is.
    pub open spec fn settings(&self) -> Seq<(Seq<char>, Seq<char>)> {
        seq![
            ("MYELON_BENCH_PAYLOAD_BYTES"@, decimal_text(self.payload_size as nat)),
            ("MYELON_BENCH_NUM_MESSAGES"@, decimal_text(self.events as nat)),
            ("MYELON_BENCH_BUFFER_DEPTH"@, decimal_text(self.buffer as nat)),
            ("MYELON_BENCH_NUM_CONSUMERS"@, decimal_text(self.consumers as nat)),
            ("MYELON_BENCH_BATCH_SIZE"@, decimal_text(self.batch_size as nat)),
            ("MYELON_BENCH_CODEC"@, typed_codec_slug(self.codec)),
        ]
    }
}

impl IpcBenchmark for TypedZeroCopyScenario {
    open spec fn facts(&self) -> BenchFacts {
        BenchFacts {
            bench_name: "typed_zero_copy_sweep"@,
            scenario_name: self.name(),
            label: self.name(),
            backend: backend_slug(self.backend),
            layer: "typed_zero_copy"@,
            transport: match self.backend {
                SweepBackend::Shm => shm_transport(self.consumers as nat, true, "fixed_64k"@),
                SweepBackend::Mmap => mmap_transport(true, "fixed_64k"@),
            },
            codec: Some(typed_codec_slug(self.codec)),
            measurement_mode: "max_throughput"@,
            wait_strategy: "BusySpin"@,
            message_size_bytes: self.payload_size as nat,
            payload_bytes: self.payload_size as nat,
            buffer_depth: self.buffer as nat,
            num_messages: self.events as nat,
            warmup_messages: 0,
            num_consumers: self.consumers as nat,
            timeout_secs: 300,
            throughput_unit: "msgs/s"@,
            summary_label: summary_label_of(self.consumers as nat),
            latency_rule: LatencyRule::Last,
            segment_prefix: match self.backend {
                SweepBackend::Shm => "tzc_"@ + typed_codec_slug(self.codec) + "_"@ + self.size_tag@,
                SweepBackend::Mmap => "tzc"@,
            },
            root_prefix: match self.backend {
                SweepBackend::Shm => None,
                SweepBackend::Mmap => Some(
                    "tzc_"@ + typed_codec_slug(self.codec) + "_"@ + self.size_tag@,
                ),
            },
        }
    }

    open spec fn launch_facts(&self, place: LaunchPlace) -> LaunchFacts {
        group_facts(
            self.producer_role@,
            self.consumer_role@,
            self.consumers as nat,
            "MYELON_BENCH_CONSUMER_ID"@,
            match self.backend {
                SweepBackend::Shm => self.settings().push(
                    ("MYELON_BENCH_SEGMENT_NAME"@, place.segment@),
                ),
                SweepBackend::Mmap => self.settings().push(
                    ("MYELON_BENCH_MMAP_ROOT"@, place.root@),
                ).push(("MYELON_BENCH_MMAP_SEGMENT"@, place.segment@)),
            },
            match self.backend {
                SweepBackend::Shm => None,
                SweepBackend::Mmap => Some(place.root@),
            },
        )
    }

    open spec fn summary(&self, figures: SummaryFigures) -> Option<Seq<char>> {
        Some(
            "  "@
                + padded_right(typed_codec_slug(self.codec), 8)
                + " "@
                + padded_right(backend_slug(self.backend), 5)
                + " "@
                + padded_right(self.size_tag@, 8)
                + " "@
                + padded_right("1p"@ + decimal_text(self.consumers as nat) + "c"@, 5)
                + " prod="@
                + padded_left(figures.producer_ops@, 10)
                + " cons="@
                + padded_left(figures.consumer_ops@, 10)
                + " batch="@
                + padded_right(decimal_text(self.batch_size as nat), 4)
                + " bytes="@
                + decimal_text(self.payload_size as nat),
        )
    }

    open spec fn runnable(&self) -> bool {
        true
    }

    fn bench_name(&self) -> (r: &str) {
        "typed_zero_copy_sweep"
    }

    fn scenario_name(&self) -> (r: String) {
        self.name_text()
    }

    fn label(&self) -> (r: String) {
        self.name_text()
    }

    fn backend(&self) -> (r: &str) {
        self.backend.slug()
    }

    fn layer(&self) -> (r: &str) {
        "typed_zero_copy"
    }

    fn transport_metadata(&self) -> (r: BenchTransportSpec) {
        let base = match self.backend {
            SweepBackend::Shm => BenchTransportSpec::benchmark_shm(self.consumers),
            SweepBackend::Mmap => BenchTransportSpec::mmap_builtin(),
        };
        base.with_zero_copy(true).with_framing("fixed_64k")
    }

    fn codec(&self) -> (r: Option<&str>) {
        Some(self.codec.slug())
    }

    fn measurement_mode(&self) -> (r: String) {
        "max_throughput".to_owned()
    }

    fn wait_strategy(&self) -> (r: &str) {
        "BusySpin"
    }

    fn message_size_bytes(&self) -> (r: usize) {
        self.payload_size
    }

    fn payload_bytes(&self) -> (r: usize) {
        self.payload_size
    }

    fn buffer_depth(&self) -> (r: usize) {
        self.buffer
    }

    fn num_messages(&self) -> (r: u64) {
        self.events
    }

    fn warmup_messages(&self) -> (r: u64) {
        0
    }

    fn num_consumers(&self) -> (r: usize) {
        self.consumers
    }

    fn timeout(&self) -> (r: u64) {
        300
    }

    fn throughput_unit(&self) -> (r: &str) {
        "msgs/s"
    }

    fn consumer_summary_label(&self) -> (r: &str) {
        summary_label(self.consumers)
    }

    fn latency_rule(&self) -> (r: LatencyRule) {
        LatencyRule::Last
    }

    fn segment_prefix(&self) -> (r: String) {
        match self.backend {
            SweepBackend::Shm => {
                let mut out: String = "tzc_".to_owned();
                out.append(self.codec.slug());
                out.append("_");
                out.append(self.size_tag.as_str());
                out
            },
            SweepBackend::Mmap => "tzc".to_owned(),
        }
    }

    fn root_prefix(&self) -> (r: Option<String>) {
        match self.backend {
            SweepBackend::Shm => None,
            SweepBackend::Mmap => {
                let mut out: String = "tzc_".to_owned();
                out.append(self.codec.slug());
                out.append("_");
                out.append(self.size_tag.as_str());
                Some(out)
            },
        }
    }

    fn summary_line(&self, figures: &SummaryFigures) -> (r: Option<String>) {
        let mut topology: String = "1p".to_owned();
        topology.append(decimal(self.consumers as u64).as_str());
        topology.append("c");
        let mut out: String = "  ".to_owned();
        out.append(pad_right(self.codec.slug(), 8).as_str());
        out.append(" ");
        out.append(pad_right(self.backend.slug(), 5).as_str());
        out.append(" ");
        out.append(pad_right(self.size_tag.as_str(), 8).as_str());
        out.append(" ");
        out.append(pad_right(topology.as_str(), 5).as_str());
        out.append(" prod=");
        out.append(pad_left(figures.producer_ops.as_str(), 10).as_str());
        out.append(" cons=");
        out.append(pad_left(figures.consumer_ops.as_str(), 10).as_str());
        out.append(" batch=");
        out.append(pad_right(decimal(self.batch_size as u64).as_str(), 4).as_str());
        out.append(" bytes=");
        out.append(decimal(self.payload_size as u64).as_str());
        Some(out)
    }

    fn launch(&self, place: &LaunchPlace) -> (r: LaunchPlan) {
        let mut envs: Vec<EnvVar> = Vec::new();
        assert(env_views(envs@) =~= Seq::empty());
        push_number(&mut envs, "MYELON_BENCH_PAYLOAD_BYTES", self.payload_size as u64);
        push_number(&mut envs, "MYELON_BENCH_NUM_MESSAGES", self.events);
        push_number(&mut envs, "MYELON_BENCH_BUFFER_DEPTH", self.buffer as u64);
        push_number(&mut envs, "MYELON_BENCH_NUM_CONSUMERS", self.consumers as u64);
        push_number(&mut envs, "MYELON_BENCH_BATCH_SIZE", self.batch_size as u64);
        push_env(&mut envs, "MYELON_BENCH_CODEC", self.codec.slug().to_owned());
        assert(env_views(envs@) =~= self.settings());
        let spawn = MultiConsumerSpawn {
            producer_role: self.producer_role.clone(),
            consumer_role: self.consumer_role.clone(),
            consumers: self.consumers,
            consumer_id_env: "MYELON_BENCH_CONSUMER_ID".to_owned(),
            base_envs: envs,
        };
        match self.backend {
            SweepBackend::Shm => launch_shm_group(
                place.segment.as_str(),
                "MYELON_BENCH_SEGMENT_NAME",
                spawn,
            ),
            SweepBackend::Mmap => launch_mmap_group(
                place.root.as_str(),
                place.segment.as_str(),
                "MYELON_BENCH_MMAP_ROOT",
                "MYELON_BENCH_MMAP_SEGMENT",
                spawn,
            ),
        }
    }
}

/// What the scenarios of the numbers of consumers are.
proof fn lemma_typed_counts(
    selection: SweepSelection,
    backend: SweepBackend,
    roles: TypedRoles,
    codec: TypedZeroCopyCodec,
    spec: TypedSweepSpec,
    counts: Seq<usize>,
    s: TypedZeroCopyScenario,
)
    ensures
        typed_counts(selection, backend, roles, codec, spec, counts).contains(s) <==> {
            &&& counts.contains(s.consumers)
            &&& selects_number(selection.consumers@, s.consumers as nat)
            &&& s == typed_scenario(selection, backend, roles, codec, spec, s.consumers)
        },
    decreases counts.len(),
{
    if counts.len() > 0 {
        let earlier = counts.drop_last();
        let before = typed_counts(selection, backend, roles, codec, spec, earlier);
        let here = typed_scenario(selection, backend, roles, codec, spec, counts.last());
        lemma_typed_counts(selection, backend, roles, codec, spec, earlier, s);
        vstd::seq_lib::lemma_seq_contains_after_push(before, here, s);
        if s == here {
            assert(before.push(here)[before.len() as int] == here);
        }
        assert(counts =~= earlier.push(counts.last()));
        vstd::seq_lib::lemma_seq_contains_after_push(earlier, counts.last(), s.consumers);
        assert(counts[counts.len() - 1] == counts.last());
    }
}

/// `scenario` is one of the size `spec` with the roles: it has the size's load
/// and a buffer for its consumers.
pub open spec fn is_typed_scenario_of(
    spec: TypedSweepSpec,
    roles: TypedRoles,
    selection: SweepSelection,
    scenario: TypedZeroCopyScenario,
) -> bool {
    &&& scenario.size_tag == spec.tag
    &&& scenario.payload_size == spec.payload_bytes
    &&& scenario.batch_size == spec.batch_size
    &&& selection.num_messages is Some ==> scenario.events == selection.num_messages->0
    &&& selection.num_messages is None ==> scenario.events == spec.events
    &&& scenario.buffer == scaled_depth(
        spec.base_buffer as nat,
        scenario.consumers as nat,
    ) as usize
    &&& scenario.producer_role == roles.producer_role
    &&& scenario.consumer_role == roles.consumer_role
}

/// What the scenarios of the sizes are.
proof fn lemma_typed_sizes(
    selection: SweepSelection,
    backend: SweepBackend,
    roles: TypedRoles,
    codec: TypedZeroCopyCodec,
    specs: Seq<TypedSweepSpec>,
    counts: Seq<usize>,
    s: TypedZeroCopyScenario,
)
    ensures
        typed_sizes(selection, backend, roles, codec, specs, counts).contains(s) <==> {
            &&& s.backend == backend
            &&& s.codec == codec
            &&& counts.contains(s.consumers)
            &&& selects_number(selection.consumers@, s.consumers as nat)
            &&& exists|k: int|
                0 <= k < specs.len() && selects(selection.size@, (#[trigger] specs[k]).tag@)
                    && is_typed_scenario_of(specs[k], roles, selection, s)
        },
    decreases specs.len(),
{
    if specs.len() > 0 {
        let earlier = specs.drop_last();
        let last = specs.len() - 1;
        let before = typed_sizes(selection, backend, roles, codec, earlier, counts);
        let here = typed_counts(selection, backend, roles, codec, specs.last(), counts);
        lemma_typed_sizes(selection, backend, roles, codec, earlier, counts, s);
        lemma_typed_counts(selection, backend, roles, codec, specs.last(), counts, s);
        vstd::seq_lib::lemma_seq_concat_contains_all_elements(before, here, s);
        assert(specs[last] == specs.last());
        if before.contains(s) {
            let k = choose|k: int|
                0 <= k < earlier.len() && selects(selection.size@, (#[trigger] earlier[k]).tag@)
                    && is_typed_scenario_of(earlier[k], roles, selection, s);
            assert(specs[k] == earlier[k]);
        }
        if exists|k: int|
            0 <= k < specs.len() && selects(selection.size@, (#[trigger] specs[k]).tag@)
                && is_typed_scenario_of(specs[k], roles, selection, s) {
            let k = choose|k: int|
                0 <= k < specs.len() && selects(selection.size@, (#[trigger] specs[k]).tag@)
                    && is_typed_scenario_of(specs[k], roles, selection, s);
            if k < last {
                assert(earlier[k] == specs[k]);
            }
        }
    }
}

/// The sizes of a codec.
pub open spec fn sizes_for(sweep: TypedSweep, codec: TypedZeroCopyCodec) -> Seq<TypedSweepSpec> {
    match codec {
        TypedZeroCopyCodec::Rkyv => sweep.rkyv_specs@,
        TypedZeroCopyCodec::Flatbuf => sweep.flatbuf_specs@,
    }
}

/// The roles over a transport.
pub open spec fn roles_for(sweep: TypedSweep, backend: SweepBackend) -> TypedRoles {
    match backend {
        SweepBackend::Shm => sweep.shm_roles,
        SweepBackend::Mmap => sweep.mmap_roles,
    }
}

/// A scenario is planned exactly where the command line selects it: its
/// transport, with that transport's roles; its codec, with one of that codec's
/// sizes; and its number of consumers.
pub proof fn law_typed_plan_is_what_is_selected(
    sweep: TypedSweep,
    selection: SweepSelection,
    s: TypedZeroCopyScenario,
)
    ensures
        typed_plan(sweep, selection).contains(s) <==> {
            &&& selects(selection.backend@, backend_slug(s.backend))
            &&& selects(selection.codec@, typed_codec_slug(s.codec))
            &&& sweep.counts@.contains(s.consumers)
            &&& selects_number(selection.consumers@, s.consumers as nat)
            &&& exists|k: int|
                0 <= k < sizes_for(sweep, s.codec).len() && selects(
                    selection.size@,
                    (#[trigger] sizes_for(sweep, s.codec)[k]).tag@,
                ) && is_typed_scenario_of(
                    sizes_for(sweep, s.codec)[k],
                    roles_for(sweep, s.backend),
                    selection,
                    s,
                )
        },
{
    let rkyv = TypedZeroCopyCodec::Rkyv;
    let flatbuf = TypedZeroCopyCodec::Flatbuf;
    let r = sweep.rkyv_specs@;
    let f = sweep.flatbuf_specs@;
    let n = sweep.counts@;
    let shm = SweepBackend::Shm;
    let mmap = SweepBackend::Mmap;
    let a = typed_part(selection, shm, sweep.shm_roles, rkyv, r, n);
    let b = typed_part(selection, shm, sweep.shm_roles, flatbuf, f, n);
    let c = typed_part(selection, mmap, sweep.mmap_roles, rkyv, r, n);
    let d = typed_part(selection, mmap, sweep.mmap_roles, flatbuf, f, n);
    vstd::seq_lib::lemma_seq_concat_contains_all_elements(a, b, s);
    vstd::seq_lib::lemma_seq_concat_contains_all_elements(a + b, c, s);
    vstd::seq_lib::lemma_seq_concat_contains_all_elements(a + b + c, d, s);
    lemma_typed_sizes(selection, shm, sweep.shm_roles, rkyv, r, n, s);
    lemma_typed_sizes(selection, shm, sweep.shm_roles, flatbuf, f, n, s);
    lemma_typed_sizes(selection, mmap, sweep.mmap_roles, rkyv, r, n, s);
    lemma_typed_sizes(selection, mmap, sweep.mmap_roles, flatbuf, f, n, s);
    let none = Seq::<TypedZeroCopyScenario>::empty();
    assert(!none.contains(s));
    let wanted = selects(selection.backend@, backend_slug(s.backend)) && selects(
        selection.codec@,
        typed_codec_slug(s.codec),
    );
    assert(typed_plan(sweep, selection) == a + b + c + d);
    let sizes = sizes_for(sweep, s.codec);
    let roles = roles_for(sweep, s.backend);
    lemma_typed_sizes(selection, s.backend, roles, s.codec, sizes, n, s);
    if s.backend == shm && s.codec == rkyv {
        assert(!b.contains(s) && !c.contains(s) && !d.contains(s));
        assert(a.contains(s) <==> wanted && typed_sizes(
            selection,
            shm,
            sweep.shm_roles,
            rkyv,
            r,
            n,
        ).contains(s));
    } else if s.backend == shm {
        assert(!a.contains(s) && !c.contains(s) && !d.contains(s));
        assert(b.contains(s) <==> wanted && typed_sizes(
            selection,
            shm,
            sweep.shm_roles,
            flatbuf,
            f,
            n,
        ).contains(s));
    } else if s.codec == rkyv {
        assert(!a.contains(s) && !b.contains(s) && !d.contains(s));
        assert(c.contains(s) <==> wanted && typed_sizes(
            selection,
            mmap,
            sweep.mmap_roles,
            rkyv,
            r,
            n,
        ).contains(s));
    } else {
        assert(!a.contains(s) && !b.contains(s) && !c.contains(s));
        assert(d.contains(s) <==> wanted && typed_sizes(
            selection,
            mmap,
            sweep.mmap_roles,
            flatbuf,
            f,
            n,
        ).contains(s));
    }
}

/// A typed scenario says of itself what it is made of.
pub proof fn law_typed_scenario_says_what_it_is(s: TypedZeroCopyScenario)
    ensures
        s.facts().bench_name == "typed_zero_copy_sweep"@,
        s.facts().layer == "typed_zero_copy"@,
        s.backend == SweepBackend::Shm ==> s.facts().backend == "shm"@,
        s.backend == SweepBackend::Mmap ==> s.facts().backend == "mmap"@,
        s.codec == TypedZeroCopyCodec::Rkyv ==> s.facts().codec == Some("rkyv"@),
        s.codec == TypedZeroCopyCodec::Flatbuf ==> s.facts().codec == Some("flatbuf"@),
        s.facts().transport.zero_copy == Some(true),
        s.facts().transport.framing == Some("fixed_64k"@),
        s.facts().measurement_mode == "max_throughput"@,
        s.facts().wait_strategy == "BusySpin"@,
        s.facts().message_size_bytes == s.payload_size,
        s.facts().payload_bytes == s.payload_size,
        s.facts().buffer_depth == s.buffer,
        s.facts().num_messages == s.events,
        s.facts().warmup_messages == 0,
        s.facts().num_consumers == s.consumers,
        s.facts().timeout_secs == 300,
        s.facts().latency_rule == LatencyRule::Last,
{
}

/// The line of a typed scenario gives each side's throughput, the batch size and
/// the bytes behind their own labels.
pub proof fn law_typed_line_labels_its_figures(s: TypedZeroCopyScenario, figures: SummaryFigures)
    ensures
        s.summary(figures) is Some,
        contains_text(s.summary(figures)->0, " prod="@ + padded_left(figures.producer_ops@, 10)),
        contains_text(s.summary(figures)->0, " cons="@ + padded_left(figures.consumer_ops@, 10)),
        contains_text(
            s.summary(figures)->0,
            " batch="@ + padded_right(decimal_text(s.batch_size as nat), 4),
        ),
        contains_text(s.summary(figures)->0, " bytes="@ + decimal_text(s.payload_size as nat)),
{
    let whole = s.summary(figures)->0;
    let a = "  "@ + padded_right(typed_codec_slug(s.codec), 8) + " "@ + padded_right(
        backend_slug(s.backend),
        5,
    ) + " "@ + padded_right(s.size_tag@, 8) + " "@ + padded_right(
        "1p"@ + decimal_text(s.consumers as nat) + "c"@,
        5,
    );
    let b = a + " prod="@ + padded_left(figures.producer_ops@, 10);
    let c = b + " cons="@ + padded_left(figures.consumer_ops@, 10);
    let d = c + " batch="@ + padded_right(decimal_text(s.batch_size as nat), 4);
    lemma_whole_prefix(whole);
    lemma_labelled(whole, d, " bytes="@, decimal_text(s.payload_size as nat));
    lemma_labelled(whole, c, " batch="@, padded_right(decimal_text(s.batch_size as nat), 4));
    lemma_labelled(whole, b, " cons="@, padded_left(figures.consumer_ops@, 10));
    lemma_labelled(whole, a, " prod="@, padded_left(figures.producer_ops@, 10));
}

} // verus!
