//! Codec scenarios without fragmentation: every slot of the ring holds a whole
//! encoded batch.
use vstd::prelude::*;
use crate::bench::{
    rate_mode, rate_mode_name, shm_transport, summary_label, summary_label_of, BenchFacts,
    IpcBenchmark, LatencyRule,
};
use crate::decimal::{decimal, decimal_text, parse_u64, parsed_number};
use crate::launch::{
    env_views, group_facts, numbered_consumers, push_env, push_number, ChildSpawn, EnvVar,
    LaunchFacts, LaunchPlace, LaunchPlan,
};
use crate::reporting::{find_arg_value, is_flag_value, BenchTransportSpec};
use crate::scenarios::selection::{
    flag_or, is_flag_or, matches_number, matches_value, selects, selects_number,
};
use crate::sizing::{law_small_depths_fit, scaled_buffer, scaled_depth};
use crate::summary::{latency_or_dash, SummaryFigures};
use crate::text::{
    contains_text, lemma_labelled, lemma_whole_prefix, pad_left, pad_right, padded_left,
    padded_right, same_text,
};

verus! {

/// A codec of the benchmark.
#[derive(Clone, Copy, Debug, PartialEq, Eq, Structural)]
pub enum BatchCodec {
    Bincode,
    Rkyv,
    Flatbuf,
}

/// The name of a codec.
pub open spec fn batch_codec_slug(codec: BatchCodec) -> Seq<char> {
    match codec {
        BatchCodec::Bincode => "bincode"@,
        BatchCodec::Rkyv => "rkyv"@,
        BatchCodec::Flatbuf => "flatbuf"@,
    }
}

impl BatchCodec {
    /// The name of the codec.
    pub fn slug(&self) -> (r: &'static str)
        ensures
            r@ == batch_codec_slug(*self),
    {
        match self {
            BatchCodec::Bincode => "bincode",
            BatchCodec::Rkyv => "rkyv",
            BatchCodec::Flatbuf => "flatbuf",
        }
    }
}

/// Reads a codec from its name.
pub fn parse_batch_codec(name: &str) -> (r: Result<BatchCodec, String>)
    ensures
        match r {
            Ok(codec) => batch_codec_slug(codec) == name@,
            Err(message) => name@ != "bincode"@ && name@ != "rkyv"@ && name@ != "flatbuf"@
                && message@ == "unknown codec: "@ + name@,
        },
{
    if same_text(name, "bincode") {
        Ok(BatchCodec::Bincode)
    } else if same_text(name, "rkyv") {
        Ok(BatchCodec::Rkyv)
    } else if same_text(name, "flatbuf") {
        Ok(BatchCodec::Flatbuf)
    } else {
        let mut message: String = "unknown codec: ".to_owned();
        message.append(name);
        Err(message)
    }
}

/// A codec scenario without fragmentation. A target rate of zero means full
/// speed.
#[derive(Clone, Copy, Debug, PartialEq, Eq, Structural)]
pub struct CodecNoFragScenario {
    pub codec: BatchCodec,
    pub batch_size: usize,
    pub messages: u64,
    pub buffer_depth: usize,
    pub consumers: usize,
    pub target_rate: u64,
}

/// The size of the slots for a batch size.
pub open spec fn slot_bytes_for(batch_size: usize) -> nat {
    if batch_size == 8 {
        8192
    } else if batch_size == 64 {
        65536
    } else {
        262144
    }
}

/// The bytes of a slot that an encoded batch may fill.
pub fn slot_capacity(batch_size: usize) -> (r: usize)
    ensures
        r == slot_bytes_for(batch_size) - 12,
{
    if batch_size == 8 {
        8180
    } else if batch_size == 64 {
        65524
    } else {
        262132
    }
}

/// The error of an encoded batch that does not fit its slot.
pub fn check_encoded_len(len: usize, capacity: usize) -> (r: Result<(), String>)
    ensures
        match r {
            Ok(_) => len <= capacity,
            Err(message) => len > capacity && message@ == "payload "@ + decimal_text(len as nat)
                + "B exceeds slot "@ + decimal_text(capacity as nat) + "B"@,
        },
{
    if len <= capacity {
        return Ok(());
    }
    let mut message: String = "payload ".to_owned();
    message.append(decimal(len as u64).as_str());
    message.append("B exceeds slot ");
    message.append(decimal(capacity as u64).as_str());
    message.append("B");
    Err(message)
}

/// How many scenarios there are in all.
pub const NOFRAG_CANDIDATES: usize = 54;

/// The batch size, the number of messages and the least buffer of the `k`th
/// candidate.
pub open spec fn nofrag_batch(k: int) -> (usize, u64, usize) {
    if k / 18 == 0 {
        (8, 100_000, 16384)
    } else if k / 18 == 1 {
        (64, 50_000, 4096)
    } else {
        (256, 20_000, 2048)
    }
}

/// The number of consumers of the `k`th candidate.
pub open spec fn nofrag_consumers(k: int) -> usize {
    if k / 3 % 6 == 0 {
        1
    } else if k / 3 % 6 == 1 {
        2
    } else if k / 3 % 6 == 2 {
        4
    } else if k / 3 % 6 == 3 {
        6
    } else if k / 3 % 6 == 4 {
        8
    } else {
        12
    }
}

/// The codec of the `k`th candidate.
pub open spec fn nofrag_codec(k: int) -> BatchCodec {
    if k % 3 == 0 {
        BatchCodec::Bincode
    } else if k % 3 == 1 {
        BatchCodec::Rkyv
    } else {
        BatchCodec::Flatbuf
    }
}

/// The `k`th candidate: by batch size, then number of consumers, then codec.
pub open spec fn nofrag_candidate(k: int, target_rate: u64) -> CodecNoFragScenario {
    let (batch_size, messages, base_buffer) = nofrag_batch(k);
    CodecNoFragScenario {
        codec: nofrag_codec(k),
        batch_size,
        messages,
        buffer_depth: scaled_depth(base_buffer as nat, nofrag_consumers(k) as nat) as usize,
        consumers: nofrag_consumers(k),
        target_rate,
    }
}

/// The command line selects the scenario.
pub open spec fn nofrag_selected(
    codec: Seq<char>,
    batch: Seq<char>,
    consumers: Seq<char>,
    scenario: CodecNoFragScenario,
) -> bool {
    &&& selects_number(batch, scenario.batch_size as nat)
    &&& selects_number(consumers, scenario.consumers as nat)
    &&& selects(codec, batch_codec_slug(scenario.codec))
}

/// The selected ones of the first `k` candidates.
pub open spec fn nofrag_scenarios(
    codec: Seq<char>,
    batch: Seq<char>,
    consumers: Seq<char>,
    target_rate: u64,
    k: nat,
) -> Seq<CodecNoFragScenario>
    decreases k,
{
    if k == 0 {
        Seq::empty()
    } else {
        let earlier = nofrag_scenarios(codec, batch, consumers, target_rate, (k - 1) as nat);
        let candidate = nofrag_candidate(k - 1, target_rate);
        if nofrag_selected(codec, batch, consumers, candidate) {
            earlier.push(candidate)
        } else {
            earlier
        }
    }
}

/// The target rate that the command line states can be read.
pub open spec fn states_readable_rate(args: Seq<String>) -> bool {
    forall|text: Seq<char>| #[trigger]
        is_flag_value(args, "--target-rate"@, Some(text)) ==> parsed_number(text, u64::MAX as nat)
            is Some
}

/// Whether the target rate that the command line states, if it states one,
/// can be read.
pub fn rate_is_readable(args: &[String]) -> (r: bool)
    ensures
        r == states_readable_rate(args@),
{
    match find_arg_value(args, "--target-rate") {
        Some(value) => {
            let readable = parse_u64(value.as_str()).is_some();
            proof {
                assert(is_flag_value(args@, "--target-rate"@, Some(value@)));
                assert forall|text: Seq<char>| #[trigger]
                    is_flag_value(args@, "--target-rate"@, Some(text)) implies text == value@ by {
                    lemma_flag_value_is_unique(args@, "--target-rate"@, text, value@);
                }
            }
            readable
        },
        None => {
            proof {
                assert forall|text: Seq<char>| !#[trigger]
                    is_flag_value(args@, "--target-rate"@, Some(text)) by {
                    if is_flag_value(args@, "--target-rate"@, Some(text)) {
                        let i = choose|i: int|
                            0 <= i < args@.len() - 1 && #[trigger] args@[i]@ == "--target-rate"@;
                        assert(args@[i]@ != "--target-rate"@);
                    }
                }
            }
            true
        },
    }
}

/// A flag has one value.
proof fn lemma_flag_value_is_unique(
    args: Seq<String>,
    flag: Seq<char>,
    a: Seq<char>,
    b: Seq<char>,
)
    requires
        is_flag_value(args, flag, Some(a)),
        is_flag_value(args, flag, Some(b)),
    ensures
        a == b,
{
    let i = choose|i: int|
        {
            &&& 0 <= i < args.len() - 1
            &&& #[trigger] args[i]@ == flag
            &&& args[i + 1]@ == a
            &&& forall|j: int| 0 <= j < i ==> #[trigger] args[j]@ != flag
        };
    let k = choose|i: int|
        {
            &&& 0 <= i < args.len() - 1
            &&& #[trigger] args[i]@ == flag
            &&& args[i + 1]@ == b
            &&& forall|j: int| 0 <= j < i ==> #[trigger] args[j]@ != flag
        };
    if i < k {
        assert(args[i]@ != flag);
    } else if k < i {
        assert(args[k]@ != flag);
    }
}

/// What is wrong with a mode and the rate that goes with it, if anything.
pub open spec fn mode_error(mode: Seq<char>, rate: Option<u64>) -> Option<Seq<char>> {
    if mode != "throughput"@ && mode != "co"@ {
        Some("unsupported mode: "@ + mode)
    } else if mode == "co"@ && rate is None {
        Some("--mode co requires --target-rate"@)
    } else if mode != "co"@ && rate is Some {
        Some("--target-rate requires --mode co"@)
    } else {
        None
    }
}

/// The error of a mode and the rate that goes with it, if there is one.
pub fn check_mode(mode: &str, rate: Option<u64>) -> (r: Result<u64, String>)
    ensures
        match r {
            Ok(target_rate) => mode_error(mode@, rate) is None && target_rate == match rate {
                Some(n) => n,
                None => 0,
            },
            Err(message) => mode_error(mode@, rate) == Some(message@),
        },
{
    let co = same_text(mode, "co");
    proof {
        reveal_strlit("throughput");
        reveal_strlit("co");
        assert("throughput"@.len() == 10);
        assert("co"@.len() == 2);
    }
    if !same_text(mode, "throughput") && !co {
        let mut message: String = "unsupported mode: ".to_owned();
        message.append(mode);
        return Err(message);
    }
    match rate {
        None => if co {
            Err("--mode co requires --target-rate".to_owned())
        } else {
            Ok(0)
        },
        Some(n) => if co {
            Ok(n)
        } else {
            Err("--target-rate requires --mode co".to_owned())
        },
    }
}

/// The arguments that a plan is made from.
#[derive(Clone, Debug)]
pub struct CodecNoFragArgs {
    pub codec: String,
    pub batch: String,
    pub consumers: String,
    pub mode: String,
    pub target_rate: Option<u64>,
}

impl CodecNoFragArgs {
    /// Reads the arguments from the command line.
    pub fn parse(args: &[String]) -> (r: CodecNoFragArgs)
        requires
            states_readable_rate(args@),
        ensures
            is_flag_or(args@, "--codec"@, "all"@, r.codec@),
            is_flag_or(args@, "--batch"@, "all"@, r.batch@),
            is_flag_or(args@, "--consumers"@, "all"@, r.consumers@),
            is_flag_or(args@, "--mode"@, "throughput"@, r.mode@),
            match r.target_rate {
                Some(rate) => exists|text: Seq<char>| #[trigger]
                    is_flag_value(args@, "--target-rate"@, Some(text)) && parsed_number(
                        text,
                        u64::MAX as nat,
                    ) == Some(rate as nat),
                None => is_flag_value(args@, "--target-rate"@, None),
            },
    {
        let target_rate: Option<u64> = match find_arg_value(args, "--target-rate") {
            Some(value) => {
                assert(is_flag_value(args@, "--target-rate"@, Some(value@)));
                parse_u64(value.as_str())
            },
            None => None,
        };
        CodecNoFragArgs {
            codec: flag_or(args, "--codec", "all"),
            batch: flag_or(args, "--batch", "all"),
            consumers: flag_or(args, "--consumers", "all"),
            mode: flag_or(args, "--mode", "throughput"),
            target_rate,
        }
    }
}

/// The scenarios that the arguments select, or what is wrong with them.
pub fn plan_codec_nofrag(args: &CodecNoFragArgs) -> (r: Result<Vec<CodecNoFragScenario>, String>)
    ensures
        match r {
            Ok(plan) => mode_error(args.mode@, args.target_rate) is None && plan@
                == nofrag_scenarios(
                args.codec@,
                args.batch@,
                args.consumers@,
                match args.target_rate {
                    Some(n) => n,
                    None => 0,
                },
                54,
            ),
            Err(message) => mode_error(args.mode@, args.target_rate) == Some(message@),
        },
{
    let target_rate: u64 = match check_mode(args.mode.as_str(), args.target_rate) {
        Ok(rate) => rate,
        Err(message) => {
            return Err(message);
        },
    };
    let mut plan: Vec<CodecNoFragScenario> = Vec::new();
    for k in 0..NOFRAG_CANDIDATES
        invariant
            plan@ == nofrag_scenarios(
                args.codec@,
                args.batch@,
                args.consumers@,
                target_rate,
                k as nat,
            ),
    {
        let (batch_size, messages, base_buffer): (usize, u64, usize) = if k / 18 == 0 {
            (8, 100_000, 16384)
        } else if k / 18 == 1 {
            (64, 50_000, 4096)
        } else {
            (256, 20_000, 2048)
        };
        let group: usize = k / 3 % 6;
        let consumers: usize = if group == 0 {
            1
        } else if group == 1 {
            2
        } else if group == 2 {
            4
        } else if group == 3 {
            6
        } else if group == 4 {
            8
        } else {
            12
        };
        let codec = if k % 3 == 0 {
            BatchCodec::Bincode
        } else if k % 3 == 1 {
            BatchCodec::Rkyv
        } else {
            BatchCodec::Flatbuf
        };
        proof {
            law_small_depths_fit(base_buffer as nat, consumers as nat);
        }
        let scenario = CodecNoFragScenario {
            codec,
            batch_size,
            messages,
            buffer_depth: scaled_buffer(base_buffer, consumers),
            consumers,
            target_rate,
        };
        assert(scenario == nofrag_candidate(k as int, target_rate));
        if matches_number(args.batch.as_str(), batch_size) && matches_number(
            args.consumers.as_str(),
            consumers,
        ) && matches_value(args.codec.as_str(), codec.slug()) {
            plan.push(scenario);
        }
    }
    Ok(plan)
}

/// The role of a producer for a batch size.
pub open spec fn nofrag_producer_role(batch_size: usize) -> Seq<char> {
    if batch_size == 8 {
        "nf_prod_8k"@
    } else if batch_size == 64 {
        "nf_prod_64k"@
    } else {
        "nf_prod_256k"@
    }
}

/// The role of a consumer for a batch size.
pub open spec fn nofrag_consumer_role(batch_size: usize) -> Seq<char> {
    if batch_size == 8 {
        "nf_cons_8k"@
    } else if batch_size == 64 {
        "nf_cons_64k"@
    } else {
        "nf_cons_256k"@
    }
}

/// There are slots and roles for the batch size.
pub open spec fn is_supported_batch(batch_size: usize) -> bool {
    batch_size == 8 || batch_size == 64 || batch_size == 256
}

/// Every planned scenario has slots and roles.
pub proof fn law_planned_batches_are_supported(
    codec: Seq<char>,
    batch: Seq<char>,
    consumers: Seq<char>,
    target_rate: u64,
    k: nat,
    i: int,
)
    requires
        0 <= i < nofrag_scenarios(codec, batch, consumers, target_rate, k).len(),
    ensures
        is_supported_batch(
            nofrag_scenarios(codec, batch, consumers, target_rate, k)[i].batch_size,
        ),
    decreases k,
{
    if k > 0 {
        let earlier = nofrag_scenarios(codec, batch, consumers, target_rate, (k - 1) as nat);
        if i < earlier.len() {
            law_planned_batches_are_supported(
                codec,
                batch,
                consumers,
                target_rate,
                (k - 1) as nat,
                i,
            );
        }
    }
}

impl CodecNoFragScenario {
    /// The size of the scenario's slots.
    pub fn slot_bytes(&self) -> (r: usize)
        ensures
            r == slot_bytes_for(self.batch_size),
    {
        if self.batch_size == 8 {
            8192
        } else if self.batch_size == 64 {
            65536
        } else {
            262144
        }
    }

    /// The role of the producer.
    pub fn producer_role(&self) -> (r: &'static str)
        requires
            is_supported_batch(self.batch_size),
        ensures
            r@ == nofrag_producer_role(self.batch_size),
    {
        if self.batch_size == 8 {
            "nf_prod_8k"
        } else if self.batch_size == 64 {
            "nf_prod_64k"
        } else {
            "nf_prod_256k"
        }
    }

    /// The role of a consumer.
    pub fn consumer_role(&self) -> (r: &'static str)
        requires
            is_supported_batch(self.batch_size),
        ensures
            r@ == nofrag_consumer_role(self.batch_size),
    {
        if self.batch_size == 8 {
            "nf_cons_8k"
        } else if self.batch_size == 64 {
            "nf_cons_64k"
        } else {
            "nf_cons_256k"
        }
    }

    /// The variables that all children share.
    pub open spec fn settings(&self, segment: Seq<char>) -> Seq<(Seq<char>, Seq<char>)> {
        seq![
            ("MYELON_BENCH_TARGET_RATE"@, decimal_text(self.target_rate as nat)),
            ("MYELON_BENCH_SEGMENT_NAME"@, segment),
            ("MYELON_BENCH_CODEC"@, batch_codec_slug(self.codec)),
            ("MYELON_BENCH_BATCH_SIZE"@, decimal_text(self.batch_size as nat)),
            ("MYELON_BENCH_MESSAGES"@, decimal_text(self.messages as nat)),
            ("MYELON_BENCH_BUFFER_DEPTH"@, decimal_text(self.buffer_depth as nat)),
            ("MYELON_BENCH_NUM_CONSUMERS"@, decimal_text(self.consumers as nat)),
        ]
    }
}

impl IpcBenchmark for CodecNoFragScenario {
    open spec fn facts(&self) -> BenchFacts {
        BenchFacts {
            bench_name: "codec_nofrag_shm"@,
            scenario_name: "nofrag_1p"@ + decimal_text(self.consumers as nat) + "c_"@ + decimal_text(
                self.batch_size as nat,
            ) + "seq_"@ + batch_codec_slug(self.codec),
            label: batch_codec_slug(self.codec) + "/"@ + decimal_text(self.batch_size as nat),
            backend: "shm"@,
            layer: "raw_ring+codec"@,
            transport: shm_transport(
                self.consumers as nat,
                self.codec != BatchCodec::Bincode,
                "none"@,
            ),
            codec: Some(batch_codec_slug(self.codec)),
            measurement_mode: rate_mode(self.target_rate as nat),
            wait_strategy: "BusySpin"@,
            message_size_bytes: slot_bytes_for(self.batch_size),
            payload_bytes: slot_bytes_for(self.batch_size),
            buffer_depth: self.buffer_depth as nat,
            num_messages: self.messages as nat,
            warmup_messages: 0,
            num_consumers: self.consumers as nat,
            timeout_secs: 180,
            throughput_unit: "ops/s"@,
            summary_label: summary_label_of(self.consumers as nat),
            latency_rule: LatencyRule::WorstP99,
            segment_prefix: "nf_"@ + batch_codec_slug(self.codec) + "_"@ + decimal_text(
                self.batch_size as nat,
            ),
            root_prefix: None,
        }
    }

    open spec fn launch_facts(&self, place: LaunchPlace) -> LaunchFacts {
        group_facts(
            nofrag_producer_role(self.batch_size),
            nofrag_consumer_role(self.batch_size),
            self.consumers as nat,
            "MYELON_BENCH_CONSUMER_ID"@,
            self.settings(place.segment@),
            None,
        )
    }

    open spec fn summary(&self, figures: SummaryFigures) -> Option<Seq<char>> {
        Some(
            "  "@
                + padded_right(batch_codec_slug(self.codec), 8)
                + " mode="@
                + padded_right(if self.target_rate > 0 {
                        "CO@"@ + figures.target_rate@
                    } else {
                        "tput"@
                    }, 10)
                + " cons="@
                + padded_right(decimal_text(self.consumers as nat), 2)
                + " batch="@
                + padded_right(decimal_text(self.batch_size as nat), 3)
                + " slot="@
                + padded_left(decimal_text(slot_bytes_for(self.batch_size) / 1024), 4)
                + "KB  enc: "@
                + padded_left(figures.encode_us@, 6)
                + "μs  write: "@
                + padded_left(figures.write_us@, 6)
                + "μs  dec: "@
                + padded_left(figures.decode_us@, 6)
                + "μs  | prod: "@
                + padded_left(figures.producer_ops@, 8)
                + "  "@
                + if self.consumers == 1 {
                    "cons"@
                } else {
                    "avg cons"@
                }
                + ": "@
                + padded_left(figures.consumer_ops@, 8)
                + "  "@
                + latency_or_dash(figures),
        )
    }

    open spec fn runnable(&self) -> bool {
        is_supported_batch(self.batch_size)
    }

    fn bench_name(&self) -> (r: &str) {
        "codec_nofrag_shm"
    }

    fn scenario_name(&self) -> (r: String) {
        let mut out: String = "nofrag_1p".to_owned();
        out.append(decimal(self.consumers as u64).as_str());
        out.append("c_");
        out.append(decimal(self.batch_size as u64).as_str());
        out.append("seq_");
        out.append(self.codec.slug());
        out
    }

    fn label(&self) -> (r: String) {
        let mut out: String = self.codec.slug().to_owned();
        out.append("/");
        out.append(decimal(self.batch_size as u64).as_str());
        out
    }

    fn backend(&self) -> (r: &str) {
        "shm"
    }

    fn layer(&self) -> (r: &str) {
        "raw_ring+codec"
    }

    fn transport_metadata(&self) -> (r: BenchTransportSpec) {
        let zero_copy = !matches!(self.codec, BatchCodec::Bincode);
        let base = BenchTransportSpec::benchmark_shm(self.consumers);
        base.with_zero_copy(zero_copy).with_framing("none")
    }

    fn codec(&self) -> (r: Option<&str>) {
        Some(self.codec.slug())
    }

    fn measurement_mode(&self) -> (r: String) {
        rate_mode_name(self.target_rate)
    }

    fn wait_strategy(&self) -> (r: &str) {
        "BusySpin"
    }

    fn message_size_bytes(&self) -> (r: usize) {
        self.slot_bytes()
    }

    fn payload_bytes(&self) -> (r: usize) {
        self.slot_bytes()
    }

    fn buffer_depth(&self) -> (r: usize) {
        self.buffer_depth
    }

    fn num_messages(&self) -> (r: u64) {
        self.messages
    }

    fn warmup_messages(&self) -> (r: u64) {
        0
    }

    fn num_consumers(&self) -> (r: usize) {
        self.consumers
    }

    fn timeout(&self) -> (r: u64) {
        180
    }

    fn throughput_unit(&self) -> (r: &str) {
        "ops/s"
    }

    fn consumer_summary_label(&self) -> (r: &str) {
        summary_label(self.consumers)
    }

    fn latency_rule(&self) -> (r: LatencyRule) {
        LatencyRule::WorstP99
    }

    fn segment_prefix(&self) -> (r: String) {
        let mut out: String = "nf_".to_owned();
        out.append(self.codec.slug());
        out.append("_");
        out.append(decimal(self.batch_size as u64).as_str());
        out
    }

    fn root_prefix(&self) -> (r: Option<String>) {
        None
    }

    fn summary_line(&self, figures: &SummaryFigures) -> (r: Option<String>) {
        let mut mode: String = "tput".to_owned();
        if self.target_rate > 0 {
            mode = "CO@".to_owned();
            mode.append(figures.target_rate.as_str());
        }
        let latency = figures.latency_text();
        let mut out: String = "  ".to_owned();
        out.append(pad_right(self.codec.slug(), 8).as_str());
        out.append(" mode=");
        out.append(pad_right(mode.as_str(), 10).as_str());
        out.append(" cons=");
        out.append(pad_right(decimal(self.consumers as u64).as_str(), 2).as_str());
        out.append(" batch=");
        out.append(pad_right(decimal(self.batch_size as u64).as_str(), 3).as_str());
        out.append(" slot=");
        out.append(pad_left(decimal((self.slot_bytes() / 1024) as u64).as_str(), 4).as_str());
        out.append("KB  enc: ");
        out.append(pad_left(figures.encode_us.as_str(), 6).as_str());
        out.append("μs  write: ");
        out.append(pad_left(figures.write_us.as_str(), 6).as_str());
        out.append("μs  dec: ");
        out.append(pad_left(figures.decode_us.as_str(), 6).as_str());
        out.append("μs  | prod: ");
        out.append(pad_left(figures.producer_ops.as_str(), 8).as_str());
        out.append("  ");
        out.append(if self.consumers == 1 { "cons" } else { "avg cons" });
        out.append(": ");
        out.append(pad_left(figures.consumer_ops.as_str(), 8).as_str());
        out.append("  ");
        out.append(latency.as_str());
        Some(out)
    }

    fn launch(&self, place: &LaunchPlace) -> (r: LaunchPlan) {
        let mut envs: Vec<EnvVar> = Vec::new();
        assert(env_views(envs@) =~= Seq::empty());
        push_number(&mut envs, "MYELON_BENCH_TARGET_RATE", self.target_rate);
        push_env(&mut envs, "MYELON_BENCH_SEGMENT_NAME", place.segment.clone());
        push_env(&mut envs, "MYELON_BENCH_CODEC", self.codec.slug().to_owned());
        push_number(&mut envs, "MYELON_BENCH_BATCH_SIZE", self.batch_size as u64);
        push_number(&mut envs, "MYELON_BENCH_MESSAGES", self.messages);
        push_number(&mut envs, "MYELON_BENCH_BUFFER_DEPTH", self.buffer_depth as u64);
        push_number(&mut envs, "MYELON_BENCH_NUM_CONSUMERS", self.consumers as u64);
        assert(env_views(envs@) =~= self.settings(place.segment@));
        let tail: Vec<EnvVar> = Vec::new();
        assert(env_views(tail@) =~= Seq::empty());
        let consumers = numbered_consumers(
            self.consumer_role(),
            &envs,
            "MYELON_BENCH_CONSUMER_ID",
            &tail,
            self.consumers,
        );
        LaunchPlan {
            producer: ChildSpawn { role: self.producer_role().to_owned(), envs },
            consumers,
            cleanup_path: None,
        }
    }
}

/// The candidates are every batch size of 8, 64 and 256 with every number of
/// consumers of 1, 2, 4, 6, 8 and 12 and every codec, each once. A batch size has
/// its own number of messages and its own base depth.
pub proof fn law_candidates_are_every_combination(
    codec: BatchCodec,
    batch_size: usize,
    consumers: usize,
    target_rate: u64,
) -> (k: int)
    requires
        batch_size == 8 || batch_size == 64 || batch_size == 256,
        consumers == 1 || consumers == 2 || consumers == 4 || consumers == 6 || consumers == 8
            || consumers == 12,
    ensures
        0 <= k < 54,
        nofrag_candidate(k, target_rate).codec == codec,
        nofrag_candidate(k, target_rate).batch_size == batch_size,
        nofrag_candidate(k, target_rate).consumers == consumers,
        nofrag_candidate(k, target_rate).target_rate == target_rate,
        batch_size == 8 ==> nofrag_candidate(k, target_rate).messages == 100_000
            && nofrag_candidate(k, target_rate).buffer_depth == scaled_depth(
            16384,
            consumers as nat,
        ) as usize,
        batch_size == 64 ==> nofrag_candidate(k, target_rate).messages == 50_000
            && nofrag_candidate(k, target_rate).buffer_depth == scaled_depth(
            4096,
            consumers as nat,
        ) as usize,
        batch_size == 256 ==> nofrag_candidate(k, target_rate).messages == 20_000
            && nofrag_candidate(k, target_rate).buffer_depth == scaled_depth(
            2048,
            consumers as nat,
        ) as usize,
        forall|j: int|
            0 <= j < 54 && (#[trigger] nofrag_candidate(j, target_rate)).codec == codec
                && nofrag_candidate(j, target_rate).batch_size == batch_size && nofrag_candidate(
                j,
                target_rate,
            ).consumers == consumers ==> j == k,
{
    let b: int = if batch_size == 8 {
        0
    } else if batch_size == 64 {
        1
    } else {
        2
    };
    let n: int = if consumers == 1 {
        0
    } else if consumers == 2 {
        1
    } else if consumers == 4 {
        2
    } else if consumers == 6 {
        3
    } else if consumers == 8 {
        4
    } else {
        5
    };
    let c: int = match codec {
        BatchCodec::Bincode => 0,
        BatchCodec::Rkyv => 1,
        BatchCodec::Flatbuf => 2,
    };
    let k = 18 * b + 3 * n + c;
    assert(k / 18 == b && k / 3 % 6 == n && k % 3 == c);
    assert forall|j: int|
        0 <= j < 54 && (#[trigger] nofrag_candidate(j, target_rate)).codec == codec
            && nofrag_candidate(j, target_rate).batch_size == batch_size && nofrag_candidate(
            j,
            target_rate,
        ).consumers == consumers implies j == k by {
        assert(j / 18 == b && j / 3 % 6 == n && j % 3 == c);
        assert(j == 18 * (j / 18) + 3 * (j / 3 % 6) + j % 3);
    }
    k
}

/// A scenario is planned exactly where it is a candidate whose batch size, number
/// of consumers and codec the command line selects.
pub proof fn law_codec_plan_is_what_is_selected(
    codec: Seq<char>,
    batch: Seq<char>,
    consumers: Seq<char>,
    target_rate: u64,
    k: nat,
    s: CodecNoFragScenario,
)
    ensures
        nofrag_scenarios(codec, batch, consumers, target_rate, k).contains(s) <==> selects_number(
            batch,
            s.batch_size as nat,
        ) && selects_number(consumers, s.consumers as nat) && selects(
            codec,
            batch_codec_slug(s.codec),
        ) && exists|j: int| 0 <= j < k && s == #[trigger] nofrag_candidate(j, target_rate),
    decreases k,
{
    if k > 0 {
        let last = k - 1;
        let before = nofrag_scenarios(codec, batch, consumers, target_rate, last as nat);
        let here = nofrag_candidate(last, target_rate);
        law_codec_plan_is_what_is_selected(codec, batch, consumers, target_rate, last as nat, s);
        vstd::seq_lib::lemma_seq_contains_after_push(before, here, s);
        if s == here {
            assert(before.push(here)[before.len() as int] == here);
        }
    }
}

/// A target rate goes with the mode `co` and with no other, and no mode but these
/// two is taken.
pub proof fn law_rate_goes_with_its_mode(mode: Seq<char>, rate: Option<u64>)
    ensures
        mode_error(mode, rate) is None <==> (mode == "co"@ && rate is Some) || (mode
            == "throughput"@ && rate is None),
{
    reveal_strlit("throughput");
    reveal_strlit("co");
    assert("throughput"@.len() == 10);
    assert("co"@.len() == 2);
}

/// A batch has slots and roles of its own size.
pub proof fn law_batch_has_its_slot_and_roles(s: CodecNoFragScenario, place: LaunchPlace)
    requires
        is_supported_batch(s.batch_size),
    ensures
        s.facts().message_size_bytes == s.facts().payload_bytes,
        s.batch_size == 8 ==> s.facts().message_size_bytes == 8 * 1024 && s.launch_facts(
            place,
        ).producer_role == "nf_prod_8k"@ && s.launch_facts(place).consumer_role == "nf_cons_8k"@,
        s.batch_size == 64 ==> s.facts().message_size_bytes == 64 * 1024 && s.launch_facts(
            place,
        ).producer_role == "nf_prod_64k"@ && s.launch_facts(place).consumer_role
            == "nf_cons_64k"@,
        s.batch_size == 256 ==> s.facts().message_size_bytes == 256 * 1024 && s.launch_facts(
            place,
        ).producer_role == "nf_prod_256k"@ && s.launch_facts(place).consumer_role
            == "nf_cons_256k"@,
        s.facts().bench_name == "codec_nofrag_shm"@,
        s.facts().backend == "shm"@,
        s.facts().layer == "raw_ring+codec"@,
        s.codec == BatchCodec::Bincode ==> s.facts().codec == Some("bincode"@)
            && s.facts().transport.zero_copy == Some(false),
        s.codec == BatchCodec::Rkyv ==> s.facts().codec == Some("rkyv"@)
            && s.facts().transport.zero_copy == Some(true),
        s.codec == BatchCodec::Flatbuf ==> s.facts().codec == Some("flatbuf"@)
            && s.facts().transport.zero_copy == Some(true),
        s.facts().transport.framing == Some("none"@),
        s.target_rate == 0 ==> s.facts().measurement_mode == "max_throughput"@,
        s.target_rate > 0 ==> s.facts().measurement_mode == "co_aware@"@ + decimal_text(
            s.target_rate as nat,
        ),
        s.facts().buffer_depth == s.buffer_depth,
        s.facts().num_messages == s.messages,
        s.facts().warmup_messages == 0,
        s.facts().num_consumers == s.consumers,
        s.facts().timeout_secs == 180,
        s.facts().latency_rule == LatencyRule::WorstP99,
{
}

/// The line of a codec scenario gives the slot, the times of the phases and each
/// side's throughput behind their own labels.
pub proof fn law_codec_line_labels_its_figures(s: CodecNoFragScenario, figures: SummaryFigures)
    ensures
        s.summary(figures) is Some,
        contains_text(
            s.summary(figures)->0,
            " batch="@ + padded_right(decimal_text(s.batch_size as nat), 3),
        ),
        contains_text(s.summary(figures)->0, "KB  enc: "@ + padded_left(figures.encode_us@, 6)),
        contains_text(s.summary(figures)->0, "μs  write: "@ + padded_left(figures.write_us@, 6)),
        contains_text(s.summary(figures)->0, "μs  dec: "@ + padded_left(figures.decode_us@, 6)),
        contains_text(
            s.summary(figures)->0,
            "μs  | prod: "@ + padded_left(figures.producer_ops@, 8),
        ),
        contains_text(s.summary(figures)->0, ": "@ + padded_left(figures.consumer_ops@, 8)),
        contains_text(s.summary(figures)->0, "  "@ + latency_or_dash(figures)),
{
    let whole = s.summary(figures)->0;
    let mode = if s.target_rate > 0 {
        "CO@"@ + figures.target_rate@
    } else {
        "tput"@
    };
    let side = if s.consumers == 1 {
        "cons"@
    } else {
        "avg cons"@
    };
    let slot = padded_left(decimal_text(slot_bytes_for(s.batch_size) / 1024), 4);
    let a = "  "@ + padded_right(batch_codec_slug(s.codec), 8) + " mode="@ + padded_right(mode, 10)
        + " cons="@ + padded_right(decimal_text(s.consumers as nat), 2);
    let b = a + " batch="@ + padded_right(decimal_text(s.batch_size as nat), 3);
    let c = b + " slot="@ + slot;
    let d = c + "KB  enc: "@ + padded_left(figures.encode_us@, 6);
    let e = d + "μs  write: "@ + padded_left(figures.write_us@, 6);
    let f = e + "μs  dec: "@ + padded_left(figures.decode_us@, 6);
    let g = f + "μs  | prod: "@ + padded_left(figures.producer_ops@, 8);
    let h = g + "  "@ + side;
    let i = h + ": "@ + padded_left(figures.consumer_ops@, 8);
    lemma_whole_prefix(whole);
    lemma_labelled(whole, i, "  "@, latency_or_dash(figures));
    lemma_labelled(whole, h, ": "@, padded_left(figures.consumer_ops@, 8));
    lemma_labelled(whole, g, "  "@, side);
    lemma_labelled(whole, f, "μs  | prod: "@, padded_left(figures.producer_ops@, 8));
    lemma_labelled(whole, e, "μs  dec: "@, padded_left(figures.decode_us@, 6));
    lemma_labelled(whole, d, "μs  write: "@, padded_left(figures.write_us@, 6));
    lemma_labelled(whole, c, "KB  enc: "@, padded_left(figures.encode_us@, 6));
    lemma_labelled(whole, b, " slot="@, slot);
    lemma_labelled(whole, a, " batch="@, padded_right(decimal_text(s.batch_size as nat), 3));
}

} // verus!
