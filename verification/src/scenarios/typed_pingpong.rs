//! Typed zero-copy ping-pong: an initiator sends encoded batches, an echo
//! process answers each.
use vstd::prelude::*;
use crate::bench::{
    plain_summary, plain_summary_line, BenchFacts, IpcBenchmark, LatencyRule, TransportFacts,
};
use crate::decimal::{decimal, decimal_text};
use crate::event_consumer::{checksum_of, wrapped_sum};
use crate::latency::{with_latency, LatencyRecorder, LatencyStats};
use crate::launch::{
    copied_envs, env_views, push_env, push_number, ChildSpawn, EnvVar, LaunchFacts, LaunchPlace,
    LaunchPlan,
};
use crate::pacing::{co_interval_ns, due_at, intended_ns, interval_of};
use crate::reporting::BenchTransportSpec;
use crate::results::{ConsumerOutput, MeasuredRates};
use crate::summary::SummaryFigures;
use crate::text::{lower_text, same_text, to_lower};

verus! {

/// How a typed consumer waits.
#[derive(Clone, Copy, Debug, PartialEq, Eq, Structural)]
pub enum TypedWaitStrategy {
    BusySpin,
    Block,
}

/// Reads a wait strategy from its name, in whatever case.
pub fn parse_typed_wait_strategy(value: &str) -> (r: Result<TypedWaitStrategy, String>)
    ensures
        match r {
            Ok(TypedWaitStrategy::BusySpin) => lower_text(value@) == "busyspin"@,
            Ok(TypedWaitStrategy::Block) => lower_text(value@) == "block"@,
            Err(message) => lower_text(value@) != "busyspin"@ && lower_text(value@) != "block"@
                && message@ == "unsupported wait strategy: "@ + lower_text(value@),
        },
{
    let name = to_lower(value);
    if same_text(name.as_str(), "busyspin") {
        Ok(TypedWaitStrategy::BusySpin)
    } else if same_text(name.as_str(), "block") {
        Ok(TypedWaitStrategy::Block)
    } else {
        let mut message: String = "unsupported wait strategy: ".to_owned();
        message.append(name.as_str());
        Err(message)
    }
}

/// The name of the wait strategy in reports.
pub open spec fn reported_wait_strategy(value: Seq<char>) -> Seq<char> {
    if lower_text(value) == "block"@ {
        "Block"@
    } else {
        "BusySpin"@
    }
}

/// The room for putting a message's frames together: a quarter of a mebibyte,
/// or more where the message is larger.
pub fn reassembly_capacity(encoded_bytes: usize) -> (r: usize)
    ensures
        r == if encoded_bytes >= 262144 {
            encoded_bytes
        } else {
            262144
        },
{
    if encoded_bytes >= 262144 {
        encoded_bytes
    } else {
        262144
    }
}

/// The layer that a codec's zero-copy transport counts as.
pub fn zero_copy_layer(codec: &str) -> (r: &'static str)
    ensures
        r@ == if codec@ == "flatbuf"@ {
            "typed_zero_copy_flatbuf"@
        } else {
            "typed_zero_copy"@
        },
{
    if same_text(codec, "flatbuf") {
        "typed_zero_copy_flatbuf"
    } else {
        "typed_zero_copy"
    }
}

/// What an initiator does next.
#[derive(Clone, Copy, Debug, PartialEq, Eq, Structural)]
pub enum InitiatorStep {
    /// Wait: the next message is not due yet.
    Wait,
    /// Send a message, charged from `send_ns` on; start the clock first where
    /// it is the first measured one.
    Send { send_ns: u64, starts_clock: bool },
    /// All messages are sent.
    Done,
}

/// The initiator of a ping-pong run.
#[derive(Clone, Copy, Debug, PartialEq, Eq, Structural)]
pub struct Initiator {
    pub warmup: u64,
    pub messages: u64,
    pub interval_ns: Option<u64>,
    pub base_ns: u64,
    pub index: u64,
    pub checksum_total: u64,
}

impl Initiator {
    /// No more is sent than there is.
    pub open spec fn well_formed(&self) -> bool {
        &&& self.warmup + self.messages <= u64::MAX
        &&& self.index <= self.warmup + self.messages
    }

    /// The time at which the next message is due, where one is set.
    pub open spec fn next_due(&self) -> Option<nat> {
        match self.interval_ns {
            Some(interval) => if self.index >= self.warmup {
                Some(
                    due_at(
                        self.base_ns as nat,
                        (self.index - self.warmup) as nat,
                        interval as nat,
                    ),
                )
            } else {
                None
            },
            None => None,
        }
    }

    /// What comes next at the time `now_ns`.
    pub open spec fn next_step(&self, now_ns: u64) -> InitiatorStep {
        if self.index == self.warmup + self.messages {
            InitiatorStep::Done
        } else if self.next_due() is Some && now_ns < self.next_due()->0 {
            InitiatorStep::Wait
        } else {
            InitiatorStep::Send {
                send_ns: match self.next_due() {
                    Some(due) => due as u64,
                    None => now_ns,
                },
                starts_clock: self.index == self.warmup,
            }
        }
    }

    /// An initiator that has sent nothing, at the time `base_ns`.
    pub fn new(warmup: u64, messages: u64, target_rate: u64, base_ns: u64) -> (r: Initiator)
        requires
            warmup + messages <= u64::MAX,
        ensures
            r.well_formed(),
            r.warmup == warmup,
            r.messages == messages,
            match r.interval_ns {
                Some(interval) => interval_of(target_rate as nat) == Some(interval as nat),
                None => interval_of(target_rate as nat) is None,
            },
            r.base_ns == base_ns,
            r.index == 0,
            r.checksum_total == 0,
    {
        Initiator {
            warmup,
            messages,
            interval_ns: co_interval_ns(target_rate),
            base_ns,
            index: 0,
            checksum_total: 0,
        }
    }

    /// What comes next at the time `now_ns`.
    pub fn step(&self, now_ns: u64) -> (r: InitiatorStep)
        requires
            self.well_formed(),
        ensures
            r == self.next_step(now_ns),
    {
        if self.index == self.warmup + self.messages {
            return InitiatorStep::Done;
        }
        let mut send_ns: u64 = now_ns;
        if self.index >= self.warmup {
            if let Some(interval) = self.interval_ns {
                let due: u64 = intended_ns(self.base_ns, self.index - self.warmup, interval);
                if now_ns < due {
                    return InitiatorStep::Wait;
                }
                send_ns = due;
            }
        }
        InitiatorStep::Send { send_ns, starts_clock: self.index == self.warmup }
    }

    /// Takes the answer to a message that was charged from `send_ns` on. Only
    /// measured messages count.
    pub fn receive(
        &mut self,
        response_sum: u64,
        send_ns: u64,
        now_ns: u64,
        recorder: &mut LatencyRecorder,
    )
        requires
            old(self).well_formed(),
            old(self).index < old(self).warmup + old(self).messages,
            old(recorder).well_formed(),
        ensures
            final(self).well_formed(),
            final(recorder).well_formed(),
            final(recorder).limit() == old(recorder).limit(),
            *final(self) == (Initiator {
                index: (old(self).index + 1) as u64,
                checksum_total: if old(self).index >= old(self).warmup {
                    wrapped_sum(old(self).checksum_total as nat, response_sum as nat) as u64
                } else {
                    old(self).checksum_total
                },
                ..*old(self)
            }),
            old(self).index < old(self).warmup || now_ns <= send_ns ==> final(recorder).recorded()
                == old(recorder).recorded(),
            old(self).index >= old(self).warmup && now_ns > send_ns ==> final(recorder).recorded()
                == with_latency(
                old(recorder).recorded(),
                (now_ns - send_ns) as u64,
                old(recorder).limit(),
            ),
    {
        if self.index >= self.warmup {
            self.checksum_total = self.checksum_total.wrapping_add(response_sum);
            recorder.record_delta(send_ns, now_ns);
        }
        self.index = self.index + 1;
    }

    /// The report of the initiator, where every answer had the checksum that
    /// it should have and latency was measured.
    pub fn report(
        &self,
        expected_checksum: u64,
        latency: Option<LatencyStats>,
        rates: MeasuredRates,
    ) -> (r: Result<ConsumerOutput, String>)
        ensures
            match r {
                Ok(output) => {
                    &&& self.checksum_total == expected_total(expected_checksum, self.messages)
                    &&& latency is Some
                    &&& output == (ConsumerOutput {
                        consumer_id: 0,
                        throughput_ops_sec: rates.throughput_ops_sec,
                        events_consumed: self.messages,
                        bandwidth_bytes_sec: rates.bandwidth_bytes_sec,
                        data_rate_gbps: rates.data_rate_gbps,
                        latency,
                        phase_timing: None,
                        checksum: self.checksum_total,
                    })
                },
                Err(message) => {
                    ||| self.checksum_total != expected_total(expected_checksum, self.messages)
                        && message@ == "checksum mismatch: got "@ + decimal_text(
                        self.checksum_total as nat,
                    ) + " expected "@ + decimal_text(
                        expected_total(expected_checksum, self.messages),
                    )
                    ||| self.checksum_total == expected_total(expected_checksum, self.messages)
                        && latency is None && message@ == "no latency samples recorded"@
                },
            },
    {
        let expected: u64 = expected_checksum.wrapping_mul(self.messages);
        if self.checksum_total != expected {
            let mut message: String = "checksum mismatch: got ".to_owned();
            message.append(decimal(self.checksum_total).as_str());
            message.append(" expected ");
            message.append(decimal(expected).as_str());
            return Err(message);
        }
        match latency {
            Some(stats) => Ok(
                ConsumerOutput::from_elapsed(
                    0,
                    self.messages,
                    rates,
                    self.checksum_total,
                ).with_latency(stats),
            ),
            None => Err("no latency samples recorded".to_owned()),
        }
    }
}

/// The checksum of as many answers, modulo two to the sixty-four.
pub open spec fn expected_total(expected_checksum: u64, messages: u64) -> nat {
    (expected_checksum as nat * messages as nat) % 0x1_0000_0000_0000_0000
}

/// Answers that all have the right checksum add up to the expected one.
pub proof fn law_right_answers_add_up(expected_checksum: u64, messages: u64, k: nat)
    requires
        k <= messages,
    ensures
        checksum_of(Seq::new(messages as nat, |i: int| expected_checksum), 0, k) == (
        expected_checksum as nat * k) % 0x1_0000_0000_0000_0000,
    decreases k,
{
    let answers = Seq::new(messages as nat, |i: int| expected_checksum);
    let m = 0x1_0000_0000_0000_0000int;
    if k == 0 {
        assert(expected_checksum as nat * 0 == 0) by (nonlinear_arith);
    } else {
        law_right_answers_add_up(expected_checksum, messages, (k - 1) as nat);
        let e = expected_checksum as int;
        let before = e * (k - 1);
        assert(e * k == before + e) by (nonlinear_arith)
            requires
                before == e * (k - 1),
        ;
        assert((before % m + e) % m == (before + e) % m) by {
            vstd::arithmetic::div_mod::lemma_add_mod_noop(before, e, m);
            vstd::arithmetic::div_mod::lemma_add_mod_noop(before % m, e, m);
            vstd::arithmetic::div_mod::lemma_mod_twice(before, m);
        }
    }
}

/// What an echo process does with the message at `index`.
#[derive(Clone, Copy, Debug, PartialEq, Eq, Structural)]
pub enum TypedEchoStep {
    /// Receive it and answer; start the clock between the two where it is the
    /// first measured one.
    Answer { starts_clock: bool },
    /// The run was called off.
    CalledOff,
    /// All messages are answered.
    Done,
}

/// What an echo process does with the message at `index`.
pub fn typed_echo_step(index: u64, warmup: u64, messages: u64, shutdown: bool) -> (r: TypedEchoStep)
    requires
        warmup + messages <= u64::MAX,
    ensures
        r == if index >= warmup + messages {
            TypedEchoStep::Done
        } else if shutdown {
            TypedEchoStep::CalledOff
        } else {
            TypedEchoStep::Answer { starts_clock: index == warmup }
        },
{
    if index >= warmup + messages {
        TypedEchoStep::Done
    } else if shutdown {
        TypedEchoStep::CalledOff
    } else {
        TypedEchoStep::Answer { starts_clock: index == warmup }
    }
}

/// A typed zero-copy ping-pong scenario.
#[derive(Clone, Debug)]
pub struct TypedPingPongScenario {
    pub layer: String,
    pub codec: String,
    pub batch_size: usize,
    pub encoded_bytes: usize,
    pub messages: u64,
    pub warmup: u64,
    pub buffer_depth: usize,
    pub wait_strategy: String,
    pub measurement: String,
    pub target_rate: u64,
    pub producer_role: String,
    pub consumer_role: String,
}

/// What a ping-pong scenario is made from.
#[derive(Clone, Debug)]
pub struct TypedPingPongSpec {
    pub codec: String,
    pub batch_size: usize,
    pub messages: u64,
    pub warmup: u64,
    pub buffer_depth: usize,
    pub wait_strategy: String,
    pub measurement: String,
    pub target_rate: u64,
    pub producer_role: String,
    pub consumer_role: String,
}

impl TypedPingPongScenario {
    /// The scenario that a specification asks for, whose batches take so many
    /// bytes when encoded.
    pub fn from_spec(spec: &TypedPingPongSpec, encoded_bytes: usize) -> (r: TypedPingPongScenario)
        ensures
            r.layer@ == if spec.codec@ == "flatbuf"@ {
                "typed_zero_copy_flatbuf"@
            } else {
                "typed_zero_copy"@
            },
            r == (TypedPingPongScenario {
                layer: r.layer,
                codec: spec.codec,
                batch_size: spec.batch_size,
                encoded_bytes,
                messages: spec.messages,
                warmup: spec.warmup,
                buffer_depth: spec.buffer_depth,
                wait_strategy: spec.wait_strategy,
                measurement: spec.measurement,
                target_rate: spec.target_rate,
                producer_role: spec.producer_role,
                consumer_role: spec.consumer_role,
            }),
    {
        TypedPingPongScenario {
            layer: zero_copy_layer(spec.codec.as_str()).to_owned(),
            codec: spec.codec.clone(),
            batch_size: spec.batch_size,
            encoded_bytes,
            messages: spec.messages,
            warmup: spec.warmup,
            buffer_depth: spec.buffer_depth,
            wait_strategy: spec.wait_strategy.clone(),
            measurement: spec.measurement.clone(),
            target_rate: spec.target_rate,
            producer_role: spec.producer_role.clone(),
            consumer_role: spec.consumer_role.clone(),
        }
    }

    /// The name of the scenario.
    pub open spec fn name(&self) -> Seq<char> {
        "pingpong_codec_1p1c_"@ + self.codec@ + "_b"@ + decimal_text(self.batch_size as nat)
    }

    /// The name of the scenario.
    fn name_text(&self) -> (r: String)
        ensures
            r@ == self.name(),
    {
        let mut out: String = "pingpong_codec_1p1c_".to_owned();
        out.append(self.codec.as_str());
        out.append("_b");
        out.append(decimal(self.batch_size as u64).as_str());
        out
    }

    /// The environment that both children share.
    pub open spec fn settings(&self, place: LaunchPlace) -> Seq<(Seq<char>, Seq<char>)> {
        seq![
            ("PING_SEGMENT"@, place.segment@),
            ("PONG_SEGMENT"@, place.pong_segment@),
            ("COORDINATION_SEGMENT"@, place.coordination_segment@),
            ("BENCH_CODEC"@, self.codec@),
            ("BENCH_BATCH_SIZE"@, decimal_text(self.batch_size as nat)),
            ("BENCH_ENCODED_BYTES"@, decimal_text(self.encoded_bytes as nat)),
            ("BENCH_MESSAGES"@, decimal_text(self.messages as nat)),
            ("BENCH_WARMUP"@, decimal_text(self.warmup as nat)),
            ("BENCH_BUFFER_DEPTH"@, decimal_text(self.buffer_depth as nat)),
            ("BENCH_WAIT_STRATEGY"@, self.wait_strategy@),
            ("BENCH_TARGET_RATE"@, decimal_text(self.target_rate as nat)),
        ]
    }
}

impl IpcBenchmark for TypedPingPongScenario {
    open spec fn facts(&self) -> BenchFacts {
        BenchFacts {
            bench_name: "pingpong_typed_zero_copy_shm"@,
            scenario_name: self.name(),
            label: self.name(),
            backend: "shm"@,
            layer: self.layer@,
            transport: TransportFacts {
                coordination: Some("UnifiedCoordination"@),
                discovery_mode: Some("explicit_consumer_id"@),
                zero_copy: Some(true),
                framing: Some("fixed_64k"@),
            },
            codec: Some(self.codec@),
            measurement_mode: self.measurement@,
            wait_strategy: reported_wait_strategy(self.wait_strategy@),
            message_size_bytes: self.encoded_bytes as nat,
            payload_bytes: self.encoded_bytes as nat,
            buffer_depth: self.buffer_depth as nat,
            num_messages: self.messages as nat,
            warmup_messages: self.warmup as nat,
            num_consumers: 1,
            timeout_secs: 300,
            throughput_unit: "msgs/s"@,
            summary_label: "initiator"@,
            latency_rule: LatencyRule::Last,
            segment_prefix: "mpzc_ping"@,
            root_prefix: None,
        }
    }

    open spec fn launch_facts(&self, place: LaunchPlace) -> LaunchFacts {
        LaunchFacts {
            producer_role: self.producer_role@,
            producer_envs: self.settings(place),
            consumer_role: self.consumer_role@,
            consumer_envs: seq![self.settings(place)],
            cleanup_path: None,
        }
    }

    open spec fn summary(&self, figures: SummaryFigures) -> Option<Seq<char>> {
        Some(plain_summary(self.facts(), figures))
    }

    open spec fn runnable(&self) -> bool {
        true
    }

    fn bench_name(&self) -> (r: &str) {
        "pingpong_typed_zero_copy_shm"
    }

    fn scenario_name(&self) -> (r: String) {
        self.name_text()
    }

    fn label(&self) -> (r: String) {
        self.name_text()
    }

    fn backend(&self) -> (r: &str) {
        "shm"
    }

    fn layer(&self) -> (r: &str) {
        self.layer.as_str()
    }

    fn transport_metadata(&self) -> (r: BenchTransportSpec) {
        let shared = BenchTransportSpec::unified_pingpong();
        let base = shared.with_zero_copy(true).with_framing("fixed_64k");
        BenchTransportSpec { discovery_mode: Some("explicit_consumer_id".to_owned()), ..base }
    }

    fn codec(&self) -> (r: Option<&str>) {
        Some(self.codec.as_str())
    }

    fn measurement_mode(&self) -> (r: String) {
        self.measurement.clone()
    }

    fn wait_strategy(&self) -> (r: &str) {
        if same_text(to_lower(self.wait_strategy.as_str()).as_str(), "block") {
            "Block"
        } else {
            "BusySpin"
        }
    }

    fn message_size_bytes(&self) -> (r: usize) {
        self.encoded_bytes
    }

    fn payload_bytes(&self) -> (r: usize) {
        self.encoded_bytes
    }

    fn buffer_depth(&self) -> (r: usize) {
        self.buffer_depth
    }

    fn num_messages(&self) -> (r: u64) {
        self.messages
    }

    fn warmup_messages(&self) -> (r: u64) {
        self.warmup
    }

    fn num_consumers(&self) -> (r: usize) {
        1
    }

    fn timeout(&self) -> (r: u64) {
        300
    }

    fn throughput_unit(&self) -> (r: &str) {
        "msgs/s"
    }

    fn consumer_summary_label(&self) -> (r: &str) {
        "initiator"
    }

    fn latency_rule(&self) -> (r: LatencyRule) {
        LatencyRule::Last
    }

    fn segment_prefix(&self) -> (r: String) {
        "mpzc_ping".to_owned()
    }

    fn root_prefix(&self) -> (r: Option<String>) {
        None
    }

    fn summary_line(&self, figures: &SummaryFigures) -> (r: Option<String>) {
        let name = self.scenario_name();
        Some(
            plain_summary_line(
                name.as_str(),
                self.throughput_unit(),
                self.consumer_summary_label(),
                figures,
            ),
        )
    }

    fn launch(&self, place: &LaunchPlace) -> (r: LaunchPlan) {
        let mut envs: Vec<EnvVar> = Vec::new();
        assert(env_views(envs@) =~= Seq::empty());
        push_env(&mut envs, "PING_SEGMENT", place.segment.clone());
        push_env(&mut envs, "PONG_SEGMENT", place.pong_segment.clone());
        push_env(&mut envs, "COORDINATION_SEGMENT", place.coordination_segment.clone());
        push_env(&mut envs, "BENCH_CODEC", self.codec.clone());
        push_number(&mut envs, "BENCH_BATCH_SIZE", self.batch_size as u64);
        push_number(&mut envs, "BENCH_ENCODED_BYTES", self.encoded_bytes as u64);
        push_number(&mut envs, "BENCH_MESSAGES", self.messages);
        push_number(&mut envs, "BENCH_WARMUP", self.warmup);
        push_number(&mut envs, "BENCH_BUFFER_DEPTH", self.buffer_depth as u64);
        push_env(&mut envs, "BENCH_WAIT_STRATEGY", self.wait_strategy.clone());
        push_number(&mut envs, "BENCH_TARGET_RATE", self.target_rate);
        assert(env_views(envs@) == self.settings(*place));
        let mut consumers: Vec<ChildSpawn> = Vec::new();
        consumers.push(ChildSpawn { role: self.consumer_role.clone(), envs: copied_envs(&envs) });
        LaunchPlan {
            producer: ChildSpawn { role: self.producer_role.clone(), envs },
            consumers,
            cleanup_path: None,
        }
    }
}

/// An initiator waits only for a measured message of a paced run that is not due.
/// A message goes out at once otherwise: a warmup or an unpaced one charged from
/// now on, a paced one from when it was due. The clock starts with the first
/// measured one, and all is done once every message is sent.
pub proof fn law_initiator_charges_from_the_due_time(initiator: Initiator, now_ns: u64)
    requires
        initiator.well_formed(),
    ensures
        initiator.next_step(now_ns) is Done <==> initiator.index == initiator.warmup
            + initiator.messages,
        initiator.next_step(now_ns) is Wait ==> initiator.index >= initiator.warmup
            && initiator.interval_ns is Some && now_ns < due_at(
            initiator.base_ns as nat,
            (initiator.index - initiator.warmup) as nat,
            initiator.interval_ns->0 as nat,
        ),
        initiator.next_step(now_ns) is Send ==> {
            &&& initiator.next_step(now_ns)->starts_clock <==> initiator.index == initiator.warmup
            &&& initiator.index < initiator.warmup || initiator.interval_ns is None
                ==> initiator.next_step(now_ns)->send_ns == now_ns
            &&& initiator.index >= initiator.warmup && initiator.interval_ns is Some ==> {
                &&& initiator.next_step(now_ns)->send_ns == due_at(
                    initiator.base_ns as nat,
                    (initiator.index - initiator.warmup) as nat,
                    initiator.interval_ns->0 as nat,
                )
                &&& initiator.next_step(now_ns)->send_ns <= now_ns
            }
        },
{
}

/// The expected checksum grows by that of one answer with each message.
pub proof fn law_expected_total_grows_by_one_answer(expected_checksum: u64, messages: u64)
    requires
        messages < u64::MAX,
    ensures
        expected_total(expected_checksum, 0) == 0,
        expected_total(expected_checksum, (messages + 1) as u64) == (expected_total(
            expected_checksum,
            messages,
        ) + expected_checksum) % 0x1_0000_0000_0000_0000,
{
    let m = 0x1_0000_0000_0000_0000int;
    let e = expected_checksum as int;
    let n = messages as int;
    assert(e * 0 == 0) by (nonlinear_arith);
    assert(e * (n + 1) == e * n + e) by (nonlinear_arith);
    vstd::arithmetic::div_mod::lemma_add_mod_noop(e * n, e, m);
    vstd::arithmetic::div_mod::lemma_add_mod_noop((e * n) % m, e, m);
    vstd::arithmetic::div_mod::lemma_mod_twice(e * n, m);
}

/// A typed ping-pong scenario says of itself what it is made of.
pub proof fn law_typed_pingpong_says_what_it_is(s: TypedPingPongScenario)
    ensures
        s.facts().bench_name == "pingpong_typed_zero_copy_shm"@,
        s.facts().backend == "shm"@,
        s.facts().layer == s.layer@,
        s.facts().codec == Some(s.codec@),
        s.facts().measurement_mode == s.measurement@,
        lower_text(s.wait_strategy@) == "block"@ ==> s.facts().wait_strategy == "Block"@,
        lower_text(s.wait_strategy@) != "block"@ ==> s.facts().wait_strategy == "BusySpin"@,
        s.facts().transport.zero_copy == Some(true),
        s.facts().transport.framing == Some("fixed_64k"@),
        s.facts().message_size_bytes == s.encoded_bytes,
        s.facts().payload_bytes == s.encoded_bytes,
        s.facts().buffer_depth == s.buffer_depth,
        s.facts().num_messages == s.messages,
        s.facts().warmup_messages == s.warmup,
        s.facts().num_consumers == 1,
        s.facts().timeout_secs == 300,
        s.facts().latency_rule == LatencyRule::Last,
{
}

} // verus!
