//! The contract between a scenario and the harness that runs it.
use vstd::prelude::*;
use crate::averages::{consumer_plan, is_mean, takes_any_plan, MeanPlan};
use crate::decimal::{decimal, decimal_text, law_number_reads_back, parse_u64};
use crate::env_config::number_or;
use crate::latency::LatencyStats;
use crate::launch::{LaunchFacts, LaunchPlace, LaunchPlan};
use crate::metric::{Metric, ZERO_BITS};
use crate::process::ProcessOutput;
use crate::reporting::{
    attach_child_metrics, has_child_metrics, is_made_from, law_child_metrics_are_those_reported,
    law_made_result_says_what_is_specified, make_result, throughputs, BenchMetadata, BenchResult,
    BenchResultSpec, BenchTransportSpec,
};
use crate::results::{ConsumerOutput, ProducerOutput};
use crate::summary::SummaryFigures;
use crate::text::{
    after_prefix, contains_text, has_prefix, lemma_labelled, lemma_longer_prefix,
    lemma_whole_prefix, option_view, pad_left, pad_right, padded_left, padded_right,
};

verus! {

/// Whose latency a scenario reports.
#[derive(Clone, Copy, Debug, PartialEq, Eq, Structural)]
pub enum LatencyRule {
    /// That of the last consumer that measured any.
    Last,
    /// That of the consumer with the highest 99th percentile.
    WorstP99,
}

/// The transport settings of a scenario.
pub struct TransportFacts {
    pub coordination: Option<Seq<char>>,
    pub discovery_mode: Option<Seq<char>>,
    pub zero_copy: Option<bool>,
    pub framing: Option<Seq<char>>,
}

/// What a scenario says of itself.
pub struct BenchFacts {
    pub bench_name: Seq<char>,
    pub scenario_name: Seq<char>,
    pub label: Seq<char>,
    pub backend: Seq<char>,
    pub layer: Seq<char>,
    pub transport: TransportFacts,
    pub codec: Option<Seq<char>>,
    pub measurement_mode: Seq<char>,
    pub wait_strategy: Seq<char>,
    pub message_size_bytes: nat,
    pub payload_bytes: nat,
    pub buffer_depth: nat,
    pub num_messages: nat,
    pub warmup_messages: nat,
    pub num_consumers: nat,
    pub timeout_secs: nat,
    pub throughput_unit: Seq<char>,
    pub summary_label: Seq<char>,
    pub latency_rule: LatencyRule,
    pub segment_prefix: Seq<char>,
    pub root_prefix: Option<Seq<char>>,
}

/// The settings of shared memory with benchmark coordination.
pub open spec fn shm_transport(
    consumers: nat,
    zero_copy: bool,
    framing: Seq<char>,
) -> TransportFacts {
    TransportFacts {
        coordination: Some("BenchmarkCoordination"@),
        discovery_mode: Some("enabled("@ + decimal_text(consumers) + ")"@),
        zero_copy: Some(zero_copy),
        framing: Some(framing),
    }
}

/// The settings of memory-mapped files.
pub open spec fn mmap_transport(zero_copy: bool, framing: Seq<char>) -> TransportFacts {
    TransportFacts {
        coordination: Some("mmap_builtin"@),
        discovery_mode: Some("disabled"@),
        zero_copy: Some(zero_copy),
        framing: Some(framing),
    }
}

/// What settings say.
pub open spec fn transport_facts(spec: BenchTransportSpec) -> TransportFacts {
    TransportFacts {
        coordination: option_view(spec.coordination),
        discovery_mode: option_view(spec.discovery_mode),
        zero_copy: spec.zero_copy,
        framing: option_view(spec.framing),
    }
}

/// The name of a measurement at a target rate, or of one at full speed.
pub open spec fn rate_mode(target_rate: nat) -> Seq<char> {
    if target_rate > 0 {
        "co_aware@"@ + decimal_text(target_rate)
    } else {
        "max_throughput"@
    }
}

/// The name of a measurement at a target rate, or of one at full speed.
pub fn rate_mode_name(target_rate: u64) -> (r: String)
    ensures
        r@ == rate_mode(target_rate as nat),
{
    if target_rate > 0 {
        let mut out: String = "co_aware@".to_owned();
        out.append(decimal(target_rate).as_str());
        out
    } else {
        "max_throughput".to_owned()
    }
}

/// The target rate that the name of a measurement states; zero where it states
/// none.
pub open spec fn rate_in_mode(mode: Seq<char>) -> nat {
    if has_prefix(mode, "co_aware@"@) {
        number_or(Some(mode.skip("co_aware@"@.len() as int)), u64::MAX as nat, 0)
    } else {
        0
    }
}

/// The target rate that the name of a measurement states.
pub fn rate_of_mode(mode: &str) -> (r: u64)
    ensures
        r == rate_in_mode(mode@),
{
    match after_prefix(mode, "co_aware@") {
        Some(rate) => match parse_u64(rate.as_str()) {
            Some(n) => n,
            None => 0,
        },
        None => 0,
    }
}

/// The name of a measurement states its target rate.
pub proof fn law_rate_mode_reads_back(target_rate: u64)
    ensures
        rate_in_mode(rate_mode(target_rate as nat)) == target_rate,
{
    let prefix = "co_aware@"@;
    if target_rate > 0 {
        let digits = decimal_text(target_rate as nat);
        assert((prefix + digits).subrange(0, prefix.len() as int) =~= prefix);
        assert((prefix + digits).skip(prefix.len() as int) =~= digits);
        law_number_reads_back(target_rate as nat, u64::MAX as nat);
    } else {
        reveal_strlit("co_aware@");
        reveal_strlit("max_throughput");
        assert("max_throughput"@.subrange(0, prefix.len() as int)[0] != prefix[0]);
    }
}

/// What the throughput of so many consumers is shown as.
pub open spec fn summary_label_of(num_consumers: nat) -> Seq<char> {
    if num_consumers == 1 {
        "consumer"@
    } else {
        "avg consumer"@
    }
}

/// What the throughput of so many consumers is shown as.
pub fn summary_label(num_consumers: usize) -> (r: &'static str)
    ensures
        r@ == summary_label_of(num_consumers as nat),
{
    if num_consumers == 1 {
        "consumer"
    } else {
        "avg consumer"
    }
}

/// The latency of the last consumer that measured any.
pub open spec fn last_latency(consumers: Seq<ConsumerOutput>) -> Option<LatencyStats>
    decreases consumers.len(),
{
    if consumers.len() == 0 {
        None
    } else if consumers.last().latency is Some {
        consumers.last().latency
    } else {
        last_latency(consumers.drop_last())
    }
}

/// The latency of the consumer with the highest 99th percentile; of several,
/// the last.
pub open spec fn worst_latency(consumers: Seq<ConsumerOutput>) -> Option<LatencyStats>
    decreases consumers.len(),
{
    if consumers.len() == 0 {
        None
    } else {
        let earlier = worst_latency(consumers.drop_last());
        match (consumers.last().latency, earlier) {
            (Some(here), Some(best)) => if here.p99_ns >= best.p99_ns {
                Some(here)
            } else {
                earlier
            },
            (Some(here), None) => Some(here),
            (None, _) => earlier,
        }
    }
}

/// The latency that a scenario reports.
pub open spec fn reported_latency(
    rule: LatencyRule,
    consumers: Seq<ConsumerOutput>,
) -> Option<LatencyStats> {
    match rule {
        LatencyRule::Last => last_latency(consumers),
        LatencyRule::WorstP99 => worst_latency(consumers),
    }
}

/// The latency that a scenario reports.
pub fn aggregate_latency(rule: LatencyRule, consumers: &Vec<ConsumerOutput>) -> (r: Option<
    LatencyStats,
>)
    ensures
        r == reported_latency(rule, consumers@),
{
    let mut found: Option<LatencyStats> = None;
    for i in 0..consumers.len()
        invariant
            found == reported_latency(rule, consumers@.take(i as int)),
    {
        assert(consumers@.take(i + 1).drop_last() =~= consumers@.take(i as int));
        if let Some(here) = consumers[i].latency {
            let better = match (rule, found) {
                (LatencyRule::WorstP99, Some(best)) => here.p99_ns >= best.p99_ns,
                _ => true,
            };
            if better {
                found = Some(here);
            }
        }
    }
    assert(consumers@.take(consumers@.len() as int) =~= consumers@);
    found
}

/// No consumer measured a higher 99th percentile than the reported one.
pub proof fn law_worst_latency_is_worst(consumers: Seq<ConsumerOutput>, i: int)
    requires
        0 <= i < consumers.len(),
        consumers[i].latency is Some,
    ensures
        worst_latency(consumers) is Some,
        consumers[i].latency->0.p99_ns <= worst_latency(consumers)->0.p99_ns,
    decreases consumers.len(),
{
    if i < consumers.len() - 1 {
        law_worst_latency_is_worst(consumers.drop_last(), i);
    }
}

/// `spec` describes a run of the scenario that `facts` describe.
pub open spec fn specifies(
    facts: BenchFacts,
    producer_ops: Metric,
    consumer_ops: Metric,
    latency: Option<LatencyStats>,
    spec: BenchResultSpec,
) -> bool {
    &&& spec.bench_name@ == facts.bench_name
    &&& spec.scenario@ == facts.scenario_name
    &&& spec.backend@ == facts.backend
    &&& spec.layer@ == facts.layer
    &&& option_view(spec.codec) == facts.codec
    &&& spec.measurement_mode@ == facts.measurement_mode
    &&& spec.wait_strategy@ == facts.wait_strategy
    &&& transport_facts(spec.transport) == facts.transport
    &&& spec.message_size_bytes == facts.message_size_bytes
    &&& spec.payload_bytes == facts.payload_bytes
    &&& spec.buffer_depth == facts.buffer_depth
    &&& spec.num_messages == facts.num_messages
    &&& spec.warmup_messages == facts.warmup_messages
    &&& spec.num_producers == 1
    &&& spec.num_consumers == facts.num_consumers
    &&& spec.producer_throughput_ops_sec == producer_ops
    &&& spec.consumer_throughput_ops_sec == consumer_ops
    &&& spec.latency == latency
}

/// `value` is the average throughput of the consumers over as many as the
/// scenario has; zero where it has none.
pub open spec fn is_average_ops<F: Fn(MeanPlan) -> Metric>(
    consumers: Seq<ConsumerOutput>,
    num_consumers: nat,
    mean: F,
    value: Metric,
) -> bool {
    if num_consumers > 0 {
        is_mean(mean, throughputs(consumers), num_consumers, value)
    } else {
        value.bits == ZERO_BITS
    }
}

/// The average throughput of the consumers over as many as the scenario has.
/// `mean` adds values and divides their sum.
pub fn average_consumer_ops<F: Fn(MeanPlan) -> Metric>(
    consumers: &Vec<ConsumerOutput>,
    num_consumers: usize,
    mean: &F,
) -> (r: Metric)
    requires
        takes_any_plan(*mean),
    ensures
        is_average_ops(consumers@, num_consumers as nat, *mean, r),
{
    if num_consumers > 0 {
        let values = consumer_plan(consumers).throughput.values;
        let plan = MeanPlan { values, divisor: num_consumers };
        assert(plan.divides(throughputs(consumers@), num_consumers as nat));
        mean(plan)
    } else {
        Metric::zero()
    }
}

/// `made` and `result` are the result of a run before and after the metrics
/// of its children are in it.
pub open spec fn is_run_result<F: Fn(MeanPlan) -> Metric>(
    facts: BenchFacts,
    producer: ProducerOutput,
    consumers: Seq<ConsumerOutput>,
    latency: Option<LatencyStats>,
    data_rate_mbps: Metric,
    mean: F,
    metadata: BenchMetadata,
    spec: BenchResultSpec,
    made: BenchResult,
    result: BenchResult,
) -> bool {
    let average_ops = spec.consumer_throughput_ops_sec;
    &&& is_average_ops(consumers, facts.num_consumers, mean, average_ops)
    &&& specifies(facts, producer.throughput_ops_sec, average_ops, latency, spec)
    &&& is_made_from(spec, data_rate_mbps, metadata, made)
    &&& result.agrees_but_for_results(made)
    &&& has_child_metrics(made.results, producer, consumers, mean, result.results)
}

/// The line of a run: its throughput, and its latency where it was measured.
pub open spec fn plain_summary(facts: BenchFacts, figures: SummaryFigures) -> Seq<char> {
    "  "@ + padded_right(facts.scenario_name, 30) + " producer: "@ + padded_left(
        figures.producer_ops@,
        10,
    ) + " "@ + facts.throughput_unit + "  "@ + facts.summary_label + ": "@ + padded_left(
        figures.consumer_ops@,
        10,
    ) + " "@ + facts.throughput_unit + match figures.latency {
        Some(text) => "  "@ + text@,
        None => Seq::empty(),
    }
}

/// The line of a run: its throughput, and its latency where it was measured.
pub fn plain_summary_line(name: &str, unit: &str, label: &str, figures: &SummaryFigures) -> (r:
    String)
    ensures
        forall|facts: BenchFacts|
            facts.scenario_name == name@ && facts.throughput_unit == unit@ && facts.summary_label
                == label@ ==> r@ == #[trigger] plain_summary(facts, *figures),
{
    let mut out: String = "  ".to_owned();
    out.append(pad_right(name, 30).as_str());
    out.append(" producer: ");
    out.append(pad_left(figures.producer_ops.as_str(), 10).as_str());
    out.append(" ");
    out.append(unit);
    out.append("  ");
    out.append(label);
    out.append(": ");
    out.append(pad_left(figures.consumer_ops.as_str(), 10).as_str());
    out.append(" ");
    out.append(unit);
    let mut suffix: String = String::new();
    if let Some(text) = &figures.latency {
        suffix = "  ".to_owned();
        suffix.append(text.as_str());
    }
    assert(figures.latency is None ==> suffix@ =~= Seq::empty());
    out.append(suffix.as_str());
    out
}

/// A scenario with one producer and some consumers in processes of their own.
pub trait IpcBenchmark {
    /// What the scenario says of itself.
    spec fn facts(&self) -> BenchFacts;

    /// Whom it spawns.
    spec fn launch_facts(&self, place: LaunchPlace) -> LaunchFacts;

    /// Its numbers are such that it can run.
    spec fn runnable(&self) -> bool;

    /// What is printed of a run of it.
    spec fn summary(&self, figures: SummaryFigures) -> Option<Seq<char>>;

    fn bench_name(&self) -> (r: &str)
        ensures
            r@ == self.facts().bench_name,
    ;

    fn scenario_name(&self) -> (r: String)
        ensures
            r@ == self.facts().scenario_name,
    ;

    /// What the children's output is logged under.
    fn label(&self) -> (r: String)
        ensures
            r@ == self.facts().label,
    ;

    fn backend(&self) -> (r: &str)
        ensures
            r@ == self.facts().backend,
    ;

    fn layer(&self) -> (r: &str)
        ensures
            r@ == self.facts().layer,
    ;

    fn transport_metadata(&self) -> (r: BenchTransportSpec)
        ensures
            transport_facts(r) == self.facts().transport,
    ;

    fn codec(&self) -> (r: Option<&str>)
        ensures
            match r {
                Some(name) => self.facts().codec == Some(name@),
                None => self.facts().codec is None,
            },
    ;

    fn measurement_mode(&self) -> (r: String)
        ensures
            r@ == self.facts().measurement_mode,
    ;

    fn wait_strategy(&self) -> (r: &str)
        ensures
            r@ == self.facts().wait_strategy,
    ;

    fn message_size_bytes(&self) -> (r: usize)
        requires
            self.runnable(),
        ensures
            r == self.facts().message_size_bytes,
    ;

    fn payload_bytes(&self) -> (r: usize)
        requires
            self.runnable(),
        ensures
            r == self.facts().payload_bytes,
    ;

    fn buffer_depth(&self) -> (r: usize)
        ensures
            r == self.facts().buffer_depth,
    ;

    fn num_messages(&self) -> (r: u64)
        ensures
            r == self.facts().num_messages,
    ;

    fn warmup_messages(&self) -> (r: u64)
        ensures
            r == self.facts().warmup_messages,
    ;

    fn num_consumers(&self) -> (r: usize)
        ensures
            r == self.facts().num_consumers,
    ;

    /// Seconds that the children may take.
    fn timeout(&self) -> (r: u64)
        ensures
            r == self.facts().timeout_secs,
    ;

    fn throughput_unit(&self) -> (r: &str)
        ensures
            r@ == self.facts().throughput_unit,
    ;

    /// What the consumers' throughput is shown as.
    fn consumer_summary_label(&self) -> (r: &str)
        ensures
            r@ == self.facts().summary_label,
    ;

    fn latency_rule(&self) -> (r: LatencyRule)
        ensures
            r == self.facts().latency_rule,
    ;

    /// What is printed of a run.
    fn summary_line(&self, figures: &SummaryFigures) -> (r: Option<String>)
        ensures
            option_view(r) == self.summary(*figures),
    ;

    /// What its segment's name begins with.
    fn segment_prefix(&self) -> (r: String)
        ensures
            r@ == self.facts().segment_prefix,
    ;

    /// What its root directory's name begins with, where it has one.
    fn root_prefix(&self) -> (r: Option<String>)
        ensures
            option_view(r) == self.facts().root_prefix,
    ;

    /// The children to spawn.
    fn launch(&self, place: &LaunchPlace) -> (r: LaunchPlan)
        requires
            self.runnable(),
        ensures
            r.follows(self.launch_facts(*place)),
    ;

    /// What the producer's output is logged under.
    fn producer_label(&self) -> (r: String)
        ensures
            r@ == self.facts().label + " prod"@,
    {
        let mut out = self.label();
        out.append(" prod");
        out
    }

    /// What a consumer's output is logged under.
    fn consumer_label(&self, consumer_id: usize) -> (r: String)
        ensures
            r@ == self.facts().label + " cons"@ + decimal_text(consumer_id as nat),
    {
        let mut out = self.label();
        out.append(" cons");
        out.append(decimal(consumer_id as u64).as_str());
        out
    }

    /// The seconds that the children are waited for: what the command line
    /// sets, or the scenario's own timeout.
    fn effective_timeout(&self, override_secs: Option<u64>) -> (r: u64)
        ensures
            r == match override_secs {
                Some(secs) => secs as nat,
                None => self.facts().timeout_secs,
            },
    {
        match override_secs {
            Some(secs) => secs,
            None => self.timeout(),
        }
    }

    /// The error of a run whose producer failed.
    fn producer_failure(&self, output: &ProcessOutput) -> (r: Option<String>)
        ensures
            option_view(r) == if output.success {
                None
            } else {
                Some(self.facts().scenario_name + " producer failed\nstderr:\n"@ + output.stderr@)
            },
    {
        if output.success {
            return None;
        }
        let mut out = self.scenario_name();
        out.append(" producer failed\nstderr:\n");
        out.append(output.stderr.as_str());
        Some(out)
    }

    /// The result of a run.
    fn build_result_with_metrics<F: Fn(MeanPlan) -> Metric>(
        &self,
        producer: &ProducerOutput,
        consumers: &Vec<ConsumerOutput>,
        latency: Option<LatencyStats>,
        data_rate_mbps: Metric,
        mean: &F,
        metadata: BenchMetadata,
    ) -> (r: BenchResult)
        requires
            self.runnable(),
            takes_any_plan(*mean),
        ensures
            exists|spec: BenchResultSpec, made: BenchResult| #[trigger]
                is_run_result(
                    self.facts(),
                    *producer,
                    consumers@,
                    latency,
                    data_rate_mbps,
                    *mean,
                    metadata,
                    spec,
                    made,
                    r,
                ),
    {
        let codec = match self.codec() {
            Some(name) => Some(name.to_owned()),
            None => None,
        };
        let spec = BenchResultSpec {
            bench_name: self.bench_name().to_owned(),
            scenario: self.scenario_name(),
            backend: self.backend().to_owned(),
            layer: self.layer().to_owned(),
            codec,
            measurement_mode: self.measurement_mode(),
            wait_strategy: self.wait_strategy().to_owned(),
            transport: self.transport_metadata(),
            message_size_bytes: self.message_size_bytes(),
            payload_bytes: self.payload_bytes(),
            buffer_depth: self.buffer_depth(),
            num_messages: self.num_messages(),
            warmup_messages: self.warmup_messages(),
            num_producers: 1,
            num_consumers: self.num_consumers(),
            producer_throughput_ops_sec: producer.throughput_ops_sec,
            consumer_throughput_ops_sec: average_consumer_ops(
                consumers,
                self.num_consumers(),
                mean,
            ),
            latency,
        };
        let ghost stated = spec;
        let mut result = make_result(spec, data_rate_mbps, metadata);
        let ghost made = result;
        attach_child_metrics(&mut result, producer, consumers, mean);
        assert(is_run_result(
            self.facts(),
            *producer,
            consumers@,
            latency,
            data_rate_mbps,
            *mean,
            metadata,
            stated,
            made,
            result,
        ));
        result
    }
}

/// Seconds that the consumers of a failed producer are waited for.
pub const FAILED_PRODUCER_GRACE_SECS: u64 = 1;

/// The handles of the children of a scenario, and what to remove after it.
#[derive(Debug)]
pub struct ScenarioChildren<C> {
    pub producer: C,
    pub consumers: Vec<C>,
    pub cleanup_paths: Vec<String>,
}

impl<C> ScenarioChildren<C> {
    /// Children that leave nothing to remove.
    pub fn new(producer: C, consumers: Vec<C>) -> (r: ScenarioChildren<C>)
        ensures
            r.producer == producer,
            r.consumers == consumers,
            r.cleanup_paths@.len() == 0,
    {
        ScenarioChildren { producer, consumers, cleanup_paths: Vec::new() }
    }

    /// The same children with one more path to remove.
    pub fn with_cleanup_path(self, path: String) -> (r: ScenarioChildren<C>)
        ensures
            r.producer == self.producer,
            r.consumers == self.consumers,
            r.cleanup_paths@ == self.cleanup_paths@.push(path),
    {
        let mut cleanup_paths = self.cleanup_paths;
        cleanup_paths.push(path);
        ScenarioChildren { producer: self.producer, consumers: self.consumers, cleanup_paths }
    }
}

/// Where the last is reported, it is that of a consumer behind whom none
/// measured any; none is reported only where none was measured.
pub proof fn law_last_latency_is_the_last(consumers: Seq<ConsumerOutput>)
    ensures
        reported_latency(LatencyRule::Last, consumers) is None <==> forall|i: int|
            0 <= i < consumers.len() ==> (#[trigger] consumers[i]).latency is None,
        forall|i: int|
            #![trigger consumers[i]]
            0 <= i < consumers.len() && consumers[i].latency is Some && (forall|j: int|
                i < j < consumers.len() ==> (#[trigger] consumers[j]).latency is None)
                ==> reported_latency(LatencyRule::Last, consumers) == consumers[i].latency,
    decreases consumers.len(),
{
    if consumers.len() > 0 {
        let earlier = consumers.drop_last();
        let last = consumers.len() - 1;
        law_last_latency_is_the_last(earlier);
        if consumers[last].latency is None {
            if last_latency(earlier) is None {
                assert forall|i: int| 0 <= i < consumers.len() implies (
                #[trigger] consumers[i]).latency is None by {
                    if i < last {
                        assert(earlier[i].latency is None);
                    }
                }
            }
            if forall|i: int|
                0 <= i < consumers.len() ==> (#[trigger] consumers[i]).latency is None {
                assert forall|i: int| 0 <= i < earlier.len() implies (
                #[trigger] earlier[i]).latency is None by {
                    assert(consumers[i].latency is None);
                }
            }
        }
        assert forall|i: int|
            #![trigger consumers[i]]
            0 <= i < consumers.len() && consumers[i].latency is Some && (forall|j: int|
                i < j < consumers.len() ==> (#[trigger] consumers[j]).latency is None) implies
            last_latency(consumers) == consumers[i].latency by {
            if i < last {
                assert(consumers[last].latency is None);
                assert forall|j: int| i < j < earlier.len() implies (
                #[trigger] earlier[j]).latency is None by {
                    assert(consumers[j].latency is None);
                }
                assert(earlier[i].latency is Some);
            }
        }
    }
}

/// Where the worst is reported, it is the whole of what one consumer measured:
/// none before it has a higher 99th percentile, and every one behind it has a
/// lower one.
pub proof fn law_worst_latency_is_the_last_of_the_worst(consumers: Seq<ConsumerOutput>) -> (at: int)
    requires
        exists|i: int| 0 <= i < consumers.len() && (#[trigger] consumers[i]).latency is Some,
    ensures
        0 <= at < consumers.len(),
        consumers[at].latency is Some,
        reported_latency(LatencyRule::WorstP99, consumers) == consumers[at].latency,
        forall|i: int|
            0 <= i < at && (#[trigger] consumers[i]).latency is Some
                ==> consumers[i].latency->0.p99_ns <= consumers[at].latency->0.p99_ns,
        forall|i: int|
            at < i < consumers.len() && (#[trigger] consumers[i]).latency is Some
                ==> consumers[i].latency->0.p99_ns < consumers[at].latency->0.p99_ns,
    decreases consumers.len(),
{
    let earlier = consumers.drop_last();
    let last = consumers.len() - 1;
    if exists|i: int| 0 <= i < earlier.len() && (#[trigger] earlier[i]).latency is Some {
        let before = law_worst_latency_is_the_last_of_the_worst(earlier);
        assert(earlier[before] == consumers[before]);
        assert(forall|i: int| 0 <= i < last ==> earlier[i] == consumers[i]);
        if consumers[last].latency is Some && consumers[last].latency->0.p99_ns
            >= consumers[before].latency->0.p99_ns {
            assert forall|i: int|
                0 <= i < last && (#[trigger] consumers[i]).latency is Some implies
                consumers[i].latency->0.p99_ns <= consumers[last].latency->0.p99_ns by {
                assert(earlier[i] == consumers[i]);
            }
            last
        } else {
            assert forall|i: int|
                0 <= i < before && (#[trigger] consumers[i]).latency is Some implies
                consumers[i].latency->0.p99_ns <= consumers[before].latency->0.p99_ns by {
                assert(earlier[i] == consumers[i]);
            }
            assert forall|i: int|
                before < i < consumers.len() && (#[trigger] consumers[i]).latency is Some implies
                consumers[i].latency->0.p99_ns < consumers[before].latency->0.p99_ns by {
                if i < last {
                    assert(earlier[i] == consumers[i]);
                }
            }
            before
        }
    } else {
        let some = choose|i: int|
            0 <= i < consumers.len() && (#[trigger] consumers[i]).latency is Some;
        assert(some == last) by {
            if some < last {
                assert(earlier[some].latency is Some);
            }
        }
        lemma_nothing_measured(earlier);
        assert forall|i: int| 0 <= i < last implies (#[trigger] consumers[i]).latency is None by {
            assert(earlier[i] == consumers[i]);
        }
        last
    }
}

/// Where no consumer measured a latency, none is the worst.
proof fn lemma_nothing_measured(consumers: Seq<ConsumerOutput>)
    requires
        forall|i: int| 0 <= i < consumers.len() ==> (#[trigger] consumers[i]).latency is None,
    ensures
        worst_latency(consumers) is None,
    decreases consumers.len(),
{
    if consumers.len() > 0 {
        let earlier = consumers.drop_last();
        assert forall|i: int| 0 <= i < earlier.len() implies (#[trigger] earlier[i]).latency
            is None by {
            assert(consumers[i].latency is None);
        }
        assert(consumers[consumers.len() - 1].latency is None);
        lemma_nothing_measured(earlier);
    }
}

/// The result of a run says of the scenario what the scenario says of itself,
/// and of the run what its producer and its consumers reported.
pub proof fn law_run_result_says_what_ran<F: Fn(MeanPlan) -> Metric>(
    facts: BenchFacts,
    producer: ProducerOutput,
    consumers: Seq<ConsumerOutput>,
    latency: Option<LatencyStats>,
    data_rate_mbps: Metric,
    mean: F,
    metadata: BenchMetadata,
    spec: BenchResultSpec,
    made: BenchResult,
    result: BenchResult,
)
    requires
        is_run_result(
            facts,
            producer,
            consumers,
            latency,
            data_rate_mbps,
            mean,
            metadata,
            spec,
            made,
            result,
        ),
    ensures
        result.benchmark_id@ == "myelon-bench/"@ + facts.bench_name + "/"@ + facts.scenario_name,
        result.scenario@ == facts.scenario_name,
        result.backend@ == facts.backend,
        result.layer@ == facts.layer,
        option_view(result.codec) == facts.codec,
        result.measurement_mode@ == facts.measurement_mode,
        result.wait_strategy@ == facts.wait_strategy,
        option_view(result.config.coordination) == facts.transport.coordination,
        option_view(result.config.discovery_mode) == facts.transport.discovery_mode,
        result.config.zero_copy == facts.transport.zero_copy,
        option_view(result.config.framing) == facts.transport.framing,
        result.config.message_size_bytes == facts.message_size_bytes,
        result.config.payload_bytes == facts.payload_bytes,
        result.config.buffer_depth == facts.buffer_depth,
        result.config.num_messages == facts.num_messages,
        result.config.warmup_messages == facts.warmup_messages,
        result.config.num_producers == 1,
        result.config.num_consumers == facts.num_consumers,
        result.latency == latency,
        result.metadata == metadata,
        result.results.producer_throughput_ops_sec == producer.throughput_ops_sec,
        result.results.producer_bandwidth_bytes_sec == Some(producer.bandwidth_bytes_sec),
        result.results.producer_data_rate_gbps == Some(producer.data_rate_gbps),
        result.results.data_rate_mbps == data_rate_mbps,
        result.results.messages_processed == facts.num_messages,
        result.results.verification_passed,
        result.results.per_consumer@.len() == consumers.len(),
        facts.num_consumers == 0 ==> result.results.consumer_throughput_ops_sec.bits == ZERO_BITS,
        facts.num_consumers > 0 ==> exists|plan: MeanPlan| #[trigger]
            call_ensures(mean, (plan,), result.results.consumer_throughput_ops_sec)
                && plan.divisor == facts.num_consumers && plan.values@.len() == consumers.len()
                && forall|i: int|
                0 <= i < consumers.len() ==> plan.values@[i] == (
                #[trigger] consumers[i]).throughput_ops_sec,
{
    law_made_result_says_what_is_specified(spec, data_rate_mbps, metadata, made);
    law_child_metrics_are_those_reported(
        made.results,
        producer,
        consumers,
        mean,
        result.results,
    );
    if facts.num_consumers > 0 {
        let value = result.results.consumer_throughput_ops_sec;
        let plan = choose|plan: MeanPlan| #[trigger]
            plan.divides(throughputs(consumers), facts.num_consumers) && call_ensures(
                mean,
                (plan,),
                value,
            );
        assert forall|i: int| 0 <= i < consumers.len() implies plan.values@[i] == (
        #[trigger] consumers[i]).throughput_ops_sec by {
            assert(throughputs(consumers)[i] == consumers[i].throughput_ops_sec);
        }
    }
}

/// The line of a run shows the scenario, and the throughputs of the producer and
/// of the consumers, each behind its own name and with its unit.
pub proof fn law_line_shows_both_sides(facts: BenchFacts, figures: SummaryFigures)
    ensures
        has_prefix(plain_summary(facts, figures), "  "@ + padded_right(facts.scenario_name, 30)),
        contains_text(
            plain_summary(facts, figures),
            " producer: "@ + (padded_left(figures.producer_ops@, 10) + " "@
                + facts.throughput_unit),
        ),
        contains_text(
            plain_summary(facts, figures),
            "  "@ + facts.summary_label + ": "@ + (padded_left(figures.consumer_ops@, 10) + " "@
                + facts.throughput_unit),
        ),
        figures.latency is Some ==> contains_text(
            plain_summary(facts, figures),
            "  "@ + figures.latency->0@,
        ),
{
    let whole = plain_summary(facts, figures);
    let head = "  "@ + padded_right(facts.scenario_name, 30);
    let sent = padded_left(figures.producer_ops@, 10) + " "@ + facts.throughput_unit;
    let taken = padded_left(figures.consumer_ops@, 10) + " "@ + facts.throughput_unit;
    let name = "  "@ + facts.summary_label + ": "@;
    let first = head + " producer: "@ + sent;
    let second = first + name + taken;
    let tail = match figures.latency {
        Some(text) => "  "@ + text@,
        None => Seq::empty(),
    };
    assert(whole =~= second + tail);
    lemma_whole_prefix(whole);
    lemma_longer_prefix(whole, second, tail);
    lemma_labelled(whole, first, name, taken);
    lemma_labelled(whole, head, " producer: "@, sent);
}

} // verus!
