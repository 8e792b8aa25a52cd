//! Reports of layout validation: measured times against their budgets.
use vstd::prelude::*;
use crate::report::kinds::{
    copied_backend, BackendKind, MeasurementKind, ScenarioFamily, WaitStrategyKind,
};
use crate::report::model::{
    LayoutOutcome, ReportBundle, RunMetadata, ScenarioConfig, ScenarioIdentity, ScenarioOutcome,
    ScenarioReport, TransportSpec, WorkloadConfig,
};

verus! {

/// What is measured, and how long it may take on average.
#[derive(Clone, Debug)]
pub struct LayoutTargetSpec {
    pub scenario: String,
    pub backend: BackendKind,
    pub layer: String,
    pub budget_ns: u64,
}

/// A measured target.
#[derive(Clone, Copy, Debug)]
pub struct LayoutTargetMeasurement<'a> {
    pub spec: &'a LayoutTargetSpec,
    pub avg_ns: u64,
    pub pass: bool,
}

impl<'a> LayoutTargetMeasurement<'a> {
    /// The measurement of a target, which passes within the budget.
    pub fn new(spec: &'a LayoutTargetSpec, avg_ns: u64) -> (r: LayoutTargetMeasurement<'a>)
        ensures
            r.spec == spec,
            r.avg_ns == avg_ns,
            r.pass == (avg_ns <= spec.budget_ns),
    {
        LayoutTargetMeasurement { spec, avg_ns, pass: avg_ns <= spec.budget_ns }
    }
}

/// `scenario` reports the measurement of a layout target.
pub open spec fn reports_target(
    benchmark: Seq<char>,
    iterations: usize,
    measurement: LayoutTargetMeasurement,
    metadata: RunMetadata,
    scenario: ScenarioReport,
) -> bool {
    let identity = scenario.identity;
    let transport = scenario.config.transport;
    &&& identity.benchmark_id@ == "perf-bench/"@ + benchmark + "/"@ + measurement.spec.scenario@
    &&& identity.suite@ == "perf-bench"@
    &&& identity.benchmark@ == benchmark
    &&& identity.family is LayoutValidation
    &&& identity.scenario == measurement.spec.scenario
    &&& identity.backend == measurement.spec.backend
    &&& identity.layer == measurement.spec.layer
    &&& identity.codec is None
    &&& scenario.config.measurement is LayoutValidation
    &&& transport.wait_strategy is Unknown
    &&& transport.wait_strategy->Unknown_0@ == "n/a"@
    &&& transport.coordination is None
    &&& transport.discovery is None
    &&& transport.framing is None
    &&& transport.zero_copy is None
    &&& scenario.config.workload == (WorkloadConfig {
        message_size_bytes: 0,
        payload_bytes: 0,
        buffer_depth: 0,
        num_messages: iterations as u64,
        warmup_messages: 0,
        num_producers: 1,
        num_consumers: 1,
        batch_size: None,
    })
    &&& scenario.outcome == ScenarioOutcome::Layout(
        LayoutOutcome {
            avg_ns: measurement.avg_ns,
            budget_ns: measurement.spec.budget_ns,
            iterations,
            pass: measurement.pass,
        },
    )
    &&& scenario.metadata == metadata
}

/// The report of the measurement of a layout target.
pub fn layout_scenario(
    benchmark: &str,
    iterations: usize,
    measurement: &LayoutTargetMeasurement,
    metadata: &RunMetadata,
) -> (r: ScenarioReport)
    ensures
        reports_target(benchmark@, iterations, *measurement, *metadata, r),
{
    let mut benchmark_id: String = "perf-bench/".to_owned();
    benchmark_id.append(benchmark);
    benchmark_id.append("/");
    benchmark_id.append(measurement.spec.scenario.as_str());
    ScenarioReport {
        identity: ScenarioIdentity {
            benchmark_id,
            suite: "perf-bench".to_owned(),
            benchmark: benchmark.to_owned(),
            family: ScenarioFamily::LayoutValidation,
            scenario: measurement.spec.scenario.clone(),
            backend: copied_backend(&measurement.spec.backend),
            layer: measurement.spec.layer.clone(),
            codec: None,
        },
        config: ScenarioConfig {
            measurement: MeasurementKind::LayoutValidation,
            transport: TransportSpec {
                wait_strategy: WaitStrategyKind::Unknown("n/a".to_owned()),
                coordination: None,
                discovery: None,
                framing: None,
                zero_copy: None,
            },
            workload: WorkloadConfig {
                message_size_bytes: 0,
                payload_bytes: 0,
                buffer_depth: 0,
                num_messages: iterations as u64,
                warmup_messages: 0,
                num_producers: 1,
                num_consumers: 1,
                batch_size: None,
            },
        },
        outcome: ScenarioOutcome::Layout(
            LayoutOutcome {
                avg_ns: measurement.avg_ns,
                budget_ns: measurement.spec.budget_ns,
                iterations,
                pass: measurement.pass,
            },
        ),
        metadata: metadata.copied(),
    }
}

impl ReportBundle {
    /// The report of the measurements of layout targets.
    pub fn from_layout_targets(
        benchmark: &str,
        iterations: usize,
        measurements: &Vec<LayoutTargetMeasurement>,
        metadata: &RunMetadata,
    ) -> (r: ReportBundle)
        ensures
            r.metadata == *metadata,
            r.scenarios@.len() == measurements@.len(),
            forall|i: int|
                #![trigger r.scenarios@[i]]
                0 <= i < measurements@.len() ==> reports_target(
                    benchmark@,
                    iterations,
                    measurements@[i],
                    *metadata,
                    r.scenarios@[i],
                ),
    {
        let mut scenarios: Vec<ScenarioReport> = Vec::new();
        for i in 0..measurements.len()
            invariant
                scenarios@.len() == i,
                forall|k: int|
                    #![trigger scenarios@[k]]
                    0 <= k < i ==> reports_target(
                        benchmark@,
                        iterations,
                        measurements@[k],
                        *metadata,
                        scenarios@[k],
                    ),
        {
            scenarios.push(layout_scenario(benchmark, iterations, &measurements[i], metadata));
        }
        ReportBundle { metadata: metadata.copied(), scenarios }
    }
}

/// The report of a target says what was measured against what budget, over how
/// many iterations, and passes exactly within the budget.
pub proof fn law_target_is_judged_by_its_budget(
    benchmark: Seq<char>,
    iterations: usize,
    measurement: LayoutTargetMeasurement,
    metadata: RunMetadata,
    scenario: ScenarioReport,
)
    requires
        reports_target(benchmark, iterations, measurement, metadata, scenario),
        measurement.pass == (measurement.avg_ns <= measurement.spec.budget_ns),
    ensures
        scenario.outcome is Layout,
        scenario.outcome->Layout_0.avg_ns == measurement.avg_ns,
        scenario.outcome->Layout_0.budget_ns == measurement.spec.budget_ns,
        scenario.outcome->Layout_0.iterations == iterations,
        scenario.outcome->Layout_0.pass <==> scenario.outcome->Layout_0.avg_ns
            <= scenario.outcome->Layout_0.budget_ns,
        scenario.identity.scenario@ == measurement.spec.scenario@,
        scenario.identity.backend == measurement.spec.backend,
        scenario.identity.layer@ == measurement.spec.layer@,
        scenario.identity.benchmark@ == benchmark,
        scenario.identity.codec is None,
        scenario.config.measurement is LayoutValidation,
        scenario.config.workload.num_messages == iterations,
        scenario.config.workload.num_producers == 1,
        scenario.config.workload.num_consumers == 1,
        scenario.config.workload.message_size_bytes == 0,
        scenario.config.workload.payload_bytes == 0,
        scenario.config.workload.buffer_depth == 0,
        scenario.config.workload.warmup_messages == 0,
        scenario.config.workload.batch_size is None,
        scenario.metadata == metadata,
{
}

} // verus!
