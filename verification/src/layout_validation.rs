//! Validation of layout costs: what creating and attaching to transports takes,
//! against a budget for each.
use vstd::prelude::*;
use crate::decimal::{decimal, decimal_text};
use crate::naming::{join_path, joined_path};
use crate::report::layout::{reports_target, LayoutTargetMeasurement, LayoutTargetSpec};
use crate::report::model::{ReportBundle, RunMetadata};
use crate::text::{contains_text, occurs_at};

verus! {

/// How often each target is measured.
pub const LAYOUT_ITERATIONS: usize = 50;

/// What is measured.
#[derive(Clone, Copy, Debug, PartialEq, Eq, Structural)]
pub enum LayoutTarget {
    ShmRingProducerCreate,
    ShmRingAttach,
    ShmCursorAttach,
    MmapRingProducerCreate,
    MmapRingAttach,
    MmapCursorAttach,
    FramedShmProducerCreate,
    FramedShmConsumerAttach,
    FramedMmapProducerCreate,
    FramedMmapConsumerAttach,
    TypedShmProducerCreate,
    TypedShmConsumerAttach,
    TypedMmapProducerCreate,
    TypedMmapConsumerAttach,
}

/// What the names of a target's segments begin with.
pub open spec fn target_prefix(target: LayoutTarget) -> Seq<char> {
    match target {
        LayoutTarget::ShmRingProducerCreate => "lv_shm_prod"@,
        LayoutTarget::ShmRingAttach => "lv_shm"@,
        LayoutTarget::ShmCursorAttach => "lv_cur"@,
        LayoutTarget::MmapRingProducerCreate => "lv_mmap_prod"@,
        LayoutTarget::MmapRingAttach => "lv_mmap"@,
        LayoutTarget::MmapCursorAttach => "lv_mmap_cur"@,
        LayoutTarget::FramedShmProducerCreate => "lv_framed_prod"@,
        LayoutTarget::FramedShmConsumerAttach => "lv_frc"@,
        LayoutTarget::FramedMmapProducerCreate => "lv_framed_mmap_prod"@,
        LayoutTarget::FramedMmapConsumerAttach => "lv_framed_mmap"@,
        LayoutTarget::TypedShmProducerCreate => "lv_typed_prod"@,
        LayoutTarget::TypedShmConsumerAttach => "lv_typed"@,
        LayoutTarget::TypedMmapProducerCreate => "lv_typed_mmap_prod"@,
        LayoutTarget::TypedMmapConsumerAttach => "lv_typed_mmap"@,
    }
}

/// The targets in the order in which they are measured.
pub open spec fn target_order() -> Seq<LayoutTarget> {
    seq![
        LayoutTarget::ShmRingProducerCreate,
        LayoutTarget::ShmRingAttach,
        LayoutTarget::ShmCursorAttach,
        LayoutTarget::MmapRingProducerCreate,
        LayoutTarget::MmapRingAttach,
        LayoutTarget::MmapCursorAttach,
        LayoutTarget::FramedShmProducerCreate,
        LayoutTarget::FramedShmConsumerAttach,
        LayoutTarget::FramedMmapProducerCreate,
        LayoutTarget::FramedMmapConsumerAttach,
        LayoutTarget::TypedShmProducerCreate,
        LayoutTarget::TypedShmConsumerAttach,
        LayoutTarget::TypedMmapProducerCreate,
        LayoutTarget::TypedMmapConsumerAttach,
    ]
}

/// The targets in the order in which they are measured.
pub fn layout_targets() -> (r: Vec<LayoutTarget>)
    ensures
        r@ == target_order(),
{
    let mut targets: Vec<LayoutTarget> = Vec::new();
    targets.push(LayoutTarget::ShmRingProducerCreate);
    targets.push(LayoutTarget::ShmRingAttach);
    targets.push(LayoutTarget::ShmCursorAttach);
    targets.push(LayoutTarget::MmapRingProducerCreate);
    targets.push(LayoutTarget::MmapRingAttach);
    targets.push(LayoutTarget::MmapCursorAttach);
    targets.push(LayoutTarget::FramedShmProducerCreate);
    targets.push(LayoutTarget::FramedShmConsumerAttach);
    targets.push(LayoutTarget::FramedMmapProducerCreate);
    targets.push(LayoutTarget::FramedMmapConsumerAttach);
    targets.push(LayoutTarget::TypedShmProducerCreate);
    targets.push(LayoutTarget::TypedShmConsumerAttach);
    targets.push(LayoutTarget::TypedMmapProducerCreate);
    targets.push(LayoutTarget::TypedMmapConsumerAttach);
    targets
}

/// The target lies in memory-mapped files.
pub open spec fn target_is_mapped(target: LayoutTarget) -> bool {
    match target {
        LayoutTarget::MmapRingProducerCreate
        | LayoutTarget::MmapRingAttach
        | LayoutTarget::MmapCursorAttach
        | LayoutTarget::FramedMmapProducerCreate
        | LayoutTarget::FramedMmapConsumerAttach
        | LayoutTarget::TypedMmapProducerCreate
        | LayoutTarget::TypedMmapConsumerAttach => true,
        _ => false,
    }
}

impl LayoutTarget {
    /// Whether the target lies in memory-mapped files.
    pub fn is_mapped(&self) -> (r: bool)
        ensures
            r == target_is_mapped(*self),
    {
        matches!(
            self,
            LayoutTarget::MmapRingProducerCreate
            | LayoutTarget::MmapRingAttach
            | LayoutTarget::MmapCursorAttach
            | LayoutTarget::FramedMmapProducerCreate
            | LayoutTarget::FramedMmapConsumerAttach
            | LayoutTarget::TypedMmapProducerCreate
            | LayoutTarget::TypedMmapConsumerAttach
        )
    }

    /// What the names of the target's segments begin with.
    pub fn prefix(&self) -> (r: &'static str)
        ensures
            r@ == target_prefix(*self),
    {
        match self {
            LayoutTarget::ShmRingProducerCreate => "lv_shm_prod",
            LayoutTarget::ShmRingAttach => "lv_shm",
            LayoutTarget::ShmCursorAttach => "lv_cur",
            LayoutTarget::MmapRingProducerCreate => "lv_mmap_prod",
            LayoutTarget::MmapRingAttach => "lv_mmap",
            LayoutTarget::MmapCursorAttach => "lv_mmap_cur",
            LayoutTarget::FramedShmProducerCreate => "lv_framed_prod",
            LayoutTarget::FramedShmConsumerAttach => "lv_frc",
            LayoutTarget::FramedMmapProducerCreate => "lv_framed_mmap_prod",
            LayoutTarget::FramedMmapConsumerAttach => "lv_framed_mmap",
            LayoutTarget::TypedShmProducerCreate => "lv_typed_prod",
            LayoutTarget::TypedShmConsumerAttach => "lv_typed",
            LayoutTarget::TypedMmapProducerCreate => "lv_typed_mmap_prod",
            LayoutTarget::TypedMmapConsumerAttach => "lv_typed_mmap",
        }
    }

    /// Whether the target is a creation; otherwise it attaches to what was
    /// created before.
    pub fn creates(&self) -> (r: bool)
        ensures
            r == (self is ShmRingProducerCreate || self is MmapRingProducerCreate
                || self is FramedShmProducerCreate || self is FramedMmapProducerCreate
                || self is TypedShmProducerCreate || self is TypedMmapProducerCreate),
    {
        matches!(
            self,
            LayoutTarget::ShmRingProducerCreate
                | LayoutTarget::MmapRingProducerCreate
                | LayoutTarget::FramedShmProducerCreate
                | LayoutTarget::FramedMmapProducerCreate
                | LayoutTarget::TypedShmProducerCreate
                | LayoutTarget::TypedMmapProducerCreate
        )
    }
}

/// The average time of one of so many iterations, in whole nanoseconds.
pub fn measure_avg_ns(elapsed_ns: u64, iterations: usize) -> (r: u64)
    requires
        iterations > 0,
    ensures
        r == elapsed_ns / iterations as u64,
{
    elapsed_ns / iterations as u64
}

/// A name for a shared-memory segment of the given process: the `id`th.
pub fn layout_shm_segment(prefix: &str, process_id: u32, id: u64) -> (r: String)
    ensures
        r@ == prefix@ + "_"@ + decimal_text(process_id as nat) + "_"@ + decimal_text(id as nat),
{
    let mut out: String = prefix.to_owned();
    out.append("_");
    out.append(decimal(process_id as u64).as_str());
    out.append("_");
    out.append(decimal(id).as_str());
    out
}

/// A root directory and a segment of the given process: the `id`th.
pub fn layout_mmap_place(temp_dir: &str, prefix: &str, process_id: u32, id: u64) -> (r: (
    String,
    String,
))
    ensures
        r.0@ == joined_path(
            temp_dir@,
            prefix@ + "_"@ + decimal_text(process_id as nat) + "_"@ + decimal_text(id as nat),
        ),
        r.1@ == prefix@ + "_"@ + decimal_text(id as nat),
{
    let name = layout_shm_segment(prefix, process_id, id);
    let mut segment: String = prefix.to_owned();
    segment.append("_");
    segment.append(decimal(id).as_str());
    (join_path(temp_dir, name.as_str()), segment)
}

/// The measurements of a validation, and whether all of them pass.
pub struct LayoutRun<'a> {
    pub measurements: Vec<LayoutTargetMeasurement<'a>>,
    pub all_pass: bool,
}

/// Every measurement is within its budget.
pub open spec fn all_within_budget(measurements: Seq<LayoutTargetMeasurement>) -> bool {
    forall|i: int|
        0 <= i < measurements.len() ==> (#[trigger] measurements[i]).avg_ns
            <= measurements[i].spec.budget_ns
}

impl<'a> LayoutRun<'a> {
    /// Each measurement has the verdict that its budget gives, and the run
    /// passes where all of them do.
    pub open spec fn well_formed(&self) -> bool {
        &&& forall|i: int|
            0 <= i < self.measurements@.len() ==> (#[trigger] self.measurements@[i]).pass == (
            self.measurements@[i].avg_ns <= self.measurements@[i].spec.budget_ns)
        &&& self.all_pass == all_within_budget(self.measurements@)
    }

    /// A validation without measurements, which passes.
    pub fn new() -> (r: LayoutRun<'a>)
        ensures
            r.well_formed(),
            r.measurements@.len() == 0,
            r.all_pass,
    {
        LayoutRun { measurements: Vec::new(), all_pass: true }
    }

    /// Adds the measurement of a target.
    pub fn record(&mut self, spec: &'a LayoutTargetSpec, avg_ns: u64)
        requires
            old(self).well_formed(),
        ensures
            final(self).well_formed(),
            final(self).measurements@.len() == old(self).measurements@.len() + 1,
            final(self).measurements@.drop_last() == old(self).measurements@,
            final(self).measurements@.last().spec == spec,
            final(self).measurements@.last().avg_ns == avg_ns,
            final(self).all_pass == (old(self).all_pass && avg_ns <= spec.budget_ns),
    {
        let ghost before = self.measurements@;
        let measurement = LayoutTargetMeasurement::new(spec, avg_ns);
        if !measurement.pass {
            self.all_pass = false;
        }
        self.measurements.push(measurement);
        proof {
            let after = self.measurements@;
            assert(after.drop_last() =~= before);
            assert forall|i: int| 0 <= i < before.len() implies after[i] == before[i] by {}
            assert(after[before.len() as int] == measurement);
            if all_within_budget(after) {
                assert forall|i: int| 0 <= i < before.len() implies (#[trigger] before[i]).avg_ns
                    <= before[i].spec.budget_ns by {
                    assert(after[i].avg_ns <= after[i].spec.budget_ns);
                }
                assert(after[before.len() as int].avg_ns
                    <= after[before.len() as int].spec.budget_ns);
            }
        }
    }

    /// The report of the validation.
    pub fn report(&self, metadata: &RunMetadata) -> (r: ReportBundle)
        requires
            self.well_formed(),
        ensures
            r.metadata == *metadata,
            r.scenarios@.len() == self.measurements@.len(),
            forall|i: int|
                #![trigger r.scenarios@[i]]
                0 <= i < self.measurements@.len() ==> reports_target(
                    "layout_validation"@,
                    LAYOUT_ITERATIONS,
                    self.measurements@[i],
                    *metadata,
                    r.scenarios@[i],
                ),
    {
        ReportBundle::from_layout_targets(
            "layout_validation",
            LAYOUT_ITERATIONS,
            &self.measurements,
            metadata,
        )
    }

    /// The exit status of the validation.
    pub fn exit_status(&self) -> (r: i32)
        requires
            self.well_formed(),
        ensures
            r == if all_within_budget(self.measurements@) {
                0i32
            } else {
                1
            },
    {
        if self.all_pass {
            0
        } else {
            1
        }
    }
}

/// Every target is measured once, and those over memory-mapped files are those
/// whose name says so.
pub proof fn law_targets_are_measured_once(target: LayoutTarget)
    ensures
        target_order().contains(target),
        target_order().no_duplicates(),
        target_is_mapped(target) <==> contains_text(target_prefix(target), seq!['m', 'm']),
{
    let all = target_order();
    let at: int = match target {
        LayoutTarget::ShmRingProducerCreate => 0,
        LayoutTarget::ShmRingAttach => 1,
        LayoutTarget::ShmCursorAttach => 2,
        LayoutTarget::MmapRingProducerCreate => 3,
        LayoutTarget::MmapRingAttach => 4,
        LayoutTarget::MmapCursorAttach => 5,
        LayoutTarget::FramedShmProducerCreate => 6,
        LayoutTarget::FramedShmConsumerAttach => 7,
        LayoutTarget::FramedMmapProducerCreate => 8,
        LayoutTarget::FramedMmapConsumerAttach => 9,
        LayoutTarget::TypedShmProducerCreate => 10,
        LayoutTarget::TypedShmConsumerAttach => 11,
        LayoutTarget::TypedMmapProducerCreate => 12,
        LayoutTarget::TypedMmapConsumerAttach => 13,
    };
    assert(all[at] == target);
    reveal_strlit("lv_shm_prod");
    reveal_strlit("lv_shm");
    reveal_strlit("lv_cur");
    reveal_strlit("lv_mmap_prod");
    reveal_strlit("lv_mmap");
    reveal_strlit("lv_mmap_cur");
    reveal_strlit("lv_framed_prod");
    reveal_strlit("lv_frc");
    reveal_strlit("lv_framed_mmap_prod");
    reveal_strlit("lv_framed_mmap");
    reveal_strlit("lv_typed_prod");
    reveal_strlit("lv_typed");
    reveal_strlit("lv_typed_mmap_prod");
    reveal_strlit("lv_typed_mmap");
    let text = target_prefix(target);
    let word = seq!['m', 'm'];
    if target_is_mapped(target) {
        let start: int = if at <= 5 {
            3
        } else if at <= 9 {
            10
        } else {
            9
        };
        assert(text.subrange(start, start + 2) =~= word);
        assert(occurs_at(text, word, start));
    } else if contains_text(text, word) {
        let start = choose|start: int| #[trigger] occurs_at(text, word, start);
        assert(text.subrange(start, start + 2)[0] == text[start]);
        assert(text.subrange(start, start + 2)[1] == text[start + 1]);
        assert(false);
    }
}

} // verus!
