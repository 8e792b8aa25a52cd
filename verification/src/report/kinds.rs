//! The kinds that classify a scenario, and their names in reports.
//!
//! A kind is read from its name. A name that stands for no known kind is kept
//! as it is, so writing a kind that was read gives its name back.
use vstd::prelude::*;
use crate::decimal::{
    decimal, decimal_text, law_number_reads_back, parse_u64, parse_usize, parsed_number,
};
use crate::text::{after_prefix, before_suffix, has_prefix, has_suffix, same_text};

verus! {

/// The transport that a scenario ran on.
#[derive(Clone, Debug, PartialEq, Eq)]
pub enum BackendKind {
    Shm,
    Mmap,
    Layout,
    Unknown(String),
}

/// The name of a backend.
pub open spec fn backend_text(kind: BackendKind) -> Seq<char> {
    match kind {
        BackendKind::Shm => "shm"@,
        BackendKind::Mmap => "mmap"@,
        BackendKind::Layout => "layout"@,
        BackendKind::Unknown(other) => other@,
    }
}

/// `text` names a known backend.
pub open spec fn is_backend_name(text: Seq<char>) -> bool {
    text == "shm"@
        || text == "mmap"@
        || text == "layout"@
}

/// `kind` is read from `text`.
pub open spec fn reads_backend(text: Seq<char>, kind: BackendKind) -> bool {
    &&& backend_text(kind) == text
    &&& kind is Unknown <==> !is_backend_name(text)
}

/// The two kinds are one.
pub open spec fn same_backend(a: BackendKind, b: BackendKind) -> bool {
    match (a, b) {
        (BackendKind::Shm, BackendKind::Shm) => true,
        (BackendKind::Mmap, BackendKind::Mmap) => true,
        (BackendKind::Layout, BackendKind::Layout) => true,
        (BackendKind::Unknown(x), BackendKind::Unknown(y)) => x@ == y@,
        _ => false,
    }
}

/// Reads a backend from its name.
pub fn parse_backend(text: &str) -> (r: BackendKind)
    ensures
        reads_backend(text@, r),
{
    if same_text(text, "shm") {
        BackendKind::Shm
    } else if same_text(text, "mmap") {
        BackendKind::Mmap
    } else if same_text(text, "layout") {
        BackendKind::Layout
    } else {
        BackendKind::Unknown(text.to_owned())
    }
}

/// The name of a backend.
pub fn backend_name(kind: &BackendKind) -> (r: String)
    ensures
        r@ == backend_text(*kind),
{
    match kind {
        BackendKind::Shm => "shm".to_owned(),
        BackendKind::Mmap => "mmap".to_owned(),
        BackendKind::Layout => "layout".to_owned(),
        BackendKind::Unknown(other) => other.clone(),
    }
}

/// A name reads as one kind, and a kind whose name is not taken by another
/// reads back from its name.
pub proof fn law_backend_reads_back(kind: BackendKind, read: BackendKind)
    requires
        kind is Unknown ==> !is_backend_name(backend_text(kind)),
        reads_backend(backend_text(kind), read),
    ensures
        same_backend(kind, read),
{
    reveal_strlit("shm");
    reveal_strlit("mmap");
    reveal_strlit("layout");
    assert("shm"@.len() == 3);
    assert("mmap"@.len() == 4);
    assert("layout"@.len() == 6);
}

/// The codec of a scenario's messages.
#[derive(Clone, Debug, PartialEq, Eq)]
pub enum CodecKind {
    Bincode,
    Rkyv,
    Flatbuf,
    Unknown(String),
}

/// The name of a codec.
pub open spec fn codec_text(kind: CodecKind) -> Seq<char> {
    match kind {
        CodecKind::Bincode => "bincode"@,
        CodecKind::Rkyv => "rkyv"@,
        CodecKind::Flatbuf => "flatbuf"@,
        CodecKind::Unknown(other) => other@,
    }
}

/// `text` names a known codec.
pub open spec fn is_codec_name(text: Seq<char>) -> bool {
    text == "bincode"@
        || text == "rkyv"@
        || text == "flatbuf"@
}

/// `kind` is read from `text`.
pub open spec fn reads_codec(text: Seq<char>, kind: CodecKind) -> bool {
    &&& codec_text(kind) == text
    &&& kind is Unknown <==> !is_codec_name(text)
}

/// The two kinds are one.
pub open spec fn same_codec(a: CodecKind, b: CodecKind) -> bool {
    match (a, b) {
        (CodecKind::Bincode, CodecKind::Bincode) => true,
        (CodecKind::Rkyv, CodecKind::Rkyv) => true,
        (CodecKind::Flatbuf, CodecKind::Flatbuf) => true,
        (CodecKind::Unknown(x), CodecKind::Unknown(y)) => x@ == y@,
        _ => false,
    }
}

/// Reads a codec from its name.
pub fn parse_codec(text: &str) -> (r: CodecKind)
    ensures
        reads_codec(text@, r),
{
    if same_text(text, "bincode") {
        CodecKind::Bincode
    } else if same_text(text, "rkyv") {
        CodecKind::Rkyv
    } else if same_text(text, "flatbuf") {
        CodecKind::Flatbuf
    } else {
        CodecKind::Unknown(text.to_owned())
    }
}

/// The name of a codec.
pub fn codec_name(kind: &CodecKind) -> (r: String)
    ensures
        r@ == codec_text(*kind),
{
    match kind {
        CodecKind::Bincode => "bincode".to_owned(),
        CodecKind::Rkyv => "rkyv".to_owned(),
        CodecKind::Flatbuf => "flatbuf".to_owned(),
        CodecKind::Unknown(other) => other.clone(),
    }
}

/// A name reads as one kind, and a kind whose name is not taken by another
/// reads back from its name.
pub proof fn law_codec_reads_back(kind: CodecKind, read: CodecKind)
    requires
        kind is Unknown ==> !is_codec_name(codec_text(kind)),
        reads_codec(codec_text(kind), read),
    ensures
        same_codec(kind, read),
{
    reveal_strlit("bincode");
    reveal_strlit("rkyv");
    reveal_strlit("flatbuf");
    assert("bincode"@.len() == 7);
    assert("rkyv"@.len() == 4);
    assert("flatbuf"@.len() == 7);
    assert("bincode"@[0] != "flatbuf"@[0]);
}

/// How a consumer waits for the next event.
#[derive(Clone, Debug, PartialEq, Eq)]
pub enum WaitStrategyKind {
    BusySpin,
    BusySpinWithSpinLoopHint,
    Block,
    Sleep,
    Unknown(String),
}

/// The name of a wait strategy.
pub open spec fn wait_strategy_text(kind: WaitStrategyKind) -> Seq<char> {
    match kind {
        WaitStrategyKind::BusySpin => "BusySpin"@,
        WaitStrategyKind::BusySpinWithSpinLoopHint => "BusySpinWithSpinLoopHint"@,
        WaitStrategyKind::Block => "Block"@,
        WaitStrategyKind::Sleep => "Sleep"@,
        WaitStrategyKind::Unknown(other) => other@,
    }
}

/// `text` names a known wait strategy.
pub open spec fn is_wait_strategy_name(text: Seq<char>) -> bool {
    text == "BusySpin"@
        || text == "BusySpinWithSpinLoopHint"@
        || text == "Block"@
        || text == "Sleep"@
}

/// `kind` is read from `text`.
pub open spec fn reads_wait_strategy(text: Seq<char>, kind: WaitStrategyKind) -> bool {
    &&& wait_strategy_text(kind) == text
    &&& kind is Unknown <==> !is_wait_strategy_name(text)
}

/// The two kinds are one.
pub open spec fn same_wait_strategy(a: WaitStrategyKind, b: WaitStrategyKind) -> bool {
    match (a, b) {
        (WaitStrategyKind::BusySpin, WaitStrategyKind::BusySpin) => true,
        (WaitStrategyKind::BusySpinWithSpinLoopHint, WaitStrategyKind::BusySpinWithSpinLoopHint) => true,
        (WaitStrategyKind::Block, WaitStrategyKind::Block) => true,
        (WaitStrategyKind::Sleep, WaitStrategyKind::Sleep) => true,
        (WaitStrategyKind::Unknown(x), WaitStrategyKind::Unknown(y)) => x@ == y@,
        _ => false,
    }
}

/// Reads a wait strategy from its name.
pub fn parse_wait_strategy(text: &str) -> (r: WaitStrategyKind)
    ensures
        reads_wait_strategy(text@, r),
{
    if same_text(text, "BusySpin") {
        WaitStrategyKind::BusySpin
    } else if same_text(text, "BusySpinWithSpinLoopHint") {
        WaitStrategyKind::BusySpinWithSpinLoopHint
    } else if same_text(text, "Block") {
        WaitStrategyKind::Block
    } else if same_text(text, "Sleep") {
        WaitStrategyKind::Sleep
    } else {
        WaitStrategyKind::Unknown(text.to_owned())
    }
}

/// The name of a wait strategy.
pub fn wait_strategy_name(kind: &WaitStrategyKind) -> (r: String)
    ensures
        r@ == wait_strategy_text(*kind),
{
    match kind {
        WaitStrategyKind::BusySpin => "BusySpin".to_owned(),
        WaitStrategyKind::BusySpinWithSpinLoopHint => "BusySpinWithSpinLoopHint".to_owned(),
        WaitStrategyKind::Block => "Block".to_owned(),
        WaitStrategyKind::Sleep => "Sleep".to_owned(),
        WaitStrategyKind::Unknown(other) => other.clone(),
    }
}

/// A name reads as one kind, and a kind whose name is not taken by another
/// reads back from its name.
pub proof fn law_wait_strategy_reads_back(kind: WaitStrategyKind, read: WaitStrategyKind)
    requires
        kind is Unknown ==> !is_wait_strategy_name(wait_strategy_text(kind)),
        reads_wait_strategy(wait_strategy_text(kind), read),
    ensures
        same_wait_strategy(kind, read),
{
    reveal_strlit("BusySpin");
    reveal_strlit("BusySpinWithSpinLoopHint");
    reveal_strlit("Block");
    reveal_strlit("Sleep");
    assert("BusySpin"@.len() == 8);
    assert("BusySpinWithSpinLoopHint"@.len() == 24);
    assert("Block"@.len() == 5);
    assert("Sleep"@.len() == 5);
    assert("Block"@[0] != "Sleep"@[0]);
}

/// How the processes of a scenario find their start and end.
#[derive(Clone, Debug, PartialEq, Eq)]
pub enum CoordinationKind {
    BenchmarkCoordination,
    UnifiedCoordination,
    MmapBuiltin,
    Unknown(String),
}

/// The name of a coordination.
pub open spec fn coordination_text(kind: CoordinationKind) -> Seq<char> {
    match kind {
        CoordinationKind::BenchmarkCoordination => "BenchmarkCoordination"@,
        CoordinationKind::UnifiedCoordination => "UnifiedCoordination"@,
        CoordinationKind::MmapBuiltin => "mmap_builtin"@,
        CoordinationKind::Unknown(other) => other@,
    }
}

/// `text` names a known coordination.
pub open spec fn is_coordination_name(text: Seq<char>) -> bool {
    text == "BenchmarkCoordination"@
        || text == "UnifiedCoordination"@
        || text == "mmap_builtin"@
}

/// `kind` is read from `text`.
pub open spec fn reads_coordination(text: Seq<char>, kind: CoordinationKind) -> bool {
    &&& coordination_text(kind) == text
    &&& kind is Unknown <==> !is_coordination_name(text)
}

/// The two kinds are one.
pub open spec fn same_coordination(a: CoordinationKind, b: CoordinationKind) -> bool {
    match (a, b) {
        (CoordinationKind::BenchmarkCoordination, CoordinationKind::BenchmarkCoordination) => true,
        (CoordinationKind::UnifiedCoordination, CoordinationKind::UnifiedCoordination) => true,
        (CoordinationKind::MmapBuiltin, CoordinationKind::MmapBuiltin) => true,
        (CoordinationKind::Unknown(x), CoordinationKind::Unknown(y)) => x@ == y@,
        _ => false,
    }
}

/// Reads a coordination from its name.
pub fn parse_coordination(text: &str) -> (r: CoordinationKind)
    ensures
        reads_coordination(text@, r),
{
    if same_text(text, "BenchmarkCoordination") {
        CoordinationKind::BenchmarkCoordination
    } else if same_text(text, "UnifiedCoordination") {
        CoordinationKind::UnifiedCoordination
    } else if same_text(text, "mmap_builtin") {
        CoordinationKind::MmapBuiltin
    } else {
        CoordinationKind::Unknown(text.to_owned())
    }
}

/// The name of a coordination.
pub fn coordination_name(kind: &CoordinationKind) -> (r: String)
    ensures
        r@ == coordination_text(*kind),
{
    match kind {
        CoordinationKind::BenchmarkCoordination => "BenchmarkCoordination".to_owned(),
        CoordinationKind::UnifiedCoordination => "UnifiedCoordination".to_owned(),
        CoordinationKind::MmapBuiltin => "mmap_builtin".to_owned(),
        CoordinationKind::Unknown(other) => other.clone(),
    }
}

/// A name reads as one kind, and a kind whose name is not taken by another
/// reads back from its name.
pub proof fn law_coordination_reads_back(kind: CoordinationKind, read: CoordinationKind)
    requires
        kind is Unknown ==> !is_coordination_name(coordination_text(kind)),
        reads_coordination(coordination_text(kind), read),
    ensures
        same_coordination(kind, read),
{
    reveal_strlit("BenchmarkCoordination");
    reveal_strlit("UnifiedCoordination");
    reveal_strlit("mmap_builtin");
    assert("BenchmarkCoordination"@.len() == 21);
    assert("UnifiedCoordination"@.len() == 19);
    assert("mmap_builtin"@.len() == 12);
}

/// How messages are cut into frames.
#[derive(Clone, Debug, PartialEq, Eq)]
pub enum FramingKind {
    Unframed,
    Fixed64K,
    Fixed64KBatch,
    RightSized,
    Unknown(String),
}

/// The name of a framing.
pub open spec fn framing_text(kind: FramingKind) -> Seq<char> {
    match kind {
        FramingKind::Unframed => "none"@,
        FramingKind::Fixed64K => "fixed_64k"@,
        FramingKind::Fixed64KBatch => "fixed_64k_batch"@,
        FramingKind::RightSized => "right_sized"@,
        FramingKind::Unknown(other) => other@,
    }
}

/// `text` names a known framing.
pub open spec fn is_framing_name(text: Seq<char>) -> bool {
    text == "none"@
        || text == "fixed_64k"@
        || text == "fixed_64k_batch"@
        || text == "right_sized"@
}

/// `kind` is read from `text`.
pub open spec fn reads_framing(text: Seq<char>, kind: FramingKind) -> bool {
    &&& framing_text(kind) == text
    &&& kind is Unknown <==> !is_framing_name(text)
}

/// The two kinds are one.
pub open spec fn same_framing(a: FramingKind, b: FramingKind) -> bool {
    match (a, b) {
        (FramingKind::Unframed, FramingKind::Unframed) => true,
        (FramingKind::Fixed64K, FramingKind::Fixed64K) => true,
        (FramingKind::Fixed64KBatch, FramingKind::Fixed64KBatch) => true,
        (FramingKind::RightSized, FramingKind::RightSized) => true,
        (FramingKind::Unknown(x), FramingKind::Unknown(y)) => x@ == y@,
        _ => false,
    }
}

/// Reads a framing from its name.
pub fn parse_framing(text: &str) -> (r: FramingKind)
    ensures
        reads_framing(text@, r),
{
    if same_text(text, "none") {
        FramingKind::Unframed
    } else if same_text(text, "fixed_64k") {
        FramingKind::Fixed64K
    } else if same_text(text, "fixed_64k_batch") {
        FramingKind::Fixed64KBatch
    } else if same_text(text, "right_sized") {
        FramingKind::RightSized
    } else {
        FramingKind::Unknown(text.to_owned())
    }
}

/// The name of a framing.
pub fn framing_name(kind: &FramingKind) -> (r: String)
    ensures
        r@ == framing_text(*kind),
{
    match kind {
        FramingKind::Unframed => "none".to_owned(),
        FramingKind::Fixed64K => "fixed_64k".to_owned(),
        FramingKind::Fixed64KBatch => "fixed_64k_batch".to_owned(),
        FramingKind::RightSized => "right_sized".to_owned(),
        FramingKind::Unknown(other) => other.clone(),
    }
}

/// A name reads as one kind, and a kind whose name is not taken by another
/// reads back from its name.
pub proof fn law_framing_reads_back(kind: FramingKind, read: FramingKind)
    requires
        kind is Unknown ==> !is_framing_name(framing_text(kind)),
        reads_framing(framing_text(kind), read),
    ensures
        same_framing(kind, read),
{
    reveal_strlit("none");
    reveal_strlit("fixed_64k");
    reveal_strlit("fixed_64k_batch");
    reveal_strlit("right_sized");
    assert("none"@.len() == 4);
    assert("fixed_64k"@.len() == 9);
    assert("fixed_64k_batch"@.len() == 15);
    assert("right_sized"@.len() == 11);
}
/// A copy of a backend.
pub fn copied_backend(kind: &BackendKind) -> (r: BackendKind)
    ensures
        r == *kind,
{
    match kind {
        BackendKind::Shm => BackendKind::Shm,
        BackendKind::Mmap => BackendKind::Mmap,
        BackendKind::Layout => BackendKind::Layout,
        BackendKind::Unknown(other) => BackendKind::Unknown(other.clone()),
    }
}

/// Whether consumers are discovered before the run, and how many.
#[derive(Clone, Debug, PartialEq, Eq)]
pub enum DiscoveryKind {
    Disabled,
    Enabled { consumers: usize },
    Unknown(String),
}

/// The name of a discovery mode.
pub open spec fn discovery_text(kind: DiscoveryKind) -> Seq<char> {
    match kind {
        DiscoveryKind::Disabled => "disabled"@,
        DiscoveryKind::Enabled { consumers } => "enabled("@ + decimal_text(consumers as nat)
            + ")"@,
        DiscoveryKind::Unknown(other) => other@,
    }
}

/// The number of consumers that a discovery name states, where it is of the
/// form `enabled(n)`.
pub open spec fn enabled_consumers(text: Seq<char>) -> Option<nat> {
    let rest = text.skip("enabled("@.len() as int);
    if has_prefix(text, "enabled("@) && has_suffix(rest, ")"@) {
        parsed_number(rest.take(rest.len() - 1), usize::MAX as nat)
    } else {
        None
    }
}

/// `kind` is read from `text`.
pub open spec fn reads_discovery(text: Seq<char>, kind: DiscoveryKind) -> bool {
    match kind {
        DiscoveryKind::Disabled => text == "disabled"@,
        DiscoveryKind::Enabled { consumers } => text != "disabled"@ && enabled_consumers(text)
            == Some(consumers as nat),
        DiscoveryKind::Unknown(other) => other@ == text && text != "disabled"@
            && enabled_consumers(text) is None,
    }
}

/// Reads a discovery mode from its name.
pub fn parse_discovery(text: &str) -> (r: DiscoveryKind)
    ensures
        reads_discovery(text@, r),
{
    if same_text(text, "disabled") {
        return DiscoveryKind::Disabled;
    }
    proof {
        reveal_strlit(")");
    }
    if let Some(rest) = after_prefix(text, "enabled(") {
        if let Some(value) = before_suffix(rest.as_str(), ")") {
            if let Some(consumers) = parse_usize(value.as_str()) {
                return DiscoveryKind::Enabled { consumers };
            }
        }
    }
    DiscoveryKind::Unknown(text.to_owned())
}

/// The name of a discovery mode.
pub fn discovery_name(kind: &DiscoveryKind) -> (r: String)
    ensures
        r@ == discovery_text(*kind),
{
    match kind {
        DiscoveryKind::Disabled => "disabled".to_owned(),
        DiscoveryKind::Enabled { consumers } => {
            let mut out: String = "enabled(".to_owned();
            out.append(decimal(*consumers as u64).as_str());
            out.append(")");
            out
        },
        DiscoveryKind::Unknown(other) => other.clone(),
    }
}

/// The two kinds are one.
pub open spec fn same_discovery(a: DiscoveryKind, b: DiscoveryKind) -> bool {
    match (a, b) {
        (DiscoveryKind::Disabled, DiscoveryKind::Disabled) => true,
        (DiscoveryKind::Enabled { consumers: m }, DiscoveryKind::Enabled { consumers: n }) => m
            == n,
        (DiscoveryKind::Unknown(x), DiscoveryKind::Unknown(y)) => x@ == y@,
        _ => false,
    }
}

/// The name of an enabled discovery states its number of consumers.
proof fn lemma_enabled_name(consumers: nat)
    requires
        consumers <= usize::MAX,
    ensures
        enabled_consumers("enabled("@ + decimal_text(consumers) + ")"@) == Some(consumers),
        "enabled("@ + decimal_text(consumers) + ")"@ != "disabled"@,
{
    reveal_strlit("enabled(");
    reveal_strlit("disabled");
    reveal_strlit(")");
    let text = "enabled("@ + decimal_text(consumers) + ")"@;
    let rest = text.skip(8);
    assert(text.subrange(0, 8) =~= "enabled("@);
    assert(rest =~= decimal_text(consumers) + ")"@);
    assert(rest.subrange(rest.len() - 1, rest.len() as int) =~= ")"@);
    assert(rest.take(rest.len() - 1) =~= decimal_text(consumers));
    law_number_reads_back(consumers, usize::MAX as nat);
    assert(text[0] == 'e');
    assert("disabled"@[0] == 'd');
}

/// A discovery mode whose name is not taken by another reads back from its
/// name.
pub proof fn law_discovery_reads_back(kind: DiscoveryKind, read: DiscoveryKind)
    requires
        kind is Unknown ==> reads_discovery(discovery_text(kind), kind),
        reads_discovery(discovery_text(kind), read),
    ensures
        same_discovery(kind, read),
{
    reveal_strlit("enabled(");
    reveal_strlit("disabled");
    if kind is Enabled {
        lemma_enabled_name(kind->consumers as nat);
    }
    if kind is Disabled {
        assert("disabled"@[0] != "enabled("@[0]);
        if has_prefix("disabled"@, "enabled("@) {
            assert("disabled"@.subrange(0, 8)[0] == "disabled"@[0]);
        }
    }
}

/// What a scenario measures.
#[derive(Clone, Debug, PartialEq, Eq)]
pub enum MeasurementKind {
    MaxThroughput,
    BatchTiming,
    LayoutValidation,
    CoAware { target_rate: u64 },
    Unknown(String),
}

/// The name of a measurement.
pub open spec fn measurement_text(kind: MeasurementKind) -> Seq<char> {
    match kind {
        MeasurementKind::MaxThroughput => "max_throughput"@,
        MeasurementKind::BatchTiming => "batch_timing"@,
        MeasurementKind::LayoutValidation => "layout_validation"@,
        MeasurementKind::CoAware { target_rate } => "co_aware@"@ + decimal_text(target_rate as nat),
        MeasurementKind::Unknown(other) => other@,
    }
}

/// `text` names a measurement without a rate.
pub open spec fn is_plain_measurement_name(text: Seq<char>) -> bool {
    text == "max_throughput"@ || text == "batch_timing"@ || text == "layout_validation"@
}

/// The rate that a measurement name states, where it is of the form
/// `co_aware@n`.
pub open spec fn co_aware_rate(text: Seq<char>) -> Option<nat> {
    if has_prefix(text, "co_aware@"@) {
        parsed_number(text.skip("co_aware@"@.len() as int), u64::MAX as nat)
    } else {
        None
    }
}

/// `kind` is read from `text`.
pub open spec fn reads_measurement(text: Seq<char>, kind: MeasurementKind) -> bool {
    match kind {
        MeasurementKind::MaxThroughput => text == "max_throughput"@,
        MeasurementKind::BatchTiming => text == "batch_timing"@,
        MeasurementKind::LayoutValidation => text == "layout_validation"@,
        MeasurementKind::CoAware { target_rate } => !is_plain_measurement_name(text)
            && co_aware_rate(text) == Some(target_rate as nat),
        MeasurementKind::Unknown(other) => other@ == text && !is_plain_measurement_name(text)
            && co_aware_rate(text) is None,
    }
}

/// Reads a measurement from its name.
pub fn parse_measurement(text: &str) -> (r: MeasurementKind)
    ensures
        reads_measurement(text@, r),
{
    if same_text(text, "max_throughput") {
        return MeasurementKind::MaxThroughput;
    }
    if same_text(text, "batch_timing") {
        return MeasurementKind::BatchTiming;
    }
    if same_text(text, "layout_validation") {
        return MeasurementKind::LayoutValidation;
    }
    if let Some(rate) = after_prefix(text, "co_aware@") {
        if let Some(target_rate) = parse_u64(rate.as_str()) {
            return MeasurementKind::CoAware { target_rate };
        }
    }
    MeasurementKind::Unknown(text.to_owned())
}

/// The name of a measurement.
pub fn measurement_name(kind: &MeasurementKind) -> (r: String)
    ensures
        r@ == measurement_text(*kind),
{
    match kind {
        MeasurementKind::MaxThroughput => "max_throughput".to_owned(),
        MeasurementKind::BatchTiming => "batch_timing".to_owned(),
        MeasurementKind::LayoutValidation => "layout_validation".to_owned(),
        MeasurementKind::CoAware { target_rate } => {
            let mut out: String = "co_aware@".to_owned();
            out.append(decimal(*target_rate).as_str());
            out
        },
        MeasurementKind::Unknown(other) => other.clone(),
    }
}

/// The two kinds are one.
pub open spec fn same_measurement(a: MeasurementKind, b: MeasurementKind) -> bool {
    match (a, b) {
        (MeasurementKind::MaxThroughput, MeasurementKind::MaxThroughput) => true,
        (MeasurementKind::BatchTiming, MeasurementKind::BatchTiming) => true,
        (MeasurementKind::LayoutValidation, MeasurementKind::LayoutValidation) => true,
        (
            MeasurementKind::CoAware { target_rate: m },
            MeasurementKind::CoAware { target_rate: n },
        ) => m == n,
        (MeasurementKind::Unknown(x), MeasurementKind::Unknown(y)) => x@ == y@,
        _ => false,
    }
}

/// The name of a rate-bound measurement states its rate.
proof fn lemma_co_aware_name(rate: nat)
    requires
        rate <= u64::MAX,
    ensures
        co_aware_rate("co_aware@"@ + decimal_text(rate)) == Some(rate),
        !is_plain_measurement_name("co_aware@"@ + decimal_text(rate)),
{
    reveal_strlit("co_aware@");
    reveal_strlit("max_throughput");
    reveal_strlit("batch_timing");
    reveal_strlit("layout_validation");
    let text = "co_aware@"@ + decimal_text(rate);
    assert(text.subrange(0, 9) =~= "co_aware@"@);
    assert(text.skip(9) =~= decimal_text(rate));
    law_number_reads_back(rate, u64::MAX as nat);
    assert(text[0] == 'c');
    assert("max_throughput"@[0] == 'm');
    assert("batch_timing"@[0] == 'b');
    assert("layout_validation"@[0] == 'l');
}

/// A measurement whose name is not taken by another reads back from its name.
pub proof fn law_measurement_reads_back(kind: MeasurementKind, read: MeasurementKind)
    requires
        kind is Unknown ==> reads_measurement(measurement_text(kind), kind),
        reads_measurement(measurement_text(kind), read),
    ensures
        same_measurement(kind, read),
{
    reveal_strlit("max_throughput");
    reveal_strlit("batch_timing");
    reveal_strlit("layout_validation");
    assert("max_throughput"@[0] == 'm');
    assert("batch_timing"@[0] == 'b');
    assert("layout_validation"@[0] == 'l');
    if kind is CoAware {
        lemma_co_aware_name(kind->target_rate as nat);
    }
}

/// Whether messages are read in place.
#[derive(Clone, Copy, Debug, PartialEq, Eq, Structural)]
pub enum ZeroCopyKind {
    Enabled,
    Disabled,
}

/// The kind for a flag.
pub fn parse_zero_copy(enabled: bool) -> (r: ZeroCopyKind)
    ensures
        r == if enabled {
            ZeroCopyKind::Enabled
        } else {
            ZeroCopyKind::Disabled
        },
{
    if enabled {
        ZeroCopyKind::Enabled
    } else {
        ZeroCopyKind::Disabled
    }
}

/// The flag for a kind.
pub fn zero_copy_enabled(kind: &ZeroCopyKind) -> (r: bool)
    ensures
        r == (*kind == ZeroCopyKind::Enabled),
{
    matches!(kind, ZeroCopyKind::Enabled)
}

/// The family of benchmarks that a scenario belongs to.
#[derive(Clone, Debug, PartialEq, Eq)]
pub enum ScenarioFamily {
    RawRing,
    WaitStrategy,
    PingPong,
    Framed,
    CodecE2E,
    CodecNoFrag,
    MonsterSweep,
    MyelonLayerSweep,
    MyelonFramedSweep,
    NofragSweep,
    LayoutValidation,
    Unknown(String),
}

/// The benchmarks of the ping-pong family.
pub open spec fn is_pingpong_benchmark(name: Seq<char>) -> bool {
    name == "pingpong_shm"@ || name == "pingpong_mmap"@ || name == "pingpong_raw_myelon_shm"@
        || name == "pingpong_raw_myelon_mmap"@ || name == "pingpong_framed_shm"@ || name
        == "pingpong_framed_mmap"@ || name == "pingpong_codec_shm"@ || name
        == "pingpong_codec_mmap"@ || name == "pingpong_typed_zero_copy_shm"@ || name
        == "pingpong_typed_zero_copy_mmap"@
}

/// `name` is a benchmark of the known family.
pub open spec fn is_family_benchmark(family: ScenarioFamily, name: Seq<char>) -> bool {
    match family {
        ScenarioFamily::RawRing => name == "raw_ring_shm"@ || name == "raw_ring_mmap"@,
        ScenarioFamily::WaitStrategy => name == "wait_strategy_shm"@ || name
            == "wait_strategy_mmap"@,
        ScenarioFamily::PingPong => is_pingpong_benchmark(name),
        ScenarioFamily::Framed => name == "framed_shm"@ || name == "framed_mmap"@,
        ScenarioFamily::CodecE2E => name == "codec_e2e_shm"@ || name == "codec_e2e_mmap"@,
        ScenarioFamily::CodecNoFrag => name == "codec_nofrag_shm"@,
        ScenarioFamily::MonsterSweep => name == "monster_sweep_shm"@ || name
            == "monster_sweep_mmap"@,
        ScenarioFamily::MyelonLayerSweep => name == "myelon_layers"@,
        ScenarioFamily::MyelonFramedSweep => name == "myelon_framed_sweep"@,
        ScenarioFamily::NofragSweep => name == "nofrag_all"@,
        ScenarioFamily::LayoutValidation => name == "layout_validation"@,
        ScenarioFamily::Unknown(_) => false,
    }
}

/// `family` is the family of the benchmark called `name`: the known family
/// that lists it, or an unknown one that keeps its name.
pub open spec fn family_of(name: Seq<char>, family: ScenarioFamily) -> bool {
    match family {
        ScenarioFamily::Unknown(other) => other@ == name && forall|known: ScenarioFamily|
            !(#[trigger] is_family_benchmark(known, name)),
        _ => is_family_benchmark(family, name),
    }
}

/// The family of a benchmark, by its name.
pub fn infer_family(benchmark: &str) -> (r: ScenarioFamily)
    ensures
        family_of(benchmark@, r),
{
    if same_text(benchmark, "raw_ring_shm") || same_text(benchmark, "raw_ring_mmap") {
        ScenarioFamily::RawRing
    } else if same_text(benchmark, "wait_strategy_shm") || same_text(
        benchmark,
        "wait_strategy_mmap",
    ) {
        ScenarioFamily::WaitStrategy
    } else if same_text(benchmark, "pingpong_shm") || same_text(benchmark, "pingpong_mmap")
        || same_text(benchmark, "pingpong_raw_myelon_shm") || same_text(
        benchmark,
        "pingpong_raw_myelon_mmap",
    ) || same_text(benchmark, "pingpong_framed_shm") || same_text(benchmark, "pingpong_framed_mmap")
        || same_text(benchmark, "pingpong_codec_shm") || same_text(benchmark, "pingpong_codec_mmap")
        || same_text(benchmark, "pingpong_typed_zero_copy_shm") || same_text(
        benchmark,
        "pingpong_typed_zero_copy_mmap",
    ) {
        ScenarioFamily::PingPong
    } else if same_text(benchmark, "framed_shm") || same_text(benchmark, "framed_mmap") {
        ScenarioFamily::Framed
    } else if same_text(benchmark, "codec_e2e_shm") || same_text(benchmark, "codec_e2e_mmap") {
        ScenarioFamily::CodecE2E
    } else if same_text(benchmark, "codec_nofrag_shm") {
        ScenarioFamily::CodecNoFrag
    } else if same_text(benchmark, "monster_sweep_shm") || same_text(
        benchmark,
        "monster_sweep_mmap",
    ) {
        ScenarioFamily::MonsterSweep
    } else if same_text(benchmark, "myelon_layers") {
        ScenarioFamily::MyelonLayerSweep
    } else if same_text(benchmark, "myelon_framed_sweep") {
        ScenarioFamily::MyelonFramedSweep
    } else if same_text(benchmark, "nofrag_all") {
        ScenarioFamily::NofragSweep
    } else if same_text(benchmark, "layout_validation") {
        ScenarioFamily::LayoutValidation
    } else {
        ScenarioFamily::Unknown(benchmark.to_owned())
    }
}

/// A backend's name reads as the backend that it names, and any other name as an
/// unknown one of that name.
pub proof fn law_backend_is_named(text: Seq<char>, read: BackendKind)
    requires
        reads_backend(text, read),
    ensures
        text == "shm"@ <==> read is Shm,
        text == "mmap"@ <==> read is Mmap,
        text == "layout"@ <==> read is Layout,
        read is Unknown ==> read->Unknown_0@ == text,
{
    reveal_strlit("shm");
    reveal_strlit("mmap");
    reveal_strlit("layout");
    assert("shm"@.len() == 3);
    assert("mmap"@.len() == 4);
    assert("layout"@.len() == 6);
}

/// A codec's name reads as the codec that it names, and any other name as an
/// unknown one of that name.
pub proof fn law_codec_is_named(text: Seq<char>, read: CodecKind)
    requires
        reads_codec(text, read),
    ensures
        text == "bincode"@ <==> read is Bincode,
        text == "rkyv"@ <==> read is Rkyv,
        text == "flatbuf"@ <==> read is Flatbuf,
        read is Unknown ==> read->Unknown_0@ == text,
{
    reveal_strlit("bincode");
    reveal_strlit("rkyv");
    reveal_strlit("flatbuf");
    assert("bincode"@.len() == 7);
    assert("rkyv"@.len() == 4);
    assert("flatbuf"@.len() == 7);
    assert("bincode"@[0] != "flatbuf"@[0]);
}

/// A wait strategy's name reads as the strategy that it names, and any other name
/// as an unknown one of that name.
pub proof fn law_wait_strategy_is_named(text: Seq<char>, read: WaitStrategyKind)
    requires
        reads_wait_strategy(text, read),
    ensures
        text == "BusySpin"@ <==> read is BusySpin,
        text == "BusySpinWithSpinLoopHint"@ <==> read is BusySpinWithSpinLoopHint,
        text == "Block"@ <==> read is Block,
        text == "Sleep"@ <==> read is Sleep,
        read is Unknown ==> read->Unknown_0@ == text,
{
    reveal_strlit("BusySpin");
    reveal_strlit("BusySpinWithSpinLoopHint");
    reveal_strlit("Block");
    reveal_strlit("Sleep");
    assert("BusySpin"@.len() == 8);
    assert("BusySpinWithSpinLoopHint"@.len() == 24);
    assert("Block"@.len() == 5);
    assert("Sleep"@.len() == 5);
    assert("Block"@[0] != "Sleep"@[0]);
}

/// A coordination's name reads as the coordination that it names, and any other
/// name as an unknown one of that name.
pub proof fn law_coordination_is_named(text: Seq<char>, read: CoordinationKind)
    requires
        reads_coordination(text, read),
    ensures
        text == "BenchmarkCoordination"@ <==> read is BenchmarkCoordination,
        text == "UnifiedCoordination"@ <==> read is UnifiedCoordination,
        text == "mmap_builtin"@ <==> read is MmapBuiltin,
        read is Unknown ==> read->Unknown_0@ == text,
{
    reveal_strlit("BenchmarkCoordination");
    reveal_strlit("UnifiedCoordination");
    reveal_strlit("mmap_builtin");
    assert("BenchmarkCoordination"@.len() == 21);
    assert("UnifiedCoordination"@.len() == 19);
    assert("mmap_builtin"@.len() == 12);
}

/// A framing's name reads as the framing that it names, and any other name as an
/// unknown one of that name.
pub proof fn law_framing_is_named(text: Seq<char>, read: FramingKind)
    requires
        reads_framing(text, read),
    ensures
        text == "none"@ <==> read is Unframed,
        text == "fixed_64k"@ <==> read is Fixed64K,
        text == "fixed_64k_batch"@ <==> read is Fixed64KBatch,
        text == "right_sized"@ <==> read is RightSized,
        read is Unknown ==> read->Unknown_0@ == text,
{
    reveal_strlit("none");
    reveal_strlit("fixed_64k");
    reveal_strlit("fixed_64k_batch");
    reveal_strlit("right_sized");
    assert("none"@.len() == 4);
    assert("fixed_64k"@.len() == 9);
    assert("fixed_64k_batch"@.len() == 15);
    assert("right_sized"@.len() == 11);
}

/// A benchmark belongs to the family that its name tells, over either transport;
/// every ping-pong to one family, and any other benchmark to one of its own.
pub proof fn law_family_is_told_by_the_name(name: Seq<char>, family: ScenarioFamily)
    requires
        family_of(name, family),
    ensures
        name == "raw_ring_shm"@ || name == "raw_ring_mmap"@ ==> !(family is Unknown),
        family is RawRing ==> name == "raw_ring_shm"@ || name == "raw_ring_mmap"@,
        family is WaitStrategy ==> name == "wait_strategy_shm"@ || name == "wait_strategy_mmap"@,
        family is Framed ==> name == "framed_shm"@ || name == "framed_mmap"@,
        family is CodecE2E ==> name == "codec_e2e_shm"@ || name == "codec_e2e_mmap"@,
        family is CodecNoFrag ==> name == "codec_nofrag_shm"@,
        family is MonsterSweep ==> name == "monster_sweep_shm"@ || name == "monster_sweep_mmap"@,
        family is MyelonLayerSweep ==> name == "myelon_layers"@,
        family is MyelonFramedSweep ==> name == "myelon_framed_sweep"@,
        family is NofragSweep ==> name == "nofrag_all"@,
        family is LayoutValidation ==> name == "layout_validation"@,
        family is PingPong ==> name.len() > 8 && name.take(8) == seq![
            'p',
            'i',
            'n',
            'g',
            'p',
            'o',
            'n',
            'g',
        ],
        family is Unknown ==> {
            &&& family->Unknown_0@ == name
            &&& name != "raw_ring_shm"@ && name != "raw_ring_mmap"@
            &&& name != "wait_strategy_shm"@ && name != "wait_strategy_mmap"@
            &&& name != "pingpong_shm"@ && name != "pingpong_mmap"@
            &&& name != "pingpong_raw_myelon_shm"@ && name != "pingpong_raw_myelon_mmap"@
            &&& name != "pingpong_framed_shm"@ && name != "pingpong_framed_mmap"@
            &&& name != "pingpong_codec_shm"@ && name != "pingpong_codec_mmap"@
            &&& name != "pingpong_typed_zero_copy_shm"@
            &&& name != "pingpong_typed_zero_copy_mmap"@
            &&& name != "framed_shm"@ && name != "framed_mmap"@
            &&& name != "codec_e2e_shm"@ && name != "codec_e2e_mmap"@
            &&& name != "codec_nofrag_shm"@
            &&& name != "monster_sweep_shm"@ && name != "monster_sweep_mmap"@
            &&& name != "myelon_layers"@ && name != "myelon_framed_sweep"@
            &&& name != "nofrag_all"@ && name != "layout_validation"@
        },
{
    reveal_strlit("pingpong_shm");
    reveal_strlit("pingpong_mmap");
    reveal_strlit("pingpong_raw_myelon_shm");
    reveal_strlit("pingpong_raw_myelon_mmap");
    reveal_strlit("pingpong_framed_shm");
    reveal_strlit("pingpong_framed_mmap");
    reveal_strlit("pingpong_codec_shm");
    reveal_strlit("pingpong_codec_mmap");
    reveal_strlit("pingpong_typed_zero_copy_shm");
    reveal_strlit("pingpong_typed_zero_copy_mmap");
    if family is PingPong {
        assert(name.take(8) =~= seq!['p', 'i', 'n', 'g', 'p', 'o', 'n', 'g']);
    }
    if family is Unknown {
        assert(!is_family_benchmark(ScenarioFamily::RawRing, name));
        assert(!is_family_benchmark(ScenarioFamily::WaitStrategy, name));
        assert(!is_family_benchmark(ScenarioFamily::PingPong, name));
        assert(!is_family_benchmark(ScenarioFamily::Framed, name));
        assert(!is_family_benchmark(ScenarioFamily::CodecE2E, name));
        assert(!is_family_benchmark(ScenarioFamily::CodecNoFrag, name));
        assert(!is_family_benchmark(ScenarioFamily::MonsterSweep, name));
        assert(!is_family_benchmark(ScenarioFamily::MyelonLayerSweep, name));
        assert(!is_family_benchmark(ScenarioFamily::MyelonFramedSweep, name));
        assert(!is_family_benchmark(ScenarioFamily::NofragSweep, name));
        assert(!is_family_benchmark(ScenarioFamily::LayoutValidation, name));
    }
}

} // verus!
