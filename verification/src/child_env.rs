//! What a child process reads from its environment.
use vstd::prelude::*;
use crate::decimal::{parse_u64, parse_usize, parsed_number};
use crate::env_config::{number_or, read_env_string, read_env_u64, read_env_usize};
use crate::launch::{env_views, EnvVar};
use crate::scenarios::raw_ring::{RawRingScenarioKind, RawRingTransport};
use crate::scenarios::selection::SweepBackend;
use crate::text::{option_str_view, option_view, same_text};

verus! {

/// The value of a variable: the one that was set last.
pub open spec fn env_value(envs: Seq<(Seq<char>, Seq<char>)>, key: Seq<char>) -> Option<Seq<char>>
    decreases envs.len(),
{
    if envs.len() == 0 {
        None
    } else if envs.last().0 == key {
        Some(envs.last().1)
    } else {
        env_value(envs.drop_last(), key)
    }
}

/// The value of a variable.
pub fn find_env<'a>(envs: &'a Vec<EnvVar>, key: &str) -> (r: Option<&'a str>)
    ensures
        option_str_view(r) == env_value(env_views(envs@), key@),
{
    let ghost all = env_views(envs@);
    let mut i: usize = envs.len();
    assert(all.take(all.len() as int) =~= all);
    while i > 0
        invariant
            i <= envs@.len(),
            all == env_views(envs@),
            env_value(all, key@) == env_value(all.take(i as int), key@),
        decreases i,
    {
        i = i - 1;
        assert(all.take(i + 1).last() == (envs@[i as int].key@, envs@[i as int].value@));
        assert(all.take(i + 1).drop_last() =~= all.take(i as int));
        if same_text(envs[i].key.as_str(), key) {
            return Some(envs[i].value.as_str());
        }
    }
    None
}

/// The variables that a child reads: where its ring is, how large it is, how
/// many events go through it, how many consumers there are, which of them the
/// child is, and at which rate events are sent. A ring in memory-mapped files
/// has a root directory besides.
#[derive(Clone, Copy, Debug)]
pub struct ChildKeys {
    pub segment: &'static str,
    pub root: Option<&'static str>,
    pub buffer: &'static str,
    pub events: &'static str,
    pub consumers: &'static str,
    pub consumer_id: &'static str,
    pub target_rate: Option<&'static str>,
    /// Whether the size of the ring and the number of events must be set.
    pub needs_load: bool,
}

/// What a child takes where a variable is not set or holds no number.
#[derive(Clone, Copy, Debug, PartialEq, Eq, Structural)]
pub struct ChildDefaults {
    pub buffer: usize,
    pub events: u64,
    pub consumers: usize,
}

/// What a child reads from its environment.
#[derive(Clone, Debug)]
pub struct ChildSettings {
    pub segment: String,
    pub root: Option<String>,
    pub buffer: usize,
    pub events: u64,
    pub consumers: usize,
    pub consumer_id: usize,
    pub target_rate: u64,
}

/// A variable that keeps a child from starting.
#[derive(Clone, Debug)]
pub enum ChildEnvError {
    /// It is not set.
    Missing(String),
    /// It holds no number of the right size.
    Malformed(String),
}

/// What keeps a child from starting: a variable that is not set, or one that
/// holds no number.
pub enum EnvProblem {
    Missing(Seq<char>),
    Malformed(Seq<char>),
}

/// What is wrong with a variable that must hold a number up to `max`.
pub open spec fn number_problem(
    envs: Seq<(Seq<char>, Seq<char>)>,
    key: Seq<char>,
    max: nat,
) -> Option<EnvProblem> {
    match env_value(envs, key) {
        None => Some(EnvProblem::Missing(key)),
        Some(text) => if parsed_number(text, max) is None {
            Some(EnvProblem::Malformed(key))
        } else {
            None
        },
    }
}

/// What keeps a child from starting, in the order in which it looks: the root
/// directory, the segment, the size of the ring, the number of events.
pub open spec fn child_problem(envs: Seq<(Seq<char>, Seq<char>)>, keys: ChildKeys) -> Option<
    EnvProblem,
> {
    if keys.root is Some && env_value(envs, keys.root->0@) is None {
        Some(EnvProblem::Missing(keys.root->0@))
    } else if env_value(envs, keys.segment@) is None {
        Some(EnvProblem::Missing(keys.segment@))
    } else if keys.needs_load {
        match number_problem(envs, keys.buffer@, usize::MAX as nat) {
            Some(problem) => Some(problem),
            None => number_problem(envs, keys.events@, u64::MAX as nat),
        }
    } else {
        None
    }
}

/// The error says what the problem is.
pub open spec fn tells(error: ChildEnvError, problem: EnvProblem) -> bool {
    match (error, problem) {
        (ChildEnvError::Missing(key), EnvProblem::Missing(text)) => key@ == text,
        (ChildEnvError::Malformed(key), EnvProblem::Malformed(text)) => key@ == text,
        _ => false,
    }
}

impl ChildSettings {
    /// The settings are those of the environment.
    pub open spec fn reads(
        &self,
        envs: Seq<(Seq<char>, Seq<char>)>,
        keys: ChildKeys,
        defaults: ChildDefaults,
    ) -> bool {
        &&& env_value(envs, keys.segment@) == Some(self.segment@)
        &&& option_view(self.root) == match keys.root {
            Some(key) => env_value(envs, key@),
            None => None,
        }
        &&& self.buffer == number_or(
            env_value(envs, keys.buffer@),
            usize::MAX as nat,
            defaults.buffer as nat,
        )
        &&& self.events == number_or(
            env_value(envs, keys.events@),
            u64::MAX as nat,
            defaults.events as nat,
        )
        &&& self.consumers == number_or(
            env_value(envs, keys.consumers@),
            usize::MAX as nat,
            defaults.consumers as nat,
        )
        &&& self.consumer_id == number_or(env_value(envs, keys.consumer_id@), usize::MAX as nat, 0)
        &&& self.target_rate == match keys.target_rate {
            Some(key) => number_or(env_value(envs, key@), u64::MAX as nat, 0),
            None => 0,
        }
    }

    /// Reads what a child needs. A child whose ring is nowhere, or that must be
    /// told the load and is not, does not start.
    pub fn read(envs: &Vec<EnvVar>, keys: &ChildKeys, defaults: &ChildDefaults) -> (r: Result<
        ChildSettings,
        ChildEnvError,
    >)
        ensures
            match r {
                Ok(settings) => child_problem(env_views(envs@), *keys) is None && settings.reads(
                    env_views(envs@),
                    *keys,
                    *defaults,
                ),
                Err(error) => child_problem(env_views(envs@), *keys) is Some && tells(
                    error,
                    child_problem(env_views(envs@), *keys)->0,
                ),
            },
    {
        let mut root: Option<String> = None;
        if let Some(key) = keys.root {
            match find_env(envs, key) {
                Some(value) => {
                    root = Some(value.to_owned());
                },
                None => {
                    return Err(ChildEnvError::Missing(key.to_owned()));
                },
            }
        }
        let segment: String = match find_env(envs, keys.segment) {
            Some(value) => value.to_owned(),
            None => {
                return Err(ChildEnvError::Missing(keys.segment.to_owned()));
            },
        };
        if keys.needs_load {
            match find_env(envs, keys.buffer) {
                Some(value) => if parse_usize(value).is_none() {
                    return Err(ChildEnvError::Malformed(keys.buffer.to_owned()));
                },
                None => {
                    return Err(ChildEnvError::Missing(keys.buffer.to_owned()));
                },
            }
            match find_env(envs, keys.events) {
                Some(value) => if parse_u64(value).is_none() {
                    return Err(ChildEnvError::Malformed(keys.events.to_owned()));
                },
                None => {
                    return Err(ChildEnvError::Missing(keys.events.to_owned()));
                },
            }
        }
        let target_rate: u64 = match keys.target_rate {
            Some(key) => read_env_u64(find_env(envs, key), 0),
            None => 0,
        };
        Ok(
            ChildSettings {
                segment,
                root,
                buffer: read_env_usize(find_env(envs, keys.buffer), defaults.buffer),
                events: read_env_u64(find_env(envs, keys.events), defaults.events),
                consumers: read_env_usize(find_env(envs, keys.consumers), defaults.consumers),
                consumer_id: read_env_usize(find_env(envs, keys.consumer_id), 0),
                target_rate,
            },
        )
    }
}

/// The variables of the raw ring over shared memory.
pub open spec fn is_raw_shm_keys(keys: ChildKeys) -> bool {
    &&& keys.segment@ == "BENCHMARK_SEGMENT_NAME"@
    &&& keys.root is None
    &&& keys.buffer@ == "BENCH_BUFFER"@
    &&& keys.events@ == "BENCH_EVENTS"@
    &&& keys.consumers@ == "BENCH_NUM_CONSUMERS"@
    &&& keys.consumer_id@ == "BENCH_CONSUMER_ID"@
    &&& keys.target_rate is Some
    &&& keys.target_rate->0@ == "BENCH_TARGET_RATE"@
    &&& !keys.needs_load
}

/// The variables of the raw ring over shared memory.
pub fn raw_shm_keys() -> (r: ChildKeys)
    ensures
        is_raw_shm_keys(r),
{
    ChildKeys {
        segment: "BENCHMARK_SEGMENT_NAME",
        root: None,
        buffer: "BENCH_BUFFER",
        events: "BENCH_EVENTS",
        consumers: "BENCH_NUM_CONSUMERS",
        consumer_id: "BENCH_CONSUMER_ID",
        target_rate: Some("BENCH_TARGET_RATE"),
        needs_load: false,
    }
}

/// The variables of messages of the raw ring over memory-mapped files.
pub open spec fn is_raw_mmap_message_keys(keys: ChildKeys) -> bool {
    &&& keys.segment@ == "MMAP_SEGMENT"@
    &&& keys.root is Some
    &&& keys.root->0@ == "MMAP_ROOT"@
    &&& keys.buffer@ == "MMAP_BUFFER_SIZE"@
    &&& keys.events@ == "MMAP_EVENTS"@
    &&& keys.consumers@ == "MMAP_NUM_CONSUMERS"@
    &&& keys.consumer_id@ == "MMAP_CONSUMER_ID"@
    &&& keys.target_rate is Some
    &&& keys.target_rate->0@ == "MMAP_TARGET_RATE"@
    &&& keys.needs_load
}

/// The variables of messages of the raw ring over memory-mapped files.
pub fn raw_mmap_message_keys() -> (r: ChildKeys)
    ensures
        is_raw_mmap_message_keys(r),
{
    ChildKeys {
        segment: "MMAP_SEGMENT",
        root: Some("MMAP_ROOT"),
        buffer: "MMAP_BUFFER_SIZE",
        events: "MMAP_EVENTS",
        consumers: "MMAP_NUM_CONSUMERS",
        consumer_id: "MMAP_CONSUMER_ID",
        target_rate: Some("MMAP_TARGET_RATE"),
        needs_load: true,
    }
}

/// The variables of signals of the raw ring over memory-mapped files.
pub open spec fn is_raw_mmap_signal_keys(keys: ChildKeys) -> bool {
    &&& keys.segment@ == "MMAP_SEGMENT"@
    &&& keys.root is Some
    &&& keys.root->0@ == "MMAP_ROOT"@
    &&& keys.buffer@ == "MMAP_BUFFER_SIZE"@
    &&& keys.events@ == "MMAP_EVENTS"@
    &&& keys.consumers@ == "MMAP_NUM_CONSUMERS"@
    &&& keys.consumer_id@ == "MMAP_CONSUMER_ID"@
    &&& keys.target_rate is Some
    &&& keys.target_rate->0@ == "PERF_BENCH_SIGNAL_TARGET_RATE"@
    &&& keys.needs_load
}

/// The variables of signals of the raw ring over memory-mapped files.
pub fn raw_mmap_signal_keys() -> (r: ChildKeys)
    ensures
        is_raw_mmap_signal_keys(r),
{
    ChildKeys {
        segment: "MMAP_SEGMENT",
        root: Some("MMAP_ROOT"),
        buffer: "MMAP_BUFFER_SIZE",
        events: "MMAP_EVENTS",
        consumers: "MMAP_NUM_CONSUMERS",
        consumer_id: "MMAP_CONSUMER_ID",
        target_rate: Some("PERF_BENCH_SIGNAL_TARGET_RATE"),
        needs_load: true,
    }
}

/// The variable from which the children of a raw ring read the rate: messages
/// have one of their own for each kind of place, signals one over memory-mapped
/// files. Other signals go at full speed.
pub open spec fn ring_rate_key(
    transport: RawRingTransport,
    kind: RawRingScenarioKind,
) -> Option<Seq<char>> {
    match (transport, kind) {
        (RawRingTransport::Shm, RawRingScenarioKind::Message) => Some("BENCH_TARGET_RATE"@),
        (_, RawRingScenarioKind::Message) => Some("MMAP_TARGET_RATE"@),
        (RawRingTransport::Mmap, RawRingScenarioKind::Signal) => Some(
            "PERF_BENCH_SIGNAL_TARGET_RATE"@,
        ),
        (_, RawRingScenarioKind::Signal) => None,
    }
}

/// The variables of a raw ring.
pub open spec fn is_raw_ring_keys(
    transport: RawRingTransport,
    kind: RawRingScenarioKind,
    keys: ChildKeys,
) -> bool {
    let shm = transport == RawRingTransport::Shm;
    &&& keys.segment@ == if shm {
        "BENCHMARK_SEGMENT_NAME"@
    } else {
        "MMAP_SEGMENT"@
    }
    &&& option_str_view(keys.root) == if shm {
        None
    } else {
        Some("MMAP_ROOT"@)
    }
    &&& keys.buffer@ == if shm {
        "BENCH_BUFFER"@
    } else {
        "MMAP_BUFFER_SIZE"@
    }
    &&& keys.events@ == if shm {
        "BENCH_EVENTS"@
    } else {
        "MMAP_EVENTS"@
    }
    &&& keys.consumers@ == if shm {
        "BENCH_NUM_CONSUMERS"@
    } else {
        "MMAP_NUM_CONSUMERS"@
    }
    &&& keys.consumer_id@ == if shm {
        "BENCH_CONSUMER_ID"@
    } else {
        "MMAP_CONSUMER_ID"@
    }
    &&& option_str_view(keys.target_rate) == ring_rate_key(transport, kind)
    &&& keys.needs_load == !shm
}

/// The variables of a raw ring.
pub fn raw_ring_keys(transport: RawRingTransport, kind: RawRingScenarioKind) -> (r: ChildKeys)
    ensures
        is_raw_ring_keys(transport, kind, r),
{
    match (transport, kind) {
        (RawRingTransport::Shm, RawRingScenarioKind::Message) => raw_shm_keys(),
        (RawRingTransport::Shm, RawRingScenarioKind::Signal) => {
            let mut keys = raw_shm_keys();
            keys.target_rate = None;
            keys
        },
        (_, RawRingScenarioKind::Message) => raw_mmap_message_keys(),
        (RawRingTransport::Mmap, RawRingScenarioKind::Signal) => raw_mmap_signal_keys(),
        (RawRingTransport::MyelonMmap, RawRingScenarioKind::Signal) => {
            let mut keys = raw_mmap_signal_keys();
            keys.target_rate = None;
            keys
        },
    }
}

/// The variables of the sweep over payload sizes.
pub open spec fn is_sweep_keys(keys: ChildKeys) -> bool {
    &&& keys.segment@ == "SWEEP_SEGMENT"@
    &&& keys.root is None
    &&& keys.buffer@ == "SWEEP_BUFFER"@
    &&& keys.events@ == "SWEEP_EVENTS"@
    &&& keys.consumers@ == "SWEEP_CONSUMERS"@
    &&& keys.consumer_id@ == "BENCH_CONSUMER_ID"@
    &&& keys.target_rate is Some
    &&& keys.target_rate->0@ == "SWEEP_TARGET_RATE"@
    &&& !keys.needs_load
}

/// The variables of the sweep over payload sizes.
pub fn sweep_keys() -> (r: ChildKeys)
    ensures
        is_sweep_keys(r),
{
    ChildKeys {
        segment: "SWEEP_SEGMENT",
        root: None,
        buffer: "SWEEP_BUFFER",
        events: "SWEEP_EVENTS",
        consumers: "SWEEP_CONSUMERS",
        consumer_id: "BENCH_CONSUMER_ID",
        target_rate: Some("SWEEP_TARGET_RATE"),
        needs_load: false,
    }
}

/// The variables of framed messages over shared memory.
pub open spec fn is_framed_shm_keys(keys: ChildKeys) -> bool {
    &&& keys.segment@ == "BENCHMARK_SEGMENT_NAME"@
    &&& keys.root is None
    &&& keys.buffer@ == "BENCH_BUFFER_DEPTH"@
    &&& keys.events@ == "BENCH_NUM_MESSAGES"@
    &&& keys.consumers@ == "BENCH_NUM_CONSUMERS"@
    &&& keys.consumer_id@ == "BENCH_CONSUMER_ID"@
    &&& keys.target_rate is Some
    &&& keys.target_rate->0@ == "BENCH_TARGET_RATE"@
    &&& !keys.needs_load
}

/// The variables of framed messages over shared memory.
pub fn framed_shm_keys() -> (r: ChildKeys)
    ensures
        is_framed_shm_keys(r),
{
    ChildKeys {
        segment: "BENCHMARK_SEGMENT_NAME",
        root: None,
        buffer: "BENCH_BUFFER_DEPTH",
        events: "BENCH_NUM_MESSAGES",
        consumers: "BENCH_NUM_CONSUMERS",
        consumer_id: "BENCH_CONSUMER_ID",
        target_rate: Some("BENCH_TARGET_RATE"),
        needs_load: false,
    }
}

/// The variables of framed messages over memory-mapped files.
pub open spec fn is_framed_mmap_keys(keys: ChildKeys) -> bool {
    &&& keys.segment@ == "MMAP_SEGMENT"@
    &&& keys.root is Some
    &&& keys.root->0@ == "MMAP_ROOT"@
    &&& keys.buffer@ == "BENCH_BUFFER_DEPTH"@
    &&& keys.events@ == "BENCH_NUM_MESSAGES"@
    &&& keys.consumers@ == "BENCH_NUM_CONSUMERS"@
    &&& keys.consumer_id@ == "BENCH_CONSUMER_ID"@
    &&& keys.target_rate is Some
    &&& keys.target_rate->0@ == "BENCH_TARGET_RATE"@
    &&& !keys.needs_load
}

/// The variables of framed messages over memory-mapped files.
pub fn framed_mmap_keys() -> (r: ChildKeys)
    ensures
        is_framed_mmap_keys(r),
{
    ChildKeys {
        segment: "MMAP_SEGMENT",
        root: Some("MMAP_ROOT"),
        buffer: "BENCH_BUFFER_DEPTH",
        events: "BENCH_NUM_MESSAGES",
        consumers: "BENCH_NUM_CONSUMERS",
        consumer_id: "BENCH_CONSUMER_ID",
        target_rate: Some("BENCH_TARGET_RATE"),
        needs_load: false,
    }
}

/// The variables of messages that fit a slot, over shared memory.
pub open spec fn is_nofrag_shm_keys(keys: ChildKeys) -> bool {
    &&& keys.segment@ == "BENCH_SEGMENT"@
    &&& keys.root is None
    &&& keys.buffer@ == "BENCH_BUFFER"@
    &&& keys.events@ == "BENCH_EVENTS"@
    &&& keys.consumers@ == "BENCH_CONSUMERS"@
    &&& keys.consumer_id@ == "BENCH_CONSUMER_ID"@
    &&& keys.target_rate is Some
    &&& keys.target_rate->0@ == "BENCH_TARGET_RATE"@
    &&& !keys.needs_load
}

/// The variables of messages that fit a slot, over shared memory.
pub fn nofrag_shm_keys() -> (r: ChildKeys)
    ensures
        is_nofrag_shm_keys(r),
{
    ChildKeys {
        segment: "BENCH_SEGMENT",
        root: None,
        buffer: "BENCH_BUFFER",
        events: "BENCH_EVENTS",
        consumers: "BENCH_CONSUMERS",
        consumer_id: "BENCH_CONSUMER_ID",
        target_rate: Some("BENCH_TARGET_RATE"),
        needs_load: false,
    }
}

/// The variables of messages that fit a slot, over memory-mapped files.
pub open spec fn is_nofrag_mmap_keys(keys: ChildKeys) -> bool {
    &&& keys.segment@ == "BENCH_SEGMENT"@
    &&& keys.root is Some
    &&& keys.root->0@ == "BENCH_ROOT"@
    &&& keys.buffer@ == "BENCH_BUFFER"@
    &&& keys.events@ == "BENCH_EVENTS"@
    &&& keys.consumers@ == "BENCH_CONSUMERS"@
    &&& keys.consumer_id@ == "BENCH_CONSUMER_ID"@
    &&& keys.target_rate is Some
    &&& keys.target_rate->0@ == "BENCH_TARGET_RATE"@
    &&& !keys.needs_load
}

/// The variables of messages that fit a slot, over memory-mapped files.
pub fn nofrag_mmap_keys() -> (r: ChildKeys)
    ensures
        is_nofrag_mmap_keys(r),
{
    ChildKeys {
        segment: "BENCH_SEGMENT",
        root: Some("BENCH_ROOT"),
        buffer: "BENCH_BUFFER",
        events: "BENCH_EVENTS",
        consumers: "BENCH_CONSUMERS",
        consumer_id: "BENCH_CONSUMER_ID",
        target_rate: Some("BENCH_TARGET_RATE"),
        needs_load: false,
    }
}

/// The variables of codecs on messages that fit a slot.
pub open spec fn is_codec_keys(keys: ChildKeys) -> bool {
    &&& keys.segment@ == "MYELON_BENCH_SEGMENT_NAME"@
    &&& keys.root is None
    &&& keys.buffer@ == "MYELON_BENCH_BUFFER_DEPTH"@
    &&& keys.events@ == "MYELON_BENCH_MESSAGES"@
    &&& keys.consumers@ == "MYELON_BENCH_NUM_CONSUMERS"@
    &&& keys.consumer_id@ == "MYELON_BENCH_CONSUMER_ID"@
    &&& keys.target_rate is Some
    &&& keys.target_rate->0@ == "MYELON_BENCH_TARGET_RATE"@
    &&& !keys.needs_load
}

/// The variables of codecs on messages that fit a slot.
pub fn codec_keys() -> (r: ChildKeys)
    ensures
        is_codec_keys(r),
{
    ChildKeys {
        segment: "MYELON_BENCH_SEGMENT_NAME",
        root: None,
        buffer: "MYELON_BENCH_BUFFER_DEPTH",
        events: "MYELON_BENCH_MESSAGES",
        consumers: "MYELON_BENCH_NUM_CONSUMERS",
        consumer_id: "MYELON_BENCH_CONSUMER_ID",
        target_rate: Some("MYELON_BENCH_TARGET_RATE"),
        needs_load: false,
    }
}

/// The variables of typed messages over shared memory.
pub open spec fn is_typed_shm_keys(keys: ChildKeys) -> bool {
    &&& keys.segment@ == "MYELON_BENCH_SEGMENT_NAME"@
    &&& keys.root is None
    &&& keys.buffer@ == "MYELON_BENCH_BUFFER_DEPTH"@
    &&& keys.events@ == "MYELON_BENCH_NUM_MESSAGES"@
    &&& keys.consumers@ == "MYELON_BENCH_NUM_CONSUMERS"@
    &&& keys.consumer_id@ == "MYELON_BENCH_CONSUMER_ID"@
    &&& keys.target_rate is None
    &&& !keys.needs_load
}

/// The variables of typed messages over shared memory.
pub fn typed_shm_keys() -> (r: ChildKeys)
    ensures
        is_typed_shm_keys(r),
{
    ChildKeys {
        segment: "MYELON_BENCH_SEGMENT_NAME",
        root: None,
        buffer: "MYELON_BENCH_BUFFER_DEPTH",
        events: "MYELON_BENCH_NUM_MESSAGES",
        consumers: "MYELON_BENCH_NUM_CONSUMERS",
        consumer_id: "MYELON_BENCH_CONSUMER_ID",
        target_rate: None,
        needs_load: false,
    }
}

/// The variables of typed messages over memory-mapped files.
pub open spec fn is_typed_mmap_keys(keys: ChildKeys) -> bool {
    &&& keys.segment@ == "MYELON_BENCH_MMAP_SEGMENT"@
    &&& keys.root is Some
    &&& keys.root->0@ == "MYELON_BENCH_MMAP_ROOT"@
    &&& keys.buffer@ == "MYELON_BENCH_BUFFER_DEPTH"@
    &&& keys.events@ == "MYELON_BENCH_NUM_MESSAGES"@
    &&& keys.consumers@ == "MYELON_BENCH_NUM_CONSUMERS"@
    &&& keys.consumer_id@ == "MYELON_BENCH_CONSUMER_ID"@
    &&& keys.target_rate is None
    &&& !keys.needs_load
}

/// The variables of typed messages over memory-mapped files.
pub fn typed_mmap_keys() -> (r: ChildKeys)
    ensures
        is_typed_mmap_keys(r),
{
    ChildKeys {
        segment: "MYELON_BENCH_MMAP_SEGMENT",
        root: Some("MYELON_BENCH_MMAP_ROOT"),
        buffer: "MYELON_BENCH_BUFFER_DEPTH",
        events: "MYELON_BENCH_NUM_MESSAGES",
        consumers: "MYELON_BENCH_NUM_CONSUMERS",
        consumer_id: "MYELON_BENCH_CONSUMER_ID",
        target_rate: None,
        needs_load: false,
    }
}

/// What the children of a raw ring over shared memory take where nothing is
/// set: by the class of events, and by whether there are several consumers.
pub fn ring_defaults(kind: RawRingScenarioKind, many: bool) -> (r: ChildDefaults)
    ensures
        r.buffer == match (kind, many) {
            (RawRingScenarioKind::Message, false) => 1024usize,
            (RawRingScenarioKind::Message, true) => 4096,
            (RawRingScenarioKind::Signal, _) => 65_536,
        },
        r.events == match kind {
            RawRingScenarioKind::Message => 100_000u64,
            RawRingScenarioKind::Signal => 10_000_000,
        },
        r.consumers == match (kind, many) {
            (_, false) => 1usize,
            (RawRingScenarioKind::Message, true) => 3,
            (RawRingScenarioKind::Signal, true) => 2,
        },
{
    match (kind, many) {
        (RawRingScenarioKind::Message, false) => ChildDefaults {
            buffer: 1024,
            events: 100_000,
            consumers: 1,
        },
        (RawRingScenarioKind::Message, true) => ChildDefaults {
            buffer: 4096,
            events: 100_000,
            consumers: 3,
        },
        (RawRingScenarioKind::Signal, false) => ChildDefaults {
            buffer: 65_536,
            events: 10_000_000,
            consumers: 1,
        },
        (RawRingScenarioKind::Signal, true) => ChildDefaults {
            buffer: 65_536,
            events: 10_000_000,
            consumers: 2,
        },
    }
}

/// What the children of a raw ring read besides.
#[derive(Clone, Copy, Debug, PartialEq, Eq, Structural)]
pub struct RingExtras {
    pub event_bytes: usize,
    pub warmup: u64,
    pub record_latency: bool,
}

/// The events that warm up a raw ring where nothing is set.
pub open spec fn default_warmup(kind: RawRingScenarioKind) -> nat {
    match kind {
        RawRingScenarioKind::Message => 1_000,
        RawRingScenarioKind::Signal => 100_000,
    }
}

impl RingExtras {
    /// The extras are those of the environment. The signals of the layer above
    /// always warm up with the usual number of events.
    pub open spec fn reads(
        &self,
        envs: Seq<(Seq<char>, Seq<char>)>,
        transport: RawRingTransport,
        kind: RawRingScenarioKind,
    ) -> bool {
        let shm = transport == RawRingTransport::Shm;
        let size_key = if shm {
            "BENCH_EVENT_SIZE"@
        } else {
            "MMAP_EVENT_SIZE"@
        };
        let warmup_key = if shm {
            "BENCH_WARMUP"@
        } else {
            "MMAP_WARMUP"@
        };
        let latency_key = if shm {
            "BENCH_RECORD_LATENCY"@
        } else {
            "MMAP_RECORD_LATENCY"@
        };
        &&& self.event_bytes == number_or(env_value(envs, size_key), usize::MAX as nat, 144)
        &&& self.warmup == if transport == RawRingTransport::MyelonMmap && kind
            == RawRingScenarioKind::Signal {
            default_warmup(kind)
        } else {
            number_or(env_value(envs, warmup_key), u64::MAX as nat, default_warmup(kind))
        }
        &&& self.record_latency == (number_or(
            env_value(envs, latency_key),
            usize::MAX as nat,
            0,
        ) == 1)
    }

    /// Reads the size of an event, the events that warm up, and whether latency
    /// is recorded.
    pub fn read(
        envs: &Vec<EnvVar>,
        transport: RawRingTransport,
        kind: RawRingScenarioKind,
    ) -> (r: RingExtras)
        ensures
            r.reads(env_views(envs@), transport, kind),
    {
        let usual: u64 = match kind {
            RawRingScenarioKind::Message => 1_000,
            RawRingScenarioKind::Signal => 100_000,
        };
        match transport {
            RawRingTransport::Shm => RingExtras {
                event_bytes: read_env_usize(find_env(envs, "BENCH_EVENT_SIZE"), 144),
                warmup: read_env_u64(find_env(envs, "BENCH_WARMUP"), usual),
                record_latency: read_env_usize(find_env(envs, "BENCH_RECORD_LATENCY"), 0) == 1,
            },
            _ => {
                let own = matches!(transport, RawRingTransport::MyelonMmap) && matches!(
                    kind,
                    RawRingScenarioKind::Signal
                );
                RingExtras {
                    event_bytes: read_env_usize(find_env(envs, "MMAP_EVENT_SIZE"), 144),
                    warmup: if own {
                        usual
                    } else {
                        read_env_u64(find_env(envs, "MMAP_WARMUP"), usual)
                    },
                    record_latency: read_env_usize(find_env(envs, "MMAP_RECORD_LATENCY"), 0) == 1,
                }
            },
        }
    }
}

/// What a child of a wait strategy scenario reads: where its ring is, how
/// consumers wait, and how many there are, or, for a consumer, which it is.
#[derive(Clone, Debug)]
pub struct WaitEnv {
    pub segment: String,
    pub root: Option<String>,
    pub number: usize,
    pub wait_strategy: String,
}

/// The variable that holds the number of a child: which consumer it is, or how
/// many there are.
pub open spec fn wait_number_key(consumer: bool) -> Seq<char> {
    if consumer {
        "CONSUMER_ID"@
    } else {
        "NUM_CONSUMERS"@
    }
}

/// The number of a child where nothing is set.
pub open spec fn wait_number_default(consumer: bool) -> nat {
    if consumer {
        0
    } else {
        1
    }
}

/// What keeps a child of a wait strategy scenario from starting. Over
/// memory-mapped files its number, where it is set, must be one.
pub open spec fn wait_problem(
    envs: Seq<(Seq<char>, Seq<char>)>,
    backend: SweepBackend,
    consumer: bool,
) -> Option<EnvProblem> {
    match backend {
        SweepBackend::Shm => if env_value(envs, "BENCHMARK_SEGMENT_NAME"@) is None {
            Some(EnvProblem::Missing("BENCHMARK_SEGMENT_NAME"@))
        } else {
            None
        },
        SweepBackend::Mmap => if env_value(envs, "MMAP_ROOT"@) is None {
            Some(EnvProblem::Missing("MMAP_ROOT"@))
        } else if env_value(envs, "MMAP_SEGMENT"@) is None {
            Some(EnvProblem::Missing("MMAP_SEGMENT"@))
        } else if env_value(envs, wait_number_key(consumer)) is Some && parsed_number(
            env_value(envs, wait_number_key(consumer))->0,
            usize::MAX as nat,
        ) is None {
            Some(EnvProblem::Malformed(wait_number_key(consumer)))
        } else {
            None
        },
    }
}

impl WaitEnv {
    /// The settings are those of the environment.
    pub open spec fn reads(
        &self,
        envs: Seq<(Seq<char>, Seq<char>)>,
        backend: SweepBackend,
        consumer: bool,
    ) -> bool {
        &&& match backend {
            SweepBackend::Shm => {
                &&& env_value(envs, "BENCHMARK_SEGMENT_NAME"@) == Some(self.segment@)
                &&& self.root is None
            },
            SweepBackend::Mmap => {
                &&& env_value(envs, "MMAP_SEGMENT"@) == Some(self.segment@)
                &&& option_view(self.root) == env_value(envs, "MMAP_ROOT"@)
            },
        }
        &&& self.number == number_or(
            env_value(envs, wait_number_key(consumer)),
            usize::MAX as nat,
            wait_number_default(consumer),
        )
        &&& self.wait_strategy@ == match env_value(envs, "WAIT_STRATEGY"@) {
            Some(text) => text,
            None => match backend {
                SweepBackend::Shm => "BusySpin"@,
                SweepBackend::Mmap => "Block"@,
            },
        }
    }

    /// Reads what a child of a wait strategy scenario needs.
    pub fn read(envs: &Vec<EnvVar>, backend: SweepBackend, consumer: bool) -> (r: Result<
        WaitEnv,
        ChildEnvError,
    >)
        ensures
            match r {
                Ok(env) => wait_problem(env_views(envs@), backend, consumer) is None && env.reads(
                    env_views(envs@),
                    backend,
                    consumer,
                ),
                Err(error) => wait_problem(env_views(envs@), backend, consumer) is Some && tells(
                    error,
                    wait_problem(env_views(envs@), backend, consumer)->0,
                ),
            },
    {
        let key: &str = if consumer {
            "CONSUMER_ID"
        } else {
            "NUM_CONSUMERS"
        };
        let default: usize = if consumer {
            0
        } else {
            1
        };
        let number: usize = read_env_usize(find_env(envs, key), default);
        match backend {
            SweepBackend::Shm => match find_env(envs, "BENCHMARK_SEGMENT_NAME") {
                Some(segment) => Ok(
                    WaitEnv {
                        segment: segment.to_owned(),
                        root: None,
                        number,
                        wait_strategy: read_env_string(find_env(envs, "WAIT_STRATEGY"), "BusySpin"),
                    },
                ),
                None => Err(ChildEnvError::Missing("BENCHMARK_SEGMENT_NAME".to_owned())),
            },
            SweepBackend::Mmap => {
                let root: String = match find_env(envs, "MMAP_ROOT") {
                    Some(value) => value.to_owned(),
                    None => {
                        return Err(ChildEnvError::Missing("MMAP_ROOT".to_owned()));
                    },
                };
                let segment: String = match find_env(envs, "MMAP_SEGMENT") {
                    Some(value) => value.to_owned(),
                    None => {
                        return Err(ChildEnvError::Missing("MMAP_SEGMENT".to_owned()));
                    },
                };
                if let Some(value) = find_env(envs, key) {
                    if parse_usize(value).is_none() {
                        return Err(ChildEnvError::Malformed(key.to_owned()));
                    }
                }
                Ok(
                    WaitEnv {
                        segment,
                        root: Some(root),
                        number,
                        wait_strategy: read_env_string(find_env(envs, "WAIT_STRATEGY"), "Block"),
                    },
                )
            },
        }
    }
}

/// What both sides of a typed ping-pong read.
#[derive(Clone, Debug)]
pub struct TypedPingPongEnv {
    pub ping_segment: String,
    pub pong_segment: String,
    pub coordination_segment: String,
    pub codec: String,
    pub batch_size: usize,
    pub encoded_bytes: usize,
    pub messages: u64,
    pub warmup: u64,
    pub buffer_depth: usize,
    pub wait_strategy: String,
    pub target_rate: u64,
}

/// The first of the variables that is not set.
pub open spec fn first_missing(
    envs: Seq<(Seq<char>, Seq<char>)>,
    keys: Seq<Seq<char>>,
) -> Option<Seq<char>>
    decreases keys.len(),
{
    if keys.len() == 0 {
        None
    } else if env_value(envs, keys[0]) is None {
        Some(keys[0])
    } else {
        first_missing(envs, keys.skip(1))
    }
}

/// The variables without which a typed ping-pong does not start.
pub open spec fn typed_pingpong_needs() -> Seq<Seq<char>> {
    seq!["PING_SEGMENT"@, "PONG_SEGMENT"@, "COORDINATION_SEGMENT"@, "BENCH_CODEC"@]
}

impl TypedPingPongEnv {
    /// The settings are those of the environment.
    pub open spec fn reads(&self, envs: Seq<(Seq<char>, Seq<char>)>) -> bool {
        &&& env_value(envs, "PING_SEGMENT"@) == Some(self.ping_segment@)
        &&& env_value(envs, "PONG_SEGMENT"@) == Some(self.pong_segment@)
        &&& env_value(envs, "COORDINATION_SEGMENT"@) == Some(self.coordination_segment@)
        &&& env_value(envs, "BENCH_CODEC"@) == Some(self.codec@)
        &&& self.batch_size == number_or(
            env_value(envs, "BENCH_BATCH_SIZE"@),
            usize::MAX as nat,
            1,
        )
        &&& self.encoded_bytes == number_or(
            env_value(envs, "BENCH_ENCODED_BYTES"@),
            usize::MAX as nat,
            1,
        )
        &&& self.messages == number_or(
            env_value(envs, "BENCH_MESSAGES"@),
            u64::MAX as nat,
            100_000,
        )
        &&& self.warmup == number_or(env_value(envs, "BENCH_WARMUP"@), u64::MAX as nat, 10_000)
        &&& self.buffer_depth == number_or(
            env_value(envs, "BENCH_BUFFER_DEPTH"@),
            usize::MAX as nat,
            4096,
        )
        &&& self.wait_strategy@ == match env_value(envs, "BENCH_WAIT_STRATEGY"@) {
            Some(text) => text,
            None => "busyspin"@,
        }
        &&& self.target_rate == number_or(env_value(envs, "BENCH_TARGET_RATE"@), u64::MAX as nat, 0)
    }

    /// Reads what either side needs. It does not start without the segments and
    /// the codec; the error names the first of them that is not set.
    pub fn read(envs: &Vec<EnvVar>) -> (r: Result<TypedPingPongEnv, String>)
        ensures
            match r {
                Ok(settings) => first_missing(env_views(envs@), typed_pingpong_needs()) is None
                    && settings.reads(env_views(envs@)),
                Err(key) => first_missing(env_views(envs@), typed_pingpong_needs()) == Some(key@),
            },
    {
        proof {
            reveal_with_fuel(first_missing, 5);
            let needs = typed_pingpong_needs();
            assert(needs.skip(1).skip(1) =~= needs.skip(2));
            assert(needs.skip(2).skip(1) =~= needs.skip(3));
            assert(needs.skip(3).skip(1) =~= needs.skip(4));
        }
        let ping_segment: String = match find_env(envs, "PING_SEGMENT") {
            Some(value) => value.to_owned(),
            None => {
                return Err("PING_SEGMENT".to_owned());
            },
        };
        let pong_segment: String = match find_env(envs, "PONG_SEGMENT") {
            Some(value) => value.to_owned(),
            None => {
                return Err("PONG_SEGMENT".to_owned());
            },
        };
        let coordination_segment: String = match find_env(envs, "COORDINATION_SEGMENT") {
            Some(value) => value.to_owned(),
            None => {
                return Err("COORDINATION_SEGMENT".to_owned());
            },
        };
        let codec: String = match find_env(envs, "BENCH_CODEC") {
            Some(value) => value.to_owned(),
            None => {
                return Err("BENCH_CODEC".to_owned());
            },
        };
        Ok(
            TypedPingPongEnv {
                ping_segment,
                pong_segment,
                coordination_segment,
                codec,
                batch_size: read_env_usize(find_env(envs, "BENCH_BATCH_SIZE"), 1),
                encoded_bytes: read_env_usize(find_env(envs, "BENCH_ENCODED_BYTES"), 1),
                messages: read_env_u64(find_env(envs, "BENCH_MESSAGES"), 100_000),
                warmup: read_env_u64(find_env(envs, "BENCH_WARMUP"), 10_000),
                buffer_depth: read_env_usize(find_env(envs, "BENCH_BUFFER_DEPTH"), 4096),
                wait_strategy: read_env_string(find_env(envs, "BENCH_WAIT_STRATEGY"), "busyspin"),
                target_rate: read_env_u64(find_env(envs, "BENCH_TARGET_RATE"), 0),
            },
        )
    }
}

/// What an echo process reads.
#[derive(Clone, Debug)]
pub struct EchoEnv {
    pub ping_segment: String,
    pub pong_segment: String,
    pub coordination_segment: String,
    pub message_size: usize,
    pub buffer_size: usize,
    pub wait_strategy: String,
}

/// What keeps an echo process from starting, in the order in which it looks.
pub open spec fn echo_problem(envs: Seq<(Seq<char>, Seq<char>)>) -> Option<EnvProblem> {
    let segments = seq!["PING_SEGMENT"@, "PONG_SEGMENT"@, "COORDINATION_SEGMENT"@];
    match first_missing(envs, segments) {
        Some(key) => Some(EnvProblem::Missing(key)),
        None => match number_problem(envs, "MESSAGE_SIZE"@, usize::MAX as nat) {
            Some(problem) => Some(problem),
            None => number_problem(envs, "BUFFER_SIZE"@, usize::MAX as nat),
        },
    }
}

/// A number that must be set.
fn required_size(envs: &Vec<EnvVar>, key: &str) -> (r: Result<usize, ChildEnvError>)
    ensures
        match r {
            Ok(n) => number_problem(env_views(envs@), key@, usize::MAX as nat) is None
                && env_value(env_views(envs@), key@) is Some && parsed_number(
                env_value(env_views(envs@), key@)->0,
                usize::MAX as nat,
            ) == Some(n as nat),
            Err(error) => number_problem(env_views(envs@), key@, usize::MAX as nat) is Some
                && tells(error, number_problem(env_views(envs@), key@, usize::MAX as nat)->0),
        },
{
    match find_env(envs, key) {
        Some(value) => match parse_usize(value) {
            Some(n) => Ok(n),
            None => Err(ChildEnvError::Malformed(key.to_owned())),
        },
        None => Err(ChildEnvError::Missing(key.to_owned())),
    }
}

impl EchoEnv {
    /// The settings are those of the environment.
    pub open spec fn reads(&self, envs: Seq<(Seq<char>, Seq<char>)>) -> bool {
        &&& env_value(envs, "PING_SEGMENT"@) == Some(self.ping_segment@)
        &&& env_value(envs, "PONG_SEGMENT"@) == Some(self.pong_segment@)
        &&& env_value(envs, "COORDINATION_SEGMENT"@) == Some(self.coordination_segment@)
        &&& env_value(envs, "MESSAGE_SIZE"@) is Some
        &&& parsed_number(env_value(envs, "MESSAGE_SIZE"@)->0, usize::MAX as nat) == Some(
            self.message_size as nat,
        )
        &&& env_value(envs, "BUFFER_SIZE"@) is Some
        &&& parsed_number(env_value(envs, "BUFFER_SIZE"@)->0, usize::MAX as nat) == Some(
            self.buffer_size as nat,
        )
        &&& self.wait_strategy@ == match env_value(envs, "WAIT_STRATEGY"@) {
            Some(text) => text,
            None => "busyspin"@,
        }
    }

    /// Reads what an echo process needs.
    pub fn read(envs: &Vec<EnvVar>) -> (r: Result<EchoEnv, ChildEnvError>)
        ensures
            match r {
                Ok(settings) => echo_problem(env_views(envs@)) is None && settings.reads(
                    env_views(envs@),
                ),
                Err(error) => echo_problem(env_views(envs@)) is Some && tells(
                    error,
                    echo_problem(env_views(envs@))->0,
                ),
            },
    {
        proof {
            reveal_with_fuel(first_missing, 4);
            let segments = seq!["PING_SEGMENT"@, "PONG_SEGMENT"@, "COORDINATION_SEGMENT"@];
            assert(segments.skip(1).skip(1) =~= segments.skip(2));
            assert(segments.skip(2).skip(1) =~= segments.skip(3));
        }
        let ping_segment: String = match find_env(envs, "PING_SEGMENT") {
            Some(value) => value.to_owned(),
            None => {
                return Err(ChildEnvError::Missing("PING_SEGMENT".to_owned()));
            },
        };
        let pong_segment: String = match find_env(envs, "PONG_SEGMENT") {
            Some(value) => value.to_owned(),
            None => {
                return Err(ChildEnvError::Missing("PONG_SEGMENT".to_owned()));
            },
        };
        let coordination_segment: String = match find_env(envs, "COORDINATION_SEGMENT") {
            Some(value) => value.to_owned(),
            None => {
                return Err(ChildEnvError::Missing("COORDINATION_SEGMENT".to_owned()));
            },
        };
        let message_size: usize = match required_size(envs, "MESSAGE_SIZE") {
            Ok(n) => n,
            Err(error) => {
                return Err(error);
            },
        };
        let buffer_size: usize = match required_size(envs, "BUFFER_SIZE") {
            Ok(n) => n,
            Err(error) => {
                return Err(error);
            },
        };
        Ok(
            EchoEnv {
                ping_segment,
                pong_segment,
                coordination_segment,
                message_size,
                buffer_size,
                wait_strategy: read_env_string(find_env(envs, "WAIT_STRATEGY"), "busyspin"),
            },
        )
    }
}

/// A variable that is set once, after whatever was inherited, reads as it was
/// set.
pub proof fn law_setting_reads_back(
    inherited: Seq<(Seq<char>, Seq<char>)>,
    set: Seq<(Seq<char>, Seq<char>)>,
    k: int,
)
    requires
        0 <= k < set.len(),
        forall|j: int| k < j < set.len() ==> (#[trigger] set[j]).0 != set[k].0,
    ensures
        env_value(inherited + set, set[k].0) == Some(set[k].1),
    decreases set.len(),
{
    let all = inherited + set;
    assert(all.last() == set.last());
    if k < set.len() - 1 {
        let shorter = set.drop_last();
        assert(all.drop_last() =~= inherited + shorter);
        assert(shorter[k] == set[k]);
        assert(set[set.len() - 1].0 != set[k].0);
        assert forall|j: int| k < j < shorter.len() implies (#[trigger] shorter[j]).0
            != shorter[k].0 by {
            assert(set[j].0 != set[k].0);
        }
        law_setting_reads_back(inherited, shorter, k);
    }
}

/// A variable that is not set anew keeps its inherited value.
pub proof fn law_other_variables_are_inherited(
    inherited: Seq<(Seq<char>, Seq<char>)>,
    set: Seq<(Seq<char>, Seq<char>)>,
    key: Seq<char>,
)
    requires
        forall|j: int| 0 <= j < set.len() ==> (#[trigger] set[j]).0 != key,
    ensures
        env_value(inherited + set, key) == env_value(inherited, key),
    decreases set.len(),
{
    if set.len() == 0 {
        assert(inherited + set =~= inherited);
    } else {
        let shorter = set.drop_last();
        assert((inherited + set).drop_last() =~= inherited + shorter);
        assert((inherited + set).last() == set.last());
        assert(set[set.len() - 1].0 != key);
        assert forall|j: int| 0 <= j < shorter.len() implies (#[trigger] shorter[j]).0 != key by {
            assert(set[j].0 != key);
        }
        law_other_variables_are_inherited(inherited, shorter, key);
    }
}

/// A child starts exactly where its ring's place is set and, where it must be
/// told the load, the size of the ring and the number of events are numbers.
pub proof fn law_child_starts_with_what_it_needs(
    envs: Seq<(Seq<char>, Seq<char>)>,
    keys: ChildKeys,
)
    ensures
        child_problem(envs, keys) is None <==> {
            &&& env_value(envs, keys.segment@) is Some
            &&& keys.root is Some ==> env_value(envs, keys.root->0@) is Some
            &&& keys.needs_load ==> {
                &&& env_value(envs, keys.buffer@) is Some
                &&& parsed_number(env_value(envs, keys.buffer@)->0, usize::MAX as nat) is Some
                &&& env_value(envs, keys.events@) is Some
                &&& parsed_number(env_value(envs, keys.events@)->0, u64::MAX as nat) is Some
            }
        },
{
}

/// What keeps a child from starting is a variable that it needs: one that is said
/// to be missing is not set, one that is said to be malformed is set to no number.
pub proof fn law_problem_names_its_variable(
    envs: Seq<(Seq<char>, Seq<char>)>,
    keys: ChildKeys,
    key: Seq<char>,
)
    ensures
        child_problem(envs, keys) == Some(EnvProblem::Missing(key)) ==> env_value(envs, key)
            is None && (key == keys.segment@ || (keys.root is Some && key == keys.root->0@) || (
        keys.needs_load && (key == keys.buffer@ || key == keys.events@))),
        child_problem(envs, keys) == Some(EnvProblem::Malformed(key)) ==> env_value(envs, key)
            is Some && keys.needs_load && ((key == keys.buffer@ && parsed_number(
            env_value(envs, key)->0,
            usize::MAX as nat,
        ) is None) || (key == keys.events@ && parsed_number(
            env_value(envs, key)->0,
            u64::MAX as nat,
        ) is None)),
{
}

/// What is missing first is a variable that is not set, and those before it are
/// set; where nothing is missing, all of them are.
pub proof fn law_first_missing_is_the_first(
    envs: Seq<(Seq<char>, Seq<char>)>,
    keys: Seq<Seq<char>>,
) -> (at: int)
    ensures
        0 <= at <= keys.len(),
        forall|j: int| 0 <= j < at ==> env_value(envs, #[trigger] keys[j]) is Some,
        first_missing(envs, keys) is None <==> at == keys.len(),
        at < keys.len() ==> env_value(envs, keys[at]) is None && first_missing(envs, keys) == Some(
            keys[at],
        ),
    decreases keys.len(),
{
    if keys.len() > 0 && env_value(envs, keys[0]) is Some {
        let rest = keys.skip(1);
        let at = law_first_missing_is_the_first(envs, rest);
        assert forall|j: int| 0 <= j < at + 1 implies env_value(envs, #[trigger] keys[j])
            is Some by {
            if j > 0 {
                assert(rest[j - 1] == keys[j]);
            }
        }
        at + 1
    } else {
        0
    }
}

/// A raw ring's child that is told nothing takes events of 144 bytes, warms up
/// with a thousand messages or a hundred thousand signals, and records no
/// latency.
pub proof fn law_ring_extras_have_usual_values(
    extras: RingExtras,
    envs: Seq<(Seq<char>, Seq<char>)>,
    transport: RawRingTransport,
    kind: RawRingScenarioKind,
)
    requires
        extras.reads(envs, transport, kind),
        forall|i: int|
            0 <= i < envs.len() ==> {
                let key = (#[trigger] envs[i]).0;
                &&& key != "BENCH_EVENT_SIZE"@ && key != "MMAP_EVENT_SIZE"@
                &&& key != "BENCH_WARMUP"@ && key != "MMAP_WARMUP"@
                &&& key != "BENCH_RECORD_LATENCY"@ && key != "MMAP_RECORD_LATENCY"@
            },
    ensures
        extras.event_bytes == 144,
        kind == RawRingScenarioKind::Message ==> extras.warmup == 1_000,
        kind == RawRingScenarioKind::Signal ==> extras.warmup == 100_000,
        !extras.record_latency,
{
    let none = Seq::<(Seq<char>, Seq<char>)>::empty();
    assert(none + envs =~= envs);
    law_other_variables_are_inherited(none, envs, "BENCH_EVENT_SIZE"@);
    law_other_variables_are_inherited(none, envs, "MMAP_EVENT_SIZE"@);
    law_other_variables_are_inherited(none, envs, "BENCH_WARMUP"@);
    law_other_variables_are_inherited(none, envs, "MMAP_WARMUP"@);
    law_other_variables_are_inherited(none, envs, "BENCH_RECORD_LATENCY"@);
    law_other_variables_are_inherited(none, envs, "MMAP_RECORD_LATENCY"@);
}

} // verus!
