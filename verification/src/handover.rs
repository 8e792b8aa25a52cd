//! What a scenario sets for its children is what they read.
use vstd::prelude::*;
use crate::bench::IpcBenchmark;
use crate::child_env::{
    child_problem, default_warmup, echo_problem, env_value, first_missing, is_codec_keys,
    is_framed_mmap_keys, is_framed_shm_keys, is_nofrag_mmap_keys, is_nofrag_shm_keys,
    is_raw_ring_keys, is_sweep_keys, is_typed_mmap_keys, is_typed_shm_keys, typed_pingpong_needs,
    wait_problem, ChildDefaults, ChildKeys, ChildSettings, EchoEnv, RingExtras, TypedPingPongEnv,
    WaitEnv,
};
use crate::decimal::{decimal_text, law_number_reads_back, parsed_number};
use crate::env_config::number_or;
use crate::launch::{LaunchFacts, LaunchPlace};
use crate::naming::joined_path;
use crate::pingpong::EchoSettings;
use crate::scenarios::codec_nofrag::{batch_codec_slug, CodecNoFragScenario};
use crate::scenarios::framed_sweep::FramedSweepScenario;
use crate::scenarios::monster_sweep::SweepPoint;
use crate::scenarios::nofrag_all::NofragScenario;
use crate::scenarios::raw_ring::{RawRingScenario, RawRingScenarioKind, RawRingTransport};
use crate::scenarios::selection::SweepBackend;
use crate::scenarios::typed_pingpong::TypedPingPongScenario;
use crate::scenarios::typed_zero_copy::{typed_codec_slug, TypedZeroCopyScenario};
use crate::scenarios::wait_strategy::WaitStrategyScenario;
use crate::signal_latency::mode_text;
use crate::text::{has_prefix, option_view};

verus! {

/// An environment in which the rate is set, where there is one.
spec fn with_rate(
    envs: Seq<(Seq<char>, Seq<char>)>,
    key: Seq<char>,
    rate: nat,
) -> Seq<(Seq<char>, Seq<char>)> {
    if rate > 0 {
        envs.push((key, decimal_text(rate)))
    } else {
        envs
    }
}

/// An environment in which the number of a consumer is set; the producer has
/// none.
spec fn with_number(
    envs: Seq<(Seq<char>, Seq<char>)>,
    key: Seq<char>,
    child: Option<int>,
) -> Seq<(Seq<char>, Seq<char>)> {
    match child {
        Some(i) => envs.push((key, decimal_text(i as nat))),
        None => envs,
    }
}

/// What is set for a child: for the consumer with the given number, or for the
/// producer.
pub open spec fn set_for(facts: LaunchFacts, child: Option<int>) -> Seq<(Seq<char>, Seq<char>)> {
    match child {
        Some(i) => facts.consumer_envs[i],
        None => facts.producer_envs,
    }
}

/// What is read of an environment after one more variable was set.
proof fn lemma_variables_are_read()
    ensures
        forall|envs: Seq<(Seq<char>, Seq<char>)>, pair: (Seq<char>, Seq<char>), asked: Seq<char>|
            #[trigger] env_value(envs.push(pair), asked) == if pair.0 == asked {
                Some(pair.1)
            } else {
                env_value(envs, asked)
            },
{
    assert forall|
        envs: Seq<(Seq<char>, Seq<char>)>,
        pair: (Seq<char>, Seq<char>),
        asked: Seq<char>,
    |
        #[trigger] env_value(envs.push(pair), asked) == if pair.0 == asked {
            Some(pair.1)
        } else {
            env_value(envs, asked)
        } by {
        assert(envs.push(pair).drop_last() =~= envs);
    }
}

/// A number that was set as a variable is the number that is read.
proof fn lemma_number_is_read(n: nat, max: nat, default: nat)
    requires
        n <= max,
    ensures
        number_or(Some(decimal_text(n)), max, default) == n,
{
    law_number_reads_back(n, max);
}

/// The variables have names of different lengths, or different names.
proof fn framed_keys_differ()
    ensures
        "BENCHMARK_SEGMENT_NAME"@.len() == 22,
        "MMAP_ROOT"@.len() == 9,
        "MMAP_SEGMENT"@.len() == 12,
        "BENCH_PAYLOAD_BYTES"@.len() == 19,
        "BENCH_NUM_MESSAGES"@.len() == 18,
        "BENCH_BUFFER_DEPTH"@.len() == 18,
        "BENCH_NUM_CONSUMERS"@.len() == 19,
        "BENCH_TARGET_RATE"@.len() == 17,
        "BENCH_CONSUMER_ID"@.len() == 17,
        "BENCH_PAYLOAD_BYTES"@ != "BENCH_NUM_CONSUMERS"@,
        "BENCH_NUM_MESSAGES"@ != "BENCH_BUFFER_DEPTH"@,
        "BENCH_TARGET_RATE"@ != "BENCH_CONSUMER_ID"@,
{
    reveal_strlit("BENCHMARK_SEGMENT_NAME");
    reveal_strlit("MMAP_ROOT");
    reveal_strlit("MMAP_SEGMENT");
    reveal_strlit("BENCH_PAYLOAD_BYTES");
    reveal_strlit("BENCH_NUM_MESSAGES");
    reveal_strlit("BENCH_BUFFER_DEPTH");
    reveal_strlit("BENCH_NUM_CONSUMERS");
    reveal_strlit("BENCH_TARGET_RATE");
    reveal_strlit("BENCH_CONSUMER_ID");
    assert("BENCH_PAYLOAD_BYTES"@[6] != "BENCH_NUM_CONSUMERS"@[6]);
    assert("BENCH_NUM_MESSAGES"@[6] != "BENCH_BUFFER_DEPTH"@[6]);
    assert("BENCH_TARGET_RATE"@[6] != "BENCH_CONSUMER_ID"@[6]);
}

/// A child of a framed scenario, producer or consumer, reads the segment, the
/// load, the size of a payload, the number of consumers and the rate that the
/// scenario has, and a consumer its own number. A scenario at full speed sets no
/// rate, so none may be inherited.
pub proof fn law_framed_children_read_their_scenario(
    s: FramedSweepScenario,
    place: LaunchPlace,
    inherited: Seq<(Seq<char>, Seq<char>)>,
    child: Option<int>,
    keys: ChildKeys,
    defaults: ChildDefaults,
    settings: ChildSettings,
)
    requires
        child is Some ==> 0 <= child->0 < s.consumers,
        s.backend == SweepBackend::Shm ==> is_framed_shm_keys(keys),
        s.backend == SweepBackend::Mmap ==> is_framed_mmap_keys(keys),
        s.target_rate == 0 ==> env_value(inherited, "BENCH_TARGET_RATE"@) is None,
        child_problem(inherited + set_for(s.launch_facts(place), child), keys) is None
            ==> settings.reads(
            inherited + set_for(s.launch_facts(place), child),
            keys,
            defaults,
        ),
    ensures
        child_problem(inherited + set_for(s.launch_facts(place), child), keys) is None,
        settings.segment@ == place.segment@,
        s.backend == SweepBackend::Mmap ==> option_view(settings.root) == Some(place.root@),
        settings.buffer == s.buffer,
        settings.events == s.events,
        settings.consumers == s.consumers,
        child is Some ==> settings.consumer_id == child->0,
        settings.target_rate == s.target_rate,
        env_value(inherited + set_for(s.launch_facts(place), child), "BENCH_PAYLOAD_BYTES"@) == Some(
            decimal_text(s.payload_size as nat),
        ),
{
    framed_keys_differ();
    let set = set_for(s.launch_facts(place), child);
    lemma_number_is_read(s.buffer as nat, usize::MAX as nat, defaults.buffer as nat);
    lemma_number_is_read(s.events as nat, u64::MAX as nat, defaults.events as nat);
    lemma_number_is_read(s.consumers as nat, usize::MAX as nat, defaults.consumers as nat);
    if child is Some {
        lemma_number_is_read(child->0 as nat, usize::MAX as nat, 0);
    }
    lemma_number_is_read(s.target_rate as nat, u64::MAX as nat, 0);
    lemma_variables_are_read();
    let place_set = match s.backend {
        SweepBackend::Shm => inherited.push(("BENCHMARK_SEGMENT_NAME"@, place.segment@)),
        SweepBackend::Mmap => inherited.push(("MMAP_ROOT"@, place.root@)).push(
            ("MMAP_SEGMENT"@, place.segment@),
        ),
    };
    let load_set = place_set.push(
        ("BENCH_PAYLOAD_BYTES"@, decimal_text(s.payload_size as nat)),
    ).push(("BENCH_NUM_MESSAGES"@, decimal_text(s.events as nat))).push(
        ("BENCH_BUFFER_DEPTH"@, decimal_text(s.buffer as nat)),
    ).push(("BENCH_NUM_CONSUMERS"@, decimal_text(s.consumers as nat)));
    let paced = with_rate(load_set, "BENCH_TARGET_RATE"@, s.target_rate as nat);
    assert(inherited + set =~= with_number(paced, "BENCH_CONSUMER_ID"@, child));
}

/// The variables have names of different lengths, or different names.
proof fn sweep_keys_differ()
    ensures
        "SWEEP_SEGMENT"@.len() == 13,
        "SWEEP_BUFFER"@.len() == 12,
        "SWEEP_EVENTS"@.len() == 12,
        "SWEEP_CONSUMERS"@.len() == 15,
        "SWEEP_TARGET_RATE"@.len() == 17,
        "BENCH_CONSUMER_ID"@.len() == 17,
        "SWEEP_BUFFER"@ != "SWEEP_EVENTS"@,
        "SWEEP_TARGET_RATE"@ != "BENCH_CONSUMER_ID"@,
{
    reveal_strlit("SWEEP_SEGMENT");
    reveal_strlit("SWEEP_BUFFER");
    reveal_strlit("SWEEP_EVENTS");
    reveal_strlit("SWEEP_CONSUMERS");
    reveal_strlit("SWEEP_TARGET_RATE");
    reveal_strlit("BENCH_CONSUMER_ID");
    assert("SWEEP_BUFFER"@[6] != "SWEEP_EVENTS"@[6]);
    assert("SWEEP_TARGET_RATE"@[0] != "BENCH_CONSUMER_ID"@[0]);
}

/// A child of a point of the sweep over payload sizes, producer or consumer,
/// reads the segment, the load, the number of consumers and the rate that the
/// point has, and a consumer its own number. A point at full speed sets no rate,
/// so none may be inherited.
pub proof fn law_sweep_children_read_their_scenario(
    s: SweepPoint,
    place: LaunchPlace,
    inherited: Seq<(Seq<char>, Seq<char>)>,
    child: Option<int>,
    keys: ChildKeys,
    defaults: ChildDefaults,
    settings: ChildSettings,
)
    requires
        child is Some ==> 0 <= child->0 < s.consumers,
        is_sweep_keys(keys),
        s.target_rate == 0 ==> env_value(inherited, "SWEEP_TARGET_RATE"@) is None,
        child_problem(inherited + set_for(s.launch_facts(place), child), keys) is None
            ==> settings.reads(
            inherited + set_for(s.launch_facts(place), child),
            keys,
            defaults,
        ),
    ensures
        child_problem(inherited + set_for(s.launch_facts(place), child), keys) is None,
        settings.segment@ == place.segment@,
        settings.buffer == s.buffer,
        settings.events == s.events,
        settings.consumers == s.consumers,
        child is Some ==> settings.consumer_id == child->0,
        settings.target_rate == s.target_rate,
{
    sweep_keys_differ();
    let set = set_for(s.launch_facts(place), child);
    lemma_number_is_read(s.buffer as nat, usize::MAX as nat, defaults.buffer as nat);
    lemma_number_is_read(s.events as nat, u64::MAX as nat, defaults.events as nat);
    lemma_number_is_read(s.consumers as nat, usize::MAX as nat, defaults.consumers as nat);
    if child is Some {
        lemma_number_is_read(child->0 as nat, usize::MAX as nat, 0);
    }
    lemma_number_is_read(s.target_rate as nat, u64::MAX as nat, 0);
    lemma_variables_are_read();
    let load_set = inherited.push(("SWEEP_SEGMENT"@, place.segment@)).push(
        ("SWEEP_BUFFER"@, decimal_text(s.buffer as nat)),
    ).push(("SWEEP_EVENTS"@, decimal_text(s.events as nat))).push(
        ("SWEEP_CONSUMERS"@, decimal_text(s.consumers as nat)),
    );
    let numbered = with_number(load_set, "BENCH_CONSUMER_ID"@, child);
    assert(inherited + set =~= with_rate(numbered, "SWEEP_TARGET_RATE"@, s.target_rate as nat));
}

/// The variables have names of different lengths, or different names.
proof fn nofrag_keys_differ()
    ensures
        "BENCH_EVENTS"@.len() == 12,
        "BENCH_BUFFER"@.len() == 12,
        "BENCH_BATCH_SIZE"@.len() == 16,
        "BENCH_CONSUMERS"@.len() == 15,
        "BENCH_TARGET_RATE"@.len() == 17,
        "BENCH_SEGMENT"@.len() == 13,
        "BENCH_ROOT"@.len() == 10,
        "BENCH_CONSUMER_ID"@.len() == 17,
        "BENCH_EVENTS"@ != "BENCH_BUFFER"@,
        "BENCH_TARGET_RATE"@ != "BENCH_CONSUMER_ID"@,
{
    reveal_strlit("BENCH_EVENTS");
    reveal_strlit("BENCH_BUFFER");
    reveal_strlit("BENCH_BATCH_SIZE");
    reveal_strlit("BENCH_CONSUMERS");
    reveal_strlit("BENCH_TARGET_RATE");
    reveal_strlit("BENCH_SEGMENT");
    reveal_strlit("BENCH_ROOT");
    reveal_strlit("BENCH_CONSUMER_ID");
    assert("BENCH_EVENTS"@[6] != "BENCH_BUFFER"@[6]);
    assert("BENCH_TARGET_RATE"@[6] != "BENCH_CONSUMER_ID"@[6]);
}

/// A child of a scenario without fragmentation, producer or consumer, reads the
/// segment, the load, the size of a batch, the number of consumers and the rate
/// that the scenario has, and a consumer its own number. A scenario at full
/// speed sets no rate, so none may be inherited.
pub proof fn law_nofrag_children_read_their_scenario(
    s: NofragScenario,
    place: LaunchPlace,
    inherited: Seq<(Seq<char>, Seq<char>)>,
    child: Option<int>,
    keys: ChildKeys,
    defaults: ChildDefaults,
    settings: ChildSettings,
)
    requires
        child is Some ==> 0 <= child->0 < s.consumers,
        s.backend == SweepBackend::Shm ==> is_nofrag_shm_keys(keys),
        s.backend == SweepBackend::Mmap ==> is_nofrag_mmap_keys(keys),
        s.target_rate == 0 ==> env_value(inherited, "BENCH_TARGET_RATE"@) is None,
        child_problem(inherited + set_for(s.launch_facts(place), child), keys) is None
            ==> settings.reads(
            inherited + set_for(s.launch_facts(place), child),
            keys,
            defaults,
        ),
    ensures
        child_problem(inherited + set_for(s.launch_facts(place), child), keys) is None,
        settings.segment@ == place.segment@,
        s.backend == SweepBackend::Mmap ==> option_view(settings.root) == Some(place.root@),
        settings.buffer == s.buffer,
        settings.events == s.events,
        settings.consumers == s.consumers,
        child is Some ==> settings.consumer_id == child->0,
        settings.target_rate == s.target_rate,
        env_value(inherited + set_for(s.launch_facts(place), child), "BENCH_BATCH_SIZE"@) == Some(
            decimal_text(s.batch as nat),
        ),
{
    nofrag_keys_differ();
    let set = set_for(s.launch_facts(place), child);
    lemma_number_is_read(s.buffer as nat, usize::MAX as nat, defaults.buffer as nat);
    lemma_number_is_read(s.events as nat, u64::MAX as nat, defaults.events as nat);
    lemma_number_is_read(s.consumers as nat, usize::MAX as nat, defaults.consumers as nat);
    if child is Some {
        lemma_number_is_read(child->0 as nat, usize::MAX as nat, 0);
    }
    lemma_number_is_read(s.target_rate as nat, u64::MAX as nat, 0);
    lemma_variables_are_read();
    let load_set = inherited.push(("BENCH_EVENTS"@, decimal_text(s.events as nat))).push(
        ("BENCH_BUFFER"@, decimal_text(s.buffer as nat)),
    ).push(("BENCH_BATCH_SIZE"@, decimal_text(s.batch as nat))).push(
        ("BENCH_CONSUMERS"@, decimal_text(s.consumers as nat)),
    );
    let paced = with_rate(load_set, "BENCH_TARGET_RATE"@, s.target_rate as nat);
    let place_set = match s.backend {
        SweepBackend::Shm => paced.push(("BENCH_SEGMENT"@, place.segment@)),
        SweepBackend::Mmap => paced.push(("BENCH_ROOT"@, place.root@)).push(
            ("BENCH_SEGMENT"@, place.segment@),
        ),
    };
    assert(inherited + set =~= with_number(place_set, "BENCH_CONSUMER_ID"@, child));
}

/// The variables have names of different lengths, or different names.
proof fn codec_keys_differ()
    ensures
        "MYELON_BENCH_TARGET_RATE"@.len() == 24,
        "MYELON_BENCH_SEGMENT_NAME"@.len() == 25,
        "MYELON_BENCH_CODEC"@.len() == 18,
        "MYELON_BENCH_BATCH_SIZE"@.len() == 23,
        "MYELON_BENCH_MESSAGES"@.len() == 21,
        "MYELON_BENCH_BUFFER_DEPTH"@.len() == 25,
        "MYELON_BENCH_NUM_CONSUMERS"@.len() == 26,
        "MYELON_BENCH_CONSUMER_ID"@.len() == 24,
        "MYELON_BENCH_TARGET_RATE"@ != "MYELON_BENCH_CONSUMER_ID"@,
        "MYELON_BENCH_SEGMENT_NAME"@ != "MYELON_BENCH_BUFFER_DEPTH"@,
{
    reveal_strlit("MYELON_BENCH_TARGET_RATE");
    reveal_strlit("MYELON_BENCH_SEGMENT_NAME");
    reveal_strlit("MYELON_BENCH_CODEC");
    reveal_strlit("MYELON_BENCH_BATCH_SIZE");
    reveal_strlit("MYELON_BENCH_MESSAGES");
    reveal_strlit("MYELON_BENCH_BUFFER_DEPTH");
    reveal_strlit("MYELON_BENCH_NUM_CONSUMERS");
    reveal_strlit("MYELON_BENCH_CONSUMER_ID");
    assert("MYELON_BENCH_TARGET_RATE"@[13] != "MYELON_BENCH_CONSUMER_ID"@[13]);
    assert("MYELON_BENCH_SEGMENT_NAME"@[13] != "MYELON_BENCH_BUFFER_DEPTH"@[13]);
}

/// A child of a codec scenario, producer or consumer, reads the segment, the
/// codec, the size of a batch, the load, the number of consumers and the rate
/// that the scenario has, and a consumer its own number, whatever it inherits.
pub proof fn law_codec_children_read_their_scenario(
    s: CodecNoFragScenario,
    place: LaunchPlace,
    inherited: Seq<(Seq<char>, Seq<char>)>,
    child: Option<int>,
    keys: ChildKeys,
    defaults: ChildDefaults,
    settings: ChildSettings,
)
    requires
        child is Some ==> 0 <= child->0 < s.consumers,
        is_codec_keys(keys),
        child_problem(inherited + set_for(s.launch_facts(place), child), keys) is None
            ==> settings.reads(
            inherited + set_for(s.launch_facts(place), child),
            keys,
            defaults,
        ),
    ensures
        child_problem(inherited + set_for(s.launch_facts(place), child), keys) is None,
        settings.segment@ == place.segment@,
        settings.buffer == s.buffer_depth,
        settings.events == s.messages,
        settings.consumers == s.consumers,
        child is Some ==> settings.consumer_id == child->0,
        settings.target_rate == s.target_rate,
        env_value(inherited + set_for(s.launch_facts(place), child), "MYELON_BENCH_CODEC"@) == Some(
            batch_codec_slug(s.codec),
        ),
        env_value(inherited + set_for(s.launch_facts(place), child), "MYELON_BENCH_BATCH_SIZE"@) == Some(
            decimal_text(s.batch_size as nat),
        ),
{
    codec_keys_differ();
    let set = set_for(s.launch_facts(place), child);
    lemma_number_is_read(s.buffer_depth as nat, usize::MAX as nat, defaults.buffer as nat);
    lemma_number_is_read(s.messages as nat, u64::MAX as nat, defaults.events as nat);
    lemma_number_is_read(s.consumers as nat, usize::MAX as nat, defaults.consumers as nat);
    if child is Some {
        lemma_number_is_read(child->0 as nat, usize::MAX as nat, 0);
    }
    lemma_number_is_read(s.target_rate as nat, u64::MAX as nat, 0);
    lemma_variables_are_read();
    let load_set = inherited.push(
        ("MYELON_BENCH_TARGET_RATE"@, decimal_text(s.target_rate as nat)),
    ).push(("MYELON_BENCH_SEGMENT_NAME"@, place.segment@)).push(
        ("MYELON_BENCH_CODEC"@, batch_codec_slug(s.codec)),
    ).push(("MYELON_BENCH_BATCH_SIZE"@, decimal_text(s.batch_size as nat))).push(
        ("MYELON_BENCH_MESSAGES"@, decimal_text(s.messages as nat)),
    ).push(("MYELON_BENCH_BUFFER_DEPTH"@, decimal_text(s.buffer_depth as nat))).push(
        ("MYELON_BENCH_NUM_CONSUMERS"@, decimal_text(s.consumers as nat)),
    );
    assert(inherited + set =~= with_number(load_set, "MYELON_BENCH_CONSUMER_ID"@, child));
}

/// The variables have names of different lengths, or different names.
proof fn typed_keys_differ()
    ensures
        "MYELON_BENCH_PAYLOAD_BYTES"@.len() == 26,
        "MYELON_BENCH_NUM_MESSAGES"@.len() == 25,
        "MYELON_BENCH_BUFFER_DEPTH"@.len() == 25,
        "MYELON_BENCH_NUM_CONSUMERS"@.len() == 26,
        "MYELON_BENCH_BATCH_SIZE"@.len() == 23,
        "MYELON_BENCH_CODEC"@.len() == 18,
        "MYELON_BENCH_SEGMENT_NAME"@.len() == 25,
        "MYELON_BENCH_MMAP_ROOT"@.len() == 22,
        "MYELON_BENCH_MMAP_SEGMENT"@.len() == 25,
        "MYELON_BENCH_CONSUMER_ID"@.len() == 24,
        "MYELON_BENCH_PAYLOAD_BYTES"@ != "MYELON_BENCH_NUM_CONSUMERS"@,
        "MYELON_BENCH_NUM_MESSAGES"@ != "MYELON_BENCH_BUFFER_DEPTH"@,
        "MYELON_BENCH_NUM_MESSAGES"@ != "MYELON_BENCH_SEGMENT_NAME"@,
        "MYELON_BENCH_NUM_MESSAGES"@ != "MYELON_BENCH_MMAP_SEGMENT"@,
        "MYELON_BENCH_BUFFER_DEPTH"@ != "MYELON_BENCH_SEGMENT_NAME"@,
        "MYELON_BENCH_BUFFER_DEPTH"@ != "MYELON_BENCH_MMAP_SEGMENT"@,
        "MYELON_BENCH_SEGMENT_NAME"@ != "MYELON_BENCH_MMAP_SEGMENT"@,
{
    reveal_strlit("MYELON_BENCH_PAYLOAD_BYTES");
    reveal_strlit("MYELON_BENCH_NUM_MESSAGES");
    reveal_strlit("MYELON_BENCH_BUFFER_DEPTH");
    reveal_strlit("MYELON_BENCH_NUM_CONSUMERS");
    reveal_strlit("MYELON_BENCH_BATCH_SIZE");
    reveal_strlit("MYELON_BENCH_CODEC");
    reveal_strlit("MYELON_BENCH_SEGMENT_NAME");
    reveal_strlit("MYELON_BENCH_MMAP_ROOT");
    reveal_strlit("MYELON_BENCH_MMAP_SEGMENT");
    reveal_strlit("MYELON_BENCH_CONSUMER_ID");
    assert("MYELON_BENCH_PAYLOAD_BYTES"@[13] != "MYELON_BENCH_NUM_CONSUMERS"@[13]);
    assert("MYELON_BENCH_NUM_MESSAGES"@[13] != "MYELON_BENCH_BUFFER_DEPTH"@[13]);
    assert("MYELON_BENCH_NUM_MESSAGES"@[13] != "MYELON_BENCH_SEGMENT_NAME"@[13]);
    assert("MYELON_BENCH_NUM_MESSAGES"@[13] != "MYELON_BENCH_MMAP_SEGMENT"@[13]);
    assert("MYELON_BENCH_BUFFER_DEPTH"@[13] != "MYELON_BENCH_SEGMENT_NAME"@[13]);
    assert("MYELON_BENCH_BUFFER_DEPTH"@[13] != "MYELON_BENCH_MMAP_SEGMENT"@[13]);
    assert("MYELON_BENCH_SEGMENT_NAME"@[13] != "MYELON_BENCH_MMAP_SEGMENT"@[13]);
}

/// A child of a typed scenario, producer or consumer, reads the segment, the
/// codec, the sizes of a batch and a payload, the load and the number of
/// consumers that the scenario has, and a consumer its own number, whatever it
/// inherits.
pub proof fn law_typed_children_read_their_scenario(
    s: TypedZeroCopyScenario,
    place: LaunchPlace,
    inherited: Seq<(Seq<char>, Seq<char>)>,
    child: Option<int>,
    keys: ChildKeys,
    defaults: ChildDefaults,
    settings: ChildSettings,
)
    requires
        child is Some ==> 0 <= child->0 < s.consumers,
        s.backend == SweepBackend::Shm ==> is_typed_shm_keys(keys),
        s.backend == SweepBackend::Mmap ==> is_typed_mmap_keys(keys),
        child_problem(inherited + set_for(s.launch_facts(place), child), keys) is None
            ==> settings.reads(
            inherited + set_for(s.launch_facts(place), child),
            keys,
            defaults,
        ),
    ensures
        child_problem(inherited + set_for(s.launch_facts(place), child), keys) is None,
        settings.segment@ == place.segment@,
        s.backend == SweepBackend::Mmap ==> option_view(settings.root) == Some(place.root@),
        settings.buffer == s.buffer,
        settings.events == s.events,
        settings.consumers == s.consumers,
        child is Some ==> settings.consumer_id == child->0,
        env_value(inherited + set_for(s.launch_facts(place), child), "MYELON_BENCH_CODEC"@) == Some(
            typed_codec_slug(s.codec),
        ),
        env_value(inherited + set_for(s.launch_facts(place), child), "MYELON_BENCH_BATCH_SIZE"@) == Some(
            decimal_text(s.batch_size as nat),
        ),
        env_value(inherited + set_for(s.launch_facts(place), child), "MYELON_BENCH_PAYLOAD_BYTES"@) == Some(
            decimal_text(s.payload_size as nat),
        ),
{
    typed_keys_differ();
    let set = set_for(s.launch_facts(place), child);
    lemma_number_is_read(s.buffer as nat, usize::MAX as nat, defaults.buffer as nat);
    lemma_number_is_read(s.events as nat, u64::MAX as nat, defaults.events as nat);
    lemma_number_is_read(s.consumers as nat, usize::MAX as nat, defaults.consumers as nat);
    if child is Some {
        lemma_number_is_read(child->0 as nat, usize::MAX as nat, 0);
    }
    lemma_variables_are_read();
    let load_set = inherited.push(
        ("MYELON_BENCH_PAYLOAD_BYTES"@, decimal_text(s.payload_size as nat)),
    ).push(("MYELON_BENCH_NUM_MESSAGES"@, decimal_text(s.events as nat))).push(
        ("MYELON_BENCH_BUFFER_DEPTH"@, decimal_text(s.buffer as nat)),
    ).push(("MYELON_BENCH_NUM_CONSUMERS"@, decimal_text(s.consumers as nat))).push(
        ("MYELON_BENCH_BATCH_SIZE"@, decimal_text(s.batch_size as nat)),
    ).push(("MYELON_BENCH_CODEC"@, typed_codec_slug(s.codec)));
    let place_set = match s.backend {
        SweepBackend::Shm => load_set.push(("MYELON_BENCH_SEGMENT_NAME"@, place.segment@)),
        SweepBackend::Mmap => load_set.push(("MYELON_BENCH_MMAP_ROOT"@, place.root@)).push(
            ("MYELON_BENCH_MMAP_SEGMENT"@, place.segment@),
        ),
    };
    assert(inherited + set =~= with_number(place_set, "MYELON_BENCH_CONSUMER_ID"@, child));
}

/// The variables have names of different lengths, or different names.
proof fn raw_shm_keys_differ()
    ensures
        "BENCHMARK_SEGMENT_NAME"@.len() == 22,
        "BENCH_NUM_CONSUMERS"@.len() == 19,
        "BENCH_BUFFER"@.len() == 12,
        "BENCH_EVENTS"@.len() == 12,
        "BENCH_WARMUP"@.len() == 12,
        "BENCH_EVENT_SIZE"@.len() == 16,
        "BENCH_TARGET_RATE"@.len() == 17,
        "BENCH_RECORD_LATENCY"@.len() == 20,
        "BENCH_CONSUMER_ID"@.len() == 17,
        "BENCH_BUFFER"@ != "BENCH_EVENTS"@,
        "BENCH_BUFFER"@ != "BENCH_WARMUP"@,
        "BENCH_EVENTS"@ != "BENCH_WARMUP"@,
        "BENCH_TARGET_RATE"@ != "BENCH_CONSUMER_ID"@,
{
    reveal_strlit("BENCHMARK_SEGMENT_NAME");
    reveal_strlit("BENCH_NUM_CONSUMERS");
    reveal_strlit("BENCH_BUFFER");
    reveal_strlit("BENCH_EVENTS");
    reveal_strlit("BENCH_WARMUP");
    reveal_strlit("BENCH_EVENT_SIZE");
    reveal_strlit("BENCH_TARGET_RATE");
    reveal_strlit("BENCH_RECORD_LATENCY");
    reveal_strlit("BENCH_CONSUMER_ID");
    assert("BENCH_BUFFER"@[6] != "BENCH_EVENTS"@[6]);
    assert("BENCH_BUFFER"@[6] != "BENCH_WARMUP"@[6]);
    assert("BENCH_EVENTS"@[6] != "BENCH_WARMUP"@[6]);
    assert("BENCH_TARGET_RATE"@[6] != "BENCH_CONSUMER_ID"@[6]);
}

/// The numbers that a raw ring scenario sets are the numbers that are read.
proof fn lemma_raw_numbers_are_read(
    s: RawRingScenario,
    kind: RawRingScenarioKind,
    child: Option<int>,
    defaults: ChildDefaults,
)
    requires
        child is Some ==> 0 <= child->0 < s.consumers,
    ensures
        number_or(
            Some(decimal_text(s.buffer as nat)),
            usize::MAX as nat,
            defaults.buffer as nat,
        ) == s.buffer,
        parsed_number(decimal_text(s.buffer as nat), usize::MAX as nat) is Some,
        number_or(
            Some(decimal_text(s.events as nat)),
            u64::MAX as nat,
            defaults.events as nat,
        ) == s.events,
        parsed_number(decimal_text(s.events as nat), u64::MAX as nat) is Some,
        number_or(
            Some(decimal_text(s.consumers as nat)),
            usize::MAX as nat,
            defaults.consumers as nat,
        ) == s.consumers,
        child is Some ==> number_or(
            Some(decimal_text(child->0 as nat)),
            usize::MAX as nat,
            0,
        ) == child->0,
        number_or(Some(decimal_text(s.target_rate as nat)), u64::MAX as nat, 0) == s.target_rate,
        number_or(Some(decimal_text(s.event_bytes as nat)), usize::MAX as nat, 144)
            == s.event_bytes,
        number_or(Some(decimal_text(s.warmup as nat)), u64::MAX as nat, default_warmup(kind))
            == s.warmup,
        number_or(Some("1"@), usize::MAX as nat, 0) == 1,
{
    law_number_reads_back(s.buffer as nat, usize::MAX as nat);
    law_number_reads_back(s.events as nat, u64::MAX as nat);
    law_number_reads_back(s.consumers as nat, usize::MAX as nat);
    if child is Some {
        law_number_reads_back(child->0 as nat, usize::MAX as nat);
    }
    law_number_reads_back(s.target_rate as nat, u64::MAX as nat);
    law_number_reads_back(s.event_bytes as nat, usize::MAX as nat);
    law_number_reads_back(s.warmup as nat, u64::MAX as nat);
    reveal_strlit("1");
    assert("1"@ =~= decimal_text(1));
    law_number_reads_back(1, usize::MAX as nat);
}

/// A child of a raw ring over shared memory reads the segment, the load, the
/// number of consumers, a consumer its own number, the size of an event, the
/// warmup and whether latency is recorded, and a child that sends or takes
/// messages the rate that the scenario has. A scenario at full speed sets no
/// rate, and one that records no latency does not say so, so that neither may be
/// inherited.
pub proof fn law_raw_shm_children_read_their_scenario(
    s: RawRingScenario,
    kind: RawRingScenarioKind,
    place: LaunchPlace,
    inherited: Seq<(Seq<char>, Seq<char>)>,
    child: Option<int>,
    keys: ChildKeys,
    defaults: ChildDefaults,
    settings: ChildSettings,
    extras: RingExtras,
)
    requires
        child is Some ==> 0 <= child->0 < s.consumers,
        s.transport == RawRingTransport::Shm,
        is_raw_ring_keys(s.transport, kind, keys),
        s.target_rate == 0 ==> env_value(inherited, "BENCH_TARGET_RATE"@) is None,
        !s.asks_for_latency() ==> env_value(inherited, "BENCH_RECORD_LATENCY"@) is None,
        child_problem(inherited + set_for(s.launch_facts(place), child), keys) is None
            ==> settings.reads(
            inherited + set_for(s.launch_facts(place), child),
            keys,
            defaults,
        ),
        extras.reads(inherited + set_for(s.launch_facts(place), child), s.transport, kind),
    ensures
        child_problem(inherited + set_for(s.launch_facts(place), child), keys) is None,
        settings.segment@ == place.segment@,
        settings.buffer == s.buffer,
        settings.events == s.events,
        settings.consumers == s.consumers,
        child is Some ==> settings.consumer_id == child->0,
        settings.target_rate == match kind {
            RawRingScenarioKind::Message => s.target_rate,
            RawRingScenarioKind::Signal => 0,
        },
        extras.event_bytes == s.event_bytes,
        extras.warmup == s.warmup,
        child is Some ==> extras.record_latency == s.asks_for_latency(),
{
    raw_shm_keys_differ();
    let set = set_for(s.launch_facts(place), child);
    lemma_raw_numbers_are_read(s, kind, child, defaults);
    lemma_variables_are_read();
    let load_set = inherited.push(("BENCHMARK_SEGMENT_NAME"@, place.segment@)).push(
        ("BENCH_NUM_CONSUMERS"@, decimal_text(s.consumers as nat)),
    ).push(("BENCH_BUFFER"@, decimal_text(s.buffer as nat))).push(
        ("BENCH_EVENTS"@, decimal_text(s.events as nat)),
    ).push(("BENCH_WARMUP"@, decimal_text(s.warmup as nat))).push(
        ("BENCH_EVENT_SIZE"@, decimal_text(s.event_bytes as nat)),
    );
    let paced = with_rate(load_set, "BENCH_TARGET_RATE"@, s.target_rate as nat);
    let all_set = if child is Some && s.asks_for_latency() {
        paced.push(("BENCH_RECORD_LATENCY"@, "1"@))
    } else {
        paced
    };
    assert(inherited + set =~= with_number(all_set, "BENCH_CONSUMER_ID"@, child));
}

/// The variables have names of different lengths, or different names.
proof fn raw_mmap_keys_differ()
    ensures
        "MMAP_ROOT"@.len() == 9,
        "MMAP_SEGMENT"@.len() == 12,
        "MMAP_BUFFER_SIZE"@.len() == 16,
        "MMAP_EVENTS"@.len() == 11,
        "MMAP_NUM_CONSUMERS"@.len() == 18,
        "MMAP_EVENT_SIZE"@.len() == 15,
        "MMAP_WARMUP"@.len() == 11,
        "PERF_BENCH_SIGNAL_SIDECAR_MMAP_PATH"@.len() == 35,
        "PERF_BENCH_SIGNAL_LATENCY_MODE"@.len() == 30,
        "PERF_BENCH_SIGNAL_SAMPLE_EVERY"@.len() == 30,
        "PERF_BENCH_SIGNAL_TARGET_RATE"@.len() == 29,
        "MMAP_TARGET_RATE"@.len() == 16,
        "MMAP_RECORD_LATENCY"@.len() == 19,
        "MMAP_CONSUMER_ID"@.len() == 16,
        "MMAP_BUFFER_SIZE"@ != "MMAP_TARGET_RATE"@,
        "MMAP_BUFFER_SIZE"@ != "MMAP_CONSUMER_ID"@,
        "MMAP_EVENTS"@ != "MMAP_WARMUP"@,
        "PERF_BENCH_SIGNAL_LATENCY_MODE"@ != "PERF_BENCH_SIGNAL_SAMPLE_EVERY"@,
        "MMAP_TARGET_RATE"@ != "MMAP_CONSUMER_ID"@,
{
    reveal_strlit("MMAP_ROOT");
    reveal_strlit("MMAP_SEGMENT");
    reveal_strlit("MMAP_BUFFER_SIZE");
    reveal_strlit("MMAP_EVENTS");
    reveal_strlit("MMAP_NUM_CONSUMERS");
    reveal_strlit("MMAP_EVENT_SIZE");
    reveal_strlit("MMAP_WARMUP");
    reveal_strlit("PERF_BENCH_SIGNAL_SIDECAR_MMAP_PATH");
    reveal_strlit("PERF_BENCH_SIGNAL_LATENCY_MODE");
    reveal_strlit("PERF_BENCH_SIGNAL_SAMPLE_EVERY");
    reveal_strlit("PERF_BENCH_SIGNAL_TARGET_RATE");
    reveal_strlit("MMAP_TARGET_RATE");
    reveal_strlit("MMAP_RECORD_LATENCY");
    reveal_strlit("MMAP_CONSUMER_ID");
    assert("MMAP_BUFFER_SIZE"@[5] != "MMAP_TARGET_RATE"@[5]);
    assert("MMAP_BUFFER_SIZE"@[5] != "MMAP_CONSUMER_ID"@[5]);
    assert("MMAP_EVENTS"@[5] != "MMAP_WARMUP"@[5]);
    assert("PERF_BENCH_SIGNAL_LATENCY_MODE"@[18] != "PERF_BENCH_SIGNAL_SAMPLE_EVERY"@[18]);
    assert("MMAP_TARGET_RATE"@[5] != "MMAP_CONSUMER_ID"@[5]);
}

/// The path that a scenario over memory-mapped files gives its children for the
/// stamps beside their ring.
pub open spec fn sidecar_path(place: LaunchPlace) -> Seq<char> {
    joined_path(place.root@, place.segment@ + ".signal_timestamps"@)
}

/// What is read of the environment of a child of a raw ring over memory-mapped
/// files.
#[verifier::rlimit(30)]
proof fn lemma_raw_mmap_values(
    s: RawRingScenario,
    place: LaunchPlace,
    inherited: Seq<(Seq<char>, Seq<char>)>,
    child: Option<int>,
)
    requires
        child is Some ==> 0 <= child->0 < s.consumers,
        s.transport != RawRingTransport::Shm,
    ensures
        ({
            let envs = inherited + set_for(s.launch_facts(place), child);
            &&& env_value(envs, "MMAP_ROOT"@) == Some(place.root@)
            &&& env_value(envs, "MMAP_SEGMENT"@) == Some(place.segment@)
            &&& env_value(envs, "MMAP_BUFFER_SIZE"@) == Some(decimal_text(s.buffer as nat))
            &&& env_value(envs, "MMAP_EVENTS"@) == Some(decimal_text(s.events as nat))
            &&& env_value(envs, "MMAP_NUM_CONSUMERS"@) == Some(decimal_text(s.consumers as nat))
            &&& env_value(envs, "MMAP_EVENT_SIZE"@) == Some(decimal_text(s.event_bytes as nat))
            &&& env_value(envs, "MMAP_WARMUP"@) == Some(decimal_text(s.warmup as nat))
            &&& env_value(envs, "MMAP_TARGET_RATE"@) == if s.target_rate > 0 {
                Some(decimal_text(s.target_rate as nat))
            } else {
                env_value(inherited, "MMAP_TARGET_RATE"@)
            }
            &&& env_value(envs, "PERF_BENCH_SIGNAL_TARGET_RATE"@) == env_value(
                inherited,
                "PERF_BENCH_SIGNAL_TARGET_RATE"@,
            )
            &&& child is Some ==> env_value(envs, "MMAP_CONSUMER_ID"@) == Some(
                decimal_text(child->0 as nat),
            )
            &&& env_value(envs, "MMAP_RECORD_LATENCY"@) == if child is Some
                && s.asks_for_latency() {
                Some("1"@)
            } else {
                env_value(inherited, "MMAP_RECORD_LATENCY"@)
            }
            &&& s.transport == RawRingTransport::Mmap ==> {
                &&& env_value(envs, "PERF_BENCH_SIGNAL_LATENCY_MODE"@) == Some(
                    mode_text(place.signal_mode),
                )
                &&& env_value(envs, "PERF_BENCH_SIGNAL_SAMPLE_EVERY"@) == Some(
                    decimal_text(place.sample_every as nat),
                )
                &&& has_prefix(s.label@, "signal_"@) && place.signal_mode.spec_uses_sidecar()
                    ==> env_value(envs, "PERF_BENCH_SIGNAL_SIDECAR_MMAP_PATH"@) == Some(
                    sidecar_path(place),
                )
            }
        }),
{
    raw_mmap_keys_differ();
    let set = set_for(s.launch_facts(place), child);
    lemma_variables_are_read();
    let load_set = inherited.push(("MMAP_ROOT"@, place.root@)).push(
        ("MMAP_SEGMENT"@, place.segment@),
    ).push(("MMAP_BUFFER_SIZE"@, decimal_text(s.buffer as nat))).push(
        ("MMAP_EVENTS"@, decimal_text(s.events as nat)),
    ).push(("MMAP_NUM_CONSUMERS"@, decimal_text(s.consumers as nat))).push(
        ("MMAP_EVENT_SIZE"@, decimal_text(s.event_bytes as nat)),
    ).push(("MMAP_WARMUP"@, decimal_text(s.warmup as nat)));
    let sided = if has_prefix(s.label@, "signal_"@) && place.signal_mode.spec_uses_sidecar() {
        load_set.push(("PERF_BENCH_SIGNAL_SIDECAR_MMAP_PATH"@, sidecar_path(place)))
    } else {
        load_set
    };
    let stamped = if s.transport == RawRingTransport::Mmap {
        sided.push(("PERF_BENCH_SIGNAL_LATENCY_MODE"@, mode_text(place.signal_mode))).push(
            ("PERF_BENCH_SIGNAL_SAMPLE_EVERY"@, decimal_text(place.sample_every as nat)),
        )
    } else {
        load_set
    };
    let paced = with_rate(stamped, "MMAP_TARGET_RATE"@, s.target_rate as nat);
    let all_set = if child is Some && s.asks_for_latency() {
        paced.push(("MMAP_RECORD_LATENCY"@, "1"@))
    } else {
        paced
    };
    assert(inherited + set =~= with_number(all_set, "MMAP_CONSUMER_ID"@, child));
}

/// A child of a raw ring over memory-mapped files reads the root directory, the
/// segment, the load, the number of consumers, a consumer its own number, the
/// size of an event and whether latency is recorded. A child that sends or takes
/// messages reads the rate that the scenario has; one that sends or takes
/// signals reads no rate of the scenario's, but, straight through the files, the
/// one that it inherits. The warmup is read by all but the signals of the layer
/// above. Straight through the files, how and how often signals are stamped is
/// read, and where, for scenarios of signals with stamps beside the ring.
pub proof fn law_raw_mmap_children_read_their_scenario(
    s: RawRingScenario,
    kind: RawRingScenarioKind,
    place: LaunchPlace,
    inherited: Seq<(Seq<char>, Seq<char>)>,
    child: Option<int>,
    keys: ChildKeys,
    defaults: ChildDefaults,
    settings: ChildSettings,
    extras: RingExtras,
)
    requires
        child is Some ==> 0 <= child->0 < s.consumers,
        s.transport != RawRingTransport::Shm,
        is_raw_ring_keys(s.transport, kind, keys),
        s.target_rate == 0 ==> env_value(inherited, "MMAP_TARGET_RATE"@) is None,
        !s.asks_for_latency() ==> env_value(inherited, "MMAP_RECORD_LATENCY"@) is None,
        child_problem(inherited + set_for(s.launch_facts(place), child), keys) is None
            ==> settings.reads(
            inherited + set_for(s.launch_facts(place), child),
            keys,
            defaults,
        ),
        extras.reads(inherited + set_for(s.launch_facts(place), child), s.transport, kind),
    ensures
        child_problem(inherited + set_for(s.launch_facts(place), child), keys) is None,
        settings.segment@ == place.segment@,
        option_view(settings.root) == Some(place.root@),
        settings.buffer == s.buffer,
        settings.events == s.events,
        settings.consumers == s.consumers,
        child is Some ==> settings.consumer_id == child->0,
        settings.target_rate == match kind {
            RawRingScenarioKind::Message => s.target_rate as nat,
            RawRingScenarioKind::Signal => if s.transport == RawRingTransport::Mmap {
                number_or(
                    env_value(inherited, "PERF_BENCH_SIGNAL_TARGET_RATE"@),
                    u64::MAX as nat,
                    0,
                )
            } else {
                0
            },
        },
        extras.event_bytes == s.event_bytes,
        extras.warmup == if s.transport == RawRingTransport::MyelonMmap && kind
            == RawRingScenarioKind::Signal {
            100_000
        } else {
            s.warmup
        },
        child is Some ==> extras.record_latency == s.asks_for_latency(),
        s.transport == RawRingTransport::Mmap ==> {
            let envs = inherited + set_for(s.launch_facts(place), child);
            &&& env_value(envs, "PERF_BENCH_SIGNAL_LATENCY_MODE"@) == Some(
                mode_text(place.signal_mode),
            )
            &&& number_or(
                env_value(envs, "PERF_BENCH_SIGNAL_SAMPLE_EVERY"@),
                u64::MAX as nat,
                0,
            ) == place.sample_every
            &&& has_prefix(s.label@, "signal_"@) && place.signal_mode.spec_uses_sidecar()
                ==> env_value(envs, "PERF_BENCH_SIGNAL_SIDECAR_MMAP_PATH"@) == Some(
                sidecar_path(place),
            )
        },
{
    lemma_raw_numbers_are_read(s, kind, child, defaults);
    lemma_number_is_read(place.sample_every as nat, u64::MAX as nat, 0);
    lemma_raw_mmap_values(s, place, inherited, child);
}

/// The variables have names of different lengths, or different names.
proof fn wait_keys_differ()
    ensures
        "BENCHMARK_SEGMENT_NAME"@.len() == 22,
        "MMAP_ROOT"@.len() == 9,
        "MMAP_SEGMENT"@.len() == 12,
        "NUM_CONSUMERS"@.len() == 13,
        "WAIT_STRATEGY"@.len() == 13,
        "CONSUMER_ID"@.len() == 11,
        "NUM_CONSUMERS"@ != "WAIT_STRATEGY"@,
{
    reveal_strlit("BENCHMARK_SEGMENT_NAME");
    reveal_strlit("MMAP_ROOT");
    reveal_strlit("MMAP_SEGMENT");
    reveal_strlit("NUM_CONSUMERS");
    reveal_strlit("WAIT_STRATEGY");
    reveal_strlit("CONSUMER_ID");
    assert("NUM_CONSUMERS"@[0] != "WAIT_STRATEGY"@[0]);
}

/// A child of a wait strategy scenario starts, and reads where the ring is, how
/// consumers wait, and the number of consumers or its own number, whatever it
/// inherits.
pub proof fn law_wait_children_read_their_scenario(
    s: WaitStrategyScenario,
    place: LaunchPlace,
    inherited: Seq<(Seq<char>, Seq<char>)>,
    child: Option<int>,
    env: WaitEnv,
)
    requires
        child is Some ==> 0 <= child->0 < s.consumers,
        wait_problem(
            inherited + set_for(s.launch_facts(place), child),
            s.backend,
            child is Some,
        ) is None ==> env.reads(
            inherited + set_for(s.launch_facts(place), child),
            s.backend,
            child is Some,
        ),
    ensures
        wait_problem(
            inherited + set_for(s.launch_facts(place), child),
            s.backend,
            child is Some,
        ) is None,
        env.segment@ == place.segment@,
        option_view(env.root) == match s.backend {
            SweepBackend::Shm => None,
            SweepBackend::Mmap => Some(place.root@),
        },
        env.number == match child {
            Some(i) => i,
            None => s.consumers as int,
        },
        env.wait_strategy@ == s.wait_strategy@,
{
    wait_keys_differ();
    let set = set_for(s.launch_facts(place), child);
    law_number_reads_back(s.consumers as nat, usize::MAX as nat);
    if child is Some {
        law_number_reads_back(child->0 as nat, usize::MAX as nat);
    }
    lemma_variables_are_read();
    let place_set = match s.backend {
        SweepBackend::Shm => inherited.push(("BENCHMARK_SEGMENT_NAME"@, place.segment@)),
        SweepBackend::Mmap => inherited.push(("MMAP_ROOT"@, place.root@)).push(
            ("MMAP_SEGMENT"@, place.segment@),
        ),
    };
    let all_set = place_set.push(("NUM_CONSUMERS"@, decimal_text(s.consumers as nat))).push(
        ("WAIT_STRATEGY"@, s.wait_strategy@),
    );
    assert(inherited + set =~= with_number(all_set, "CONSUMER_ID"@, child));
}

/// The variables have names of different lengths, or different names.
proof fn typed_pingpong_keys_differ()
    ensures
        "PING_SEGMENT"@.len() == 12,
        "PONG_SEGMENT"@.len() == 12,
        "COORDINATION_SEGMENT"@.len() == 20,
        "BENCH_CODEC"@.len() == 11,
        "BENCH_BATCH_SIZE"@.len() == 16,
        "BENCH_ENCODED_BYTES"@.len() == 19,
        "BENCH_MESSAGES"@.len() == 14,
        "BENCH_WARMUP"@.len() == 12,
        "BENCH_BUFFER_DEPTH"@.len() == 18,
        "BENCH_WAIT_STRATEGY"@.len() == 19,
        "BENCH_TARGET_RATE"@.len() == 17,
        "PING_SEGMENT"@ != "PONG_SEGMENT"@,
        "PING_SEGMENT"@ != "BENCH_WARMUP"@,
        "PONG_SEGMENT"@ != "BENCH_WARMUP"@,
        "BENCH_ENCODED_BYTES"@ != "BENCH_WAIT_STRATEGY"@,
{
    reveal_strlit("PING_SEGMENT");
    reveal_strlit("PONG_SEGMENT");
    reveal_strlit("COORDINATION_SEGMENT");
    reveal_strlit("BENCH_CODEC");
    reveal_strlit("BENCH_BATCH_SIZE");
    reveal_strlit("BENCH_ENCODED_BYTES");
    reveal_strlit("BENCH_MESSAGES");
    reveal_strlit("BENCH_WARMUP");
    reveal_strlit("BENCH_BUFFER_DEPTH");
    reveal_strlit("BENCH_WAIT_STRATEGY");
    reveal_strlit("BENCH_TARGET_RATE");
    assert("PING_SEGMENT"@[1] != "PONG_SEGMENT"@[1]);
    assert("PING_SEGMENT"@[0] != "BENCH_WARMUP"@[0]);
    assert("PONG_SEGMENT"@[0] != "BENCH_WARMUP"@[0]);
    assert("BENCH_ENCODED_BYTES"@[6] != "BENCH_WAIT_STRATEGY"@[6]);
}

/// Both sides of a typed ping-pong start, and read the segments, the codec, the
/// load, the wait strategy and the rate that the scenario has, whatever they
/// inherit.
pub proof fn law_typed_pingpong_children_read_their_scenario(
    s: TypedPingPongScenario,
    place: LaunchPlace,
    inherited: Seq<(Seq<char>, Seq<char>)>,
    env: TypedPingPongEnv,
)
    requires
        first_missing(
            inherited + s.launch_facts(place).producer_envs,
            typed_pingpong_needs(),
        ) is None ==> env.reads(inherited + s.launch_facts(place).producer_envs),
    ensures
        s.launch_facts(place).consumer_envs == seq![s.launch_facts(place).producer_envs],
        first_missing(
            inherited + s.launch_facts(place).producer_envs,
            typed_pingpong_needs(),
        ) is None,
        env.ping_segment@ == place.segment@,
        env.pong_segment@ == place.pong_segment@,
        env.coordination_segment@ == place.coordination_segment@,
        env.codec@ == s.codec@,
        env.batch_size == s.batch_size,
        env.encoded_bytes == s.encoded_bytes,
        env.messages == s.messages,
        env.warmup == s.warmup,
        env.buffer_depth == s.buffer_depth,
        env.wait_strategy@ == s.wait_strategy@,
        env.target_rate == s.target_rate,
{
    typed_pingpong_keys_differ();
    let set = s.launch_facts(place).producer_envs;
    lemma_number_is_read(s.batch_size as nat, usize::MAX as nat, 1);
    lemma_number_is_read(s.encoded_bytes as nat, usize::MAX as nat, 1);
    lemma_number_is_read(s.messages as nat, u64::MAX as nat, 100_000);
    lemma_number_is_read(s.warmup as nat, u64::MAX as nat, 10_000);
    lemma_number_is_read(s.buffer_depth as nat, usize::MAX as nat, 4096);
    lemma_number_is_read(s.target_rate as nat, u64::MAX as nat, 0);
    lemma_variables_are_read();
    assert(inherited + set =~= inherited.push(("PING_SEGMENT"@, place.segment@)).push(
        ("PONG_SEGMENT"@, place.pong_segment@),
    ).push(("COORDINATION_SEGMENT"@, place.coordination_segment@)).push(
        ("BENCH_CODEC"@, s.codec@),
    ).push(("BENCH_BATCH_SIZE"@, decimal_text(s.batch_size as nat))).push(
        ("BENCH_ENCODED_BYTES"@, decimal_text(s.encoded_bytes as nat)),
    ).push(("BENCH_MESSAGES"@, decimal_text(s.messages as nat))).push(
        ("BENCH_WARMUP"@, decimal_text(s.warmup as nat)),
    ).push(("BENCH_BUFFER_DEPTH"@, decimal_text(s.buffer_depth as nat))).push(
        ("BENCH_WAIT_STRATEGY"@, s.wait_strategy@),
    ).push(("BENCH_TARGET_RATE"@, decimal_text(s.target_rate as nat))));
    reveal_with_fuel(first_missing, 5);
    let needs = typed_pingpong_needs();
    assert(needs.skip(1).skip(1) =~= needs.skip(2));
    assert(needs.skip(2).skip(1) =~= needs.skip(3));
    assert(needs.skip(3).skip(1) =~= needs.skip(4));
}

/// The variables have names of different lengths, or different names.
proof fn echo_keys_differ()
    ensures
        "PING_SEGMENT"@.len() == 12,
        "PONG_SEGMENT"@.len() == 12,
        "COORDINATION_SEGMENT"@.len() == 20,
        "MESSAGE_SIZE"@.len() == 12,
        "BUFFER_SIZE"@.len() == 11,
        "WAIT_STRATEGY"@.len() == 13,
        "JSON_MODE"@.len() == 9,
        "PERF_BENCH_PINGPONG_COUNTERS"@.len() == 28,
        "PING_SEGMENT"@ != "PONG_SEGMENT"@,
        "PING_SEGMENT"@ != "MESSAGE_SIZE"@,
        "PONG_SEGMENT"@ != "MESSAGE_SIZE"@,
{
    reveal_strlit("PING_SEGMENT");
    reveal_strlit("PONG_SEGMENT");
    reveal_strlit("COORDINATION_SEGMENT");
    reveal_strlit("MESSAGE_SIZE");
    reveal_strlit("BUFFER_SIZE");
    reveal_strlit("WAIT_STRATEGY");
    reveal_strlit("JSON_MODE");
    reveal_strlit("PERF_BENCH_PINGPONG_COUNTERS");
    assert("PING_SEGMENT"@[1] != "PONG_SEGMENT"@[1]);
    assert("PING_SEGMENT"@[0] != "MESSAGE_SIZE"@[0]);
    assert("PONG_SEGMENT"@[0] != "MESSAGE_SIZE"@[0]);
}

/// An echo process starts, and reads the segments, the sizes and the wait
/// strategy that it was spawned with, whatever it inherits.
pub proof fn law_echo_process_reads_its_settings(
    s: EchoSettings,
    inherited: Seq<(Seq<char>, Seq<char>)>,
    env: EchoEnv,
)
    requires
        echo_problem(inherited + s.envs()) is None ==> env.reads(inherited + s.envs()),
    ensures
        echo_problem(inherited + s.envs()) is None,
        env.ping_segment@ == s.ping_segment@,
        env.pong_segment@ == s.pong_segment@,
        env.coordination_segment@ == s.coordination_segment@,
        env.message_size == s.message_size,
        env.buffer_size == s.buffer_size,
        env.wait_strategy@ == s.wait_strategy@,
{
    echo_keys_differ();
    law_number_reads_back(s.message_size as nat, usize::MAX as nat);
    law_number_reads_back(s.buffer_size as nat, usize::MAX as nat);
    lemma_variables_are_read();
    let place_set = inherited.push(("PING_SEGMENT"@, s.ping_segment@)).push(
        ("PONG_SEGMENT"@, s.pong_segment@),
    ).push(("COORDINATION_SEGMENT"@, s.coordination_segment@)).push(
        ("MESSAGE_SIZE"@, decimal_text(s.message_size as nat)),
    ).push(("BUFFER_SIZE"@, decimal_text(s.buffer_size as nat))).push(
        ("WAIT_STRATEGY"@, s.wait_strategy@),
    );
    let one = "1"@;
    let quiet = if s.json_mode {
        place_set.push(("JSON_MODE"@, one))
    } else {
        place_set
    };
    let all_set = if s.enable_counters {
        quiet.push(("PERF_BENCH_PINGPONG_COUNTERS"@, one))
    } else {
        quiet
    };
    assert(inherited + s.envs() =~= all_set);
    reveal_with_fuel(first_missing, 4);
    let segments = seq!["PING_SEGMENT"@, "PONG_SEGMENT"@, "COORDINATION_SEGMENT"@];
    assert(segments.skip(1).skip(1) =~= segments.skip(2));
    assert(segments.skip(2).skip(1) =~= segments.skip(3));
}

} // verus!
