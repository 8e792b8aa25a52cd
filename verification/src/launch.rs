//! Which children a scenario spawns, and with which environment.
use vstd::prelude::*;
use crate::decimal::{decimal, decimal_text, law_decimal_is_injective};
use crate::signal_latency::SignalLatencyMode;
use crate::text::option_view;

verus! {

/// A variable of a child's environment.
#[derive(Clone, Debug, PartialEq, Eq)]
pub struct EnvVar {
    pub key: String,
    pub value: String,
}

/// Keys and values, in the order in which they are set.
pub open spec fn env_views(envs: Seq<EnvVar>) -> Seq<(Seq<char>, Seq<char>)> {
    Seq::new(envs.len(), |i: int| (envs[i].key@, envs[i].value@))
}

/// A child to spawn.
#[derive(Clone, Debug)]
pub struct ChildSpawn {
    pub role: String,
    pub envs: Vec<EnvVar>,
}

/// The children of a scenario, and the directory to remove after it.
#[derive(Clone, Debug)]
pub struct LaunchPlan {
    pub producer: ChildSpawn,
    pub consumers: Vec<ChildSpawn>,
    pub cleanup_path: Option<String>,
}

/// What a launch plan says.
pub struct LaunchFacts {
    pub producer_role: Seq<char>,
    pub producer_envs: Seq<(Seq<char>, Seq<char>)>,
    pub consumer_role: Seq<char>,
    pub consumer_envs: Seq<Seq<(Seq<char>, Seq<char>)>>,
    pub cleanup_path: Option<Seq<char>>,
}

impl LaunchPlan {
    /// The plan says what `facts` do.
    pub open spec fn follows(&self, facts: LaunchFacts) -> bool {
        &&& self.producer.role@ == facts.producer_role
        &&& env_views(self.producer.envs@) == facts.producer_envs
        &&& self.consumers@.len() == facts.consumer_envs.len()
        &&& forall|i: int|
            0 <= i < self.consumers@.len() ==> {
                &&& (#[trigger] self.consumers@[i]).role@ == facts.consumer_role
                &&& env_views(self.consumers@[i].envs@) == facts.consumer_envs[i]
            }
        &&& match (self.cleanup_path, facts.cleanup_path) {
            (None, None) => true,
            (Some(path), Some(text)) => path@ == text,
            _ => false,
        }
    }
}

/// Where a scenario runs: its segment, with those of the way back and of the
/// coordination where it has them, its root directory where it has one, and
/// how signal latency is measured.
#[derive(Clone, Debug)]
pub struct LaunchPlace {
    pub segment: String,
    pub pong_segment: String,
    pub coordination_segment: String,
    pub root: String,
    pub signal_mode: SignalLatencyMode,
    pub sample_every: u64,
}

/// The environments of as many consumers: the common variables, the
/// consumer's number under the given key, and the closing ones.
pub open spec fn numbered_envs(
    base: Seq<(Seq<char>, Seq<char>)>,
    id_key: Seq<char>,
    tail: Seq<(Seq<char>, Seq<char>)>,
    count: nat,
) -> Seq<Seq<(Seq<char>, Seq<char>)>> {
    Seq::new(count, |i: int| base.push((id_key, decimal_text(i as nat))) + tail)
}

/// Sets a variable.
pub fn push_env(envs: &mut Vec<EnvVar>, key: &str, value: String)
    ensures
        env_views(final(envs)@) == env_views(old(envs)@).push((key@, value@)),
{
    let ghost before = env_views(envs@);
    envs.push(EnvVar { key: key.to_owned(), value });
    assert(env_views(envs@) =~= before.push((key@, value@)));
}

/// Sets a variable to a number.
pub fn push_number(envs: &mut Vec<EnvVar>, key: &str, value: u64)
    ensures
        env_views(final(envs)@) == env_views(old(envs)@).push((key@, decimal_text(value as nat))),
{
    push_env(envs, key, decimal(value));
}

/// A copy of an environment.
pub fn copied_envs(envs: &Vec<EnvVar>) -> (r: Vec<EnvVar>)
    ensures
        env_views(r@) == env_views(envs@),
{
    let mut out: Vec<EnvVar> = Vec::new();
    assert(env_views(out@) =~= env_views(envs@).take(0));
    for i in 0..envs.len()
        invariant
            env_views(out@) == env_views(envs@).take(i as int),
    {
        push_env(&mut out, envs[i].key.as_str(), envs[i].value.clone());
        assert(env_views(out@) =~= env_views(envs@).take(i + 1));
    }
    assert(env_views(envs@).take(envs@.len() as int) =~= env_views(envs@));
    out
}

/// Sets the variables of another environment too.
pub fn extend_envs(envs: &mut Vec<EnvVar>, more: &Vec<EnvVar>)
    ensures
        env_views(final(envs)@) == env_views(old(envs)@) + env_views(more@),
{
    let ghost before = env_views(envs@);
    assert(env_views(envs@) =~= before + env_views(more@).take(0));
    for i in 0..more.len()
        invariant
            env_views(envs@) == before + env_views(more@).take(i as int),
    {
        push_env(envs, more[i].key.as_str(), more[i].value.clone());
        assert(env_views(envs@) =~= before + env_views(more@).take(i + 1));
    }
    assert(env_views(more@).take(more@.len() as int) =~= env_views(more@));
}

/// The consumers to spawn: each with the common variables, its number, and
/// the closing ones.
pub fn numbered_consumers(
    role: &str,
    base: &Vec<EnvVar>,
    id_key: &str,
    tail: &Vec<EnvVar>,
    count: usize,
) -> (r: Vec<ChildSpawn>)
    ensures
        r@.len() == count,
        forall|i: int|
            0 <= i < count ==> {
                &&& (#[trigger] r@[i]).role@ == role@
                &&& env_views(r@[i].envs@) == numbered_envs(
                    env_views(base@),
                    id_key@,
                    env_views(tail@),
                    count as nat,
                )[i]
            },
{
    let mut out: Vec<ChildSpawn> = Vec::new();
    for id in 0..count
        invariant
            out@.len() == id,
            forall|i: int|
                0 <= i < id ==> {
                    &&& (#[trigger] out@[i]).role@ == role@
                    &&& env_views(out@[i].envs@) == numbered_envs(
                        env_views(base@),
                        id_key@,
                        env_views(tail@),
                        count as nat,
                    )[i]
                },
    {
        let mut envs = copied_envs(base);
        push_number(&mut envs, id_key, id as u64);
        extend_envs(&mut envs, tail);
        out.push(ChildSpawn { role: role.to_owned(), envs });
    }
    out
}

/// What a group of one producer and several consumers is spawned with.
#[derive(Clone, Debug)]
pub struct MultiConsumerSpawn {
    pub producer_role: String,
    pub consumer_role: String,
    pub consumers: usize,
    pub consumer_id_env: String,
    pub base_envs: Vec<EnvVar>,
}

/// The plan of a group: all children share an environment, and each consumer
/// has its number besides.
pub open spec fn group_facts(
    producer_role: Seq<char>,
    consumer_role: Seq<char>,
    consumers: nat,
    consumer_id_env: Seq<char>,
    envs: Seq<(Seq<char>, Seq<char>)>,
    cleanup_path: Option<Seq<char>>,
) -> LaunchFacts {
    LaunchFacts {
        producer_role,
        producer_envs: envs,
        consumer_role,
        consumer_envs: numbered_envs(envs, consumer_id_env, Seq::empty(), consumers),
        cleanup_path,
    }
}

/// The plan of a group whose environment is complete.
fn launch_group(spawn: MultiConsumerSpawn, cleanup_path: Option<String>) -> (r: LaunchPlan)
    ensures
        r.follows(
            group_facts(
                spawn.producer_role@,
                spawn.consumer_role@,
                spawn.consumers as nat,
                spawn.consumer_id_env@,
                env_views(spawn.base_envs@),
                option_view(cleanup_path),
            ),
        ),
{
    let tail: Vec<EnvVar> = Vec::new();
    assert(env_views(tail@) =~= Seq::empty());
    let consumers = numbered_consumers(
        spawn.consumer_role.as_str(),
        &spawn.base_envs,
        spawn.consumer_id_env.as_str(),
        &tail,
        spawn.consumers,
    );
    LaunchPlan {
        producer: ChildSpawn { role: spawn.producer_role, envs: spawn.base_envs },
        consumers,
        cleanup_path,
    }
}

/// The plan of a group over a shared-memory segment.
pub fn launch_shm_group(segment: &str, segment_env_key: &str, spawn: MultiConsumerSpawn) -> (r:
    LaunchPlan)
    ensures
        r.follows(
            group_facts(
                spawn.producer_role@,
                spawn.consumer_role@,
                spawn.consumers as nat,
                spawn.consumer_id_env@,
                env_views(spawn.base_envs@).push((segment_env_key@, segment@)),
                None,
            ),
        ),
{
    let mut spawn = spawn;
    push_env(&mut spawn.base_envs, segment_env_key, segment.to_owned());
    launch_group(spawn, None)
}

/// The plan of a group over a memory-mapped segment, whose root directory is
/// removed afterwards.
pub fn launch_mmap_group(
    root: &str,
    segment: &str,
    root_env_key: &str,
    segment_env_key: &str,
    spawn: MultiConsumerSpawn,
) -> (r: LaunchPlan)
    ensures
        r.follows(
            group_facts(
                spawn.producer_role@,
                spawn.consumer_role@,
                spawn.consumers as nat,
                spawn.consumer_id_env@,
                env_views(spawn.base_envs@).push((root_env_key@, root@)).push(
                    (segment_env_key@, segment@),
                ),
                Some(root@),
            ),
        ),
{
    let mut spawn = spawn;
    push_env(&mut spawn.base_envs, root_env_key, root.to_owned());
    push_env(&mut spawn.base_envs, segment_env_key, segment.to_owned());
    launch_group(spawn, Some(root.to_owned()))
}

/// The consumers of a group differ in their number only.
pub proof fn law_consumers_are_told_apart(
    base: Seq<(Seq<char>, Seq<char>)>,
    id_key: Seq<char>,
    tail: Seq<(Seq<char>, Seq<char>)>,
    count: nat,
    i: int,
    j: int,
)
    requires
        0 <= i < count,
        0 <= j < count,
        i != j,
    ensures
        numbered_envs(base, id_key, tail, count)[i] != numbered_envs(base, id_key, tail, count)[j],
        numbered_envs(base, id_key, tail, count)[i] == numbered_envs(
            base,
            id_key,
            tail,
            count,
        )[j].update(base.len() as int, (id_key, decimal_text(i as nat))),
{
    let a = numbered_envs(base, id_key, tail, count)[i];
    let b = numbered_envs(base, id_key, tail, count)[j];
    let n = base.len() as int;
    assert(a[n] == (id_key, decimal_text(i as nat)));
    assert(b[n] == (id_key, decimal_text(j as nat)));
    if a == b {
        law_decimal_is_injective(i as nat, j as nat);
    }
    assert(a =~= b.update(n, (id_key, decimal_text(i as nat))));
}

} // verus!
