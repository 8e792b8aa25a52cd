//! The benchmarks: their names, and the roles that their child processes can
//! take.
use vstd::prelude::*;
use crate::scenarios::codec_nofrag::{
    is_supported_batch, nofrag_consumer_role, nofrag_producer_role,
};
use crate::scenarios::raw_ring::{myelon_roles, RawRingScenarioKind};
use crate::text::views;

verus! {

/// A benchmark that runs its producers and consumers as child processes of its
/// own program.
pub trait BenchHarness {
    /// Its name.
    spec fn name(&self) -> Seq<char>;

    /// The roles of its children.
    spec fn roles(&self) -> Seq<Seq<char>>;

    fn bench_name(&self) -> (r: &'static str)
        ensures
            r@ == self.name(),
    ;

    fn child_roles(&self) -> (r: Vec<String>)
        ensures
            views(r@) == self.roles(),
    ;

    /// What is reported of a run that failed.
    fn failure(&self, error: &str) -> (r: String)
        ensures
            r@ == self.name() + " failed: "@ + error@,
    {
        let mut out: String = self.bench_name().to_owned();
        out.append(" failed: ");
        out.append(error);
        out
    }
}

/// Adds a role.
fn push_role(roles: &mut Vec<String>, role: &str)
    ensures
        views(final(roles)@) == views(old(roles)@).push(role@),
{
    let ghost before = views(roles@);
    roles.push(role.to_owned());
    assert(views(roles@) =~= before.push(role@));
}

/// The raw ring over shared memory.
#[derive(Clone, Copy, Debug)]
pub struct RawRingShmBench;

impl BenchHarness for RawRingShmBench {
    open spec fn name(&self) -> Seq<char> {
        "raw_ring_shm"@
    }

    open spec fn roles(&self) -> Seq<Seq<char>> {
        seq![
            "msg_producer"@,
            "msg_consumer"@,
            "sig_producer"@,
            "sig_consumer"@,
            "sig_multi_producer"@,
            "sig_multi_consumer"@,
            "msg_multi_producer"@,
            "msg_multi_consumer"@,
        ]
    }

    fn bench_name(&self) -> (r: &'static str) {
        "raw_ring_shm"
    }

    fn child_roles(&self) -> (r: Vec<String>) {
        let mut roles: Vec<String> = Vec::new();
        assert(views(roles@) =~= Seq::empty());
        push_role(&mut roles, "msg_producer");
        push_role(&mut roles, "msg_consumer");
        push_role(&mut roles, "sig_producer");
        push_role(&mut roles, "sig_consumer");
        push_role(&mut roles, "sig_multi_producer");
        push_role(&mut roles, "sig_multi_consumer");
        push_role(&mut roles, "msg_multi_producer");
        push_role(&mut roles, "msg_multi_consumer");
        roles
    }
}

/// The raw ring over memory-mapped files.
#[derive(Clone, Copy, Debug)]
pub struct RawRingMmapBench;

impl BenchHarness for RawRingMmapBench {
    open spec fn name(&self) -> Seq<char> {
        "raw_ring_mmap"@
    }

    open spec fn roles(&self) -> Seq<Seq<char>> {
        seq![
            "mmap_msg_producer"@,
            "mmap_msg_consumer"@,
            "mmap_sig_producer"@,
            "mmap_sig_consumer"@,
            "mmap_multi_sig_producer"@,
            "mmap_multi_sig_consumer"@,
            "mmap_multi_msg_producer"@,
            "mmap_multi_msg_consumer"@,
        ]
    }

    fn bench_name(&self) -> (r: &'static str) {
        "raw_ring_mmap"
    }

    fn child_roles(&self) -> (r: Vec<String>) {
        let mut roles: Vec<String> = Vec::new();
        assert(views(roles@) =~= Seq::empty());
        push_role(&mut roles, "mmap_msg_producer");
        push_role(&mut roles, "mmap_msg_consumer");
        push_role(&mut roles, "mmap_sig_producer");
        push_role(&mut roles, "mmap_sig_consumer");
        push_role(&mut roles, "mmap_multi_sig_producer");
        push_role(&mut roles, "mmap_multi_sig_consumer");
        push_role(&mut roles, "mmap_multi_msg_producer");
        push_role(&mut roles, "mmap_multi_msg_consumer");
        roles
    }
}

/// The raw ring over memory-mapped files, by way of the layer above.
#[derive(Clone, Copy, Debug)]
pub struct RawMyelonMmapBench;

impl BenchHarness for RawMyelonMmapBench {
    open spec fn name(&self) -> Seq<char> {
        "raw_myelon_mmap"@
    }

    open spec fn roles(&self) -> Seq<Seq<char>> {
        seq![
            "my_mmap_msg_producer"@,
            "my_mmap_msg_consumer"@,
            "my_mmap_sig_producer"@,
            "my_mmap_sig_consumer"@,
            "my_mmap_multi_sig_producer"@,
            "my_mmap_multi_sig_consumer"@,
            "my_mmap_multi_msg_producer"@,
            "my_mmap_multi_msg_consumer"@,
        ]
    }

    fn bench_name(&self) -> (r: &'static str) {
        "raw_myelon_mmap"
    }

    fn child_roles(&self) -> (r: Vec<String>) {
        let mut roles: Vec<String> = Vec::new();
        assert(views(roles@) =~= Seq::empty());
        push_role(&mut roles, "my_mmap_msg_producer");
        push_role(&mut roles, "my_mmap_msg_consumer");
        push_role(&mut roles, "my_mmap_sig_producer");
        push_role(&mut roles, "my_mmap_sig_consumer");
        push_role(&mut roles, "my_mmap_multi_sig_producer");
        push_role(&mut roles, "my_mmap_multi_sig_consumer");
        push_role(&mut roles, "my_mmap_multi_msg_producer");
        push_role(&mut roles, "my_mmap_multi_msg_consumer");
        roles
    }
}

/// Wait strategies over shared memory.
#[derive(Clone, Copy, Debug)]
pub struct WaitStrategyShmBench;

impl BenchHarness for WaitStrategyShmBench {
    open spec fn name(&self) -> Seq<char> {
        "wait_strategy_shm"@
    }

    open spec fn roles(&self) -> Seq<Seq<char>> {
        seq![
            "shm_wait_producer"@,
            "shm_wait_consumer"@,
        ]
    }

    fn bench_name(&self) -> (r: &'static str) {
        "wait_strategy_shm"
    }

    fn child_roles(&self) -> (r: Vec<String>) {
        let mut roles: Vec<String> = Vec::new();
        assert(views(roles@) =~= Seq::empty());
        push_role(&mut roles, "shm_wait_producer");
        push_role(&mut roles, "shm_wait_consumer");
        roles
    }
}

/// Wait strategies over memory-mapped files.
#[derive(Clone, Copy, Debug)]
pub struct WaitStrategyMmapBench;

impl BenchHarness for WaitStrategyMmapBench {
    open spec fn name(&self) -> Seq<char> {
        "wait_strategy_mmap"@
    }

    open spec fn roles(&self) -> Seq<Seq<char>> {
        seq![
            "mmap_wait_producer"@,
            "mmap_wait_consumer"@,
        ]
    }

    fn bench_name(&self) -> (r: &'static str) {
        "wait_strategy_mmap"
    }

    fn child_roles(&self) -> (r: Vec<String>) {
        let mut roles: Vec<String> = Vec::new();
        assert(views(roles@) =~= Seq::empty());
        push_role(&mut roles, "mmap_wait_producer");
        push_role(&mut roles, "mmap_wait_consumer");
        roles
    }
}

/// Payloads of all sizes over shared memory.
#[derive(Clone, Copy, Debug)]
pub struct MonsterSweepShm;

impl BenchHarness for MonsterSweepShm {
    open spec fn name(&self) -> Seq<char> {
        "monster_sweep_shm"@
    }

    open spec fn roles(&self) -> Seq<Seq<char>> {
        seq![
            "sig_prod"@,
            "sig_cons"@,
            "prod_64b"@,
            "cons_64b"@,
            "prod_512b"@,
            "cons_512b"@,
            "prod_1k"@,
            "cons_1k"@,
            "prod_4k"@,
            "cons_4k"@,
            "prod_16k"@,
            "cons_16k"@,
            "prod_64k"@,
            "cons_64k"@,
            "prod_256k"@,
            "cons_256k"@,
            "prod_1m"@,
            "cons_1m"@,
        ]
    }

    fn bench_name(&self) -> (r: &'static str) {
        "monster_sweep_shm"
    }

    fn child_roles(&self) -> (r: Vec<String>) {
        let mut roles: Vec<String> = Vec::new();
        assert(views(roles@) =~= Seq::empty());
        push_role(&mut roles, "sig_prod");
        push_role(&mut roles, "sig_cons");
        push_role(&mut roles, "prod_64b");
        push_role(&mut roles, "cons_64b");
        push_role(&mut roles, "prod_512b");
        push_role(&mut roles, "cons_512b");
        push_role(&mut roles, "prod_1k");
        push_role(&mut roles, "cons_1k");
        push_role(&mut roles, "prod_4k");
        push_role(&mut roles, "cons_4k");
        push_role(&mut roles, "prod_16k");
        push_role(&mut roles, "cons_16k");
        push_role(&mut roles, "prod_64k");
        push_role(&mut roles, "cons_64k");
        push_role(&mut roles, "prod_256k");
        push_role(&mut roles, "cons_256k");
        push_role(&mut roles, "prod_1m");
        push_role(&mut roles, "cons_1m");
        roles
    }
}

/// Framed messages over both transports.
#[derive(Clone, Copy, Debug)]
pub struct MyelonFramedSweep;

impl BenchHarness for MyelonFramedSweep {
    open spec fn name(&self) -> Seq<char> {
        "myelon_framed_sweep"@
    }

    open spec fn roles(&self) -> Seq<Seq<char>> {
        seq![
            "shm_frame64_prod"@,
            "shm_frame64_cons"@,
            "shm_frame2k_prod"@,
            "shm_frame2k_cons"@,
            "shm_frame8k_prod"@,
            "shm_frame8k_cons"@,
            "shm_frame32k_prod"@,
            "shm_frame32k_cons"@,
            "shm_frame128k_prod"@,
            "shm_frame128k_cons"@,
            "mmap_frame64_prod"@,
            "mmap_frame64_cons"@,
            "mmap_frame2k_prod"@,
            "mmap_frame2k_cons"@,
            "mmap_frame8k_prod"@,
            "mmap_frame8k_cons"@,
            "mmap_frame32k_prod"@,
            "mmap_frame32k_cons"@,
            "mmap_frame128k_prod"@,
            "mmap_frame128k_cons"@,
        ]
    }

    fn bench_name(&self) -> (r: &'static str) {
        "myelon_framed_sweep"
    }

    fn child_roles(&self) -> (r: Vec<String>) {
        let mut roles: Vec<String> = Vec::new();
        assert(views(roles@) =~= Seq::empty());
        push_role(&mut roles, "shm_frame64_prod");
        push_role(&mut roles, "shm_frame64_cons");
        push_role(&mut roles, "shm_frame2k_prod");
        push_role(&mut roles, "shm_frame2k_cons");
        push_role(&mut roles, "shm_frame8k_prod");
        push_role(&mut roles, "shm_frame8k_cons");
        push_role(&mut roles, "shm_frame32k_prod");
        push_role(&mut roles, "shm_frame32k_cons");
        push_role(&mut roles, "shm_frame128k_prod");
        push_role(&mut roles, "shm_frame128k_cons");
        push_role(&mut roles, "mmap_frame64_prod");
        push_role(&mut roles, "mmap_frame64_cons");
        push_role(&mut roles, "mmap_frame2k_prod");
        push_role(&mut roles, "mmap_frame2k_cons");
        push_role(&mut roles, "mmap_frame8k_prod");
        push_role(&mut roles, "mmap_frame8k_cons");
        push_role(&mut roles, "mmap_frame32k_prod");
        push_role(&mut roles, "mmap_frame32k_cons");
        push_role(&mut roles, "mmap_frame128k_prod");
        push_role(&mut roles, "mmap_frame128k_cons");
        roles
    }
}

/// The layer and the transport of a group of roles.
pub open spec fn nofrag_group(group: int) -> Seq<char> {
    if group == 0 {
        "raw_shm"@
    } else if group == 1 {
        "raw_mmap"@
    } else if group == 2 {
        "rkyv_shm"@
    } else if group == 3 {
        "fb_shm"@
    } else if group == 4 {
        "rkyv_mmap"@
    } else {
        "fb_mmap"@
    }
}

/// The slot size of a role: codecs take twice the payload.
pub open spec fn nofrag_size(group: int, size: int) -> Seq<char> {
    if group < 2 {
        if size == 0 {
            "1k"@
        } else if size == 1 {
            "4k"@
        } else if size == 2 {
            "16k"@
        } else {
            "64k"@
        }
    } else {
        if size == 0 {
            "2k"@
        } else if size == 1 {
            "8k"@
        } else if size == 2 {
            "32k"@
        } else {
            "128k"@
        }
    }
}

/// The role at a position: six groups of four sizes, with a producer and a
/// consumer each.
pub open spec fn nofrag_role(index: int) -> Seq<char> {
    nofrag_group(index / 8) + (if index % 2 == 0 {
        "_prod_"@
    } else {
        "_cons_"@
    }) + nofrag_size(index / 8, index / 2 % 4)
}

/// Messages that fit a slot, in all layers and over both transports.
#[derive(Clone, Copy, Debug)]
pub struct NofragAllBench;

impl BenchHarness for NofragAllBench {
    open spec fn name(&self) -> Seq<char> {
        "nofrag_all"@
    }

    open spec fn roles(&self) -> Seq<Seq<char>> {
        Seq::new(48, |index: int| nofrag_role(index))
    }

    fn bench_name(&self) -> (r: &'static str) {
        "nofrag_all"
    }

    fn child_roles(&self) -> (r: Vec<String>) {
        let mut roles: Vec<String> = Vec::new();
        assert(views(roles@) =~= Seq::new(0, |index: int| nofrag_role(index)));
        for index in 0..48usize
            invariant
                views(roles@) == Seq::new(index as nat, |index: int| nofrag_role(index)),
        {
            let group: usize = index / 8;
            let size: usize = index / 2 % 4;
            let mut role: String = match group {
                0 => "raw_shm".to_owned(),
                1 => "raw_mmap".to_owned(),
                2 => "rkyv_shm".to_owned(),
                3 => "fb_shm".to_owned(),
                4 => "rkyv_mmap".to_owned(),
                _ => "fb_mmap".to_owned(),
            };
            if index % 2 == 0 {
                role.append("_prod_");
            } else {
                role.append("_cons_");
            }
            if group < 2 {
                match size {
                    0 => role.append("1k"),
                    1 => role.append("4k"),
                    2 => role.append("16k"),
                    _ => role.append("64k"),
                }
            } else {
                match size {
                    0 => role.append("2k"),
                    1 => role.append("8k"),
                    2 => role.append("32k"),
                    _ => role.append("128k"),
                }
            }
            assert(role@ == nofrag_role(index as int));
            push_role(&mut roles, role.as_str());
            assert(views(roles@) =~= Seq::new(
                (index + 1) as nat,
                |index: int| nofrag_role(index),
            ));
        }
        roles
    }
}

/// Typed messages that are read in place, over both transports.
#[derive(Clone, Copy, Debug)]
pub struct TypedZeroCopySweep;

impl BenchHarness for TypedZeroCopySweep {
    open spec fn name(&self) -> Seq<char> {
        "typed_zero_copy_sweep"@
    }

    open spec fn roles(&self) -> Seq<Seq<char>> {
        seq![
            "typed_zc_shm_prod"@,
            "typed_zc_shm_cons"@,
            "typed_zc_mmap_prod"@,
            "typed_zc_mmap_cons"@,
        ]
    }

    fn bench_name(&self) -> (r: &'static str) {
        "typed_zero_copy_sweep"
    }

    fn child_roles(&self) -> (r: Vec<String>) {
        let mut roles: Vec<String> = Vec::new();
        assert(views(roles@) =~= Seq::empty());
        push_role(&mut roles, "typed_zc_shm_prod");
        push_role(&mut roles, "typed_zc_shm_cons");
        push_role(&mut roles, "typed_zc_mmap_prod");
        push_role(&mut roles, "typed_zc_mmap_cons");
        roles
    }
}

/// Codecs on messages that fit a slot, over shared memory.
#[derive(Clone, Copy, Debug)]
pub struct CodecNoFragShmBench;

impl BenchHarness for CodecNoFragShmBench {
    open spec fn name(&self) -> Seq<char> {
        "codec_nofrag_shm"@
    }

    open spec fn roles(&self) -> Seq<Seq<char>> {
        seq![
            "nf_prod_8k"@,
            "nf_cons_8k"@,
            "nf_prod_64k"@,
            "nf_cons_64k"@,
            "nf_prod_256k"@,
            "nf_cons_256k"@,
        ]
    }

    fn bench_name(&self) -> (r: &'static str) {
        "codec_nofrag_shm"
    }

    fn child_roles(&self) -> (r: Vec<String>) {
        let mut roles: Vec<String> = Vec::new();
        assert(views(roles@) =~= Seq::empty());
        push_role(&mut roles, "nf_prod_8k");
        push_role(&mut roles, "nf_cons_8k");
        push_role(&mut roles, "nf_prod_64k");
        push_role(&mut roles, "nf_cons_64k");
        push_role(&mut roles, "nf_prod_256k");
        push_role(&mut roles, "nf_cons_256k");
        roles
    }
}

/// Typed messages that go back and forth over shared memory.
#[derive(Clone, Copy, Debug)]
pub struct PingPongTypedZeroCopyShmBench;

impl BenchHarness for PingPongTypedZeroCopyShmBench {
    open spec fn name(&self) -> Seq<char> {
        "pingpong_typed_zero_copy_shm"@
    }

    open spec fn roles(&self) -> Seq<Seq<char>> {
        seq![
            "pingpong_typed_zero_copy_shm_echo"@,
            "pingpong_typed_zero_copy_shm_initiator"@,
        ]
    }

    fn bench_name(&self) -> (r: &'static str) {
        "pingpong_typed_zero_copy_shm"
    }

    fn child_roles(&self) -> (r: Vec<String>) {
        let mut roles: Vec<String> = Vec::new();
        assert(views(roles@) =~= Seq::empty());
        push_role(&mut roles, "pingpong_typed_zero_copy_shm_echo");
        push_role(&mut roles, "pingpong_typed_zero_copy_shm_initiator");
        roles
    }
}

/// The roles that the scenarios of the raw ring above memory-mapped files ask
/// for are roles that their benchmark's children can take.
pub proof fn law_myelon_roles_are_offered(
    bench: RawMyelonMmapBench,
    kind: RawRingScenarioKind,
    many: bool,
)
    ensures
        bench.roles().contains(myelon_roles(kind, many).0),
        bench.roles().contains(myelon_roles(kind, many).1),
{
    let roles = bench.roles();
    assert(roles[0] == "my_mmap_msg_producer"@);
    assert(roles[1] == "my_mmap_msg_consumer"@);
    assert(roles[2] == "my_mmap_sig_producer"@);
    assert(roles[3] == "my_mmap_sig_consumer"@);
    assert(roles[4] == "my_mmap_multi_sig_producer"@);
    assert(roles[5] == "my_mmap_multi_sig_consumer"@);
    assert(roles[6] == "my_mmap_multi_msg_producer"@);
    assert(roles[7] == "my_mmap_multi_msg_consumer"@);
}

/// The roles that the codec scenarios ask for are roles that their benchmark's
/// children can take.
pub proof fn law_codec_roles_are_offered(bench: CodecNoFragShmBench, batch_size: usize)
    requires
        is_supported_batch(batch_size),
    ensures
        bench.roles().contains(nofrag_producer_role(batch_size)),
        bench.roles().contains(nofrag_consumer_role(batch_size)),
{
    let roles = bench.roles();
    assert(roles[0] == "nf_prod_8k"@);
    assert(roles[1] == "nf_cons_8k"@);
    assert(roles[2] == "nf_prod_64k"@);
    assert(roles[3] == "nf_cons_64k"@);
    assert(roles[4] == "nf_prod_256k"@);
    assert(roles[5] == "nf_cons_256k"@);
}

} // verus!
