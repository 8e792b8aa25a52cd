//! Published latencies of other libraries, to compare with. They were measured
//! once, elsewhere, and are labelled as such.
use vstd::prelude::*;
use crate::decimal::{decimal, decimal_text};
use crate::metric::Metric;

verus! {

/// The median latencies of a library, in microseconds, by message size.
pub struct CompetitorData {
    pub name: &'static str,
    pub commit: &'static str,
    pub latencies: Vec<(usize, Metric)>,
}

/// The latency listed first for a message size.
pub open spec fn listed_latency(latencies: Seq<(usize, Metric)>, message_size: usize) -> Option<
    Metric,
>
    decreases latencies.len(),
{
    if latencies.len() == 0 {
        None
    } else if latencies[0].0 == message_size {
        Some(latencies[0].1)
    } else {
        listed_latency(latencies.skip(1), message_size)
    }
}

impl CompetitorData {
    /// The median latency for a message size, where it is known.
    pub fn p50_us(&self, message_size: usize) -> (r: Option<Metric>)
        ensures
            r == listed_latency(self.latencies@, message_size),
    {
        assert(self.latencies@.skip(0) =~= self.latencies@);
        for i in 0..self.latencies.len()
            invariant
                listed_latency(self.latencies@, message_size) == listed_latency(
                    self.latencies@.skip(i as int),
                    message_size,
                ),
        {
            let (size, latency) = self.latencies[i];
            if size == message_size {
                return Some(latency);
            }
            assert(self.latencies@.skip(i as int).skip(1) =~= self.latencies@.skip(i + 1));
        }
        None
    }
}

/// A line that compares with a library: what the comparison comes to, where
/// there is something to compare with.
pub fn format_comparison(
    message_size: usize,
    competitor: &CompetitorData,
    speedup: &str,
) -> (r: String)
    ensures
        r@ == if listed_latency(competitor.latencies@, message_size) is Some {
            "vs "@ + competitor.name@ + " [reference, static, commit "@ + competitor.commit@ + "]: "@
                + speedup@
        } else {
            "vs "@ + competitor.name@ + ": no data for "@ + decimal_text(message_size as nat) + "B"@
        },
{
    let mut line: String = "vs ".to_owned();
    line.append(competitor.name);
    if competitor.p50_us(message_size).is_some() {
        line.append(" [reference, static, commit ");
        line.append(competitor.commit);
        line.append("]: ");
        line.append(speedup);
    } else {
        line.append(": no data for ");
        line.append(decimal(message_size as u64).as_str());
        line.append("B");
    }
    line
}

/// The latencies of shmipc-rs.
pub open spec fn shmipc_rs_latencies() -> Seq<(usize, Metric)> {
    seq![
        (64usize, Metric { bits: 0x3ff1_0e56_0418_9375 }),
        (512usize, Metric { bits: 0x3ff0_353f_7ced_9168 }),
        (1024usize, Metric { bits: 0x3ff0_d0e5_6041_8937 }),
        (4096usize, Metric { bits: 0x3ff0_49ba_5e35_3f7d }),
        (16384usize, Metric { bits: 0x3ff3_9db2_2d0e_5604 }),
        (32768usize, Metric { bits: 0x3ff2_f1a9_fbe7_6c8b }),
        (65536usize, Metric { bits: 0x3ff4_1062_4dd2_f1aa }),
        (262144usize, Metric { bits: 0x3ff2_ac08_3126_e979 }),
        (524288usize, Metric { bits: 0x3ff4_28f5_c28f_5c29 }),
        (1048576usize, Metric { bits: 0x4003_1893_74bc_6a7f }),
        (4194304usize, Metric { bits: 0x4013_45a1_cac0_8312 }),
    ]
}

/// The latencies of shmipc-rs.
pub fn shmipc_rs() -> (r: CompetitorData)
    ensures
        r.name@ == "shmipc-rs"@,
        r.commit@ == "2f22b071"@,
        r.latencies@ == shmipc_rs_latencies(),
{
    let mut latencies: Vec<(usize, Metric)> = Vec::new();
    assert(latencies@ =~= Seq::empty());
    // 1.066
    latencies.push((64, Metric { bits: 0x3ff1_0e56_0418_9375 }));
    // 1.013
    latencies.push((512, Metric { bits: 0x3ff0_353f_7ced_9168 }));
    // 1.051
    latencies.push((1024, Metric { bits: 0x3ff0_d0e5_6041_8937 }));
    // 1.018
    latencies.push((4096, Metric { bits: 0x3ff0_49ba_5e35_3f7d }));
    // 1.226
    latencies.push((16384, Metric { bits: 0x3ff3_9db2_2d0e_5604 }));
    // 1.184
    latencies.push((32768, Metric { bits: 0x3ff2_f1a9_fbe7_6c8b }));
    // 1.254
    latencies.push((65536, Metric { bits: 0x3ff4_1062_4dd2_f1aa }));
    // 1.167
    latencies.push((262144, Metric { bits: 0x3ff2_ac08_3126_e979 }));
    // 1.260
    latencies.push((524288, Metric { bits: 0x3ff4_28f5_c28f_5c29 }));
    // 2.387
    latencies.push((1048576, Metric { bits: 0x4003_1893_74bc_6a7f }));
    // 4.818
    latencies.push((4194304, Metric { bits: 0x4013_45a1_cac0_8312 }));
    CompetitorData { name: "shmipc-rs", commit: "2f22b071", latencies }
}

/// The latencies of shmipc-go.
pub open spec fn shmipc_go_latencies() -> Seq<(usize, Metric)> {
    seq![
        (64usize, Metric { bits: 0x3fff_851e_b851_eb85 }),
        (512usize, Metric { bits: 0x3fff_d70a_3d70_a3d7 }),
        (1024usize, Metric { bits: 0x4000_5c28_f5c2_8f5c }),
        (4096usize, Metric { bits: 0x4000_8106_24dd_2f1b }),
        (16384usize, Metric { bits: 0x3fff_ef9d_b22d_0e56 }),
        (32768usize, Metric { bits: 0x3ffe_fdf3_b645_a1cb }),
        (65536usize, Metric { bits: 0x3fff_eb85_1eb8_51ec }),
        (262144usize, Metric { bits: 0x3ffc_b020_c49b_a5e3 }),
        (524288usize, Metric { bits: 0x3fff_e353_f7ce_d917 }),
        (1048576usize, Metric { bits: 0x3ffd_f7ce_d916_872b }),
        (4194304usize, Metric { bits: 0x3ffe_4189_374b_c6a8 }),
    ]
}

/// The latencies of shmipc-go.
pub fn shmipc_go() -> (r: CompetitorData)
    ensures
        r.name@ == "shmipc-go"@,
        r.commit@ == "a5e0aefb"@,
        r.latencies@ == shmipc_go_latencies(),
{
    let mut latencies: Vec<(usize, Metric)> = Vec::new();
    assert(latencies@ =~= Seq::empty());
    // 1.970
    latencies.push((64, Metric { bits: 0x3fff_851e_b851_eb85 }));
    // 1.990
    latencies.push((512, Metric { bits: 0x3fff_d70a_3d70_a3d7 }));
    // 2.045
    latencies.push((1024, Metric { bits: 0x4000_5c28_f5c2_8f5c }));
    // 2.063
    latencies.push((4096, Metric { bits: 0x4000_8106_24dd_2f1b }));
    // 1.996
    latencies.push((16384, Metric { bits: 0x3fff_ef9d_b22d_0e56 }));
    // 1.937
    latencies.push((32768, Metric { bits: 0x3ffe_fdf3_b645_a1cb }));
    // 1.995
    latencies.push((65536, Metric { bits: 0x3fff_eb85_1eb8_51ec }));
    // 1.793
    latencies.push((262144, Metric { bits: 0x3ffc_b020_c49b_a5e3 }));
    // 1.993
    latencies.push((524288, Metric { bits: 0x3fff_e353_f7ce_d917 }));
    // 1.873
    latencies.push((1048576, Metric { bits: 0x3ffd_f7ce_d916_872b }));
    // 1.891
    latencies.push((4194304, Metric { bits: 0x3ffe_4189_374b_c6a8 }));
    CompetitorData { name: "shmipc-go", commit: "a5e0aefb", latencies }
}

/// The latency of a message size is that of the first entry of the size; there is
/// none where no entry has it.
pub proof fn law_first_listed_latency_counts(
    latencies: Seq<(usize, Metric)>,
    message_size: usize,
)
    ensures
        listed_latency(latencies, message_size) is None <==> forall|i: int|
            0 <= i < latencies.len() ==> (#[trigger] latencies[i]).0 != message_size,
        forall|i: int|
            #![trigger latencies[i]]
            0 <= i < latencies.len() && latencies[i].0 == message_size && (forall|j: int|
                0 <= j < i ==> (#[trigger] latencies[j]).0 != message_size) ==> listed_latency(
                latencies,
                message_size,
            ) == Some(latencies[i].1),
    decreases latencies.len(),
{
    if latencies.len() > 0 && latencies[0].0 != message_size {
        let rest = latencies.skip(1);
        law_first_listed_latency_counts(rest, message_size);
        if listed_latency(rest, message_size) is None {
            assert forall|i: int| 0 <= i < latencies.len() implies (#[trigger] latencies[i]).0
                != message_size by {
                if i > 0 {
                    assert(rest[i - 1].0 != message_size);
                }
            }
        }
        if forall|i: int| 0 <= i < latencies.len() ==> (#[trigger] latencies[i]).0 != message_size {
            assert forall|i: int| 0 <= i < rest.len() implies (#[trigger] rest[i]).0
                != message_size by {
                assert(latencies[i + 1].0 != message_size);
            }
        }
        assert forall|i: int|
            #![trigger latencies[i]]
            0 <= i < latencies.len() && latencies[i].0 == message_size && (forall|j: int|
                0 <= j < i ==> (#[trigger] latencies[j]).0 != message_size) implies listed_latency(
            latencies,
            message_size,
        ) == Some(latencies[i].1) by {
            assert(i > 0);
            assert(rest[i - 1] == latencies[i]);
            assert forall|j: int| 0 <= j < i - 1 implies (#[trigger] rest[j]).0
                != message_size by {
                assert(latencies[j + 1].0 != message_size);
            }
        }
    }
}

/// A latency that is the double nearest to so many thousandths, from one to
/// eight: its significand, of fifty-three bits, counts units that double with the
/// exponent.
pub open spec fn is_nearest_to_thousandths(latency: Option<Metric>, thousandths: int) -> bool {
    &&& latency is Some
    &&& {
        let bits = latency->0.bits as int;
        let significand = bits % 0x10_0000_0000_0000 + 0x10_0000_0000_0000;
        let exponent = bits / 0x10_0000_0000_0000;
        let unit: int = if exponent == 0x3ff {
            1
        } else if exponent == 0x400 {
            2
        } else {
            4
        };
        &&& 0x3ff <= exponent <= 0x401
        &&& 2 * (significand * unit * 1000 - thousandths * 0x10_0000_0000_0000) <= 1000 * unit
        &&& 2 * (thousandths * 0x10_0000_0000_0000 - significand * unit * 1000) <= 1000 * unit
    }
}

/// The latencies of shmipc-rs are those published for it, in thousandths of a
/// microsecond.
pub proof fn law_latencies_of_shmipc_rs()
    ensures
        is_nearest_to_thousandths(listed_latency(shmipc_rs_latencies(), 64), 1_066),
        is_nearest_to_thousandths(listed_latency(shmipc_rs_latencies(), 512), 1_013),
        is_nearest_to_thousandths(listed_latency(shmipc_rs_latencies(), 1024), 1_051),
        is_nearest_to_thousandths(listed_latency(shmipc_rs_latencies(), 4096), 1_018),
        is_nearest_to_thousandths(listed_latency(shmipc_rs_latencies(), 16384), 1_226),
        is_nearest_to_thousandths(listed_latency(shmipc_rs_latencies(), 32768), 1_184),
        is_nearest_to_thousandths(listed_latency(shmipc_rs_latencies(), 65536), 1_254),
        is_nearest_to_thousandths(listed_latency(shmipc_rs_latencies(), 262144), 1_167),
        is_nearest_to_thousandths(listed_latency(shmipc_rs_latencies(), 524288), 1_260),
        is_nearest_to_thousandths(listed_latency(shmipc_rs_latencies(), 1048576), 2_387),
        is_nearest_to_thousandths(listed_latency(shmipc_rs_latencies(), 4194304), 4_818),
{
    reveal_with_fuel(listed_latency, 12);
}

/// The latencies of shmipc-go are those published for it, in thousandths of a
/// microsecond.
pub proof fn law_latencies_of_shmipc_go()
    ensures
        is_nearest_to_thousandths(listed_latency(shmipc_go_latencies(), 64), 1_970),
        is_nearest_to_thousandths(listed_latency(shmipc_go_latencies(), 512), 1_990),
        is_nearest_to_thousandths(listed_latency(shmipc_go_latencies(), 1024), 2_045),
        is_nearest_to_thousandths(listed_latency(shmipc_go_latencies(), 4096), 2_063),
        is_nearest_to_thousandths(listed_latency(shmipc_go_latencies(), 16384), 1_996),
        is_nearest_to_thousandths(listed_latency(shmipc_go_latencies(), 32768), 1_937),
        is_nearest_to_thousandths(listed_latency(shmipc_go_latencies(), 65536), 1_995),
        is_nearest_to_thousandths(listed_latency(shmipc_go_latencies(), 262144), 1_793),
        is_nearest_to_thousandths(listed_latency(shmipc_go_latencies(), 524288), 1_993),
        is_nearest_to_thousandths(listed_latency(shmipc_go_latencies(), 1048576), 1_873),
        is_nearest_to_thousandths(listed_latency(shmipc_go_latencies(), 4194304), 1_891),
{
    reveal_with_fuel(listed_latency, 12);
}

} // verus!
