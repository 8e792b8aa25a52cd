//! Latency of signal events: how a send stamp travels, and what it comes to.
use vstd::multiset::Multiset;
use vstd::prelude::*;
use crate::decimal::{parse_u64, parsed_number};
use crate::double::{
    law_scaled_integer_fits, law_scaling_is_close, least_significand, scale_integer, scaled_integer,
};
use crate::latency::{
    clamped, figures_in_order, level_of, stats_of, with_latency, LatencyRecorder, LatencyStats,
};
use crate::text::{
    contains_text, has_prefix, has_suffix, occurs_at, option_str_view, same_text,
};

verus! {

/// An event of the signal class.
#[derive(Clone, Copy, Debug, PartialEq, Eq, Structural)]
pub struct SignalEvent {
    pub sequence: u64,
    pub data: u64,
    pub stamp: u64,
}

impl Default for SignalEvent {
    /// All zero.
    fn default() -> (r: SignalEvent)
        ensures
            r == (SignalEvent { sequence: 0, data: 0, stamp: 0 }),
    {
        SignalEvent { sequence: 0, data: 0, stamp: 0 }
    }
}

/// Where send stamps come from, how they travel, and when they are evaluated.
#[derive(Debug, Clone, Copy, PartialEq, Eq, Structural)]
pub enum SignalLatencyMode {
    Disabled,
    InlineMonoRawNs,
    InlineRdtsc,
    SidecarMonoRawNs,
    SidecarRdtsc,
    InlineMonoRawNsOffline,
    InlineRdtscOffline,
    SidecarMonoRawNsOffline,
    SidecarRdtscOffline,
}

/// The clock that a stamp is read from.
#[derive(Debug, Clone, Copy, PartialEq, Eq, Structural)]
pub enum StampSource {
    Nothing,
    MonotonicRaw,
    TimestampCounter,
}

/// The name of a mode.
pub open spec fn mode_text(mode: SignalLatencyMode) -> Seq<char> {
    match mode {
        SignalLatencyMode::Disabled => "none"@,
        SignalLatencyMode::InlineMonoRawNs => "inline-ns"@,
        SignalLatencyMode::InlineRdtsc => "inline-tsc"@,
        SignalLatencyMode::SidecarMonoRawNs => "sidecar-ns"@,
        SignalLatencyMode::SidecarRdtsc => "sidecar-tsc"@,
        SignalLatencyMode::InlineMonoRawNsOffline => "inline-ns-offline"@,
        SignalLatencyMode::InlineRdtscOffline => "inline-tsc-offline"@,
        SignalLatencyMode::SidecarMonoRawNsOffline => "sidecar-ns-offline"@,
        SignalLatencyMode::SidecarRdtscOffline => "sidecar-tsc-offline"@,
    }
}

/// `text` names a mode.
pub open spec fn is_mode_name(text: Seq<char>) -> bool {
    exists|mode: SignalLatencyMode| #[trigger] mode_text(mode) == text
}

/// The message for a name that is no mode's.
pub open spec fn unsupported_mode_text(name: Seq<char>) -> Seq<char> {
    "unsupported signal latency mode: "@ + name
        + " (expected one of: none, inline-ns, inline-tsc, sidecar-ns, sidecar-tsc, inline-ns-offline, inline-tsc-offline, sidecar-ns-offline, sidecar-tsc-offline)"@
}

impl SignalLatencyMode {
    /// Stamps travel within the events.
    pub open spec fn spec_is_inline(self) -> bool {
        self == SignalLatencyMode::InlineMonoRawNs
            || self == SignalLatencyMode::InlineRdtsc
            || self == SignalLatencyMode::InlineMonoRawNsOffline
            || self == SignalLatencyMode::InlineRdtscOffline
    }

    /// Stamps travel beside the events.
    pub open spec fn spec_uses_sidecar(self) -> bool {
        self == SignalLatencyMode::SidecarMonoRawNs
            || self == SignalLatencyMode::SidecarRdtsc
            || self == SignalLatencyMode::SidecarMonoRawNsOffline
            || self == SignalLatencyMode::SidecarRdtscOffline
    }

    /// Stamps are ticks of the timestamp counter.
    pub open spec fn spec_uses_rdtsc(self) -> bool {
        self == SignalLatencyMode::InlineRdtsc
            || self == SignalLatencyMode::SidecarRdtsc
            || self == SignalLatencyMode::InlineRdtscOffline
            || self == SignalLatencyMode::SidecarRdtscOffline
    }

    /// Deltas are kept and evaluated after the run.
    pub open spec fn spec_uses_offline_samples(self) -> bool {
        self == SignalLatencyMode::InlineMonoRawNsOffline
            || self == SignalLatencyMode::InlineRdtscOffline
            || self == SignalLatencyMode::SidecarMonoRawNsOffline
            || self == SignalLatencyMode::SidecarRdtscOffline
    }

    /// The mode that suits the machine.
    pub fn canonical(has_timestamp_counter: bool) -> (r: SignalLatencyMode)
        ensures
            r == if has_timestamp_counter {
                SignalLatencyMode::InlineRdtscOffline
            } else {
                SignalLatencyMode::InlineMonoRawNsOffline
            },
    {
        if has_timestamp_counter {
            SignalLatencyMode::InlineRdtscOffline
        } else {
            SignalLatencyMode::InlineMonoRawNsOffline
        }
    }

    /// Reads a mode from its name.
    pub fn parse(value: &str) -> (r: Result<SignalLatencyMode, String>)
        ensures
            match r {
                Ok(mode) => mode_text(mode) == value@,
                Err(message) => !is_mode_name(value@) && message@ == unsupported_mode_text(value@),
            },
    {
        if same_text(value, "none") {
            return Ok(SignalLatencyMode::Disabled);
        }
        if same_text(value, "inline-ns") {
            return Ok(SignalLatencyMode::InlineMonoRawNs);
        }
        if same_text(value, "inline-tsc") {
            return Ok(SignalLatencyMode::InlineRdtsc);
        }
        if same_text(value, "sidecar-ns") {
            return Ok(SignalLatencyMode::SidecarMonoRawNs);
        }
        if same_text(value, "sidecar-tsc") {
            return Ok(SignalLatencyMode::SidecarRdtsc);
        }
        if same_text(value, "inline-ns-offline") {
            return Ok(SignalLatencyMode::InlineMonoRawNsOffline);
        }
        if same_text(value, "inline-tsc-offline") {
            return Ok(SignalLatencyMode::InlineRdtscOffline);
        }
        if same_text(value, "sidecar-ns-offline") {
            return Ok(SignalLatencyMode::SidecarMonoRawNsOffline);
        }
        if same_text(value, "sidecar-tsc-offline") {
            return Ok(SignalLatencyMode::SidecarRdtscOffline);
        }
        let mut message: String = "unsupported signal latency mode: ".to_owned();
        message.append(value);
        message.append(
            " (expected one of: none, inline-ns, inline-tsc, sidecar-ns, sidecar-tsc, inline-ns-offline, inline-tsc-offline, sidecar-ns-offline, sidecar-tsc-offline)",
        );
        Err(message)
    }

    /// Reads a mode from the value of its variable; none where it is not set.
    pub fn from_env(value: Option<&str>) -> (r: Result<SignalLatencyMode, String>)
        ensures
            match option_str_view(value) {
                Some(text) => match r {
                    Ok(mode) => mode_text(mode) == text,
                    Err(message) => !is_mode_name(text) && message@ == unsupported_mode_text(text),
                },
                None => r == Ok::<SignalLatencyMode, String>(SignalLatencyMode::Disabled),
            },
    {
        match value {
            Some(text) => SignalLatencyMode::parse(text),
            None => Ok(SignalLatencyMode::Disabled),
        }
    }

    /// The name of the mode.
    pub fn as_str(self) -> (r: &'static str)
        ensures
            r@ == mode_text(self),
    {
        match self {
            SignalLatencyMode::Disabled => "none",
            SignalLatencyMode::InlineMonoRawNs => "inline-ns",
            SignalLatencyMode::InlineRdtsc => "inline-tsc",
            SignalLatencyMode::SidecarMonoRawNs => "sidecar-ns",
            SignalLatencyMode::SidecarRdtsc => "sidecar-tsc",
            SignalLatencyMode::InlineMonoRawNsOffline => "inline-ns-offline",
            SignalLatencyMode::InlineRdtscOffline => "inline-tsc-offline",
            SignalLatencyMode::SidecarMonoRawNsOffline => "sidecar-ns-offline",
            SignalLatencyMode::SidecarRdtscOffline => "sidecar-tsc-offline",
        }
    }

    /// Whether latency is measured.
    pub fn records_latency(self) -> (r: bool)
        ensures
            r == (self != SignalLatencyMode::Disabled),
    {
        !matches!(self, SignalLatencyMode::Disabled)
    }

    /// Whether stamps travel beside the events.
    pub fn uses_sidecar(self) -> (r: bool)
        ensures
            r == self.spec_uses_sidecar(),
    {
        matches!(
            self,
            SignalLatencyMode::SidecarMonoRawNs
                | SignalLatencyMode::SidecarRdtsc
                | SignalLatencyMode::SidecarMonoRawNsOffline
                | SignalLatencyMode::SidecarRdtscOffline
        )
    }

    /// Whether stamps are ticks of the timestamp counter.
    pub fn uses_rdtsc(self) -> (r: bool)
        ensures
            r == self.spec_uses_rdtsc(),
    {
        matches!(
            self,
            SignalLatencyMode::InlineRdtsc
                | SignalLatencyMode::SidecarRdtsc
                | SignalLatencyMode::InlineRdtscOffline
                | SignalLatencyMode::SidecarRdtscOffline
        )
    }

    /// Whether stamps travel within the events.
    pub fn is_inline(self) -> (r: bool)
        ensures
            r == self.spec_is_inline(),
    {
        matches!(
            self,
            SignalLatencyMode::InlineMonoRawNs
                | SignalLatencyMode::InlineRdtsc
                | SignalLatencyMode::InlineMonoRawNsOffline
                | SignalLatencyMode::InlineRdtscOffline
        )
    }

    /// Whether deltas are kept and evaluated after the run.
    pub fn uses_offline_samples(self) -> (r: bool)
        ensures
            r == self.spec_uses_offline_samples(),
    {
        matches!(
            self,
            SignalLatencyMode::InlineMonoRawNsOffline
                | SignalLatencyMode::InlineRdtscOffline
                | SignalLatencyMode::SidecarMonoRawNsOffline
                | SignalLatencyMode::SidecarRdtscOffline
        )
    }

    /// The clock that stamps are read from.
    pub fn stamp_source(self) -> (r: StampSource)
        ensures
            r == if self == SignalLatencyMode::Disabled {
                StampSource::Nothing
            } else if self.spec_uses_rdtsc() {
                StampSource::TimestampCounter
            } else {
                StampSource::MonotonicRaw
            },
    {
        if !self.records_latency() {
            StampSource::Nothing
        } else if self.uses_rdtsc() {
            StampSource::TimestampCounter
        } else {
            StampSource::MonotonicRaw
        }
    }
}

/// Different modes have different names.
pub proof fn law_mode_reads_back(mode: SignalLatencyMode, read: SignalLatencyMode)
    requires
        mode_text(mode) == mode_text(read),
    ensures
        mode == read,
{
    reveal_strlit("none");
    reveal_strlit("inline-ns");
    reveal_strlit("inline-tsc");
    reveal_strlit("sidecar-ns");
    reveal_strlit("sidecar-tsc");
    reveal_strlit("inline-ns-offline");
    reveal_strlit("inline-tsc-offline");
    reveal_strlit("sidecar-ns-offline");
    reveal_strlit("sidecar-tsc-offline");
    assert("none"@.len() == 4);
    assert("inline-ns"@.len() == 9);
    assert("inline-tsc"@.len() == 10);
    assert("sidecar-ns"@.len() == 10);
    assert("sidecar-tsc"@.len() == 11);
    assert("inline-ns-offline"@.len() == 17);
    assert("inline-tsc-offline"@.len() == 18);
    assert("sidecar-ns-offline"@.len() == 18);
    assert("sidecar-tsc-offline"@.len() == 19);
    assert("inline-tsc"@[0] != "sidecar-ns"@[0]);
    assert("inline-tsc-offline"@[0] != "sidecar-ns-offline"@[0]);
}

/// A mode that measures latency sends its stamps within the events or beside
/// them, one of the two; another mode sends none, uses no counter and keeps no
/// samples.
pub proof fn law_stamps_travel_one_way(mode: SignalLatencyMode)
    ensures
        mode != SignalLatencyMode::Disabled ==> mode.spec_is_inline() != mode.spec_uses_sidecar(),
        mode == SignalLatencyMode::Disabled ==> !mode.spec_is_inline() && !mode.spec_uses_sidecar()
            && !mode.spec_uses_rdtsc() && !mode.spec_uses_offline_samples(),
{
}

/// The stride of sampling: what its variable states, where that is positive;
/// one otherwise.
pub fn sample_every_from_env(value: Option<&str>) -> (r: u64)
    ensures
        r >= 1,
        match option_str_view(value) {
            Some(text) => match parsed_number(text, u64::MAX as nat) {
                Some(n) => r == if n > 0 {
                    n
                } else {
                    1
                },
                None => r == 1,
            },
            None => r == 1,
        },
{
    match value {
        Some(text) => match parse_u64(text) {
            Some(n) => if n > 0 {
                n
            } else {
                1
            },
            None => 1,
        },
        None => 1,
    }
}

/// The event of the given sequence number is sampled.
pub open spec fn is_sampled(sequence: nat, sample_every: nat) -> bool {
    sample_every <= 1 || sequence % sample_every == 0
}

/// Whether the event of the given sequence number is sampled.
pub fn should_sample(sequence: u64, sample_every: u64) -> (r: bool)
    ensures
        r == is_sampled(sequence as nat, sample_every as nat),
{
    sample_every <= 1 || sequence % sample_every == 0
}

/// A product that stops at the greatest 64-bit number.
pub open spec fn saturating_product(a: nat, b: nat) -> nat {
    if a * b <= u64::MAX {
        a * b
    } else {
        u64::MAX as nat
    }
}

/// A sum that stops at the greatest 64-bit number.
pub open spec fn saturating_sum(a: nat, b: nat) -> nat {
    if a + b <= u64::MAX {
        a + b
    } else {
        u64::MAX as nat
    }
}

/// A product that stops at the greatest 64-bit number.
pub fn saturating_times(a: u64, b: u64) -> (r: u64)
    ensures
        r == saturating_product(a as nat, b as nat),
{
    match a.checked_mul(b) {
        Some(product) => product,
        None => u64::MAX,
    }
}

/// A clock reading in nanoseconds; zero where the clock could not be read.
pub fn monotonic_raw_ns(read: bool, seconds: u64, nanos: u64) -> (r: u64)
    ensures
        r == if read {
            saturating_sum(saturating_product(seconds as nat, 1_000_000_000), nanos as nat)
        } else {
            0
        },
{
    if !read {
        return 0;
    }
    saturating_times(seconds, 1_000_000_000).saturating_add(nanos)
}

/// The stamp that a mode takes from the clocks: of the timestamp counter zero
/// where there is none.
pub fn read_stamp(mode: SignalLatencyMode, monotonic_ns: u64, ticks: Option<u64>) -> (r: u64)
    ensures
        r == if mode == SignalLatencyMode::Disabled {
            0
        } else if mode.spec_uses_rdtsc() {
            match ticks {
                Some(count) => count,
                None => 0,
            }
        } else {
            monotonic_ns
        },
{
    match mode.stamp_source() {
        StampSource::Nothing => 0,
        StampSource::MonotonicRaw => monotonic_ns,
        StampSource::TimestampCounter => match ticks {
            Some(count) => count,
            None => 0,
        },
    }
}

/// The length of a tick of the timestamp counter: so many nanoseconds in so
/// many ticks.
#[derive(Debug, Clone, Copy)]
pub struct TscCalibration {
    pub ns_delta: u64,
    pub tick_delta: u64,
}

impl TscCalibration {
    /// Some time and some ticks have passed.
    pub open spec fn well_formed(&self) -> bool {
        self.ns_delta > 0 && self.tick_delta > 0
    }

    /// The time until which a calibration that began at `start_ns` waits:
    /// twenty milliseconds.
    pub fn deadline(start_ns: u64) -> (r: u64)
        ensures
            r == saturating_sum(start_ns as nat, 20_000_000),
    {
        start_ns.saturating_add(20_000_000)
    }

    /// The calibration from two readings of both clocks; none where one of
    /// them stood still.
    pub fn calibrate(start_tick: u64, start_ns: u64, end_tick: u64, end_ns: u64) -> (r: Option<
        TscCalibration,
    >)
        ensures
            match r {
                Some(c) => {
                    &&& c.well_formed()
                    &&& c.tick_delta == end_tick - start_tick
                    &&& c.ns_delta == end_ns - start_ns
                },
                None => end_tick <= start_tick || end_ns <= start_ns,
            },
    {
        let tick_delta: u64 = end_tick.saturating_sub(start_tick);
        let ns_delta: u64 = end_ns.saturating_sub(start_ns);
        if tick_delta == 0 || ns_delta == 0 {
            return None;
        }
        Some(TscCalibration { ns_delta, tick_delta })
    }

    /// The nanoseconds from one tick to a later one, in double arithmetic and
    /// rounded.
    pub fn delta_to_ns(&self, send_tick: u64, recv_tick: u64) -> (r: u64)
        requires
            self.well_formed(),
        ensures
            r == scaled_integer(
                if recv_tick >= send_tick {
                    (recv_tick - send_tick) as nat
                } else {
                    0
                },
                self.ns_delta as nat,
                self.tick_delta as nat,
            ),
    {
        let ticks: u64 = recv_tick.saturating_sub(send_tick);
        scale_integer(ticks, self.ns_delta, self.tick_delta)
    }
}

/// The bytes that a sidecar of so many stamps takes.
pub fn sidecar_bytes(slots: usize) -> (r: Result<usize, String>)
    ensures
        match r {
            Ok(bytes) => bytes == slots * 8,
            Err(message) => slots * 8 > usize::MAX && message@ == "sidecar size overflow"@,
        },
{
    match slots.checked_mul(8) {
        Some(bytes) => Ok(bytes),
        None => Err("sidecar size overflow".to_owned()),
    }
}

/// The slot of a sidecar that holds the stamp of an event.
pub open spec fn sidecar_slot(sequence: u64, slots: usize) -> int {
    (sequence as usize) as int % slots as int
}

/// The slot of a sidecar that holds the stamp of an event.
pub fn sidecar_index(sequence: u64, slots: usize) -> (r: usize)
    requires
        slots > 0,
    ensures
        r == sidecar_slot(sequence, slots),
        r < slots,
{
    #[verifier::truncate]
    let position: usize = sequence as usize;
    position % slots
}

/// As many events as a sidecar has slots, one after the other, have slots of
/// their own.
pub proof fn law_recent_stamps_do_not_collide(a: u64, b: u64, slots: usize)
    requires
        slots > 0,
        a < b,
        b <= usize::MAX,
        b - a < slots,
    ensures
        sidecar_slot(a, slots) != sidecar_slot(b, slots),
{
    let s = slots as int;
    let x = a as int;
    let y = b as int;
    assert(x % s != y % s) by (nonlinear_arith)
        requires
            0 <= x < y,
            0 < y - x < s,
    ;
}

/// Stamps kept beside the events: a ring of slots, in which the stamp of an
/// event stands in the slot of its sequence.
pub trait TimestampSidecar {
    /// What the slots hold.
    spec fn slots(&self) -> Seq<u64>;

    /// There is a slot, and a length that fits.
    spec fn well_formed(&self) -> bool;

    /// Keeps the stamp of an event, in place of what its slot held.
    fn store(&mut self, sequence: u64, value: u64)
        requires
            old(self).well_formed(),
        ensures
            final(self).well_formed(),
            final(self).slots() == stamped_slots(old(self).slots(), sequence, value),
    ;

    /// What stands in the slot of an event.
    fn load(&self, sequence: u64) -> (r: u64)
        requires
            self.well_formed(),
        ensures
            r == stamp_at(self.slots(), sequence),
    ;
}

/// The slots after the stamp of an event was kept.
pub open spec fn stamped_slots(slots: Seq<u64>, sequence: u64, value: u64) -> Seq<u64> {
    slots.update(sidecar_slot(sequence, slots.len() as usize), value)
}

/// The stamp in the slot of an event.
pub open spec fn stamp_at(slots: Seq<u64>, sequence: u64) -> u64 {
    slots[sidecar_slot(sequence, slots.len() as usize)]
}

/// A sidecar in the memory of one process.
pub struct LocalTimestampSidecar {
    pub stamps: Vec<u64>,
}

impl LocalTimestampSidecar {
    /// A sidecar of so many slots, which hold zero.
    pub fn new(slots: usize) -> (r: LocalTimestampSidecar)
        ensures
            r.slots() == Seq::new(slots as nat, |i: int| 0u64),
            r.well_formed() == (slots > 0),
    {
        let sidecar = LocalTimestampSidecar { stamps: vec![0u64; slots] };
        assert(sidecar.stamps@ =~= Seq::new(slots as nat, |i: int| 0u64));
        sidecar
    }
}

impl TimestampSidecar for LocalTimestampSidecar {
    open spec fn slots(&self) -> Seq<u64> {
        self.stamps@
    }

    open spec fn well_formed(&self) -> bool {
        0 < self.stamps@.len() <= usize::MAX
    }

    fn store(&mut self, sequence: u64, value: u64) {
        let index = sidecar_index(sequence, self.stamps.len());
        self.stamps.set(index, value);
    }

    fn load(&self, sequence: u64) -> (r: u64) {
        self.stamps[sidecar_index(sequence, self.stamps.len())]
    }
}

/// The slots after the stamps of so many events, from `first` on, were kept.
pub open spec fn stamped_run(slots: Seq<u64>, first: u64, values: Seq<u64>) -> Seq<u64>
    decreases values.len(),
{
    if values.len() == 0 {
        slots
    } else {
        stamped_slots(
            stamped_run(slots, first, values.drop_last()),
            (first + values.len() - 1) as u64,
            values.last(),
        )
    }
}

/// A stamp reads back as it was kept, whatever stands in the sidecar, until as
/// many events have followed as there are slots.
pub proof fn law_stamp_reads_back(slots: Seq<u64>, first: u64, values: Seq<u64>, k: int)
    requires
        0 < slots.len() <= usize::MAX,
        0 <= k < values.len(),
        values.len() - k <= slots.len(),
        first + values.len() - 1 <= usize::MAX,
        first + values.len() - 1 <= u64::MAX,
    ensures
        stamped_run(slots, first, values).len() == slots.len(),
        stamp_at(stamped_run(slots, first, values), (first + k) as u64) == values[k],
    decreases values.len(),
{
    let before = stamped_run(slots, first, values.drop_last());
    let last = (first + values.len() - 1) as u64;
    lemma_stamped_len(slots, first, values.drop_last());
    if k < values.len() - 1 {
        law_stamp_reads_back(slots, first, values.drop_last(), k);
        law_recent_stamps_do_not_collide((first + k) as u64, last, slots.len() as usize);
    }
}

/// Keeping stamps leaves the number of slots as it was.
proof fn lemma_stamped_len(slots: Seq<u64>, first: u64, values: Seq<u64>)
    requires
        0 < slots.len() <= usize::MAX,
    ensures
        stamped_run(slots, first, values).len() == slots.len(),
    decreases values.len(),
{
    if values.len() > 0 {
        lemma_stamped_len(slots, first, values.drop_last());
    }
}

/// The time between a send and a receive stamp, where both were taken and the
/// second is later.
pub open spec fn delta_of(
    mode: SignalLatencyMode,
    send_stamp: u64,
    recv_stamp: u64,
) -> Option<u64> {
    if send_stamp == 0 || recv_stamp <= send_stamp || mode == SignalLatencyMode::Disabled {
        None
    } else {
        Some((recv_stamp - send_stamp) as u64)
    }
}

/// The time between a send and a receive stamp.
pub fn sampled_delta(mode: SignalLatencyMode, send_stamp: u64, recv_stamp: u64) -> (r: Option<u64>)
    ensures
        r == delta_of(mode, send_stamp, recv_stamp),
{
    if send_stamp == 0 || recv_stamp == 0 || recv_stamp <= send_stamp {
        return None;
    }
    if mode.records_latency() {
        Some(recv_stamp - send_stamp)
    } else {
        None
    }
}

/// What a delta comes to in nanoseconds: itself, or by the calibration where
/// it is in ticks.
pub open spec fn delta_ns(
    mode: SignalLatencyMode,
    tsc: Option<TscCalibration>,
    delta: u64,
) -> Option<u64> {
    if mode.spec_uses_rdtsc() {
        match tsc {
            Some(c) => Some(
                scaled_integer(delta as nat, c.ns_delta as nat, c.tick_delta as nat) as u64,
            ),
            None => None,
        }
    } else {
        Some(delta)
    }
}

/// Records the latency of a received event, where its stamp gives one.
pub fn record_signal_latency(
    recorder: &mut LatencyRecorder,
    mode: SignalLatencyMode,
    send_stamp: u64,
    recv_stamp: u64,
    tsc: &Option<TscCalibration>,
)
    requires
        old(recorder).well_formed(),
        *tsc is Some ==> (*tsc)->0.well_formed(),
    ensures
        final(recorder).well_formed(),
        final(recorder).limit() == old(recorder).limit(),
        match delta_of(mode, send_stamp, recv_stamp) {
            Some(delta) => match delta_ns(mode, *tsc, delta) {
                Some(ns) => final(recorder).recorded() == with_latency(
                    old(recorder).recorded(),
                    ns,
                    old(recorder).limit(),
                ),
                None => final(recorder).recorded() == old(recorder).recorded(),
            },
            None => final(recorder).recorded() == old(recorder).recorded(),
        },
{
    if send_stamp == 0 {
        return;
    }
    if let Some(delta) = sampled_delta(mode, send_stamp, recv_stamp) {
        if mode.uses_rdtsc() {
            if let Some(calibration) = tsc {
                recorder.record(calibration.delta_to_ns(0, delta));
            }
        } else {
            recorder.record(delta);
        }
    }
}

/// Deltas that are kept during a run and evaluated after it.
pub struct OfflineSignalSamples {
    values: Vec<u64>,
    len: usize,
}

/// What a recorder with the given limit holds of the values.
pub open spec fn recorded_values(values: Seq<u64>, limit: u64) -> Multiset<u64>
    decreases values.len(),
{
    if values.len() == 0 {
        Multiset::empty()
    } else {
        recorded_values(values.drop_last(), limit).insert(
            level_of(clamped(values.last(), limit) as nat) as u64,
        )
    }
}

/// Kept deltas are ticks of the timestamp counter.
pub open spec fn keeps_ticks(mode: SignalLatencyMode) -> bool {
    mode.spec_uses_rdtsc() && mode.spec_uses_offline_samples()
}

/// Kept deltas in nanoseconds.
pub open spec fn deltas_ns(
    mode: SignalLatencyMode,
    tsc: Option<TscCalibration>,
    deltas: Seq<u64>,
) -> Seq<u64> {
    if keeps_ticks(mode) {
        Seq::new(deltas.len(), |i: int| delta_ns(mode, tsc, deltas[i])->0)
    } else {
        deltas
    }
}

/// As many values are recorded as there are.
pub proof fn lemma_recorded_len(values: Seq<u64>, limit: u64)
    ensures
        recorded_values(values, limit).len() == values.len(),
    decreases values.len(),
{
    if values.len() > 0 {
        lemma_recorded_len(values.drop_last(), limit);
    }
}

impl OfflineSignalSamples {
    /// There is room for at least one sample, and no more are kept than there
    /// is room for.
    pub closed spec fn well_formed(&self) -> bool {
        self.len <= self.values@.len() && self.values@.len() >= 1
    }

    /// The samples kept.
    pub closed spec fn samples(&self) -> Seq<u64> {
        self.values@.take(self.len as int)
    }

    /// How many samples there is room for.
    pub closed spec fn capacity(&self) -> nat {
        self.values@.len()
    }

    /// No samples yet, and room for `max_samples`, or for one.
    pub fn new(max_samples: usize) -> (r: OfflineSignalSamples)
        ensures
            r.well_formed(),
            r.samples() == Seq::<u64>::empty(),
            r.capacity() == if max_samples >= 1 {
                max_samples as nat
            } else {
                1
            },
    {
        let room: usize = if max_samples >= 1 {
            max_samples
        } else {
            1
        };
        let r = OfflineSignalSamples { values: vec![0u64; room], len: 0 };
        assert(r.samples() =~= Seq::<u64>::empty());
        r
    }

    /// Keeps a sample, unless it is zero or there is no room.
    pub fn record(&mut self, value: u64)
        requires
            old(self).well_formed(),
        ensures
            final(self).well_formed(),
            final(self).capacity() == old(self).capacity(),
            final(self).samples() == if value == 0 || old(self).samples().len() >= old(
                self).capacity() {
                old(self).samples()
            } else {
                old(self).samples().push(value)
            },
    {
        if value == 0 || self.len >= self.values.len() {
            return;
        }
        let ghost before = self.samples();
        self.values.set(self.len, value);
        self.len = self.len + 1;
        assert(self.samples() =~= before.push(value));
    }

    /// The figures of the samples; none where there are none, or where they
    /// are ticks and there is no calibration.
    pub fn into_latency_stats(
        self,
        mode: SignalLatencyMode,
        tsc: &Option<TscCalibration>,
    ) -> (r: Option<LatencyStats>)
        requires
            self.well_formed(),
            *tsc is Some ==> (*tsc)->0.well_formed(),
        ensures
            r is Some <==> self.samples().len() > 0 && (keeps_ticks(mode) ==> *tsc is Some),
            r is Some ==> stats_of(
                recorded_values(deltas_ns(mode, *tsc, self.samples()), 10_000_000_000),
                r->0,
            ),
            r is Some ==> figures_in_order(r->0),
    {
        let ghost deltas = self.samples();
        let ghost all = deltas_ns(mode, *tsc, deltas);
        let mut recorder = LatencyRecorder::default_range();
        assert(recorder.recorded() =~= recorded_values(all.take(0), 10_000_000_000));
        for i in 0..self.len
            invariant
                self.well_formed(),
                recorder.well_formed(),
                recorder.limit() == 10_000_000_000,
                *tsc is Some ==> (*tsc)->0.well_formed(),
                deltas == self.samples(),
                all == deltas_ns(mode, *tsc, deltas),
                recorder.recorded() == recorded_values(all.take(i as int), 10_000_000_000),
                i > 0 && keeps_ticks(mode) ==> *tsc is Some,
        {
            let raw: u64 = self.values[i];
            assert(deltas[i as int] == raw);
            proof {
                lemma_recorded_len(all.take(i as int), 10_000_000_000);
                assert(all.take(i + 1).drop_last() =~= all.take(i as int));
            }
            if mode.uses_rdtsc() && mode.uses_offline_samples() {
                match tsc {
                    Some(calibration) => {
                        recorder.record(calibration.delta_to_ns(0, raw));
                    },
                    None => {
                        return None;
                    },
                }
            } else {
                recorder.record(raw);
            }
        }
        proof {
            assert(all.take(all.len() as int) =~= all);
            lemma_recorded_len(all, 10_000_000_000);
        }
        recorder.stats()
    }
}

/// Keeps the delta of a received event, where its stamp gives one.
pub fn collect_signal_latency_offline(
    samples: &mut OfflineSignalSamples,
    mode: SignalLatencyMode,
    send_stamp: u64,
    recv_stamp: u64,
)
    requires
        old(samples).well_formed(),
    ensures
        final(samples).well_formed(),
        final(samples).capacity() == old(samples).capacity(),
        final(samples).samples() == match delta_of(mode, send_stamp, recv_stamp) {
            Some(delta) => if old(samples).samples().len() < old(samples).capacity() {
                old(samples).samples().push(delta)
            } else {
                old(samples).samples()
            },
            None => old(samples).samples(),
        },
{
    if send_stamp == 0 {
        return;
    }
    if let Some(delta) = sampled_delta(mode, send_stamp, recv_stamp) {
        samples.record(delta);
    }
}

/// The room that the samples of so many events take: their number over the
/// stride, rounded up.
pub open spec fn capacity_for(events: nat, sample_every: nat) -> nat {
    let stride = if sample_every >= 1 {
        sample_every
    } else {
        1
    };
    let count = saturating_sum(events, (stride - 1) as nat) / stride;
    if count <= usize::MAX {
        count
    } else {
        usize::MAX as nat
    }
}

/// The room that the samples of so many events take.
pub fn sample_capacity(events: u64, sample_every: u64) -> (r: usize)
    ensures
        r == capacity_for(events as nat, sample_every as nat),
{
    let stride: u64 = if sample_every >= 1 {
        sample_every
    } else {
        1
    };
    let count: u64 = events.saturating_add(stride - 1) / stride;
    if count <= usize::MAX as u64 {
        count as usize
    } else {
        usize::MAX
    }
}

/// How many of `events` consecutive events from `first` on are sampled.
pub open spec fn sampled_count(first: nat, events: nat, sample_every: nat) -> nat
    decreases events,
{
    if events == 0 {
        0
    } else {
        sampled_count(first, (events - 1) as nat, sample_every) + if is_sampled(
            (first + events - 1) as nat,
            sample_every,
        ) {
            1nat
        } else {
            0nat
        }
    }
}

/// The quotient rounded up.
spec fn rounded_up(n: nat, stride: nat) -> int {
    ((n + stride - 1) as int) / (stride as int)
}

/// One more event raises the rounded quotient where it is sampled.
proof fn lemma_rounded_up_step(n: nat, stride: nat)
    requires
        stride >= 1,
    ensures
        rounded_up(n + 1, stride) == rounded_up(n, stride) + if n % stride == 0 {
            1int
        } else {
            0int
        },
{
    let s = stride as int;
    let q = n as int / s;
    let r = n as int % s;
    vstd::arithmetic::div_mod::lemma_fundamental_div_mod(n as int, s);
    assert((q + 1) * s == s * q + s) by (nonlinear_arith);
    assert(q * s == s * q) by (nonlinear_arith);
    if r == 0 {
        vstd::arithmetic::div_mod::lemma_fundamental_div_mod_converse(n as int + s, s, q + 1, 0);
        vstd::arithmetic::div_mod::lemma_fundamental_div_mod_converse(
            n as int + s - 1,
            s,
            q,
            s - 1,
        );
    } else {
        vstd::arithmetic::div_mod::lemma_fundamental_div_mod_converse(
            n as int + s - 1,
            s,
            q + 1,
            r - 1,
        );
        vstd::arithmetic::div_mod::lemma_fundamental_div_mod_converse(n as int + s, s, q + 1, r);
    }
}

/// Without a stride every event is sampled.
proof fn lemma_all_sampled(first: nat, events: nat)
    ensures
        sampled_count(first, events, 0) == events,
    decreases events,
{
    if events > 0 {
        lemma_all_sampled(first, (events - 1) as nat);
    }
}

/// The number of sampled events in a stretch.
proof fn lemma_sampled_count(first: nat, events: nat, stride: nat)
    requires
        stride >= 1,
    ensures
        sampled_count(first, events, stride) == rounded_up(first + events, stride) - rounded_up(
            first,
            stride,
        ),
    decreases events,
{
    if events > 0 {
        lemma_sampled_count(first, (events - 1) as nat, stride);
        lemma_rounded_up_step((first + events - 1) as nat, stride);
        if stride == 1 {
            assert((first + events - 1) % 1 == 0);
        }
    }
}

/// The room made for the samples of a run suffices, wherever its sequence
/// numbers begin.
pub proof fn law_capacity_suffices(first: nat, events: nat, sample_every: nat)
    requires
        events + sample_every <= u64::MAX + 1,
        events <= u64::MAX,
        sampled_count(0, events, sample_every) <= usize::MAX,
    ensures
        sampled_count(first, events, sample_every) <= capacity_for(events, sample_every),
{
    if sample_every == 0 {
        lemma_all_sampled(first, events);
        lemma_all_sampled(0, events);
        assert(capacity_for(events, 0) == events);
    } else {
        lemma_sampled_count(0, events, sample_every);
        vstd::arithmetic::div_mod::lemma_basic_div(sample_every - 1, sample_every as int);
        let s = sample_every as int;
        lemma_sampled_count(first, events, sample_every);
        let a = (first + s - 1) / s;
        let b = (events + s - 1) / s;
        let total = (first + events + s - 1) / s;
        vstd::arithmetic::div_mod::lemma_fundamental_div_mod(first + s - 1, s);
        vstd::arithmetic::div_mod::lemma_fundamental_div_mod(events + s - 1, s);
        vstd::arithmetic::div_mod::lemma_fundamental_div_mod(first + events + s - 1, s);
        assert(s * (a + b) >= first + events) by (nonlinear_arith)
            requires
                s * a + (first + s - 1) % s == first + s - 1,
                s * b + (events + s - 1) % s == events + s - 1,
                (first + s - 1) % s <= s - 1,
                (events + s - 1) % s <= s - 1,
        ;
        assert(total <= a + b) by (nonlinear_arith)
            requires
                s * total <= first + events + s - 1,
                s * (a + b) >= first + events,
                s >= 1,
        ;
    }
}

/// With a stride the sampled events are those whose sequence number is a multiple
/// of it.
pub proof fn law_samples_are_multiples(sequence: nat, sample_every: nat)
    requires
        sample_every >= 1,
    ensures
        is_sampled(sequence, sample_every) <==> exists|k: nat|
            sequence == #[trigger] (k * sample_every),
{
    if is_sampled(sequence, sample_every) {
        let k = sequence / sample_every;
        assert(sequence == k * sample_every) by (nonlinear_arith)
            requires
                k == sequence / sample_every,
                sample_every >= 1,
                sample_every == 1 || sequence % sample_every == 0,
        ;
    }
    if exists|k: nat| sequence == #[trigger] (k * sample_every) {
        let k = choose|k: nat| sequence == #[trigger] (k * sample_every);
        assert(sequence % sample_every == 0) by (nonlinear_arith)
            requires
                sequence == k * sample_every,
                sample_every >= 1,
        ;
    }
}

/// Of as many consecutive events as the stride is long, exactly one is sampled.
pub proof fn law_one_in_a_stride_is_sampled(first: nat, sample_every: nat)
    requires
        sample_every >= 1,
    ensures
        sampled_count(first, sample_every, sample_every) == 1,
{
    lemma_sampled_count(first, sample_every, sample_every);
    let s = sample_every as int;
    let n = first + s - 1;
    assert((n + s) / s == n / s + 1) by (nonlinear_arith)
        requires
            s >= 1,
    ;
}

/// A delta is what lies between the two stamps. There is none where the send
/// stamp was not taken, the receive stamp is not later, or no latency is
/// measured.
pub proof fn law_delta_lies_between_the_stamps(
    mode: SignalLatencyMode,
    send_stamp: u64,
    recv_stamp: u64,
)
    ensures
        delta_of(mode, send_stamp, recv_stamp) is Some <==> mode != SignalLatencyMode::Disabled && 0
            < send_stamp < recv_stamp,
        delta_of(mode, send_stamp, recv_stamp) is Some ==> send_stamp + delta_of(
            mode,
            send_stamp,
            recv_stamp,
        )->0 == recv_stamp,
{
}

/// A delta of the monotonic clock is its own time; one in ticks has a time only
/// by a calibration, and then the nearest to so many ticks at so many
/// nanoseconds each, but for what doubles may be off.
pub proof fn law_delta_in_ns_follows_the_clock(
    mode: SignalLatencyMode,
    tsc: Option<TscCalibration>,
    delta: u64,
)
    requires
        tsc is Some ==> tsc->0.well_formed(),
    ensures
        !mode.spec_uses_rdtsc() ==> delta_ns(mode, tsc, delta) == Some(delta),
        mode.spec_uses_rdtsc() && tsc is None ==> delta_ns(mode, tsc, delta) is None,
        mode.spec_uses_rdtsc() && tsc is Some ==> delta_ns(mode, tsc, delta) is Some,
        mode.spec_uses_rdtsc() && tsc is Some && delta < 2 * least_significand() && tsc->0.ns_delta
            < 2 * least_significand() && tsc->0.tick_delta < 2 * least_significand() && delta_ns(
            mode,
            tsc,
            delta,
        )->0 < u64::MAX ==> {
            let ns = delta_ns(mode, tsc, delta)->0 as int;
            let ticks = tsc->0.tick_delta as int;
            let exact = delta * tsc->0.ns_delta;
            &&& 2 * least_significand() * (ns * ticks - exact) <= least_significand() * ticks + 4
                * exact
            &&& 2 * least_significand() * (exact - ns * ticks) <= least_significand() * ticks + 4
                * exact
        },
{
    if mode.spec_uses_rdtsc() && tsc is Some && delta < 2 * least_significand()
        && tsc->0.ns_delta < 2 * least_significand() && tsc->0.tick_delta < 2
        * least_significand() {
        law_scaled_integer_fits(
            delta as nat,
            tsc->0.ns_delta as nat,
            tsc->0.tick_delta as nat,
        );
        if delta_ns(mode, tsc, delta)->0 < u64::MAX {
            law_scaling_is_close(
                delta as nat,
                tsc->0.ns_delta as nat,
                tsc->0.tick_delta as nat,
            );
        }
    }
}

/// Deltas that were kept are evaluated one by one: as they are where they are
/// nanoseconds, by the calibration where they are ticks.
pub proof fn law_kept_deltas_are_evaluated_one_by_one(
    mode: SignalLatencyMode,
    tsc: Option<TscCalibration>,
    deltas: Seq<u64>,
)
    ensures
        deltas_ns(mode, tsc, deltas).len() == deltas.len(),
        mode != SignalLatencyMode::InlineRdtscOffline && mode
            != SignalLatencyMode::SidecarRdtscOffline ==> deltas_ns(mode, tsc, deltas) == deltas,
        (mode == SignalLatencyMode::InlineRdtscOffline || mode
            == SignalLatencyMode::SidecarRdtscOffline) && tsc is Some ==> forall|i: int|
            0 <= i < deltas.len() ==> (#[trigger] deltas_ns(mode, tsc, deltas)[i]) as nat
                == scaled_integer(
                deltas[i] as nat,
                tsc->0.ns_delta as nat,
                tsc->0.tick_delta as nat,
            ) as u64,
{
}

/// Two stretches of values are recorded as their joined stretch is, and one value
/// alone at the level of the lesser of it and the limit.
pub proof fn law_every_value_is_recorded(a: Seq<u64>, b: Seq<u64>, value: u64, limit: u64)
    ensures
        recorded_values(a + b, limit) == recorded_values(a, limit).add(recorded_values(b, limit)),
        value <= limit ==> recorded_values(seq![value], limit) == Multiset::singleton(
            level_of(value as nat) as u64,
        ),
        value > limit ==> recorded_values(seq![value], limit) == Multiset::singleton(
            level_of(limit as nat) as u64,
        ),
    decreases b.len(),
{
    let none = Multiset::<u64>::empty();
    assert(seq![value].drop_last() =~= Seq::<u64>::empty());
    assert(recorded_values(Seq::<u64>::empty(), limit) == none);
    assert(recorded_values(seq![value], limit) =~= Multiset::singleton(
        level_of(clamped(value, limit) as nat) as u64,
    ));
    if b.len() == 0 {
        assert(a + b =~= a);
        assert(recorded_values(a, limit).add(none) =~= recorded_values(a, limit));
    } else {
        assert((a + b).drop_last() =~= a + b.drop_last());
        law_every_value_is_recorded(a, b.drop_last(), value, limit);
        assert(recorded_values(a + b, limit) =~= recorded_values(a, limit).add(
            recorded_values(b, limit),
        ));
    }
}

/// What a mode is called says what it does: how its stamps travel, which clock
/// they are from, and when deltas are evaluated.
pub proof fn law_mode_does_what_its_name_says(mode: SignalLatencyMode)
    ensures
        mode.spec_is_inline() <==> has_prefix(mode_text(mode), seq!['i', 'n']),
        mode.spec_uses_sidecar() <==> has_prefix(mode_text(mode), seq!['s', 'i']),
        mode.spec_uses_offline_samples() <==> has_suffix(mode_text(mode), seq!['i', 'n', 'e']),
        mode.spec_uses_rdtsc() <==> contains_text(mode_text(mode), seq!['t', 's', 'c']),
{
    reveal_strlit("none");
    reveal_strlit("inline-ns");
    reveal_strlit("inline-tsc");
    reveal_strlit("sidecar-ns");
    reveal_strlit("sidecar-tsc");
    reveal_strlit("inline-ns-offline");
    reveal_strlit("inline-tsc-offline");
    reveal_strlit("sidecar-ns-offline");
    reveal_strlit("sidecar-tsc-offline");
    let text = mode_text(mode);
    let clock = seq!['t', 's', 'c'];
    if mode.spec_is_inline() {
        assert(text.subrange(0, 2) =~= seq!['i', 'n']);
    } else {
        assert(text[0] != 'i');
        assert(has_prefix(text, seq!['i', 'n']) ==> text.subrange(0, 2)[0] == text[0]);
    }
    if mode.spec_uses_sidecar() {
        assert(text.subrange(0, 2) =~= seq!['s', 'i']);
    } else {
        assert(text[0] != 's');
        assert(has_prefix(text, seq!['s', 'i']) ==> text.subrange(0, 2)[0] == text[0]);
    }
    let end = text.len() as int;
    if mode.spec_uses_offline_samples() {
        assert(text.subrange(end - 3, end) =~= seq!['i', 'n', 'e']);
    } else {
        if has_suffix(text, seq!['i', 'n', 'e']) {
            assert(text.subrange(end - 3, end)[0] == text[end - 3]);
            assert(text.subrange(end - 3, end)[2] == text[end - 1]);
        }
    }
    if mode.spec_uses_rdtsc() {
        let at: int = if mode.spec_is_inline() {
            7
        } else {
            8
        };
        assert(text.subrange(at, at + 3) =~= clock);
        assert(occurs_at(text, clock, at));
    } else if contains_text(text, clock) {
        let at = choose|at: int| #[trigger] occurs_at(text, clock, at);
        assert(text.subrange(at, at + 3)[0] == text[at]);
        assert(text.subrange(at, at + 3)[1] == text[at + 1]);
        assert(false);
    }
}

} // verus!
