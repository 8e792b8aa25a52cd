//! Ping-pong over a ring in each direction: who is pinged next, when, and what
//! an echo proves.
use vstd::prelude::*;
use crate::decimal::{decimal, decimal_text};
use crate::latency::{with_latency, LatencyRecorder};
use crate::launch::{env_views, push_env, push_number, EnvVar};
use crate::text::{option_str_view, same_text};

verus! {

/// There is a ring for messages of so many bytes.
pub open spec fn is_supported_size(bytes: nat) -> bool {
    bytes == 32
        || bytes == 64
        || bytes == 128
        || bytes == 512
        || bytes == 1024
        || bytes == 2048
        || bytes == 4096
        || bytes == 16384
        || bytes == 32768
        || bytes == 65536
        || bytes == 131072
        || bytes == 524288
        || bytes == 1048576
        || bytes == 2097152
        || bytes == 8388608
        || bytes == 16777216
        || bytes == 33554432
        || bytes == 67108864
}

/// Whether there is a ring for messages of so many bytes.
pub fn supports_size(bytes: usize) -> (r: bool)
    ensures
        r == is_supported_size(bytes as nat),
{
    bytes == 32
        || bytes == 64
        || bytes == 128
        || bytes == 512
        || bytes == 1024
        || bytes == 2048
        || bytes == 4096
        || bytes == 16384
        || bytes == 32768
        || bytes == 65536
        || bytes == 131072
        || bytes == 524288
        || bytes == 1048576
        || bytes == 2097152
        || bytes == 8388608
        || bytes == 16777216
        || bytes == 33554432
        || bytes == 67108864
}

/// The error for a message size that there is no ring for.
pub fn check_message_size(bytes: usize) -> (r: Result<(), String>)
    ensures
        match r {
            Ok(_) => is_supported_size(bytes as nat),
            Err(message) => !is_supported_size(bytes as nat) && message@
                == "unsupported message size: "@ + decimal_text(bytes as nat)
                + " (expected 32, 64, 128, 512, 1024, 2048, 4096, 16384, 32768, 65536, 131072, 524288, 1048576, 2097152, 8388608, 16777216, 33554432, 67108864)"@,
        },
{
    if supports_size(bytes) {
        return Ok(());
    }
    let mut message: String = "unsupported message size: ".to_owned();
    message.append(decimal(bytes as u64).as_str());
    message.append(
        " (expected 32, 64, 128, 512, 1024, 2048, 4096, 16384, 32768, 65536, 131072, 524288, 1048576, 2097152, 8388608, 16777216, 33554432, 67108864)",
    );
    Err(message)
}

/// The error of an echo process for a message size that there is no ring for.
pub fn check_child_message_size(bytes: usize) -> (r: Result<(), String>)
    ensures
        match r {
            Ok(_) => is_supported_size(bytes as nat),
            Err(message) => !is_supported_size(bytes as nat) && message@
                == "unsupported child message size: "@ + decimal_text(bytes as nat),
        },
{
    if supports_size(bytes) {
        return Ok(());
    }
    let mut message: String = "unsupported child message size: ".to_owned();
    message.append(decimal(bytes as u64).as_str());
    Err(message)
}

/// The name of a lane's segment: of the way there, of the way back, or of the
/// coordination, by its prefix.
pub fn lane_segment(prefix: &str, lane: usize) -> (r: String)
    ensures
        r@ == prefix@ + decimal_text(lane as nat),
{
    let mut out: String = prefix.to_owned();
    out.append(decimal(lane as u64).as_str());
    out
}

/// A message that was sent and whose echo is awaited.
#[derive(Clone, Copy, Debug, PartialEq, Eq, Structural)]
pub struct PendingPing {
    pub lane: usize,
    pub sequence: u64,
}

/// A stretch of messages sent over some lanes in turn.
#[derive(Clone, Copy, Debug, PartialEq, Eq, Structural)]
pub struct PingRun {
    pub lane_count: usize,
    pub first_sequence: u64,
    pub total: u64,
    pub done: u64,
}

/// The lane of the message at `index`: lanes take turns.
pub open spec fn lane_of(index: nat, lane_count: nat) -> nat {
    index % lane_count
}

/// The messages at `from` up to `to` of a stretch.
pub open spec fn pings_between(
    first_sequence: nat,
    lane_count: nat,
    from: nat,
    to: nat,
) -> Seq<PendingPing> {
    Seq::new(
        (to - from) as nat,
        |k: int|
            PendingPing {
                lane: lane_of((from + k) as nat, lane_count) as usize,
                sequence: (first_sequence + from + k) as u64,
            },
    )
}

impl PingRun {
    /// There are lanes, and every message has a sequence number.
    pub open spec fn well_formed(&self) -> bool {
        &&& self.lane_count > 0
        &&& self.done <= self.total
        &&& self.first_sequence + self.total <= u64::MAX
        &&& self.total + self.lane_count <= usize::MAX
    }

    /// How many messages the next round sends: one for each lane, or as many
    /// as are left.
    pub open spec fn round_len(&self) -> nat {
        if self.total - self.done <= self.lane_count {
            (self.total - self.done) as nat
        } else {
            self.lane_count as nat
        }
    }

    /// A stretch of which nothing is sent.
    pub fn new(lane_count: usize, first_sequence: u64, total: u64) -> (r: PingRun)
        requires
            lane_count > 0,
            first_sequence + total <= u64::MAX,
            total + lane_count <= usize::MAX,
        ensures
            r.well_formed(),
            r == (PingRun { lane_count, first_sequence, total, done: 0 }),
    {
        PingRun { lane_count, first_sequence, total, done: 0 }
    }

    /// The messages of a batch of the given length at the current place.
    fn batch(&self, len: usize) -> (r: Vec<PendingPing>)
        requires
            self.well_formed(),
            len <= self.total - self.done,
        ensures
            r@ == pings_between(
                self.first_sequence as nat,
                self.lane_count as nat,
                self.done as nat,
                self.done as nat + len as nat,
            ),
    {
        let ghost all = pings_between(
            self.first_sequence as nat,
            self.lane_count as nat,
            self.done as nat,
            self.done as nat + len as nat,
        );
        let mut pending: Vec<PendingPing> = Vec::new();
        for offset in 0..len
            invariant
                self.well_formed(),
                len <= self.total - self.done,
                all == pings_between(
                    self.first_sequence as nat,
                    self.lane_count as nat,
                    self.done as nat,
                    self.done as nat + len as nat,
                ),
                pending@ == all.take(offset as int),
        {
            let place: usize = self.done as usize + offset;
            pending.push(
                PendingPing {
                    lane: place % self.lane_count,
                    sequence: self.first_sequence + self.done + offset as u64,
                },
            );
            assert(pending@ =~= all.take(offset + 1));
        }
        assert(all.take(len as int) =~= all);
        pending
    }

    /// Sends the next round: the messages whose echoes are then awaited.
    pub fn next_round(&mut self) -> (r: Vec<PendingPing>)
        requires
            old(self).well_formed(),
        ensures
            final(self).well_formed(),
            *final(self) == (PingRun {
                done: (old(self).done + old(self).round_len()) as u64,
                ..*old(self)
            }),
            r@ == pings_between(
                old(self).first_sequence as nat,
                old(self).lane_count as nat,
                old(self).done as nat,
                final(self).done as nat,
            ),
    {
        let left: u64 = self.total - self.done;
        let len: usize = if left <= self.lane_count as u64 {
            left as usize
        } else {
            self.lane_count
        };
        let pending = self.batch(len);
        self.done = self.done + len as u64;
        pending
    }

    /// Sends the next batch of at most so many messages.
    pub fn next_batch(&mut self, batch_size: usize) -> (r: Vec<PendingPing>)
        requires
            old(self).well_formed(),
        ensures
            final(self).well_formed(),
            *final(self) == (PingRun {
                done: if old(self).total - old(self).done <= batch_size {
                    old(self).total
                } else {
                    (old(self).done + batch_size) as u64
                },
                ..*old(self)
            }),
            r@ == pings_between(
                old(self).first_sequence as nat,
                old(self).lane_count as nat,
                old(self).done as nat,
                final(self).done as nat,
            ),
    {
        let left: u64 = self.total - self.done;
        let len: usize = if left <= batch_size as u64 {
            left as usize
        } else {
            batch_size
        };
        let pending = self.batch(len);
        self.done = self.done + len as u64;
        pending
    }

    /// Whether every message is sent.
    pub fn is_finished(&self) -> (r: bool)
        requires
            self.well_formed(),
        ensures
            r == (self.done == self.total),
    {
        self.done == self.total
    }
}

/// Rounds follow one another without a gap: what was sent and what is sent
/// next make up what is sent in all.
pub proof fn law_rounds_join_up(first: nat, lanes: nat, from: nat, mid: nat, to: nat)
    requires
        from <= mid <= to,
    ensures
        pings_between(first, lanes, from, mid) + pings_between(first, lanes, mid, to)
            == pings_between(first, lanes, from, to),
{
    assert(pings_between(first, lanes, from, mid) + pings_between(first, lanes, mid, to)
        =~= pings_between(first, lanes, from, to));
}

/// Within a round every message has a lane of its own.
pub proof fn law_round_uses_each_lane_once(
    first: nat,
    lanes: nat,
    from: nat,
    to: nat,
    i: int,
    j: int,
)
    requires
        lanes > 0,
        lanes <= usize::MAX,
        from <= to,
        to - from <= lanes,
        0 <= i < j < to - from,
    ensures
        pings_between(first, lanes, from, to)[i].lane != pings_between(
            first,
            lanes,
            from,
            to,
        )[j].lane,
{
    let a = from + i;
    let b = from + j;
    let n = lanes as int;
    assert(a % n != b % n) by (nonlinear_arith)
        requires
            0 <= a < b,
            0 < b - a < n,
    ;
    assert(0 <= a % n < n) by (nonlinear_arith)
        requires
            n > 0,
            a >= 0,
    ;
    assert(0 <= b % n < n) by (nonlinear_arith)
        requires
            n > 0,
            b >= 0,
    ;
}

/// How the messages of a run are paced.
#[derive(Clone, Copy, Debug, PartialEq, Eq, Structural)]
pub enum PingPongMode {
    FixedRate { target_rate: u64 },
    BatchTiming,
    Throughput,
}

/// The mode that the arguments ask for: a target rate comes first.
pub fn pingpong_mode(target_rate: Option<u64>, batch_timing: bool) -> (r: PingPongMode)
    ensures
        r == match target_rate {
            Some(rate) => PingPongMode::FixedRate { target_rate: rate },
            None => if batch_timing {
                PingPongMode::BatchTiming
            } else {
                PingPongMode::Throughput
            },
        },
{
    match target_rate {
        Some(rate) => PingPongMode::FixedRate { target_rate: rate },
        None => if batch_timing {
            PingPongMode::BatchTiming
        } else {
            PingPongMode::Throughput
        },
    }
}

/// The pace of a fixed-rate run: the time at which the next batch is due,
/// counted from the start of the run.
#[derive(Clone, Copy, Debug, PartialEq, Eq, Structural)]
pub struct FixedRate {
    pub interval_ns: u64,
    pub next_send_ns: u64,
}

impl FixedRate {
    /// The pace at a target rate, the first batch being due at once.
    pub fn new(target_rate: u64) -> (r: FixedRate)
        requires
            target_rate > 0,
        ensures
            r.interval_ns == 1_000_000_000int / target_rate as int,
            r.next_send_ns == 0,
    {
        FixedRate { interval_ns: 1_000_000_000 / target_rate, next_send_ns: 0 }
    }

    /// Whether the next batch is due.
    pub fn is_due(&self, now_ns: u64) -> (r: bool)
        ensures
            r == (now_ns >= self.next_send_ns),
    {
        now_ns >= self.next_send_ns
    }

    /// Goes on after a batch of so many messages, and says when they were due.
    pub fn advance(&mut self, batch_len: u32) -> (intended_ns: u64)
        requires
            old(self).next_send_ns + old(self).interval_ns * batch_len <= u64::MAX,
        ensures
            intended_ns == old(self).next_send_ns,
            final(self).interval_ns == old(self).interval_ns,
            final(self).next_send_ns == old(self).next_send_ns + old(self).interval_ns * batch_len,
    {
        let intended_ns: u64 = self.next_send_ns;
        assert(self.interval_ns * batch_len <= u64::MAX);
        self.next_send_ns = intended_ns + self.interval_ns * batch_len as u64;
        intended_ns
    }
}

/// The time at which the batch after the given ones is due.
pub open spec fn due_after(interval_ns: nat, batches: Seq<u32>) -> nat
    decreases batches.len(),
{
    if batches.len() == 0 {
        0
    } else {
        due_after(interval_ns, batches.drop_last()) + interval_ns * batches.last() as nat
    }
}

/// How many messages the batches hold.
pub open spec fn sent_in(batches: Seq<u32>) -> nat
    decreases batches.len(),
{
    if batches.len() == 0 {
        0
    } else {
        sent_in(batches.drop_last()) + batches.last() as nat
    }
}

/// A batch is due one interval after the start for each message before it,
/// however those were cut into batches.
pub proof fn law_pace_ignores_batches(interval_ns: nat, batches: Seq<u32>)
    ensures
        due_after(interval_ns, batches) == interval_ns * sent_in(batches),
    decreases batches.len(),
{
    if batches.len() == 0 {
        assert(interval_ns * 0 == 0) by (nonlinear_arith);
    } else {
        law_pace_ignores_batches(interval_ns, batches.drop_last());
        let before = sent_in(batches.drop_last());
        let last = batches.last() as nat;
        assert(interval_ns * before + interval_ns * last == interval_ns * (before + last))
            by (nonlinear_arith);
    }
}

/// The time from `from_ns` to `now_ns`, and no less than zero.
pub open spec fn time_since(now_ns: u64, from_ns: u64) -> u64 {
    if now_ns >= from_ns {
        (now_ns - from_ns) as u64
    } else {
        0
    }
}

/// Records the echo of a fixed-rate message: the time since it was sent, and
/// the time since it was due, which counts what a stall held back.
pub fn record_fixed_rate_echo(
    actual: &mut LatencyRecorder,
    corrected: &mut LatencyRecorder,
    now_ns: u64,
    timestamp_ns: u64,
    intended_ns: u64,
)
    requires
        old(actual).well_formed(),
        old(corrected).well_formed(),
    ensures
        final(actual).well_formed(),
        final(actual).limit() == old(actual).limit(),
        final(corrected).well_formed(),
        final(corrected).limit() == old(corrected).limit(),
        final(actual).recorded() == with_latency(
            old(actual).recorded(),
            time_since(now_ns, timestamp_ns),
            old(actual).limit(),
        ),
        final(corrected).recorded() == with_latency(
            old(corrected).recorded(),
            time_since(now_ns, intended_ns),
            old(corrected).limit(),
        ),
{
    actual.record(now_ns.saturating_sub(timestamp_ns));
    corrected.record(now_ns.saturating_sub(intended_ns));
}

/// A message that was sent late is charged from when it was due.
pub proof fn law_correction_never_hides_delay(now_ns: u64, timestamp_ns: u64, intended_ns: u64)
    requires
        intended_ns <= timestamp_ns,
    ensures
        time_since(now_ns, intended_ns) >= time_since(now_ns, timestamp_ns),
{
}

/// What to do while a reply is awaited.
#[derive(Clone, Copy, Debug, PartialEq, Eq, Structural)]
pub enum AwaitStep {
    /// Take the reply.
    Take,
    /// Give up: the run was called off.
    Stopped,
    /// See that the deadline has not passed, and wait.
    Wait,
}

/// What to do while a reply is awaited: one that has arrived is taken, whether
/// or not the run was called off.
pub fn await_step(received: bool, stop_requested: bool) -> (r: AwaitStep)
    ensures
        r == if received {
            AwaitStep::Take
        } else if stop_requested {
            AwaitStep::Stopped
        } else {
            AwaitStep::Wait
        },
{
    if received {
        AwaitStep::Take
    } else if stop_requested {
        AwaitStep::Stopped
    } else {
        AwaitStep::Wait
    }
}

/// The word for what the check of the replies came to.
pub fn verification_word(passed: bool) -> (r: &'static str)
    ensures
        r@ == if passed {
            "PASSED"@
        } else {
            "FAILED"@
        },
{
    if passed {
        "PASSED"
    } else {
        "FAILED"
    }
}

/// What an echo process does next.
#[derive(Clone, Copy, Debug, PartialEq, Eq, Structural)]
pub enum EchoAction {
    /// Send the message back.
    Echo,
    /// Look at the deadline, wait a little, look again.
    Wait,
    /// End.
    Stop,
}

/// What an echo process does next: it ends once the run is over, or once it is
/// asked to and nothing is left to echo.
pub fn echo_step(run_over: bool, received: bool, stop_requested: bool) -> (r: EchoAction)
    ensures
        r == if run_over || (!received && stop_requested) {
            EchoAction::Stop
        } else if received {
            EchoAction::Echo
        } else {
            EchoAction::Wait
        },
{
    if run_over {
        EchoAction::Stop
    } else if received {
        EchoAction::Echo
    } else if stop_requested {
        EchoAction::Stop
    } else {
        EchoAction::Wait
    }
}

/// What an echo process is started with.
#[derive(Clone, Debug)]
pub struct EchoSettings {
    pub ping_segment: String,
    pub pong_segment: String,
    pub coordination_segment: String,
    pub message_size: usize,
    pub buffer_size: usize,
    pub wait_strategy: String,
    pub json_mode: bool,
    pub enable_counters: bool,
}

impl EchoSettings {
    /// The environment of the echo process.
    pub open spec fn envs(&self) -> Seq<(Seq<char>, Seq<char>)> {
        let base = seq![
            ("PING_SEGMENT"@, self.ping_segment@),
            ("PONG_SEGMENT"@, self.pong_segment@),
            ("COORDINATION_SEGMENT"@, self.coordination_segment@),
            ("MESSAGE_SIZE"@, decimal_text(self.message_size as nat)),
            ("BUFFER_SIZE"@, decimal_text(self.buffer_size as nat)),
            ("WAIT_STRATEGY"@, self.wait_strategy@),
        ];
        let quiet = if self.json_mode {
            base.push(("JSON_MODE"@, "1"@))
        } else {
            base
        };
        if self.enable_counters {
            quiet.push(("PERF_BENCH_PINGPONG_COUNTERS"@, "1"@))
        } else {
            quiet
        }
    }

    /// The environment of the echo process.
    pub fn spawn_envs(&self) -> (r: Vec<EnvVar>)
        ensures
            env_views(r@) == self.envs(),
    {
        let mut envs: Vec<EnvVar> = Vec::new();
        assert(env_views(envs@) =~= Seq::empty());
        push_env(&mut envs, "PING_SEGMENT", self.ping_segment.clone());
        push_env(&mut envs, "PONG_SEGMENT", self.pong_segment.clone());
        push_env(&mut envs, "COORDINATION_SEGMENT", self.coordination_segment.clone());
        push_number(&mut envs, "MESSAGE_SIZE", self.message_size as u64);
        push_number(&mut envs, "BUFFER_SIZE", self.buffer_size as u64);
        push_env(&mut envs, "WAIT_STRATEGY", self.wait_strategy.clone());
        if self.json_mode {
            push_env(&mut envs, "JSON_MODE", "1".to_owned());
        }
        if self.enable_counters {
            push_env(&mut envs, "PERF_BENCH_PINGPONG_COUNTERS", "1".to_owned());
        }
        envs
    }
}

/// Whether an echo process keeps counters, by the value of its variable.
pub fn child_counters_enabled(value: Option<&str>) -> (r: bool)
    ensures
        r == (option_str_view(value) == Some("1"@)),
{
    match value {
        Some(text) => same_text(text, "1"),
        None => false,
    }
}

/// What is printed of other libraries' figures.
#[derive(Clone, Copy, Debug, PartialEq, Eq, Structural)]
pub enum ComparisonNote {
    Nothing,
    Speedups,
    NoHistogram,
    NoMultiConsumerData,
}

/// What is printed of other libraries' figures: nothing where it is not
/// wanted; the speedups for a single consumer at full speed, where latency was
/// measured.
pub fn comparison_note(
    no_compare: bool,
    batch_timing: bool,
    has_target_rate: bool,
    consumers: usize,
    has_latency: bool,
) -> (r: ComparisonNote)
    ensures
        r == if no_compare {
            ComparisonNote::Nothing
        } else if !batch_timing && !has_target_rate && consumers == 1 {
            if has_latency {
                ComparisonNote::Speedups
            } else {
                ComparisonNote::NoHistogram
            }
        } else if consumers > 1 {
            ComparisonNote::NoMultiConsumerData
        } else {
            ComparisonNote::Nothing
        },
{
    if no_compare {
        ComparisonNote::Nothing
    } else if !batch_timing && !has_target_rate && consumers == 1 {
        if has_latency {
            ComparisonNote::Speedups
        } else {
            ComparisonNote::NoHistogram
        }
    } else if consumers > 1 {
        ComparisonNote::NoMultiConsumerData
    } else {
        ComparisonNote::Nothing
    }
}

/// Lanes take turns: the first message goes over the first lane, each further
/// one over the next, and after the last lane comes the first again.
pub proof fn law_lanes_take_turns(index: nat, lane_count: nat)
    requires
        lane_count > 0,
    ensures
        lane_of(0, lane_count) == 0,
        lane_of(index, lane_count) < lane_count,
        lane_of(index, lane_count) + 1 < lane_count ==> lane_of(index + 1, lane_count) == lane_of(
            index,
            lane_count,
        ) + 1,
        lane_of(index, lane_count) + 1 == lane_count ==> lane_of(index + 1, lane_count) == 0,
{
    let n = lane_count as int;
    let next = index as int + 1;
    let q = index as int / n;
    let r = index as int % n;
    vstd::arithmetic::div_mod::lemma_fundamental_div_mod(index as int, n);
    assert(0 <= r < n);
    if r + 1 < n {
        assert(index + 1 == q * n + (r + 1)) by (nonlinear_arith)
            requires
                index == n * q + r,
        ;
        vstd::arithmetic::div_mod::lemma_fundamental_div_mod_converse(next, n, q, r + 1);
    } else {
        assert(index + 1 == (q + 1) * n + 0) by (nonlinear_arith)
            requires
                index == n * q + r,
                r + 1 == n,
        ;
        vstd::arithmetic::div_mod::lemma_fundamental_div_mod_converse(next, n, q + 1, 0);
    }
    vstd::arithmetic::div_mod::lemma_small_mod(0, lane_count);
}

/// The messages of a stretch are numbered one after the other from the first
/// sequence number, and each goes over the lane whose turn it is.
pub proof fn law_pings_are_numbered_in_order(
    first: nat,
    lanes: nat,
    from: nat,
    to: nat,
    k: int,
)
    requires
        0 < lanes <= usize::MAX,
        0 <= k < to - from,
        first + to <= u64::MAX,
    ensures
        pings_between(first, lanes, from, to).len() == to - from,
        pings_between(first, lanes, from, to)[k].sequence == first + from + k,
        pings_between(first, lanes, from, to)[k].lane == (from + k) % (lanes as int),
{
    law_lanes_take_turns((from + k) as nat, lanes);
}

/// A round sends one message over each lane while there are as many left, and
/// what is left otherwise.
pub proof fn law_round_is_as_long_as_it_can_be(run: PingRun)
    requires
        run.well_formed(),
    ensures
        run.round_len() <= run.lane_count,
        run.done + run.round_len() <= run.total,
        run.round_len() == run.lane_count || run.done + run.round_len() == run.total,
        run.done < run.total ==> run.round_len() > 0,
{
}

/// The time since a moment is what has passed; nothing where it has not come.
pub proof fn law_time_since_is_what_passed(now_ns: u64, from_ns: u64)
    ensures
        now_ns >= from_ns ==> from_ns + time_since(now_ns, from_ns) == now_ns,
        now_ns <= from_ns ==> time_since(now_ns, from_ns) == 0,
{
}

} // verus!
