//! What the command line of a sweep selects.
use vstd::prelude::*;
use crate::decimal::{
    decimal, decimal_text, is_digit, law_number_reads_back, lemma_decimal_denotes, parse_u64,
    parse_usize, parsed_number,
};
use crate::reporting::{find_arg_value, is_flag_value};
use crate::text::{same_text};

verus! {

/// The transport of a sweep's scenario.
#[derive(Clone, Copy, Debug, PartialEq, Eq, Structural)]
pub enum SweepBackend {
    Shm,
    Mmap,
}

/// The name of a transport.
pub open spec fn backend_slug(backend: SweepBackend) -> Seq<char> {
    match backend {
        SweepBackend::Shm => "shm"@,
        SweepBackend::Mmap => "mmap"@,
    }
}

impl SweepBackend {
    /// The name of the transport.
    pub fn slug(&self) -> (r: &'static str)
        ensures
            r@ == backend_slug(*self),
    {
        match self {
            SweepBackend::Shm => "shm",
            SweepBackend::Mmap => "mmap",
        }
    }
}

/// An argument that is `all`, or names the value.
pub open spec fn selects(argument: Seq<char>, value: Seq<char>) -> bool {
    argument == "all"@ || argument == value
}

/// An argument that is `all`, or states the number.
pub open spec fn selects_number(argument: Seq<char>, value: nat) -> bool {
    argument == "all"@ || parsed_number(argument, usize::MAX as nat) == Some(value)
}

/// Whether an argument is `all`, or names the value.
pub fn matches_value(argument: &str, value: &str) -> (r: bool)
    ensures
        r == selects(argument@, value@),
{
    same_text(argument, "all") || same_text(argument, value)
}

/// Whether an argument is `all`, or states the number.
pub fn matches_number(argument: &str, value: usize) -> (r: bool)
    ensures
        r == selects_number(argument@, value as nat),
{
    same_text(argument, "all") || match parse_usize(argument) {
        Some(n) => n == value,
        None => false,
    }
}

/// `text` is the value of the flag, or the default where the flag has none.
pub open spec fn is_flag_or(
    args: Seq<String>,
    flag: Seq<char>,
    default: Seq<char>,
    text: Seq<char>,
) -> bool {
    ||| is_flag_value(args, flag, Some(text))
    ||| is_flag_value(args, flag, None) && text == default
}

/// The value of a flag, or the default where the flag has none.
pub fn flag_or(args: &[String], flag: &str, default: &str) -> (r: String)
    ensures
        is_flag_or(args@, flag@, default@, r@),
{
    match find_arg_value(args, flag) {
        Some(value) => value,
        None => default.to_owned(),
    }
}

/// `number` is the number that the flag's value states, where it states one.
pub open spec fn is_flag_number(args: Seq<String>, flag: Seq<char>, number: Option<u64>) -> bool {
    match number {
        Some(n) => exists|text: Seq<char>| #[trigger]
            is_flag_value(args, flag, Some(text)) && parsed_number(text, u64::MAX as nat) == Some(
                n as nat,
            ),
        None => is_flag_value(args, flag, None) || exists|text: Seq<char>| #[trigger]
            is_flag_value(args, flag, Some(text)) && parsed_number(text, u64::MAX as nat) is None,
    }
}

/// The number that a flag's value states.
pub fn flag_number(args: &[String], flag: &str) -> (r: Option<u64>)
    ensures
        is_flag_number(args@, flag@, r),
{
    match find_arg_value(args, flag) {
        Some(value) => {
            let number = parse_u64(value.as_str());
            assert(is_flag_value(args@, flag@, Some(value@)));
            number
        },
        None => None,
    }
}

/// What the command line of a sweep selects: `all` where a flag is missing.
#[derive(Clone, Debug)]
pub struct SweepSelection {
    pub backend: String,
    pub layer: String,
    pub codec: String,
    pub size: String,
    pub consumers: String,
    pub mode: String,
    pub target_rate: u64,
    pub num_messages: Option<u64>,
}

impl SweepSelection {
    /// Scenarios at full speed are selected.
    pub open spec fn wants_throughput(&self) -> bool {
        self.mode@ == "throughput"@ || self.mode@ == "all"@
    }

    /// Scenarios at a target rate are selected.
    pub open spec fn wants_rate(&self) -> bool {
        self.mode@ == "co"@ || self.mode@ == "all"@
    }

    /// Scenarios at the given rate, zero meaning full speed, are selected.
    pub open spec fn wants(&self, target_rate: u64) -> bool {
        if target_rate == 0 {
            self.wants_throughput()
        } else {
            self.wants_rate()
        }
    }

    /// The rate of rate-bound scenarios: that of the command line, or else the
    /// default.
    pub open spec fn rate_or(&self, default_rate: u64) -> u64 {
        if self.target_rate > 0 {
            self.target_rate
        } else {
            default_rate
        }
    }

    /// The number of messages: that of the command line, or else the default.
    pub open spec fn events_or(&self, default_events: u64) -> u64 {
        match self.num_messages {
            Some(n) => n,
            None => default_events,
        }
    }

    /// Reads the selection from the command line. Full speed is the default;
    /// `default_mode` says otherwise.
    pub fn parse(args: &[String], default_mode: &str) -> (r: SweepSelection)
        ensures
            is_flag_or(args@, "--backend"@, "all"@, r.backend@),
            is_flag_or(args@, "--layer"@, "all"@, r.layer@),
            is_flag_or(args@, "--codec"@, "all"@, r.codec@),
            is_flag_or(args@, "--size"@, "all"@, r.size@),
            is_flag_or(args@, "--consumers"@, "all"@, r.consumers@),
            is_flag_or(args@, "--mode"@, default_mode@, r.mode@),
            is_flag_number(args@, "--num-messages"@, r.num_messages),
            is_flag_number(args@, "--target-rate"@, Some(r.target_rate)) || (r.target_rate == 0
                && is_flag_number(args@, "--target-rate"@, None)),
    {
        let target_rate: u64 = match flag_number(args, "--target-rate") {
            Some(rate) => rate,
            None => 0,
        };
        SweepSelection {
            backend: flag_or(args, "--backend", "all"),
            layer: flag_or(args, "--layer", "all"),
            codec: flag_or(args, "--codec", "all"),
            size: flag_or(args, "--size", "all"),
            consumers: flag_or(args, "--consumers", "all"),
            mode: flag_or(args, "--mode", default_mode),
            target_rate,
            num_messages: flag_number(args, "--num-messages"),
        }
    }

    /// Whether scenarios at the given rate are selected.
    pub fn selects_rate(&self, target_rate: u64) -> (r: bool)
        ensures
            r == self.wants(target_rate),
    {
        if target_rate == 0 {
            same_text(self.mode.as_str(), "throughput") || same_text(self.mode.as_str(), "all")
        } else {
            same_text(self.mode.as_str(), "co") || same_text(self.mode.as_str(), "all")
        }
    }

    /// The rate of rate-bound scenarios.
    pub fn co_rate(&self, default_rate: u64) -> (r: u64)
        ensures
            r == self.rate_or(default_rate),
    {
        if self.target_rate > 0 {
            self.target_rate
        } else {
            default_rate
        }
    }

    /// The number of messages.
    pub fn events_for(&self, default_events: u64) -> (r: u64)
        ensures
            r == self.events_or(default_events),
    {
        match self.num_messages {
            Some(n) => n,
            None => default_events,
        }
    }

    /// Whether a size is selected.
    pub fn matches_size(&self, tag: &str) -> (r: bool)
        ensures
            r == selects(self.size@, tag@),
    {
        matches_value(self.size.as_str(), tag)
    }

    /// Whether a layer is selected.
    pub fn matches_layer(&self, layer: &str) -> (r: bool)
        ensures
            r == selects(self.layer@, layer@),
    {
        matches_value(self.layer.as_str(), layer)
    }

    /// Whether a number of consumers is selected.
    pub fn matches_consumers(&self, consumers: usize) -> (r: bool)
        ensures
            r == selects_number(self.consumers@, consumers as nat),
    {
        matches_number(self.consumers.as_str(), consumers)
    }
}

/// The backlog that a producer over memory-mapped files lets its consumers
/// build up: half a buffer, looked at after every thirty-second event.
pub const MMAP_BACKLOG_CHECK_INTERVAL: u64 = 32;

/// Whether the backlog is looked at after the event at `index`.
pub fn checks_backlog(index: u64, num_consumers: usize) -> (r: bool)
    ensures
        r == (num_consumers > 1 && index % 32 == 31),
{
    num_consumers > 1 && index % MMAP_BACKLOG_CHECK_INTERVAL == 31
}

/// The sequence number that all consumers must have passed before a producer
/// goes on, if there is one: half a buffer behind the last published.
pub open spec fn required_sequence(last: int, depth: nat, consumers: nat) -> Option<int> {
    if consumers <= 1 || depth < 2 || last - depth / 2 < 0 {
        None
    } else {
        Some(last - depth / 2)
    }
}

/// The sequence number that all consumers must have passed before a producer
/// goes on.
pub fn throttle_mmap_backlog(last_sequence: i64, buffer_depth: usize, num_consumers: usize) -> (r:
    Option<i64>)
    requires
        last_sequence >= -1,
        buffer_depth / 2 <= i64::MAX,
    ensures
        match r {
            Some(sequence) => required_sequence(
                last_sequence as int,
                buffer_depth as nat,
                num_consumers as nat,
            ) == Some(sequence as int),
            None => required_sequence(
                last_sequence as int,
                buffer_depth as nat,
                num_consumers as nat,
            ) is None,
        },
{
    if num_consumers <= 1 || buffer_depth < 2 {
        return None;
    }
    let window: i64 = (buffer_depth / 2) as i64;
    if last_sequence < window {
        return None;
    }
    Some(last_sequence - window)
}

/// The error of consumers that did not work off a backlog in time; `kind` is
/// what the messages are.
pub fn backlog_timeout(kind: &str, required: u64) -> (r: String)
    ensures
        r@ == "timeout waiting for consumers to drain "@ + kind@ + " mmap backlog at seq "@
            + decimal_text(required as nat),
{
    let mut out: String = "timeout waiting for consumers to drain ".to_owned();
    out.append(kind);
    out.append(" mmap backlog at seq ");
    out.append(decimal(required).as_str());
    out
}

/// A producer that has waited for what it is told to wait for leaves no more
/// than half a buffer unread by the slowest of several consumers.
pub proof fn law_backlog_stays_within_buffer(last: int, consumed: int, depth: nat, consumers: nat)
    requires
        consumers > 1,
        depth >= 2,
        consumed >= -1,
        match required_sequence(last, depth, consumers) {
            Some(sequence) => consumed >= sequence,
            None => true,
        },
    ensures
        last - consumed <= depth / 2,
{
}

/// `all` selects everything; any other argument selects what it names, and
/// nothing else.
pub proof fn law_argument_selects_what_it_names(argument: Seq<char>, value: Seq<char>, n: nat)
    requires
        n <= usize::MAX,
    ensures
        argument == "all"@ ==> selects(argument, value) && selects_number(argument, n),
        selects(value, value),
        argument != "all"@ && argument != value ==> !selects(argument, value),
        selects_number(decimal_text(n), n),
        forall|m: nat|
            m <= usize::MAX && m != n ==> !(#[trigger] selects_number(decimal_text(m), n)),
{
    reveal_strlit("all");
    law_number_reads_back(n, usize::MAX as nat);
    assert forall|m: nat| m <= usize::MAX && m != n implies !(#[trigger] selects_number(
        decimal_text(m),
        n,
    )) by {
        law_number_reads_back(m, usize::MAX as nat);
        lemma_decimal_denotes(m);
        assert(is_digit(decimal_text(m)[0]));
    }
}

/// The mode `throughput` selects full speed alone, `co` target rates alone, and
/// `all` both; any other mode selects nothing.
pub proof fn law_mode_selects_speeds(selection: SweepSelection, target_rate: u64)
    ensures
        selection.mode@ == "all"@ ==> selection.wants(target_rate),
        selection.mode@ == "throughput"@ ==> (selection.wants(target_rate) <==> target_rate == 0),
        selection.mode@ == "co"@ ==> (selection.wants(target_rate) <==> target_rate > 0),
        selection.mode@ != "all"@ && selection.mode@ != "throughput"@ && selection.mode@ != "co"@
            ==> !selection.wants(target_rate),
{
    reveal_strlit("all");
    reveal_strlit("throughput");
    reveal_strlit("co");
    assert("all"@.len() == 3);
    assert("throughput"@.len() == 10);
    assert("co"@.len() == 2);
}

/// A rate or a number of messages of the command line comes before a default.
pub proof fn law_command_line_comes_first(selection: SweepSelection, default: u64)
    ensures
        selection.target_rate > 0 ==> selection.rate_or(default) == selection.target_rate,
        selection.target_rate == 0 ==> selection.rate_or(default) == default,
        selection.num_messages is Some ==> selection.events_or(default)
            == selection.num_messages->0,
        selection.num_messages is None ==> selection.events_or(default) == default,
{
}

/// A producer does not wait for a single consumer, nor before half a buffer is
/// published; else it waits for what lies half a buffer back.
pub proof fn law_producer_waits_half_a_buffer_back(last: int, depth: nat, consumers: nat)
    ensures
        consumers <= 1 ==> required_sequence(last, depth, consumers) is None,
        last < depth / 2 ==> required_sequence(last, depth, consumers) is None,
        consumers > 1 && depth >= 2 && last >= depth / 2 ==> required_sequence(
            last,
            depth,
            consumers,
        ) == Some(last - depth / 2),
{
}

} // verus!
