//! Settings read from environment variables and command-line flags.
//!
//! The caller reads the environment; these functions say what the values mean.
use vstd::prelude::*;
use crate::decimal::{
    decimal, decimal_text, is_digit, law_number_reads_back, lemma_decimal_denotes, parse_u64,
    parse_usize, parsed_number,
};
use crate::text::{option_str_view, same_text, views};

verus! {

/// The number that a variable's value states; the default where the variable
/// is not set or states none.
pub open spec fn number_or(value: Option<Seq<char>>, max: nat, default: nat) -> nat {
    match value {
        Some(text) => match parsed_number(text, max) {
            Some(n) => n,
            None => default,
        },
        None => default,
    }
}

/// The value of a variable as a `usize`.
pub fn read_env_usize(value: Option<&str>, default: usize) -> (r: usize)
    ensures
        r == number_or(option_str_view(value), usize::MAX as nat, default as nat),
{
    match value {
        Some(text) => match parse_usize(text) {
            Some(n) => n,
            None => default,
        },
        None => default,
    }
}

/// The value of a variable as a `u64`.
pub fn read_env_u64(value: Option<&str>, default: u64) -> (r: u64)
    ensures
        r == number_or(option_str_view(value), u64::MAX as nat, default as nat),
{
    match value {
        Some(text) => match parse_u64(text) {
            Some(n) => n,
            None => default,
        },
        None => default,
    }
}

/// The value of a variable as a truth value: `1`, `true` and `yes` are true,
/// any other value is false.
pub fn read_env_bool(value: Option<&str>, default: bool) -> (r: bool)
    ensures
        r == match option_str_view(value) {
            Some(text) => text == "1"@ || text == "true"@ || text == "yes"@,
            None => default,
        },
{
    match value {
        Some(text) => same_text(text, "1") || same_text(text, "true") || same_text(text, "yes"),
        None => default,
    }
}

/// The value of a variable as a text.
pub fn read_env_string(value: Option<&str>, default: &str) -> (r: String)
    ensures
        r@ == match option_str_view(value) {
            Some(text) => text,
            None => default@,
        },
{
    match value {
        Some(text) => text.to_owned(),
        None => default.to_owned(),
    }
}

/// The timeout of a benchmark in seconds, from the value of `BENCH_TIMEOUT`;
/// five minutes by default.
pub fn bench_timeout_secs(value: Option<&str>) -> (r: u64)
    ensures
        r == number_or(option_str_view(value), u64::MAX as nat, 300),
{
    read_env_u64(value, 300)
}

/// The timeout of a benchmark in seconds, with a default of its own.
pub fn bench_timeout_secs_or(value: Option<&str>, default_secs: u64) -> (r: u64)
    ensures
        r == number_or(option_str_view(value), u64::MAX as nat, default_secs as nat),
{
    read_env_u64(value, default_secs)
}

/// The timeout that a command-line flag set, from the value of
/// `BENCH_TIMEOUT_OVERRIDE`; zero sets none.
pub fn bench_timeout_override_secs(value: Option<&str>) -> (r: Option<u64>)
    ensures
        match r {
            Some(secs) => secs > 0 && value is Some && parsed_number(value->0@, u64::MAX as nat)
                == Some(secs as nat),
            None => value is None || parsed_number(value->0@, u64::MAX as nat) is None
                || parsed_number(value->0@, u64::MAX as nat) == Some(0nat),
        },
{
    match value {
        Some(text) => match parse_u64(text) {
            Some(secs) => if secs > 0 {
                Some(secs)
            } else {
                None
            },
            None => None,
        },
        None => None,
    }
}

/// Nanoseconds in a second.
pub const NANOS_PER_SEC: u128 = 1_000_000_000;

/// The timeout of a benchmark in nanoseconds, with a default of its own.
pub fn bench_timeout_duration(value: Option<&str>, default_secs: u64) -> (r: u128)
    ensures
        r == number_or(option_str_view(value), u64::MAX as nat, default_secs as nat)
            * NANOS_PER_SEC,
{
    bench_timeout_secs_or(value, default_secs) as u128 * NANOS_PER_SEC
}

/// The time by which a spinning loop gives up, in nanoseconds of the clock
/// that `now_ns` was read from.
pub fn spin_deadline(now_ns: u64, value: Option<&str>) -> (r: u128)
    ensures
        r == now_ns + number_or(option_str_view(value), u64::MAX as nat, 300) * NANOS_PER_SEC,
{
    now_ns as u128 + bench_timeout_secs(value) as u128 * NANOS_PER_SEC
}

/// The time by which a spinning loop gives up, with a default of its own.
pub fn spin_deadline_or(now_ns: u64, value: Option<&str>, default_secs: u64) -> (r: u128)
    ensures
        r == now_ns + number_or(option_str_view(value), u64::MAX as nat, default_secs as nat)
            * NANOS_PER_SEC,
{
    now_ns as u128 + bench_timeout_duration(value, default_secs)
}

/// The message of a loop that ran past its deadline.
pub open spec fn timeout_text(context: Seq<char>, timeout_secs: nat) -> Seq<char> {
    "TIMEOUT: "@ + context + " — exceeded "@ + decimal_text(timeout_secs)
        + "s deadline. Kill with: pkill -f perf-bench"@
}

/// An error once `now_ns` is past the deadline.
pub fn check_deadline(
    now_ns: u64,
    deadline_ns: u128,
    context: &str,
    timeout_secs: u64,
) -> (r: Result<(), String>)
    ensures
        match r {
            Ok(_) => now_ns <= deadline_ns,
            Err(message) => now_ns > deadline_ns && message@ == timeout_text(
                context@,
                timeout_secs as nat,
            ),
        },
{
    if now_ns as u128 > deadline_ns {
        let mut message: String = "TIMEOUT: ".to_owned();
        message.append(context);
        message.append(" — exceeded ");
        message.append(decimal(timeout_secs).as_str());
        message.append("s deadline. Kill with: pkill -f perf-bench");
        Err(message)
    } else {
        Ok(())
    }
}

/// What a command line says of the timeout: the seconds that it sets, if any,
/// and the other arguments, or what is wrong with it. Flags before a wrong one
/// still set the timeout.
pub struct TimeoutScan {
    pub exported: Option<nat>,
    pub outcome: Result<Seq<Seq<char>>, Seq<char>>,
}

/// The scan of a command line, argument by argument. The last flag counts.
pub open spec fn timeout_scan(args: Seq<Seq<char>>) -> TimeoutScan
    decreases args.len(),
{
    if args.len() == 0 {
        TimeoutScan { exported: None, outcome: Ok(Seq::empty()) }
    } else if args[0] == "--timeout"@ {
        if args.len() == 1 {
            TimeoutScan { exported: None, outcome: Err("--timeout requires a value"@) }
        } else {
            match parsed_number(args[1], u64::MAX as nat) {
                None => TimeoutScan {
                    exported: None,
                    outcome: Err("invalid --timeout value: "@ + args[1]),
                },
                Some(secs) => if secs == 0 {
                    TimeoutScan {
                        exported: None,
                        outcome: Err("--timeout must be greater than zero"@),
                    }
                } else {
                    continued_scan(Seq::empty(), Some(secs), timeout_scan(args.skip(2)))
                },
            }
        }
    } else {
        continued_scan(seq![args[0]], None, timeout_scan(args.skip(1)))
    }
}

/// A scan that has kept and set something, with the scan of the rest.
pub open spec fn continued_scan(
    kept: Seq<Seq<char>>,
    exported: Option<nat>,
    rest: TimeoutScan,
) -> TimeoutScan {
    TimeoutScan {
        exported: if rest.exported is Some {
            rest.exported
        } else {
            exported
        },
        outcome: match rest.outcome {
            Ok(more) => Ok(kept + more),
            Err(message) => Err(message),
        },
    }
}

/// What a command line says of the timeout.
#[derive(Debug)]
pub struct AppliedTimeout {
    pub exported: Option<u64>,
    pub outcome: Result<Vec<String>, String>,
}

impl AppliedTimeout {
    /// The outcome is that of the scan.
    pub open spec fn is_scan(&self, scan: TimeoutScan) -> bool {
        &&& match (self.exported, scan.exported) {
            (Some(a), Some(b)) => a == b,
            (None, None) => true,
            _ => false,
        }
        &&& match (self.outcome, scan.outcome) {
            (Ok(kept), Ok(texts)) => views(kept@) == texts,
            (Err(message), Err(text)) => message@ == text,
            _ => false,
        }
    }
}

/// Reads `--timeout <seconds>` from the command line: the seconds to export
/// as `BENCH_TIMEOUT` and `BENCH_TIMEOUT_OVERRIDE`, and the arguments without
/// the flag and its value.
pub fn apply_timeout_arg(args: &[String]) -> (r: AppliedTimeout)
    ensures
        r.is_scan(timeout_scan(views(args@))),
{
    let ghost all = views(args@);
    let mut kept: Vec<String> = Vec::new();
    let mut exported: Option<u64> = None;
    let mut index: usize = 0;
    proof {
        assert(all.skip(0) =~= all);
        assert(views(kept@) =~= Seq::empty());
        let start = timeout_scan(all);
        if start.outcome is Ok {
            assert(Seq::<Seq<char>>::empty() + start.outcome->Ok_0 =~= start.outcome->Ok_0);
        }
    }
    while index < args.len()
        invariant
            all == views(args@),
            index <= args@.len(),
            timeout_scan(all) == continued_scan(
                views(kept@),
                match exported {
                    Some(secs) => Some(secs as nat),
                    None => None,
                },
                timeout_scan(all.skip(index as int)),
            ),
        decreases args@.len() - index,
    {
        let ghost rest = all.skip(index as int);
        let ghost kept_texts = views(kept@);
        assert(rest[0] == args@[index as int]@);
        if same_text(args[index].as_str(), "--timeout") {
            if index == args.len() - 1 {
                return AppliedTimeout {
                    exported,
                    outcome: Err("--timeout requires a value".to_owned()),
                };
            }
            assert(rest[1] == args@[index + 1]@);
            let value = args[index + 1].as_str();
            match parse_u64(value) {
                None => {
                    let mut message: String = "invalid --timeout value: ".to_owned();
                    message.append(value);
                    return AppliedTimeout { exported, outcome: Err(message) };
                },
                Some(secs) => {
                    if secs == 0 {
                        return AppliedTimeout {
                            exported,
                            outcome: Err("--timeout must be greater than zero".to_owned()),
                        };
                    }
                    exported = Some(secs);
                },
            }
            index = index + 2;
            proof {
                assert(rest.skip(2) =~= all.skip(index as int));
                let tail = timeout_scan(all.skip(index as int));
                if tail.outcome is Ok {
                    let more = tail.outcome->Ok_0;
                    assert(Seq::<Seq<char>>::empty() + more =~= more);
                }
            }
        } else {
            kept.push(args[index].clone());
            index = index + 1;
            proof {
                assert(rest.skip(1) =~= all.skip(index as int));
                assert(views(kept@) =~= kept_texts.push(rest[0]));
                let tail = timeout_scan(all.skip(index as int));
                if tail.outcome is Ok {
                    let more = tail.outcome->Ok_0;
                    assert(kept_texts + (seq![rest[0]] + more) =~= views(kept@) + more);
                }
            }
        }
    }
    proof {
        assert(views(kept@) + Seq::<Seq<char>>::empty() =~= views(kept@));
    }
    AppliedTimeout { exported, outcome: Ok(kept) }
}

/// Without the flag, a command line is kept as it is and sets nothing.
pub proof fn law_no_flag_changes_nothing(args: Seq<Seq<char>>)
    requires
        !args.contains("--timeout"@),
    ensures
        timeout_scan(args) == (TimeoutScan { exported: None, outcome: Ok(args) }),
    decreases args.len(),
{
    if args.len() > 0 {
        assert(args[0] != "--timeout"@);
        assert forall|i: int| 0 <= i < args.skip(1).len() implies args.skip(1)[i]
            != "--timeout"@ by {
            assert(args.contains(args[i + 1]));
        }
        law_no_flag_changes_nothing(args.skip(1));
        assert(seq![args[0]] + args.skip(1) =~= args);
    } else {
        assert(args =~= Seq::empty());
    }
}

/// A timeout that a command line sets is never zero, and the flag itself is
/// never kept.
pub proof fn law_timeout_flag_is_consumed(args: Seq<Seq<char>>)
    ensures
        timeout_scan(args).exported is Some ==> timeout_scan(args).exported->0 > 0,
        timeout_scan(args).outcome is Ok ==> !timeout_scan(args).outcome->Ok_0.contains(
            "--timeout"@,
        ),
    decreases args.len(),
{
    if args.len() > 0 {
        if args[0] == "--timeout"@ {
            if args.len() > 1 {
                law_timeout_flag_is_consumed(args.skip(2));
                let rest = timeout_scan(args.skip(2));
                if rest.outcome is Ok {
                    let more = rest.outcome->Ok_0;
                    assert(Seq::<Seq<char>>::empty() + more =~= more);
                }
            }
        } else {
            law_timeout_flag_is_consumed(args.skip(1));
            let rest = timeout_scan(args.skip(1));
            if rest.outcome is Ok {
                let more = rest.outcome->Ok_0;
                let kept = seq![args[0]] + more;
                assert forall|i: int| 0 <= i < kept.len() implies kept[i] != "--timeout"@ by {
                    if i > 0 {
                        assert(kept[i] == more[i - 1]);
                        assert(more.contains(more[i - 1]));
                    }
                }
            }
        }
    }
}

/// A number that a variable states is read as it is; the default stands where
/// there is no variable, or one that states no number within the range.
pub proof fn law_number_comes_before_default(n: nat, text: Seq<char>, max: nat, default: nat)
    ensures
        n <= max ==> number_or(Some(decimal_text(n)), max, default) == n,
        n > max ==> number_or(Some(decimal_text(n)), max, default) == default,
        number_or(None, max, default) == default,
        parsed_number(text, max) is None ==> number_or(Some(text), max, default) == default,
{
    lemma_decimal_denotes(n);
    assert(is_digit(decimal_text(n)[0]));
    if n <= max {
        law_number_reads_back(n, max);
    }
}

/// A timeout at the end of a command line is the one that counts, whatever was
/// set before it, and leaves the other arguments as they were.
pub proof fn law_last_timeout_counts(args: Seq<Seq<char>>, secs: u64)
    requires
        timeout_scan(args).outcome is Ok,
        secs > 0,
    ensures
        timeout_scan(args + seq!["--timeout"@, decimal_text(secs as nat)]).exported == Some(
            secs as nat,
        ),
        timeout_scan(args + seq!["--timeout"@, decimal_text(secs as nat)]).outcome
            == timeout_scan(args).outcome,
    decreases args.len(),
{
    let flag = seq!["--timeout"@, decimal_text(secs as nat)];
    let all = args + flag;
    law_number_reads_back(secs as nat, u64::MAX as nat);
    if args.len() == 0 {
        assert(all =~= flag);
        assert(flag.skip(2) =~= Seq::empty());
        assert(timeout_scan(flag.skip(2)).outcome == Ok::<Seq<Seq<char>>, Seq<char>>(Seq::empty()));
        assert(Seq::<Seq<char>>::empty() + Seq::<Seq<char>>::empty() =~= Seq::empty());
    } else if args[0] == "--timeout"@ {
        assert(all.skip(2) =~= args.skip(2) + flag);
        law_last_timeout_counts(args.skip(2), secs);
    } else {
        assert(all.skip(1) =~= args.skip(1) + flag);
        law_last_timeout_counts(args.skip(1), secs);
    }
}

/// A timeout without a value, of zero, or that is no number is an error wherever
/// it stands behind arguments that are right.
pub proof fn law_wrong_timeout_is_an_error(args: Seq<Seq<char>>, value: Seq<char>)
    requires
        timeout_scan(args).outcome is Ok,
    ensures
        timeout_scan(args + seq!["--timeout"@]).outcome is Err,
        parsed_number(value, u64::MAX as nat) is None || parsed_number(value, u64::MAX as nat)
            == Some(0nat) ==> timeout_scan(args + seq!["--timeout"@, value]).outcome is Err,
    decreases args.len(),
{
    let alone = seq!["--timeout"@];
    let flag = seq!["--timeout"@, value];
    if args.len() == 0 {
        assert(args + alone =~= alone);
        assert(args + flag =~= flag);
    } else if args[0] == "--timeout"@ {
        assert((args + alone).skip(2) =~= args.skip(2) + alone);
        assert((args + flag).skip(2) =~= args.skip(2) + flag);
        law_wrong_timeout_is_an_error(args.skip(2), value);
    } else {
        assert((args + alone).skip(1) =~= args.skip(1) + alone);
        assert((args + flag).skip(1) =~= args.skip(1) + flag);
        law_wrong_timeout_is_an_error(args.skip(1), value);
    }
}

} // verus!
