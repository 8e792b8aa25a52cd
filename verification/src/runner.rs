//! Child roles and the metrics that children report.
use vstd::prelude::*;
use crate::process::ProcessOutput;
use crate::text::{begins_with, has_prefix, same_text};

verus! {

/// A role that a binary plays as a child, and what runs it.
#[derive(Clone, Copy)]
pub struct ChildRole<H> {
    pub name: &'static str,
    pub handler: H,
}

impl<H> ChildRole<H> {
    /// A role.
    pub fn new(name: &'static str, handler: H) -> (r: ChildRole<H>)
        ensures
            r.name == name,
            r.handler == handler,
    {
        ChildRole { name, handler }
    }
}

/// The command line asks for a child role: its first argument is no flag.
pub open spec fn asks_for_role(args: Seq<String>) -> bool {
    args.len() > 1 && !has_prefix(args[1]@, "--"@)
}

/// `i` is the first role of the given name.
pub open spec fn is_first_role<H>(roles: Seq<ChildRole<H>>, name: Seq<char>, i: int) -> bool {
    &&& 0 <= i < roles.len()
    &&& roles[i].name@ == name
    &&& forall|j: int| 0 <= j < i ==> (#[trigger] roles[j]).name@ != name
}

/// Runs the role that the command line asks for, if it asks for one. A role
/// that is not among the known ones does nothing and succeeds.
pub fn maybe_run_child<'a, E, H: Fn() -> Result<(), E>>(
    args: &'a [String],
    roles: &[ChildRole<H>],
) -> (r: Option<(&'a str, Result<(), E>)>)
    requires
        forall|i: int| 0 <= i < roles@.len() ==> call_requires((#[trigger] roles@[i]).handler, ()),
    ensures
        match r {
            Some((role, result)) => {
                &&& asks_for_role(args@)
                &&& role@ == args@[1]@
                &&& forall|i: int| #[trigger]
                    is_first_role(roles@, role@, i) ==> call_ensures(
                        roles@[i].handler,
                        (),
                        result,
                    )
                &&& (forall|j: int| 0 <= j < roles@.len() ==> (#[trigger] roles@[j]).name@
                    != role@) ==> result is Ok
            },
            None => !asks_for_role(args@),
        },
{
    if args.len() < 2 {
        return None;
    }
    let role = args[1].as_str();
    if begins_with(role, "--") {
        return None;
    }
    for i in 0..roles.len()
        invariant
            args@.len() >= 2,
            role@ == args@[1]@,
            asks_for_role(args@),
            forall|k: int|
                0 <= k < roles@.len() ==> call_requires((#[trigger] roles@[k]).handler, ()),
            forall|j: int| 0 <= j < i ==> (#[trigger] roles@[j]).name@ != role@,
    {
        if same_text(roles[i].name, role) {
            let result = (roles[i].handler)();
            proof {
                assert forall|k: int| #[trigger]
                    is_first_role(roles@, args@[1]@, k) implies call_ensures(
                    roles@[k].handler,
                    (),
                    result,
                ) by {
                    if k < i {
                        assert(roles@[k].name@ != role@);
                    } else if k > i {
                        assert(roles@[i as int].name@ != role@);
                    }
                }
                assert(roles@[i as int].name@ == args@[1]@);
            }
            return Some((role, result));
        }
    }
    Some((role, Ok(())))
}

/// The line for a child role that failed.
pub fn role_failure(role: &str, error: &str) -> (r: String)
    ensures
        r@ == role@ + " failed: "@ + error@,
{
    let mut out: String = role.to_owned();
    out.append(" failed: ");
    out.append(error);
    out
}

/// The metrics of a child, where it succeeded and reported any. `parsed` is
/// what its structured output was read as.
pub fn parse_child_metrics<T>(
    label: &str,
    output: &ProcessOutput,
    parsed: Option<T>,
) -> (r: Result<T, String>)
    ensures
        match r {
            Ok(metrics) => output.success && parsed == Some(metrics),
            Err(message) => {
                ||| !output.success && message@ == label@ + " child failed\nstderr:\n"@
                    + output.stderr@
                ||| output.success && parsed is None && message@ == label@
                    + " child produced no structured JSON metrics\nstdout:\n"@ + output.stdout@
                    + "\nstderr:\n"@ + output.stderr@
            },
        },
{
    if !output.success {
        let mut message: String = label.to_owned();
        message.append(" child failed\nstderr:\n");
        message.append(output.stderr.as_str());
        return Err(message);
    }
    match parsed {
        Some(metrics) => Ok(metrics),
        None => {
            let mut message: String = label.to_owned();
            message.append(" child produced no structured JSON metrics\nstdout:\n");
            message.append(output.stdout.as_str());
            message.append("\nstderr:\n");
            message.append(output.stderr.as_str());
            Err(message)
        },
    }
}

} // verus!
