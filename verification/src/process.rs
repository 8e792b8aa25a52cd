//! Child processes: when to wait for them, and what their output says.
use vstd::prelude::*;
use vstd::utf8::{encode_utf8, valid_utf8};
use crate::text::{begins_with, has_prefix, lines, lines_of, option_view, views};

verus! {

/// The text of `String::from_utf8_lossy`.
pub uninterp spec fn lossy_text(bytes: Seq<u8>) -> Seq<char>;

/// The text of bytes by `String::from_utf8_lossy`. Bytes that are UTF-8 keep
/// their text; what replaces other bytes is not described.
#[verifier::external_body]
fn text_of_bytes(bytes: &Vec<u8>) -> (r: String)
    ensures
        r@ == lossy_text(bytes@),
        valid_utf8(bytes@) ==> encode_utf8(r@) == bytes@,
{
    String::from_utf8_lossy(bytes).into_owned()
}

/// What to do while waiting for a child.
#[derive(Clone, Copy, Debug, PartialEq, Eq, Structural)]
pub enum WaitAction {
    /// It has ended: take its output.
    Collect,
    /// It has run out of time: kill it, then take its output.
    Kill,
    /// Look again after so many milliseconds.
    Pause { millis: u64 },
}

/// What to do about a child, by whether it has ended and how long it was
/// waited for.
pub fn wait_timeout(ended: bool, elapsed_ns: u128, timeout_ns: u128) -> (r: WaitAction)
    ensures
        r == if ended {
            WaitAction::Collect
        } else if elapsed_ns >= timeout_ns {
            WaitAction::Kill
        } else {
            WaitAction::Pause { millis: 5 }
        },
{
    if ended {
        WaitAction::Collect
    } else if elapsed_ns >= timeout_ns {
        WaitAction::Kill
    } else {
        WaitAction::Pause { millis: 5 }
    }
}

/// What an ended child left behind.
#[derive(Clone, Debug)]
pub struct ChildExit {
    pub success: bool,
    pub stdout: Vec<u8>,
    pub stderr: Vec<u8>,
}

/// Collected output of a child.
#[derive(Clone, Debug)]
pub struct ProcessOutput {
    pub stdout: String,
    pub stderr: String,
    pub success: bool,
}

/// The error for a child that was killed, with the timeout in the notation
/// given.
pub fn timeout_error(timeout: &str, stderr: &Vec<u8>) -> (r: String)
    ensures
        r@ == "timeout after "@ + timeout@ + "; stderr: "@ + lossy_text(stderr@),
{
    let mut message: String = "timeout after ".to_owned();
    message.append(timeout);
    message.append("; stderr: ");
    message.append(text_of_bytes(stderr).as_str());
    message
}

/// Collects the output of a child, or the error of waiting for it, and the
/// line to log, if there is one.
pub fn collect_output(label: &str, result: Result<ChildExit, String>) -> (r: (
    ProcessOutput,
    Option<String>,
))
    ensures
        match result {
            Ok(exit) => {
                &&& r.0.stdout@ == lossy_text(exit.stdout@)
                &&& r.0.stderr@ == lossy_text(exit.stderr@)
                &&& r.0.success == exit.success
                &&& option_view(r.1) == if exit.stderr@.len() > 0 {
                    Some("["@ + label@ + " stderr] "@ + lossy_text(exit.stderr@))
                } else {
                    None
                }
            },
            Err(error) => {
                &&& r.0.stdout@ == ""@
                &&& r.0.stderr@ == error@
                &&& !r.0.success
                &&& option_view(r.1) == Some("["@ + label@ + "] "@ + error@)
            },
        },
{
    let mut line: String = "[".to_owned();
    line.append(label);
    match result {
        Ok(exit) => {
            let stderr = text_of_bytes(&exit.stderr);
            let log = if exit.stderr.len() > 0 {
                line.append(" stderr] ");
                line.append(stderr.as_str());
                Some(line)
            } else {
                None
            };
            let output = ProcessOutput {
                stdout: text_of_bytes(&exit.stdout),
                stderr,
                success: exit.success,
            };
            (output, log)
        },
        Err(error) => {
            line.append("] ");
            line.append(error.as_str());
            let output = ProcessOutput { stdout: "".to_owned(), stderr: error, success: false };
            (output, Some(line))
        },
    }
}

/// `line` is the first of the lines that begins with a brace.
pub open spec fn is_first_json_line(lines: Seq<Seq<char>>, line: Option<Seq<char>>) -> bool {
    match line {
        Some(text) => exists|i: int|
            {
                &&& 0 <= i < lines.len()
                &&& #[trigger] lines[i] == text
                &&& has_prefix(text, "{"@)
                &&& forall|j: int| 0 <= j < i ==> !has_prefix(#[trigger] lines[j], "{"@)
            },
        None => forall|j: int| 0 <= j < lines.len() ==> !has_prefix(#[trigger] lines[j], "{"@),
    }
}

/// The structured output of a child: the first line that begins with a brace.
pub fn parse_json_output(output: &str) -> (r: Option<String>)
    ensures
        is_first_json_line(lines_of(output@), option_view(r)),
{
    let all = lines(output);
    let ghost texts = views(all@);
    for i in 0..all.len()
        invariant
            texts == views(all@),
            texts == lines_of(output@),
            forall|j: int| 0 <= j < i ==> !has_prefix(#[trigger] texts[j], "{"@),
    {
        if begins_with(all[i].as_str(), "{") {
            assert(texts[i as int] == all@[i as int]@);
            return Some(all[i].clone());
        }
        assert(texts[i as int] == all@[i as int]@);
    }
    None
}

} // verus!
