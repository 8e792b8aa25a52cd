//! A log of what happens in a process, kept in memory and written out at the
//! end: one line of JSON for each entry.
use vstd::prelude::*;
use crate::decimal::{decimal, decimal_text, is_digit, lemma_decimal_denotes};
use crate::events::nanos_now;
use crate::json_text::{
    append_number_member, append_text_member, is_control, law_escaped_text_is_printable,
    law_number_member_reads_back, law_text_member_reads_back, lemma_first_member,
    number_member_text, read_member, reads_object, reads_rest, text_member_text, JsonValue,
};
use crate::naming::{join_path, joined_path};
use crate::text::same_text;

verus! {

/// `String::with_capacity` makes an empty text. It panics on a capacity of more
/// than `isize::MAX` bytes.
pub assume_specification[ String::with_capacity ](capacity: usize) -> (r: String)
    requires
        capacity <= isize::MAX,
    ensures
        r@ == Seq::<char>::empty(),
;

/// `String::clear` takes all characters out of the text.
pub assume_specification[ String::clear ](s: &mut String)
    ensures
        final(s)@ == Seq::<char>::empty(),
;

/// The bytes that a log makes room for where nothing else is said.
pub const DEFAULT_CAPACITY: usize = 1_048_576;

/// The output directory of a run, from the values of the two variables that can
/// set it: the first where it is set, else the second.
pub fn run_out_dir<'a>(first: Option<&'a str>, second: Option<&'a str>) -> (r: Option<&'a str>)
    ensures
        r == if first is Some {
            first
        } else {
            second
        },
{
    match first {
        Some(dir) => Some(dir),
        None => second,
    }
}

/// Where logs go: to the directory given for logs, else under the output
/// directory of the run, else to a directory of their own.
pub open spec fn log_dir_text(log_dir: Option<&str>, out_dir: Option<&str>) -> Seq<char> {
    match log_dir {
        Some(dir) => dir@,
        None => match out_dir {
            Some(dir) => dir@ + "/logs"@,
            None => "output/logs"@,
        },
    }
}

/// The directory for logs, from the values of the two variables that can set it.
pub fn log_dir(logs: Option<&str>, out_dir: Option<&str>) -> (r: String)
    ensures
        r@ == log_dir_text(logs, out_dir),
{
    match logs {
        Some(dir) => dir.to_owned(),
        None => match out_dir {
            Some(dir) => {
                let mut out: String = dir.to_owned();
                out.append("/logs");
                out
            },
            None => "output/logs".to_owned(),
        },
    }
}

/// Whether logging is on, from the value of the variable that can switch it
/// off.
pub fn is_enabled(value: Option<&str>) -> (r: bool)
    ensures
        r == !(value is Some && value->0@ == "0"@),
{
    match value {
        Some(text) => !same_text(text, "0"),
        None => true,
    }
}

/// What an entry begins with: its time, process, role and message.
pub open spec fn entry_head(ts: nat, pid: nat, role: Seq<char>, msg: Seq<char>) -> Seq<char> {
    seq!['{'] + number_member_text("ts"@, ts) + seq![','] + number_member_text("pid"@, pid)
        + seq![','] + text_member_text("role"@, role) + seq![','] + text_member_text("msg"@, msg)
}

/// An entry: an object on a line of its own.
pub open spec fn entry_text(ts: nat, pid: nat, role: Seq<char>, msg: Seq<char>) -> Seq<char> {
    entry_head(ts, pid, role, msg) + seq!['}', '\n']
}

/// An entry with a number.
pub open spec fn entry_val_text(
    ts: nat,
    pid: nat,
    role: Seq<char>,
    msg: Seq<char>,
    val: nat,
) -> Seq<char> {
    entry_head(ts, pid, role, msg) + seq![','] + number_member_text("val"@, val) + seq!['}', '\n']
}

/// A log. One that does not flush records nothing.
pub struct BenchLog {
    pub buf: String,
    pub pid: u32,
    pub role: String,
    pub count: usize,
    pub auto_flush: bool,
}

/// What an entry begins with.
fn head(ts: u64, pid: u32, role: &str, msg: &str) -> (r: String)
    ensures
        r@ == entry_head(ts as nat, pid as nat, role@, msg@),
{
    let mut out = String::new();
    out.push('{');
    append_number_member(&mut out, "ts", ts);
    out.push(',');
    append_number_member(&mut out, "pid", pid as u64);
    out.push(',');
    append_text_member(&mut out, "role", role);
    out.push(',');
    append_text_member(&mut out, "msg", msg);
    assert(out@ =~= entry_head(ts as nat, pid as nat, role@, msg@));
    out
}

impl BenchLog {
    /// The log with an entry of the given time more; the same log where it
    /// records nothing.
    pub open spec fn logged(&self, ts: u64, msg: Seq<char>, after: BenchLog) -> bool {
        if self.auto_flush {
            &&& after.buf@ == self.buf@ + entry_text(ts as nat, self.pid as nat, self.role@, msg)
            &&& after.count == self.count + 1
            &&& after.pid == self.pid
            &&& after.role == self.role
            &&& after.auto_flush
        } else {
            after == *self
        }
    }

    /// The log with an entry of the given time and number more; the same log
    /// where it records nothing.
    pub open spec fn logged_val(&self, ts: u64, msg: Seq<char>, val: u64, after: BenchLog) -> bool {
        if self.auto_flush {
            &&& after.buf@ == self.buf@ + entry_val_text(
                ts as nat,
                self.pid as nat,
                self.role@,
                msg,
                val as nat,
            )
            &&& after.count == self.count + 1
            &&& after.pid == self.pid
            &&& after.role == self.role
            &&& after.auto_flush
        } else {
            after == *self
        }
    }

    /// Nothing is recorded, or there is room to count one entry more.
    pub open spec fn has_room(&self) -> bool {
        self.auto_flush ==> self.count < usize::MAX
    }

    /// An empty log of a process in a role, which records or does not.
    pub open spec fn empty_for(role: Seq<char>, pid: u32, enabled: bool, log: BenchLog) -> bool {
        &&& log.buf@ == Seq::<char>::empty()
        &&& log.pid == pid
        &&& log.role@ == role
        &&& log.count == 0
        &&& log.auto_flush == enabled
    }

    /// A log of a process in a role, with room for `capacity` bytes. Where it
    /// is enabled, it begins with the entry `log_start`.
    pub fn new(role: &str, capacity: usize, pid: u32, enabled: bool) -> (r: BenchLog)
        requires
            capacity <= isize::MAX,
        ensures
            exists|before: BenchLog, ts: u64|
                #![trigger before.logged(ts, "log_start"@, r)]
                BenchLog::empty_for(role@, pid, enabled, before) && before.logged(
                    ts,
                    "log_start"@,
                    r,
                ),
    {
        let mut log = BenchLog {
            buf: String::with_capacity(if enabled {
                capacity
            } else {
                0
            }),
            pid,
            role: role.to_owned(),
            count: 0,
            auto_flush: enabled,
        };
        let ghost before = log;
        let ts = nanos_now();
        if enabled {
            log.event_at(ts, "log_start");
        }
        assert(BenchLog::empty_for(role@, pid, enabled, before));
        assert(before.logged(ts, "log_start"@, log));
        log
    }

    /// A log with the usual room.
    pub fn default_capacity(role: &str, pid: u32, enabled: bool) -> (r: BenchLog)
        ensures
            exists|before: BenchLog, ts: u64|
                #![trigger before.logged(ts, "log_start"@, r)]
                BenchLog::empty_for(role@, pid, enabled, before) && before.logged(
                    ts,
                    "log_start"@,
                    r,
                ),
    {
        BenchLog::new(role, DEFAULT_CAPACITY, pid, enabled)
    }

    /// A log that records nothing.
    pub fn disabled(pid: u32) -> (r: BenchLog)
        ensures
            BenchLog::empty_for(Seq::empty(), pid, false, r),
    {
        BenchLog { buf: String::new(), pid, role: String::new(), count: 0, auto_flush: false }
    }

    /// Adds an entry of the given time.
    pub fn event_at(&mut self, ts: u64, msg: &str)
        requires
            old(self).has_room(),
        ensures
            old(self).logged(ts, msg@, *final(self)),
    {
        if !self.auto_flush {
            return ;
        }
        let mut entry = head(ts, self.pid, self.role.as_str(), msg);
        entry.push('}');
        entry.push('\n');
        assert(entry@ =~= entry_text(ts as nat, self.pid as nat, self.role@, msg@));
        self.buf.append(entry.as_str());
        self.count = self.count + 1;
    }

    /// Adds an entry of the given time with a number.
    pub fn event_val_at(&mut self, ts: u64, msg: &str, val: u64)
        requires
            old(self).has_room(),
        ensures
            old(self).logged_val(ts, msg@, val, *final(self)),
    {
        if !self.auto_flush {
            return ;
        }
        let mut entry = head(ts, self.pid, self.role.as_str(), msg);
        entry.push(',');
        append_number_member(&mut entry, "val", val);
        entry.push('}');
        entry.push('\n');
        assert(entry@ =~= entry_val_text(
            ts as nat,
            self.pid as nat,
            self.role@,
            msg@,
            val as nat,
        ));
        self.buf.append(entry.as_str());
        self.count = self.count + 1;
    }

    /// Adds an entry of the current time.
    pub fn event(&mut self, msg: &str)
        requires
            old(self).has_room(),
        ensures
            exists|ts: u64| #[trigger] old(self).logged(ts, msg@, *final(self)),
    {
        let ts = nanos_now();
        self.event_at(ts, msg);
    }

    /// Adds an entry of the current time with a number.
    pub fn event_val(&mut self, msg: &str, val: u64)
        requires
            old(self).has_room(),
        ensures
            exists|ts: u64| #[trigger] old(self).logged_val(ts, msg@, val, *final(self)),
    {
        let ts = nanos_now();
        self.event_val_at(ts, msg, val);
    }

    /// The number of entries.
    pub fn count(&self) -> (r: usize)
        ensures
            r == self.count,
    {
        self.count
    }

    /// The entries, one line each.
    pub fn as_str(&self) -> (r: &str)
        ensures
            r@ == self.buf@,
    {
        self.buf.as_str()
    }

    /// Takes all entries out.
    pub fn reset(&mut self)
        ensures
            BenchLog::empty_for(
                old(self).role@,
                old(self).pid,
                old(self).auto_flush,
                *final(self),
            ),
            final(self).role == old(self).role,
    {
        self.buf.clear();
        self.count = 0;
    }

    /// The path of the file that a log goes to at the given time, in seconds.
    pub open spec fn log_path(&self, dir: Seq<char>, secs: nat) -> Seq<char> {
        joined_path(
            dir,
            self.role@ + "_"@ + decimal_text(self.pid as nat) + "_"@ + decimal_text(secs)
                + ".jsonl"@,
        )
    }

    /// The path of the file that the log goes to at the given time, in seconds.
    pub fn auto_log_path(&self, dir: &str, secs: u64) -> (r: String)
        ensures
            r@ == self.log_path(dir@, secs as nat),
    {
        let mut name: String = self.role.as_str().to_owned();
        name.append("_");
        name.append(decimal(self.pid as u64).as_str());
        name.append("_");
        name.append(decimal(secs).as_str());
        name.append(".jsonl");
        join_path(dir, name.as_str())
    }

    /// Ends the log at the given time with the entry `log_end`. A log that
    /// flushes and has entries then goes to the file whose path is returned.
    pub fn finish(&mut self, ts: u64, dir: &str, secs: u64) -> (r: Option<String>)
        requires
            old(self).has_room(),
        ensures
            r is Some == (old(self).auto_flush && old(self).count > 0),
            r is Some ==> old(self).logged(ts, "log_end"@, *final(self)) && r->0@
                == final(self).log_path(dir@, secs as nat),
            r is None ==> *final(self) == *old(self),
    {
        if !self.auto_flush || self.count == 0 {
            return None;
        }
        self.event_at(ts, "log_end");
        Some(self.auto_log_path(dir, secs))
    }
}

/// `text` holds no control character, so no line feed.
pub open spec fn is_unbroken(text: Seq<char>) -> bool {
    forall|i: int| 0 <= i < text.len() ==> !is_control(#[trigger] text[i])
}

/// `text` is one line, ended by a line feed.
pub open spec fn is_one_line(text: Seq<char>) -> bool {
    text.len() > 0 && text.last() == '\n' && is_unbroken(text.drop_last())
}

/// A member with a number is unbroken.
proof fn lemma_number_member_is_unbroken(key: Seq<char>, value: nat)
    ensures
        is_unbroken(number_member_text(key, value)),
{
    law_escaped_text_is_printable(key);
    lemma_decimal_denotes(value);
    assert forall|i: int| 0 <= i < decimal_text(value).len() implies !is_control(
        #[trigger] decimal_text(value)[i],
    ) by {
        assert(is_digit(decimal_text(value)[i]));
    }
}

/// A member with a text is unbroken.
proof fn lemma_text_member_is_unbroken(key: Seq<char>, value: Seq<char>)
    ensures
        is_unbroken(text_member_text(key, value)),
{
    law_escaped_text_is_printable(key);
    law_escaped_text_is_printable(value);
}

/// An entry, with or without a number, is one line, whatever the role and the
/// message hold.
pub proof fn law_entry_is_one_line(ts: nat, pid: nat, role: Seq<char>, msg: Seq<char>, val: nat)
    ensures
        is_one_line(entry_text(ts, pid, role, msg)),
        is_one_line(entry_val_text(ts, pid, role, msg, val)),
{
    lemma_number_member_is_unbroken("ts"@, ts);
    lemma_number_member_is_unbroken("pid"@, pid);
    lemma_text_member_is_unbroken("role"@, role);
    lemma_text_member_is_unbroken("msg"@, msg);
    lemma_number_member_is_unbroken("val"@, val);
    let head = entry_head(ts, pid, role, msg);
    assert(is_unbroken(head));
    assert(entry_text(ts, pid, role, msg).drop_last() =~= head.push('}'));
    let with_val = head + seq![','] + number_member_text("val"@, val);
    assert(is_unbroken(with_val));
    assert(entry_val_text(ts, pid, role, msg, val).drop_last() =~= with_val.push('}'));
}

/// What is read of an entry: its time, process, role and message.
pub open spec fn entry_members(
    ts: nat,
    pid: nat,
    role: Seq<char>,
    msg: Seq<char>,
) -> Seq<(Seq<char>, JsonValue)> {
    seq![
        ("ts"@, JsonValue::Number(ts)),
        ("pid"@, JsonValue::Number(pid)),
        ("role"@, JsonValue::Text(role)),
        ("msg"@, JsonValue::Text(msg)),
    ]
}

/// The parts of an entry, joined from the last.
proof fn lemma_parts_join(
    a: Seq<char>,
    b: Seq<char>,
    c: Seq<char>,
    d: Seq<char>,
    rest: Seq<char>,
)
    ensures
        seq!['{'] + a + seq![','] + b + seq![','] + c + seq![','] + d + rest == seq!['{'] + (a + (
        seq![','] + (b + (seq![','] + (c + (seq![','] + (d + rest))))))),
{
    let front = seq!['{'] + a + seq![','] + b + seq![','] + c;
    assert(front + seq![','] + d + rest =~= front + (seq![','] + (d + rest)));
    let third = seq![','] + (d + rest);
    let middle = seq!['{'] + a + seq![','] + b;
    assert(middle + seq![','] + c + third =~= middle + (seq![','] + (c + third)));
    let second = seq![','] + (c + third);
    let begin = seq!['{'] + a;
    assert(begin + seq![','] + b + second =~= begin + (seq![','] + (b + second)));
    let first = seq![','] + (b + second);
    assert(begin + first =~= seq!['{'] + (a + first));
}

/// Four members before others are read back as an object.
proof fn lemma_four_members(
    parts: Seq<Seq<char>>,
    members: Seq<(Seq<char>, JsonValue)>,
    rest: Seq<char>,
    more: Seq<(Seq<char>, JsonValue)>,
)
    requires
        parts.len() == 4,
        members.len() == 4,
        reads_rest(rest, more),
        forall|i: int, after: Seq<char>|
            0 <= i < 4 && after.len() > 0 && !is_digit(after[0]) ==> #[trigger] read_member(
                parts[i] + after,
            ) == Some((members[i].0, members[i].1, after)),
    ensures
        reads_object(
            seq!['{'] + parts[0] + seq![','] + parts[1] + seq![','] + parts[2] + seq![',']
                + parts[3] + rest,
            members + more,
        ),
{
    let third = seq![','] + (parts[3] + rest);
    let second = seq![','] + (parts[2] + third);
    let first = seq![','] + (parts[1] + second);
    let from_third = seq![members[3]] + more;
    let from_second = seq![members[2]] + from_third;
    let from_first = seq![members[1]] + from_second;
    lemma_first_member(parts[3] + rest, members[3].0, members[3].1, rest, more);
    lemma_first_member(parts[2] + third, members[2].0, members[2].1, third, from_third);
    lemma_first_member(parts[1] + second, members[1].0, members[1].1, second, from_second);
    lemma_first_member(parts[0] + first, members[0].0, members[0].1, first, from_first);
    lemma_parts_join(parts[0], parts[1], parts[2], parts[3], rest);
    assert((seq!['{'] + (parts[0] + first)).skip(1) =~= parts[0] + first);
    assert(seq![members[0]] + from_first =~= members + more);
}

/// The members of an entry are read back before those that follow.
proof fn lemma_head_reads_back(
    ts: nat,
    pid: nat,
    role: Seq<char>,
    msg: Seq<char>,
    rest: Seq<char>,
    more: Seq<(Seq<char>, JsonValue)>,
)
    requires
        reads_rest(rest, more),
    ensures
        reads_object(
            entry_head(ts, pid, role, msg) + rest,
            entry_members(ts, pid, role, msg) + more,
        ),
{
    let parts = seq![
        number_member_text("ts"@, ts),
        number_member_text("pid"@, pid),
        text_member_text("role"@, role),
        text_member_text("msg"@, msg),
    ];
    let members = entry_members(ts, pid, role, msg);
    assert forall|i: int, after: Seq<char>|
        0 <= i < 4 && after.len() > 0 && !is_digit(after[0]) implies #[trigger] read_member(
        parts[i] + after,
    ) == Some((members[i].0, members[i].1, after)) by {
        law_number_member_reads_back("ts"@, ts, after);
        law_number_member_reads_back("pid"@, pid, after);
        law_text_member_reads_back("role"@, role, after);
        law_text_member_reads_back("msg"@, msg, after);
    }
    lemma_four_members(parts, members, rest, more);
}

/// An entry is a JSON object whose members are its time, process, role and
/// message, and its number where it has one, whatever the role and the message
/// hold.
pub proof fn law_entry_reads_back(ts: nat, pid: nat, role: Seq<char>, msg: Seq<char>, val: nat)
    ensures
        reads_object(
            entry_text(ts, pid, role, msg).drop_last(),
            entry_members(ts, pid, role, msg),
        ),
        reads_object(
            entry_val_text(ts, pid, role, msg, val).drop_last(),
            entry_members(ts, pid, role, msg).push(("val"@, JsonValue::Number(val))),
        ),
{
    let head = entry_head(ts, pid, role, msg);
    let members = entry_members(ts, pid, role, msg);
    let none = Seq::<(Seq<char>, JsonValue)>::empty();
    lemma_head_reads_back(ts, pid, role, msg, seq!['}'], none);
    assert(entry_text(ts, pid, role, msg).drop_last() =~= head + seq!['}']);
    assert(members + none =~= members);
    let one = seq![("val"@, JsonValue::Number(val))];
    let rest = seq![','] + (number_member_text("val"@, val) + seq!['}']);
    law_number_member_reads_back("val"@, val, seq!['}']);
    lemma_first_member(
        number_member_text("val"@, val) + seq!['}'],
        "val"@,
        JsonValue::Number(val),
        seq!['}'],
        none,
    );
    assert(one + none =~= one);
    lemma_head_reads_back(ts, pid, role, msg, rest, one);
    assert(entry_val_text(ts, pid, role, msg, val).drop_last() =~= head + rest);
    assert(members + one =~= members.push(one[0]));
}

} // verus!
