//! Names that keep concurrent runs apart, and paths.
use vstd::prelude::*;
use crate::decimal::{
    decimal, decimal_text, decimal_wide, is_digit, law_decimal_is_injective, lemma_decimal_denotes,
};
use crate::text::chars_of;

verus! {

/// `name` under the directory `base`, as Unix paths are joined: an absolute
/// `name` stands alone, and a separator comes between where none is.
pub open spec fn joined_path(base: Seq<char>, name: Seq<char>) -> Seq<char> {
    if name.len() > 0 && name[0] == '/' {
        name
    } else if base.len() == 0 || base.last() == '/' {
        base + name
    } else {
        base + "/"@ + name
    }
}

/// `name` under the directory `base`.
pub fn join_path(base: &str, name: &str) -> (r: String)
    ensures
        r@ == joined_path(base@, name@),
{
    let base_chars = chars_of(base);
    let name_chars = chars_of(name);
    if name_chars.len() > 0 && name_chars[0] == '/' {
        return name.to_owned();
    }
    let mut out: String = base.to_owned();
    if base_chars.len() > 0 && base_chars[base_chars.len() - 1] != '/' {
        out.append("/");
    }
    out.append(name);
    out
}

/// A short name from a prefix, a process and a time.
pub open spec fn short_name(prefix: Seq<char>, process_id: nat, nanos: nat) -> Seq<char> {
    prefix + "_"@ + decimal_text(process_id % 10000) + "_"@ + decimal_text(nanos % 100000)
}

/// A name for a shared-memory segment of the given process, made at the given
/// time.
pub fn unique_shm_segment(prefix: &str, process_id: u32, nanos: u128) -> (r: String)
    ensures
        r@ == short_name(prefix@, process_id as nat, nanos as nat),
{
    let mut out: String = prefix.to_owned();
    out.append("_");
    out.append(decimal((process_id % 10000) as u64).as_str());
    out.append("_");
    out.append(decimal((nanos % 100000) as u64).as_str());
    out
}

/// A name for a memory-mapped segment of the given process, made at the given
/// time.
pub fn unique_mmap_segment(prefix: &str, process_id: u32, nanos: u128) -> (r: String)
    ensures
        r@ == short_name(prefix@, process_id as nat, nanos as nat),
{
    unique_shm_segment(prefix, process_id, nanos)
}

/// A root directory for memory-mapped segments of the given process, made at
/// the given time.
pub fn unique_mmap_root(temp_dir: &str, prefix: &str, process_id: u32, nanos: u128) -> (r: String)
    ensures
        r@ == joined_path(
            temp_dir@,
            prefix@ + "_"@ + decimal_text(process_id as nat) + "_"@ + decimal_text(nanos as nat),
        ),
{
    let mut name: String = prefix.to_owned();
    name.append("_");
    name.append(decimal(process_id as u64).as_str());
    name.append("_");
    name.append(decimal_wide(nanos).as_str());
    join_path(temp_dir, name.as_str())
}

/// The value of a variable that has to be set.
pub fn segment_from_env(key: &str, value: Option<&str>) -> (r: Result<String, String>)
    ensures
        match r {
            Ok(segment) => value is Some && segment@ == value->0@,
            Err(message) => value is None && message@ == key@ + " env var not set"@,
        },
{
    match value {
        Some(text) => Ok(text.to_owned()),
        None => {
            let mut message: String = key.to_owned();
            message.append(" env var not set");
            Err(message)
        },
    }
}

/// The root directory and the segment named by two variables that have to be
/// set.
pub fn mmap_layout_from_env(
    root_key: &str,
    root: Option<&str>,
    segment_key: &str,
    segment: Option<&str>,
) -> (r: Result<(String, String), String>)
    ensures
        match r {
            Ok((root_dir, name)) => root is Some && segment is Some && root_dir@ == root->0@
                && name@ == segment->0@,
            Err(message) => {
                ||| root is None && message@ == root_key@ + " not set"@
                ||| root is Some && segment is None && message@ == segment_key@ + " not set"@
            },
        },
{
    let root_dir = match root {
        Some(text) => text.to_owned(),
        None => {
            let mut message: String = root_key.to_owned();
            message.append(" not set");
            return Err(message);
        },
    };
    match segment {
        Some(text) => Ok((root_dir, text.to_owned())),
        None => {
            let mut message: String = segment_key.to_owned();
            message.append(" not set");
            Err(message)
        },
    }
}

/// A decimal notation holds no underscore.
proof fn lemma_number_has_no_underscore(n: nat, i: int)
    requires
        0 <= i < decimal_text(n).len(),
    ensures
        decimal_text(n)[i] != '_',
{
    lemma_decimal_denotes(n);
    assert(is_digit(decimal_text(n)[i]));
}

/// Two numbers behind a prefix, with underscores between, can be told from
/// their text.
proof fn lemma_numbers_are_told(prefix: Seq<char>, a: nat, b: nat, c: nat, d: nat)
    requires
        prefix + "_"@ + decimal_text(a) + "_"@ + decimal_text(b) == prefix + "_"@ + decimal_text(c)
            + "_"@ + decimal_text(d),
    ensures
        a == c,
        b == d,
{
    reveal_strlit("_");
    let first = decimal_text(a);
    let second = decimal_text(c);
    let left = prefix + "_"@ + first + "_"@ + decimal_text(b);
    let right = prefix + "_"@ + second + "_"@ + decimal_text(d);
    let start = prefix.len() as int + 1;
    assert(left[start + first.len()] == '_');
    assert(right[start + second.len()] == '_');
    if first.len() < second.len() {
        lemma_number_has_no_underscore(c, first.len() as int);
        assert(right[start + first.len()] == second[first.len() as int]);
    }
    if second.len() < first.len() {
        lemma_number_has_no_underscore(a, second.len() as int);
        assert(left[start + second.len()] == first[second.len() as int]);
    }
    let end = start + first.len();
    assert(left.subrange(start, end) =~= first);
    assert(right.subrange(start, end) =~= second);
    assert(left.skip(end + 1) =~= decimal_text(b));
    assert(right.skip(end + 1) =~= decimal_text(d));
    law_decimal_is_injective(a, c);
    law_decimal_is_injective(b, d);
}

/// Segments that were named in processes whose numbers differ in their last
/// four digits, or at times that differ in their last five, have different
/// names.
pub proof fn law_segments_get_distinct_names(prefix: Seq<char>, p: nat, q: nat, t: nat, u: nat)
    requires
        p % 10000 != q % 10000 || t % 100000 != u % 100000,
    ensures
        short_name(prefix, p, t) != short_name(prefix, q, u),
{
    if short_name(prefix, p, t) == short_name(prefix, q, u) {
        lemma_numbers_are_told(prefix, p % 10000, t % 100000, q % 10000, u % 100000);
    }
}

/// Root directories that were named in different processes or at different
/// times have different paths.
pub proof fn law_roots_get_distinct_paths(
    temp_dir: Seq<char>,
    prefix: Seq<char>,
    p: nat,
    q: nat,
    t: nat,
    u: nat,
)
    requires
        p != q || t != u,
    ensures
        joined_path(temp_dir, prefix + "_"@ + decimal_text(p) + "_"@ + decimal_text(t))
            != joined_path(temp_dir, prefix + "_"@ + decimal_text(q) + "_"@ + decimal_text(u)),
{
    let a = prefix + "_"@ + decimal_text(p) + "_"@ + decimal_text(t);
    let b = prefix + "_"@ + decimal_text(q) + "_"@ + decimal_text(u);
    reveal_strlit("_");
    reveal_strlit("/");
    if joined_path(temp_dir, a) == joined_path(temp_dir, b) {
        assert(a[0] == if prefix.len() > 0 {
            prefix[0]
        } else {
            '_'
        });
        assert(b[0] == a[0]);
        if a[0] != '/' {
            let lead = if temp_dir.len() == 0 || temp_dir.last() == '/' {
                temp_dir
            } else {
                temp_dir + "/"@
            };
            assert((lead + a).skip(lead.len() as int) =~= a);
            assert((lead + b).skip(lead.len() as int) =~= b);
        }
        lemma_numbers_are_told(prefix, p, t, q, u);
    }
}

/// A relative name lies below its directory, with one slash between the two; an
/// absolute name stands for itself.
pub proof fn law_joined_path_lies_below(base: Seq<char>, name: Seq<char>)
    requires
        base.len() > 0,
        name.len() > 0,
    ensures
        name[0] == '/' ==> joined_path(base, name) == name,
        name[0] != '/' && base.last() == '/' ==> joined_path(base, name) == base + name,
        name[0] != '/' && base.last() != '/' ==> joined_path(base, name) == base + seq!['/'] + name,
        name[0] != '/' ==> joined_path(base, name).take(base.len() as int) == base,
        name[0] != '/' ==> joined_path(base, name).skip(
            joined_path(base, name).len() - name.len(),
        ) == name,
{
    reveal_strlit("/");
    assert("/"@ =~= seq!['/']);
    if name[0] != '/' {
        let path = joined_path(base, name);
        assert(path.take(base.len() as int) =~= base);
        assert(path.skip(path.len() - name.len()) =~= name);
    }
}

} // verus!
