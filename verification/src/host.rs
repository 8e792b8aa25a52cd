//! What is noted of the machine and of the source that a run was made with.
use vstd::prelude::*;
use crate::text::{
    begins_with, chars_of, has_prefix, lines, lines_of, split_on, split_text, text_between, views,
};

verus! {

/// White space as Unicode has it.
pub open spec fn is_white_space(c: char) -> bool {
    ||| '\u{9}' <= c <= '\u{d}'
    ||| c == ' '
    ||| c == '\u{85}'
    ||| c == '\u{a0}'
    ||| c == '\u{1680}'
    ||| '\u{2000}' <= c <= '\u{200a}'
    ||| '\u{2028}' <= c <= '\u{2029}'
    ||| c == '\u{202f}'
    ||| c == '\u{205f}'
    ||| c == '\u{3000}'
}

/// `text` without the white space at its two ends.
pub open spec fn trimmed(text: Seq<char>) -> Seq<char>
    decreases text.len(),
{
    if text.len() > 0 && is_white_space(text[0]) {
        trimmed(text.skip(1))
    } else if text.len() > 0 && is_white_space(text.last()) {
        trimmed(text.drop_last())
    } else {
        text
    }
}

/// Whether a character is white space.
pub fn white_space(c: char) -> (r: bool)
    ensures
        r == is_white_space(c),
{
    ('\u{9}' <= c && c <= '\u{d}') || c == ' ' || c == '\u{85}' || c == '\u{a0}' || c == '\u{1680}'
        || ('\u{2000}' <= c && c <= '\u{200a}') || ('\u{2028}' <= c && c <= '\u{2029}') || c
        == '\u{202f}' || c == '\u{205f}' || c == '\u{3000}'
}

/// `text` without the white space at its two ends.
pub fn trim(text: &str) -> (r: String)
    ensures
        r@ == trimmed(text@),
{
    let chars = chars_of(text);
    let mut start: usize = 0;
    assert(chars@.skip(0) =~= chars@);
    while start < chars.len() && white_space(chars[start])
        invariant
            start <= chars@.len(),
            trimmed(chars@) == trimmed(chars@.skip(start as int)),
        decreases chars@.len() - start,
    {
        assert(chars@.skip(start as int).skip(1) =~= chars@.skip(start + 1));
        start = start + 1;
    }
    let mut end: usize = chars.len();
    assert(chars@.subrange(start as int, end as int) =~= chars@.skip(start as int));
    while start < end && white_space(chars[end - 1])
        invariant
            start <= end <= chars@.len(),
            start < chars@.len() ==> !is_white_space(chars@[start as int]),
            trimmed(chars@) == trimmed(chars@.subrange(start as int, end as int)),
        decreases end,
    {
        assert(chars@.subrange(start as int, end as int).drop_last() =~= chars@.subrange(
            start as int,
            end - 1,
        ));
        end = end - 1;
    }
    text_between(&chars, start, end)
}

/// The first of the lines that begins with `prefix`.
pub open spec fn first_with_prefix(all: Seq<Seq<char>>, prefix: Seq<char>) -> Option<Seq<char>>
    decreases all.len(),
{
    if all.len() == 0 {
        None
    } else if has_prefix(all[0], prefix) {
        Some(all[0])
    } else {
        first_with_prefix(all.skip(1), prefix)
    }
}

/// The first of the lines that begins with `prefix`.
fn find_line(all: &Vec<String>, prefix: &str) -> (r: Option<usize>)
    ensures
        match r {
            Some(i) => i < all@.len() && first_with_prefix(views(all@), prefix@) == Some(
                all@[i as int]@,
            ),
            None => first_with_prefix(views(all@), prefix@) is None,
        },
{
    assert(views(all@).skip(0) =~= views(all@));
    for i in 0..all.len()
        invariant
            first_with_prefix(views(all@), prefix@) == first_with_prefix(
                views(all@).skip(i as int),
                prefix@,
            ),
    {
        if begins_with(all[i].as_str(), prefix) {
            return Some(i);
        }
        assert(views(all@).skip(i as int).skip(1) =~= views(all@).skip(i + 1));
    }
    None
}

/// The second field of the first line of `cpuinfo` that names a model: what
/// stands after its first colon and before the next. `Some(None)` where that
/// line has no colon.
pub open spec fn model_field(cpuinfo: Seq<char>) -> Option<Option<Seq<char>>> {
    match first_with_prefix(lines_of(cpuinfo), "model name"@) {
        Some(line) => {
            let fields = split_on(line, ':');
            if fields.len() > 1 {
                Some(Some(trimmed(fields[1])))
            } else {
                Some(None)
            }
        },
        None => None,
    }
}

/// The second field of the first line that names a model.
fn find_model(cpuinfo: &str) -> (r: Option<Option<String>>)
    ensures
        match r {
            Some(Some(model)) => model_field(cpuinfo@) == Some(Some(model@)),
            Some(None) => model_field(cpuinfo@) == Some(None::<Seq<char>>),
            None => model_field(cpuinfo@) is None,
        },
{
    let all = lines(cpuinfo);
    match find_line(&all, "model name") {
        Some(i) => {
            let fields = split_text(all[i].as_str(), ':');
            assert(views(fields@).len() == fields@.len());
            if fields.len() > 1 {
                let model = trim(fields[1].as_str());
                assert(model@ == trimmed(views(fields@)[1]));
                Some(Some(model))
            } else {
                Some(None)
            }
        },
        None => None,
    }
}

/// The model of the processor, as results note it: empty where its line has no
/// colon, and unknown where there is no such line or nothing could be read.
pub fn result_cpu(cpuinfo: Option<&str>) -> (r: String)
    ensures
        r@ == match cpuinfo {
            Some(text) => match model_field(text@) {
                Some(Some(model)) => model,
                Some(None) => Seq::empty(),
                None => "unknown"@,
            },
            None => "unknown"@,
        },
{
    match cpuinfo {
        Some(text) => match find_model(text) {
            Some(Some(model)) => model,
            Some(None) => String::new(),
            None => "unknown".to_owned(),
        },
        None => "unknown".to_owned(),
    }
}

/// The model of the processor, as the run's own metadata notes it: unknown
/// where no line names it after a colon, or nothing could be read.
pub fn run_cpu(cpuinfo: Option<&str>) -> (r: String)
    ensures
        r@ == match cpuinfo {
            Some(text) => match model_field(text@) {
                Some(Some(model)) => model,
                _ => "unknown"@,
            },
            None => "unknown"@,
        },
{
    match cpuinfo {
        Some(text) => match find_model(text) {
            Some(Some(model)) => model,
            _ => "unknown".to_owned(),
        },
        None => "unknown".to_owned(),
    }
}

/// What a program printed, without the white space at its ends; `otherwise`
/// where it could not be run or its output is no text.
pub fn printed_or(output: Option<&str>, otherwise: &str) -> (r: String)
    ensures
        r@ == match output {
            Some(text) => trimmed(text@),
            None => otherwise@,
        },
{
    match output {
        Some(text) => trim(text),
        None => otherwise.to_owned(),
    }
}

/// The commit that a successful command printed.
pub fn printed_commit(succeeded: bool, output: Option<&str>) -> (r: Option<String>)
    ensures
        match r {
            Some(commit) => succeeded && output is Some && commit@ == trimmed(output->0@),
            None => !succeeded || output is None,
        },
{
    match output {
        Some(text) => if succeeded {
            Some(trim(text))
        } else {
            None
        },
        None => None,
    }
}

/// The platform: the operating system and the architecture.
pub fn platform(os: &str, arch: &str) -> (r: String)
    ensures
        r@ == os@ + " "@ + arch@,
{
    let mut out: String = os.to_owned();
    out.append(" ");
    out.append(arch);
    out
}

/// Trimmed text has no white space at its ends, and trimming it again changes
/// nothing.
pub proof fn law_trimming_twice_is_once(text: Seq<char>)
    ensures
        trimmed(text).len() > 0 ==> !is_white_space(trimmed(text)[0]) && !is_white_space(
            trimmed(text).last(),
        ),
        trimmed(trimmed(text)) == trimmed(text),
    decreases text.len(),
{
    if text.len() > 0 && is_white_space(text[0]) {
        law_trimming_twice_is_once(text.skip(1));
    } else if text.len() > 0 && is_white_space(text.last()) {
        law_trimming_twice_is_once(text.drop_last());
    }
}

/// A trimmed text is what stands between the white space at the two ends: it
/// neither begins nor ends with any, and what was taken away is nothing else.
pub proof fn law_trimming_takes_white_space_only(text: Seq<char>) -> (ends: (int, int))
    ensures
        0 <= ends.0 <= ends.1 <= text.len(),
        trimmed(text) == text.subrange(ends.0, ends.1),
        forall|i: int| 0 <= i < ends.0 ==> is_white_space(#[trigger] text[i]),
        forall|i: int| ends.1 <= i < text.len() ==> is_white_space(#[trigger] text[i]),
        trimmed(text).len() > 0 ==> !is_white_space(trimmed(text)[0]) && !is_white_space(
            trimmed(text).last(),
        ),
    decreases text.len(),
{
    if text.len() > 0 && is_white_space(text[0]) {
        let rest = text.skip(1);
        let inner = law_trimming_takes_white_space_only(rest);
        assert(rest.subrange(inner.0, inner.1) =~= text.subrange(inner.0 + 1, inner.1 + 1));
        assert forall|i: int| 0 <= i < inner.0 + 1 implies is_white_space(#[trigger] text[i]) by {
            if i > 0 {
                assert(text[i] == rest[i - 1]);
            }
        }
        assert forall|i: int| inner.1 + 1 <= i < text.len() implies is_white_space(
            #[trigger] text[i],
        ) by {
            assert(text[i] == rest[i - 1]);
        }
        (inner.0 + 1, inner.1 + 1)
    } else if text.len() > 0 && is_white_space(text.last()) {
        let rest = text.drop_last();
        let inner = law_trimming_takes_white_space_only(rest);
        assert(rest.subrange(inner.0, inner.1) =~= text.subrange(inner.0, inner.1));
        assert forall|i: int| 0 <= i < inner.0 implies is_white_space(#[trigger] text[i]) by {
            assert(text[i] == rest[i]);
        }
        assert forall|i: int| inner.1 <= i < text.len() implies is_white_space(
            #[trigger] text[i],
        ) by {
            if i < text.len() - 1 {
                assert(text[i] == rest[i]);
            }
        }
        inner
    } else {
        assert(text.subrange(0, text.len() as int) =~= text);
        (0, text.len() as int)
    }
}

/// The line that is found begins with the prefix, and none before it does.
pub proof fn law_first_line_is_found(all: Seq<Seq<char>>, prefix: Seq<char>)
    ensures
        first_with_prefix(all, prefix) is None <==> forall|i: int|
            0 <= i < all.len() ==> !has_prefix(#[trigger] all[i], prefix),
        forall|i: int|
            #![trigger all[i]]
            0 <= i < all.len() && has_prefix(all[i], prefix) && (forall|j: int|
                0 <= j < i ==> !has_prefix(#[trigger] all[j], prefix)) ==> first_with_prefix(
                all,
                prefix,
            ) == Some(all[i]),
    decreases all.len(),
{
    if all.len() > 0 && !has_prefix(all[0], prefix) {
        let rest = all.skip(1);
        law_first_line_is_found(rest, prefix);
        if first_with_prefix(rest, prefix) is None {
            assert forall|i: int| 0 <= i < all.len() implies !has_prefix(
                #[trigger] all[i],
                prefix,
            ) by {
                if i > 0 {
                    assert(!has_prefix(rest[i - 1], prefix));
                }
            }
        }
        if forall|i: int| 0 <= i < all.len() ==> !has_prefix(#[trigger] all[i], prefix) {
            assert forall|i: int| 0 <= i < rest.len() implies !has_prefix(
                #[trigger] rest[i],
                prefix,
            ) by {
                assert(!has_prefix(all[i + 1], prefix));
            }
        }
        assert forall|i: int|
            #![trigger all[i]]
            0 <= i < all.len() && has_prefix(all[i], prefix) && (forall|j: int|
                0 <= j < i ==> !has_prefix(#[trigger] all[j], prefix)) implies first_with_prefix(
            all,
            prefix,
        ) == Some(all[i]) by {
            assert(i > 0);
            assert(rest[i - 1] == all[i]);
            assert forall|j: int| 0 <= j < i - 1 implies !has_prefix(
                #[trigger] rest[j],
                prefix,
            ) by {
                assert(!has_prefix(all[j + 1], prefix));
            }
        }
    }
}

} // verus!
