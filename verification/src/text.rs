//! Text primitives over sequences of characters.
//!
//! A `str` or `String` is viewed as its sequence of characters. Searching,
//! splitting and joining are stated on those sequences.
use vstd::prelude::*;

verus! {

/// `String::push` appends one character to the end of the text.
pub assume_specification[ String::push ](s: &mut String, c: char)
    ensures
        final(s)@ == old(s)@.push(c),
;

/// Equality of two `str` values is equality of their characters.
pub assume_specification[ <str as PartialEq<str>>::eq ](a: &str, b: &str) -> (r: bool)
    ensures
        r == (a@ == b@),
;

/// The views of a sequence of owned texts.
pub open spec fn views(texts: Seq<String>) -> Seq<Seq<char>> {
    Seq::new(texts.len(), |i: int| texts[i]@)
}

/// The view of an optional text.
pub open spec fn option_view(text: Option<String>) -> Option<Seq<char>> {
    match text {
        Some(t) => Some(t@),
        None => None,
    }
}

/// The view of an optional borrowed text.
pub open spec fn option_str_view(text: Option<&str>) -> Option<Seq<char>> {
    match text {
        Some(t) => Some(t@),
        None => None,
    }
}

/// `needle` stands in `hay` at position `i`.
pub open spec fn occurs_at(hay: Seq<char>, needle: Seq<char>, i: int) -> bool {
    &&& 0 <= i
    &&& i + needle.len() <= hay.len()
    &&& hay.subrange(i, i + needle.len()) == needle
}

/// `needle` stands somewhere in `hay`.
pub open spec fn contains_text(hay: Seq<char>, needle: Seq<char>) -> bool {
    exists|i: int| #[trigger] occurs_at(hay, needle, i)
}

/// `text` begins with `prefix`.
pub open spec fn has_prefix(text: Seq<char>, prefix: Seq<char>) -> bool {
    occurs_at(text, prefix, 0)
}

/// `text` ends with `suffix`.
pub open spec fn has_suffix(text: Seq<char>, suffix: Seq<char>) -> bool {
    occurs_at(text, suffix, text.len() - suffix.len())
}

/// The first place at which `needle` stands in `hay`, at or after `from`.
pub open spec fn is_first_from(hay: Seq<char>, needle: Seq<char>, from: int, i: int) -> bool {
    &&& from <= i
    &&& occurs_at(hay, needle, i)
    &&& forall|j: int| from <= j < i ==> !#[trigger] occurs_at(hay, needle, j)
}

/// `text` with the first `pattern` in it replaced; unchanged where there is none.
pub open spec fn replaced_once(text: Seq<char>, pattern: Seq<char>, with: Seq<char>) -> Seq<char> {
    if contains_text(text, pattern) {
        let i = choose|i: int| is_first_from(text, pattern, 0, i);
        text.take(i) + with + text.skip(i + pattern.len())
    } else {
        text
    }
}

/// The fields of `text` between the separators: one more field than separators.
pub open spec fn split_on(text: Seq<char>, separator: char) -> Seq<Seq<char>>
    decreases text.len(),
{
    if text.len() == 0 {
        seq![Seq::empty()]
    } else {
        let before = split_on(text.drop_last(), separator);
        if text.last() == separator {
            before.push(Seq::empty())
        } else {
            before.drop_last().push(before.last().push(text.last()))
        }
    }
}

/// The parts with `separator` between each two of them.
pub open spec fn joined(parts: Seq<Seq<char>>, separator: Seq<char>) -> Seq<char>
    decreases parts.len(),
{
    if parts.len() == 0 {
        Seq::empty()
    } else if parts.len() == 1 {
        parts[0]
    } else {
        joined(parts.drop_last(), separator) + separator + parts.last()
    }
}

/// A line ended by a line feed, without the carriage return before it.
pub open spec fn without_return(line: Seq<char>) -> Seq<char> {
    if line.len() > 0 && line.last() == '\r' {
        line.drop_last()
    } else {
        line
    }
}

/// The lines of `text`: ended by a line feed, with or without a carriage
/// return before it; an unended last line counts unless it is empty.
pub open spec fn lines_of(text: Seq<char>) -> Seq<Seq<char>> {
    let fields = split_on(text, '\n');
    let ended = Seq::new(
        (fields.len() - 1) as nat,
        |i: int| without_return(fields[i]),
    );
    if fields.last().len() == 0 {
        ended
    } else {
        ended.push(fields.last())
    }
}

/// The order of texts: by the first character in which they differ, a proper
/// prefix coming first.
pub open spec fn text_before(a: Seq<char>, b: Seq<char>) -> bool
    decreases a.len(),
{
    if b.len() == 0 {
        false
    } else if a.len() == 0 {
        true
    } else if a[0] == b[0] {
        text_before(a.skip(1), b.skip(1))
    } else {
        a[0] < b[0]
    }
}

/// A text has at least one field.
pub proof fn lemma_split_nonempty(text: Seq<char>, separator: char)
    ensures
        split_on(text, separator).len() >= 1,
    decreases text.len(),
{
    if text.len() > 0 {
        lemma_split_nonempty(text.drop_last(), separator);
    }
}

/// Joining the fields of a text by their separator gives the text back.
pub proof fn law_join_undoes_split(text: Seq<char>, separator: char)
    ensures
        joined(split_on(text, separator), seq![separator]) == text,
    decreases text.len(),
{
    if text.len() == 0 {
        assert(joined(seq![Seq::<char>::empty()], seq![separator]) =~= text);
    } else {
        let before = split_on(text.drop_last(), separator);
        let fields = split_on(text, separator);
        lemma_split_nonempty(text.drop_last(), separator);
        law_join_undoes_split(text.drop_last(), separator);
        if text.last() == separator {
            assert(fields.drop_last() =~= before);
            assert(joined(fields, seq![separator]) =~= text);
        } else if before.len() == 1 {
            assert(fields =~= seq![before[0].push(text.last())]);
            assert(joined(fields, seq![separator]) =~= text);
        } else {
            assert(fields.drop_last() =~= before.drop_last());
            assert(joined(before, seq![separator]) == joined(before.drop_last(), seq![separator])
                + seq![separator] + before.last());
            assert(text =~= text.drop_last().push(text.last()));
            assert(joined(fields, seq![separator]) =~= text);
        }
    }
}

/// A text without the separator is one part.
pub proof fn law_unbroken_text_is_one_part(text: Seq<char>, separator: char)
    requires
        !text.contains(separator),
    ensures
        split_on(text, separator) == seq![text],
    decreases text.len(),
{
    if text.len() > 0 {
        let before = text.drop_last();
        assert forall|i: int| 0 <= i < before.len() implies before[i] != separator by {
            assert(text.contains(text[i]));
        }
        law_unbroken_text_is_one_part(before, separator);
        assert(text.contains(text.last()));
        assert(before.push(text.last()) =~= text);
        assert(split_on(text, separator) =~= seq![text]);
    } else {
        assert(text =~= Seq::empty());
    }
}

/// Splitting cuts at the first separator, and what follows it is split in the
/// same way.
pub proof fn law_split_cuts_at_separator(head: Seq<char>, separator: char, tail: Seq<char>)
    requires
        !head.contains(separator),
    ensures
        split_on(head + seq![separator] + tail, separator) == seq![head] + split_on(
            tail,
            separator,
        ),
    decreases tail.len(),
{
    let text = head + seq![separator] + tail;
    if tail.len() == 0 {
        assert(text.drop_last() =~= head);
        law_unbroken_text_is_one_part(head, separator);
        assert(split_on(text, separator) =~= seq![head] + split_on(tail, separator));
    } else {
        let shorter = tail.drop_last();
        law_split_cuts_at_separator(head, separator, shorter);
        lemma_split_nonempty(shorter, separator);
        assert(text.drop_last() =~= head + seq![separator] + shorter);
        let before = split_on(shorter, separator);
        assert((seq![head] + before).last() == before.last());
        assert(split_on(text, separator) =~= seq![head] + split_on(tail, separator));
    }
}

/// No field of a split text holds the separator.
pub proof fn law_fields_hold_no_separator(text: Seq<char>, separator: char, i: int)
    requires
        0 <= i < split_on(text, separator).len(),
    ensures
        !split_on(text, separator)[i].contains(separator),
    decreases text.len(),
{
    if text.len() > 0 {
        let before = split_on(text.drop_last(), separator);
        lemma_split_nonempty(text.drop_last(), separator);
        if i < before.len() {
            law_fields_hold_no_separator(text.drop_last(), separator, i);
        }
        if text.last() != separator && i == before.len() - 1 {
            let grown = before.last().push(text.last());
            assert(split_on(text, separator)[i] == grown);
            assert forall|j: int| 0 <= j < grown.len() implies grown[j] != separator by {
                if j < before.last().len() {
                    assert(before.last().contains(before.last()[j]));
                }
            }
        }
    }
}

/// The order of texts is strict and total.
pub proof fn law_text_order_is_total(a: Seq<char>, b: Seq<char>)
    ensures
        !text_before(a, a),
        !(text_before(a, b) && text_before(b, a)),
        text_before(a, b) || a == b || text_before(b, a),
    decreases a.len(),
{
    if a.len() > 0 {
        law_text_order_is_total(a.skip(1), a.skip(1));
    }
    if a.len() > 0 && b.len() > 0 {
        law_text_order_is_total(a.skip(1), b.skip(1));
        if a[0] == b[0] && a.skip(1) == b.skip(1) {
            assert(a =~= seq![a[0]] + a.skip(1));
            assert(b =~= seq![b[0]] + b.skip(1));
        }
    } else if a.len() == 0 && b.len() == 0 {
        assert(a =~= b);
    }
}

/// The order of texts is transitive.
pub proof fn law_text_order_is_transitive(a: Seq<char>, b: Seq<char>, c: Seq<char>)
    requires
        text_before(a, b),
        text_before(b, c),
    ensures
        text_before(a, c),
    decreases a.len(),
{
    if a.len() > 0 && a[0] == b[0] && b[0] == c[0] {
        law_text_order_is_transitive(a.skip(1), b.skip(1), c.skip(1));
    }
}

/// Whether two texts hold the same characters.
pub fn same_text(a: &str, b: &str) -> (r: bool)
    ensures
        r == (a@ == b@),
{
    *a == *b
}

/// Whether two optional texts are both absent, or both present and the same.
pub fn same_option_text(a: &Option<String>, b: &Option<String>) -> (r: bool)
    ensures
        r == (option_view(*a) == option_view(*b)),
{
    match (a, b) {
        (None, None) => true,
        (Some(x), Some(y)) => same_text(x.as_str(), y.as_str()),
        _ => false,
    }
}

/// A copy of an optional text.
pub fn copied_option_text(text: &Option<String>) -> (r: Option<String>)
    ensures
        r == *text,
{
    match text {
        Some(t) => Some(t.clone()),
        None => None,
    }
}

/// An owned copy of an optional borrowed text.
pub fn owned_option_text(text: Option<&str>) -> (r: Option<String>)
    ensures
        option_view(r) == option_str_view(text),
{
    match text {
        Some(t) => Some(t.to_owned()),
        None => None,
    }
}

/// A copy of a list of texts.
pub fn copied_texts(texts: &Vec<String>) -> (r: Vec<String>)
    ensures
        r@ == texts@,
{
    let mut out: Vec<String> = Vec::new();
    for i in 0..texts.len()
        invariant
            out@ == texts@.take(i as int),
    {
        out.push(texts[i].clone());
        assert(texts@.take(i + 1) =~= texts@.take(i as int).push(texts@[i as int]));
    }
    assert(texts@.take(texts.len() as int) =~= texts@);
    out
}

/// The characters of a text.
pub fn chars_of(text: &str) -> (r: Vec<char>)
    ensures
        r@ == text@,
{
    let mut out: Vec<char> = Vec::new();
    for c in it: text.chars()
        invariant
            it.seq() == text@,
            out@ == it.seq().take(it.index() as int),
    {
        out.push(c);
    }
    out
}

/// The text of the characters from `from` up to `to`.
pub fn text_between(chars: &Vec<char>, from: usize, to: usize) -> (r: String)
    requires
        from <= to <= chars@.len(),
    ensures
        r@ == chars@.subrange(from as int, to as int),
{
    let mut out = String::new();
    for i in from..to
        invariant
            from <= to <= chars@.len(),
            out@ == chars@.subrange(from as int, i as int),
    {
        out.push(chars[i]);
        assert(chars@.subrange(from as int, i + 1) =~= chars@.subrange(from as int, i as int).push(
            chars@[i as int],
        ));
    }
    out
}

/// Whether `needle` stands in `hay` at position `at`.
fn stands_at(hay: &Vec<char>, needle: &Vec<char>, at: usize) -> (r: bool)
    ensures
        r == occurs_at(hay@, needle@, at as int),
{
    if at > hay.len() || hay.len() - at < needle.len() {
        return false;
    }
    let ghost window = hay@.subrange(at as int, at + needle@.len());
    for i in 0..needle.len()
        invariant
            at + needle.len() <= hay.len(),
            window == hay@.subrange(at as int, at + needle@.len()),
            window.take(i as int) == needle@.take(i as int),
    {
        assert(window[i as int] == hay@[at + i]);
        if hay[at + i] != needle[i] {
            assert(window[i as int] != needle@[i as int]);
            return false;
        }
        assert(window.take(i + 1) =~= window.take(i as int).push(window[i as int]));
        assert(needle@.take(i + 1) =~= needle@.take(i as int).push(needle@[i as int]));
    }
    assert(window.take(needle@.len() as int) =~= window);
    assert(needle@.take(needle@.len() as int) =~= needle@);
    true
}

/// The first position at or after `from` at which `needle` stands in `hay`.
fn find_from(hay: &Vec<char>, needle: &Vec<char>, from: usize) -> (r: Option<usize>)
    ensures
        match r {
            Some(i) => is_first_from(hay@, needle@, from as int, i as int),
            None => forall|i: int| from <= i ==> !#[trigger] occurs_at(hay@, needle@, i),
        },
{
    let mut at = from;
    while at <= hay.len()
        invariant
            from <= at,
            from <= hay@.len() ==> at <= hay@.len() + 1,
            from > hay@.len() ==> at == from,
            forall|i: int| from <= i < at ==> !#[trigger] occurs_at(hay@, needle@, i),
        decreases hay@.len() + 1 - at,
    {
        if stands_at(hay, needle, at) {
            return Some(at);
        }
        if at == hay.len() {
            return None;
        }
        at = at + 1;
    }
    None
}

/// Where a text first stands in another is one place.
pub proof fn lemma_first_is_unique(hay: Seq<char>, needle: Seq<char>, from: int, i: int, j: int)
    requires
        is_first_from(hay, needle, from, i),
        is_first_from(hay, needle, from, j),
    ensures
        i == j,
{
    if i < j {
        assert(!occurs_at(hay, needle, i));
    } else if j < i {
        assert(!occurs_at(hay, needle, j));
    }
}

/// Whether `needle` stands somewhere in `hay`.
pub fn holds_text(hay: &str, needle: &str) -> (r: bool)
    ensures
        r == contains_text(hay@, needle@),
{
    let hay_chars = chars_of(hay);
    let needle_chars = chars_of(needle);
    find_from(&hay_chars, &needle_chars, 0).is_some()
}

/// Whether `text` begins with `prefix`.
pub fn begins_with(text: &str, prefix: &str) -> (r: bool)
    ensures
        r == has_prefix(text@, prefix@),
{
    let chars = chars_of(text);
    let prefix_chars = chars_of(prefix);
    stands_at(&chars, &prefix_chars, 0)
}

/// What follows `prefix` in `text`, where `text` begins with it.
pub fn after_prefix(text: &str, prefix: &str) -> (r: Option<String>)
    ensures
        match r {
            Some(rest) => has_prefix(text@, prefix@) && rest@ == text@.skip(prefix@.len() as int),
            None => !has_prefix(text@, prefix@),
        },
{
    let chars = chars_of(text);
    let prefix_chars = chars_of(prefix);
    if stands_at(&chars, &prefix_chars, 0) {
        Some(text_between(&chars, prefix_chars.len(), chars.len()))
    } else {
        None
    }
}

/// What precedes `suffix` in `text`, where `text` ends with it.
pub fn before_suffix(text: &str, suffix: &str) -> (r: Option<String>)
    ensures
        match r {
            Some(rest) => has_suffix(text@, suffix@) && rest@ == text@.take(
                text@.len() - suffix@.len(),
            ),
            None => !has_suffix(text@, suffix@),
        },
{
    let chars = chars_of(text);
    let suffix_chars = chars_of(suffix);
    if suffix_chars.len() <= chars.len() {
        let at: usize = chars.len() - suffix_chars.len();
        if stands_at(&chars, &suffix_chars, at) {
            return Some(text_between(&chars, 0, at));
        }
    }
    None
}

/// `text` with its first `pattern` replaced.
pub fn replace_once(text: &str, pattern: &str, with: &str) -> (r: String)
    ensures
        r@ == replaced_once(text@, pattern@, with@),
{
    let chars = chars_of(text);
    let pattern_chars = chars_of(pattern);
    match find_from(&chars, &pattern_chars, 0) {
        Some(i) => {
            proof {
                let first = choose|k: int| is_first_from(text@, pattern@, 0, k);
                lemma_first_is_unique(text@, pattern@, 0, first, i as int);
                assert(occurs_at(text@, pattern@, i as int));
            }
            assert(i + pattern_chars.len() <= chars.len());
            let mut out = text_between(&chars, 0, i);
            out.append(with);
            out.append(text_between(&chars, i + pattern_chars.len(), chars.len()).as_str());
            out
        },
        None => {
            assert(!contains_text(text@, pattern@));
            text.to_owned()
        },
    }
}

/// `text` with every `pattern` replaced, from the first on.
pub open spec fn replaced_all(text: Seq<char>, pattern: Seq<char>, with: Seq<char>) -> Seq<char>
    decreases text.len(),
{
    if text.len() == 0 || pattern.len() == 0 {
        text
    } else if has_prefix(text, pattern) {
        with + replaced_all(text.skip(pattern.len() as int), pattern, with)
    } else {
        seq![text[0]] + replaced_all(text.skip(1), pattern, with)
    }
}

/// `text` with every `pattern` replaced.
pub fn replace_all(text: &str, pattern: &str, with: &str) -> (r: String)
    requires
        pattern@.len() > 0,
    ensures
        r@ == replaced_all(text@, pattern@, with@),
{
    let chars = chars_of(text);
    let pattern_chars = chars_of(pattern);
    let mut out = String::new();
    let mut at: usize = 0;
    assert(text@.skip(0) =~= text@);
    assert(out@ + replaced_all(text@, pattern@, with@) =~= replaced_all(text@, pattern@, with@));
    while at < chars.len()
        invariant
            chars@ == text@,
            pattern_chars@ == pattern@,
            pattern@.len() > 0,
            at <= chars@.len(),
            out@ + replaced_all(text@.skip(at as int), pattern@, with@) == replaced_all(
                text@,
                pattern@,
                with@,
            ),
        decreases chars@.len() - at,
    {
        let ghost rest = text@.skip(at as int);
        let ghost before = out@;
        let found = stands_at(&chars, &pattern_chars, at);
        assert(found == has_prefix(rest, pattern@)) by {
            if at + pattern@.len() <= text@.len() {
                assert(text@.subrange(at as int, at + pattern@.len()) =~= rest.subrange(
                    0,
                    pattern@.len() as int,
                ));
            }
        }
        if found {
            out.append(with);
            at = at + pattern_chars.len();
            assert(rest.skip(pattern@.len() as int) =~= text@.skip(at as int));
        } else {
            out.push(chars[at]);
            at = at + 1;
            assert(rest.skip(1) =~= text@.skip(at as int));
        }
        let ghost after = replaced_all(text@.skip(at as int), pattern@, with@);
        assert(out@ + after =~= before + replaced_all(rest, pattern@, with@));
    }
    assert(text@.skip(at as int) =~= Seq::empty());
    assert(out@ =~= out@ + replaced_all(text@.skip(at as int), pattern@, with@));
    out
}

/// The fields of a text between its separators.
pub fn split_text(text: &str, separator: char) -> (r: Vec<String>)
    ensures
        views(r@) == split_on(text@, separator),
        r@.len() >= 1,
{
    let chars = chars_of(text);
    let mut fields: Vec<String> = Vec::new();
    let mut field = String::new();
    assert(views(fields@).push(field@) =~= split_on(chars@.take(0), separator));
    for i in 0..chars.len()
        invariant
            views(fields@).push(field@) == split_on(chars@.take(i as int), separator),
    {
        let ghost before = views(fields@).push(field@);
        let ghost taken = chars@.take(i + 1);
        assert(taken.drop_last() =~= chars@.take(i as int));
        assert(before.drop_last() =~= views(fields@));
        if chars[i] == separator {
            fields.push(field);
            field = String::new();
            assert(views(fields@) =~= before);
        } else {
            field.push(chars[i]);
        }
        assert(views(fields@).push(field@) =~= split_on(taken, separator));
    }
    assert(chars@.take(chars@.len() as int) =~= chars@);
    let ghost all = views(fields@).push(field@);
    fields.push(field);
    assert(views(fields@) =~= all);
    fields
}

/// The texts with `separator` between each two of them.
pub fn join_texts(parts: &Vec<String>, separator: &str) -> (r: String)
    ensures
        r@ == joined(views(parts@), separator@),
{
    let mut out = String::new();
    for i in 0..parts.len()
        invariant
            out@ == joined(views(parts@).take(i as int), separator@),
    {
        let ghost taken = views(parts@).take(i + 1);
        assert(taken.drop_last() =~= views(parts@).take(i as int));
        if i > 0 {
            out.append(separator);
        }
        out.append(parts[i].as_str());
        assert(out@ =~= joined(taken, separator@));
    }
    assert(views(parts@).take(parts@.len() as int) =~= views(parts@));
    out
}

/// The lines of a text.
pub fn lines(text: &str) -> (r: Vec<String>)
    ensures
        views(r@) == lines_of(text@),
{
    let fields = split_text(text, '\n');
    let ghost all = views(fields@);
    let last: usize = fields.len() - 1;
    let mut out: Vec<String> = Vec::new();
    for i in 0..last
        invariant
            last < fields@.len(),
            all == views(fields@),
            views(out@) == Seq::new(i as nat, |k: int| without_return(all[k])),
    {
        let chars = chars_of(fields[i].as_str());
        let ghost before = views(out@);
        if chars.len() > 0 && chars[chars.len() - 1] == '\r' {
            out.push(text_between(&chars, 0, chars.len() - 1));
        } else {
            out.push(fields[i].clone());
        }
        assert(out@.last()@ =~= without_return(all[i as int]));
        assert(views(out@) =~= before.push(out@.last()@));
        assert(views(out@) =~= Seq::new((i + 1) as nat, |k: int| without_return(all[k])));
    }
    if !fields[last].as_str().is_empty() {
        let ghost before = views(out@);
        out.push(fields[last].clone());
        assert(views(out@) =~= before.push(all.last()));
    }
    assert(views(out@) =~= lines_of(text@));
    out
}

/// Whether `a` comes before `b` in the order of texts.
pub fn comes_before(a: &str, b: &str) -> (r: bool)
    ensures
        r == text_before(a@, b@),
{
    let left = chars_of(a);
    let right = chars_of(b);
    let mut i: usize = 0;
    assert(a@.skip(0) =~= a@);
    assert(b@.skip(0) =~= b@);
    while i < left.len() && i < right.len()
        invariant
            left@ == a@,
            right@ == b@,
            i <= left@.len(),
            i <= right@.len(),
            text_before(a@, b@) == text_before(a@.skip(i as int), b@.skip(i as int)),
        decreases left@.len() - i,
    {
        if left[i] != right[i] {
            return left[i] < right[i];
        }
        assert(a@.skip(i as int).skip(1) =~= a@.skip(i + 1));
        assert(b@.skip(i as int).skip(1) =~= b@.skip(i + 1));
        i = i + 1;
    }
    i < right.len()
}

/// A letter of the English alphabet in lower case; any other character as it
/// is.
pub open spec fn lower_char(c: char) -> char {
    if 'A' <= c && c <= 'Z' {
        ((c as u8) + 32) as u8 as char
    } else {
        c
    }
}

/// A text with the letters of the English alphabet in lower case.
pub open spec fn lower_text(text: Seq<char>) -> Seq<char> {
    Seq::new(text.len(), |i: int| lower_char(text[i]))
}

/// A text with the letters of the English alphabet in lower case.
pub fn to_lower(text: &str) -> (r: String)
    ensures
        r@ == lower_text(text@),
{
    let chars = chars_of(text);
    let mut out = String::new();
    for i in 0..chars.len()
        invariant
            chars@ == text@,
            out@ == lower_text(text@.take(i as int)),
    {
        let c = chars[i];
        let lower = if 'A' <= c && c <= 'Z' {
            (c as u8 + 32) as char
        } else {
            c
        };
        out.push(lower);
        assert(out@ =~= lower_text(text@.take(i + 1)));
    }
    assert(text@.take(text@.len() as int) =~= text@);
    out
}

/// So many blanks.
pub open spec fn blanks(count: nat) -> Seq<char> {
    Seq::new(count, |i: int| ' ')
}

/// `text` with blanks after it, up to a width.
pub open spec fn padded_right(text: Seq<char>, width: nat) -> Seq<char> {
    if text.len() < width {
        text + blanks((width - text.len()) as nat)
    } else {
        text
    }
}

/// `text` with blanks before it, up to a width.
pub open spec fn padded_left(text: Seq<char>, width: nat) -> Seq<char> {
    if text.len() < width {
        blanks((width - text.len()) as nat) + text
    } else {
        text
    }
}

/// The blanks that bring `text` up to a width.
fn fill(text: &str, width: usize) -> (r: String)
    ensures
        r@ == blanks(if text@.len() < width {
            (width - text@.len()) as nat
        } else {
            0
        }),
{
    let mut out: String = String::new();
    let mut len: usize = chars_of(text).len();
    let ghost start = len;
    assert(out@ =~= blanks(0));
    while len < width
        invariant
            start <= len,
            start <= width ==> len <= width,
            out@ == blanks((len - start) as nat),
            start >= width ==> len == start,
        decreases width - len,
    {
        out.push(' ');
        len = len + 1;
        assert(out@ =~= blanks((len - start) as nat));
    }
    out
}

/// `text` with blanks after it, up to a width.
pub fn pad_right(text: &str, width: usize) -> (r: String)
    ensures
        r@ == padded_right(text@, width as nat),
{
    let mut out: String = text.to_owned();
    let blank = fill(text, width);
    out.append(blank.as_str());
    assert(out@ =~= padded_right(text@, width as nat));
    out
}

/// `text` with blanks before it, up to a width.
pub fn pad_left(text: &str, width: usize) -> (r: String)
    ensures
        r@ == padded_left(text@, width as nat),
{
    let mut out = fill(text, width);
    out.append(text);
    assert(out@ =~= padded_left(text@, width as nat));
    out
}

/// A text that begins with a longer text begins with a shorter one, and holds
/// what makes the difference.
pub proof fn lemma_longer_prefix(whole: Seq<char>, shorter: Seq<char>, more: Seq<char>)
    requires
        has_prefix(whole, shorter + more),
    ensures
        has_prefix(whole, shorter),
        contains_text(whole, more),
{
    let longer = shorter + more;
    assert(whole.subrange(0, longer.len() as int) == longer);
    assert(whole.subrange(0, shorter.len() as int) =~= longer.subrange(0, shorter.len() as int));
    assert(longer.subrange(0, shorter.len() as int) =~= shorter);
    let at = shorter.len() as int;
    assert(whole.subrange(at, at + more.len()) =~= longer.subrange(at, at + more.len()));
    assert(longer.subrange(at, at + more.len()) =~= more);
    assert(occurs_at(whole, more, at));
}

/// A text begins with itself.
pub proof fn lemma_whole_prefix(whole: Seq<char>)
    ensures
        has_prefix(whole, whole),
{
    assert(whole.subrange(0, whole.len() as int) =~= whole);
}

/// A label and its figure stand in a text that begins with what they end.
pub proof fn lemma_labelled(
    whole: Seq<char>,
    before: Seq<char>,
    label: Seq<char>,
    figure: Seq<char>,
)
    requires
        has_prefix(whole, before + label + figure),
    ensures
        has_prefix(whole, before),
        contains_text(whole, label + figure),
{
    assert(before + label + figure =~= before + (label + figure));
    lemma_longer_prefix(whole, before, label + figure);
}

/// A padded text is as wide as asked where it is narrower, keeps its characters
/// at the side away from the blanks, and is left as it is where it is as wide.
pub proof fn law_padding_fills_the_width(text: Seq<char>, width: nat)
    ensures
        text.len() >= width ==> padded_right(text, width) == text && padded_left(text, width)
            == text,
        text.len() < width ==> {
            &&& padded_right(text, width).len() == width
            &&& padded_left(text, width).len() == width
            &&& padded_right(text, width).take(text.len() as int) == text
            &&& padded_left(text, width).skip(width - text.len()) == text
            &&& forall|i: int|
                text.len() <= i < width ==> #[trigger] padded_right(text, width)[i] == ' '
            &&& forall|i: int|
                0 <= i < width - text.len() ==> #[trigger] padded_left(text, width)[i] == ' '
        },
{
    if text.len() < width {
        assert(padded_right(text, width).take(text.len() as int) =~= text);
        assert(padded_left(text, width).skip(width - text.len()) =~= text);
    }
}

/// Lower case keeps the length and every character but the capital letters of the
/// English alphabet, which move by thirty-two; twice is once.
pub proof fn law_lower_case_moves_capitals(text: Seq<char>)
    ensures
        lower_text(text).len() == text.len(),
        forall|i: int|
            #![trigger lower_text(text)[i]]
            0 <= i < text.len() ==> if 'A' <= text[i] <= 'Z' {
                lower_text(text)[i] as int == text[i] as int + 32
            } else {
                lower_text(text)[i] == text[i]
            },
        lower_text(lower_text(text)) == lower_text(text),
{
    assert forall|i: int|
        #![trigger lower_text(text)[i]]
        0 <= i < text.len() implies if 'A' <= text[i] <= 'Z' {
            lower_text(text)[i] as int == text[i] as int + 32
        } else {
            lower_text(text)[i] == text[i]
        } by {
        let c = text[i];
        if 'A' <= c <= 'Z' {
            assert(c as u8 as int == c as int);
            let up = ((c as u8) + 32) as u8;
            assert(up as char as int == up as int);
        }
    }
    assert(lower_text(lower_text(text)) =~= lower_text(text));
}

/// A line and its end stand before the lines of the rest; a carriage return
/// before the end is no part of the line.
pub proof fn law_lines_end_at_line_feeds(line: Seq<char>, rest: Seq<char>)
    requires
        !line.contains('\n'),
    ensures
        lines_of(line + seq!['\n'] + rest).len() == lines_of(rest).len() + 1,
        lines_of(line + seq!['\n'] + rest).skip(1) == lines_of(rest),
        line.len() > 0 && line.last() == '\r' ==> lines_of(line + seq!['\n'] + rest)[0]
            == line.drop_last(),
        line.len() == 0 || line.last() != '\r' ==> lines_of(line + seq!['\n'] + rest)[0] == line,
        line.len() > 0 ==> lines_of(line) == seq![line],
        lines_of(Seq::empty()) == Seq::<Seq<char>>::empty(),
{
    law_split_cuts_at_separator(line, '\n', rest);
    lemma_split_nonempty(rest, '\n');
    let text = line + seq!['\n'] + rest;
    let fields = split_on(text, '\n');
    let tail = split_on(rest, '\n');
    assert(fields.len() == tail.len() + 1);
    assert(fields.last() == tail.last());
    assert(fields[0] == line);
    assert forall|i: int| 0 <= i < tail.len() implies #[trigger] tail[i] == fields[i + 1] by {}
    assert(lines_of(text)[0] == without_return(line));
    assert(lines_of(text).skip(1) =~= lines_of(rest));
    if line.len() > 0 {
        law_unbroken_text_is_one_part(line, '\n');
        assert(lines_of(line) =~= seq![line]);
    }
    assert(lines_of(Seq::empty()) =~= Seq::<Seq<char>>::empty());
}

/// A text without the pattern stays as it is; one with the pattern in front gets
/// the replacement there, and the rest is treated in the same way.
pub proof fn law_replacing_goes_on_behind_a_match(
    rest: Seq<char>,
    pattern: Seq<char>,
    with: Seq<char>,
)
    requires
        pattern.len() > 0,
    ensures
        replaced_all(pattern + rest, pattern, with) == with + replaced_all(rest, pattern, with),
        !contains_text(rest, pattern) ==> replaced_all(rest, pattern, with) == rest,
    decreases rest.len(),
{
    let text = pattern + rest;
    assert(text.subrange(0, pattern.len() as int) =~= pattern);
    assert(text.skip(pattern.len() as int) =~= rest);
    if !contains_text(rest, pattern) && rest.len() > 0 {
        assert(!occurs_at(rest, pattern, 0));
        let shorter = rest.skip(1);
        assert forall|i: int| !(#[trigger] occurs_at(shorter, pattern, i)) by {
            if occurs_at(shorter, pattern, i) {
                assert(rest.subrange(i + 1, i + 1 + pattern.len()) =~= shorter.subrange(
                    i,
                    i + pattern.len(),
                ));
                assert(occurs_at(rest, pattern, i + 1));
            }
        }
        law_replacing_goes_on_behind_a_match(shorter, pattern, with);
        assert(seq![rest[0]] + shorter =~= rest);
    }
}

} // verus!
