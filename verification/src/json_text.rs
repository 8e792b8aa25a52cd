//! Flat JSON objects of numbers and texts on one line.
use vstd::prelude::*;
use crate::decimal::{
    all_digits, decimal, decimal_text, digit, digits_value, is_digit, lemma_decimal_denotes,
};
use crate::text::chars_of;

verus! {

/// `c` is a control character, which must not stand in a JSON string as it is.
pub open spec fn is_control(c: char) -> bool {
    (c as int) < 0x20
}

/// A hexadecimal digit in lower case.
pub open spec fn hex_digit(d: nat) -> char {
    if d < 10 {
        digit(d)
    } else {
        ((87 + d) as u8) as char
    }
}

/// A character as it stands in a JSON string.
pub open spec fn escaped_char(c: char) -> Seq<char> {
    if c == '"' || c == '\\' {
        seq!['\\', c]
    } else if is_control(c) {
        seq!['\\', 'u', '0', '0', hex_digit(c as nat / 16), hex_digit(c as nat % 16)]
    } else {
        seq![c]
    }
}

/// A text as it stands in a JSON string.
pub open spec fn escaped(text: Seq<char>) -> Seq<char>
    decreases text.len(),
{
    if text.len() == 0 {
        Seq::empty()
    } else {
        escaped_char(text[0]) + escaped(text.skip(1))
    }
}

/// A member of an object that holds a number.
pub open spec fn number_member_text(key: Seq<char>, value: nat) -> Seq<char> {
    seq!['"'] + escaped(key) + seq!['"', ':'] + decimal_text(value)
}

/// A member of an object that holds a text.
pub open spec fn text_member_text(key: Seq<char>, value: Seq<char>) -> Seq<char> {
    seq!['"'] + escaped(key) + seq!['"', ':', '"'] + escaped(value) + seq!['"']
}

/// What a member of an object holds.
pub enum JsonValue {
    Number(nat),
    Text(Seq<char>),
}

/// `c` is a hexadecimal digit.
pub open spec fn is_hex_digit(c: char) -> bool {
    is_digit(c) || 'a' <= c && c <= 'f' || 'A' <= c && c <= 'F'
}

/// The value of a hexadecimal digit.
pub open spec fn hex_value(c: char) -> nat {
    if is_digit(c) {
        (c as int - 48) as nat
    } else if 'a' <= c {
        (c as int - 87) as nat
    } else {
        (c as int - 55) as nat
    }
}

/// The number that four hexadecimal digits denote.
pub open spec fn hex_code(digits: Seq<char>) -> nat {
    4096 * hex_value(digits[0]) + 256 * hex_value(digits[1]) + 16 * hex_value(digits[2])
        + hex_value(digits[3])
}

/// The character that a backslash and `c` stand for.
pub open spec fn short_escape(c: char) -> Option<char> {
    if c == '"' || c == '\\' || c == '/' {
        Some(c)
    } else if c == 'b' {
        Some('\u{8}')
    } else if c == 'f' {
        Some('\u{c}')
    } else if c == 'n' {
        Some('\n')
    } else if c == 'r' {
        Some('\r')
    } else if c == 't' {
        Some('\t')
    } else {
        None
    }
}

/// The first character of the inside of a JSON string, and the number of
/// characters that it takes there. Pairs of surrogates are not read.
#[verifier::opaque]
pub open spec fn read_char(text: Seq<char>) -> Option<(char, nat)> {
    if text.len() == 0 || is_control(text[0]) || text[0] == '"' {
        None
    } else if text[0] != '\\' {
        Some((text[0], 1))
    } else if text.len() >= 2 && short_escape(text[1]) is Some {
        Some((short_escape(text[1])->0, 2))
    } else if text.len() >= 6 && text[1] == 'u' && is_hex_digit(text[2]) && is_hex_digit(text[3])
        && is_hex_digit(text[4]) && is_hex_digit(text[5]) && !(0xD800 <= hex_code(
        text.subrange(2, 6),
    ) < 0xE000) {
        Some((hex_code(text.subrange(2, 6)) as char, 6))
    } else {
        None
    }
}

/// What a JSON string says whose opening quote precedes `text`, and what
/// follows its closing quote.
pub open spec fn read_string(text: Seq<char>) -> Option<(Seq<char>, Seq<char>)>
    decreases text.len() via read_string_ends
{
    if text.len() > 0 && text[0] == '"' {
        Some((Seq::empty(), text.skip(1)))
    } else {
        match read_char(text) {
            Some((c, taken)) => match read_string(text.skip(taken as int)) {
                Some((said, rest)) => Some((seq![c] + said, rest)),
                None => None,
            },
            None => None,
        }
    }
}

/// A character takes at least one place, and no more than there are.
#[via_fn]
proof fn read_string_ends(text: Seq<char>) {
    reveal(read_char);
}

/// How many digits a text begins with.
pub open spec fn digit_run(text: Seq<char>) -> nat
    decreases text.len(),
{
    if text.len() > 0 && is_digit(text[0]) {
        1 + digit_run(text.skip(1))
    } else {
        0
    }
}

/// The number or string that a text begins with, and what follows it. A number
/// has no leading zeros.
pub open spec fn read_value(text: Seq<char>) -> Option<(JsonValue, Seq<char>)> {
    let run = digit_run(text);
    if text.len() > 0 && text[0] == '"' {
        match read_string(text.skip(1)) {
            Some((said, rest)) => Some((JsonValue::Text(said), rest)),
            None => None,
        }
    } else if run == 1 || run > 1 && text[0] != '0' {
        Some((JsonValue::Number(digits_value(text.take(run as int))), text.skip(run as int)))
    } else {
        None
    }
}

/// The key and value of the member that a text begins with, and what follows
/// it.
#[verifier::opaque]
pub open spec fn read_member(text: Seq<char>) -> Option<(Seq<char>, JsonValue, Seq<char>)> {
    if text.len() > 0 && text[0] == '"' {
        match read_string(text.skip(1)) {
            Some((key, after)) => if after.len() > 0 && after[0] == ':' {
                match read_value(after.skip(1)) {
                    Some((value, rest)) => Some((key, value, rest)),
                    None => None,
                }
            } else {
                None
            },
            None => None,
        }
    } else {
        None
    }
}

/// The rest of an object, from a member on, holds exactly these members.
pub open spec fn reads_members(text: Seq<char>, members: Seq<(Seq<char>, JsonValue)>) -> bool
    decreases members.len(),
{
    members.len() > 0 && match read_member(text) {
        Some((key, value, rest)) => {
            &&& (key, value) == members[0]
            &&& if members.len() == 1 {
                rest == seq!['}']
            } else {
                rest.len() > 0 && rest[0] == ',' && reads_members(rest.skip(1), members.skip(1))
            }
        },
        None => false,
    }
}

/// `text` is a JSON object with exactly these members, in this order.
pub open spec fn reads_object(text: Seq<char>, members: Seq<(Seq<char>, JsonValue)>) -> bool {
    text.len() > 0 && text[0] == '{' && reads_members(text.skip(1), members)
}

/// A control character reads back from its hexadecimal form.
proof fn lemma_code_reads_back(c: char)
    requires
        is_control(c),
    ensures
        ({
            let high = hex_digit(c as nat / 16);
            let low = hex_digit(c as nat % 16);
            &&& is_hex_digit(high) && is_hex_digit(low)
            &&& hex_code(seq!['0', '0', high, low]) == c as nat
        }),
{
    let n = c as nat;
    assert(n == 16 * (n / 16) + n % 16);
    assert(hex_value(hex_digit(n / 16)) == n / 16);
    assert(hex_value(hex_digit(n % 16)) == n % 16);
    assert(hex_value('0') == 0);
}

/// An escaped character is read back, whatever follows it.
proof fn lemma_char_reads_back(c: char, rest: Seq<char>)
    ensures
        read_char(escaped_char(c) + rest) == Some((c, escaped_char(c).len())),
        escaped_char(c)[0] != '"',
{
    reveal(read_char);
    let text = escaped_char(c) + rest;
    if c == '"' || c == '\\' {
        assert(text[1] == c);
    } else if is_control(c) {
        let high = hex_digit(c as nat / 16);
        let low = hex_digit(c as nat % 16);
        lemma_code_reads_back(c);
        assert(text.subrange(2, 6) =~= seq!['0', '0', high, low]);
        assert(text[1] == 'u');
        assert(short_escape('u') is None);
    }
}

/// An escaped text in quotes is read back as the text, whatever follows it.
pub proof fn law_text_reads_back(text: Seq<char>, rest: Seq<char>)
    ensures
        read_string(escaped(text) + seq!['"'] + rest) == Some((text, rest)),
    decreases text.len(),
{
    let whole = escaped(text) + seq!['"'] + rest;
    if text.len() == 0 {
        assert(whole.skip(1) =~= rest);
        assert(text =~= Seq::empty());
    } else {
        let first = escaped_char(text[0]);
        let after = escaped(text.skip(1)) + seq!['"'] + rest;
        law_text_reads_back(text.skip(1), rest);
        lemma_char_reads_back(text[0], after);
        assert(whole =~= first + after);
        assert(whole.skip(first.len() as int) =~= after);
        assert(whole[0] == first[0]);
        assert(seq![text[0]] + text.skip(1) =~= text);
    }
}

/// Escaped text holds no control character.
pub proof fn law_escaped_text_is_printable(text: Seq<char>)
    ensures
        forall|i: int| 0 <= i < escaped(text).len() ==> !is_control(#[trigger] escaped(text)[i]),
    decreases text.len(),
{
    if text.len() > 0 {
        law_escaped_text_is_printable(text.skip(1));
        let first = escaped_char(text[0]);
        let after = escaped(text.skip(1));
        assert forall|i: int| 0 <= i < escaped(text).len() implies !is_control(
            #[trigger] escaped(text)[i],
        ) by {
            if i < first.len() {
                if is_control(text[0]) {
                    lemma_code_reads_back(text[0]);
                }
                assert(escaped(text)[i] == first[i]);
            } else {
                assert(escaped(text)[i] == after[i - first.len()]);
            }
        }
    }
}

/// The digits at the beginning of a number end with it.
proof fn lemma_run_of_number(text: Seq<char>, rest: Seq<char>)
    requires
        all_digits(text),
        rest.len() > 0 ==> !is_digit(rest[0]),
    ensures
        digit_run(text + rest) == text.len(),
    decreases text.len(),
{
    if text.len() == 0 {
        assert(text + rest =~= rest);
    } else {
        assert(is_digit(text[0]));
        lemma_run_of_number(text.skip(1), rest);
        assert((text + rest).skip(1) =~= text.skip(1) + rest);
    }
}

/// A decimal notation has no leading zero but for zero itself.
proof fn lemma_no_leading_zero(n: nat)
    requires
        n > 0,
    ensures
        decimal_text(n).len() > 0,
        decimal_text(n)[0] != '0',
    decreases n,
{
    if n >= 10 {
        lemma_no_leading_zero(n / 10);
    }
}

/// A number is read back, whatever follows it but a digit.
proof fn lemma_number_reads_back(n: nat, rest: Seq<char>)
    requires
        rest.len() > 0 ==> !is_digit(rest[0]),
    ensures
        read_value(decimal_text(n) + rest) == Some((JsonValue::Number(n), rest)),
{
    let text = decimal_text(n);
    let whole = text + rest;
    lemma_decimal_denotes(n);
    lemma_run_of_number(text, rest);
    assert(is_digit(text[0]));
    if n >= 10 {
        lemma_no_leading_zero(n);
    } else {
        assert(text.len() == 1);
    }
    assert(whole.take(text.len() as int) =~= text);
    assert(whole.skip(text.len() as int) =~= rest);
}

/// A member that holds a number is read back, whatever follows it but a digit.
pub proof fn law_number_member_reads_back(key: Seq<char>, value: nat, rest: Seq<char>)
    requires
        rest.len() > 0 ==> !is_digit(rest[0]),
    ensures
        read_member(number_member_text(key, value) + rest) == Some(
            (key, JsonValue::Number(value), rest),
        ),
{
    reveal(read_member);
    let whole = number_member_text(key, value) + rest;
    let after = seq![':'] + decimal_text(value) + rest;
    assert(whole.skip(1) =~= escaped(key) + seq!['"'] + after);
    law_text_reads_back(key, after);
    assert(after.skip(1) =~= decimal_text(value) + rest);
    lemma_number_reads_back(value, rest);
}

/// A member that holds a text is read back, whatever follows it.
pub proof fn law_text_member_reads_back(key: Seq<char>, value: Seq<char>, rest: Seq<char>)
    ensures
        read_member(text_member_text(key, value) + rest) == Some(
            (key, JsonValue::Text(value), rest),
        ),
{
    reveal(read_member);
    let whole = text_member_text(key, value) + rest;
    let inside = escaped(value) + seq!['"'] + rest;
    let after = seq![':', '"'] + inside;
    assert(whole.skip(1) =~= escaped(key) + seq!['"'] + after);
    law_text_reads_back(key, after);
    assert(after.skip(1).skip(1) =~= inside);
    law_text_reads_back(value, rest);
}

/// `rest` follows a member: it ends the object, or holds these members.
pub open spec fn reads_rest(rest: Seq<char>, members: Seq<(Seq<char>, JsonValue)>) -> bool {
    if members.len() == 0 {
        rest == seq!['}']
    } else {
        rest.len() > 0 && rest[0] == ',' && reads_members(rest.skip(1), members)
    }
}

/// A member and what follows it are read one after the other.
pub proof fn lemma_first_member(
    text: Seq<char>,
    key: Seq<char>,
    value: JsonValue,
    rest: Seq<char>,
    members: Seq<(Seq<char>, JsonValue)>,
)
    requires
        read_member(text) == Some((key, value, rest)),
        reads_rest(rest, members),
    ensures
        reads_members(text, seq![(key, value)] + members),
        reads_rest(seq![','] + text, seq![(key, value)] + members),
{
    let all = seq![(key, value)] + members;
    assert(all.skip(1) =~= members);
    assert((seq![','] + text).skip(1) =~= text);
}

/// A hexadecimal digit as a character.
fn hex_char(d: u8) -> (c: char)
    requires
        d < 16,
    ensures
        c == hex_digit(d as nat),
{
    if d < 10 {
        (48 + d) as char
    } else {
        (87 + d) as char
    }
}

/// Adds a character as it stands in a JSON string.
fn push_escaped(out: &mut String, c: char)
    ensures
        final(out)@ == old(out)@ + escaped_char(c),
{
    let ghost before = out@;
    if c == '"' || c == '\\' {
        out.push('\\');
        out.push(c);
    } else if (c as u32) < 0x20 {
        let code = c as u8;
        out.push('\\');
        out.push('u');
        out.push('0');
        out.push('0');
        out.push(hex_char(code / 16));
        out.push(hex_char(code % 16));
    } else {
        out.push(c);
    }
    assert(out@ =~= before + escaped_char(c));
}

/// Adds a text as it stands in a JSON string.
pub fn append_escaped(out: &mut String, text: &str)
    ensures
        final(out)@ == old(out)@ + escaped(text@),
{
    let ghost before = out@;
    let chars = chars_of(text);
    assert(text@.skip(0) =~= text@);
    for i in 0..chars.len()
        invariant
            chars@ == text@,
            out@ + escaped(text@.skip(i as int)) == before + escaped(text@),
    {
        let ghost so_far = out@;
        push_escaped(out, chars[i]);
        assert(text@.skip(i as int).skip(1) =~= text@.skip(i + 1));
        assert(out@ + escaped(text@.skip(i + 1)) =~= so_far + escaped(text@.skip(i as int)));
    }
    assert(text@.skip(text@.len() as int) =~= Seq::empty());
    assert(out@ =~= out@ + escaped(text@.skip(text@.len() as int)));
}

/// Adds a member of an object that holds a number.
pub fn append_number_member(out: &mut String, key: &str, value: u64)
    ensures
        final(out)@ == old(out)@ + number_member_text(key@, value as nat),
{
    let ghost before = out@;
    out.push('"');
    append_escaped(out, key);
    out.push('"');
    out.push(':');
    out.append(decimal(value).as_str());
    assert(out@ =~= before + number_member_text(key@, value as nat));
}

/// Adds a member of an object that holds a text.
pub fn append_text_member(out: &mut String, key: &str, value: &str)
    ensures
        final(out)@ == old(out)@ + text_member_text(key@, value@),
{
    let ghost before = out@;
    out.push('"');
    append_escaped(out, key);
    out.push('"');
    out.push(':');
    out.push('"');
    append_escaped(out, value);
    out.push('"');
    assert(out@ =~= before + text_member_text(key@, value@));
}

} // verus!
