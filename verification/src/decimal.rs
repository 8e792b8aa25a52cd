//! Decimal notation of unsigned integers and of rounded quotients.
use vstd::prelude::*;
use crate::double::{
    law_parts_are_the_nearest, least_significand, quotient_in_parts, quotient_parts,
};
use crate::text::chars_of;

verus! {

/// The decimal digit `d`, for `d` below ten.
pub open spec fn digit(d: nat) -> char {
    ((48 + d) as u8) as char
}

/// The decimal notation of `n`, without leading zeros.
pub open spec fn decimal_text(n: nat) -> Seq<char>
    decreases n,
{
    if n < 10 {
        seq![digit(n)]
    } else {
        decimal_text(n / 10).push(digit(n % 10))
    }
}

/// `c` is a decimal digit.
pub open spec fn is_digit(c: char) -> bool {
    '0' <= c && c <= '9'
}

/// The value of a decimal digit.
pub open spec fn digit_value(c: char) -> nat {
    (c as int - 48) as nat
}

/// Every character is a decimal digit.
pub open spec fn all_digits(text: Seq<char>) -> bool {
    forall|i: int| 0 <= i < text.len() ==> is_digit(#[trigger] text[i])
}

/// The number that a run of decimal digits denotes.
pub open spec fn digits_value(text: Seq<char>) -> nat
    decreases text.len(),
{
    if text.len() == 0 {
        0
    } else {
        digits_value(text.drop_last()) * 10 + digit_value(text.last())
    }
}

/// The digits of a number in text form: what follows one optional plus sign.
pub open spec fn unsigned_body(text: Seq<char>) -> Seq<char> {
    if text.len() > 0 && text[0] == '+' {
        text.skip(1)
    } else {
        text
    }
}

/// The number that `text` denotes, where it is an unsigned decimal number of
/// at most `max`: one optional plus sign, then one or more digits.
pub open spec fn parsed_number(text: Seq<char>, max: nat) -> Option<nat> {
    let body = unsigned_body(text);
    if body.len() > 0 && all_digits(body) && digits_value(body) <= max {
        Some(digits_value(body))
    } else {
        None
    }
}

/// The quotient of `n` by `den` in double arithmetic, with one decimal place.
pub open spec fn one_place_text(n: nat, den: nat) -> Seq<char> {
    let tenths = quotient_in_parts(n, den, 10);
    decimal_text(tenths / 10).push('.').push(digit(tenths % 10))
}

/// The quotient of `n` by `den` in double arithmetic, with two decimal places.
pub open spec fn two_place_text(n: nat, den: nat) -> Seq<char> {
    let hundredths = quotient_in_parts(n, den, 100);
    decimal_text(hundredths / 100).push('.').push(digit(hundredths / 10 % 10)).push(
        digit(hundredths % 10),
    )
}

/// A decimal notation is a nonempty run of digits that denotes its number.
pub proof fn lemma_decimal_denotes(n: nat)
    ensures
        decimal_text(n).len() > 0,
        all_digits(decimal_text(n)),
        digits_value(decimal_text(n)) == n,
    decreases n,
{
    reveal_with_fuel(digits_value, 2);
    if n >= 10 {
        lemma_decimal_denotes(n / 10);
        assert(decimal_text(n).drop_last() =~= decimal_text(n / 10));
    }
}

/// Reading back the decimal notation of a number gives the number.
pub proof fn law_number_reads_back(n: nat, max: nat)
    requires
        n <= max,
    ensures
        parsed_number(decimal_text(n), max) == Some(n),
{
    lemma_decimal_denotes(n);
    assert(is_digit(decimal_text(n)[0]));
}

/// Two numbers with one decimal notation are the same number.
pub proof fn law_decimal_is_injective(m: nat, n: nat)
    requires
        decimal_text(m) == decimal_text(n),
    ensures
        m == n,
{
    lemma_decimal_denotes(m);
    lemma_decimal_denotes(n);
}

/// The value of a prefix of digits is at most that of the whole run.
proof fn lemma_prefix_value(text: Seq<char>, i: int)
    requires
        0 <= i <= text.len(),
    ensures
        digits_value(text.take(i)) <= digits_value(text),
    decreases text.len() - i,
{
    if i == text.len() {
        assert(text.take(i) =~= text);
    } else {
        lemma_prefix_value(text, i + 1);
        assert(text.take(i + 1).drop_last() =~= text.take(i));
    }
}

/// The digit `d` as a character.
fn digit_char(d: u64) -> (c: char)
    requires
        d < 10,
    ensures
        c == digit(d as nat),
{
    (48u8 + d as u8) as char
}

/// The decimal notation of `n`.
pub fn decimal(n: u64) -> (r: String)
    ensures
        r@ == decimal_text(n as nat),
    decreases n,
{
    if n < 10 {
        let mut out = String::new();
        out.push(digit_char(n));
        assert(out@ =~= seq![digit(n as nat)]);
        out
    } else {
        let mut out = decimal(n / 10);
        out.push(digit_char(n % 10));
        out
    }
}

/// The decimal notation of a wide number.
pub fn decimal_wide(n: u128) -> (r: String)
    ensures
        r@ == decimal_text(n as nat),
    decreases n,
{
    if n < 10 {
        decimal(n as u64)
    } else {
        let mut out = decimal_wide(n / 10);
        out.push(digit_char((n % 10) as u64));
        out
    }
}

/// The number that `text` denotes, where it is an unsigned decimal number.
pub fn parse_u64(text: &str) -> (r: Option<u64>)
    ensures
        r is Some <==> parsed_number(text@, u64::MAX as nat) is Some,
        r is Some ==> parsed_number(text@, u64::MAX as nat) == Some(r->0 as nat),
{
    let chars = chars_of(text);
    let start: usize = if chars.len() > 0 && chars[0] == '+' {
        1
    } else {
        0
    };
    let ghost body = unsigned_body(text@);
    assert(body =~= text@.skip(start as int));
    if start == chars.len() {
        return None;
    }
    let mut value: u64 = 0;
    let mut i: usize = start;
    assert(body.take(0) =~= Seq::empty());
    while i < chars.len()
        invariant
            start <= i <= chars.len(),
            chars@ == text@,
            body == text@.skip(start as int),
            body == unsigned_body(text@),
            all_digits(body.take(i - start)),
            value == digits_value(body.take(i - start)),
        decreases chars.len() - i,
    {
        let c = chars[i];
        let ghost k = i - start;
        assert(body[k] == c);
        assert(body.take(k + 1).drop_last() =~= body.take(k));
        if !('0' <= c && c <= '9') {
            assert(!is_digit(body[k]));
            return None;
        }
        let d: u64 = (c as u32 - 48) as u64;
        proof {
            lemma_prefix_value(body, k + 1);
        }
        if value > (u64::MAX - d) / 10 {
            assert(digits_value(body.take(k + 1)) == value * 10 + d);
            return None;
        }
        value = value * 10 + d;
        i = i + 1;
        assert forall|j: int| 0 <= j < body.take(k + 1).len() implies is_digit(
            #[trigger] body.take(k + 1)[j],
        ) by {
            if j < k {
                assert(is_digit(body.take(k)[j]));
            }
        }
    }
    assert(body.take(body.len() as int) =~= body);
    Some(value)
}

/// The number that `text` denotes, where it is an unsigned decimal number
/// that fits a `usize`.
pub fn parse_usize(text: &str) -> (r: Option<usize>)
    ensures
        r is Some <==> parsed_number(text@, usize::MAX as nat) is Some,
        r is Some ==> parsed_number(text@, usize::MAX as nat) == Some(r->0 as nat),
{
    match parse_u64(text) {
        Some(n) => {
            if n <= usize::MAX as u64 {
                Some(n as usize)
            } else {
                None
            }
        },
        None => None,
    }
}

/// The quotient of `n` by `den` in double arithmetic, with one decimal place.
pub fn one_place(n: u64, den: u64) -> (r: String)
    requires
        0 < den <= 1_000_000_000,
        den <= n,
        n < 0x10_0000_0000_0000 * den,
    ensures
        r@ == one_place_text(n as nat, den as nat),
{
    let tenths = quotient_parts(n, den, 10);
    let mut out = decimal(tenths / 10);
    out.push('.');
    out.push(digit_char(tenths % 10));
    out
}

/// The quotient of `n` by `den` in double arithmetic, with two decimal places.
pub fn two_places(n: u64, den: u64) -> (r: String)
    requires
        0 < den <= 1_000_000_000,
        den <= n,
        n < 0x10_0000_0000_0000 * den,
    ensures
        r@ == two_place_text(n as nat, den as nat),
{
    let hundredths = quotient_parts(n, den, 100);
    let mut out = decimal(hundredths / 100);
    out.push('.');
    out.push(digit_char(hundredths / 10 % 10));
    out.push(digit_char(hundredths % 10));
    out
}

/// A notation with one place states the tenth nearest to the quotient: its
/// digits, without the point, count tenths, and are off by at most half a tenth
/// and by what a double may be off.
pub proof fn law_one_place_is_the_nearest_tenth(n: nat, den: nat)
    requires
        n < 2 * least_significand(),
        0 < den < 2 * least_significand(),
    ensures
        ({
            let text = one_place_text(n, den);
            let point = text.len() - 2;
            let tenths = digits_value(text.take(point) + text.skip(point + 1));
            &&& point >= 1
            &&& text[point] == '.'
            &&& all_digits(text.take(point))
            &&& least_significand() * (2 * (tenths * den - n * 10) - den) <= n * 10
            &&& least_significand() * (2 * (n * 10 - tenths * den) - den) <= n * 10
        }),
{
    let tenths = quotient_in_parts(n, den, 10);
    let whole = decimal_text(tenths / 10);
    let text = one_place_text(n, den);
    lemma_decimal_denotes(tenths / 10);
    assert(text.take(text.len() - 2) =~= whole);
    let digits = text.take(text.len() - 2) + text.skip(text.len() - 1);
    assert(digits =~= whole.push(digit(tenths % 10)));
    assert(digits.drop_last() =~= whole);
    assert(digits_value(digits) == tenths);
    law_parts_are_the_nearest(n, den, 10);
}

/// A notation with two places states the hundredth nearest to the quotient: its
/// digits, without the point, count hundredths, and are off by at most half a
/// hundredth and by what a double may be off.
pub proof fn law_two_places_are_the_nearest_hundredth(n: nat, den: nat)
    requires
        n < 2 * least_significand(),
        0 < den < 2 * least_significand(),
    ensures
        ({
            let text = two_place_text(n, den);
            let point = text.len() - 3;
            let hundredths = digits_value(text.take(point) + text.skip(point + 1));
            &&& point >= 1
            &&& text[point] == '.'
            &&& all_digits(text.take(point))
            &&& least_significand() * (2 * (hundredths * den - n * 100) - den) <= n * 100
            &&& least_significand() * (2 * (n * 100 - hundredths * den) - den) <= n * 100
        }),
{
    let hundredths = quotient_in_parts(n, den, 100);
    let whole = decimal_text(hundredths / 100);
    let text = two_place_text(n, den);
    lemma_decimal_denotes(hundredths / 100);
    assert(text.take(text.len() - 3) =~= whole);
    let digits = text.take(text.len() - 3) + text.skip(text.len() - 2);
    let upper = whole.push(digit(hundredths / 10 % 10));
    assert(digits =~= upper.push(digit(hundredths % 10)));
    assert(upper.drop_last() =~= whole);
    assert(digits.drop_last() =~= upper);
    assert(digits_value(upper) == hundredths / 10);
    assert(digits_value(digits) == hundredths);
    law_parts_are_the_nearest(n, den, 100);
}

} // verus!
