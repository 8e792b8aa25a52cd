//! Arithmetic of binary64 numbers, carried out on integers.
//!
//! A positive binary64 number is an integer of fifty-three significant bits
//! times a power of two. Every operation is exact, then rounded to the nearest
//! such number, a tie going to the even one.
use vstd::prelude::*;

verus! {

/// The quotient rounded to the nearest integer, a tie going to the even one.
pub open spec fn round_half_even(num: nat, den: nat) -> nat
    recommends
        den > 0,
{
    let quotient = num / den;
    let rest = num % den;
    if 2 * rest < den || (2 * rest == den && quotient % 2 == 0) {
        quotient
    } else {
        quotient + 1
    }
}

/// Two to the power fifty-two: the least significand of a normal double.
pub open spec fn least_significand() -> nat {
    0x10_0000_0000_0000
}

/// The spacing of doubles at the integer `n`: the power of two that leaves at
/// most fifty-three significant bits.
pub open spec fn integer_spacing(n: nat) -> nat
    decreases n,
{
    if n < 2 * least_significand() {
        1
    } else {
        2 * integer_spacing(n / 2)
    }
}

/// The double nearest to the integer `n`.
pub open spec fn nearest_integer_double(n: nat) -> nat {
    round_half_even(n, integer_spacing(n)) * integer_spacing(n)
}

/// The power of two that brings `num / den` up to fifty-three significant
/// bits; one where it has as many.
pub open spec fn quotient_scale(num: nat, den: nat) -> nat
    decreases 2 * den * least_significand() - num,
{
    if num == 0 || num >= den * least_significand() {
        1
    } else {
        2 * quotient_scale(2 * num, den)
    }
}

/// The spacing of doubles at `num / den`, where it has more than fifty-three
/// significant bits before the point; one otherwise.
pub open spec fn quotient_spacing(num: nat, den: nat) -> nat
    decreases num - den,
{
    if den == 0 || num < 2 * den * least_significand() {
        1
    } else {
        2 * quotient_spacing(num, 2 * den)
    }
}

/// The significand of the double nearest to `num / den`. The double is the
/// significand times the spacing over the scale.
pub open spec fn quotient_significand(num: nat, den: nat) -> nat {
    round_half_even(num * quotient_scale(num, den), den * quotient_spacing(num, den))
}

/// The double quotient of the integer `n` by `den`, both rounded to doubles
/// as they are formed, in units of one part in `parts`, ties to even.
pub open spec fn quotient_in_parts(n: nat, den: nat, parts: nat) -> nat {
    let dividend = nearest_integer_double(n);
    let divisor = nearest_integer_double(den);
    round_half_even(
        quotient_significand(dividend, divisor) * quotient_spacing(dividend, divisor) * parts,
        quotient_scale(dividend, divisor),
    )
}

/// The double product of the integer `n` and of `num / den`, each integer and
/// the quotient rounded to doubles as they are formed, then rounded to the
/// nearest integer, a tie going up, and at most the greatest 64-bit integer.
#[verifier::opaque]
pub open spec fn scaled_integer(n: nat, num: nat, den: nat) -> nat {
    let dividend = nearest_integer_double(num);
    let divisor = nearest_integer_double(den);
    let product = nearest_integer_double(
        nearest_integer_double(n) * quotient_significand(dividend, divisor),
    );
    let scale = quotient_scale(dividend, divisor);
    let rounded = (2 * (product * quotient_spacing(dividend, divisor)) + scale) / (2 * scale);
    if rounded <= u64::MAX {
        rounded
    } else {
        u64::MAX as nat
    }
}

/// The nearest integer to a quotient is at most one above it.
proof fn lemma_round_bound(num: nat, den: nat)
    requires
        den > 0,
    ensures
        round_half_even(num, den) <= num / den + 1,
        round_half_even(num, den) * den <= num + den,
        num <= round_half_even(num, den) * den + den,
{
    assert(num == den * (num / den) + num % den) by (nonlinear_arith)
        requires
            den > 0,
    ;
    let q = num / den;
    assert(num % den < den) by (nonlinear_arith)
        requires
            den > 0,
    ;
    assert((q + 1) * den == q * den + den) by (nonlinear_arith);
    assert(den * q == q * den) by (nonlinear_arith);
}

/// The scaled quotient has fifty-three significant bits.
pub proof fn law_scaled_quotient_is_normal(num: nat, den: nat)
    requires
        0 < num < 2 * den * least_significand(),
    ensures
        den * least_significand() <= num * quotient_scale(num, den) < 2 * den * least_significand(),
    decreases 2 * den * least_significand() - num,
{
    if num < den * least_significand() {
        law_scaled_quotient_is_normal(2 * num, den);
        let rest = quotient_scale(2 * num, den);
        assert((2 * num) * rest == num * (2 * rest)) by (nonlinear_arith);
    } else {
        assert(num * 1 == num);
    }
}

/// An integer of at most fifty-three bits is a double.
pub proof fn law_small_integer_is_double(n: nat)
    requires
        n < 2 * least_significand(),
    ensures
        nearest_integer_double(n) == n,
{
    assert(round_half_even(n, 1) == n);
    assert(n * 1 == n);
}

/// The nearest integer to a quotient, a tie going to the even one.
fn rounded(num: u128, den: u128) -> (r: u128)
    requires
        0 < den < 0x4000_0000_0000_0000_0000_0000_0000_0000,
    ensures
        r == round_half_even(num as nat, den as nat),
{
    let quotient: u128 = num / den;
    let rest: u128 = num % den;
    if 2 * rest < den || (2 * rest == den && quotient % 2 == 0) {
        quotient
    } else {
        assert(quotient < u128::MAX) by (nonlinear_arith)
            requires
                quotient == num / den,
                rest == num % den,
                rest > 0,
                den > 0,
                num <= u128::MAX,
        ;
        quotient + 1
    }
}

/// The double nearest to the integer `n`.
fn nearest_double_to(n: u128) -> (r: u128)
    requires
        n <= 0x40_0000_0000_0000_0000_0000_0000_0000,
    ensures
        r == nearest_integer_double(n as nat),
        r <= 2 * n + 1,
        n < 0x1_0000_0000_0000_0000 ==> n - 0x1000 <= r <= n + 0x1000,
        n < 0x20_0000_0000_0000 ==> r == n,
{
    let mut halved: u128 = n;
    let mut unit: u128 = 1;
    while halved >= 0x20_0000_0000_0000
        invariant
            n <= 0x40_0000_0000_0000_0000_0000_0000_0000,
            1 <= unit,
            unit <= n || unit == 1,
            unit * halved <= n,
            n < 0x1_0000_0000_0000_0000 ==> unit <= 0x1000,
            halved == n || n >= 0x20_0000_0000_0000,
            unit == 1 || n >= 0x20_0000_0000_0000,
            integer_spacing(n as nat) == unit * integer_spacing(halved as nat),
        decreases halved,
    {
        proof {
            let tail = integer_spacing((halved / 2) as nat);
            assert(unit * (2 * tail) == (2 * unit) * tail) by (nonlinear_arith);
            assert(unit * halved >= (2 * unit) * (halved / 2)) by (nonlinear_arith)
                requires
                    unit >= 1,
            ;
            assert(unit * 0x20_0000_0000_0000 <= n) by (nonlinear_arith)
                requires
                    unit * halved <= n,
                    halved >= 0x20_0000_0000_0000,
            ;
        }
        halved = halved / 2;
        unit = 2 * unit;
    }
    proof {
        assert(unit * 1 == unit);
        lemma_round_bound(n as nat, unit as nat);
        if n < 0x20_0000_0000_0000 {
            assert(unit == 1);
        }
    }
    let whole = rounded(n, unit);
    proof {
        assert(whole * unit <= n + unit);
        assert(n < 0x20_0000_0000_0000 ==> whole * unit == n);
    }
    whole * unit
}

/// The double nearest to `num / den`: its significand, scale and spacing.
fn quotient_double(num: u128, den: u128) -> (r: (u128, u128, u128))
    requires
        0 < num <= 0x1_0000_0000_0000_1000,
        0 < den <= 0x1_0000_0000_0000_1000,
    ensures
        r.0 == quotient_significand(num as nat, den as nat),
        r.1 == quotient_scale(num as nat, den as nat),
        r.2 == quotient_spacing(num as nat, den as nat),
        r.0 <= 0x20_0000_0000_0001,
        1 <= r.1 <= 0x40_0000_0000_0000_0000_0000_0000_0000,
        1 <= r.2 <= 0x2000,
        r.1 == 1 || r.2 == 1,
        num < 0x20_0000_0000_0000 * den ==> r.2 == 1,
{
    let floor: u128 = den * 0x10_0000_0000_0000;
    if num < 2 * floor {
        let mut scaled: u128 = num;
        let mut scale: u128 = 1;
        while scaled < floor
            invariant
                floor == den * 0x10_0000_0000_0000,
                floor <= 0x10_0000_0000_0000 * 0x1_0000_0000_0000_1000,
                0 < num,
                num <= scaled,
                scaled == num * scale,
                1 <= scale <= scaled,
                scaled < 2 * floor,
                quotient_scale(num as nat, den as nat) == scale * quotient_scale(
                    scaled as nat,
                    den as nat,
                ),
            decreases 2 * floor - scaled,
        {
            proof {
                let tail = quotient_scale((2 * scaled) as nat, den as nat);
                assert(scale * (2 * tail) == (2 * scale) * tail) by (nonlinear_arith);
                assert(2 * (num * scale) == num * (2 * scale)) by (nonlinear_arith);
            }
            scaled = 2 * scaled;
            scale = 2 * scale;
        }
        proof {
            assert(scale * 1 == scale);
            assert(den * 1 == den);
            lemma_round_bound(scaled as nat, den as nat);
            assert(scaled / den <= 0x20_0000_0000_0000) by (nonlinear_arith)
                requires
                    scaled < 2 * floor,
                    floor == den * 0x10_0000_0000_0000,
                    den > 0,
            ;
        }
        (rounded(scaled, den), scale, 1)
    } else {
        let mut widened: u128 = den;
        let mut spacing: u128 = 1;
        while num >= widened * 0x20_0000_0000_0000
            invariant
                0 < den,
                num <= 0x1_0000_0000_0000_1000,
                widened == den * spacing,
                1 <= spacing <= 0x2000,
                0 < widened < 0x1_0000_0000_0000_0000,
                spacing == 1 || spacing <= 0x1000 || num < widened * 0x20_0000_0000_0000,
                widened * 0x10_0000_0000_0000 <= num,
                quotient_spacing(num as nat, den as nat) == spacing * quotient_spacing(
                    num as nat,
                    widened as nat,
                ),
            decreases num - widened,
        {
            proof {
                let tail = quotient_spacing(num as nat, (2 * widened) as nat);
                assert(spacing * (2 * tail) == (2 * spacing) * tail) by (nonlinear_arith);
                assert(den * (2 * spacing) == 2 * (den * spacing)) by (nonlinear_arith);
                assert(spacing <= 0x800) by (nonlinear_arith)
                    requires
                        widened == den * spacing,
                        den >= 1,
                        num >= widened * 0x20_0000_0000_0000,
                        num <= 0x1_0000_0000_0000_1000,
                ;
            }
            widened = 2 * widened;
            spacing = 2 * spacing;
        }
        proof {
            assert(spacing * 1 == spacing);
            assert(num * 1 == num);
            lemma_round_bound(num as nat, widened as nat);
            assert(num / widened <= 0x20_0000_0000_0000) by (nonlinear_arith)
                requires
                    num < widened * 0x20_0000_0000_0000,
                    widened > 0,
            ;
        }
        (rounded(num, widened), 1, spacing)
    }
}

/// The double quotient of `n` by `den` in units of one part in `parts`.
pub fn quotient_parts(n: u64, den: u64, parts: u64) -> (r: u64)
    requires
        0 < den,
        0 < parts <= 100,
        den <= n,
        n < 0x10_0000_0000_0000 * den,
    ensures
        r == quotient_in_parts(n as nat, den as nat, parts as nat),
{
    let dividend = nearest_double_to(n as u128);
    let divisor = nearest_double_to(den as u128);
    proof {
        if den == 1 {
            assert(n < 0x20_0000_0000_0000);
        }
        assert(0 < dividend < 0x20_0000_0000_0000 * divisor);
    }
    let (significand, scale, spacing): (u128, u128, u128) = quotient_double(dividend, divisor);
    proof {
        assert(significand * spacing == significand) by (nonlinear_arith)
            requires
                spacing == 1,
        ;
        let total = (significand * parts) as nat;
        lemma_round_bound(total, scale as nat);
        assert(total <= 0x40_0000_0000_0000 * 100) by (nonlinear_arith)
            requires
                total == significand * parts,
                significand <= 0x40_0000_0000_0000,
                parts <= 100,
        ;
        assert(total / (scale as nat) <= total) by (nonlinear_arith)
            requires
                scale >= 1,
        ;
    }
    rounded(significand * parts as u128, scale) as u64
}

/// The integer `n` times `num / den`, in double arithmetic, rounded to the
/// nearest integer.
pub fn scale_integer(n: u64, num: u64, den: u64) -> (r: u64)
    requires
        0 < num,
        0 < den,
    ensures
        r == scaled_integer(n as nat, num as nat, den as nat),
{
    proof {
        reveal(scaled_integer);
    }
    let factor = nearest_double_to(n as u128);
    let dividend = nearest_double_to(num as u128);
    let divisor = nearest_double_to(den as u128);
    let (significand, scale, spacing): (u128, u128, u128) = quotient_double(dividend, divisor);
    assert(factor * significand <= 0x1_0000_0000_0000_1000 * 0x20_0000_0000_0001)
        by (nonlinear_arith)
        requires
            factor <= 0x1_0000_0000_0000_1000,
            significand <= 0x20_0000_0000_0001,
    ;
    let product = nearest_double_to(factor * significand);
    if product > u64::MAX as u128 && spacing > 1 {
        proof {
            let wide = product * spacing;
            assert(wide >= product) by (nonlinear_arith)
                requires
                    wide == product * spacing,
                    spacing >= 1,
            ;
            assert((2 * wide + 1) / 2 == wide);
        }
        return u64::MAX;
    }
    proof {
        if spacing == 1 {
            assert(product * spacing == product) by (nonlinear_arith)
                requires
                    spacing == 1,
            ;
        } else {
            assert(product * spacing <= 0x1_0000_0000_0000_0000 * 0x2000) by (nonlinear_arith)
                requires
                    product <= 0x1_0000_0000_0000_0000,
                    spacing <= 0x2000,
            ;
        }
    }
    let result: u128 = (2 * (product * spacing) + scale) / (2 * scale);
    if result <= u64::MAX as u128 {
        result as u64
    } else {
        u64::MAX
    }
}

/// The spacing of doubles at an integer is at least one, and at most one part in
/// two to the fifty-two of it where it is more.
proof fn lemma_spacing_bounds(n: nat)
    ensures
        integer_spacing(n) >= 1,
        n >= 2 * least_significand() ==> integer_spacing(n) * least_significand() <= n,
        n < 2 * least_significand() ==> integer_spacing(n) == 1,
    decreases n,
{
    if n >= 2 * least_significand() {
        lemma_spacing_bounds(n / 2);
        let half = integer_spacing(n / 2);
        if n / 2 < 2 * least_significand() {
            assert(half == 1);
        }
        assert((2 * half) * least_significand() == 2 * (half * least_significand()))
            by (nonlinear_arith);
    }
}

/// The double nearest to a product of an integer and a significand is off by at
/// most twice the integer.
proof fn lemma_product_error(n: nat, significand: nat)
    requires
        significand <= 2 * least_significand(),
    ensures
        nearest_integer_double(n * significand) <= n * significand + 2 * n,
        n * significand <= nearest_integer_double(n * significand) + 2 * n,
{
    let m = n * significand;
    lemma_spacing_bounds(m);
    let spacing = integer_spacing(m);
    lemma_round_bound(m, spacing);
    assert(m <= n * (2 * least_significand())) by (nonlinear_arith)
        requires
            m == n * significand,
            significand <= 2 * least_significand(),
    ;
    if m >= 2 * least_significand() {
        assert(spacing <= 2 * n) by (nonlinear_arith)
            requires
                spacing * least_significand() <= m,
                m <= n * (2 * least_significand()),
                least_significand() > 0,
        ;
    } else {
        law_small_integer_is_double(m);
    }
}

/// The scale of a quotient of at most one is large, and makes the significand
/// one of fifty-three bits.
proof fn lemma_unit_quotient(num: nat, den: nat)
    requires
        0 < num <= den,
        den < 2 * least_significand(),
    ensures
        quotient_scale(num, den) >= least_significand(),
        quotient_spacing(num, den) == 1,
        quotient_significand(num, den) <= 2 * least_significand(),
        quotient_significand(num, den) * den <= num * quotient_scale(num, den) + den,
        num * quotient_scale(num, den) <= quotient_significand(num, den) * den + den,
{
    let scale = quotient_scale(num, den);
    assert(num < 2 * den * least_significand()) by (nonlinear_arith)
        requires
            num <= den,
            den > 0,
            least_significand() >= 1,
    ;
    law_scaled_quotient_is_normal(num, den);
    assert(scale >= least_significand()) by (nonlinear_arith)
        requires
            den * least_significand() <= num * scale,
            0 < num <= den,
    ;
    assert(den * 1 == den);
    lemma_round_bound(num * scale, den);
    let q = (num * scale) / den;
    assert(q < 2 * least_significand()) by (nonlinear_arith)
        requires
            q == (num * scale) / den,
            num * scale < 2 * den * least_significand(),
            den > 0,
    ;
}

/// Scaling an integer by a quotient of at most one gives the integer nearest to
/// the exact product, for integers of thirty-two bits and quotients of numbers
/// of seventeen.
pub proof fn law_scaling_gives_the_nearest_integer(n: nat, num: nat, den: nat)
    requires
        n <= 0x1_0000_0000,
        0 < num <= den <= 0x2_0000,
    ensures
        2 * (scaled_integer(n, num, den) * den - n * num) <= den,
        2 * (n * num - scaled_integer(n, num, den) * den) <= den,
        scaled_integer(n, num, den) <= n,
{
    reveal(scaled_integer);
    law_small_integer_is_double(n);
    law_small_integer_is_double(num);
    law_small_integer_is_double(den);
    lemma_unit_quotient(num, den);
    let scale = quotient_scale(num, den);
    let s = quotient_significand(num, den);
    lemma_product_error(n, s);
    let product = nearest_integer_double(n * s);
    let wide = product * quotient_spacing(num, den);
    assert(wide == product) by (nonlinear_arith)
        requires
            wide == product * quotient_spacing(num, den),
            quotient_spacing(num, den) == 1,
    ;
    let index = (2 * product + scale) / (2 * scale);
    lemma_nearest_index(n, num, den, scale, s, product, index);
    assert(index <= n) by (nonlinear_arith)
        requires
            2 * (index * den - n * num) <= den,
            num <= den,
            den > 0,
    ;
}

/// The arithmetic of the nearest integer.
proof fn lemma_nearest_index(
    n: nat,
    num: nat,
    den: nat,
    scale: nat,
    s: nat,
    product: nat,
    index: nat,
)
    requires
        n <= 0x1_0000_0000,
        0 < num <= den <= 0x2_0000,
        scale >= least_significand(),
        s * den <= num * scale + den,
        num * scale <= s * den + den,
        product <= n * s + 2 * n,
        n * s <= product + 2 * n,
        index == (2 * product + scale) / (2 * scale),
    ensures
        2 * (index * den - n * num) <= den,
        2 * (n * num - index * den) <= den,
{
    let twice = 2 * scale;
    let sum = 2 * product + scale;
    assert(twice * index <= sum < twice * index + twice) by (nonlinear_arith)
        requires
            index == sum / twice,
            twice > 0,
    ;
    assert(product * den <= (n * s) * den + 2 * (n * den)) by (nonlinear_arith)
        requires
            product <= n * s + 2 * n,
    ;
    assert((n * s) * den <= product * den + 2 * (n * den)) by (nonlinear_arith)
        requires
            n * s <= product + 2 * n,
    ;
    assert((n * s) * den == n * (s * den)) by (nonlinear_arith);
    assert(n * (s * den) <= n * (num * scale) + n * den) by (nonlinear_arith)
        requires
            s * den <= num * scale + den,
    ;
    assert(n * (num * scale) <= n * (s * den) + n * den) by (nonlinear_arith)
        requires
            num * scale <= s * den + den,
    ;
    assert(n * (num * scale) == scale * (n * num)) by (nonlinear_arith);
    assert(6 * (n * den) < scale) by (nonlinear_arith)
        requires
            n <= 0x1_0000_0000,
            den <= 0x2_0000,
            scale >= 0x10_0000_0000_0000,
    ;
    let a = scale * (index * den);
    let b = scale * (n * num);
    assert((twice * index) * den == 2 * a) by (nonlinear_arith)
        requires
            twice == 2 * scale,
            a == scale * (index * den),
    ;
    assert((twice * index) * den <= sum * den) by (nonlinear_arith)
        requires
            twice * index <= sum,
    ;
    assert(sum * den <= (twice * index + twice) * den) by (nonlinear_arith)
        requires
            sum < twice * index + twice,
    ;
    assert((twice * index + twice) * den == 2 * a + 2 * (scale * den)) by (nonlinear_arith)
        requires
            (twice * index) * den == 2 * a,
            twice == 2 * scale,
    ;
    assert(sum * den == 2 * (product * den) + scale * den) by (nonlinear_arith)
        requires
            sum == 2 * product + scale,
    ;
    assert(2 * (a - b) < scale * den + scale);
    assert(2 * (b - a) < scale * den + scale);
    let d = index * den - n * num;
    assert(a - b == scale * d) by (nonlinear_arith)
        requires
            a == scale * (index * den),
            b == scale * (n * num),
            d == index * den - n * num,
    ;
    assert(2 * d < den + 1) by (nonlinear_arith)
        requires
            2 * (scale * d) < scale * den + scale,
            scale > 0,
    ;
    assert(2 * (-d) < den + 1) by (nonlinear_arith)
        requires
            2 * -(scale * d) < scale * den + scale,
            scale > 0,
    ;
}

/// Scaling by a greater quotient gives no smaller integer, for quotients of at
/// most one of numbers of seventeen bits.
pub proof fn law_scaling_keeps_order(n: nat, num: nat, den: nat, more: nat, per: nat)
    requires
        0 < num <= den <= 0x2_0000,
        0 < more <= per <= 0x2_0000,
        num * per < more * den,
    ensures
        scaled_integer(n, num, den) <= scaled_integer(n, more, per),
{
    reveal(scaled_integer);
    law_small_integer_is_double(num);
    law_small_integer_is_double(den);
    law_small_integer_is_double(more);
    law_small_integer_is_double(per);
    lemma_unit_quotient(num, den);
    lemma_unit_quotient(more, per);
    let m = nearest_integer_double(n);
    let (s1, t1) = (quotient_scale(num, den), quotient_significand(num, den));
    let (s2, t2) = (quotient_scale(more, per), quotient_significand(more, per));
    lemma_product_error(m, t1);
    lemma_product_error(m, t2);
    let p1 = nearest_integer_double(m * t1);
    let p2 = nearest_integer_double(m * t2);
    assert(p1 * quotient_spacing(num, den) == p1) by (nonlinear_arith)
        requires
            quotient_spacing(num, den) == 1,
    ;
    assert(p2 * quotient_spacing(more, per) == p2) by (nonlinear_arith)
        requires
            quotient_spacing(more, per) == 1,
    ;
    lemma_products_keep_order(m, num, den, s1, t1, p1, more, per, s2, t2, p2);
    let (a, b) = (2 * p1 + s1, 2 * s1);
    let (c, d) = (2 * p2 + s2, 2 * s2);
    assert(a * d <= c * b) by (nonlinear_arith)
        requires
            a == 2 * p1 + s1,
            b == 2 * s1,
            c == 2 * p2 + s2,
            d == 2 * s2,
            p1 * s2 <= p2 * s1,
    ;
    lemma_quotients_keep_order(a, b, c, d);
}

/// A greater fraction has no smaller whole part.
proof fn lemma_quotients_keep_order(a: nat, b: nat, c: nat, d: nat)
    requires
        b > 0,
        d > 0,
        a * d <= c * b,
    ensures
        a / b <= c / d,
{
    let q = a / b;
    assert(b * q <= a) by (nonlinear_arith)
        requires
            q == a / b,
            b > 0,
    ;
    assert((b * q) * d <= a * d) by (nonlinear_arith)
        requires
            b * q <= a,
    ;
    assert((b * q) * d == b * (q * d)) by (nonlinear_arith);
    assert(c * b == b * c) by (nonlinear_arith);
    assert(q * d <= c) by (nonlinear_arith)
        requires
            b * (q * d) <= b * c,
            b > 0,
    ;
    assert(q <= c / d) by (nonlinear_arith)
        requires
            q * d <= c,
            d > 0,
    ;
}

/// The products with two quotients stand in the order of the quotients.
proof fn lemma_products_keep_order(
    m: nat,
    num: nat,
    den: nat,
    s1: nat,
    t1: nat,
    p1: nat,
    more: nat,
    per: nat,
    s2: nat,
    t2: nat,
    p2: nat,
)
    requires
        0 < num <= den <= 0x2_0000,
        0 < more <= per <= 0x2_0000,
        num * per < more * den,
        s1 >= 0x10_0000_0000_0000,
        s2 >= 0x10_0000_0000_0000,
        t1 * den <= num * s1 + den,
        more * s2 <= t2 * per + per,
        p1 <= m * t1 + 2 * m,
        m * t2 <= p2 + 2 * m,
    ensures
        p1 * s2 <= p2 * s1,
{
    assert(p1 * den <= m * (num * s1) + 3 * (m * den)) by (nonlinear_arith)
        requires
            p1 <= m * t1 + 2 * m,
            t1 * den <= num * s1 + den,
    ;
    assert(m * (more * s2) <= p2 * per + 3 * (m * per)) by (nonlinear_arith)
        requires
            m * t2 <= p2 + 2 * m,
            more * s2 <= t2 * per + per,
    ;
    let (u, v) = (num * per, more * den);
    let w = den * per;
    assert(w <= 0x4_0000_0000) by (nonlinear_arith)
        requires
            w == den * per,
            den <= 0x2_0000,
            per <= 0x2_0000,
    ;
    assert((p1 * den) * (s2 * per) <= (m * (num * s1) + 3 * (m * den)) * (s2 * per))
        by (nonlinear_arith)
        requires
            p1 * den <= m * (num * s1) + 3 * (m * den),
    ;
    assert((m * (more * s2)) * (s1 * den) <= (p2 * per + 3 * (m * per)) * (s1 * den))
        by (nonlinear_arith)
        requires
            m * (more * s2) <= p2 * per + 3 * (m * per),
    ;
    let x = m * (s1 * s2);
    let (y, z, r) = (m * (num * s1), m * den, s2 * per);
    assert((y + 3 * z) * r == y * r + 3 * (z * r)) by (nonlinear_arith);
    assert(y * r == x * u) by (nonlinear_arith)
        requires
            y == m * (num * s1),
            r == s2 * per,
            x == m * (s1 * s2),
            u == num * per,
    ;
    assert(z * r == (m * s2) * w) by (nonlinear_arith)
        requires
            z == m * den,
            r == s2 * per,
            w == den * per,
    ;
    assert((m * (more * s2)) * (s1 * den) == x * v) by (nonlinear_arith)
        requires
            x == m * (s1 * s2),
            v == more * den,
    ;
    let (g, h, k) = (p2 * per, m * per, s1 * den);
    assert((g + 3 * h) * k == g * k + 3 * (h * k)) by (nonlinear_arith);
    assert(g * k == (p2 * s1) * w) by (nonlinear_arith)
        requires
            g == p2 * per,
            k == s1 * den,
            w == den * per,
    ;
    assert(h * k == (m * s1) * w) by (nonlinear_arith)
        requires
            h == m * per,
            k == s1 * den,
            w == den * per,
    ;
    assert((p1 * den) * (s2 * per) == (p1 * s2) * w) by (nonlinear_arith)
        requires
            w == den * per,
    ;
    assert(x * u + x <= x * v) by (nonlinear_arith)
        requires
            u + 1 <= v,
    ;
    assert(3 * ((m * s2) * w) + 3 * ((m * s1) * w) <= x) by {
        assert(6 * w <= s1);
        assert(6 * w <= s2);
        assert(6 * (s2 * w) <= s1 * s2) by (nonlinear_arith)
            requires
                6 * w <= s1,
        ;
        assert(6 * (s1 * w) <= s1 * s2) by (nonlinear_arith)
            requires
                6 * w <= s2,
        ;
        assert((m * s2) * w == m * (s2 * w)) by (nonlinear_arith);
        assert((m * s1) * w == m * (s1 * w)) by (nonlinear_arith);
        assert(3 * (m * (s2 * w)) + 3 * (m * (s1 * w)) <= m * (s1 * s2)) by (nonlinear_arith)
            requires
                6 * (s2 * w) <= s1 * s2,
                6 * (s1 * w) <= s1 * s2,
        ;
    }
    assert((p1 * s2) * w <= (p2 * s1) * w);
    assert(w > 0) by (nonlinear_arith)
        requires
            w == den * per,
            den > 0,
            per > 0,
    ;
    assert(p1 * s2 <= p2 * s1) by (nonlinear_arith)
        requires
            (p1 * s2) * w <= (p2 * s1) * w,
            w > 0,
    ;
}

/// The nearest integer to a quotient is at most half away from it.
proof fn lemma_round_nearest(num: nat, den: nat)
    requires
        den > 0,
    ensures
        2 * (round_half_even(num, den) * den - num) <= den,
        2 * (num - round_half_even(num, den) * den) <= den,
{
    let q = num / den;
    assert(num == q * den + num % den) by (nonlinear_arith)
        requires
            den > 0,
            q == num / den,
    ;
    assert((q + 1) * den == q * den + den) by (nonlinear_arith);
}

/// The arithmetic of the nearest part.
proof fn lemma_nearest_part(n: int, den: int, parts: int, s: int, sig: int, r: int, least: int)
    requires
        s > 0,
        den > 0,
        parts >= 0,
        least > 0,
        den * least <= n * s,
        2 * (sig * den - n * s) <= den,
        2 * (n * s - sig * den) <= den,
        2 * (r * s - sig * parts) <= s,
        2 * (sig * parts - r * s) <= s,
    ensures
        least * (2 * (r * den - n * parts) - den) <= n * parts,
        least * (2 * (n * parts - r * den) - den) <= n * parts,
{
    let a = r * den;
    let b = n * parts;
    let x = (r * s - sig * parts) * den;
    let y = (sig * den - n * s) * parts;
    assert(2 * x <= s * den && -(s * den) <= 2 * x) by (nonlinear_arith)
        requires
            x == (r * s - sig * parts) * den,
            2 * (r * s - sig * parts) <= s,
            2 * (sig * parts - r * s) <= s,
            den > 0,
    ;
    assert(2 * y <= den * parts && -(den * parts) <= 2 * y) by (nonlinear_arith)
        requires
            y == (sig * den - n * s) * parts,
            2 * (sig * den - n * s) <= den,
            2 * (n * s - sig * den) <= den,
            parts >= 0,
    ;
    assert((a - b) * s == x + y) by (nonlinear_arith)
        requires
            a == r * den,
            b == n * parts,
            x == (r * s - sig * parts) * den,
            y == (sig * den - n * s) * parts,
    ;
    assert((den * parts) * least <= b * s) by (nonlinear_arith)
        requires
            den * least <= n * s,
            b == n * parts,
            parts >= 0,
    ;
    let d = a - b;
    let w = den * parts;
    let e = 2 * d - den;
    let f = -2 * d - den;
    assert(e * s <= w) by (nonlinear_arith)
        requires
            e == 2 * d - den,
            d * s == x + y,
            2 * x <= s * den,
            2 * y <= w,
    ;
    assert(f * s <= w) by (nonlinear_arith)
        requires
            f == -2 * d - den,
            d * s == x + y,
            -(s * den) <= 2 * x,
            -w <= 2 * y,
    ;
    assert((e * s) * least <= w * least) by (nonlinear_arith)
        requires
            e * s <= w,
            least > 0,
    ;
    assert((f * s) * least <= w * least) by (nonlinear_arith)
        requires
            f * s <= w,
            least > 0,
    ;
    assert(least * e <= b) by (nonlinear_arith)
        requires
            (e * s) * least <= w * least,
            w * least <= b * s,
            s > 0,
    ;
    assert(least * f <= b) by (nonlinear_arith)
        requires
            (f * s) * least <= w * least,
            w * least <= b * s,
            s > 0,
    ;
}

/// A scale is at least one.
proof fn lemma_scale_positive(num: nat, den: nat)
    ensures
        quotient_scale(num, den) >= 1,
    decreases 2 * den * least_significand() - num,
{
    if !(num == 0 || num >= den * least_significand()) {
        lemma_scale_positive(2 * num, den);
    }
}

/// A quotient counted in parts is the nearest count to the exact quotient: it is
/// off by at most half a part, and by the one part in two to the fifty-three by
/// which a double may be off.
pub proof fn law_parts_are_the_nearest(n: nat, den: nat, parts: nat)
    requires
        n < 2 * least_significand(),
        0 < den < 2 * least_significand(),
    ensures
        least_significand() * (2 * (quotient_in_parts(n, den, parts) * den - n * parts) - den) <= n
            * parts,
        least_significand() * (2 * (n * parts - quotient_in_parts(n, den, parts) * den) - den) <= n
            * parts,
{
    law_small_integer_is_double(n);
    law_small_integer_is_double(den);
    let s = quotient_scale(n, den);
    let sig = quotient_significand(n, den);
    let r = quotient_in_parts(n, den, parts);
    lemma_scale_positive(n, den);
    assert(n < 2 * den * least_significand()) by (nonlinear_arith)
        requires
            n < 2 * least_significand(),
            den >= 1,
    ;
    assert(quotient_spacing(n, den) == 1);
    assert(den * 1 == den);
    lemma_round_nearest(n * s, den);
    assert(sig * 1 == sig);
    lemma_round_nearest(sig * parts, s);
    if n == 0 {
        assert(0 * s == 0) by (nonlinear_arith);
        assert(0 * parts == 0) by (nonlinear_arith);
        assert(sig == 0) by (nonlinear_arith)
            requires
                2 * (sig * den - 0) <= den,
                sig >= 0,
                den > 0,
        ;
        assert(r == 0) by (nonlinear_arith)
            requires
                2 * (r * s - 0 * parts) <= s,
                r >= 0,
                s > 0,
        ;
        assert(r * den == 0) by (nonlinear_arith)
            requires
                r == 0,
        ;
        assert(least_significand() * (0 - den) <= 0) by (nonlinear_arith)
            requires
                den > 0,
                least_significand() > 0,
        ;
    } else {
        law_scaled_quotient_is_normal(n, den);
        lemma_nearest_part(
            n as int,
            den as int,
            parts as int,
            s as int,
            sig as int,
            r as int,
            least_significand() as int,
        );
    }
}

/// What is scaled fits 64 bits.
pub proof fn law_scaled_integer_fits(n: nat, num: nat, den: nat)
    ensures
        scaled_integer(n, num, den) <= u64::MAX,
{
    reveal(scaled_integer);
}

/// The double nearest to an integer is off by at most one part in two to the
/// fifty-two.
proof fn lemma_integer_double_error(m: nat)
    ensures
        least_significand() * (nearest_integer_double(m) - m) <= m,
        least_significand() * (m - nearest_integer_double(m)) <= m,
{
    lemma_spacing_bounds(m);
    let spacing = integer_spacing(m);
    if m >= 2 * least_significand() {
        lemma_round_bound(m, spacing);
        assert(least_significand() * spacing <= m) by (nonlinear_arith)
            requires
                spacing * least_significand() <= m,
        ;
        let off = nearest_integer_double(m) - m;
        assert(least_significand() * off <= least_significand() * spacing) by (nonlinear_arith)
            requires
                off <= spacing,
                least_significand() > 0,
        ;
        assert(least_significand() * (-off) <= least_significand() * spacing) by (nonlinear_arith)
            requires
                -off <= spacing,
                least_significand() > 0,
        ;
    } else {
        law_small_integer_is_double(m);
    }
}

/// The arithmetic of a close product.
proof fn lemma_close_product(
    n: int,
    num: int,
    den: int,
    s: int,
    sig: int,
    product: int,
    r: int,
    least: int,
)
    requires
        s > 0,
        den > 0,
        n >= 0,
        num >= 0,
        sig >= 0,
        least > 0,
        den * least <= num * s,
        2 * (sig * den - num * s) <= den,
        2 * (num * s - sig * den) <= den,
        least * (product - n * sig) <= n * sig,
        least * (n * sig - product) <= n * sig,
        2 * (r * s - product) <= s,
        2 * (product - r * s) <= s,
    ensures
        2 * least * (r * den - n * num) <= least * den + 4 * (n * num),
        2 * least * (n * num - r * den) <= least * den + 4 * (n * num),
{
    let d = r * den - n * num;
    let a = (r * s - product) * den;
    let b = (product - n * sig) * den;
    let c = n * (sig * den - num * s);
    let e = n * num;
    let f = e * s;
    assert(d * s == a + b + c) by (nonlinear_arith)
        requires
            d == r * den - n * num,
            a == (r * s - product) * den,
            b == (product - n * sig) * den,
            c == n * (sig * den - num * s),
    ;
    assert(2 * a <= s * den && -(s * den) <= 2 * a) by (nonlinear_arith)
        requires
            a == (r * s - product) * den,
            2 * (r * s - product) <= s,
            2 * (product - r * s) <= s,
            den > 0,
    ;
    let g = n * sig * den;
    assert(least * b <= g && -g <= least * b) by (nonlinear_arith)
        requires
            b == (product - n * sig) * den,
            g == n * sig * den,
            least * (product - n * sig) <= n * sig,
            least * (n * sig - product) <= n * sig,
            den > 0,
    ;
    let h = n * den;
    assert(2 * c <= h && -h <= 2 * c) by (nonlinear_arith)
        requires
            c == n * (sig * den - num * s),
            h == n * den,
            2 * (sig * den - num * s) <= den,
            2 * (num * s - sig * den) <= den,
            n >= 0,
    ;
    assert(g == f + c) by (nonlinear_arith)
        requires
            g == n * sig * den,
            f == e * s,
            e == n * num,
            c == n * (sig * den - num * s),
    ;
    assert(least * h <= f) by (nonlinear_arith)
        requires
            h == n * den,
            f == e * s,
            e == n * num,
            den * least <= num * s,
            n >= 0,
    ;
    assert(h >= 0) by (nonlinear_arith)
        requires
            h == n * den,
            n >= 0,
            den > 0,
    ;
    assert(h <= f) by (nonlinear_arith)
        requires
            least * h <= f,
            least >= 1,
            h >= 0,
    ;
    let lc = least * c;
    assert(2 * lc <= f && -f <= 2 * lc) by (nonlinear_arith)
        requires
            lc == least * c,
            2 * c <= h,
            -h <= 2 * c,
            least * h <= f,
            least > 0,
    ;
    let la = least * a;
    let w = least * (s * den);
    assert(2 * la <= w && -w <= 2 * la) by (nonlinear_arith)
        requires
            la == least * a,
            w == least * (s * den),
            2 * a <= s * den,
            -(s * den) <= 2 * a,
            least > 0,
    ;
    let total = least * (d * s);
    assert(total == la + least * b + lc) by (nonlinear_arith)
        requires
            total == least * (d * s),
            d * s == a + b + c,
            la == least * a,
            lc == least * c,
    ;
    assert(2 * total <= w + 4 * f);
    assert(-2 * total <= w + 4 * f);
    assert(2 * least * d <= least * den + 4 * e) by (nonlinear_arith)
        requires
            2 * total <= w + 4 * f,
            total == least * (d * s),
            w == least * (s * den),
            f == e * s,
            s > 0,
    ;
    assert(2 * least * (-d) <= least * den + 4 * e) by (nonlinear_arith)
        requires
            -2 * total <= w + 4 * f,
            total == least * (d * s),
            w == least * (s * den),
            f == e * s,
            s > 0,
    ;
}

/// Scaling an integer by a quotient gives an integer next to the exact product:
/// it is off by at most one half, and by what the two roundings to doubles may be
/// off, one part in two to the fifty-one.
pub proof fn law_scaling_is_close(n: nat, num: nat, den: nat)
    requires
        n < 2 * least_significand(),
        0 < num < 2 * least_significand(),
        0 < den < 2 * least_significand(),
        scaled_integer(n, num, den) < u64::MAX,
    ensures
        2 * least_significand() * (scaled_integer(n, num, den) * den - n * num)
            <= least_significand() * den + 4 * (n * num),
        2 * least_significand() * (n * num - scaled_integer(n, num, den) * den)
            <= least_significand() * den + 4 * (n * num),
{
    reveal(scaled_integer);
    law_small_integer_is_double(n);
    law_small_integer_is_double(num);
    law_small_integer_is_double(den);
    let s = quotient_scale(num, den);
    let sig = quotient_significand(num, den);
    lemma_scale_positive(num, den);
    assert(num < 2 * den * least_significand()) by (nonlinear_arith)
        requires
            num < 2 * least_significand(),
            den >= 1,
    ;
    assert(quotient_spacing(num, den) == 1);
    assert(den * 1 == den);
    lemma_round_nearest(num * s, den);
    law_scaled_quotient_is_normal(num, den);
    let product = nearest_integer_double(n * sig);
    lemma_integer_double_error(n * sig);
    let wide = product * quotient_spacing(num, den);
    assert(wide == product) by (nonlinear_arith)
        requires
            wide == product * quotient_spacing(num, den),
            quotient_spacing(num, den) == 1,
    ;
    let r = (2 * product + s) / (2 * s);
    assert(scaled_integer(n, num, den) == r);
    assert(2 * (r * s - product) <= s && 2 * (product - r * s) <= s) by (nonlinear_arith)
        requires
            r == (2 * product + s) / (2 * s),
            s > 0,
            product >= 0,
    ;
    lemma_close_product(
        n as int,
        num as int,
        den as int,
        s as int,
        sig as int,
        product as int,
        r as int,
        least_significand() as int,
    );
}

} // verus!
