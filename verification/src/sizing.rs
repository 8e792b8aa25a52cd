//! Sizes of slots and buffers.
use vstd::prelude::*;

verus! {

/// The least doubling of `unit` that is at least `n`.
pub open spec fn doubled_to(unit: nat, n: nat) -> nat
    decreases 2 * n - unit,
{
    if unit == 0 || unit >= n {
        unit
    } else {
        doubled_to(2 * unit, n)
    }
}

/// The least power of two that is at least `n`.
pub open spec fn power_of_two_from(n: nat) -> nat {
    doubled_to(1, n)
}

/// `n` is a power of two.
pub open spec fn is_power_of_two(n: nat) -> bool
    decreases n,
{
    n == 1 || (n > 1 && n % 2 == 0 && is_power_of_two(n / 2))
}

/// The depth of a buffer that serves so many consumers: at least the base
/// depth, and 256 slots for each consumer, their number rounded up to a power
/// of two; in all a power of two.
pub open spec fn scaled_depth(base_buffer: nat, consumers: nat) -> nat {
    let least = power_of_two_from(consumers) * 256;
    power_of_two_from(
        if base_buffer >= least {
            base_buffer
        } else {
            least
        },
    )
}

/// The depth is within what a machine can count.
pub open spec fn depth_fits(base_buffer: nat, consumers: nat) -> bool {
    &&& consumers <= usize::MAX / 2 + 1
    &&& base_buffer <= usize::MAX / 2 + 1
    &&& power_of_two_from(consumers) * 256 <= usize::MAX / 2 + 1
}

/// A doubling is at least its start and what it is doubled to, and less than
/// twice that.
proof fn lemma_doubled_to(unit: nat, n: nat)
    requires
        unit > 0,
        is_power_of_two(unit),
    ensures
        doubled_to(unit, n) >= n,
        doubled_to(unit, n) >= unit,
        is_power_of_two(doubled_to(unit, n)),
        unit < n ==> doubled_to(unit, n) < 2 * n,
        unit >= n ==> doubled_to(unit, n) == unit,
    decreases 2 * n - unit,
{
    if unit < n {
        assert(is_power_of_two(2 * unit));
        lemma_doubled_to(2 * unit, n);
    }
}

/// The depth of a buffer is a power of two, and as deep as asked.
pub proof fn law_scaled_depth_serves_all(base_buffer: nat, consumers: nat)
    ensures
        is_power_of_two(scaled_depth(base_buffer, consumers)),
        scaled_depth(base_buffer, consumers) >= base_buffer,
        scaled_depth(base_buffer, consumers) >= 256 * consumers,
{
    lemma_doubled_to(1, consumers);
    let least = power_of_two_from(consumers) * 256;
    let wanted = if base_buffer >= least {
        base_buffer
    } else {
        least
    };
    lemma_doubled_to(1, wanted);
}

/// The depths for up to sixty-four consumers and sixty-five thousand slots are
/// within what any machine can count.
pub proof fn law_small_depths_fit(base_buffer: nat, consumers: nat)
    requires
        base_buffer <= 65536,
        consumers <= 64,
    ensures
        depth_fits(base_buffer, consumers),
{
    lemma_doubled_to(1, consumers);
}

/// The least power of two that is at least `n`.
pub fn next_power_of_two(n: usize) -> (r: usize)
    requires
        n <= usize::MAX / 2 + 1,
    ensures
        r == power_of_two_from(n as nat),
{
    let mut power: usize = 1;
    while power < n
        invariant
            power >= 1,
            n <= usize::MAX / 2 + 1,
            doubled_to(1, n as nat) == doubled_to(power as nat, n as nat),
        decreases 2 * n - power,
    {
        power = 2 * power;
    }
    power
}

/// Whether the depth of a buffer is within what a machine can count.
pub fn is_countable_depth(base_buffer: usize, consumers: usize) -> (r: bool)
    ensures
        r == depth_fits(base_buffer as nat, consumers as nat),
{
    let most: usize = usize::MAX / 2 + 1;
    consumers <= most && base_buffer <= most && next_power_of_two(consumers) <= most / 256
}

/// The depth of a buffer that serves so many consumers.
pub fn scaled_buffer(base_buffer: usize, consumers: usize) -> (r: usize)
    requires
        depth_fits(base_buffer as nat, consumers as nat),
    ensures
        r == scaled_depth(base_buffer as nat, consumers as nat),
{
    let least: usize = next_power_of_two(consumers) * 256;
    if base_buffer >= least {
        next_power_of_two(base_buffer)
    } else {
        next_power_of_two(least)
    }
}

/// A slot's size: that of its event, rounded up to whole cache lines.
pub open spec fn slot_size(event_bytes: nat) -> nat {
    (event_bytes + 63) / 64 * 64
}

/// A slot's size.
pub fn aligned_slot_bytes(event_bytes: usize) -> (r: usize)
    requires
        event_bytes <= usize::MAX - 63,
    ensures
        r == slot_size(event_bytes as nat),
{
    (event_bytes + 63) / 64 * 64
}

/// A payload's size: that of the event without its two numbers.
pub open spec fn payload_size(event_bytes: nat) -> nat {
    if event_bytes >= 16 {
        (event_bytes - 16) as nat
    } else {
        0
    }
}

/// A payload's size.
pub fn raw_payload_bytes(event_bytes: usize) -> (r: usize)
    ensures
        r == payload_size(event_bytes as nat),
{
    event_bytes.saturating_sub(16)
}

/// The depth of a buffer is no greater than it has to be: less than twice the
/// greater of the base depth and 256 slots for each of a power of two of
/// consumers, which is less than twice their number.
pub proof fn law_scaled_depth_is_tight(base_buffer: nat, consumers: nat)
    requires
        consumers >= 1,
    ensures
        scaled_depth(base_buffer, consumers) < 2 * base_buffer || scaled_depth(
            base_buffer,
            consumers,
        ) < 512 * consumers || (consumers == 1 && scaled_depth(base_buffer, consumers) == 256),
{
    lemma_doubled_to(1, consumers);
    let least = power_of_two_from(consumers) * 256;
    if base_buffer >= least {
        lemma_doubled_to(1, base_buffer);
    } else {
        let group = power_of_two_from(consumers);
        lemma_eight_doublings(group);
        lemma_power_stays(1, least);
    }
}

/// A power of two times 256 is a power of two.
proof fn lemma_eight_doublings(n: nat)
    requires
        is_power_of_two(n),
    ensures
        is_power_of_two(n * 256),
{
    assert(is_power_of_two(2 * n));
    assert(is_power_of_two(4 * n));
    assert(is_power_of_two(8 * n));
    assert(is_power_of_two(16 * n));
    assert(is_power_of_two(32 * n));
    assert(is_power_of_two(64 * n));
    assert(is_power_of_two(128 * n));
    assert(is_power_of_two(256 * n));
}

/// A power of two is not split by a lesser one: it is at least its double.
proof fn lemma_powers_are_apart(a: nat, b: nat)
    requires
        is_power_of_two(a),
        is_power_of_two(b),
        a < b,
    ensures
        2 * a <= b,
    decreases b,
{
    if a > 1 {
        lemma_powers_are_apart(a / 2, b / 2);
    }
}

/// Doubling up to a power of two ends there.
proof fn lemma_power_stays(unit: nat, n: nat)
    requires
        is_power_of_two(unit),
        is_power_of_two(n),
        0 < unit <= n,
    ensures
        doubled_to(unit, n) == n,
    decreases n - unit,
{
    if unit < n {
        lemma_powers_are_apart(unit, n);
        assert(is_power_of_two(2 * unit));
        lemma_power_stays(2 * unit, n);
    }
}

/// The least power of two from a number on is one, is no less than the number,
/// and is no greater than any other that is no less.
pub proof fn law_next_power_is_the_least(n: nat, other: nat)
    requires
        is_power_of_two(other),
        other >= n,
    ensures
        is_power_of_two(power_of_two_from(n)),
        n <= power_of_two_from(n) <= other,
{
    lemma_doubled_to(1, n);
    if power_of_two_from(n) > other {
        lemma_powers_are_apart(other, power_of_two_from(n));
    }
}

/// A slot holds its event in whole cache lines, and in no more than it needs.
pub proof fn law_slot_is_whole_cache_lines(event_bytes: nat)
    ensures
        slot_size(event_bytes) % 64 == 0,
        event_bytes <= slot_size(event_bytes) < event_bytes + 64,
{
}

/// An event is its payload and two numbers of eight bytes.
pub proof fn law_event_is_payload_and_numbers(event_bytes: nat)
    ensures
        event_bytes >= 16 ==> payload_size(event_bytes) + 16 == event_bytes,
        event_bytes <= 16 ==> payload_size(event_bytes) == 0,
{
}

} // verus!
