//! Measured quantities, held as the bit patterns of binary64 numbers.
//!
//! The library carries, orders and compares measured quantities; the caller
//! computes them.
use vstd::prelude::*;

verus! {

/// A measured quantity: the bits of an IEEE 754 binary64 number.
#[derive(Clone, Copy, Debug, PartialEq, Eq, Structural)]
pub struct Metric {
    pub bits: u64,
}

/// The sign bit of a binary64 number.
pub const SIGN_BIT: u64 = 0x8000_0000_0000_0000;

/// The magnitude bits of infinity; anything above them is not a number.
pub const INFINITE_MAGNITUDE: u64 = 0x7FF0_0000_0000_0000;

/// The bits of the number zero.
pub const ZERO_BITS: u64 = 0;

/// The bits of the number one hundred.
pub const HUNDRED_BITS: u64 = 0x4059_0000_0000_0000;

/// The bits of the number three hundred.
pub const THREE_HUNDRED_BITS: u64 = 0x4072_C000_0000_0000;

impl Metric {
    /// The sign bit is set.
    pub open spec fn is_negative(self) -> bool {
        self.bits >= SIGN_BIT
    }

    /// The bits without the sign.
    pub open spec fn magnitude(self) -> int {
        if self.is_negative() {
            self.bits - SIGN_BIT
        } else {
            self.bits as int
        }
    }

    /// The bits denote no number.
    pub open spec fn is_nan(self) -> bool {
        self.magnitude() > INFINITE_MAGNITUDE
    }

    /// The place of the quantity in the IEEE 754 total order.
    pub open spec fn total_rank(self) -> int {
        if self.is_negative() {
            -self.magnitude() - 1
        } else {
            self.magnitude()
        }
    }

    /// The place of the quantity among the numbers; both zeros share one.
    pub open spec fn value_rank(self) -> int {
        if self.is_negative() {
            -self.magnitude()
        } else {
            self.magnitude()
        }
    }

    /// The number denoted is greater than `other`; never so where one of the
    /// two denotes no number.
    pub open spec fn spec_exceeds(self, other: Metric) -> bool {
        !self.is_nan() && !other.is_nan() && self.value_rank() > other.value_rank()
    }

    /// Zero.
    pub fn zero() -> (r: Metric)
        ensures
            r.bits == ZERO_BITS,
    {
        Metric { bits: ZERO_BITS }
    }

    /// Whether the quantity comes before `other` in the total order.
    pub fn ranks_below(&self, other: &Metric) -> (r: bool)
        ensures
            r == (self.total_rank() < other.total_rank()),
    {
        if self.bits >= SIGN_BIT {
            if other.bits >= SIGN_BIT {
                self.bits > other.bits
            } else {
                true
            }
        } else if other.bits >= SIGN_BIT {
            false
        } else {
            self.bits < other.bits
        }
    }

    /// Whether the number denoted is greater than `other`.
    pub fn exceeds(&self, other: &Metric) -> (r: bool)
        ensures
            r == self.spec_exceeds(*other),
    {
        let magnitude: u64 = if self.bits >= SIGN_BIT {
            self.bits - SIGN_BIT
        } else {
            self.bits
        };
        let other_magnitude: u64 = if other.bits >= SIGN_BIT {
            other.bits - SIGN_BIT
        } else {
            other.bits
        };
        if magnitude > INFINITE_MAGNITUDE || other_magnitude > INFINITE_MAGNITUDE {
            return false;
        }
        if self.bits >= SIGN_BIT {
            other.bits >= SIGN_BIT && magnitude < other_magnitude
        } else if other.bits >= SIGN_BIT {
            magnitude > 0 || other_magnitude > 0
        } else {
            magnitude > other_magnitude
        }
    }
}

/// The total order tells all quantities apart.
pub proof fn law_total_order_is_injective(a: Metric, b: Metric)
    requires
        a.total_rank() == b.total_rank(),
    ensures
        a == b,
{
}

/// The least of the quantities in the total order.
pub open spec fn is_least(metrics: Seq<Metric>, m: Metric) -> bool {
    &&& metrics.contains(m)
    &&& forall|i: int| 0 <= i < metrics.len() ==> m.total_rank() <= #[trigger] metrics[i].total_rank()
}

/// The greatest of the quantities in the total order.
pub open spec fn is_greatest(metrics: Seq<Metric>, m: Metric) -> bool {
    &&& metrics.contains(m)
    &&& forall|i: int| 0 <= i < metrics.len() ==> #[trigger] metrics[i].total_rank() <= m.total_rank()
}

/// The least quantity; none of no quantities.
pub fn least_metric(metrics: &Vec<Metric>) -> (r: Option<Metric>)
    ensures
        match r {
            Some(m) => is_least(metrics@, m),
            None => metrics@.len() == 0,
        },
{
    if metrics.len() == 0 {
        return None;
    }
    let mut best: Metric = metrics[0];
    for i in 1..metrics.len()
        invariant
            metrics@.contains(best),
            metrics@.len() > 0,
            forall|k: int| 0 <= k < i ==> best.total_rank() <= #[trigger] metrics@[k].total_rank(),
    {
        if metrics[i].ranks_below(&best) {
            best = metrics[i];
        }
    }
    Some(best)
}

/// The greatest quantity; none of no quantities.
pub fn greatest_metric(metrics: &Vec<Metric>) -> (r: Option<Metric>)
    ensures
        match r {
            Some(m) => is_greatest(metrics@, m),
            None => metrics@.len() == 0,
        },
{
    if metrics.len() == 0 {
        return None;
    }
    let mut best: Metric = metrics[0];
    for i in 1..metrics.len()
        invariant
            metrics@.contains(best),
            metrics@.len() > 0,
            forall|k: int| 0 <= k < i ==> #[trigger] metrics@[k].total_rank() <= best.total_rank(),
    {
        if best.ranks_below(&metrics[i]) {
            best = metrics[i];
        }
    }
    Some(best)
}

/// One quantity exceeds another as the numbers do: of two that are not negative
/// the one with the greater bits; any of them a negative one that is not zero;
/// and of two negative ones the one with the smaller bits. What is no number
/// exceeds nothing and is exceeded by nothing.
pub proof fn law_exceeding_is_being_greater(a: Metric, b: Metric)
    ensures
        a.bits < 0x8000_0000_0000_0000 && b.bits < 0x8000_0000_0000_0000 && a.bits
            <= 0x7FF0_0000_0000_0000 && b.bits <= 0x7FF0_0000_0000_0000 ==> (a.spec_exceeds(b)
            <==> a.bits > b.bits),
        a.bits <= 0x7FF0_0000_0000_0000 && 0x8000_0000_0000_0000 < b.bits
            <= 0xFFF0_0000_0000_0000 ==> a.spec_exceeds(b) && !b.spec_exceeds(a),
        0x8000_0000_0000_0000 <= a.bits <= 0xFFF0_0000_0000_0000 && 0x8000_0000_0000_0000 <= b.bits
            <= 0xFFF0_0000_0000_0000 ==> (a.spec_exceeds(b) <==> a.bits < b.bits),
        a.spec_exceeds(b) ==> !b.spec_exceeds(a),
        !a.spec_exceeds(a),
        0x7FF0_0000_0000_0000 < a.bits < 0x8000_0000_0000_0000 || a.bits > 0xFFF0_0000_0000_0000
            ==> !a.spec_exceeds(b) && !b.spec_exceeds(a),
{
}

/// The total order of quantities is that of their bits for those that are not
/// negative, the reverse for negative ones, and puts these before those.
pub proof fn law_total_order_follows_bits(a: Metric, b: Metric)
    ensures
        a.bits < 0x8000_0000_0000_0000 && b.bits < 0x8000_0000_0000_0000 ==> (a.total_rank()
            < b.total_rank() <==> a.bits < b.bits),
        a.bits >= 0x8000_0000_0000_0000 && b.bits >= 0x8000_0000_0000_0000 ==> (a.total_rank()
            < b.total_rank() <==> a.bits > b.bits),
        a.bits >= 0x8000_0000_0000_0000 && b.bits < 0x8000_0000_0000_0000 ==> a.total_rank()
            < b.total_rank(),
{
}

} // verus!
