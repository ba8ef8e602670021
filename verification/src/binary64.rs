//! Floating-point readings, carried by their bit patterns.
//!
//! Coordinates and temperatures reach the service as IEEE 754 binary64
//! numbers. They are held here as the 64 bits that encode them, and ordered
//! by integer arithmetic on those bits alone.

use vstd::prelude::*;

verus! {

/// The sign bit of a binary64 pattern.
pub const SIGN: u64 = 0x8000_0000_0000_0000;

/// The pattern of positive infinity.
pub const INFINITY: u64 = 0x7ff0_0000_0000_0000;

/// The pattern of negative infinity.
pub const NEG_INFINITY: u64 = 0xfff0_0000_0000_0000;

/// One binary64 value, as its bits: sign, eleven bits of exponent,
/// fifty-two bits of fraction.
#[derive(Clone, Copy, Debug, PartialEq, Eq, Structural)]
pub struct Binary64 {
    pub bits: u64,
}

impl Binary64 {
    /// The pattern without its sign bit.
    pub open spec fn magnitude(self) -> int {
        if self.bits >= SIGN {
            self.bits - SIGN
        } else {
            self.bits as int
        }
    }

    /// Whether the pattern encodes no number: all exponent bits set and a
    /// fraction that is not zero.
    pub open spec fn spec_is_nan(&self) -> bool {
        self.magnitude() > INFINITY
    }

    /// Where the value stands on the number line. For two patterns that
    /// encode numbers, the one with the smaller rank encodes the smaller
    /// number; both zeros have rank 0.
    pub open spec fn rank(self) -> int {
        if self.bits >= SIGN {
            -self.magnitude()
        } else {
            self.magnitude()
        }
    }

    /// Whether `self` compares less than `other`. A pattern that encodes no
    /// number compares less than nothing, and nothing less than it.
    pub open spec fn spec_lt(&self, other: &Binary64) -> bool {
        !self.spec_is_nan() && !other.spec_is_nan() && self.rank() < other.rank()
    }

    /// Wraps a bit pattern.
    pub fn from_bits(bits: u64) -> (value: Binary64)
        ensures
            value.bits == bits,
    {
        Binary64 { bits }
    }

    /// The bit pattern.
    pub fn to_bits(&self) -> (bits: u64)
        ensures
            bits == self.bits,
    {
        self.bits
    }

    /// The pattern without its sign bit.
    fn abs_bits(&self) -> (m: u64)
        ensures
            m == self.magnitude(),
    {
        if self.bits >= SIGN {
            self.bits - SIGN
        } else {
            self.bits
        }
    }

    /// Tells whether the pattern encodes no number.
    #[verifier::when_used_as_spec(spec_is_nan)]
    pub fn is_nan(&self) -> (b: bool)
        ensures
            b == self.spec_is_nan(),
    {
        self.abs_bits() > INFINITY
    }

    /// Tells whether `self` compares less than `other`.
    #[verifier::when_used_as_spec(spec_lt)]
    pub fn lt(&self, other: &Binary64) -> (b: bool)
        ensures
            b == self.spec_lt(other),
    {
        if self.is_nan() || other.is_nan() {
            return false;
        }
        let a: u64 = self.abs_bits();
        let b: u64 = other.abs_bits();
        if self.bits >= SIGN {
            if other.bits >= SIGN {
                b < a
            } else {
                a > 0 || b > 0
            }
        } else {
            other.bits < SIGN && a < b
        }
    }
}

/// Whether some entry of `readings` encodes a number.
pub open spec fn has_number(readings: Seq<Binary64>) -> bool {
    exists|i: int| 0 <= i < readings.len() && !(#[trigger] readings[i]).is_nan()
}

/// Whether `low` is the minimum of `readings`: the first of the numbers
/// among them that none of the others is less than. Entries that encode no
/// number are passed over; where there is no number at all, the minimum is
/// positive infinity.
pub open spec fn is_minimum(readings: Seq<Binary64>, low: Binary64) -> bool {
    if has_number(readings) {
        exists|i: int|
            {
                &&& 0 <= i < readings.len()
                &&& #[trigger] readings[i] == low
                &&& !low.is_nan()
                &&& forall|j: int|
                    0 <= j < readings.len() && !(#[trigger] readings[j]).is_nan() ==> low.rank()
                        <= readings[j].rank()
                &&& forall|j: int|
                    0 <= j < i && !(#[trigger] readings[j]).is_nan() ==> low.rank()
                        < readings[j].rank()
            }
    } else {
        low.bits == INFINITY
    }
}

/// Whether `high` is the maximum of `readings`: the first of the numbers
/// among them that is less than none of the others. Entries that encode no
/// number are passed over; where there is no number at all, the maximum is
/// negative infinity.
pub open spec fn is_maximum(readings: Seq<Binary64>, high: Binary64) -> bool {
    if has_number(readings) {
        exists|i: int|
            {
                &&& 0 <= i < readings.len()
                &&& #[trigger] readings[i] == high
                &&& !high.is_nan()
                &&& forall|j: int|
                    0 <= j < readings.len() && !(#[trigger] readings[j]).is_nan()
                        ==> readings[j].rank() <= high.rank()
                &&& forall|j: int|
                    0 <= j < i && !(#[trigger] readings[j]).is_nan() ==> readings[j].rank()
                        < high.rank()
            }
    } else {
        high.bits == NEG_INFINITY
    }
}

/// A sequence of readings has one minimum.
pub proof fn lemma_minimum_is_unique(readings: Seq<Binary64>, a: Binary64, b: Binary64)
    requires
        is_minimum(readings, a),
        is_minimum(readings, b),
    ensures
        a == b,
{
    if has_number(readings) {
        let i = choose|i: int|
            {
                &&& 0 <= i < readings.len()
                &&& #[trigger] readings[i] == a
                &&& !a.is_nan()
                &&& forall|j: int|
                    0 <= j < readings.len() && !(#[trigger] readings[j]).is_nan() ==> a.rank()
                        <= readings[j].rank()
                &&& forall|j: int|
                    0 <= j < i && !(#[trigger] readings[j]).is_nan() ==> a.rank()
                        < readings[j].rank()
            };
        let k = choose|k: int|
            {
                &&& 0 <= k < readings.len()
                &&& #[trigger] readings[k] == b
                &&& !b.is_nan()
                &&& forall|j: int|
                    0 <= j < readings.len() && !(#[trigger] readings[j]).is_nan() ==> b.rank()
                        <= readings[j].rank()
                &&& forall|j: int|
                    0 <= j < k && !(#[trigger] readings[j]).is_nan() ==> b.rank()
                        < readings[j].rank()
            };
        assert(i == k);
    }
}

/// A sequence of readings has one maximum.
pub proof fn lemma_maximum_is_unique(readings: Seq<Binary64>, a: Binary64, b: Binary64)
    requires
        is_maximum(readings, a),
        is_maximum(readings, b),
    ensures
        a == b,
{
    if has_number(readings) {
        let i = choose|i: int|
            {
                &&& 0 <= i < readings.len()
                &&& #[trigger] readings[i] == a
                &&& !a.is_nan()
                &&& forall|j: int|
                    0 <= j < readings.len() && !(#[trigger] readings[j]).is_nan()
                        ==> readings[j].rank() <= a.rank()
                &&& forall|j: int|
                    0 <= j < i && !(#[trigger] readings[j]).is_nan() ==> readings[j].rank()
                        < a.rank()
            };
        let k = choose|k: int|
            {
                &&& 0 <= k < readings.len()
                &&& #[trigger] readings[k] == b
                &&& !b.is_nan()
                &&& forall|j: int|
                    0 <= j < readings.len() && !(#[trigger] readings[j]).is_nan()
                        ==> readings[j].rank() <= b.rank()
                &&& forall|j: int|
                    0 <= j < k && !(#[trigger] readings[j]).is_nan() ==> readings[j].rank()
                        < b.rank()
            };
        assert(i == k);
    }
}

/// Among readings that all encode numbers, and of which there is at least
/// one, the minimum and the maximum are readings, no reading is less than
/// the minimum, and none is greater than the maximum.
pub proof fn lemma_extremes_bound_every_reading(
    readings: Seq<Binary64>,
    low: Binary64,
    high: Binary64,
)
    requires
        readings.len() > 0,
        forall|i: int| 0 <= i < readings.len() ==> !(#[trigger] readings[i]).is_nan(),
        is_minimum(readings, low),
        is_maximum(readings, high),
    ensures
        readings.contains(low),
        readings.contains(high),
        forall|i: int|
            0 <= i < readings.len() ==> low.rank() <= (#[trigger] readings[i]).rank()
                <= high.rank(),
{
    assert(!readings[0].is_nan());
}

/// The minimum of `readings`.
pub fn minimum(readings: &Vec<Binary64>) -> (low: Binary64)
    ensures
        is_minimum(readings@, low),
{
    let mut low = Binary64 { bits: INFINITY };
    let mut found: bool = false;
    let ghost mut at: int = 0;
    let mut k: usize = 0;
    while k < readings.len()
        invariant
            k <= readings.len(),
            found <==> has_number(readings@.take(k as int)),
            !found ==> low.bits == INFINITY,
            found ==> {
                &&& 0 <= at < k
                &&& readings@[at] == low
                &&& !low.is_nan()
                &&& forall|j: int|
                    0 <= j < k && !(#[trigger] readings@[j]).is_nan() ==> low.rank()
                        <= readings@[j].rank()
                &&& forall|j: int|
                    0 <= j < at && !(#[trigger] readings@[j]).is_nan() ==> low.rank()
                        < readings@[j].rank()
            },
        decreases readings.len() - k,
    {
        let reading = readings[k];
        proof {
            let before = readings@.take(k as int);
            let after = readings@.take(k + 1);
            assert(after[k as int] == reading);
            assert(forall|i: int| 0 <= i < k ==> before[i] == after[i]);
            if has_number(before) {
                let i = choose|i: int| 0 <= i < before.len() && !(#[trigger] before[i]).is_nan();
                assert(!after[i].is_nan());
            }
            if has_number(after) && reading.is_nan() {
                let i = choose|i: int| 0 <= i < after.len() && !(#[trigger] after[i]).is_nan();
                assert(!before[i].is_nan());
            }
        }
        if !reading.is_nan() && (!found || reading.lt(&low)) {
            proof {
                if !found {
                    assert forall|j: int| 0 <= j < k implies (#[trigger] readings@[j]).is_nan() by {
                        assert(readings@.take(k as int)[j] == readings@[j]);
                    }
                }
                at = k as int;
            }
            low = reading;
            found = true;
        }
        k += 1;
    }
    assert(readings@.take(k as int) == readings@);
    low
}

/// The maximum of `readings`.
pub fn maximum(readings: &Vec<Binary64>) -> (high: Binary64)
    ensures
        is_maximum(readings@, high),
{
    let mut high = Binary64 { bits: NEG_INFINITY };
    let mut found: bool = false;
    let ghost mut at: int = 0;
    let mut k: usize = 0;
    while k < readings.len()
        invariant
            k <= readings.len(),
            found <==> has_number(readings@.take(k as int)),
            !found ==> high.bits == NEG_INFINITY,
            found ==> {
                &&& 0 <= at < k
                &&& readings@[at] == high
                &&& !high.is_nan()
                &&& forall|j: int|
                    0 <= j < k && !(#[trigger] readings@[j]).is_nan() ==> readings@[j].rank()
                        <= high.rank()
                &&& forall|j: int|
                    0 <= j < at && !(#[trigger] readings@[j]).is_nan() ==> readings@[j].rank()
                        < high.rank()
            },
        decreases readings.len() - k,
    {
        let reading = readings[k];
        proof {
            let before = readings@.take(k as int);
            let after = readings@.take(k + 1);
            assert(after[k as int] == reading);
            assert(forall|i: int| 0 <= i < k ==> before[i] == after[i]);
            if has_number(before) {
                let i = choose|i: int| 0 <= i < before.len() && !(#[trigger] before[i]).is_nan();
                assert(!after[i].is_nan());
            }
            if has_number(after) && reading.is_nan() {
                let i = choose|i: int| 0 <= i < after.len() && !(#[trigger] after[i]).is_nan();
                assert(!before[i].is_nan());
            }
        }
        if !reading.is_nan() && (!found || high.lt(&reading)) {
            proof {
                if !found {
                    assert forall|j: int| 0 <= j < k implies (#[trigger] readings@[j]).is_nan() by {
                        assert(readings@.take(k as int)[j] == readings@[j]);
                    }
                }
                at = k as int;
            }
            high = reading;
            found = true;
        }
        k += 1;
    }
    assert(readings@.take(k as int) == readings@);
    high
}

} // verus!
