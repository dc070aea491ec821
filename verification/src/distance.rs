//! Classifier distances and the fixed threshold that turns one into a
//! decision.
//!
//! A classifier reports how unlike the probe its nearest trained sample is, as
//! an IEEE 754 double. The library holds such a value by its 64-bit pattern
//! and orders patterns the way the numbers are ordered: by sign and magnitude,
//! with both zeros equal and a NaN comparable to nothing.

use vstd::prelude::*;

verus! {

/// The bit pattern of the acceptance threshold, 80.0.
pub const THRESHOLD_BITS: u64 = 0x4054_0000_0000_0000;

/// Two to the power 63: the weight of the sign bit.
pub const SIGN_BIT: u64 = 0x8000_0000_0000_0000;

/// The pattern of positive infinity. Every larger magnitude is a NaN.
pub const INFINITY_BITS: u64 = 0x7ff0_0000_0000_0000;

/// A dissimilarity score, held as the bit pattern of a double. Lower is more
/// similar. Two scores are `==` when their encodings are the same; `lt`
/// compares them as numbers.
#[derive(Clone, Copy, Debug, PartialEq, Eq, Structural)]
pub struct Distance {
    /// The IEEE 754 binary64 encoding of the score.
    pub bits: u64,
}

impl Distance {
    /// The pattern without its sign bit.
    pub open spec fn magnitude(self) -> int {
        self.bits as int % SIGN_BIT as int
    }

    /// Whether the sign bit is set.
    pub open spec fn is_negative(self) -> bool {
        self.bits >= SIGN_BIT
    }

    /// Whether the pattern encodes no number at all.
    pub open spec fn is_nan(self) -> bool {
        self.magnitude() > INFINITY_BITS
    }

    /// The place of the value among all doubles: an integer that grows exactly
    /// as the encoded number grows. Meaningless for a NaN.
    pub open spec fn rank(self) -> int {
        if self.is_negative() {
            -self.magnitude()
        } else {
            self.magnitude()
        }
    }

    /// `self < other` as doubles compare: false whenever either is a NaN.
    pub open spec fn is_below(self, other: Distance) -> bool {
        !self.is_nan() && !other.is_nan() && self.rank() < other.rank()
    }

    /// Whether a match at this distance is accepted: strictly under the
    /// threshold.
    pub open spec fn accepted(self) -> bool {
        self.is_below(threshold())
    }

    /// The score with the given encoding.
    pub fn from_bits(bits: u64) -> (d: Distance)
        ensures
            d.bits == bits,
    {
        Distance { bits }
    }

    /// The encoding of the score.
    pub fn to_bits(&self) -> (bits: u64)
        ensures
            bits == self.bits,
    {
        self.bits
    }

    /// Compares two scores as doubles compare.
    pub fn lt(&self, other: &Distance) -> (below: bool)
        ensures
            below == self.is_below(*other),
    {
        let a: u64 = self.bits % SIGN_BIT;
        let b: u64 = other.bits % SIGN_BIT;
        if a > INFINITY_BITS || b > INFINITY_BITS {
            return false;
        }
        let a_negative = self.bits >= SIGN_BIT;
        let b_negative = other.bits >= SIGN_BIT;
        if a_negative {
            if b_negative {
                b < a
            } else {
                a != 0 || b != 0
            }
        } else {
            if b_negative {
                false
            } else {
                a < b
            }
        }
    }

    /// The decision policy: a match is accepted if and only if its distance is
    /// strictly under the threshold.
    pub fn is_match(&self) -> (accepted: bool)
        ensures
            accepted == self.accepted(),
    {
        let limit = Distance { bits: THRESHOLD_BITS };
        self.lt(&limit)
    }
}

/// The acceptance threshold as a score.
pub open spec fn threshold() -> Distance {
    Distance { bits: THRESHOLD_BITS }
}

/// The greatest double under the threshold.
pub open spec fn just_under_threshold() -> Distance {
    Distance { bits: 0x4053_ffff_ffff_ffff }
}

/// The threshold is exclusive. A distance exactly at the threshold is
/// rejected. The nearest double under it is accepted, no double lies between
/// the two, and a number is accepted exactly when it ranks under the
/// threshold. A NaN is never accepted.
pub proof fn lemma_threshold_boundary(d: Distance)
    ensures
        !threshold().accepted(),
        just_under_threshold().accepted(),
        just_under_threshold().rank() + 1 == threshold().rank(),
        !d.is_nan() ==> (d.accepted() <==> d.rank() < threshold().rank()),
        d.is_nan() ==> !d.accepted(),
{
}

/// Whatever is closer than an accepted distance is accepted too.
pub proof fn lemma_closer_is_accepted(closer: Distance, d: Distance)
    requires
        d.accepted(),
        closer.is_below(d),
    ensures
        closer.accepted(),
{
}

/// Among the scores that are numbers, `is_below` is a strict order: nothing is
/// below itself, and it is transitive. A NaN is below nothing and nothing is
/// below it.
pub proof fn lemma_is_below_is_strict_order(a: Distance, b: Distance, c: Distance)
    ensures
        !a.is_below(a),
        a.is_below(b) && b.is_below(c) ==> a.is_below(c),
        a.is_below(b) ==> !b.is_below(a),
        a.is_nan() ==> !a.is_below(b) && !b.is_below(a),
{
}

} // verus!
