//! Similarity scores as the library holds them.
//!
//! A score is kept as the bit pattern of an IEEE-754 single-precision
//! number, so it can be handed on exactly. The library reads two things
//! from the pattern: whether the score is a number at all, and a whole
//! number that orders it.

use vstd::prelude::*;

verus! {

/// A similarity score, held as an IEEE-754 single-precision bit pattern.
#[derive(Clone, Copy, Debug, PartialEq, Eq, Structural)]
pub struct Score {
    pub bits: u32,
}

/// The sign bit of a pattern.
pub const SIGN_BIT: u32 = 0x8000_0000;

/// The pattern of positive infinity. A magnitude above it is not a number.
pub const INFINITY_BITS: u32 = 0x7F80_0000;

/// The pattern of the number one.
pub const ONE_BITS: u32 = 0x3F80_0000;

impl Score {
    /// The pattern without its sign bit.
    pub open spec fn magnitude(self) -> int {
        if self.bits >= SIGN_BIT {
            self.bits - SIGN_BIT
        } else {
            self.bits as int
        }
    }

    /// Whether the pattern is not a number. Such a score is in no order
    /// with any other.
    pub open spec fn incomparable(self) -> bool {
        self.magnitude() > INFINITY_BITS
    }

    /// The whole number that orders a score: the magnitude, negated where
    /// the sign bit is set. Both zeros have key 0, and among numbers a
    /// smaller key is a smaller score.
    pub open spec fn key(self) -> int {
        if self.bits >= SIGN_BIT {
            -self.magnitude()
        } else {
            self.magnitude()
        }
    }

    /// Strictly smaller: both are numbers and this one's key is smaller.
    pub open spec fn below(self, other: Score) -> bool {
        !self.incomparable() && !other.incomparable() && self.key() < other.key()
    }

    /// The score with the given bit pattern.
    pub fn from_bits(bits: u32) -> (score: Score)
        ensures
            score.bits == bits,
    {
        Score { bits }
    }

    /// The bit pattern of this score.
    pub fn to_bits(&self) -> (bits: u32)
        ensures
            bits == self.bits,
    {
        self.bits
    }

    /// The score zero.
    pub fn zero() -> (score: Score)
        ensures
            score.bits == 0,
            score.key() == 0,
            !score.incomparable(),
    {
        Score { bits: 0 }
    }

    /// The score one, the similarity of a vector with itself.
    pub fn one() -> (score: Score)
        ensures
            score.bits == ONE_BITS,
            !score.incomparable(),
            score.key() == ONE_BITS,
    {
        Score { bits: ONE_BITS }
    }

    /// Whether this score is not a number.
    pub fn is_incomparable(&self) -> (answer: bool)
        ensures
            answer == self.incomparable(),
    {
        if self.bits >= SIGN_BIT {
            self.bits - SIGN_BIT > INFINITY_BITS
        } else {
            self.bits > INFINITY_BITS
        }
    }

    /// The ordering key of a score that is a number.
    pub fn sort_key(&self) -> (key: i64)
        ensures
            key == self.key(),
    {
        if self.bits >= SIGN_BIT {
            let magnitude: u32 = self.bits - SIGN_BIT;
            0 - (magnitude as i64)
        } else {
            self.bits as i64
        }
    }

    /// Whether this score is strictly smaller than `other`. False as soon
    /// as either is not a number.
    pub fn less_than(&self, other: &Score) -> (answer: bool)
        ensures
            answer == self.below(*other),
    {
        !self.is_incomparable() && !other.is_incomparable() && self.sort_key() < other.sort_key()
    }
}

/// Of two scores that are numbers, exactly one of three holds: the first is
/// below the second, the second below the first, or their keys are equal.
pub proof fn lemma_numbers_are_ordered(a: Score, b: Score)
    requires
        !a.incomparable(),
        !b.incomparable(),
    ensures
        a.below(b) || b.below(a) || a.key() == b.key(),
        !(a.below(b) && b.below(a)),
{
}

/// A score that is not a number is below nothing and nothing is below it.
pub proof fn lemma_incomparable_is_unordered(a: Score, b: Score)
    requires
        a.incomparable(),
    ensures
        !a.below(b),
        !b.below(a),
{
}

} // verus!
