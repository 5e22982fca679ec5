//! Scores by which candidate fits are ordered.
//!
//! A score is a root-mean-square error in IEEE 754 binary32 encoding, carried
//! by its bit pattern. Deciding whether a score is finite and whether it lies
//! strictly below another is then integer arithmetic on the encoding.

use vstd::prelude::*;

verus! {

/// Bit pattern of the sign bit; every larger pattern encodes a negative value.
pub const SIGN_BIT: u32 = 0x8000_0000;

/// Bit pattern of positive infinity; larger magnitudes encode no number.
pub const INFINITY_BITS: u32 = 0x7F80_0000;

/// Bit pattern of the largest finite value.
pub const CEILING_BITS: u32 = 0x7F7F_FFFF;

/// A binary32 value, identified by its bit pattern.
#[derive(Clone, Copy, Debug, PartialEq, Eq, Structural)]
pub struct Score {
    pub bits: u32,
}

impl Score {
    /// The encoding without its sign bit.
    pub open spec fn magnitude(self) -> int {
        self.bits as int % 0x8000_0000
    }

    /// Whether the sign bit is set.
    pub open spec fn negative(self) -> bool {
        self.bits >= SIGN_BIT
    }

    /// Whether the encoding stands for no number at all.
    pub open spec fn nan(self) -> bool {
        self.magnitude() > INFINITY_BITS
    }

    /// Whether the encoding stands for a number other than the two infinities.
    pub open spec fn finite(self) -> bool {
        self.magnitude() < INFINITY_BITS
    }

    /// Position of the encoded value on the number line: values that are not
    /// numbers aside, one value is smaller than another exactly when its rank
    /// is smaller. Both zeros have rank zero.
    pub open spec fn rank(self) -> int {
        if self.negative() {
            -self.magnitude()
        } else {
            self.magnitude()
        }
    }

    /// The strict order of the encoded values. Nothing is below, and nothing
    /// is above, a value that is not a number.
    pub open spec fn below(self, other: Score) -> bool {
        !self.nan() && !other.nan() && self.rank() < other.rank()
    }

    /// Whether two scores encode the same value. A value that is not a
    /// number is the same as another only where the encodings agree.
    pub open spec fn same_value(self, other: Score) -> bool {
        self == other || (!self.nan() && !other.nan() && self.rank() == other.rank())
    }

    /// The largest finite score: what a search holds before any candidate is accepted.
    pub open spec fn ceiling_spec() -> Score {
        Score { bits: CEILING_BITS }
    }

    /// A candidate that may replace a score held so far must be finite; to replace the
    /// ceiling it must also lie strictly below it.
    pub open spec fn admissible(self) -> bool {
        self.finite() && self.below(Score::ceiling_spec())
    }

    /// The score with the given encoding.
    pub fn from_bits(bits: u32) -> (r: Score)
        ensures
            r.bits == bits,
    {
        Score { bits }
    }

    /// The encoding of this score.
    pub fn to_bits(&self) -> (r: u32)
        ensures
            r == self.bits,
    {
        self.bits
    }

    /// The largest finite score.
    #[verifier::when_used_as_spec(ceiling_spec)]
    pub fn ceiling() -> (r: Score)
        ensures
            r == Score::ceiling_spec(),
    {
        Score { bits: CEILING_BITS }
    }

    /// Whether this score is a number other than the two infinities.
    pub fn is_finite(&self) -> (r: bool)
        ensures
            r == self.finite(),
    {
        self.bits % SIGN_BIT < INFINITY_BITS
    }

    /// Whether this score is no number at all.
    pub fn is_nan(&self) -> (r: bool)
        ensures
            r == self.nan(),
    {
        self.bits % SIGN_BIT > INFINITY_BITS
    }

    /// Whether this score is strictly less than `other`, as numbers compare.
    pub fn lt(&self, other: &Score) -> (r: bool)
        ensures
            r == self.below(*other),
    {
        if self.is_nan() || other.is_nan() {
            return false;
        }
        let mine: i64 = self.signed_magnitude();
        let theirs: i64 = other.signed_magnitude();
        mine < theirs
    }

    /// The rank of this score.
    fn signed_magnitude(&self) -> (r: i64)
        ensures
            r == self.rank(),
    {
        let magnitude: u32 = self.bits % SIGN_BIT;
        if self.bits >= SIGN_BIT {
            -(magnitude as i64)
        } else {
            magnitude as i64
        }
    }
}

/// Among scores that are numbers, `below` is irreflexive and transitive, and
/// two scores neither of which is below the other encode the same value.
pub proof fn lemma_below_is_strict_order(a: Score, b: Score, c: Score)
    ensures
        !a.below(a),
        a.below(b) && b.below(c) ==> a.below(c),
        a.below(b) ==> !b.below(a),
        !a.nan() && !b.nan() && !a.below(b) && !b.below(a) ==> a.rank() == b.rank(),
{
}

/// Every finite score other than the ceiling itself, and no other, is admissible
/// as a first replacement: the ceiling is the largest finite value.
pub proof fn lemma_ceiling_is_largest_finite(s: Score)
    ensures
        Score::ceiling_spec().finite(),
        s.finite() ==> s.rank() <= Score::ceiling_spec().rank(),
        s.admissible() <==> s.finite() && s.rank() != Score::ceiling_spec().rank(),
{
}

} // verus!
