//! Model outputs as bit patterns.
//!
//! Embedding components and relevance scores are 32-bit IEEE 754 numbers.
//! The library never does arithmetic on them: it moves them, puts them in
//! order by passage index, and flips their sign. All three are exact on the
//! bit pattern, so that is how a value is held here.

use vstd::prelude::*;

verus! {

/// The sign bit of a 32-bit IEEE 754 number.
pub const SIGN_BIT: u32 = 0x8000_0000u32;

/// A 32-bit IEEE 754 number, held as its bit pattern.
#[derive(Clone, Copy, Debug, PartialEq, Eq, Structural)]
pub struct Scalar {
    pub bits: u32,
}

impl Scalar {
    /// The number with the opposite sign: the same bits but for the sign bit.
    pub open spec fn negation(self) -> Scalar {
        Scalar { bits: self.bits ^ SIGN_BIT }
    }

    /// Negates the number.
    pub fn negated(self) -> (r: Scalar)
        ensures
            r == self.negation(),
    {
        Scalar { bits: self.bits ^ SIGN_BIT }
    }
}

/// Negating twice gives the number back.
pub proof fn lemma_negation_is_involution(x: Scalar)
    ensures
        x.negation().negation() == x,
{
    let b = x.bits;
    assert((b ^ 0x8000_0000u32) ^ 0x8000_0000u32 == b) by (bit_vector);
}

/// Negation changes every number.
pub proof fn lemma_negation_differs(x: Scalar)
    ensures
        x.negation() != x,
{
    let b = x.bits;
    assert(b ^ 0x8000_0000u32 != b) by (bit_vector);
}

} // verus!
