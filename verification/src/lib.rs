//! Unsigned 32-bit addition with wraparound (modular) semantics.
//!
//! The one operation, [`add`], returns the sum of its operands reduced
//! modulo 2^32: on overflow the result silently wraps, it never panics
//! or traps. The lemmas state the algebraic laws of that operation.

use vstd::prelude::*;

verus! {

/// The mathematical meaning of the operation: the sum of the two
/// operands, reduced modulo 2^32.
pub open spec fn wrapped_sum(left: u32, right: u32) -> int {
    (left + right) % 0x1_0000_0000
}

/// Returns the sum of `left` and `right`, wrapped to 32 bits.
///
/// Any pair of operands is accepted; on overflow the result wraps
/// around instead of faulting.
pub fn add(left: u32, right: u32) -> (result: u32)
    ensures
        result == wrapped_sum(left, right),
{
    left.wrapping_add(right)
}

/// The wrapped sum does not depend on the order of the operands.
pub proof fn lemma_sum_commutes(a: u32, b: u32)
    ensures
        wrapped_sum(a, b) == wrapped_sum(b, a),
{
}

/// Zero is the identity: adding zero returns the other operand unchanged.
pub proof fn lemma_zero_identity(a: u32)
    ensures
        wrapped_sum(a, 0) == a,
{
}

/// The contract of `add` determines the result completely: any two
/// results returned for the same operands are equal, so repeated calls
/// with identical inputs always produce identical output.
pub proof fn lemma_sum_deterministic(a: u32, b: u32, r1: u32, r2: u32)
    requires
        r1 == wrapped_sum(a, b),
        r2 == wrapped_sum(a, b),
    ensures
        r1 == r2,
{
}

} // verus!
