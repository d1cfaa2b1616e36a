//! Arithmetic in GF(2^8) with the AES reduction polynomial `x^8+x^4+x^3+x+1`:
//! doubling (`xtime`), the fixed column combinations used by MixColumns and
//! its inverse, and the proof that the two combinations undo one another.

use vstd::prelude::*;

verus! {

/// Multiplication by 2 in GF(2^8): shift left one bit and, when the high bit
/// was set, reduce by the AES polynomial (XOR with `0x1b`); the reduction
/// constant is scaled by the high bit so that the definition is branch-free.
pub open spec fn spec_xtime(b: u8) -> u8 {
    (b << 1) ^ ((0x1b * (b >> 7)) as u8)
}

/// Multiplication by 2 in GF(2^8), executable form.
pub fn xtime(b: u8) -> (r: u8)
    ensures
        r == spec_xtime(b),
{
    if (b >> 7) == 1 {
        assert((b << 1) ^ 0x1b == spec_xtime(b)) by (bit_vector)
            requires
                b >> 7 == 1,
        ;
        (b << 1) ^ 0x1b
    } else {
        assert(b << 1 == spec_xtime(b)) by (bit_vector)
            requires
                b >> 7 != 1,
        ;
        b << 1
    }
}

/// Multiplication by 9 = 8 + 1 in GF(2^8).
pub open spec fn mul9(b: u8) -> u8 {
    spec_xtime(spec_xtime(spec_xtime(b))) ^ b
}

/// Multiplication by 11 = 8 + 2 + 1 in GF(2^8).
pub open spec fn mul11(b: u8) -> u8 {
    spec_xtime(spec_xtime(spec_xtime(b))) ^ spec_xtime(b) ^ b
}

/// Multiplication by 13 = 8 + 4 + 1 in GF(2^8).
pub open spec fn mul13(b: u8) -> u8 {
    spec_xtime(spec_xtime(spec_xtime(b))) ^ spec_xtime(spec_xtime(b)) ^ b
}

/// Multiplication by 14 = 8 + 4 + 2 in GF(2^8).
pub open spec fn mul14(b: u8) -> u8 {
    spec_xtime(spec_xtime(spec_xtime(b))) ^ spec_xtime(spec_xtime(b)) ^ spec_xtime(b)
}

/// Row 0 of the MixColumns matrix {2,3,1,1} applied to one column.
pub open spec fn mix0(a0: u8, a1: u8, a2: u8, a3: u8) -> u8 {
    spec_xtime(a0) ^ (spec_xtime(a1) ^ a1) ^ a2 ^ a3
}

/// Row 1 of the MixColumns matrix {1,2,3,1} applied to one column.
pub open spec fn mix1(a0: u8, a1: u8, a2: u8, a3: u8) -> u8 {
    a0 ^ spec_xtime(a1) ^ (spec_xtime(a2) ^ a2) ^ a3
}

/// Row 2 of the MixColumns matrix {1,1,2,3} applied to one column.
pub open spec fn mix2(a0: u8, a1: u8, a2: u8, a3: u8) -> u8 {
    a0 ^ a1 ^ spec_xtime(a2) ^ (spec_xtime(a3) ^ a3)
}

/// Row 3 of the MixColumns matrix {3,1,1,2} applied to one column.
pub open spec fn mix3(a0: u8, a1: u8, a2: u8, a3: u8) -> u8 {
    (spec_xtime(a0) ^ a0) ^ a1 ^ a2 ^ spec_xtime(a3)
}

/// Row 0 of the inverse MixColumns matrix {14,11,13,9} applied to one column.
pub open spec fn inv_mix0(a0: u8, a1: u8, a2: u8, a3: u8) -> u8 {
    mul14(a0) ^ mul11(a1) ^ mul13(a2) ^ mul9(a3)
}

/// Row 1 of the inverse MixColumns matrix {9,14,11,13} applied to one column.
pub open spec fn inv_mix1(a0: u8, a1: u8, a2: u8, a3: u8) -> u8 {
    mul9(a0) ^ mul14(a1) ^ mul11(a2) ^ mul13(a3)
}

/// Row 2 of the inverse MixColumns matrix {13,9,14,11} applied to one column.
pub open spec fn inv_mix2(a0: u8, a1: u8, a2: u8, a3: u8) -> u8 {
    mul13(a0) ^ mul9(a1) ^ mul14(a2) ^ mul11(a3)
}

/// Row 3 of the inverse MixColumns matrix {11,13,9,14} applied to one column.
pub open spec fn inv_mix3(a0: u8, a1: u8, a2: u8, a3: u8) -> u8 {
    mul11(a0) ^ mul13(a1) ^ mul9(a2) ^ mul14(a3)
}

/// The inverse MixColumns matrix undoes the forward one on every column:
/// {14,11,13,9} (and its rotations) applied to the mixed column gives back
/// the original four bytes.
#[verifier::rlimit(100)]
pub proof fn lemma_mix_column_inverse(a0: u8, a1: u8, a2: u8, a3: u8)
    ensures
        inv_mix0(mix0(a0, a1, a2, a3), mix1(a0, a1, a2, a3), mix2(a0, a1, a2, a3), mix3(a0, a1, a2, a3)) == a0,
        inv_mix1(mix0(a0, a1, a2, a3), mix1(a0, a1, a2, a3), mix2(a0, a1, a2, a3), mix3(a0, a1, a2, a3)) == a1,
        inv_mix2(mix0(a0, a1, a2, a3), mix1(a0, a1, a2, a3), mix2(a0, a1, a2, a3), mix3(a0, a1, a2, a3)) == a2,
        inv_mix3(mix0(a0, a1, a2, a3), mix1(a0, a1, a2, a3), mix2(a0, a1, a2, a3), mix3(a0, a1, a2, a3)) == a3,
{
    assert(inv_mix0(mix0(a0, a1, a2, a3), mix1(a0, a1, a2, a3), mix2(a0, a1, a2, a3), mix3(a0, a1, a2, a3)) == a0)
        by (bit_vector);
    assert(inv_mix1(mix0(a0, a1, a2, a3), mix1(a0, a1, a2, a3), mix2(a0, a1, a2, a3), mix3(a0, a1, a2, a3)) == a1)
        by (bit_vector);
    assert(inv_mix2(mix0(a0, a1, a2, a3), mix1(a0, a1, a2, a3), mix2(a0, a1, a2, a3), mix3(a0, a1, a2, a3)) == a2)
        by (bit_vector);
    assert(inv_mix3(mix0(a0, a1, a2, a3), mix1(a0, a1, a2, a3), mix2(a0, a1, a2, a3), mix3(a0, a1, a2, a3)) == a3)
        by (bit_vector);
}

/// XOR with the same byte twice gives back the original byte; this is why
/// AddRoundKey is its own inverse.
pub proof fn lemma_xor_cancel(x: u8, k: u8)
    ensures
        (x ^ k) ^ k == x,
{
    assert((x ^ k) ^ k == x) by (bit_vector);
}

} // verus!
