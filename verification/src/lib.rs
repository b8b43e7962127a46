//! Constant-time equality comparison over byte sequences.
//!
//! The result of every comparison is plain byte-wise equality; what makes the
//! code worth its name is that the time taken does not depend on the contents
//! of the inputs, nor on the position of any difference between them. It may
//! depend on the memory addresses of the inputs and on their lengths: lengths
//! are treated as public, and a length mismatch is answered immediately.
//!
//! The comparison engines accumulate per-chunk XOR differences into a single
//! accumulator that is tested against zero exactly once, after all chunks have
//! been folded in; an optimizer barrier keeps the compiler from inferring an
//! early exit once a difference has been found.

use vstd::prelude::*;

pub mod classic;

pub mod dit;

pub mod generic;

mod barrier;

verus! {

/// Plain byte-wise equality: the sequences have the same length and agree at
/// every index. This is the specified result of every comparison entry point.
pub open spec fn bytes_equal(a: Seq<u8>, b: Seq<u8>) -> bool {
    a.len() == b.len() && bytes_equal_range(a, b, 0, a.len() as int)
}

/// The sequences agree at every index of the half-open range `[lo, hi)`.
pub open spec fn bytes_equal_range(a: Seq<u8>, b: Seq<u8>, lo: int, hi: int) -> bool {
    forall|j: int| lo <= j < hi ==> a[j] == b[j]
}

/// Byte-wise equality coincides with sequence equality.
pub proof fn lemma_bytes_equal_is_seq_equal(a: Seq<u8>, b: Seq<u8>)
    ensures
        bytes_equal(a, b) <==> a == b,
{
    if bytes_equal(a, b) {
        assert(a =~= b);
    }
}

/// Compares two equal-sized byte strings in constant time.
///
/// Returns whether `a` and `b` hold the same bytes. If the lengths differ the
/// answer is `false`, reported immediately: lengths are not protected.
pub fn constant_time_eq(a: &[u8], b: &[u8]) -> (r: bool)
    ensures
        r == bytes_equal(a@, b@),
        r <==> a@ == b@,
        a@.len() != b@.len() ==> !r,
{
    proof {
        lemma_bytes_equal_is_seq_equal(a@, b@);
    }
    generic::constant_time_eq(a, b)
}

/// Compares two fixed-size byte strings in constant time.
///
/// The equal length is known ahead of time, so no length branch exists.
pub fn constant_time_eq_n<const N: usize>(a: &[u8; N], b: &[u8; N]) -> (r: bool)
    ensures
        r == bytes_equal(a@, b@),
        r <==> a@ == b@,
{
    proof {
        lemma_bytes_equal_is_seq_equal(a@, b@);
    }
    generic::constant_time_eq_n(a, b)
}

/// Compares two 128-bit byte strings in constant time.
pub fn constant_time_eq_16(a: &[u8; 16], b: &[u8; 16]) -> (r: bool)
    ensures
        r == bytes_equal(a@, b@),
        r <==> a@ == b@,
{
    constant_time_eq_n(a, b)
}

/// Compares two 256-bit byte strings in constant time.
pub fn constant_time_eq_32(a: &[u8; 32], b: &[u8; 32]) -> (r: bool)
    ensures
        r == bytes_equal(a@, b@),
        r <==> a@ == b@,
{
    constant_time_eq_n(a, b)
}

/// Compares two 512-bit byte strings in constant time.
pub fn constant_time_eq_64(a: &[u8; 64], b: &[u8; 64]) -> (r: bool)
    ensures
        r == bytes_equal(a@, b@),
        r <==> a@ == b@,
{
    constant_time_eq_n(a, b)
}

/// Reflexivity: comparing any byte sequence with itself answers `true`.
pub proof fn lemma_compare_reflexive(a: Seq<u8>)
    ensures
        bytes_equal(a, a),
{
}

/// Symmetry: comparing `a` with `b` answers the same as comparing `b` with
/// `a`.
pub proof fn lemma_compare_symmetric(a: Seq<u8>, b: Seq<u8>)
    ensures
        bytes_equal(a, b) == bytes_equal(b, a),
{
    lemma_bytes_equal_is_seq_equal(a, b);
    lemma_bytes_equal_is_seq_equal(b, a);
}

/// Sequences of differing lengths always compare unequal.
pub proof fn lemma_length_mismatch(a: Seq<u8>, b: Seq<u8>)
    requires
        a.len() != b.len(),
    ensures
        !bytes_equal(a, b),
{
}

/// Flipping any single bit of one operand of a comparison of a sequence with
/// itself turns the answer to `false`, and flipping the same bit back
/// restores `true`: the comparison depends on every bit position.
pub proof fn lemma_bit_flip(a: Seq<u8>, i: int, m: u8)
    requires
        0 <= i < a.len(),
        m != 0,
    ensures
        !bytes_equal(a, a.update(i, a[i] ^ m)),
        bytes_equal(a, a.update(i, a[i] ^ m).update(i, (a[i] ^ m) ^ m)),
{
    let x = a[i];
    assert(x ^ m != x && (x ^ m) ^ m == x) by (bit_vector)
        requires
            m != 0,
    ;
    let flipped = a.update(i, x ^ m);
    assert(a[i] != flipped[i]);
    let restored = flipped.update(i, (x ^ m) ^ m);
    assert forall|j: int| 0 <= j < a.len() implies a[j] == restored[j] by {
        if j != i {
            assert(restored[j] == a[j]);
        }
    }
}

/// Every comparison entry point states the same contract, so any two results
/// that satisfy it coincide: in particular the fixed-size entry points agree
/// with `constant_time_eq` on same-length inputs, whichever engine computed
/// them.
pub proof fn lemma_entry_points_agree(a: Seq<u8>, b: Seq<u8>, r1: bool, r2: bool)
    requires
        r1 == bytes_equal(a, b),
        r2 == bytes_equal(a, b),
    ensures
        r1 == r2,
{
}

} // verus!
