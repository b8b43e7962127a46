//! Byte-at-a-time comparison engine.
//!
//! This engine folds the XOR of each byte pair into a one-byte accumulator and
//! passes the accumulated difference through the optimizer barrier once, just
//! before handing it back; the comparison against zero happens in the caller,
//! after all accumulation completes. It trades the word-wide loads of the
//! generic engine for the simplest possible loop.

use vstd::prelude::*;

use crate::barrier::optimizer_hide_byte;
use crate::bytes_equal;
use crate::bytes_equal_range;

verus! {

/// A byte OR of two values is zero exactly when both are zero, and the XOR of
/// two bytes is zero exactly when they are equal.
proof fn lemma_byte_step(x: u8, p: u8, q: u8)
    by (bit_vector)
    ensures
        ((x | (p ^ q)) == 0) <==> (x == 0 && p == q),
{
}

/// Accumulated difference of two equal-sized byte strings: zero exactly when
/// the inputs are equal. The comparison with zero must happen in the caller.
pub fn constant_time_ne(a: &[u8], b: &[u8]) -> (r: u8)
    requires
        a@.len() == b@.len(),
    ensures
        (r == 0) <==> bytes_equal(a@, b@),
{
    let len: usize = a.len();
    let mut tmp: u8 = 0;
    let mut i: usize = 0;
    while i < len
        invariant
            i <= len,
            len == a@.len(),
            len == b@.len(),
            (tmp == 0) <==> bytes_equal_range(a@, b@, 0, i as int),
        decreases len - i,
    {
        proof {
            lemma_byte_step(tmp, a@[i as int], b@[i as int]);
        }
        tmp = tmp | (a[i] ^ b[i]);
        i = i + 1;
    }
    optimizer_hide_byte(tmp)
}

/// Accumulated difference of two fixed-size byte strings: zero exactly when
/// the inputs are equal. The comparison with zero must happen in the caller.
pub fn constant_time_ne_n<const N: usize>(a: &[u8; N], b: &[u8; N]) -> (r: u8)
    ensures
        (r == 0) <==> bytes_equal(a@, b@),
{
    constant_time_ne(a.as_slice(), b.as_slice())
}

/// Compares two equal-sized byte strings in constant time.
///
/// If the lengths differ the answer is `false`, reported immediately:
/// lengths are not protected.
pub fn constant_time_eq(a: &[u8], b: &[u8]) -> (r: bool)
    ensures
        r == bytes_equal(a@, b@),
        a@.len() != b@.len() ==> !r,
{
    a.len() == b.len() && constant_time_ne(a, b) == 0
}

/// Compares two 128-bit byte strings in constant time.
pub fn constant_time_eq_16(a: &[u8; 16], b: &[u8; 16]) -> (r: bool)
    ensures
        r == bytes_equal(a@, b@),
{
    constant_time_ne_n(a, b) == 0
}

/// Compares two 256-bit byte strings in constant time.
pub fn constant_time_eq_32(a: &[u8; 32], b: &[u8; 32]) -> (r: bool)
    ensures
        r == bytes_equal(a@, b@),
{
    constant_time_ne_n(a, b) == 0
}

/// Compares two 512-bit byte strings in constant time.
pub fn constant_time_eq_64(a: &[u8; 64], b: &[u8; 64]) -> (r: bool)
    ensures
        r == bytes_equal(a@, b@),
{
    constant_time_ne_n(a, b) == 0
}

} // verus!
