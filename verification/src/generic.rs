//! Generic scalar engine: architecture-independent word-at-a-time comparison.
//!
//! The engine XORs corresponding word-sized chunks of the two inputs and OR
//! accumulates the differences, passing the accumulator through the optimizer
//! barrier after every chunk so that no early exit is inferable once a
//! difference has been found. After the full natural-word chunks, the
//! remainder is handled with progressively smaller chunk sizes, each applied
//! at most once. The accumulator is compared against zero exactly once, after
//! all accumulation completes.
//!
//! The engine also accepts a pre-seeded initial accumulator, so that a caller
//! which has already folded part of the inputs into a difference mask can
//! delegate the remainder here and keep a single final zero test.

use vstd::prelude::*;

use crate::bytes_equal;
use crate::bytes_equal_range;
use crate::barrier::optimizer_hide;

verus! {

/// A word OR of two values is zero exactly when both are zero.
proof fn lemma_or_zero(x: u64, y: u64)
    by (bit_vector)
    ensures
        ((x | y) == 0) <==> (x == 0 && y == 0),
{
}

/// The XOR of two little-endian eight-byte words is zero exactly when the
/// words agree byte for byte.
proof fn lemma_xor_word8(
    x0: u64, x1: u64, x2: u64, x3: u64, x4: u64, x5: u64, x6: u64, x7: u64,
    y0: u64, y1: u64, y2: u64, y3: u64, y4: u64, y5: u64, y6: u64, y7: u64,
)
    by (bit_vector)
    requires
        x0 < 256, x1 < 256, x2 < 256, x3 < 256,
        x4 < 256, x5 < 256, x6 < 256, x7 < 256,
        y0 < 256, y1 < 256, y2 < 256, y3 < 256,
        y4 < 256, y5 < 256, y6 < 256, y7 < 256,
    ensures
        (((x0 | (x1 << 8) | (x2 << 16) | (x3 << 24) | (x4 << 32) | (x5 << 40) | (x6 << 48)
            | (x7 << 56)) ^ (y0 | (y1 << 8) | (y2 << 16) | (y3 << 24) | (y4 << 32) | (y5 << 40)
            | (y6 << 48) | (y7 << 56))) == 0) <==> (x0 == y0 && x1 == y1 && x2 == y2 && x3 == y3
            && x4 == y4 && x5 == y5 && x6 == y6 && x7 == y7),
{
}

/// The XOR of two little-endian four-byte words is zero exactly when the
/// words agree byte for byte.
proof fn lemma_xor_word4(x0: u32, x1: u32, x2: u32, x3: u32, y0: u32, y1: u32, y2: u32, y3: u32)
    by (bit_vector)
    requires
        x0 < 256, x1 < 256, x2 < 256, x3 < 256,
        y0 < 256, y1 < 256, y2 < 256, y3 < 256,
    ensures
        (((x0 | (x1 << 8) | (x2 << 16) | (x3 << 24)) ^ (y0 | (y1 << 8) | (y2 << 16) | (y3 << 24)))
            == 0) <==> (x0 == y0 && x1 == y1 && x2 == y2 && x3 == y3),
{
}

/// The XOR of two little-endian two-byte words is zero exactly when the
/// words agree byte for byte.
proof fn lemma_xor_word2(x0: u16, x1: u16, y0: u16, y1: u16)
    by (bit_vector)
    requires
        x0 < 256, x1 < 256,
        y0 < 256, y1 < 256,
    ensures
        (((x0 | (x1 << 8)) ^ (y0 | (y1 << 8))) == 0) <==> (x0 == y0 && x1 == y1),
{
}

/// The XOR of two bytes is zero exactly when they are equal.
proof fn lemma_xor_byte(x: u8, y: u8)
    by (bit_vector)
    ensures
        ((x ^ y) == 0) <==> (x == y),
{
}

/// Reads a natural word from `s` at offset `i`, little endian.
#[inline(always)]
fn load_word8(s: &[u8], i: usize) -> (w: u64)
    requires
        i + 8 <= s@.len(),
    ensures
        w == ((s@[i as int] as u64) | ((s@[i + 1] as u64) << 8) | ((s@[i + 2] as u64) << 16)
            | ((s@[i + 3] as u64) << 24) | ((s@[i + 4] as u64) << 32) | ((s@[i + 5] as u64) << 40)
            | ((s@[i + 6] as u64) << 48) | ((s@[i + 7] as u64) << 56)),
{
    (s[i] as u64) | ((s[i + 1] as u64) << 8) | ((s[i + 2] as u64) << 16)
        | ((s[i + 3] as u64) << 24) | ((s[i + 4] as u64) << 32) | ((s[i + 5] as u64) << 40)
        | ((s[i + 6] as u64) << 48) | ((s[i + 7] as u64) << 56)
}

/// Reads a four-byte chunk from `s` at offset `i`, little endian.
#[inline(always)]
fn load_word4(s: &[u8], i: usize) -> (w: u32)
    requires
        i + 4 <= s@.len(),
    ensures
        w == ((s@[i as int] as u32) | ((s@[i + 1] as u32) << 8) | ((s@[i + 2] as u32) << 16)
            | ((s@[i + 3] as u32) << 24)),
{
    (s[i] as u32) | ((s[i + 1] as u32) << 8) | ((s[i + 2] as u32) << 16)
        | ((s[i + 3] as u32) << 24)
}

/// Reads a two-byte chunk from `s` at offset `i`, little endian.
#[inline(always)]
fn load_word2(s: &[u8], i: usize) -> (w: u16)
    requires
        i + 2 <= s@.len(),
    ensures
        w == ((s@[i as int] as u16) | ((s@[i + 1] as u16) << 8)),
{
    (s[i] as u16) | ((s[i + 1] as u16) << 8)
}

/// Reads and compares one natural word from each input at offset `i`.
/// The result is zero exactly when the eight byte pairs are equal.
#[inline(always)]
fn cmp_step8(a: &[u8], b: &[u8], i: usize) -> (d: u64)
    requires
        i + 8 <= a@.len(),
        i + 8 <= b@.len(),
    ensures
        (d == 0) <==> bytes_equal_range(a@, b@, i as int, i + 8),
{
    let x = load_word8(a, i);
    let y = load_word8(b, i);
    proof {
        lemma_xor_word8(
            a@[i as int] as u64, a@[i + 1] as u64, a@[i + 2] as u64, a@[i + 3] as u64,
            a@[i + 4] as u64, a@[i + 5] as u64, a@[i + 6] as u64, a@[i + 7] as u64,
            b@[i as int] as u64, b@[i + 1] as u64, b@[i + 2] as u64, b@[i + 3] as u64,
            b@[i + 4] as u64, b@[i + 5] as u64, b@[i + 6] as u64, b@[i + 7] as u64,
        );
        assert((a@[i as int] == b@[i as int] && a@[i + 1] == b@[i + 1] && a@[i + 2] == b@[i + 2]
            && a@[i + 3] == b@[i + 3] && a@[i + 4] == b@[i + 4] && a@[i + 5] == b@[i + 5]
            && a@[i + 6] == b@[i + 6] && a@[i + 7] == b@[i + 7]) ==> bytes_equal_range(
            a@, b@, i as int, i + 8)) by {
            if a@[i as int] == b@[i as int] && a@[i + 1] == b@[i + 1] && a@[i + 2] == b@[i + 2]
                && a@[i + 3] == b@[i + 3] && a@[i + 4] == b@[i + 4] && a@[i + 5] == b@[i + 5]
                && a@[i + 6] == b@[i + 6] && a@[i + 7] == b@[i + 7] {
                assert forall|j: int| i <= j < i + 8 implies a@[j] == b@[j] by {
                    assert(j == i || j == i + 1 || j == i + 2 || j == i + 3 || j == i + 4
                        || j == i + 5 || j == i + 6 || j == i + 7);
                }
            }
        }
    }
    x ^ y
}

/// Reads and compares one four-byte chunk from each input at offset `i`.
/// The result is zero exactly when the four byte pairs are equal.
#[inline(always)]
fn cmp_step4(a: &[u8], b: &[u8], i: usize) -> (d: u32)
    requires
        i + 4 <= a@.len(),
        i + 4 <= b@.len(),
    ensures
        (d == 0) <==> bytes_equal_range(a@, b@, i as int, i + 4),
{
    let x = load_word4(a, i);
    let y = load_word4(b, i);
    proof {
        lemma_xor_word4(
            a@[i as int] as u32, a@[i + 1] as u32, a@[i + 2] as u32, a@[i + 3] as u32,
            b@[i as int] as u32, b@[i + 1] as u32, b@[i + 2] as u32, b@[i + 3] as u32,
        );
        assert((a@[i as int] == b@[i as int] && a@[i + 1] == b@[i + 1] && a@[i + 2] == b@[i + 2]
            && a@[i + 3] == b@[i + 3]) ==> bytes_equal_range(a@, b@, i as int, i + 4)) by {
            if a@[i as int] == b@[i as int] && a@[i + 1] == b@[i + 1] && a@[i + 2] == b@[i + 2]
                && a@[i + 3] == b@[i + 3] {
                assert forall|j: int| i <= j < i + 4 implies a@[j] == b@[j] by {
                    assert(j == i || j == i + 1 || j == i + 2 || j == i + 3);
                }
            }
        }
    }
    x ^ y
}

/// Reads and compares one two-byte chunk from each input at offset `i`.
/// The result is zero exactly when the two byte pairs are equal.
#[inline(always)]
fn cmp_step2(a: &[u8], b: &[u8], i: usize) -> (d: u16)
    requires
        i + 2 <= a@.len(),
        i + 2 <= b@.len(),
    ensures
        (d == 0) <==> bytes_equal_range(a@, b@, i as int, i + 2),
{
    let x = load_word2(a, i);
    let y = load_word2(b, i);
    proof {
        lemma_xor_word2(
            a@[i as int] as u16, a@[i + 1] as u16,
            b@[i as int] as u16, b@[i + 1] as u16,
        );
        assert((a@[i as int] == b@[i as int] && a@[i + 1] == b@[i + 1]) ==> bytes_equal_range(
            a@, b@, i as int, i + 2)) by {
            if a@[i as int] == b@[i as int] && a@[i + 1] == b@[i + 1] {
                assert forall|j: int| i <= j < i + 2 implies a@[j] == b@[j] by {
                    assert(j == i || j == i + 1);
                }
            }
        }
    }
    x ^ y
}

/// Reads and compares one byte from each input at offset `i`.
/// The result is zero exactly when the byte pair is equal.
#[inline(always)]
fn cmp_step1(a: &[u8], b: &[u8], i: usize) -> (d: u8)
    requires
        i + 1 <= a@.len(),
        i + 1 <= b@.len(),
    ensures
        (d == 0) <==> bytes_equal_range(a@, b@, i as int, i + 1),
{
    proof {
        lemma_xor_byte(a@[i as int], b@[i as int]);
    }
    a[i] ^ b[i]
}

/// Generic engine behind `constant_time_eq` and `constant_time_eq_n`.
///
/// Accepts a pre-seeded initial accumulator `tmp`, so a caller that has
/// already folded part of the inputs into a difference value can hand the
/// remainder here: the result is `true` exactly when the seed carries no
/// difference and the byte sequences are equal.
pub fn constant_time_eq_impl(a: &[u8], b: &[u8], tmp: u64) -> (r: bool)
    ensures
        r <==> (tmp == 0 && bytes_equal(a@, b@)),
{
    if a.len() != b.len() {
        return false;
    }
    let n: usize = a.len();
    let mut acc: u64 = tmp;
    let mut i: usize = 0;

    // Do most of the work using the natural word size; the blocks after the
    // loop clean up the leftovers, one chunk per size class.
    while n - i >= 8
        invariant
            i <= n,
            n == a@.len(),
            n == b@.len(),
            (acc == 0) <==> (tmp == 0 && bytes_equal_range(a@, b@, 0, i as int)),
        decreases n - i,
    {
        let d = optimizer_hide(cmp_step8(a, b, i));
        proof {
            lemma_or_zero(acc, d);
        }
        acc = optimizer_hide(acc | d);
        i = i + 8;
    }

    // The remaining length is under one word and decomposes into at most one
    // chunk per power-of-two size class below it.
    if n - i >= 4 {
        let d = optimizer_hide(cmp_step4(a, b, i) as u64);
        proof {
            lemma_or_zero(acc, d);
        }
        acc = optimizer_hide(acc | d);
        i = i + 4;
    }
    if n - i >= 2 {
        let d = optimizer_hide(cmp_step2(a, b, i) as u64);
        proof {
            lemma_or_zero(acc, d);
        }
        acc = optimizer_hide(acc | d);
        i = i + 2;
    }
    if n - i >= 1 {
        let d = optimizer_hide(cmp_step1(a, b, i) as u64);
        proof {
            lemma_or_zero(acc, d);
        }
        acc = optimizer_hide(acc | d);
        i = i + 1;
    }

    // The only comparison against zero, after all accumulation completes.
    acc == 0
}

/// Compares two equal-sized byte strings in constant time.
///
/// If the lengths differ the answer is `false`, reported immediately:
/// lengths are not protected.
pub fn constant_time_eq(a: &[u8], b: &[u8]) -> (r: bool)
    ensures
        r == bytes_equal(a@, b@),
        a@.len() != b@.len() ==> !r,
{
    constant_time_eq_impl(a, b, 0)
}

/// Compares two fixed-size byte strings in constant time.
pub fn constant_time_eq_n<const N: usize>(a: &[u8; N], b: &[u8; N]) -> (r: bool)
    ensures
        r == bytes_equal(a@, b@),
{
    constant_time_eq_impl(a.as_slice(), b.as_slice(), 0)
}

} // verus!
