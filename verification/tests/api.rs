//! Scenario tests for the comparison entry points: literal inputs, the
//! fixed-size wrappers, and the algebraic properties of the comparison.

use constant_time_eq::classic;
use constant_time_eq::constant_time_eq;
use constant_time_eq::constant_time_eq_16;
use constant_time_eq::constant_time_eq_32;
use constant_time_eq::constant_time_eq_64;
use constant_time_eq::constant_time_eq_n;
use constant_time_eq::dit::Features;
use constant_time_eq::dit::features_from_flags;
use constant_time_eq::generic;

#[test]
fn literal_scenarios() {
    assert!(constant_time_eq(b"foo", b"foo"));
    assert!(!constant_time_eq(b"foo", b"bar"));
    assert!(!constant_time_eq(b"bar", b"baz"));
    assert!(constant_time_eq(b"", b""));

    // Not equal-sized, so won't take constant time.
    assert!(!constant_time_eq(b"foo", b""));
    assert!(!constant_time_eq(b"foo", b"quux"));
}

#[test]
fn literal_scenarios_fixed_size() {
    assert!(constant_time_eq_n(&[3; 20], &[3; 20]));
    assert!(!constant_time_eq_n(&[3; 20], &[7; 20]));
}

#[test]
fn literal_scenarios_generic() {
    assert!(generic::constant_time_eq(b"foo", b"foo"));
    assert!(!generic::constant_time_eq(b"foo", b"bar"));
    assert!(!generic::constant_time_eq(b"bar", b"baz"));
    assert!(generic::constant_time_eq(b"", b""));
    assert!(!generic::constant_time_eq(b"foo", b""));
    assert!(!generic::constant_time_eq(b"foo", b"quux"));
    assert!(generic::constant_time_eq_n(&[3; 20], &[3; 20]));
    assert!(!generic::constant_time_eq_n(&[3; 20], &[7; 20]));
}

#[test]
fn literal_scenarios_classic() {
    assert!(classic::constant_time_eq(b"foo", b"foo"));
    assert!(!classic::constant_time_eq(b"foo", b"bar"));
    assert!(!classic::constant_time_eq(b"bar", b"baz"));
    assert!(classic::constant_time_eq(b"", b""));
    assert!(!classic::constant_time_eq(b"foo", b""));
    assert!(!classic::constant_time_eq(b"foo", b"quux"));
}

#[test]
fn accumulated_difference_is_zero_only_on_equal() {
    assert_eq!(classic::constant_time_ne(b"foo", b"foo"), 0);
    assert_ne!(classic::constant_time_ne(b"foo", b"bar"), 0);
    assert_eq!(classic::constant_time_ne(b"", b""), 0);
    assert_eq!(classic::constant_time_ne_n(&[9u8; 5], &[9u8; 5]), 0);
    assert_ne!(classic::constant_time_ne_n(&[9u8; 5], &[8u8; 5]), 0);
}

/// Fills a buffer with a distinctive pattern.
fn fill_pattern(buf: &mut [u8]) {
    for (i, byte) in buf.iter_mut().enumerate() {
        *byte = (i as u8).wrapping_mul(37).wrapping_add(11);
    }
}

#[test]
fn fixed_size_wrappers_agree_with_compare() {
    let mut a16 = [0u8; 16];
    fill_pattern(&mut a16);
    let b16 = a16;
    let mut c16 = a16;
    c16[9] ^= 0x40;
    assert_eq!(constant_time_eq_16(&a16, &b16), constant_time_eq(&a16, &b16));
    assert_eq!(constant_time_eq_16(&a16, &c16), constant_time_eq(&a16, &c16));
    assert_eq!(classic::constant_time_eq_16(&a16, &b16), constant_time_eq(&a16, &b16));
    assert_eq!(classic::constant_time_eq_16(&a16, &c16), constant_time_eq(&a16, &c16));

    let mut a32 = [0u8; 32];
    fill_pattern(&mut a32);
    let b32 = a32;
    let mut c32 = a32;
    c32[31] ^= 0x01;
    assert_eq!(constant_time_eq_32(&a32, &b32), constant_time_eq(&a32, &b32));
    assert_eq!(constant_time_eq_32(&a32, &c32), constant_time_eq(&a32, &c32));
    assert_eq!(classic::constant_time_eq_32(&a32, &b32), constant_time_eq(&a32, &b32));
    assert_eq!(classic::constant_time_eq_32(&a32, &c32), constant_time_eq(&a32, &c32));

    let mut a64 = [0u8; 64];
    fill_pattern(&mut a64);
    let b64 = a64;
    let mut c64 = a64;
    c64[0] ^= 0x80;
    assert_eq!(constant_time_eq_64(&a64, &b64), constant_time_eq(&a64, &b64));
    assert_eq!(constant_time_eq_64(&a64, &c64), constant_time_eq(&a64, &c64));
    assert_eq!(classic::constant_time_eq_64(&a64, &b64), constant_time_eq(&a64, &b64));
    assert_eq!(classic::constant_time_eq_64(&a64, &c64), constant_time_eq(&a64, &c64));
}

#[test]
fn reflexivity_scenarios() {
    let mut buf = [0u8; 100];
    fill_pattern(&mut buf);
    for n in [0usize, 1, 7, 8, 9, 15, 16, 17, 63, 64, 65, 100] {
        assert!(constant_time_eq(&buf[..n], &buf[..n]));
        assert!(classic::constant_time_eq(&buf[..n], &buf[..n]));
    }
}

#[test]
fn symmetry_scenarios() {
    let mut a = [0u8; 40];
    fill_pattern(&mut a);
    let mut b = a;
    b[23] ^= 0x02;
    assert_eq!(constant_time_eq(&a, &b), constant_time_eq(&b, &a));
    assert_eq!(constant_time_eq(&a, &a[..17]), constant_time_eq(&a[..17], &a));
    let c = a;
    assert_eq!(constant_time_eq(&a, &c), constant_time_eq(&c, &a));
    assert!(constant_time_eq(&a, &c));
}

#[test]
fn unaligned_storage_matches_aligned() {
    // The same byte contents placed at different offsets of their backing
    // buffers must compare the same way.
    let mut backing = [0u8; 70];
    fill_pattern(&mut backing);
    for offset in 0..5 {
        let a = &backing[offset..offset + 33];
        let mut copy_buf = [0u8; 70];
        for shift in 0..5 {
            copy_buf[shift..shift + 33].copy_from_slice(a);
            let b = &copy_buf[shift..shift + 33];
            assert!(constant_time_eq(a, b));
            assert!(generic::constant_time_eq(a, b));
            let mut flipped_buf = [0u8; 70];
            flipped_buf[shift..shift + 33].copy_from_slice(a);
            flipped_buf[shift + 20] ^= 0x10;
            let f = &flipped_buf[shift..shift + 33];
            assert!(!constant_time_eq(a, f));
            assert!(!generic::constant_time_eq(a, f));
        }
    }
}

#[test]
fn capability_flags_from_detection() {
    assert_eq!(features_from_flags(true, true), Features::DitSb);
    assert_eq!(features_from_flags(true, false), Features::DitOnly);
    assert_eq!(features_from_flags(false, true), Features::Neither);
    assert_eq!(features_from_flags(false, false), Features::Neither);

    assert!(features_from_flags(true, true).has_dit());
    assert!(features_from_flags(true, true).has_sb());
    assert!(features_from_flags(true, false).has_dit());
    assert!(!features_from_flags(true, false).has_sb());
    assert!(!features_from_flags(false, false).has_dit());
    assert!(!features_from_flags(false, false).has_sb());
}
