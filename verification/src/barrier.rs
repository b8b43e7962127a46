//! The optimizer barrier primitive: a per-word identity operation whose result
//! the compiler must treat as opaque.
//!
//! The comparison engines pass their accumulator through this barrier after
//! every chunk, so that the optimizer cannot fold constants through the
//! accumulation, assume anything about the accumulated value, or terminate a
//! comparison loop early once the outcome is already determined. A dedicated
//! opaque-identity instruction would be the strongest form of such a barrier;
//! this crate uses the compiler's documented best-effort hint, which round
//! trips the value through memory the optimizer must treat as escaped.

use vstd::prelude::*;

verus! {

/// Relies on `core::hint::black_box`: an identity function that returns
/// `dummy` unchanged while hinting to the compiler to be maximally pessimistic
/// about what the call could do with it.
pub assume_specification<T>[ core::hint::black_box::<T> ](dummy: T) -> (r: T)
    ensures
        r == dummy,
;

/// Passes a word through the optimizer barrier: the value is returned
/// unchanged, but its provenance is hidden from the optimizer.
#[inline(always)]
pub(crate) fn optimizer_hide(value: u64) -> (r: u64)
    ensures
        r == value,
{
    core::hint::black_box(value)
}

/// Passes a single byte through the optimizer barrier: the value is returned
/// unchanged, but its provenance is hidden from the optimizer.
#[inline(always)]
pub(crate) fn optimizer_hide_byte(value: u8) -> (r: u8)
    ensures
        r == value,
{
    core::hint::black_box(value)
}

} // verus!
