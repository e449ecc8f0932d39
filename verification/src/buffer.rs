//! Dense sentinel-filled buffers.
//!
//! The native indicator library has no notion of nullability: a missing value
//! inside a dense array is represented by a reserved sentinel. Real-valued
//! series use a quiet NaN (carried here as its IEEE-754 bit pattern in a
//! `u64`), integer-valued outputs use `0`.

use vstd::prelude::*;

verus! {

/// Bit pattern of the quiet NaN used to stand for "no data" in a real-valued
/// buffer (the canonical NaN: exponent all ones, highest mantissa bit set).
pub const F64_SENTINEL_BITS: u64 = 0x7ff8_0000_0000_0000;

/// Whether a `u64`, read as the bit pattern of a 64-bit IEEE-754 float,
/// encodes a NaN: exponent bits all set and a non-zero mantissa. Every NaN
/// counts as the sentinel, not only the canonical one, mirroring an `is_nan`
/// test on the float itself.
pub open spec fn is_nan_bits(b: u64) -> bool {
    (b >> 52) & 0x7ff == 0x7ff && (b & 0x000f_ffff_ffff_ffff) != 0
}

/// Executable form of [`is_nan_bits`].
pub fn f64_bits_is_nan(b: u64) -> (r: bool)
    ensures
        r == is_nan_bits(b),
{
    (b >> 52) & 0x7ff == 0x7ff && (b & 0x000f_ffff_ffff_ffff) != 0
}

/// The canonical sentinel is itself a NaN.
pub proof fn lemma_sentinel_is_nan()
    ensures
        is_nan_bits(F64_SENTINEL_BITS),
{
    assert((0x7ff8_0000_0000_0000u64 >> 52) & 0x7ff == 0x7ff) by (bit_vector);
    assert((0x7ff8_0000_0000_0000u64 & 0x000f_ffff_ffff_ffff) != 0) by (bit_vector);
}

/// The per-element-type sentinel ("no data") value of a dense buffer.
pub trait CustomDefault: Sized {
    /// The sentinel value, at the specification level.
    spec fn default_spec() -> Self;

    /// Returns the sentinel value.
    fn default() -> (r: Self)
        ensures
            r == Self::default_spec(),
    ;
}

impl CustomDefault for u64 {
    open spec fn default_spec() -> u64 {
        F64_SENTINEL_BITS
    }

    fn default() -> u64 {
        F64_SENTINEL_BITS
    }
}

impl CustomDefault for i32 {
    open spec fn default_spec() -> i32 {
        0
    }

    fn default() -> i32 {
        0
    }
}

/// Allocates one output buffer of length `len`, entirely sentinel-filled, and
/// returns it together with the offset of the first position past the warm-up
/// region `[0, lookback)`, i.e. the first position the native call may write.
pub fn make_vec<T: Copy + CustomDefault>(len: usize, lookback: i32) -> (r: (Vec<T>, usize))
    requires
        0 <= lookback,
        lookback as int <= len as int,
    ensures
        r.0@.len() == len,
        forall|i: int| 0 <= i < len ==> r.0@[i] == T::default_spec(),
        r.1 == lookback as int,
{
    let mut out: Vec<T> = Vec::new();
    let mut i: usize = 0;
    while i < len
        invariant
            i <= len,
            out@.len() == i,
            forall|j: int| 0 <= j < i ==> out@[j] == T::default_spec(),
        decreases len - i,
    {
        out.push(<T as CustomDefault>::default());
        i = i + 1;
    }
    (out, lookback as usize)
}

} // verus!
