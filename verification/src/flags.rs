//! The status word: the four NZCV condition flags packed with the fixed
//! user-mode field, and ARM's exact flag formulas for the two comparison
//! instructions.

use vstd::prelude::*;
use crate::bits::{from_bits, to_bits};

verus! {

/// The low five bits of every status word this engine writes: the
/// processor-mode field, fixed to the user-mode value.
pub const USER_MODE_BITS: u32 = 0x10;

/// The status word, decomposed: bit 31 is N (negative), bit 30 is Z
/// (zero), bit 29 is C (carry), bit 28 is V (overflow).
#[derive(Clone, Copy, PartialEq, Eq, Structural, Debug)]
pub struct StatusFlags {
    pub negative: bool,
    pub zero: bool,
    pub carry: bool,
    pub overflow: bool,
}

impl StatusFlags {
    /// All four flags clear.
    pub fn new() -> (f: StatusFlags)
        ensures
            f == (StatusFlags { negative: false, zero: false, carry: false, overflow: false }),
    {
        StatusFlags { negative: false, zero: false, carry: false, overflow: false }
    }

    /// The packed 32-bit pattern of the flags over the user-mode field.
    pub fn to_word(&self) -> (w: i32)
        ensures
            w == from_bits(spec_pack(*self)),
    {
        let n_bit: u32 = if self.negative {
            0x8000_0000
        } else {
            0
        };
        let z_bit: u32 = if self.zero {
            0x4000_0000
        } else {
            0
        };
        let c_bit: u32 = if self.carry {
            0x2000_0000
        } else {
            0
        };
        let v_bit: u32 = if self.overflow {
            0x1000_0000
        } else {
            0
        };
        let u: u32 = n_bit | z_bit | c_bit | v_bit | USER_MODE_BITS;
        crate::bits::val_of(u)
    }

    /// The flags recorded in the pattern of the word `w`.
    pub fn from_word(w: i32) -> (f: StatusFlags)
        ensures
            f == spec_unpack(to_bits(w)),
    {
        let u = crate::bits::bits_of(w);
        StatusFlags {
            negative: u & 0x8000_0000 != 0,
            zero: u & 0x4000_0000 != 0,
            carry: u & 0x2000_0000 != 0,
            overflow: u & 0x1000_0000 != 0,
        }
    }
}

/// The packed pattern: each set flag contributes its bit, over the fixed
/// user-mode field.
pub open spec fn spec_pack(f: StatusFlags) -> u32 {
    (if f.negative {
        0x8000_0000u32
    } else {
        0u32
    }) | (if f.zero {
        0x4000_0000u32
    } else {
        0u32
    }) | (if f.carry {
        0x2000_0000u32
    } else {
        0u32
    }) | (if f.overflow {
        0x1000_0000u32
    } else {
        0u32
    }) | 0x10u32
}

/// The flags whose bits are set in the pattern `u`.
pub open spec fn spec_unpack(u: u32) -> StatusFlags {
    StatusFlags {
        negative: u & 0x8000_0000 != 0,
        zero: u & 0x4000_0000 != 0,
        carry: u & 0x2000_0000 != 0,
        overflow: u & 0x1000_0000 != 0,
    }
}

/// Packing is invertible: unpacking a packed word recovers the flags.
pub proof fn lemma_unpack_pack(f: StatusFlags)
    ensures
        spec_unpack(spec_pack(f)) == f,
{
    let n = f.negative;
    let z = f.zero;
    let c = f.carry;
    let v = f.overflow;
    let u = spec_pack(f);
    assert((u & 0x8000_0000 != 0) == n && (u & 0x4000_0000 != 0) == z && (u & 0x2000_0000 != 0)
        == c && (u & 0x1000_0000 != 0) == v) by (bit_vector)
        requires
            u == (if n {
                0x8000_0000u32
            } else {
                0u32
            }) | (if z {
                0x4000_0000u32
            } else {
                0u32
            }) | (if c {
                0x2000_0000u32
            } else {
                0u32
            }) | (if v {
                0x1000_0000u32
            } else {
                0u32
            }) | 0x10u32,
    ;
}

/// The flags of `CMP`: `a - b` computed as a 32-bit subtraction of the
/// unsigned patterns.  N is the sign bit of the result, Z its being zero,
/// C the absence of an unsigned borrow, and V the signed overflow of the
/// subtraction.
pub open spec fn spec_cmp_flags(a: u32, b: u32) -> StatusFlags {
    let d = a.wrapping_sub(b);
    StatusFlags {
        negative: d >= 0x8000_0000,
        zero: d == 0,
        carry: a >= b,
        overflow: ((a >= 0x8000_0000) != (b >= 0x8000_0000)) && ((d >= 0x8000_0000) != (a
            >= 0x8000_0000)),
    }
}

/// The flags of `CMN`: the same structure over `a + b`, with C the
/// unsigned carry out and V the signed overflow of the addition.
pub open spec fn spec_cmn_flags(a: u32, b: u32) -> StatusFlags {
    let s = a.wrapping_add(b);
    StatusFlags {
        negative: s >= 0x8000_0000,
        zero: s == 0,
        carry: a + b > 0xFFFF_FFFF,
        overflow: ((a >= 0x8000_0000) == (b >= 0x8000_0000)) && ((s >= 0x8000_0000) != (a
            >= 0x8000_0000)),
    }
}

/// The flags of `CMP`, computed.
pub fn cmp_flags(a: u32, b: u32) -> (f: StatusFlags)
    ensures
        f == spec_cmp_flags(a, b),
{
    let d = a.wrapping_sub(b);
    StatusFlags {
        negative: d >= 0x8000_0000,
        zero: d == 0,
        carry: a >= b,
        overflow: ((a >= 0x8000_0000) != (b >= 0x8000_0000)) && ((d >= 0x8000_0000) != (a
            >= 0x8000_0000)),
    }
}

/// The flags of `CMN`, computed.
pub fn cmn_flags(a: u32, b: u32) -> (f: StatusFlags)
    ensures
        f == spec_cmn_flags(a, b),
{
    let s = a.wrapping_add(b);
    StatusFlags {
        negative: s >= 0x8000_0000,
        zero: s == 0,
        carry: a > u32::MAX - b,
        overflow: ((a >= 0x8000_0000) == (b >= 0x8000_0000)) && ((s >= 0x8000_0000) != (a
            >= 0x8000_0000)),
    }
}

/// Comparing any value with itself yields Z set and N and V clear, and C
/// set because no borrow occurs: the status word packs to `0x60000010`.
pub proof fn lemma_cmp_reflexive(a: u32)
    ensures
        spec_cmp_flags(a, a) == (StatusFlags {
            negative: false,
            zero: true,
            carry: true,
            overflow: false,
        }),
        from_bits(spec_pack(spec_cmp_flags(a, a))) == 0x6000_0010i32,
{
    assert(0u32 | 0x4000_0000u32 | 0x2000_0000u32 | 0u32 | 0x10u32 == 0x6000_0010u32)
        by (bit_vector);
}

} // verus!
