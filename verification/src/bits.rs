//! Conversions between signed register cells and their unsigned 32-bit
//! patterns, and the pure bit-level operations of the barrel shifter and the
//! CLZ unit.

use vstd::prelude::*;

verus! {

/// The unsigned 32-bit pattern of a signed register value.
pub open spec fn to_bits(v: i32) -> u32 {
    if v >= 0 {
        v as u32
    } else {
        (v + 0x1_0000_0000) as u32
    }
}

/// The signed register value whose pattern is `u`.
pub open spec fn from_bits(u: u32) -> i32 {
    if u < 0x8000_0000 {
        u as i32
    } else {
        (u - 0x1_0000_0000) as i32
    }
}

/// The two conversions invert each other, pattern first.
pub proof fn lemma_to_from_bits(u: u32)
    ensures
        to_bits(from_bits(u)) == u,
{
}

/// The two conversions invert each other, value first.
pub proof fn lemma_from_to_bits(v: i32)
    ensures
        from_bits(to_bits(v)) == v,
{
}

/// The unsigned pattern of `v`, computed.
pub fn bits_of(v: i32) -> (u: u32)
    ensures
        u == to_bits(v),
{
    if v >= 0 {
        v as u32
    } else {
        (v - i32::MIN) as u32 + 0x8000_0000
    }
}

/// The signed value of the pattern `u`, computed.
pub fn val_of(u: u32) -> (v: i32)
    ensures
        v == from_bits(u),
{
    if u < 0x8000_0000 {
        u as i32
    } else {
        (u - 0x8000_0000) as i32 + i32::MIN
    }
}

/// Logical left shift: bits shifted out at the top are discarded and the
/// vacated low bits are zero.  Every amount of 32 or more clears the word.
pub open spec fn spec_lsl(u: u32, s: u32) -> u32 {
    if s >= 32 {
        0u32
    } else {
        u << s
    }
}

/// Logical right shift: zero-fill from the left.  Every amount of 32 or
/// more clears the word.
pub open spec fn spec_lsr(u: u32, s: u32) -> u32 {
    if s >= 32 {
        0u32
    } else {
        u >> s
    }
}

/// Arithmetic right shift: the vacated high bits are filled with copies of
/// the sign bit.  An amount of 32 or more extends the sign through the
/// whole word.
pub open spec fn spec_asr(u: u32, s: u32) -> u32 {
    if s >= 32 {
        if u >= 0x8000_0000 {
            0xFFFF_FFFFu32
        } else {
            0u32
        }
    } else if u >= 0x8000_0000 {
        (u >> s) | !(0xFFFF_FFFFu32 >> s)
    } else {
        u >> s
    }
}

/// Rotate right: bits rotated off the right re-enter on the left.  The
/// amount counts modulo the word size.
pub open spec fn spec_ror(u: u32, s: u32) -> u32 {
    let r: u32 = s % 32;
    if r == 0 {
        u
    } else {
        (u >> r) | (u << (32 - r) as u32)
    }
}

/// Rotate right with extend: a one-bit rotate whose vacated top bit is the
/// carry flag, not the word's own low bit.
pub open spec fn spec_rrx(u: u32, carry: bool) -> u32 {
    (u >> 1u32) | (if carry {
        0x8000_0000u32
    } else {
        0u32
    })
}

/// Logical left shift, computed.
pub fn lsl32(u: u32, s: u32) -> (r: u32)
    ensures
        r == spec_lsl(u, s),
{
    if s >= 32 {
        0
    } else {
        u << s
    }
}

/// Logical right shift, computed.
pub fn lsr32(u: u32, s: u32) -> (r: u32)
    ensures
        r == spec_lsr(u, s),
{
    if s >= 32 {
        0
    } else {
        u >> s
    }
}

/// Arithmetic right shift, computed.
pub fn asr32(u: u32, s: u32) -> (r: u32)
    ensures
        r == spec_asr(u, s),
{
    if s >= 32 {
        if u >= 0x8000_0000 {
            0xFFFF_FFFF
        } else {
            0
        }
    } else if u >= 0x8000_0000 {
        (u >> s) | !(0xFFFF_FFFFu32 >> s)
    } else {
        u >> s
    }
}

/// Rotate right, computed.
pub fn ror32(u: u32, s: u32) -> (r: u32)
    ensures
        r == spec_ror(u, s),
{
    let r: u32 = s % 32;
    if r == 0 {
        u
    } else {
        (u >> r) | (u << (32 - r))
    }
}

/// Rotate right with extend, computed.
pub fn rrx32(u: u32, carry: bool) -> (r: u32)
    ensures
        r == spec_rrx(u, carry),
{
    (u >> 1u32) | (if carry {
        0x8000_0000u32
    } else {
        0u32
    })
}

/// The number of binary digits of `n`: zero for zero, one more than its
/// half otherwise.
pub open spec fn bitlen(n: nat) -> nat
    decreases n,
{
    if n == 0 {
        0
    } else {
        1 + bitlen(n / 2)
    }
}

/// The count of leading zero bits in a 32-bit pattern: the word size less
/// the number of binary digits.
pub open spec fn spec_clz(u: u32) -> u32 {
    (32 - bitlen(u as nat)) as u32
}

/// A number below a power of two has no more binary digits than the
/// exponent.
pub proof fn lemma_bitlen_bound(n: nat, k: nat)
    requires
        n < vstd::arithmetic::power2::pow2(k),
    ensures
        bitlen(n) <= k,
    decreases n,
{
    if n > 0 {
        if k == 0 {
            assert(vstd::arithmetic::power2::pow2(0) == 1) by {
                vstd::arithmetic::power2::lemma2_to64();
            }
        } else {
            vstd::arithmetic::power2::lemma_pow2_unfold(k);
            lemma_bitlen_bound(n / 2, (k - 1) as nat);
        }
    }
}

/// Count of leading zeros, computed: halve until nothing is left.
pub fn clz32(u: u32) -> (r: u32)
    ensures
        r == spec_clz(u),
{
    proof {
        assert(u < vstd::arithmetic::power2::pow2(32)) by {
            vstd::arithmetic::power2::lemma2_to64();
        }
        lemma_bitlen_bound(u as nat, 32);
    }
    let mut v = u;
    let mut n: u32 = 0;
    while v != 0
        invariant
            n + bitlen(v as nat) == bitlen(u as nat),
            bitlen(u as nat) <= 32,
        decreases v,
    {
        v = v / 2;
        n = n + 1;
    }
    32 - n
}

/// Every shift mode leaves a pattern unchanged at amount zero.
pub proof fn lemma_shift_zero_bits(u: u32)
    ensures
        spec_lsl(u, 0) == u,
        spec_lsr(u, 0) == u,
        spec_asr(u, 0) == u,
        spec_ror(u, 0) == u,
{
    assert(u << 0u32 == u) by (bit_vector);
    assert(u >> 0u32 == u) by (bit_vector);
    assert((u >> 0u32) | !(0xFFFF_FFFFu32 >> 0u32) == u) by (bit_vector);
}

} // verus!
