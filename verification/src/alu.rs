//! The binary operations of the ALU.  Arithmetic wraps around as the
//! hardware's does; the logical operations work bitwise on the unsigned
//! patterns.  Only the comparison instructions touch the flags, so none of
//! these do.

use vstd::prelude::*;
use crate::parser::Mnemonic;

verus! {

/// The base mnemonics served by the binary-operation dispatch table.
pub open spec fn is_binop(m: Mnemonic) -> bool {
    match m {
        Mnemonic::Add | Mnemonic::Sub | Mnemonic::And | Mnemonic::Bic | Mnemonic::Eor
            | Mnemonic::Orr => true,
        _ => false,
    }
}

/// The result of a binary ALU operation on two unsigned patterns: wrapping
/// addition or subtraction, or one of the four bitwise operations.  Other
/// mnemonics are not in the table; for them the result is zero.
pub open spec fn spec_binop(m: Mnemonic, a: u32, b: u32) -> u32
    recommends
        is_binop(m),
{
    match m {
        Mnemonic::Add => a.wrapping_add(b),
        Mnemonic::Sub => a.wrapping_sub(b),
        Mnemonic::And => a & b,
        Mnemonic::Bic => a & !b,
        Mnemonic::Eor => a ^ b,
        Mnemonic::Orr => a | b,
        _ => 0u32,
    }
}

/// The binary-operation dispatch table, computed.
pub fn binary_op(m: Mnemonic, a: u32, b: u32) -> (r: u32)
    ensures
        r == spec_binop(m, a, b),
{
    match m {
        Mnemonic::Add => a.wrapping_add(b),
        Mnemonic::Sub => a.wrapping_sub(b),
        Mnemonic::And => a & b,
        Mnemonic::Bic => a & !b,
        Mnemonic::Eor => a ^ b,
        Mnemonic::Orr => a | b,
        _ => 0u32,
    }
}

} // verus!
