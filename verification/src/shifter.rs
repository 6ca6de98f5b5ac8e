//! Operands and the barrel shifter: the effective value of any operand is
//! its immediate, or a register value put through one of the six shift
//! modes, with the amount taken from a literal or from the low byte of
//! another register.

use vstd::prelude::*;
use crate::bits::{
    from_bits, spec_asr, spec_lsl, spec_lsr, spec_ror, spec_rrx, to_bits, asr32, bits_of, lsl32,
    lsr32, ror32, rrx32, val_of,
};
use crate::error::{ErrorKind, ExecutionError, res_matches};
use crate::flags::spec_unpack;
use crate::registers::{Registers, STATUS_SLOT};

verus! {

/// A shift amount: a literal, or the low byte of the named register.
#[derive(Clone, Copy, PartialEq, Eq, Structural, Debug)]
pub enum ShiftAmount {
    Literal(u32),
    RegisterAmount(u8),
}

/// One of the six shift modes of the barrel shifter.  `Rrx` takes no
/// amount: it always rotates by exactly one bit.
#[derive(Clone, Copy, PartialEq, Eq, Structural, Debug)]
pub enum ShiftSpec {
    NoShift,
    Lsl(ShiftAmount),
    Lsr(ShiftAmount),
    Asr(ShiftAmount),
    Ror(ShiftAmount),
    Rrx,
}

/// A decoded operand: a register (with the shift the decoder attached to
/// it) or a bare immediate.
#[derive(Clone, Copy, PartialEq, Eq, Structural, Debug)]
pub enum Operand {
    Register { id: u8, shift: ShiftSpec },
    Immediate(i32),
}

/// The resolved shift amount: the literal itself, or the low byte of the
/// named register's value.
pub open spec fn spec_amount(a: ShiftAmount, state: Seq<i32>) -> Result<u32, ErrorKind> {
    match a {
        ShiftAmount::Literal(n) => Ok(n),
        ShiftAmount::RegisterAmount(id) => if id < 17 {
            Ok(to_bits(state[id as int]) & 0xFF)
        } else {
            Err(ErrorKind::UnknownRegister(id))
        },
    }
}

/// The carry flag recorded in the status word of `state`.
pub open spec fn spec_carry(state: Seq<i32>) -> bool {
    spec_unpack(to_bits(state[STATUS_SLOT as int])).carry
}

/// The value `v` put through the shift `sh`, reading shift amounts and the
/// carry flag (for RRX) from `state`.
pub open spec fn spec_resolve_shift(v: i32, sh: ShiftSpec, state: Seq<i32>) -> Result<
    i32,
    ErrorKind,
> {
    match sh {
        ShiftSpec::NoShift => Ok(v),
        ShiftSpec::Lsl(a) => match spec_amount(a, state) {
            Ok(s) => Ok(from_bits(spec_lsl(to_bits(v), s))),
            Err(e) => Err(e),
        },
        ShiftSpec::Lsr(a) => match spec_amount(a, state) {
            Ok(s) => Ok(from_bits(spec_lsr(to_bits(v), s))),
            Err(e) => Err(e),
        },
        ShiftSpec::Asr(a) => match spec_amount(a, state) {
            Ok(s) => Ok(from_bits(spec_asr(to_bits(v), s))),
            Err(e) => Err(e),
        },
        ShiftSpec::Ror(a) => match spec_amount(a, state) {
            Ok(s) => Ok(from_bits(spec_ror(to_bits(v), s))),
            Err(e) => Err(e),
        },
        ShiftSpec::Rrx => Ok(from_bits(spec_rrx(to_bits(v), spec_carry(state)))),
    }
}

/// The effective value of an operand: an immediate resolves to itself; a
/// register resolves to its cell's value put through the attached shift.
pub open spec fn spec_value_of(op: Operand, state: Seq<i32>) -> Result<i32, ErrorKind> {
    match op {
        Operand::Immediate(n) => Ok(n),
        Operand::Register { id, shift } => if id < 17 {
            spec_resolve_shift(state[id as int], shift, state)
        } else {
            Err(ErrorKind::UnknownRegister(id))
        },
    }
}

/// Resolves a shift amount against the register file.
fn resolve_amount(a: &ShiftAmount, regs: &Registers) -> (r: Result<u32, ExecutionError>)
    ensures
        res_matches(r, spec_amount(*a, regs@)),
{
    match a {
        ShiftAmount::Literal(n) => Ok(*n),
        ShiftAmount::RegisterAmount(id) => match regs.get(*id) {
            Ok(v) => Ok(bits_of(v) & 0xFF),
            Err(e) => Err(e),
        },
    }
}

/// Puts `v` through the shift `sh`, reading shift amounts and (for RRX)
/// the carry flag from `regs`.
pub fn resolve_shift(v: i32, sh: &ShiftSpec, regs: &Registers) -> (r: Result<i32, ExecutionError>)
    ensures
        res_matches(r, spec_resolve_shift(v, *sh, regs@)),
{
    match sh {
        ShiftSpec::NoShift => Ok(v),
        ShiftSpec::Lsl(a) => match resolve_amount(a, regs) {
            Ok(s) => Ok(val_of(lsl32(bits_of(v), s))),
            Err(e) => Err(e),
        },
        ShiftSpec::Lsr(a) => match resolve_amount(a, regs) {
            Ok(s) => Ok(val_of(lsr32(bits_of(v), s))),
            Err(e) => Err(e),
        },
        ShiftSpec::Asr(a) => match resolve_amount(a, regs) {
            Ok(s) => Ok(val_of(asr32(bits_of(v), s))),
            Err(e) => Err(e),
        },
        ShiftSpec::Ror(a) => match resolve_amount(a, regs) {
            Ok(s) => Ok(val_of(ror32(bits_of(v), s))),
            Err(e) => Err(e),
        },
        ShiftSpec::Rrx => {
            let status = match regs.get(STATUS_SLOT) {
                Ok(w) => w,
                Err(e) => return Err(e),
            };
            let carry = crate::flags::StatusFlags::from_word(status).carry;
            Ok(val_of(rrx32(bits_of(v), carry)))
        },
    }
}

/// The effective value of `op` against the register file.
pub fn value_of(op: &Operand, regs: &Registers) -> (r: Result<i32, ExecutionError>)
    ensures
        res_matches(r, spec_value_of(*op, regs@)),
{
    match op {
        Operand::Immediate(n) => Ok(*n),
        Operand::Register { id, shift } => match regs.get(*id) {
            Ok(v) => resolve_shift(v, shift, regs),
            Err(e) => Err(e),
        },
    }
}

/// Resolving with no shift returns the value unchanged, whatever the
/// register file holds.
pub proof fn lemma_no_shift_identity(v: i32, state: Seq<i32>)
    ensures
        spec_resolve_shift(v, ShiftSpec::NoShift, state) == Ok::<i32, ErrorKind>(v),
{
}

/// A shift by a literal amount of zero leaves the value unchanged in every
/// amount-taking mode.  RRX is the exception by construction: it takes no
/// amount and always rotates by one bit.
pub proof fn lemma_zero_amount_identity(v: i32, state: Seq<i32>)
    ensures
        spec_resolve_shift(v, ShiftSpec::Lsl(ShiftAmount::Literal(0)), state) == Ok::<
            i32,
            ErrorKind,
        >(v),
        spec_resolve_shift(v, ShiftSpec::Lsr(ShiftAmount::Literal(0)), state) == Ok::<
            i32,
            ErrorKind,
        >(v),
        spec_resolve_shift(v, ShiftSpec::Asr(ShiftAmount::Literal(0)), state) == Ok::<
            i32,
            ErrorKind,
        >(v),
        spec_resolve_shift(v, ShiftSpec::Ror(ShiftAmount::Literal(0)), state) == Ok::<
            i32,
            ErrorKind,
        >(v),
{
    crate::bits::lemma_shift_zero_bits(to_bits(v));
    crate::bits::lemma_from_to_bits(v);
}

/// Rotating a pattern right by `n` and then by `32 - n` recovers it.
pub proof fn lemma_ror_inverse(u: u32, n: u32, m: u32)
    requires
        0 < n < 32,
        n + m == 32,
    ensures
        spec_ror(spec_ror(u, n), m) == u,
{
    assert(spec_ror(spec_ror(u, n), (32 - n) as u32) == u) by (bit_vector)
        requires
            0 < n < 32,
    ;
}

/// Rotating a register value right by `n` and then by `32 - n` recovers
/// it, for any amount strictly between zero and the word size.
pub proof fn lemma_ror_round_trip(v: i32, n: u32, m: u32, state: Seq<i32>)
    requires
        0 < n < 32,
        n + m == 32,
    ensures
        ({
            let first = spec_resolve_shift(v, ShiftSpec::Ror(ShiftAmount::Literal(n)), state);
            &&& first matches Ok(w)
            &&& spec_resolve_shift(w, ShiftSpec::Ror(ShiftAmount::Literal(m)), state) == Ok::<
                i32,
                ErrorKind,
            >(v)
        }),
{
    let u = to_bits(v);
    let w = from_bits(spec_ror(u, n));
    crate::bits::lemma_to_from_bits(spec_ror(u, n));
    lemma_ror_inverse(u, n, m);
    crate::bits::lemma_from_to_bits(v);
}

} // verus!
