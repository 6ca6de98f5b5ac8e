//! The dispatcher: routes each decoded instruction to its semantic
//! handler and writes the result back into the register file.
//!
//! Each instruction is dispatched independently against the current file
//! contents; nothing persists across instructions and PC is an ordinary
//! slot.  The condition suffix is parsed and validated but never gates
//! execution: every instruction executes unconditionally.  A failing instruction
//! leaves the file exactly as it was, and the first error stops the run.

use vstd::prelude::*;
use crate::alu::{binary_op, spec_binop};
use crate::bits::{bits_of, clz32, from_bits, spec_clz, to_bits, val_of};
use crate::error::{ErrorKind, ExecutionError};
use crate::flags::{cmn_flags, cmp_flags, spec_cmn_flags, spec_cmp_flags, spec_pack};
use crate::parser::{split_mnemonic, spec_split, Mnemonic};
use crate::registers::{Registers, STATUS_SLOT};
use crate::shifter::{
    value_of, resolve_shift, spec_resolve_shift, spec_value_of, Operand, ShiftAmount, ShiftSpec,
};

verus! {

/// One decoded instruction as the decoder hands it over: the raw mnemonic
/// (condition suffix still attached) and the ordered operand list.
#[derive(Debug)]
pub struct DecodedInstruction {
    pub mnemonic: String,
    pub operands: Vec<Operand>,
}

/// Reading a slot: the cell's value, or `UnknownRegister` outside the file.
pub open spec fn spec_read(state: Seq<i32>, id: u8) -> Result<i32, ErrorKind> {
    if id < 17 {
        Ok(state[id as int])
    } else {
        Err(ErrorKind::UnknownRegister(id))
    }
}

/// Writing a slot: the updated file, or `UnknownRegister` outside it.
pub open spec fn spec_write(state: Seq<i32>, id: u8, v: i32) -> Result<Seq<i32>, ErrorKind> {
    if id < 17 {
        Ok(state.update(id as int, v))
    } else {
        Err(ErrorKind::UnknownRegister(id))
    }
}

/// A binary ALU instruction: `rd, rn, <shifter operand>`.  The first two
/// operands must be registers; the destination takes the operation of
/// `rn`'s value and the resolved third operand.
pub open spec fn spec_binary_step(base: Mnemonic, ops: Seq<Operand>, state: Seq<i32>) -> Result<
    Seq<i32>,
    ErrorKind,
> {
    if ops.len() != 3 {
        Err(ErrorKind::OperandShapeMismatch(base))
    } else {
        match (ops[0], ops[1]) {
            (Operand::Register { id: rd, shift: _ }, Operand::Register { id: rn, shift: _ }) => {
                match spec_read(state, rn) {
                    Err(e) => Err(e),
                    Ok(a) => match spec_value_of(ops[2], state) {
                        Err(e) => Err(e),
                        Ok(b) => spec_write(
                            state,
                            rd,
                            from_bits(spec_binop(base, to_bits(a), to_bits(b))),
                        ),
                    },
                }
            },
            _ => Err(ErrorKind::OperandShapeMismatch(base)),
        }
    }
}

/// `MUL rd, rm, rs`: three registers; the destination takes the wrapping
/// product.
pub open spec fn spec_mul_step(ops: Seq<Operand>, state: Seq<i32>) -> Result<Seq<i32>, ErrorKind> {
    if ops.len() != 3 {
        Err(ErrorKind::OperandShapeMismatch(Mnemonic::Mul))
    } else {
        match (ops[0], ops[1], ops[2]) {
            (
                Operand::Register { id: rd, shift: _ },
                Operand::Register { id: rm, shift: _ },
                Operand::Register { id: rs, shift: _ },
            ) => match spec_read(state, rm) {
                Err(e) => Err(e),
                Ok(a) => match spec_read(state, rs) {
                    Err(e) => Err(e),
                    Ok(b) => spec_write(
                        state,
                        rd,
                        from_bits(to_bits(a).wrapping_mul(to_bits(b))),
                    ),
                },
            },
            _ => Err(ErrorKind::OperandShapeMismatch(Mnemonic::Mul)),
        }
    }
}

/// `MLA rd, rm, rs, rn`: four registers; the destination takes the
/// wrapping product of the first two sources plus the third.
pub open spec fn spec_mla_step(ops: Seq<Operand>, state: Seq<i32>) -> Result<Seq<i32>, ErrorKind> {
    if ops.len() != 4 {
        Err(ErrorKind::OperandShapeMismatch(Mnemonic::Mla))
    } else {
        match (ops[0], ops[1], ops[2], ops[3]) {
            (
                Operand::Register { id: rd, shift: _ },
                Operand::Register { id: rm, shift: _ },
                Operand::Register { id: rs, shift: _ },
                Operand::Register { id: rn, shift: _ },
            ) => match spec_read(state, rm) {
                Err(e) => Err(e),
                Ok(a) => match spec_read(state, rs) {
                    Err(e) => Err(e),
                    Ok(b) => match spec_read(state, rn) {
                        Err(e) => Err(e),
                        Ok(c) => spec_write(
                            state,
                            rd,
                            from_bits(to_bits(a).wrapping_mul(to_bits(b)).wrapping_add(to_bits(c))),
                        ),
                    },
                },
            },
            _ => Err(ErrorKind::OperandShapeMismatch(Mnemonic::Mla)),
        }
    }
}

/// The shift that a three-operand shift instruction applies: its own mode
/// with the amount in the named register.  Only the four amount-taking
/// modes have such a form.
pub open spec fn reg_shift_of(base: Mnemonic, rs: u8) -> Option<ShiftSpec> {
    match base {
        Mnemonic::Lsl => Some(ShiftSpec::Lsl(ShiftAmount::RegisterAmount(rs))),
        Mnemonic::Lsr => Some(ShiftSpec::Lsr(ShiftAmount::RegisterAmount(rs))),
        Mnemonic::Asr => Some(ShiftSpec::Asr(ShiftAmount::RegisterAmount(rs))),
        Mnemonic::Ror => Some(ShiftSpec::Ror(ShiftAmount::RegisterAmount(rs))),
        _ => Option::None,
    }
}

/// `MOV` and the shift mnemonics.  With two operands the destination takes
/// the resolved second operand (whose attached shift does the work).  With
/// three registers — `lsl rd, rm, rs` and kin — the destination takes
/// `rm`'s value shifted in the instruction's own mode by the amount in
/// `rs`.
pub open spec fn spec_move_step(base: Mnemonic, ops: Seq<Operand>, state: Seq<i32>) -> Result<
    Seq<i32>,
    ErrorKind,
> {
    if ops.len() == 2 {
        match ops[0] {
            Operand::Register { id: rd, shift: _ } => match spec_value_of(ops[1], state) {
                Err(e) => Err(e),
                Ok(v) => spec_write(state, rd, v),
            },
            _ => Err(ErrorKind::OperandShapeMismatch(base)),
        }
    } else if ops.len() == 3 {
        match (ops[0], ops[1], ops[2]) {
            (
                Operand::Register { id: rd, shift: _ },
                Operand::Register { id: rm, shift: _ },
                Operand::Register { id: rs, shift: _ },
            ) => match reg_shift_of(base, rs) {
                Option::None => Err(ErrorKind::OperandShapeMismatch(base)),
                Some(sh) => match spec_read(state, rm) {
                    Err(e) => Err(e),
                    Ok(vm) => match spec_resolve_shift(vm, sh, state) {
                        Err(e) => Err(e),
                        Ok(v) => spec_write(state, rd, v),
                    },
                },
            },
            _ => Err(ErrorKind::OperandShapeMismatch(base)),
        }
    } else {
        Err(ErrorKind::OperandShapeMismatch(base))
    }
}

/// `MVN rd, <shifter operand>`: the destination takes the bitwise
/// complement of the resolved operand.
pub open spec fn spec_mvn_step(ops: Seq<Operand>, state: Seq<i32>) -> Result<Seq<i32>, ErrorKind> {
    if ops.len() != 2 {
        Err(ErrorKind::OperandShapeMismatch(Mnemonic::Mvn))
    } else {
        match ops[0] {
            Operand::Register { id: rd, shift: _ } => match spec_value_of(ops[1], state) {
                Err(e) => Err(e),
                Ok(v) => spec_write(state, rd, from_bits(!to_bits(v))),
            },
            _ => Err(ErrorKind::OperandShapeMismatch(Mnemonic::Mvn)),
        }
    }
}

/// `CLZ rd, rm`: the destination takes the count of leading zero bits of
/// `rm`'s unsigned pattern.
pub open spec fn spec_clz_step(ops: Seq<Operand>, state: Seq<i32>) -> Result<Seq<i32>, ErrorKind> {
    if ops.len() != 2 {
        Err(ErrorKind::OperandShapeMismatch(Mnemonic::Clz))
    } else {
        match (ops[0], ops[1]) {
            (Operand::Register { id: rd, shift: _ }, Operand::Register { id: rm, shift: _ }) => {
                match spec_read(state, rm) {
                    Err(e) => Err(e),
                    Ok(v) => spec_write(state, rd, from_bits(spec_clz(to_bits(v)))),
                }
            },
            _ => Err(ErrorKind::OperandShapeMismatch(Mnemonic::Clz)),
        }
    }
}

/// `CMP rn, <shifter operand>`: only the status word changes; it takes
/// the packed flags of the subtraction.
pub open spec fn spec_cmp_step(ops: Seq<Operand>, state: Seq<i32>) -> Result<Seq<i32>, ErrorKind> {
    if ops.len() != 2 {
        Err(ErrorKind::OperandShapeMismatch(Mnemonic::Cmp))
    } else {
        match ops[0] {
            Operand::Register { id: rn, shift: _ } => match spec_read(state, rn) {
                Err(e) => Err(e),
                Ok(a) => match spec_value_of(ops[1], state) {
                    Err(e) => Err(e),
                    Ok(b) => spec_write(
                        state,
                        STATUS_SLOT,
                        from_bits(spec_pack(spec_cmp_flags(to_bits(a), to_bits(b)))),
                    ),
                },
            },
            _ => Err(ErrorKind::OperandShapeMismatch(Mnemonic::Cmp)),
        }
    }
}

/// `CMN rn, <shifter operand>`: as `CMP`, over the addition.
pub open spec fn spec_cmn_step(ops: Seq<Operand>, state: Seq<i32>) -> Result<Seq<i32>, ErrorKind> {
    if ops.len() != 2 {
        Err(ErrorKind::OperandShapeMismatch(Mnemonic::Cmn))
    } else {
        match ops[0] {
            Operand::Register { id: rn, shift: _ } => match spec_read(state, rn) {
                Err(e) => Err(e),
                Ok(a) => match spec_value_of(ops[1], state) {
                    Err(e) => Err(e),
                    Ok(b) => spec_write(
                        state,
                        STATUS_SLOT,
                        from_bits(spec_pack(spec_cmn_flags(to_bits(a), to_bits(b)))),
                    ),
                },
            },
            _ => Err(ErrorKind::OperandShapeMismatch(Mnemonic::Cmn)),
        }
    }
}

/// `MRS rd, rn`: `rn` must address the status register; the destination
/// takes the status value.  Any other source is `InvalidOperand`.
pub open spec fn spec_mrs_step(ops: Seq<Operand>, state: Seq<i32>) -> Result<Seq<i32>, ErrorKind> {
    if ops.len() != 2 {
        Err(ErrorKind::OperandShapeMismatch(Mnemonic::Mrs))
    } else {
        match (ops[0], ops[1]) {
            (Operand::Register { id: rd, shift: _ }, Operand::Register { id: rn, shift: _ }) => {
                if rn != STATUS_SLOT {
                    Err(ErrorKind::InvalidOperand(rn))
                } else {
                    spec_write(state, rd, state[STATUS_SLOT as int])
                }
            },
            _ => Err(ErrorKind::OperandShapeMismatch(Mnemonic::Mrs)),
        }
    }
}

/// What one instruction with base mnemonic `base` and operands `ops` does
/// to the register file.
pub open spec fn spec_dispatch(base: Mnemonic, ops: Seq<Operand>, state: Seq<i32>) -> Result<
    Seq<i32>,
    ErrorKind,
> {
    match base {
        Mnemonic::Add | Mnemonic::Sub | Mnemonic::And | Mnemonic::Bic | Mnemonic::Eor
            | Mnemonic::Orr => spec_binary_step(base, ops, state),
        Mnemonic::Mul => spec_mul_step(ops, state),
        Mnemonic::Mla => spec_mla_step(ops, state),
        Mnemonic::Mov | Mnemonic::Lsl | Mnemonic::Lsr | Mnemonic::Asr | Mnemonic::Ror
            | Mnemonic::Rrx => spec_move_step(base, ops, state),
        Mnemonic::Mvn => spec_mvn_step(ops, state),
        Mnemonic::Clz => spec_clz_step(ops, state),
        Mnemonic::Cmp => spec_cmp_step(ops, state),
        Mnemonic::Cmn => spec_cmn_step(ops, state),
        Mnemonic::Mrs => spec_mrs_step(ops, state),
    }
}

/// What one decoded instruction does to the register file: its mnemonic is
/// split, and the base dispatched.  The condition suffix must be legal but
/// never gates execution.
pub open spec fn spec_step(state: Seq<i32>, i: DecodedInstruction) -> Result<Seq<i32>, ErrorKind> {
    match spec_split(i.mnemonic@) {
        Err(e) => Err(e),
        Ok((base, _)) => spec_dispatch(base, i.operands@, state),
    }
}

/// Running a program from `state`: the file after the last instruction
/// and success, or the file at the first failure and its error.
pub open spec fn spec_run(state: Seq<i32>, prog: Seq<DecodedInstruction>) -> (Seq<i32>, Result<
    (),
    ErrorKind,
>)
    decreases prog.len(),
{
    if prog.len() == 0 {
        (state, Ok(()))
    } else {
        match spec_step(state, prog[0]) {
            Ok(s2) => spec_run(s2, prog.drop_first()),
            Err(e) => (state, Err(e)),
        }
    }
}

/// An executable step outcome agrees with a specified one: the specified
/// new file on success, or the specified error with the file untouched.
pub open spec fn step_matches(
    r: Result<(), ExecutionError>,
    s: Result<Seq<i32>, ErrorKind>,
    pre: Seq<i32>,
    post: Seq<i32>,
) -> bool {
    match (r, s) {
        (Ok(()), Ok(t)) => post == t,
        (Err(e), Err(k)) => e@ == k && post == pre,
        _ => false,
    }
}

/// The binary ALU instructions, executed.
fn exec_binary(base: Mnemonic, ops: &Vec<Operand>, regs: &mut Registers) -> (r: Result<
    (),
    ExecutionError,
>)
    ensures
        step_matches(r, spec_binary_step(base, ops@, old(regs)@), old(regs)@, final(regs)@),
{
    if ops.len() != 3 {
        return Err(ExecutionError::OperandShapeMismatch(base));
    }
    let (rd, rn) = match (ops[0], ops[1]) {
        (Operand::Register { id: rd, shift: _ }, Operand::Register { id: rn, shift: _ }) => (
            rd,
            rn,
        ),
        _ => {
            return Err(ExecutionError::OperandShapeMismatch(base));
        },
    };
    let a = match regs.get(rn) {
        Ok(v) => v,
        Err(e) => return Err(e),
    };
    let b = match value_of(&ops[2], regs) {
        Ok(v) => v,
        Err(e) => return Err(e),
    };
    let result = val_of(binary_op(base, bits_of(a), bits_of(b)));
    regs.set(rd, result)
}

/// `MUL`, executed.
fn exec_mul(ops: &Vec<Operand>, regs: &mut Registers) -> (r: Result<(), ExecutionError>)
    ensures
        step_matches(r, spec_mul_step(ops@, old(regs)@), old(regs)@, final(regs)@),
{
    if ops.len() != 3 {
        return Err(ExecutionError::OperandShapeMismatch(Mnemonic::Mul));
    }
    let (rd, rm, rs) = match (ops[0], ops[1], ops[2]) {
        (
            Operand::Register { id: rd, shift: _ },
            Operand::Register { id: rm, shift: _ },
            Operand::Register { id: rs, shift: _ },
        ) => (rd, rm, rs),
        _ => {
            return Err(ExecutionError::OperandShapeMismatch(Mnemonic::Mul));
        },
    };
    let a = match regs.get(rm) {
        Ok(v) => v,
        Err(e) => return Err(e),
    };
    let b = match regs.get(rs) {
        Ok(v) => v,
        Err(e) => return Err(e),
    };
    regs.set(rd, val_of(bits_of(a).wrapping_mul(bits_of(b))))
}

/// `MLA`, executed.
fn exec_mla(ops: &Vec<Operand>, regs: &mut Registers) -> (r: Result<(), ExecutionError>)
    ensures
        step_matches(r, spec_mla_step(ops@, old(regs)@), old(regs)@, final(regs)@),
{
    if ops.len() != 4 {
        return Err(ExecutionError::OperandShapeMismatch(Mnemonic::Mla));
    }
    let (rd, rm, rs, rn) = match (ops[0], ops[1], ops[2], ops[3]) {
        (
            Operand::Register { id: rd, shift: _ },
            Operand::Register { id: rm, shift: _ },
            Operand::Register { id: rs, shift: _ },
            Operand::Register { id: rn, shift: _ },
        ) => (rd, rm, rs, rn),
        _ => {
            return Err(ExecutionError::OperandShapeMismatch(Mnemonic::Mla));
        },
    };
    let a = match regs.get(rm) {
        Ok(v) => v,
        Err(e) => return Err(e),
    };
    let b = match regs.get(rs) {
        Ok(v) => v,
        Err(e) => return Err(e),
    };
    let c = match regs.get(rn) {
        Ok(v) => v,
        Err(e) => return Err(e),
    };
    regs.set(rd, val_of(bits_of(a).wrapping_mul(bits_of(b)).wrapping_add(bits_of(c))))
}

/// `MOV` and the shift mnemonics, executed.
fn exec_move(base: Mnemonic, ops: &Vec<Operand>, regs: &mut Registers) -> (r: Result<
    (),
    ExecutionError,
>)
    ensures
        step_matches(r, spec_move_step(base, ops@, old(regs)@), old(regs)@, final(regs)@),
{
    if ops.len() == 2 {
        let rd = match ops[0] {
            Operand::Register { id: rd, shift: _ } => rd,
            _ => {
                return Err(ExecutionError::OperandShapeMismatch(base));
            },
        };
        let v = match value_of(&ops[1], regs) {
            Ok(v) => v,
            Err(e) => return Err(e),
        };
        regs.set(rd, v)
    } else if ops.len() == 3 {
        let (rd, rm, rs) = match (ops[0], ops[1], ops[2]) {
            (
                Operand::Register { id: rd, shift: _ },
                Operand::Register { id: rm, shift: _ },
                Operand::Register { id: rs, shift: _ },
            ) => (rd, rm, rs),
            _ => {
                return Err(ExecutionError::OperandShapeMismatch(base));
            },
        };
        let sh = match base {
            Mnemonic::Lsl => ShiftSpec::Lsl(ShiftAmount::RegisterAmount(rs)),
            Mnemonic::Lsr => ShiftSpec::Lsr(ShiftAmount::RegisterAmount(rs)),
            Mnemonic::Asr => ShiftSpec::Asr(ShiftAmount::RegisterAmount(rs)),
            Mnemonic::Ror => ShiftSpec::Ror(ShiftAmount::RegisterAmount(rs)),
            _ => {
                return Err(ExecutionError::OperandShapeMismatch(base));
            },
        };
        let vm = match regs.get(rm) {
            Ok(v) => v,
            Err(e) => return Err(e),
        };
        let v = match resolve_shift(vm, &sh, regs) {
            Ok(v) => v,
            Err(e) => return Err(e),
        };
        regs.set(rd, v)
    } else {
        Err(ExecutionError::OperandShapeMismatch(base))
    }
}

/// `MVN`, executed.
fn exec_mvn(ops: &Vec<Operand>, regs: &mut Registers) -> (r: Result<(), ExecutionError>)
    ensures
        step_matches(r, spec_mvn_step(ops@, old(regs)@), old(regs)@, final(regs)@),
{
    if ops.len() != 2 {
        return Err(ExecutionError::OperandShapeMismatch(Mnemonic::Mvn));
    }
    let rd = match ops[0] {
        Operand::Register { id: rd, shift: _ } => rd,
        _ => {
            return Err(ExecutionError::OperandShapeMismatch(Mnemonic::Mvn));
        },
    };
    let v = match value_of(&ops[1], regs) {
        Ok(v) => v,
        Err(e) => return Err(e),
    };
    regs.set(rd, val_of(!bits_of(v)))
}

/// `CLZ`, executed.
fn exec_clz(ops: &Vec<Operand>, regs: &mut Registers) -> (r: Result<(), ExecutionError>)
    ensures
        step_matches(r, spec_clz_step(ops@, old(regs)@), old(regs)@, final(regs)@),
{
    if ops.len() != 2 {
        return Err(ExecutionError::OperandShapeMismatch(Mnemonic::Clz));
    }
    let (rd, rm) = match (ops[0], ops[1]) {
        (Operand::Register { id: rd, shift: _ }, Operand::Register { id: rm, shift: _ }) => (
            rd,
            rm,
        ),
        _ => {
            return Err(ExecutionError::OperandShapeMismatch(Mnemonic::Clz));
        },
    };
    let v = match regs.get(rm) {
        Ok(v) => v,
        Err(e) => return Err(e),
    };
    regs.set(rd, val_of(clz32(bits_of(v))))
}

/// `CMP` and `CMN`, executed: `sub` says which flag formula applies.
fn exec_compare(sub: bool, ops: &Vec<Operand>, regs: &mut Registers) -> (r: Result<
    (),
    ExecutionError,
>)
    ensures
        sub ==> step_matches(r, spec_cmp_step(ops@, old(regs)@), old(regs)@, final(regs)@),
        !sub ==> step_matches(r, spec_cmn_step(ops@, old(regs)@), old(regs)@, final(regs)@),
{
    let base = if sub {
        Mnemonic::Cmp
    } else {
        Mnemonic::Cmn
    };
    if ops.len() != 2 {
        return Err(ExecutionError::OperandShapeMismatch(base));
    }
    let rn = match ops[0] {
        Operand::Register { id: rn, shift: _ } => rn,
        _ => {
            return Err(ExecutionError::OperandShapeMismatch(base));
        },
    };
    let a = match regs.get(rn) {
        Ok(v) => v,
        Err(e) => return Err(e),
    };
    let b = match value_of(&ops[1], regs) {
        Ok(v) => v,
        Err(e) => return Err(e),
    };
    let f = if sub {
        cmp_flags(bits_of(a), bits_of(b))
    } else {
        cmn_flags(bits_of(a), bits_of(b))
    };
    regs.set(STATUS_SLOT, f.to_word())
}

/// `MRS`, executed.
fn exec_mrs(ops: &Vec<Operand>, regs: &mut Registers) -> (r: Result<(), ExecutionError>)
    ensures
        step_matches(r, spec_mrs_step(ops@, old(regs)@), old(regs)@, final(regs)@),
{
    if ops.len() != 2 {
        return Err(ExecutionError::OperandShapeMismatch(Mnemonic::Mrs));
    }
    let (rd, rn) = match (ops[0], ops[1]) {
        (Operand::Register { id: rd, shift: _ }, Operand::Register { id: rn, shift: _ }) => (
            rd,
            rn,
        ),
        _ => {
            return Err(ExecutionError::OperandShapeMismatch(Mnemonic::Mrs));
        },
    };
    if rn != STATUS_SLOT {
        return Err(ExecutionError::InvalidOperand(rn));
    }
    let v = match regs.get(rn) {
        Ok(v) => v,
        Err(e) => return Err(e),
    };
    regs.set(rd, v)
}

/// Executes one decoded instruction against the register file.  On
/// success the file is the specified new one; on failure it is untouched
/// and the error is the specified kind.
pub fn step(regs: &mut Registers, instr: &DecodedInstruction) -> (r: Result<(), ExecutionError>)
    ensures
        step_matches(r, spec_step(old(regs)@, *instr), old(regs)@, final(regs)@),
{
    let (base, _cond) = match split_mnemonic(instr.mnemonic.as_str()) {
        Ok(p) => p,
        Err(e) => return Err(e),
    };
    match base {
        Mnemonic::Add | Mnemonic::Sub | Mnemonic::And | Mnemonic::Bic | Mnemonic::Eor
            | Mnemonic::Orr => exec_binary(base, &instr.operands, regs),
        Mnemonic::Mul => exec_mul(&instr.operands, regs),
        Mnemonic::Mla => exec_mla(&instr.operands, regs),
        Mnemonic::Mov | Mnemonic::Lsl | Mnemonic::Lsr | Mnemonic::Asr | Mnemonic::Ror
            | Mnemonic::Rrx => exec_move(base, &instr.operands, regs),
        Mnemonic::Mvn => exec_mvn(&instr.operands, regs),
        Mnemonic::Clz => exec_clz(&instr.operands, regs),
        Mnemonic::Cmp => exec_compare(true, &instr.operands, regs),
        Mnemonic::Cmn => exec_compare(false, &instr.operands, regs),
        Mnemonic::Mrs => exec_mrs(&instr.operands, regs),
    }
}

/// Executes a whole decoded program in order.  On success the file is the
/// run's final state; the first failing instruction stops the run with
/// its error, leaving the file as the successful prefix wrote it.
pub fn execute(instructions: &Vec<DecodedInstruction>, regs: &mut Registers) -> (r: Result<
    (),
    ExecutionError,
>)
    ensures
        final(regs)@ == spec_run(old(regs)@, instructions@).0,
        match r {
            Ok(()) => spec_run(old(regs)@, instructions@).1 is Ok,
            Err(e) => spec_run(old(regs)@, instructions@).1 matches Err(k) && e@ == k,
        },
{
    proof {
        assert(instructions@.skip(0) =~= instructions@);
    }
    let mut k: usize = 0;
    while k < instructions.len()
        invariant
            k <= instructions@.len(),
            spec_run(old(regs)@, instructions@) == spec_run(regs@, instructions@.skip(k as int)),
        decreases instructions@.len() - k,
    {
        let ghost pre = regs@;
        let ghost rest = instructions@.skip(k as int);
        proof {
            assert(rest[0] == instructions@[k as int]);
        }
        match step(regs, &instructions[k]) {
            Ok(()) => {},
            Err(e) => {
                proof {
                    assert(rest.len() > 0);
                    assert(spec_step(pre, rest[0]) == Err::<Seq<i32>, ErrorKind>(e@));
                    assert(spec_run(pre, rest) == (pre, Err::<(), ErrorKind>(e@)));
                    assert(spec_run(old(regs)@, instructions@) == (pre, Err::<(), ErrorKind>(e@)));
                    assert(regs@ == pre);
                }
                return Err(e);
            },
        }
        proof {
            assert(rest.drop_first() =~= instructions@.skip(k as int + 1));
        }
        k = k + 1;
    }
    proof {
        assert(instructions@.skip(instructions@.len() as int) =~= Seq::<
            DecodedInstruction,
        >::empty());
    }
    Ok(())
}

} // verus!
