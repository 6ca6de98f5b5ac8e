//! The execution scenarios: whole decoded programs run against a fresh
//! register file, with the final cell values checked.

use komodo::engine::{execute, DecodedInstruction};
use komodo::registers::{Registers, STATUS_SLOT};
use komodo::shifter::{Operand, ShiftAmount, ShiftSpec};

fn reg(id: u8) -> Operand {
    Operand::Register { id, shift: ShiftSpec::NoShift }
}

fn reg_sh(id: u8, shift: ShiftSpec) -> Operand {
    Operand::Register { id, shift }
}

fn imm(v: i32) -> Operand {
    Operand::Immediate(v)
}

fn ins(mnemonic: &str, operands: Vec<Operand>) -> DecodedInstruction {
    DecodedInstruction { mnemonic: mnemonic.to_owned(), operands }
}

fn run(prog: Vec<DecodedInstruction>) -> Registers {
    let mut regs = Registers::new();
    execute(&prog, &mut regs).unwrap();
    regs
}

fn get(regs: &Registers, id: u8) -> i32 {
    regs.get(id).unwrap()
}

#[test]
fn test_mov() {
    let regs = run(vec![
        ins("mov", vec![reg(0), imm(0)]),
        ins("mov", vec![reg(1), imm(1)]),
        ins("mov", vec![reg(2), imm('a' as i32)]),
        ins("mov", vec![reg(3), imm(0b1010)]),
        // an immediate is formed by rotating an 8 bit constant in a 32 bit word
        ins("mov", vec![reg(4), imm(0xff)]),
        ins("mov", vec![reg(5), imm(0x104)]),
        ins("mov", vec![reg(6), imm(0xff0)]),
        ins("mov", vec![reg(7), imm(0xff00)]),
        ins("mov", vec![reg(8), imm(0xff000)]),
        ins("mov", vec![reg(9), imm(0xff000000_u32 as i32)]),
        ins("mov", vec![reg(10), imm(0xf000000f_u32 as i32)]),
    ]);
    assert_eq!(get(&regs, 0), 0);
    assert_eq!(get(&regs, 1), 1);
    assert_eq!(get(&regs, 2), 'a' as i32);
    assert_eq!(get(&regs, 3), 0b1010);
    assert_eq!(get(&regs, 4), 0xff);
    assert_eq!(get(&regs, 5), 0x104);
    assert_eq!(get(&regs, 6), 0xff0);
    assert_eq!(get(&regs, 7), 0xff00);
    assert_eq!(get(&regs, 8), 0xff000);
    assert_eq!(get(&regs, 9), 0xff000000_u32 as i32);
    assert_eq!(get(&regs, 10), 0xf000000f_u32 as i32);
}

#[test]
fn test_mov_shift() {
    let regs = run(vec![
        ins("mov", vec![reg(0), imm(4)]),
        ins("mov", vec![reg(1), imm(1)]),
        ins("mov", vec![reg(2), reg_sh(0, ShiftSpec::Lsl(ShiftAmount::Literal(2)))]),
        ins("mov", vec![reg(3), reg_sh(0, ShiftSpec::Lsl(ShiftAmount::RegisterAmount(1)))]),
        ins("mov", vec![reg(4), reg_sh(0, ShiftSpec::Lsr(ShiftAmount::Literal(2)))]),
        ins("mov", vec![reg(5), reg_sh(0, ShiftSpec::Lsr(ShiftAmount::RegisterAmount(1)))]),
        ins("mov", vec![reg(6), reg_sh(0, ShiftSpec::Asr(ShiftAmount::Literal(2)))]),
        ins("mov", vec![reg(7), reg_sh(0, ShiftSpec::Asr(ShiftAmount::RegisterAmount(1)))]),
        ins("mov", vec![reg(8), reg_sh(1, ShiftSpec::Ror(ShiftAmount::Literal(2)))]),
        ins("mov", vec![reg(9), reg_sh(1, ShiftSpec::Ror(ShiftAmount::RegisterAmount(1)))]),
        ins("mov", vec![reg(10), reg_sh(1, ShiftSpec::Rrx)]),
    ]);

    assert_eq!(get(&regs, 0), 4);
    assert_eq!(get(&regs, 1), 1);

    assert_eq!(get(&regs, 2), 16);
    assert_eq!(get(&regs, 3), 8);

    assert_eq!(get(&regs, 4), 1);
    assert_eq!(get(&regs, 5), 2);

    assert_eq!(get(&regs, 6), 1);
    assert_eq!(get(&regs, 7), 2);

    assert_eq!(get(&regs, 8), 1073741824);
    assert_eq!(get(&regs, 9), -2147483648);

    // RRX rotates in the carry flag, which a fresh file holds clear, so the
    // low bit of r1 falls away and nothing enters at the top.
    assert_eq!(get(&regs, 10), 0);
}

#[test]
fn test_mvn() {
    let regs = run(vec![
        ins("mvn", vec![reg(0), imm(0)]),
        ins("mvn", vec![reg(1), imm(0xf)]),
    ]);
    assert_eq!(get(&regs, 0), -1);
    assert_eq!(get(&regs, 1), -16);
}

#[test]
fn test_add() {
    let regs = run(vec![
        ins("mov", vec![reg(0), imm(1)]),
        ins("add", vec![reg(1), reg(0), imm(2)]),
        ins("add", vec![reg(2), reg(0), reg(1)]),
        ins("mvn", vec![reg(3), imm(0)]), // -1
        ins("add", vec![reg(4), reg(3), reg(3)]),
    ]);
    assert_eq!(get(&regs, 1), 3);
    assert_eq!(get(&regs, 2), 4);

    assert_eq!(get(&regs, 4), -2);
}

#[test]
fn test_sub() {
    let regs = run(vec![
        ins("mov", vec![reg(0), imm(3)]),
        ins("sub", vec![reg(1), reg(0), imm(1)]),
        ins("sub", vec![reg(2), reg(0), reg(1)]),
        ins("mov", vec![reg(3), imm(0)]),
        ins("sub", vec![reg(4), reg(3), imm(1)]),
        // 0 - 1 = -1
    ]);

    assert_eq!(get(&regs, 1), 2);
    assert_eq!(get(&regs, 2), 1);

    assert_eq!(get(&regs, 4), -1);
}

#[test]
fn test_cmp_1() {
    let regs = run(vec![
        ins("mov", vec![reg(0), imm(0)]),
        ins("cmp", vec![reg(0), imm(0)]),
    ]);
    assert_eq!(get(&regs, STATUS_SLOT), 0x60000010);
}

#[test]
fn test_cmp_2() {
    let regs = run(vec![
        ins("mov", vec![reg(0), imm(0)]),
        ins("cmp", vec![reg(0), imm(1)]),
    ]);
    assert_eq!(get(&regs, STATUS_SLOT), 0x80000010_u32 as i32);
}

#[test]
fn test_cmp_3() {
    let regs = run(vec![
        ins("mov", vec![reg(0), imm(1)]),
        ins("cmp", vec![reg(0), imm(0x80000000_u32 as i32)]),
    ]);
    assert_eq!(get(&regs, STATUS_SLOT), 0x90000010_u32 as i32);
}

#[test]
fn test_cmp_4() {
    let regs = run(vec![
        ins("mov", vec![reg(0), imm(0x80000000_u32 as i32)]),
        ins("cmp", vec![reg(0), imm(1)]),
    ]);
    assert_eq!(get(&regs, STATUS_SLOT), 0x30000010);
}

#[test]
fn test_cmp_5() {
    let regs = run(vec![
        ins("mov", vec![reg(0), imm(1)]),
        ins("mov", vec![reg(1), imm(-2)]),
        ins("cmp", vec![reg(0), reg(1)]),
    ]);
    assert_eq!(get(&regs, STATUS_SLOT), 0x10);
}

#[test]
fn test_cmp_6() {
    let regs = run(vec![
        ins("mov", vec![reg(0), imm(2)]),
        ins("cmp", vec![reg(0), imm(1)]),
    ]);
    assert_eq!(get(&regs, STATUS_SLOT), 0x20000010);
}

#[test]
fn test_cmn_1() {
    let regs = run(vec![
        ins("mov", vec![reg(0), imm(0)]),
        ins("cmn", vec![reg(0), imm(0)]),
    ]);
    assert_eq!(get(&regs, STATUS_SLOT), 0x40000010);
}

#[test]
fn test_cmn_2() {
    let regs = run(vec![
        ins("mov", vec![reg(0), imm(0)]),
        ins("cmn", vec![reg(0), imm(1)]),
    ]);
    assert_eq!(get(&regs, STATUS_SLOT), 0x10);
}

#[test]
fn test_cmn_3() {
    let regs = run(vec![
        ins("mov", vec![reg(0), imm(0)]),
        ins("mov", vec![reg(1), imm(-1)]),
        ins("cmn", vec![reg(0), reg(1)]),
    ]);
    assert_eq!(get(&regs, STATUS_SLOT), 0x80000010_u32 as i32);
}

#[test]
fn test_cmn_4() {
    let regs = run(vec![
        ins("mov", vec![reg(0), imm(0x7fffffff)]),
        ins("cmn", vec![reg(0), imm(1)]),
    ]);
    assert_eq!(get(&regs, STATUS_SLOT), 0x90000010_u32 as i32);
}

#[test]
fn test_cmn_5() {
    let regs = run(vec![
        ins("mov", vec![reg(0), imm(0x80000000_u32 as i32)]),
        ins("mov", vec![reg(1), imm(-1)]),
        ins("cmn", vec![reg(0), reg(1)]),
    ]);
    assert_eq!(get(&regs, STATUS_SLOT), 0x30000010_u32 as i32);
}

#[test]
fn mul_and_mla() {
    let regs = run(vec![
        ins("mov", vec![reg(0), imm(6)]),
        ins("mov", vec![reg(1), imm(7)]),
        ins("mul", vec![reg(2), reg(0), reg(1)]),
        ins("mov", vec![reg(3), imm(100)]),
        ins("mla", vec![reg(4), reg(0), reg(1), reg(3)]),
    ]);
    assert_eq!(get(&regs, 2), 42);
    assert_eq!(get(&regs, 4), 142);
}

#[test]
fn mul_wraps_around() {
    // 0x10000 * 0x10000 overflows 32 bits and wraps to zero.
    let regs = run(vec![
        ins("mov", vec![reg(0), imm(0x10000)]),
        ins("mul", vec![reg(1), reg(0), reg(0)]),
        // 0x7fffffff * 2 wraps to -2.
        ins("mov", vec![reg(2), imm(0x7fffffff)]),
        ins("mov", vec![reg(3), imm(2)]),
        ins("mul", vec![reg(4), reg(2), reg(3)]),
    ]);
    assert_eq!(get(&regs, 1), 0);
    assert_eq!(get(&regs, 4), -2);
}

#[test]
fn logical_ops() {
    let regs = run(vec![
        ins("mov", vec![reg(0), imm(0b1100)]),
        ins("mov", vec![reg(1), imm(0b1010)]),
        ins("and", vec![reg(2), reg(0), reg(1)]),
        ins("orr", vec![reg(3), reg(0), reg(1)]),
        ins("eor", vec![reg(4), reg(0), reg(1)]),
        ins("bic", vec![reg(5), reg(0), reg(1)]),
    ]);
    assert_eq!(get(&regs, 2), 0b1000);
    assert_eq!(get(&regs, 3), 0b1110);
    assert_eq!(get(&regs, 4), 0b0110);
    assert_eq!(get(&regs, 5), 0b0100);
}

#[test]
fn clz_values() {
    let regs = run(vec![
        ins("mov", vec![reg(0), imm(0)]),
        ins("clz", vec![reg(1), reg(0)]),
        ins("mov", vec![reg(2), imm(1)]),
        ins("clz", vec![reg(3), reg(2)]),
        ins("mvn", vec![reg(4), imm(0)]), // 0xffffffff
        ins("clz", vec![reg(5), reg(4)]),
    ]);
    assert_eq!(get(&regs, 1), 32);
    assert_eq!(get(&regs, 3), 31);
    assert_eq!(get(&regs, 5), 0);
}

#[test]
fn mrs_copies_status() {
    let regs = run(vec![
        ins("mov", vec![reg(0), imm(0)]),
        ins("cmp", vec![reg(0), imm(0)]),
        ins("mrs", vec![reg(1), reg(STATUS_SLOT)]),
    ]);
    assert_eq!(get(&regs, 1), 0x60000010);
}

#[test]
fn three_operand_shifts() {
    let regs = run(vec![
        ins("mov", vec![reg(0), imm(4)]),
        ins("mov", vec![reg(1), imm(1)]),
        ins("lsl", vec![reg(2), reg(0), reg(1)]),
        ins("lsr", vec![reg(3), reg(0), reg(1)]),
        ins("asr", vec![reg(4), reg(0), reg(1)]),
        ins("mov", vec![reg(5), imm(1)]),
        ins("ror", vec![reg(6), reg(5), reg(1)]),
    ]);
    assert_eq!(get(&regs, 2), 8);
    assert_eq!(get(&regs, 3), 2);
    assert_eq!(get(&regs, 4), 2);
    assert_eq!(get(&regs, 6), -2147483648);
}

#[test]
fn rrx_rotates_carry_in() {
    // cmp r0, r0 sets the carry flag; RRX then feeds it into the top bit.
    let regs = run(vec![
        ins("mov", vec![reg(0), imm(0)]),
        ins("cmp", vec![reg(0), reg(0)]),
        ins("mov", vec![reg(1), reg_sh(0, ShiftSpec::Rrx)]),
    ]);
    assert_eq!(get(&regs, 1), -2147483648);
}

#[test]
fn conditional_suffix_never_gates() {
    // The suffix parses but every instruction executes unconditionally:
    // addne runs even though cmp r0, r0 just set Z.
    let regs = run(vec![
        ins("mov", vec![reg(0), imm(0)]),
        ins("cmp", vec![reg(0), reg(0)]),
        ins("addne", vec![reg(1), reg(0), imm(5)]),
        ins("moveq", vec![reg(2), imm(9)]),
    ]);
    assert_eq!(get(&regs, 1), 5);
    assert_eq!(get(&regs, 2), 9);
}

#[test]
fn pc_and_sp_are_ordinary_slots() {
    let regs = run(vec![
        ins("mov", vec![reg(13), imm(7)]),
        ins("mov", vec![reg(15), imm(11)]),
        ins("add", vec![reg(14), reg(13), reg(15)]),
    ]);
    assert_eq!(get(&regs, 13), 7);
    assert_eq!(get(&regs, 15), 11);
    assert_eq!(get(&regs, 14), 18);
}
