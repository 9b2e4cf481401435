//! The SM83 instruction set: the instructions, the opcode map and the CB-prefixed map.
use vstd::prelude::*;

use crate::cpu::registers::{CpuReg8, CpuReg16};

verus! {

/// The condition of a conditional jump, call or return.
#[derive(Clone, Copy, Debug, PartialEq, Eq, Structural)]
pub enum CpuCondition {
    NZ,
    Z,
    NC,
    C,
    Always,
}

/// The operand of a CB-prefixed instruction: a register or the byte at (HL).
#[derive(Clone, Copy, Debug, PartialEq, Eq, Structural)]
pub enum CpuCbOperand {
    Register(CpuReg8),
    HlMem,
}

/// The eight operations of the `ALU A, x` block.
#[derive(Clone, Copy, Debug, PartialEq, Eq, Structural)]
pub enum CpuAluOperation {
    Add,
    Adc,
    Sub,
    Sbc,
    And,
    Xor,
    Or,
    Cp,
}

/// The operations of the CB-prefixed block.
#[derive(Clone, Copy, Debug, PartialEq, Eq, Structural)]
pub enum CpuCbOperation {
    Rlc,
    Rrc,
    Rl,
    Rr,
    Sla,
    Sra,
    Swap,
    Srl,
    Bit(u8),
    Res(u8),
    SetBit(u8),
}

/// A decoded CB-prefixed instruction.
#[derive(Clone, Copy, Debug, PartialEq, Eq, Structural)]
pub struct CpuCbInstruction {
    pub operation: CpuCbOperation,
    pub operand: CpuCbOperand,
}

/// A decoded instruction of the main opcode map.
#[derive(Clone, Copy, Debug, PartialEq, Eq, Structural)]
pub enum CpuInstruction {
    LdR8Imm8(CpuReg8),
    LdR8R8(CpuReg8, CpuReg8),
    LdR16Imm16(CpuReg16),
    LdR16memA(CpuReg16),
    LdAR16mem(CpuReg16),
    LdHlMemR8(CpuReg8),
    LdHlMemImm8,
    LdSpImm16,
    LdAddrA,
    LdAAddr,
    LdAddrSp,
    LdhA8A,
    LdhAA8,
    LdhCA,
    LdhAC,
    LdHlSpE8,
    LdSpHl,
    LdR8HlMem(CpuReg8),
    LdAHlIncMem,
    LdAHlDecMem,
    LdHlIncMemA,
    LdHlDecMemA,
    IncR8(CpuReg8),
    IncR16(CpuReg16),
    DecR8(CpuReg8),
    DecR16(CpuReg16),
    IncHlMem,
    DecHlMem,
    AddAImm8,
    AddAR8(CpuReg8),
    AddHlR16(CpuReg16),
    AdcAImm8,
    AdcAR8(CpuReg8),
    AddSpE8,
    SubAImm8,
    SubAR8(CpuReg8),
    SbcAImm8,
    SbcAR8(CpuReg8),
    AndAImm8,
    AndAR8(CpuReg8),
    OrAImm8,
    OrAR8(CpuReg8),
    XorAImm8,
    XorAR8(CpuReg8),
    AluAHlMem(CpuAluOperation),
    PopR16(CpuReg16),
    PushR16(CpuReg16),
    CpAImm8,
    CpAR8(CpuReg8),
    Illegal,
    JrNzE8,
    JrZE8,
    JrNcE8,
    JrCE8,
    JrE8,
    JpNzA16,
    JpZA16,
    JpNcA16,
    JpCA16,
    JpA16,
    JpHl,
    CallA16,
    CallNzA16,
    CallZA16,
    CallNcA16,
    CallCA16,
    Rst(u16),
    DI,
    EI,
    Ret(CpuCondition),
    RetI,
    PrefixCb,
    Rlca,
    Rrca,
    Rla,
    Rra,
    Daa,
    Cpl,
    Scf,
    Ccf,
    Halt,
    Stop,
    Nop,
}

/// The register that the 3-bit field `index` names (6, which names (HL), is not a register).
pub open spec fn reg8_of(index: int) -> CpuReg8 {
    if index == 0 {
        CpuReg8::B
    } else if index == 1 {
        CpuReg8::C
    } else if index == 2 {
        CpuReg8::D
    } else if index == 3 {
        CpuReg8::E
    } else if index == 4 {
        CpuReg8::H
    } else if index == 5 {
        CpuReg8::L
    } else {
        CpuReg8::A
    }
}

/// The pair that the 2-bit field `index` names in loads, increments and `ADD HL`.
pub open spec fn reg16_of(index: int) -> CpuReg16 {
    if index == 0 {
        CpuReg16::BC
    } else if index == 1 {
        CpuReg16::DE
    } else if index == 2 {
        CpuReg16::HL
    } else {
        CpuReg16::SP
    }
}

/// The pair that the 2-bit field `index` names in `PUSH` and `POP`.
pub open spec fn stack_reg16_of(index: int) -> CpuReg16 {
    if index == 3 {
        CpuReg16::AF
    } else {
        reg16_of(index)
    }
}

/// The operation that the 3-bit field `index` names in the ALU block.
pub open spec fn alu_of(index: int) -> CpuAluOperation {
    if index == 0 {
        CpuAluOperation::Add
    } else if index == 1 {
        CpuAluOperation::Adc
    } else if index == 2 {
        CpuAluOperation::Sub
    } else if index == 3 {
        CpuAluOperation::Sbc
    } else if index == 4 {
        CpuAluOperation::And
    } else if index == 5 {
        CpuAluOperation::Xor
    } else if index == 6 {
        CpuAluOperation::Or
    } else {
        CpuAluOperation::Cp
    }
}

/// Picks one of four values by a 2-bit index.
pub open spec fn pick4<T>(index: int, v0: T, v1: T, v2: T, v3: T) -> T {
    if index == 0 {
        v0
    } else if index == 1 {
        v1
    } else if index == 2 {
        v2
    } else {
        v3
    }
}

/// `ALU A, r` for a register operand.
pub open spec fn alu_register(operation: CpuAluOperation, register: CpuReg8) -> CpuInstruction {
    match operation {
        CpuAluOperation::Add => CpuInstruction::AddAR8(register),
        CpuAluOperation::Adc => CpuInstruction::AdcAR8(register),
        CpuAluOperation::Sub => CpuInstruction::SubAR8(register),
        CpuAluOperation::Sbc => CpuInstruction::SbcAR8(register),
        CpuAluOperation::And => CpuInstruction::AndAR8(register),
        CpuAluOperation::Xor => CpuInstruction::XorAR8(register),
        CpuAluOperation::Or => CpuInstruction::OrAR8(register),
        CpuAluOperation::Cp => CpuInstruction::CpAR8(register),
    }
}

/// The 8-bit register or (HL) operand that column `col` of rows 0x0–0x3 names in row `row`.
pub open spec fn block0_r8_index(row: int, col: int) -> int {
    2 * row + (if col >= 8 { 1int } else { 0int })
}

/// Opcodes 0x00–0x3F, by row (the high nibble) and column (the low nibble).
pub open spec fn decode_block0(row: int, col: int) -> CpuInstruction {
    let idx = block0_r8_index(row, col);
    if col == 0 {
        pick4(row, CpuInstruction::Nop, CpuInstruction::Stop, CpuInstruction::JrNzE8, CpuInstruction::JrNcE8)
    } else if col == 1 {
        if row < 3 { CpuInstruction::LdR16Imm16(reg16_of(row)) } else { CpuInstruction::LdSpImm16 }
    } else if col == 2 {
        pick4(
            row,
            CpuInstruction::LdR16memA(CpuReg16::BC),
            CpuInstruction::LdR16memA(CpuReg16::DE),
            CpuInstruction::LdHlIncMemA,
            CpuInstruction::LdHlDecMemA,
        )
    } else if col == 3 {
        CpuInstruction::IncR16(reg16_of(row))
    } else if col == 4 || col == 0xC {
        if idx == 6 { CpuInstruction::IncHlMem } else { CpuInstruction::IncR8(reg8_of(idx)) }
    } else if col == 5 || col == 0xD {
        if idx == 6 { CpuInstruction::DecHlMem } else { CpuInstruction::DecR8(reg8_of(idx)) }
    } else if col == 6 || col == 0xE {
        if idx == 6 { CpuInstruction::LdHlMemImm8 } else { CpuInstruction::LdR8Imm8(reg8_of(idx)) }
    } else if col == 7 {
        pick4(row, CpuInstruction::Rlca, CpuInstruction::Rla, CpuInstruction::Daa, CpuInstruction::Scf)
    } else if col == 8 {
        pick4(row, CpuInstruction::LdAddrSp, CpuInstruction::JrE8, CpuInstruction::JrZE8, CpuInstruction::JrCE8)
    } else if col == 9 {
        CpuInstruction::AddHlR16(reg16_of(row))
    } else if col == 0xA {
        pick4(
            row,
            CpuInstruction::LdAR16mem(CpuReg16::BC),
            CpuInstruction::LdAR16mem(CpuReg16::DE),
            CpuInstruction::LdAHlIncMem,
            CpuInstruction::LdAHlDecMem,
        )
    } else if col == 0xB {
        CpuInstruction::DecR16(reg16_of(row))
    } else {
        pick4(row, CpuInstruction::Rrca, CpuInstruction::Rra, CpuInstruction::Cpl, CpuInstruction::Ccf)
    }
}

/// Opcodes 0xC0–0xFF, by row (the high nibble minus 0xC) and column.
pub open spec fn decode_block3(row: int, col: int) -> CpuInstruction {
    if col == 0 {
        pick4(
            row,
            CpuInstruction::Ret(CpuCondition::NZ),
            CpuInstruction::Ret(CpuCondition::NC),
            CpuInstruction::LdhA8A,
            CpuInstruction::LdhAA8,
        )
    } else if col == 1 {
        CpuInstruction::PopR16(stack_reg16_of(row))
    } else if col == 2 {
        pick4(row, CpuInstruction::JpNzA16, CpuInstruction::JpNcA16, CpuInstruction::LdhCA, CpuInstruction::LdhAC)
    } else if col == 3 {
        pick4(row, CpuInstruction::JpA16, CpuInstruction::Illegal, CpuInstruction::Illegal, CpuInstruction::DI)
    } else if col == 4 {
        pick4(row, CpuInstruction::CallNzA16, CpuInstruction::CallNcA16, CpuInstruction::Illegal, CpuInstruction::Illegal)
    } else if col == 5 {
        CpuInstruction::PushR16(stack_reg16_of(row))
    } else if col == 6 {
        pick4(row, CpuInstruction::AddAImm8, CpuInstruction::SubAImm8, CpuInstruction::AndAImm8, CpuInstruction::OrAImm8)
    } else if col == 7 {
        CpuInstruction::Rst((row * 16) as u16)
    } else if col == 8 {
        pick4(
            row,
            CpuInstruction::Ret(CpuCondition::Z),
            CpuInstruction::Ret(CpuCondition::C),
            CpuInstruction::AddSpE8,
            CpuInstruction::LdHlSpE8,
        )
    } else if col == 9 {
        pick4(row, CpuInstruction::Ret(CpuCondition::Always), CpuInstruction::RetI, CpuInstruction::JpHl, CpuInstruction::LdSpHl)
    } else if col == 0xA {
        pick4(row, CpuInstruction::JpZA16, CpuInstruction::JpCA16, CpuInstruction::LdAddrA, CpuInstruction::LdAAddr)
    } else if col == 0xB {
        pick4(row, CpuInstruction::PrefixCb, CpuInstruction::Illegal, CpuInstruction::Illegal, CpuInstruction::EI)
    } else if col == 0xC {
        pick4(row, CpuInstruction::CallZA16, CpuInstruction::CallCA16, CpuInstruction::Illegal, CpuInstruction::Illegal)
    } else if col == 0xD {
        pick4(row, CpuInstruction::CallA16, CpuInstruction::Illegal, CpuInstruction::Illegal, CpuInstruction::Illegal)
    } else if col == 0xE {
        pick4(row, CpuInstruction::AdcAImm8, CpuInstruction::SbcAImm8, CpuInstruction::XorAImm8, CpuInstruction::CpAImm8)
    } else {
        CpuInstruction::Rst((row * 16 + 8) as u16)
    }
}

/// The instruction that an opcode of the main map stands for.
pub open spec fn decode(opcode: u8) -> CpuInstruction {
    let op = opcode as int;
    if 0x40 <= op < 0x80 {
        let dst = (op / 8) % 8;
        let src = op % 8;
        if op == 0x76 {
            CpuInstruction::Halt
        } else if dst == 6 {
            CpuInstruction::LdHlMemR8(reg8_of(src))
        } else if src == 6 {
            CpuInstruction::LdR8HlMem(reg8_of(dst))
        } else {
            CpuInstruction::LdR8R8(reg8_of(dst), reg8_of(src))
        }
    } else if 0x80 <= op < 0xC0 {
        let src = op % 8;
        if src == 6 {
            CpuInstruction::AluAHlMem(alu_of((op / 8) % 8))
        } else {
            alu_register(alu_of((op / 8) % 8), reg8_of(src))
        }
    } else if op < 0x40 {
        decode_block0(op / 16, op % 16)
    } else {
        decode_block3(op / 16 - 12, op % 16)
    }
}

/// The 3-bit field that names `register` in an opcode (6 stands for (HL)).
pub open spec fn reg8_index(register: CpuReg8) -> int {
    match register {
        CpuReg8::B => 0,
        CpuReg8::C => 1,
        CpuReg8::D => 2,
        CpuReg8::E => 3,
        CpuReg8::H => 4,
        CpuReg8::L => 5,
        CpuReg8::A => 7,
    }
}

/// The 2-bit field that names `pair` in an opcode (AF in `PUSH`/`POP`, SP elsewhere).
pub open spec fn reg16_index(pair: CpuReg16) -> int {
    match pair {
        CpuReg16::BC => 0,
        CpuReg16::DE => 1,
        CpuReg16::HL => 2,
        CpuReg16::AF => 3,
        CpuReg16::SP => 3,
    }
}

/// The 3-bit field that names `operation` in the ALU block.
pub open spec fn alu_index(operation: CpuAluOperation) -> int {
    match operation {
        CpuAluOperation::Add => 0,
        CpuAluOperation::Adc => 1,
        CpuAluOperation::Sub => 2,
        CpuAluOperation::Sbc => 3,
        CpuAluOperation::And => 4,
        CpuAluOperation::Xor => 5,
        CpuAluOperation::Or => 6,
        CpuAluOperation::Cp => 7,
    }
}

/// The opcode at which `instruction` stands in the main map.
pub open spec fn opcode_of(instruction: CpuInstruction) -> int {
    match instruction {
        CpuInstruction::LdR8Imm8(r) => 8 * reg8_index(r) + 6,
        CpuInstruction::LdR8R8(d, r) => 0x40 + 8 * reg8_index(d) + reg8_index(r),
        CpuInstruction::LdR16Imm16(p) => 16 * reg16_index(p) + 1,
        CpuInstruction::LdR16memA(p) => 16 * reg16_index(p) + 2,
        CpuInstruction::LdAR16mem(p) => 16 * reg16_index(p) + 0xA,
        CpuInstruction::LdHlMemR8(r) => 0x70 + reg8_index(r),
        CpuInstruction::LdHlMemImm8 => 0x36,
        CpuInstruction::LdSpImm16 => 0x31,
        CpuInstruction::LdAddrA => 0xEA,
        CpuInstruction::LdAAddr => 0xFA,
        CpuInstruction::LdAddrSp => 0x08,
        CpuInstruction::LdhA8A => 0xE0,
        CpuInstruction::LdhAA8 => 0xF0,
        CpuInstruction::LdhCA => 0xE2,
        CpuInstruction::LdhAC => 0xF2,
        CpuInstruction::LdHlSpE8 => 0xF8,
        CpuInstruction::LdSpHl => 0xF9,
        CpuInstruction::LdR8HlMem(r) => 0x46 + 8 * reg8_index(r),
        CpuInstruction::LdAHlIncMem => 0x2A,
        CpuInstruction::LdAHlDecMem => 0x3A,
        CpuInstruction::LdHlIncMemA => 0x22,
        CpuInstruction::LdHlDecMemA => 0x32,
        CpuInstruction::IncR8(r) => 8 * reg8_index(r) + 4,
        CpuInstruction::IncR16(p) => 16 * reg16_index(p) + 3,
        CpuInstruction::DecR8(r) => 8 * reg8_index(r) + 5,
        CpuInstruction::DecR16(p) => 16 * reg16_index(p) + 0xB,
        CpuInstruction::IncHlMem => 0x34,
        CpuInstruction::DecHlMem => 0x35,
        CpuInstruction::AddAImm8 => 0xC6,
        CpuInstruction::AddAR8(r) => 0x80 + reg8_index(r),
        CpuInstruction::AddHlR16(p) => 16 * reg16_index(p) + 9,
        CpuInstruction::AdcAImm8 => 0xCE,
        CpuInstruction::AdcAR8(r) => 0x88 + reg8_index(r),
        CpuInstruction::AddSpE8 => 0xE8,
        CpuInstruction::SubAImm8 => 0xD6,
        CpuInstruction::SubAR8(r) => 0x90 + reg8_index(r),
        CpuInstruction::SbcAImm8 => 0xDE,
        CpuInstruction::SbcAR8(r) => 0x98 + reg8_index(r),
        CpuInstruction::AndAImm8 => 0xE6,
        CpuInstruction::AndAR8(r) => 0xA0 + reg8_index(r),
        CpuInstruction::OrAImm8 => 0xF6,
        CpuInstruction::OrAR8(r) => 0xB0 + reg8_index(r),
        CpuInstruction::XorAImm8 => 0xEE,
        CpuInstruction::XorAR8(r) => 0xA8 + reg8_index(r),
        CpuInstruction::AluAHlMem(operation) => 0x86 + 8 * alu_index(operation),
        CpuInstruction::PopR16(p) => 0xC1 + 16 * reg16_index(p),
        CpuInstruction::PushR16(p) => 0xC5 + 16 * reg16_index(p),
        CpuInstruction::CpAImm8 => 0xFE,
        CpuInstruction::CpAR8(r) => 0xB8 + reg8_index(r),
        CpuInstruction::Illegal => 0xD3,
        CpuInstruction::JrNzE8 => 0x20,
        CpuInstruction::JrZE8 => 0x28,
        CpuInstruction::JrNcE8 => 0x30,
        CpuInstruction::JrCE8 => 0x38,
        CpuInstruction::JrE8 => 0x18,
        CpuInstruction::JpNzA16 => 0xC2,
        CpuInstruction::JpZA16 => 0xCA,
        CpuInstruction::JpNcA16 => 0xD2,
        CpuInstruction::JpCA16 => 0xDA,
        CpuInstruction::JpA16 => 0xC3,
        CpuInstruction::JpHl => 0xE9,
        CpuInstruction::CallA16 => 0xCD,
        CpuInstruction::CallNzA16 => 0xC4,
        CpuInstruction::CallZA16 => 0xCC,
        CpuInstruction::CallNcA16 => 0xD4,
        CpuInstruction::CallCA16 => 0xDC,
        CpuInstruction::Rst(target) => 0xC7 + target,
        CpuInstruction::DI => 0xF3,
        CpuInstruction::EI => 0xFB,
        CpuInstruction::Ret(condition) => match condition {
            CpuCondition::NZ => 0xC0,
            CpuCondition::Z => 0xC8,
            CpuCondition::NC => 0xD0,
            CpuCondition::C => 0xD8,
            CpuCondition::Always => 0xC9,
        },
        CpuInstruction::RetI => 0xD9,
        CpuInstruction::PrefixCb => 0xCB,
        CpuInstruction::Rlca => 0x07,
        CpuInstruction::Rrca => 0x0F,
        CpuInstruction::Rla => 0x17,
        CpuInstruction::Rra => 0x1F,
        CpuInstruction::Daa => 0x27,
        CpuInstruction::Cpl => 0x2F,
        CpuInstruction::Scf => 0x37,
        CpuInstruction::Ccf => 0x3F,
        CpuInstruction::Halt => 0x76,
        CpuInstruction::Stop => 0x10,
        CpuInstruction::Nop => 0x00,
    }
}

/// The field indices name registers and operations one for one.
proof fn lemma_field_indices()
    ensures
        forall|i: int| 0 <= i < 8 && i != 6 ==> #[trigger] reg8_index(reg8_of(i)) == i,
        forall|i: int| 0 <= i < 4 ==> #[trigger] reg16_index(reg16_of(i)) == i,
        forall|i: int| 0 <= i < 4 ==> #[trigger] reg16_index(stack_reg16_of(i)) == i,
        forall|i: int| 0 <= i < 8 ==> #[trigger] alu_index(alu_of(i)) == i,
{
}

/// Every opcode of the main map but the illegal ones is where its instruction stands.
#[verifier::spinoff_prover]
#[verifier::rlimit(60)]
proof fn lemma_opcode_of_decode(op: u8)
    requires
        !(decode(op) is Illegal),
    ensures
        opcode_of(decode(op)) == op,
{
    lemma_field_indices();
    let x = op as int;
    if 0x40 <= x < 0x80 {
        let dst = (x / 8) % 8;
        let src = x % 8;
        assert(x == 0x40 + 8 * dst + src);
        if x != 0x76 && dst != 6 && src != 6 {
            assert(reg8_index(reg8_of(dst)) == dst);
            assert(reg8_index(reg8_of(src)) == src);
        } else if x != 0x76 && dst == 6 {
            assert(reg8_index(reg8_of(src)) == src);
        } else if x != 0x76 {
            assert(reg8_index(reg8_of(dst)) == dst);
        }
    } else if 0x80 <= x < 0xC0 {
        let k = (x / 8) % 8;
        let src = x % 8;
        assert(x == 0x80 + 8 * k + src);
        assert(alu_index(alu_of(k)) == k);
        if src != 6 {
            assert(reg8_index(reg8_of(src)) == src);
        }
    } else if x < 0x40 {
        let row = x / 16;
        let col = x % 16;
        assert(x == 16 * row + col);
        assert(reg16_index(reg16_of(row)) == row);
        let idx = block0_r8_index(row, col);
        if idx != 6 && (col == 4 || col == 5 || col == 6 || col == 0xC || col == 0xD || col == 0xE) {
            assert(reg8_index(reg8_of(idx)) == idx);
        }
    } else {
        let row = x / 16 - 12;
        let col = x % 16;
        assert(x == 0xC0 + 16 * row + col);
        assert(reg16_index(stack_reg16_of(row)) == row);
    }
}

/// No instruction but `Illegal` stands at two opcodes of the main map: an opcode is
/// known from the instruction it decodes to.
pub proof fn lemma_decode_injective(a: u8, b: u8)
    requires
        decode(a) == decode(b),
        !(decode(a) is Illegal),
    ensures
        a == b,
{
    lemma_opcode_of_decode(a);
    lemma_opcode_of_decode(b);
}

/// The instruction that a CB-prefixed opcode stands for.
pub open spec fn decode_cb(opcode: u8) -> CpuCbInstruction {
    let op = opcode as int;
    let operand = if op % 8 == 6 {
        CpuCbOperand::HlMem
    } else {
        CpuCbOperand::Register(reg8_of(op % 8))
    };
    let index = (op / 8) % 8;
    let operation = if op < 0x40 {
        if index == 0 {
            CpuCbOperation::Rlc
        } else if index == 1 {
            CpuCbOperation::Rrc
        } else if index == 2 {
            CpuCbOperation::Rl
        } else if index == 3 {
            CpuCbOperation::Rr
        } else if index == 4 {
            CpuCbOperation::Sla
        } else if index == 5 {
            CpuCbOperation::Sra
        } else if index == 6 {
            CpuCbOperation::Swap
        } else {
            CpuCbOperation::Srl
        }
    } else if op < 0x80 {
        CpuCbOperation::Bit(index as u8)
    } else if op < 0xC0 {
        CpuCbOperation::Res(index as u8)
    } else {
        CpuCbOperation::SetBit(index as u8)
    };
    CpuCbInstruction { operation, operand }
}

/// The CB-prefixed map as the SM83 lays it out: the low three bits pick the operand (B,
/// C, D, E, H, L, (HL), A); opcodes 0x00–0x3F are the shifts and rotates in runs of eight
/// (RLC, RRC, RL, RR, SLA, SRA, SWAP, SRL), and 0x40–0x7F, 0x80–0xBF and 0xC0–0xFF are
/// BIT, RES and SET of bit `(opcode - base) / 8`.
pub proof fn lemma_cb_map(opcode: u8)
    ensures
        ({
            let op = opcode as int;
            let i = decode_cb(opcode);
            &&& op % 8 == 0 ==> i.operand == CpuCbOperand::Register(CpuReg8::B)
            &&& op % 8 == 1 ==> i.operand == CpuCbOperand::Register(CpuReg8::C)
            &&& op % 8 == 2 ==> i.operand == CpuCbOperand::Register(CpuReg8::D)
            &&& op % 8 == 3 ==> i.operand == CpuCbOperand::Register(CpuReg8::E)
            &&& op % 8 == 4 ==> i.operand == CpuCbOperand::Register(CpuReg8::H)
            &&& op % 8 == 5 ==> i.operand == CpuCbOperand::Register(CpuReg8::L)
            &&& op % 8 == 6 ==> i.operand == CpuCbOperand::HlMem
            &&& op % 8 == 7 ==> i.operand == CpuCbOperand::Register(CpuReg8::A)
            &&& 0x00 <= op < 0x08 ==> i.operation == CpuCbOperation::Rlc
            &&& 0x08 <= op < 0x10 ==> i.operation == CpuCbOperation::Rrc
            &&& 0x10 <= op < 0x18 ==> i.operation == CpuCbOperation::Rl
            &&& 0x18 <= op < 0x20 ==> i.operation == CpuCbOperation::Rr
            &&& 0x20 <= op < 0x28 ==> i.operation == CpuCbOperation::Sla
            &&& 0x28 <= op < 0x30 ==> i.operation == CpuCbOperation::Sra
            &&& 0x30 <= op < 0x38 ==> i.operation == CpuCbOperation::Swap
            &&& 0x38 <= op < 0x40 ==> i.operation == CpuCbOperation::Srl
            &&& 0x40 <= op < 0x80 ==> i.operation == CpuCbOperation::Bit(((op - 0x40) / 8) as u8)
            &&& 0x80 <= op < 0xC0 ==> i.operation == CpuCbOperation::Res(((op - 0x80) / 8) as u8)
            &&& 0xC0 <= op ==> i.operation == CpuCbOperation::SetBit(((op - 0xC0) / 8) as u8)
        }),
{
}

impl CpuCbInstruction {
    pub fn decode(opcode: u8) -> (instruction: Self)
        ensures
            instruction == decode_cb(opcode),
    {
        let low = opcode & 0b111;
        let operation_index = (opcode >> 3) & 0b111;
        let high = opcode >> 6;
        assert(low == opcode % 8 && operation_index == (opcode / 8) % 8 && high == opcode / 64)
            by (bit_vector)
            requires
                low == opcode & 0b111,
                operation_index == (opcode >> 3) & 0b111,
                high == opcode >> 6,
        ;
        let operand = match low {
            0 => CpuCbOperand::Register(CpuReg8::B),
            1 => CpuCbOperand::Register(CpuReg8::C),
            2 => CpuCbOperand::Register(CpuReg8::D),
            3 => CpuCbOperand::Register(CpuReg8::E),
            4 => CpuCbOperand::Register(CpuReg8::H),
            5 => CpuCbOperand::Register(CpuReg8::L),
            6 => CpuCbOperand::HlMem,
            _ => CpuCbOperand::Register(CpuReg8::A),
        };
        let operation = match high {
            0 => match operation_index {
                0 => CpuCbOperation::Rlc,
                1 => CpuCbOperation::Rrc,
                2 => CpuCbOperation::Rl,
                3 => CpuCbOperation::Rr,
                4 => CpuCbOperation::Sla,
                5 => CpuCbOperation::Sra,
                6 => CpuCbOperation::Swap,
                _ => CpuCbOperation::Srl,
            },
            1 => CpuCbOperation::Bit(operation_index),
            2 => CpuCbOperation::Res(operation_index),
            _ => CpuCbOperation::SetBit(operation_index),
        };
        CpuCbInstruction { operation, operand }
    }
}

impl crate::cpu::Cpu {
/// The opcode map as a table indexed by high and low nibble.
pub fn initialize_instruction_set() -> (table: [[CpuInstruction; 16]; 16])
    ensures
        forall|row: int, col: int|
            0 <= row < 16 && 0 <= col < 16 ==> #[trigger] table[row][col] == decode((row * 16 + col) as u8),
{
        let row0: [CpuInstruction; 16] = [
            CpuInstruction::Nop,
            CpuInstruction::LdR16Imm16(CpuReg16::BC),
            CpuInstruction::LdR16memA(CpuReg16::BC),
            CpuInstruction::IncR16(CpuReg16::BC),
            CpuInstruction::IncR8(CpuReg8::B),
            CpuInstruction::DecR8(CpuReg8::B),
            CpuInstruction::LdR8Imm8(CpuReg8::B),
            CpuInstruction::Rlca,
            CpuInstruction::LdAddrSp,
            CpuInstruction::AddHlR16(CpuReg16::BC),
            CpuInstruction::LdAR16mem(CpuReg16::BC),
            CpuInstruction::DecR16(CpuReg16::BC),
            CpuInstruction::IncR8(CpuReg8::C),
            CpuInstruction::DecR8(CpuReg8::C),
            CpuInstruction::LdR8Imm8(CpuReg8::C),
            CpuInstruction::Rrca,
        ];
        let row1: [CpuInstruction; 16] = [
            CpuInstruction::Stop,
            CpuInstruction::LdR16Imm16(CpuReg16::DE),
            CpuInstruction::LdR16memA(CpuReg16::DE),
            CpuInstruction::IncR16(CpuReg16::DE),
            CpuInstruction::IncR8(CpuReg8::D),
            CpuInstruction::DecR8(CpuReg8::D),
            CpuInstruction::LdR8Imm8(CpuReg8::D),
            CpuInstruction::Rla,
            CpuInstruction::JrE8,
            CpuInstruction::AddHlR16(CpuReg16::DE),
            CpuInstruction::LdAR16mem(CpuReg16::DE),
            CpuInstruction::DecR16(CpuReg16::DE),
            CpuInstruction::IncR8(CpuReg8::E),
            CpuInstruction::DecR8(CpuReg8::E),
            CpuInstruction::LdR8Imm8(CpuReg8::E),
            CpuInstruction::Rra,
        ];
        let row2: [CpuInstruction; 16] = [
            CpuInstruction::JrNzE8,
            CpuInstruction::LdR16Imm16(CpuReg16::HL),
            CpuInstruction::LdHlIncMemA,
            CpuInstruction::IncR16(CpuReg16::HL),
            CpuInstruction::IncR8(CpuReg8::H),
            CpuInstruction::DecR8(CpuReg8::H),
            CpuInstruction::LdR8Imm8(CpuReg8::H),
            CpuInstruction::Daa,
            CpuInstruction::JrZE8,
            CpuInstruction::AddHlR16(CpuReg16::HL),
            CpuInstruction::LdAHlIncMem,
            CpuInstruction::DecR16(CpuReg16::HL),
            CpuInstruction::IncR8(CpuReg8::L),
            CpuInstruction::DecR8(CpuReg8::L),
            CpuInstruction::LdR8Imm8(CpuReg8::L),
            CpuInstruction::Cpl,
        ];
        let row3: [CpuInstruction; 16] = [
            CpuInstruction::JrNcE8,
            CpuInstruction::LdSpImm16,
            CpuInstruction::LdHlDecMemA,
            CpuInstruction::IncR16(CpuReg16::SP),
            CpuInstruction::IncHlMem,
            CpuInstruction::DecHlMem,
            CpuInstruction::LdHlMemImm8,
            CpuInstruction::Scf,
            CpuInstruction::JrCE8,
            CpuInstruction::AddHlR16(CpuReg16::SP),
            CpuInstruction::LdAHlDecMem,
            CpuInstruction::DecR16(CpuReg16::SP),
            CpuInstruction::IncR8(CpuReg8::A),
            CpuInstruction::DecR8(CpuReg8::A),
            CpuInstruction::LdR8Imm8(CpuReg8::A),
            CpuInstruction::Ccf,
        ];
        let row4: [CpuInstruction; 16] = [
            CpuInstruction::LdR8R8(CpuReg8::B, CpuReg8::B),
            CpuInstruction::LdR8R8(CpuReg8::B, CpuReg8::C),
            CpuInstruction::LdR8R8(CpuReg8::B, CpuReg8::D),
            CpuInstruction::LdR8R8(CpuReg8::B, CpuReg8::E),
            CpuInstruction::LdR8R8(CpuReg8::B, CpuReg8::H),
            CpuInstruction::LdR8R8(CpuReg8::B, CpuReg8::L),
            CpuInstruction::LdR8HlMem(CpuReg8::B),
            CpuInstruction::LdR8R8(CpuReg8::B, CpuReg8::A),
            CpuInstruction::LdR8R8(CpuReg8::C, CpuReg8::B),
            CpuInstruction::LdR8R8(CpuReg8::C, CpuReg8::C),
            CpuInstruction::LdR8R8(CpuReg8::C, CpuReg8::D),
            CpuInstruction::LdR8R8(CpuReg8::C, CpuReg8::E),
            CpuInstruction::LdR8R8(CpuReg8::C, CpuReg8::H),
            CpuInstruction::LdR8R8(CpuReg8::C, CpuReg8::L),
            CpuInstruction::LdR8HlMem(CpuReg8::C),
            CpuInstruction::LdR8R8(CpuReg8::C, CpuReg8::A),
        ];
        let row5: [CpuInstruction; 16] = [
            CpuInstruction::LdR8R8(CpuReg8::D, CpuReg8::B),
            CpuInstruction::LdR8R8(CpuReg8::D, CpuReg8::C),
            CpuInstruction::LdR8R8(CpuReg8::D, CpuReg8::D),
            CpuInstruction::LdR8R8(CpuReg8::D, CpuReg8::E),
            CpuInstruction::LdR8R8(CpuReg8::D, CpuReg8::H),
            CpuInstruction::LdR8R8(CpuReg8::D, CpuReg8::L),
            CpuInstruction::LdR8HlMem(CpuReg8::D),
            CpuInstruction::LdR8R8(CpuReg8::D, CpuReg8::A),
            CpuInstruction::LdR8R8(CpuReg8::E, CpuReg8::B),
            CpuInstruction::LdR8R8(CpuReg8::E, CpuReg8::C),
            CpuInstruction::LdR8R8(CpuReg8::E, CpuReg8::D),
            CpuInstruction::LdR8R8(CpuReg8::E, CpuReg8::E),
            CpuInstruction::LdR8R8(CpuReg8::E, CpuReg8::H),
            CpuInstruction::LdR8R8(CpuReg8::E, CpuReg8::L),
            CpuInstruction::LdR8HlMem(CpuReg8::E),
            CpuInstruction::LdR8R8(CpuReg8::E, CpuReg8::A),
        ];
        let row6: [CpuInstruction; 16] = [
            CpuInstruction::LdR8R8(CpuReg8::H, CpuReg8::B),
            CpuInstruction::LdR8R8(CpuReg8::H, CpuReg8::C),
            CpuInstruction::LdR8R8(CpuReg8::H, CpuReg8::D),
            CpuInstruction::LdR8R8(CpuReg8::H, CpuReg8::E),
            CpuInstruction::LdR8R8(CpuReg8::H, CpuReg8::H),
            CpuInstruction::LdR8R8(CpuReg8::H, CpuReg8::L),
            CpuInstruction::LdR8HlMem(CpuReg8::H),
            CpuInstruction::LdR8R8(CpuReg8::H, CpuReg8::A),
            CpuInstruction::LdR8R8(CpuReg8::L, CpuReg8::B),
            CpuInstruction::LdR8R8(CpuReg8::L, CpuReg8::C),
            CpuInstruction::LdR8R8(CpuReg8::L, CpuReg8::D),
            CpuInstruction::LdR8R8(CpuReg8::L, CpuReg8::E),
            CpuInstruction::LdR8R8(CpuReg8::L, CpuReg8::H),
            CpuInstruction::LdR8R8(CpuReg8::L, CpuReg8::L),
            CpuInstruction::LdR8HlMem(CpuReg8::L),
            CpuInstruction::LdR8R8(CpuReg8::L, CpuReg8::A),
        ];
        let row7: [CpuInstruction; 16] = [
            CpuInstruction::LdHlMemR8(CpuReg8::B),
            CpuInstruction::LdHlMemR8(CpuReg8::C),
            CpuInstruction::LdHlMemR8(CpuReg8::D),
            CpuInstruction::LdHlMemR8(CpuReg8::E),
            CpuInstruction::LdHlMemR8(CpuReg8::H),
            CpuInstruction::LdHlMemR8(CpuReg8::L),
            CpuInstruction::Halt,
            CpuInstruction::LdHlMemR8(CpuReg8::A),
            CpuInstruction::LdR8R8(CpuReg8::A, CpuReg8::B),
            CpuInstruction::LdR8R8(CpuReg8::A, CpuReg8::C),
            CpuInstruction::LdR8R8(CpuReg8::A, CpuReg8::D),
            CpuInstruction::LdR8R8(CpuReg8::A, CpuReg8::E),
            CpuInstruction::LdR8R8(CpuReg8::A, CpuReg8::H),
            CpuInstruction::LdR8R8(CpuReg8::A, CpuReg8::L),
            CpuInstruction::LdR8HlMem(CpuReg8::A),
            CpuInstruction::LdR8R8(CpuReg8::A, CpuReg8::A),
        ];
        let row8: [CpuInstruction; 16] = [
            CpuInstruction::AddAR8(CpuReg8::B),
            CpuInstruction::AddAR8(CpuReg8::C),
            CpuInstruction::AddAR8(CpuReg8::D),
            CpuInstruction::AddAR8(CpuReg8::E),
            CpuInstruction::AddAR8(CpuReg8::H),
            CpuInstruction::AddAR8(CpuReg8::L),
            CpuInstruction::AluAHlMem(CpuAluOperation::Add),
            CpuInstruction::AddAR8(CpuReg8::A),
            CpuInstruction::AdcAR8(CpuReg8::B),
            CpuInstruction::AdcAR8(CpuReg8::C),
            CpuInstruction::AdcAR8(CpuReg8::D),
            CpuInstruction::AdcAR8(CpuReg8::E),
            CpuInstruction::AdcAR8(CpuReg8::H),
            CpuInstruction::AdcAR8(CpuReg8::L),
            CpuInstruction::AluAHlMem(CpuAluOperation::Adc),
            CpuInstruction::AdcAR8(CpuReg8::A),
        ];
        let row9: [CpuInstruction; 16] = [
            CpuInstruction::SubAR8(CpuReg8::B),
            CpuInstruction::SubAR8(CpuReg8::C),
            CpuInstruction::SubAR8(CpuReg8::D),
            CpuInstruction::SubAR8(CpuReg8::E),
            CpuInstruction::SubAR8(CpuReg8::H),
            CpuInstruction::SubAR8(CpuReg8::L),
            CpuInstruction::AluAHlMem(CpuAluOperation::Sub),
            CpuInstruction::SubAR8(CpuReg8::A),
            CpuInstruction::SbcAR8(CpuReg8::B),
            CpuInstruction::SbcAR8(CpuReg8::C),
            CpuInstruction::SbcAR8(CpuReg8::D),
            CpuInstruction::SbcAR8(CpuReg8::E),
            CpuInstruction::SbcAR8(CpuReg8::H),
            CpuInstruction::SbcAR8(CpuReg8::L),
            CpuInstruction::AluAHlMem(CpuAluOperation::Sbc),
            CpuInstruction::SbcAR8(CpuReg8::A),
        ];
        let rowa: [CpuInstruction; 16] = [
            CpuInstruction::AndAR8(CpuReg8::B),
            CpuInstruction::AndAR8(CpuReg8::C),
            CpuInstruction::AndAR8(CpuReg8::D),
            CpuInstruction::AndAR8(CpuReg8::E),
            CpuInstruction::AndAR8(CpuReg8::H),
            CpuInstruction::AndAR8(CpuReg8::L),
            CpuInstruction::AluAHlMem(CpuAluOperation::And),
            CpuInstruction::AndAR8(CpuReg8::A),
            CpuInstruction::XorAR8(CpuReg8::B),
            CpuInstruction::XorAR8(CpuReg8::C),
            CpuInstruction::XorAR8(CpuReg8::D),
            CpuInstruction::XorAR8(CpuReg8::E),
            CpuInstruction::XorAR8(CpuReg8::H),
            CpuInstruction::XorAR8(CpuReg8::L),
            CpuInstruction::AluAHlMem(CpuAluOperation::Xor),
            CpuInstruction::XorAR8(CpuReg8::A),
        ];
        let rowb: [CpuInstruction; 16] = [
            CpuInstruction::OrAR8(CpuReg8::B),
            CpuInstruction::OrAR8(CpuReg8::C),
            CpuInstruction::OrAR8(CpuReg8::D),
            CpuInstruction::OrAR8(CpuReg8::E),
            CpuInstruction::OrAR8(CpuReg8::H),
            CpuInstruction::OrAR8(CpuReg8::L),
            CpuInstruction::AluAHlMem(CpuAluOperation::Or),
            CpuInstruction::OrAR8(CpuReg8::A),
            CpuInstruction::CpAR8(CpuReg8::B),
            CpuInstruction::CpAR8(CpuReg8::C),
            CpuInstruction::CpAR8(CpuReg8::D),
            CpuInstruction::CpAR8(CpuReg8::E),
            CpuInstruction::CpAR8(CpuReg8::H),
            CpuInstruction::CpAR8(CpuReg8::L),
            CpuInstruction::AluAHlMem(CpuAluOperation::Cp),
            CpuInstruction::CpAR8(CpuReg8::A),
        ];
        let rowc: [CpuInstruction; 16] = [
            CpuInstruction::Ret(CpuCondition::NZ),
            CpuInstruction::PopR16(CpuReg16::BC),
            CpuInstruction::JpNzA16,
            CpuInstruction::JpA16,
            CpuInstruction::CallNzA16,
            CpuInstruction::PushR16(CpuReg16::BC),
            CpuInstruction::AddAImm8,
            CpuInstruction::Rst(0x00),
            CpuInstruction::Ret(CpuCondition::Z),
            CpuInstruction::Ret(CpuCondition::Always),
            CpuInstruction::JpZA16,
            CpuInstruction::PrefixCb,
            CpuInstruction::CallZA16,
            CpuInstruction::CallA16,
            CpuInstruction::AdcAImm8,
            CpuInstruction::Rst(0x08),
        ];
        let rowd: [CpuInstruction; 16] = [
            CpuInstruction::Ret(CpuCondition::NC),
            CpuInstruction::PopR16(CpuReg16::DE),
            CpuInstruction::JpNcA16,
            CpuInstruction::Illegal,
            CpuInstruction::CallNcA16,
            CpuInstruction::PushR16(CpuReg16::DE),
            CpuInstruction::SubAImm8,
            CpuInstruction::Rst(0x10),
            CpuInstruction::Ret(CpuCondition::C),
            CpuInstruction::RetI,
            CpuInstruction::JpCA16,
            CpuInstruction::Illegal,
            CpuInstruction::CallCA16,
            CpuInstruction::Illegal,
            CpuInstruction::SbcAImm8,
            CpuInstruction::Rst(0x18),
        ];
        let rowe: [CpuInstruction; 16] = [
            CpuInstruction::LdhA8A,
            CpuInstruction::PopR16(CpuReg16::HL),
            CpuInstruction::LdhCA,
            CpuInstruction::Illegal,
            CpuInstruction::Illegal,
            CpuInstruction::PushR16(CpuReg16::HL),
            CpuInstruction::AndAImm8,
            CpuInstruction::Rst(0x20),
            CpuInstruction::AddSpE8,
            CpuInstruction::JpHl,
            CpuInstruction::LdAddrA,
            CpuInstruction::Illegal,
            CpuInstruction::Illegal,
            CpuInstruction::Illegal,
            CpuInstruction::XorAImm8,
            CpuInstruction::Rst(0x28),
        ];
        let rowf: [CpuInstruction; 16] = [
            CpuInstruction::LdhAA8,
            CpuInstruction::PopR16(CpuReg16::AF),
            CpuInstruction::LdhAC,
            CpuInstruction::DI,
            CpuInstruction::Illegal,
            CpuInstruction::PushR16(CpuReg16::AF),
            CpuInstruction::OrAImm8,
            CpuInstruction::Rst(0x30),
            CpuInstruction::LdHlSpE8,
            CpuInstruction::LdSpHl,
            CpuInstruction::LdAAddr,
            CpuInstruction::EI,
            CpuInstruction::Illegal,
            CpuInstruction::Illegal,
            CpuInstruction::CpAImm8,
            CpuInstruction::Rst(0x38),
        ];
        let table = [
            row0, row1, row2, row3, row4, row5, row6, row7, row8, row9, rowa, rowb, rowc, rowd, rowe, rowf,
        ];
        table
}
}

} // verus!
