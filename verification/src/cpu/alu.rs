//! The 8-bit arithmetic and logic block (`ADD`, `ADC`, `SUB`, `SBC`, `AND`, `XOR`, `OR`,
//! `CP` on A), stated as what the opcodes do to A and F in terms of numbers.
use vstd::prelude::*;

use crate::cpu::instructions::CpuInstruction;
use crate::cpu::registers::{CpuReg8, CpuRegisters};
use crate::cpu::{Cpu, CpuPhase};
use crate::memory_bus::MemoryBusView;

verus! {

/// The register that the low three bits of an opcode of the ALU block name:
/// B, C, D, E, H, L, (HL), A (the field 6 is the byte at HL and is not a register).
pub open spec fn operand_register(field: int) -> CpuReg8 {
    if field == 0 {
        CpuReg8::B
    } else if field == 1 {
        CpuReg8::C
    } else if field == 2 {
        CpuReg8::D
    } else if field == 3 {
        CpuReg8::E
    } else if field == 4 {
        CpuReg8::H
    } else if field == 5 {
        CpuReg8::L
    } else {
        CpuReg8::A
    }
}

/// The carry flag as the 0 or 1 that `ADC` adds and `SBC` takes away.
pub open spec fn carry_in(registers: CpuRegisters) -> int {
    if registers.f.carry {
        1
    } else {
        0
    }
}

/// A and F after the 8-bit addition `a + v + c`: A is the sum modulo 256, Z tells a zero
/// result, N is clear, H is the carry out of bit 3 and C the carry out of bit 7.
pub open spec fn holds_sum(after: CpuRegisters, a: int, v: int, c: int) -> bool {
    &&& after.a == (a + v + c) % 256
    &&& after.f.zero == ((a + v + c) % 256 == 0)
    &&& !after.f.subtract
    &&& after.f.half_carry == (a % 16 + v % 16 + c >= 16)
    &&& after.f.carry == (a + v + c >= 256)
}

/// F after the 8-bit subtraction `a - v - c`: Z tells a zero difference, N is set, H is
/// the borrow into bit 4 and C the borrow out of bit 7.
pub open spec fn holds_difference_flags(after: CpuRegisters, a: int, v: int, c: int) -> bool {
    &&& after.f.zero == ((a - v - c) % 256 == 0)
    &&& after.f.subtract
    &&& after.f.half_carry == (a % 16 < v % 16 + c)
    &&& after.f.carry == (a < v + c)
}

/// A and F after the 8-bit subtraction `a - v - c`: A is the difference modulo 256.
pub open spec fn holds_difference(after: CpuRegisters, a: int, v: int, c: int) -> bool {
    &&& after.a == (a - v - c) % 256
    &&& holds_difference_flags(after, a, v, c)
}

/// A and F after a logical operation that gave `result`: Z tells a zero result, N and C
/// are clear, and H is set for `AND` only.
pub open spec fn holds_logic(after: CpuRegisters, result: u8, half_carry: bool) -> bool {
    &&& after.a == result
    &&& after.f.zero == (result == 0)
    &&& !after.f.subtract
    &&& after.f.half_carry == half_carry
    &&& !after.f.carry
}

/// What operation `op` (bits 5–3 of the opcode: ADD, ADC, SUB, SBC, AND, XOR, OR, CP) does
/// to A and F, with operand `v`, from the registers `before` to `after`.
pub open spec fn alu_outcome(op: int, before: CpuRegisters, v: u8, after: CpuRegisters) -> bool {
    let a = before.a as int;
    let c = carry_in(before);
    if op == 0 {
        holds_sum(after, a, v as int, 0)
    } else if op == 1 {
        holds_sum(after, a, v as int, c)
    } else if op == 2 {
        holds_difference(after, a, v as int, 0)
    } else if op == 3 {
        holds_difference(after, a, v as int, c)
    } else if op == 4 {
        holds_logic(after, before.a & v, true)
    } else if op == 5 {
        holds_logic(after, before.a ^ v, false)
    } else if op == 6 {
        holds_logic(after, before.a | v, false)
    } else {
        after.a == before.a && holds_difference_flags(after, a, v as int, 0)
    }
}

/// Only A, F and PC differ between the two register files.
pub open spec fn only_a_f_pc_change(before: CpuRegisters, after: CpuRegisters) -> bool {
    after == CpuRegisters { a: after.a, f: after.f, pc: after.pc, ..before }
}

/// The ALU block with a register operand (opcodes 0x80–0xBF but the `(HL)` column): in the
/// opcode's own cycle, operation bits 5–3 combine A with the register of bits 2–0 (ADC and
/// SBC take in the carry flag as it was), the result goes to A and the flags to F (CP only
/// sets F), PC moves past the opcode and nothing else changes.
#[verifier::spinoff_prover]
#[verifier::rlimit(60)]
pub proof fn lemma_alu_register_opcode(cpu: Cpu, bus: MemoryBusView)
    requires
        0x80 <= bus.read8(cpu.registers.pc) < 0xC0,
        bus.read8(cpu.registers.pc) % 8 != 6,
    ensures
        ({
            let op = bus.read8(cpu.registers.pc) as int;
            let before = cpu.registers;
            let after = cpu.spec_fetch_opcode(bus).registers;
            &&& cpu.spec_fetch_opcode(bus).phase == CpuPhase::FetchOpcode
            &&& after.pc == (before.pc + 1) % 65536
            &&& only_a_f_pc_change(before, after)
            &&& alu_outcome((op / 8) % 8, before, before.r8(operand_register(op % 8)), after)
        }),
{
    let op = bus.read8(cpu.registers.pc) as int;
    let k = (op / 8) % 8;
    let field = op % 8;
    let fetched = cpu.after_fetch();
    let v = fetched.registers.r8(operand_register(field));
    assert(v == cpu.registers.r8(operand_register(field)));
    assert(0 <= k < 8);
    assert(fetched.registers.a & v == cpu.registers.a & v);
}

/// The ALU block with an immediate operand (opcodes 0xC6, 0xCE, …, 0xFE): the opcode's
/// cycle moves PC past it and waits for the operand; the next cycle reads the byte after
/// the opcode, combines it with A as bits 5–3 of the opcode say (as for a register
/// operand), moves PC past it and leaves the bus and the other registers as they were.
#[verifier::spinoff_prover]
#[verifier::rlimit(60)]
pub proof fn lemma_alu_immediate_opcode(cpu: Cpu, bus: MemoryBusView)
    requires
        0xC0 <= bus.read8(cpu.registers.pc),
        bus.read8(cpu.registers.pc) % 8 == 6,
        cpu.registers.pc < 0xFFFE,
    ensures
        ({
            let op = bus.read8(cpu.registers.pc) as int;
            let before = cpu.registers;
            let first = cpu.spec_fetch_opcode(bus);
            &&& first.phase is FetchImm8
            &&& first.registers == (CpuRegisters { pc: (before.pc + 1) as u16, ..before })
            &&& ({
                let (second, bus_after) = first.spec_fetch_imm8(first.phase->FetchImm8_0, bus);
                let after = second.registers;
                &&& bus_after == bus
                &&& second.phase == CpuPhase::FetchOpcode
                &&& after.pc == before.pc + 2
                &&& only_a_f_pc_change(before, after)
                &&& alu_outcome(
                    (op / 8) % 8,
                    before,
                    bus.read8((before.pc + 1) as u16),
                    after,
                )
            })
        }),
{
    let op = bus.read8(cpu.registers.pc) as int;
    let k = (op / 8) % 8;
    assert(0 <= k < 8);
    let first = cpu.spec_fetch_opcode(bus);
    let v = bus.read8((cpu.registers.pc + 1) as u16);
    assert(first.registers.a & v == cpu.registers.a & v);
    assert(first.registers.a ^ v == cpu.registers.a ^ v);
    assert(first.registers.a | v == cpu.registers.a | v);
}

/// `INC r` and `DEC r` (opcodes 0x04/0x05 + 8 × r, r naming B, C, D, E, H, L or A by bits
/// 5–3): in the opcode's own cycle the register goes one up (down) modulo 256, Z tells a
/// zero result, N is clear for `INC` and set for `DEC`, H is the carry out of bit 3 (the
/// borrow into bit 4), PC moves past the opcode, and no other register but F changes.
#[verifier::spinoff_prover]
#[verifier::rlimit(60)]
pub proof fn lemma_inc_dec_register_opcode(cpu: Cpu, bus: MemoryBusView)
    requires
        bus.read8(cpu.registers.pc) < 0x40,
        bus.read8(cpu.registers.pc) % 8 == 4 || bus.read8(cpu.registers.pc) % 8 == 5,
        (bus.read8(cpu.registers.pc) / 8) % 8 != 6,
    ensures
        ({
            let op = bus.read8(cpu.registers.pc) as int;
            let r = operand_register((op / 8) % 8);
            let before = cpu.registers;
            let after = cpu.spec_fetch_opcode(bus).registers;
            let old_value = before.r8(r) as int;
            &&& cpu.spec_fetch_opcode(bus).phase == CpuPhase::FetchOpcode
            &&& after.pc == (before.pc + 1) % 65536
            &&& after == (CpuRegisters { f: after.f, pc: after.pc, ..before.with_r8(r, after.r8(r)) })
            &&& op % 8 == 4 ==> {
                &&& after.r8(r) == (old_value + 1) % 256
                &&& after.f.zero == ((old_value + 1) % 256 == 0)
                &&& !after.f.subtract
                &&& after.f.half_carry == (old_value % 16 == 15)
            }
            &&& op % 8 == 5 ==> {
                &&& after.r8(r) == (old_value - 1) % 256
                &&& after.f.zero == (old_value == 1)
                &&& after.f.subtract
                &&& after.f.half_carry == (old_value % 16 == 0)
            }
        }),
{
    let op = bus.read8(cpu.registers.pc) as int;
    let k = (op / 8) % 8;
    assert(0 <= k < 8);
    assert(op == 8 * k + op % 8);
}

/// `ADC A, r` gives what `ADD A, r` gives plus the carry flag: with the carry clear the
/// two agree, with it set A comes out one higher (modulo 256).
pub proof fn lemma_adc_adds_the_carry(cpu: Cpu, r: CpuReg8)
    ensures
        cpu.spec_begin(CpuInstruction::AdcAR8(r)).registers.a == (cpu.spec_begin(
            CpuInstruction::AddAR8(r),
        ).registers.a + carry_in(cpu.registers)) % 256,
        !cpu.registers.f.carry ==> cpu.spec_begin(CpuInstruction::AdcAR8(r)) == cpu.spec_begin(
            CpuInstruction::AddAR8(r),
        ),
        cpu.spec_begin(CpuInstruction::SbcAR8(r)).registers.a == (cpu.spec_begin(
            CpuInstruction::SubAR8(r),
        ).registers.a - carry_in(cpu.registers)) % 256,
        !cpu.registers.f.carry ==> cpu.spec_begin(CpuInstruction::SbcAR8(r)) == cpu.spec_begin(
            CpuInstruction::SubAR8(r),
        ),
{
    let a = cpu.registers.a as int;
    let v = cpu.registers.r8(r) as int;
    let c = carry_in(cpu.registers);
    assert(cpu.spec_begin(CpuInstruction::AddAR8(r)).registers.a == (a + v) % 256);
    assert(cpu.spec_begin(CpuInstruction::AdcAR8(r)).registers.a == (a + v + c) % 256);
    assert(cpu.spec_begin(CpuInstruction::SubAR8(r)).registers.a == (a - v) % 256);
    assert(cpu.spec_begin(CpuInstruction::SbcAR8(r)).registers.a == (a - v - c) % 256);
    assert(((a + v) % 256 + c) % 256 == (a + v + c) % 256) by (nonlinear_arith)
        requires
            0 <= c <= 1,
    ;
    assert(((a - v) % 256 - c) % 256 == (a - v - c) % 256) by (nonlinear_arith)
        requires
            0 <= c <= 1,
    ;
}

} // verus!
