//! Jumps, calls and returns: when a conditional one is taken, and where it goes.
use vstd::prelude::*;

use crate::cpu::instructions::{CpuCondition, CpuInstruction};
use crate::cpu::registers::{CpuFlagsReg, CpuRegisters};
use crate::cpu::{Cpu, CpuPhase};
use crate::memory_bus::MemoryBusView;

verus! {

/// Whether the flags let a branch be taken: the NZ forms when Z is clear, the Z forms when
/// it is set, the NC forms when C is clear, the C forms when it is set; the others always.
pub open spec fn branch_taken(instruction: CpuInstruction, f: CpuFlagsReg) -> bool {
    match instruction {
        CpuInstruction::JrNzE8 | CpuInstruction::JpNzA16 | CpuInstruction::CallNzA16 => !f.zero,
        CpuInstruction::JrZE8 | CpuInstruction::JpZA16 | CpuInstruction::CallZA16 => f.zero,
        CpuInstruction::JrNcE8 | CpuInstruction::JpNcA16 | CpuInstruction::CallNcA16 => !f.carry,
        CpuInstruction::JrCE8 | CpuInstruction::JpCA16 | CpuInstruction::CallCA16 => f.carry,
        CpuInstruction::Ret(CpuCondition::NZ) => !f.zero,
        CpuInstruction::Ret(CpuCondition::Z) => f.zero,
        CpuInstruction::Ret(CpuCondition::NC) => !f.carry,
        CpuInstruction::Ret(CpuCondition::C) => f.carry,
        _ => true,
    }
}

/// `JR e` and `JR cc, e`: the cycle after the opcode reads the offset byte and moves PC
/// past it; the jump is taken exactly when the condition holds, and then the next cycle
/// adds the offset, read as a signed byte (−128 to 127), to PC modulo 65536 and changes
/// nothing else; not taken, the instruction ends there.
#[verifier::spinoff_prover]
#[verifier::rlimit(40)]
pub proof fn lemma_relative_jump(cpu: Cpu, bus: MemoryBusView, instruction: CpuInstruction)
    requires
        instruction is JrE8 || instruction is JrNzE8 || instruction is JrZE8 || instruction is JrNcE8
            || instruction is JrCE8,
    ensures
        ({
            let before = cpu.registers;
            let raw = bus.read8(before.pc) as int;
            let offset = if raw < 128 { raw } else { raw - 256 };
            let next = cpu.spec_fetch_e8(instruction, bus);
            let pc = (before.pc + 1) % 65536;
            &&& next.registers == (CpuRegisters { pc: pc as u16, ..before })
            &&& branch_taken(instruction, before.f) ==> {
                let (last, bus_after) = next.spec_machine_cycle(bus);
                &&& next.phase is ApplyRelativeJump
                &&& bus_after == bus
                &&& last.phase == CpuPhase::FetchOpcode
                &&& last.registers == (CpuRegisters { pc: ((pc + offset) % 65536) as u16, ..before })
            }
            &&& !branch_taken(instruction, before.f) ==> next.phase == CpuPhase::FetchOpcode
        }),
{
    let raw = bus.read8(cpu.registers.pc);
    assert((raw as i8) as int == (if raw < 128 { raw as int } else { raw as int - 256 }))
        by (bit_vector);
}

/// `JP a16` and `JP cc, a16`: the cycle that reads the high byte of the address moves PC
/// past it; the jump is taken exactly when the condition holds, and then the next cycle
/// sets PC to the address (low byte first in memory) and changes nothing else.
pub proof fn lemma_absolute_jump(cpu: Cpu, bus: MemoryBusView, instruction: CpuInstruction, low: u8)
    requires
        instruction is JpA16 || instruction is JpNzA16 || instruction is JpZA16 || instruction is JpNcA16
            || instruction is JpCA16,
    ensures
        ({
            let before = cpu.registers;
            let target = low as int + 256 * bus.read8(before.pc) as int;
            let next = cpu.spec_fetch_a16_high(instruction, low, bus);
            &&& next.registers == (CpuRegisters { pc: ((before.pc + 1) % 65536) as u16, ..before })
            &&& branch_taken(instruction, before.f) ==> {
                let (last, bus_after) = next.spec_machine_cycle(bus);
                &&& next.phase is ApplyAbsoluteJump
                &&& bus_after == bus
                &&& last.phase == CpuPhase::FetchOpcode
                &&& last.registers == (CpuRegisters { pc: target as u16, ..before })
                &&& last.registers.pc == target
            }
            &&& !branch_taken(instruction, before.f) ==> next.phase == CpuPhase::FetchOpcode
        }),
{

}

/// `CALL a16` and `CALL cc, a16`: once the address is read, the call goes on to push the
/// return address (SP moves down first) exactly when the condition holds; otherwise the
/// instruction ends with PC past the address.
pub proof fn lemma_call_condition(cpu: Cpu, bus: MemoryBusView, instruction: CpuInstruction, low: u8)
    requires
        instruction is CallA16 || instruction is CallNzA16 || instruction is CallZA16
            || instruction is CallNcA16 || instruction is CallCA16,
    ensures
        ({
            let next = cpu.spec_fetch_a16_high(instruction, low, bus);
            &&& next.registers.pc == (cpu.registers.pc + 1) % 65536
            &&& branch_taken(instruction, cpu.registers.f) ==> next.phase is DecrementSpForWrite
            &&& !branch_taken(instruction, cpu.registers.f) ==> next.phase == CpuPhase::FetchOpcode
        }),
{
}

/// `RET cc`: the cycle after the opcode goes on to pop the return address exactly when the
/// condition holds, and otherwise ends the instruction; nothing else changes in it.
pub proof fn lemma_return_condition(cpu: Cpu, condition: CpuCondition)
    ensures
        ({
            let next = cpu.spec_check_return_condition(condition);
            &&& next.registers == cpu.registers
            &&& branch_taken(CpuInstruction::Ret(condition), cpu.registers.f) ==> next.phase
                is ReadSpLow
            &&& !branch_taken(CpuInstruction::Ret(condition), cpu.registers.f) ==> next.phase
                == CpuPhase::FetchOpcode
        }),
{
}

} // verus!
