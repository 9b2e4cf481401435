//! The 8-bit register loads, stated as what the opcodes copy where.
use vstd::prelude::*;

use crate::cpu::alu::operand_register;
use crate::cpu::instructions::CpuInstruction;
use crate::cpu::registers::CpuRegisters;
use crate::cpu::{Cpu, CpuPhase};
use crate::memory_bus::MemoryBusView;

verus! {

/// `LD r, r'` (opcodes 0x40–0x7F without HALT and the `(HL)` forms): in the opcode's own
/// cycle the register named by bits 5–3 takes the value of the register named by bits
/// 2–0, PC moves past the opcode, and nothing else changes (F included).
#[verifier::spinoff_prover]
#[verifier::rlimit(60)]
pub proof fn lemma_load_register_opcode(cpu: Cpu, bus: MemoryBusView)
    requires
        0x40 <= bus.read8(cpu.registers.pc) < 0x80,
        (bus.read8(cpu.registers.pc) / 8) % 8 != 6,
        bus.read8(cpu.registers.pc) % 8 != 6,
    ensures
        ({
            let op = bus.read8(cpu.registers.pc) as int;
            let before = cpu.registers;
            let after = cpu.spec_fetch_opcode(bus).registers;
            let source = before.r8(operand_register(op % 8));
            &&& cpu.spec_fetch_opcode(bus).phase == CpuPhase::FetchOpcode
            &&& after == (CpuRegisters {
                pc: ((before.pc + 1) % 65536) as u16,
                ..before.with_r8(operand_register((op / 8) % 8), source)
            })
            &&& after.r8(operand_register((op / 8) % 8)) == source
        }),
{
    let op = bus.read8(cpu.registers.pc) as int;
    assert(0 <= (op / 8) % 8 < 8);
    assert(op == 0x40 + 8 * ((op / 8) % 8) + op % 8);
}

/// `LD r, n` (opcodes 0x06 + 8 × r without `(HL)`): the opcode's cycle moves PC past it and
/// waits for the operand; the next cycle puts the byte after the opcode into the register
/// named by bits 5–3, moves PC past it and changes nothing else.
#[verifier::spinoff_prover]
#[verifier::rlimit(60)]
pub proof fn lemma_load_immediate_opcode(cpu: Cpu, bus: MemoryBusView)
    requires
        bus.read8(cpu.registers.pc) < 0x40,
        bus.read8(cpu.registers.pc) % 8 == 6,
        (bus.read8(cpu.registers.pc) / 8) % 8 != 6,
        cpu.registers.pc < 0xFFFE,
    ensures
        ({
            let op = bus.read8(cpu.registers.pc) as int;
            let before = cpu.registers;
            let first = cpu.spec_fetch_opcode(bus);
            &&& first.phase is FetchImm8
            &&& first.registers == (CpuRegisters { pc: (before.pc + 1) as u16, ..before })
            &&& ({
                let (second, bus_after) = first.spec_fetch_imm8(first.phase->FetchImm8_0, bus);
                &&& bus_after == bus
                &&& second.phase == CpuPhase::FetchOpcode
                &&& second.registers == (CpuRegisters {
                    pc: (before.pc + 2) as u16,
                    ..before.with_r8(
                        operand_register((op / 8) % 8),
                        bus.read8((before.pc + 1) as u16),
                    )
                })
            })
        }),
{
    let op = bus.read8(cpu.registers.pc) as int;
    assert(0 <= (op / 8) % 8 < 8);
    assert(op == 8 * ((op / 8) % 8) + 6);
}

/// `LDH (n), A` and `LDH A, (n)` in the cycle that reads `n`: the byte after the opcode
/// picks address 0xFF00 + n; the store writes A there and the load reads it into A; PC
/// moves past `n` and nothing else changes.
pub proof fn lemma_high_page_loads(cpu: Cpu, bus: MemoryBusView)
    ensures
        ({
            let before = cpu.registers;
            let n = bus.read8(before.pc) as int;
            let pc = ((before.pc + 1) % 65536) as u16;
            let (store, store_bus) = cpu.spec_fetch_imm8(CpuInstruction::LdhA8A, bus);
            let (load, load_bus) = cpu.spec_fetch_imm8(CpuInstruction::LdhAA8, bus);
            &&& store.registers == (CpuRegisters { pc, ..before })
            &&& store_bus == bus.write8((0xFF00 + n) as u16, before.a)
            &&& load.registers == (CpuRegisters { pc, a: bus.read8((0xFF00 + n) as u16), ..before })
            &&& load_bus == bus
            &&& store.phase == CpuPhase::FetchOpcode && load.phase == CpuPhase::FetchOpcode
        }),
{
}

/// `LD (a16), A` and `LD A, (a16)`: the cycle that reads the high byte of the address goes
/// on to the access at `low + 256 * high`, where the store writes A and the load reads
/// into A; nothing else changes.
pub proof fn lemma_absolute_loads(cpu: Cpu, bus: MemoryBusView, low: u8)
    ensures
        ({
            let before = cpu.registers;
            let addr = (low as int + 256 * bus.read8(before.pc) as int) as u16;
            let store = cpu.spec_fetch_a16_high(CpuInstruction::LdAddrA, low, bus);
            let load = cpu.spec_fetch_a16_high(CpuInstruction::LdAAddr, low, bus);
            let (stored, store_bus) = store.spec_machine_cycle(bus);
            let (loaded, load_bus) = load.spec_machine_cycle(bus);
            let pc = ((before.pc + 1) % 65536) as u16;
            &&& store_bus == bus.write8(addr, before.a)
            &&& stored.registers == (CpuRegisters { pc, ..before })
            &&& load_bus == bus
            &&& loaded.registers == (CpuRegisters { pc, a: bus.read8(addr), ..before })
            &&& stored.phase == CpuPhase::FetchOpcode && loaded.phase == CpuPhase::FetchOpcode
        }),
{
}

/// `DI` and `EI` turn the interrupt master enable off and on, and change nothing else.
pub proof fn lemma_interrupt_master_enable(cpu: Cpu)
    ensures
        cpu.spec_begin(CpuInstruction::DI) == (Cpu { ime: false, phase: CpuPhase::FetchOpcode, ..cpu }),
        cpu.spec_begin(CpuInstruction::EI) == (Cpu { ime: true, phase: CpuPhase::FetchOpcode, ..cpu }),
{
}

} // verus!
