//! The stack: what a `PUSH` writes, a `POP` reads back.
use vstd::prelude::*;

use crate::cpu::calls::{lemma_run_cycles_split, stack_has_room};
use crate::cpu::instructions::{CpuInstruction, decode};
use crate::cpu::registers::{CpuReg16, CpuRegisters, high_byte, lemma_flags_byte_round_trip, low_byte};
use crate::cpu::{Cpu, CpuPhase};
use crate::memory_bus::{
    MemoryBusView,
    lemma_hram_read_after_write,
    lemma_memory_write_keeps_others,
    lemma_memory_write_keeps_rom,
    lemma_ram_read_after_write,
    same_cell,
};

verus! {

/// The opcode cycle of `PUSH rr`.
proof fn lemma_push_opcode(cpu: Cpu, bus: MemoryBusView, register: CpuReg16)
    requires
        cpu.phase == CpuPhase::FetchOpcode,
        cpu.registers.pc + 1 <= 0xFFFF,
        decode(bus.read8(cpu.registers.pc)) == CpuInstruction::PushR16(register),
    ensures
        cpu.spec_machine_cycle(bus) == (
            Cpu {
                registers: CpuRegisters { pc: (cpu.registers.pc + 1) as u16, ..cpu.registers },
                phase: CpuPhase::DecrementSp(register),
                ..cpu
            },
            bus,
        ),
{
    assert(cpu.spec_fetch_opcode(bus) == cpu.after_fetch().spec_begin(
        CpuInstruction::PushR16(register),
    ));
}

/// The opcode cycle of `POP rr`.
proof fn lemma_pop_opcode(cpu: Cpu, bus: MemoryBusView, register: CpuReg16)
    requires
        cpu.phase == CpuPhase::FetchOpcode,
        cpu.registers.pc + 1 <= 0xFFFF,
        decode(bus.read8(cpu.registers.pc)) == CpuInstruction::PopR16(register),
    ensures
        cpu.spec_machine_cycle(bus) == (
            Cpu {
                registers: CpuRegisters { pc: (cpu.registers.pc + 1) as u16, ..cpu.registers },
                phase: CpuPhase::PopR16Low(register),
                ..cpu
            },
            bus,
        ),
{
    assert(cpu.spec_fetch_opcode(bus) == cpu.after_fetch().spec_begin(
        CpuInstruction::PopR16(register),
    ));
}

/// The cycle in which `PUSH` first moves SP down.
proof fn lemma_cycle_decrement_sp(cpu: Cpu, bus: MemoryBusView, register: CpuReg16)
    requires
        cpu.phase == CpuPhase::DecrementSp(register),
        cpu.registers.sp >= 1,
    ensures
        cpu.spec_machine_cycle(bus) == (
            Cpu {
                registers: CpuRegisters { sp: (cpu.registers.sp - 1) as u16, ..cpu.registers },
                phase: CpuPhase::PushR16High(register),
                ..cpu
            },
            bus,
        ),
{
}

/// The cycle in which `PUSH` writes the high byte and moves SP down.
proof fn lemma_cycle_push_high(cpu: Cpu, bus: MemoryBusView, register: CpuReg16)
    requires
        cpu.phase == CpuPhase::PushR16High(register),
        cpu.registers.sp >= 1,
    ensures
        cpu.spec_machine_cycle(bus) == (
            Cpu {
                registers: CpuRegisters { sp: (cpu.registers.sp - 1) as u16, ..cpu.registers },
                phase: CpuPhase::PushR16Low(register),
                ..cpu
            },
            bus.write8(cpu.registers.sp, high_byte(cpu.registers.r16(register))),
        ),
{
}

/// The cycle in which `PUSH` writes the low byte.
proof fn lemma_cycle_push_low(cpu: Cpu, bus: MemoryBusView, register: CpuReg16)
    requires
        cpu.phase == CpuPhase::PushR16Low(register),
    ensures
        cpu.spec_machine_cycle(bus) == (
            Cpu { phase: CpuPhase::FetchOpcode, ..cpu },
            bus.write8(cpu.registers.sp, low_byte(cpu.registers.r16(register))),
        ),
{
}

/// The cycle in which `POP` reads the low byte and moves SP up.
proof fn lemma_cycle_pop_low(cpu: Cpu, bus: MemoryBusView, register: CpuReg16)
    requires
        cpu.phase == CpuPhase::PopR16Low(register),
        cpu.registers.sp + 1 <= 0xFFFF,
    ensures
        cpu.spec_machine_cycle(bus) == (
            Cpu {
                registers: CpuRegisters {
                    sp: (cpu.registers.sp + 1) as u16,
                    ..cpu.registers
                }.with_r16_low(register, bus.read8(cpu.registers.sp)),
                phase: CpuPhase::PopR16High(register),
                ..cpu
            },
            bus,
        ),
{
}

/// The cycle in which `POP` reads the high byte and moves SP up.
proof fn lemma_cycle_pop_high(cpu: Cpu, bus: MemoryBusView, register: CpuReg16)
    requires
        cpu.phase == CpuPhase::PopR16High(register),
        cpu.registers.sp + 1 <= 0xFFFF,
    ensures
        cpu.spec_machine_cycle(bus) == (
            Cpu {
                registers: CpuRegisters {
                    sp: (cpu.registers.sp + 1) as u16,
                    ..cpu.registers
                }.with_r16_high(register, bus.read8(cpu.registers.sp)),
                phase: CpuPhase::FetchOpcode,
                ..cpu
            },
            bus,
        ),
{
}

/// The four cycles of `PUSH rr`: SP moves down, the high byte is written and SP moves
/// down again, then the low byte is written where SP stands.
#[verifier::spinoff_prover]
#[verifier::rlimit(60)]
proof fn lemma_push(cpu: Cpu, bus: MemoryBusView, register: CpuReg16)
    requires
        cpu.phase == CpuPhase::FetchOpcode,
        cpu.registers.pc + 1 <= 0xFFFF,
        cpu.registers.sp >= 2,
        register != CpuReg16::SP,
        decode(bus.read8(cpu.registers.pc)) == CpuInstruction::PushR16(register),
    ensures
        cpu.run_cycles(bus, 4) == (
            Cpu {
                registers: CpuRegisters {
                    pc: (cpu.registers.pc + 1) as u16,
                    sp: (cpu.registers.sp - 2) as u16,
                    ..cpu.registers
                },
                ..cpu
            },
            bus.write8((cpu.registers.sp - 1) as u16, high_byte(cpu.registers.r16(register))).write8(
                (cpu.registers.sp - 2) as u16,
                low_byte(cpu.registers.r16(register)),
            ),
        ),
{
    let pc = cpu.registers.pc;
    let sp = cpu.registers.sp;
    let regs = cpu.registers;
    let value = regs.r16(register);
    lemma_push_opcode(cpu, bus, register);
    let c1 = Cpu {
        registers: CpuRegisters { pc: (pc + 1) as u16, ..regs },
        phase: CpuPhase::DecrementSp(register),
        ..cpu
    };
    let c2 = Cpu {
        registers: CpuRegisters { pc: (pc + 1) as u16, sp: (sp - 1) as u16, ..regs },
        phase: CpuPhase::PushR16High(register),
        ..cpu
    };
    lemma_cycle_decrement_sp(c1, bus, register);
    let b3 = bus.write8((sp - 1) as u16, high_byte(value));
    let c3 = Cpu {
        registers: CpuRegisters { pc: (pc + 1) as u16, sp: (sp - 2) as u16, ..regs },
        phase: CpuPhase::PushR16Low(register),
        ..cpu
    };
    assert(c2.registers.r16(register) == value);
    lemma_cycle_push_high(c2, bus, register);
    let b4 = b3.write8((sp - 2) as u16, low_byte(value));
    let c4 = Cpu {
        registers: CpuRegisters { pc: (pc + 1) as u16, sp: (sp - 2) as u16, ..regs },
        phase: CpuPhase::FetchOpcode,
        ..cpu
    };
    assert(c3.registers.r16(register) == value);
    lemma_cycle_push_low(c3, b3, register);
    assert(c4.run_cycles(b4, 0) == (c4, b4));
    assert(c3.run_cycles(b3, 1) == (c4, b4));
    assert(c2.run_cycles(bus, 2) == (c4, b4));
    assert(c1.run_cycles(bus, 3) == (c4, b4));
}

/// Writing a pair's own bytes back into it leaves the registers as they were.
proof fn lemma_pair_bytes(regs: CpuRegisters, register: CpuReg16)
    requires
        register != CpuReg16::SP,
    ensures
        regs.with_r16_low(register, low_byte(regs.r16(register))).with_r16_high(
            register,
            high_byte(regs.r16(register)),
        ) == regs,
{
    lemma_flags_byte_round_trip(regs.f);
}

/// The three cycles of `POP rr`: the low byte is read at SP, SP moves up, the high byte
/// is read, SP moves up.
#[verifier::spinoff_prover]
#[verifier::rlimit(60)]
proof fn lemma_pop(cpu: Cpu, bus: MemoryBusView, register: CpuReg16)
    requires
        cpu.phase == CpuPhase::FetchOpcode,
        cpu.registers.pc + 1 <= 0xFFFF,
        cpu.registers.sp + 2 <= 0xFFFF,
        register != CpuReg16::SP,
        decode(bus.read8(cpu.registers.pc)) == CpuInstruction::PopR16(register),
    ensures
        cpu.run_cycles(bus, 3) == (
            Cpu {
                registers: CpuRegisters {
                    pc: (cpu.registers.pc + 1) as u16,
                    sp: (cpu.registers.sp + 2) as u16,
                    ..cpu.registers.with_r16_low(register, bus.read8(cpu.registers.sp)).with_r16_high(
                        register,
                        bus.read8((cpu.registers.sp + 1) as u16),
                    )
                },
                ..cpu
            },
            bus,
        ),
{
    let pc = cpu.registers.pc;
    let sp = cpu.registers.sp;
    let regs = cpu.registers;
    let low = bus.read8(sp);
    let high = bus.read8((sp + 1) as u16);
    lemma_pop_opcode(cpu, bus, register);
    let c1 = Cpu {
        registers: CpuRegisters { pc: (pc + 1) as u16, ..regs },
        phase: CpuPhase::PopR16Low(register),
        ..cpu
    };
    let r2 = CpuRegisters { pc: (pc + 1) as u16, sp: (sp + 1) as u16, ..regs }.with_r16_low(
        register,
        low,
    );
    let c2 = Cpu { registers: r2, phase: CpuPhase::PopR16High(register), ..cpu };
    lemma_cycle_pop_low(c1, bus, register);
    let r3 = CpuRegisters { sp: (sp + 2) as u16, ..r2 }.with_r16_high(register, high);
    let c3 = Cpu { registers: r3, phase: CpuPhase::FetchOpcode, ..cpu };
    lemma_cycle_pop_high(c2, bus, register);
    assert(r3 == CpuRegisters {
        pc: (pc + 1) as u16,
        sp: (sp + 2) as u16,
        ..regs.with_r16_low(register, low).with_r16_high(register, high)
    });
    assert(c3.run_cycles(bus, 0) == (c3, bus));
    assert(c2.run_cycles(bus, 1) == (c3, bus));
    assert(c1.run_cycles(bus, 2) == (c3, bus));
}

/// A `POP` undoes a `PUSH`: `PUSH rr` followed by `POP rr` writes the pair's high byte
/// below SP and its low byte below that, then reads both back into the pair, so the CPU
/// goes on after the two instructions with SP and every register as before (for `AF`
/// too, since F holds only its upper nibble). The pushes must not overwrite the `POP`.
pub proof fn lemma_push_then_pop(cpu: Cpu, bus: MemoryBusView, register: CpuReg16)
    requires
        cpu.phase == CpuPhase::FetchOpcode,
        bus.inv(),
        cpu.registers.pc + 2 <= 0xFFFF,
        decode(bus.read8(cpu.registers.pc)) == CpuInstruction::PushR16(register),
        decode(bus.read8((cpu.registers.pc + 1) as u16)) == CpuInstruction::PopR16(register),
        stack_has_room(cpu.registers.sp),
        !same_cell((cpu.registers.sp - 1) as u16, (cpu.registers.pc + 1) as u16),
        !same_cell((cpu.registers.sp - 2) as u16, (cpu.registers.pc + 1) as u16),
    ensures
        ({
            let sp = cpu.registers.sp;
            let value = cpu.registers.r16(register);
            let (pushed, stack) = cpu.run_cycles(bus, 4);
            let (back, popped) = cpu.run_cycles(bus, 7);
            &&& pushed == Cpu {
                registers: CpuRegisters {
                    pc: (cpu.registers.pc + 1) as u16,
                    sp: (sp - 2) as u16,
                    ..cpu.registers
                },
                ..cpu
            }
            &&& stack.read8((sp - 1) as u16) == high_byte(value)
            &&& stack.read8((sp - 2) as u16) == low_byte(value)
            &&& back == Cpu {
                registers: CpuRegisters { pc: (cpu.registers.pc + 2) as u16, ..cpu.registers },
                ..cpu
            }
            &&& popped == stack
        }),
{
    let pc = cpu.registers.pc;
    let sp = cpu.registers.sp;
    let value = cpu.registers.r16(register);
    let above = (sp - 1) as u16;
    let below = (sp - 2) as u16;
    assert(register != CpuReg16::SP) by {
        assert(decode(bus.read8(pc)) != CpuInstruction::PushR16(CpuReg16::SP));
    }
    lemma_push(cpu, bus, register);
    let (c4, b4) = cpu.run_cycles(bus, 4);
    let once = bus.write8(above, high_byte(value));
    lemma_memory_write_keeps_others(bus, above, high_byte(value), (pc + 1) as u16);
    lemma_memory_write_keeps_others(once, below, low_byte(value), (pc + 1) as u16);
    lemma_memory_write_keeps_rom(bus, above, high_byte(value), 0);
    if 0xFF82 <= sp {
        lemma_hram_read_after_write(bus, above, above, high_byte(value));
        lemma_hram_read_after_write(once, below, above, low_byte(value));
        lemma_hram_read_after_write(once, below, below, low_byte(value));
    } else {
        lemma_ram_read_after_write(bus, above, above, high_byte(value));
        lemma_ram_read_after_write(once, below, above, low_byte(value));
        lemma_ram_read_after_write(once, below, below, low_byte(value));
    }
    assert(c4.registers.sp + 2 == sp);
    lemma_pop(c4, b4, register);
    lemma_pair_bytes(c4.registers, register);
    lemma_run_cycles_split(cpu, bus, 4, 3);
}

} // verus!
