//! Calls and returns: a `CALL` pushes the address after it, and a `RET` pops it back.
use vstd::prelude::*;

use crate::cpu::instructions::{CpuCondition, CpuInstruction, decode};
use crate::cpu::registers::{CpuRegisters, high_byte, low_byte, word};
use crate::cpu::{Cpu, CpuPhase};
use crate::memory_bus::{
    MemoryBusView,
    is_ram_address,
    lemma_hram_read_after_write,
    lemma_memory_write_keeps_others,
    lemma_memory_write_keeps_rom,
    same_cell,
    lemma_ram_read_after_write,
};

verus! {

/// Whether the two bytes below `sp`, where a call pushes, are work RAM or high RAM.
pub open spec fn stack_has_room(sp: u16) -> bool {
    ||| 0xFF82 <= sp <= 0xFFFF
    ||| (sp >= 0xA002 && is_ram_address((sp - 2) as u16) && is_ram_address((sp - 1) as u16))
}

/// The address that the `CALL a16` at `pc` names.
pub open spec fn call_target(bus: MemoryBusView, pc: u16) -> u16 {
    word(bus.read8((pc + 2) as u16), bus.read8((pc + 1) as u16))
}

/// The two pushes of a call read back from the stack.
proof fn lemma_pushed_bytes(bus: MemoryBusView, sp: u16, high: u8, low: u8)
    requires
        bus.inv(),
        stack_has_room(sp),
    ensures
        bus.write8((sp - 1) as u16, high).write8((sp - 2) as u16, low).read8((sp - 1) as u16)
            == high,
        bus.write8((sp - 1) as u16, high).write8((sp - 2) as u16, low).read8((sp - 2) as u16)
            == low,
{
    let above = (sp - 1) as u16;
    let below = (sp - 2) as u16;
    let once = bus.write8(above, high);
    lemma_memory_write_keeps_rom(bus, above, high, 0);
    if 0xFF82 <= sp {
        lemma_hram_read_after_write(bus, above, above, high);
        lemma_hram_read_after_write(once, below, above, low);
        lemma_hram_read_after_write(once, below, below, low);
    } else {
        lemma_ram_read_after_write(bus, above, above, high);
        lemma_ram_read_after_write(once, below, above, low);
        lemma_ram_read_after_write(once, below, below, low);
    }
}

/// Running `a` machine cycles and then `b` more is running `a + b`.
pub proof fn lemma_run_cycles_split(cpu: Cpu, bus: MemoryBusView, a: nat, b: nat)
    ensures
        cpu.run_cycles(bus, a + b) == cpu.run_cycles(bus, a).0.run_cycles(cpu.run_cycles(bus, a).1, b),
    decreases a,
{
    if a > 0 {
        let (next, next_bus) = cpu.spec_machine_cycle(bus);
        lemma_run_cycles_split(next, next_bus, (a - 1) as nat, b);
        assert((a + b - 1) as nat == (a - 1) as nat + b);
    }
}

/// The opcode cycle of `CALL a16`.
proof fn lemma_call_opcode(cpu: Cpu, bus: MemoryBusView)
    requires
        cpu.phase == CpuPhase::FetchOpcode,
        cpu.registers.pc + 3 <= 0xFFFF,
        decode(bus.read8(cpu.registers.pc)) == CpuInstruction::CallA16,
    ensures
        cpu.spec_machine_cycle(bus) == (
            Cpu {
                registers: CpuRegisters { pc: (cpu.registers.pc + 1) as u16, ..cpu.registers },
                phase: CpuPhase::FetchA16Low(CpuInstruction::CallA16),
                ..cpu
            },
            bus,
        ),
{
    assert(cpu.spec_fetch_opcode(bus) == cpu.after_fetch().spec_begin(CpuInstruction::CallA16));
}

/// The two address cycles of `CALL a16`.
#[verifier::spinoff_prover]
proof fn lemma_call_address(cpu: Cpu, bus: MemoryBusView)
    requires
        cpu.phase == CpuPhase::FetchA16Low(CpuInstruction::CallA16),
        1 <= cpu.registers.pc,
        cpu.registers.pc + 2 <= 0xFFFF,
    ensures
        cpu.run_cycles(bus, 2) == (
            Cpu {
                registers: CpuRegisters { pc: (cpu.registers.pc + 2) as u16, ..cpu.registers },
                phase: CpuPhase::DecrementSpForWrite(
                    CpuInstruction::CallA16,
                    call_target(bus, (cpu.registers.pc - 1) as u16),
                ),
                ..cpu
            },
            bus,
        ),
{
    let pc = cpu.registers.pc;
    let regs = cpu.registers;
    let call = CpuInstruction::CallA16;
    let c2 = Cpu {
        registers: CpuRegisters { pc: (pc + 1) as u16, ..regs },
        phase: CpuPhase::FetchA16High(call, bus.read8(pc)),
        ..cpu
    };
    assert(cpu.spec_machine_cycle(bus) == (c2, bus));
    let c3 = Cpu {
        registers: CpuRegisters { pc: (pc + 2) as u16, ..regs },
        phase: CpuPhase::DecrementSpForWrite(call, call_target(bus, (pc - 1) as u16)),
        ..cpu
    };
    assert(c2.spec_machine_cycle(bus) == (c3, bus)) by {
        assert((pc - 1 + 2) as u16 == (pc + 1) as u16);
        assert((pc - 1 + 1) as u16 == pc);
        assert(c2.spec_fetch_a16_high(call, bus.read8(pc), bus) == c3);
    }
    assert(c3.run_cycles(bus, 0) == (c3, bus));
    assert(c2.run_cycles(bus, 1) == (c3, bus));
}

/// The first three cycles of `CALL a16`: the opcode and the two address bytes.
proof fn lemma_call_fetch(cpu: Cpu, bus: MemoryBusView)
    requires
        cpu.phase == CpuPhase::FetchOpcode,
        cpu.registers.pc + 3 <= 0xFFFF,
        decode(bus.read8(cpu.registers.pc)) == CpuInstruction::CallA16,
    ensures
        cpu.run_cycles(bus, 3) == (
            Cpu {
                registers: CpuRegisters { pc: (cpu.registers.pc + 3) as u16, ..cpu.registers },
                phase: CpuPhase::DecrementSpForWrite(
                    CpuInstruction::CallA16,
                    call_target(bus, cpu.registers.pc),
                ),
                ..cpu
            },
            bus,
        ),
{
    lemma_call_opcode(cpu, bus);
    let c1 = cpu.spec_machine_cycle(bus).0;
    lemma_call_address(c1, bus);
    assert(cpu.run_cycles(bus, 3) == c1.run_cycles(bus, 2));
}

/// The last three cycles of a call: SP moves down, the return address is pushed high
/// byte first, and the CPU jumps.
proof fn lemma_call_push(cpu: Cpu, bus: MemoryBusView, target: u16)
    requires
        cpu.phase == CpuPhase::DecrementSpForWrite(CpuInstruction::CallA16, target),
        cpu.registers.sp >= 2,
    ensures
        cpu.run_cycles(bus, 3) == (
            Cpu {
                registers: CpuRegisters {
                    pc: target,
                    sp: (cpu.registers.sp - 2) as u16,
                    ..cpu.registers
                },
                phase: CpuPhase::FetchOpcode,
                ..cpu
            },
            bus.write8((cpu.registers.sp - 1) as u16, high_byte(cpu.registers.pc)).write8(
                (cpu.registers.sp - 2) as u16,
                low_byte(cpu.registers.pc),
            ),
        ),
{
    let sp = cpu.registers.sp;
    let regs = cpu.registers;
    let call = CpuInstruction::CallA16;
    let c4 = Cpu {
        registers: CpuRegisters { sp: (sp - 1) as u16, ..regs },
        phase: CpuPhase::WriteSpMemHigh(call, target),
        ..cpu
    };
    assert(cpu.spec_machine_cycle(bus) == (c4, bus));
    let b5 = bus.write8((sp - 1) as u16, high_byte(regs.pc));
    let c5 = Cpu {
        registers: CpuRegisters { sp: (sp - 2) as u16, ..regs },
        phase: CpuPhase::WriteSpMemLow(call, target),
        ..cpu
    };
    assert(c4.spec_machine_cycle(bus) == (c5, b5));
    let b6 = b5.write8((sp - 2) as u16, low_byte(regs.pc));
    let c6 = Cpu {
        registers: CpuRegisters { pc: target, sp: (sp - 2) as u16, ..regs },
        phase: CpuPhase::FetchOpcode,
        ..cpu
    };
    assert(c5.spec_machine_cycle(b5) == (c6, b6));
    assert(c6.run_cycles(b6, 0) == (c6, b6));
    assert(c5.run_cycles(b5, 1) == (c6, b6));
    assert(c4.run_cycles(bus, 2) == (c6, b6));
}

/// The opcode cycle of `RET`.
proof fn lemma_return_opcode(cpu: Cpu, bus: MemoryBusView)
    requires
        cpu.phase == CpuPhase::FetchOpcode,
        cpu.registers.pc + 1 <= 0xFFFF,
        decode(bus.read8(cpu.registers.pc)) == CpuInstruction::Ret(CpuCondition::Always),
    ensures
        cpu.spec_machine_cycle(bus) == (
            Cpu {
                registers: CpuRegisters { pc: (cpu.registers.pc + 1) as u16, ..cpu.registers },
                phase: CpuPhase::ReadSpLow(CpuInstruction::Ret(CpuCondition::Always)),
                ..cpu
            },
            bus,
        ),
{
    assert(cpu.spec_fetch_opcode(bus) == cpu.after_fetch().spec_begin(
        CpuInstruction::Ret(CpuCondition::Always),
    ));
}

/// The four cycles of `RET`: the opcode, the two pops, and the jump.
#[verifier::spinoff_prover]
proof fn lemma_return(cpu: Cpu, bus: MemoryBusView)
    requires
        cpu.phase == CpuPhase::FetchOpcode,
        cpu.registers.pc + 1 <= 0xFFFF,
        cpu.registers.sp + 2 <= 0xFFFF,
        decode(bus.read8(cpu.registers.pc)) == CpuInstruction::Ret(CpuCondition::Always),
    ensures
        cpu.run_cycles(bus, 4) == (
            Cpu {
                registers: CpuRegisters {
                    pc: word(
                        bus.read8((cpu.registers.sp + 1) as u16),
                        bus.read8(cpu.registers.sp),
                    ),
                    sp: (cpu.registers.sp + 2) as u16,
                    ..cpu.registers
                },
                ..cpu
            },
            bus,
        ),
{
    let pc = cpu.registers.pc;
    let sp = cpu.registers.sp;
    let regs = cpu.registers;
    let ret = CpuInstruction::Ret(CpuCondition::Always);
    let low = bus.read8(sp);
    let high = bus.read8((sp + 1) as u16);
    lemma_return_opcode(cpu, bus);
    let c7 = Cpu {
        registers: CpuRegisters { pc: (pc + 1) as u16, ..regs },
        phase: CpuPhase::ReadSpLow(ret),
        ..cpu
    };
    let c8 = Cpu {
        registers: CpuRegisters { pc: (pc + 1) as u16, sp: (sp + 1) as u16, ..regs },
        phase: CpuPhase::ReadSpHigh(ret, low),
        ..cpu
    };
    assert(c7.spec_machine_cycle(bus) == (c8, bus));
    let c9 = Cpu {
        registers: CpuRegisters { pc: (pc + 1) as u16, sp: (sp + 2) as u16, ..regs },
        phase: CpuPhase::ApplyAbsoluteJump(word(high, low)),
        ..cpu
    };
    assert(c8.spec_machine_cycle(bus) == (c9, bus));
    let c10 = Cpu {
        registers: CpuRegisters { pc: word(high, low), sp: (sp + 2) as u16, ..regs },
        phase: CpuPhase::FetchOpcode,
        ..cpu
    };
    assert(c9.spec_machine_cycle(bus) == (c10, bus));
    assert(c10.run_cycles(bus, 0) == (c10, bus));
    assert(c9.run_cycles(bus, 1) == (c10, bus));
    assert(c8.run_cycles(bus, 2) == (c10, bus));
    assert(c7.run_cycles(bus, 3) == (c10, bus));
}

/// A `RET` undoes a `CALL`: the six machine cycles of `CALL a16` push the address of
/// the next instruction and jump, and the four of the `RET` found there pop that
/// address back, so the CPU goes on after the call with SP and every other register
/// as before, and the return leaves the bus as the call left it. The code may be
/// anywhere in memory, as long as neither instruction runs past 0xFFFF and the pushes
/// do not overwrite the `RET`.
#[verifier::spinoff_prover]
pub proof fn lemma_call_then_return(cpu: Cpu, bus: MemoryBusView)
    requires
        cpu.phase == CpuPhase::FetchOpcode,
        bus.inv(),
        cpu.registers.pc + 3 <= 0xFFFF,
        decode(bus.read8(cpu.registers.pc)) == CpuInstruction::CallA16,
        call_target(bus, cpu.registers.pc) + 1 <= 0xFFFF,
        decode(bus.read8(call_target(bus, cpu.registers.pc))) == CpuInstruction::Ret(
            CpuCondition::Always,
        ),
        stack_has_room(cpu.registers.sp),
        !same_cell((cpu.registers.sp - 1) as u16, call_target(bus, cpu.registers.pc)),
        !same_cell((cpu.registers.sp - 2) as u16, call_target(bus, cpu.registers.pc)),
    ensures
        ({
            let pc = cpu.registers.pc;
            let sp = cpu.registers.sp;
            let next = (pc + 3) as u16;
            let (called, pushed) = cpu.run_cycles(bus, 6);
            let (back, popped) = cpu.run_cycles(bus, 10);
            &&& called == Cpu {
                registers: CpuRegisters {
                    pc: call_target(bus, pc),
                    sp: (sp - 2) as u16,
                    ..cpu.registers
                },
                ..cpu
            }
            &&& pushed.read8((sp - 1) as u16) == high_byte(next)
            &&& pushed.read8((sp - 2) as u16) == low_byte(next)
            &&& back == Cpu { registers: CpuRegisters { pc: next, ..cpu.registers }, ..cpu }
            &&& popped == pushed
        }),
{
    let pc = cpu.registers.pc;
    let sp = cpu.registers.sp;
    let next = (pc + 3) as u16;
    let target = call_target(bus, pc);
    lemma_call_fetch(cpu, bus);
    let c3 = cpu.run_cycles(bus, 3).0;
    lemma_call_push(c3, bus, target);
    lemma_run_cycles_split(cpu, bus, 3, 3);
    let (c6, b6) = cpu.run_cycles(bus, 6);
    lemma_memory_write_keeps_others(bus, (sp - 1) as u16, high_byte(next), target);
    lemma_memory_write_keeps_others(
        bus.write8((sp - 1) as u16, high_byte(next)),
        (sp - 2) as u16,
        low_byte(next),
        target,
    );
    lemma_pushed_bytes(bus, sp, high_byte(next), low_byte(next));
    assert(c6.registers.sp + 2 == sp);
    lemma_return(c6, b6);
    lemma_run_cycles_split(cpu, bus, 6, 4);
    assert(word(high_byte(next), low_byte(next)) == next);
}

} // verus!
