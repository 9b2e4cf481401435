//! What each machine cycle of the CPU does to the CPU and the bus.
use vstd::prelude::*;

use crate::cpu::cpu_arithmetic::{add16, add8, logic_flags, sub16, sub8};
use crate::cpu::instructions::{CpuCondition, CpuInstruction, decode};
use crate::cpu::registers::{
    CpuFlagsReg, CpuReg16, CpuReg8, CpuRegisters, high_byte, low_byte, word,
};
use crate::cpu::{Cpu, CpuPhase};
use crate::memory_bus::MemoryBusView;

verus! {

/// A value truncated to 16 bits, as wrapping arithmetic gives it.
pub open spec fn wrap16(value: int) -> u16 {
    (value % 65536) as u16
}

/// The flags of a 16-bit operation as they reach F: Z is not affected and keeps its value
/// from `before`; N, H and C come from the operation.
pub open spec fn keep_zero(flags: CpuFlagsReg, before: CpuFlagsReg) -> CpuFlagsReg {
    CpuFlagsReg { zero: before.zero, ..flags }
}

/// Whether a branch condition holds for the flags.
pub open spec fn condition_met(condition: CpuCondition, flags: CpuFlagsReg) -> bool {
    match condition {
        CpuCondition::NZ => !flags.zero,
        CpuCondition::Z => flags.zero,
        CpuCondition::NC => !flags.carry,
        CpuCondition::C => flags.carry,
        CpuCondition::Always => true,
    }
}

/// The instructions that the CPU executes; the others (HALT, STOP, the rotates, DAA,
/// the CB prefix, `(HL)` arithmetic and a few loads) stop the emulation.
pub open spec fn supported(instruction: CpuInstruction) -> bool {
    match instruction {
        CpuInstruction::LdAddrSp | CpuInstruction::LdhCA | CpuInstruction::LdhAC
        | CpuInstruction::LdHlSpE8 | CpuInstruction::LdSpHl | CpuInstruction::LdR8HlMem(_)
        | CpuInstruction::IncHlMem | CpuInstruction::DecHlMem | CpuInstruction::AluAHlMem(_)
        | CpuInstruction::Illegal | CpuInstruction::PrefixCb | CpuInstruction::Rlca
        | CpuInstruction::Rrca | CpuInstruction::Rla | CpuInstruction::Rra | CpuInstruction::Daa
        | CpuInstruction::Cpl | CpuInstruction::Scf | CpuInstruction::Ccf | CpuInstruction::Halt
        | CpuInstruction::Stop => false,
        _ => true,
    }
}

/// The instructions that take an 8-bit immediate operand.
pub open spec fn takes_imm8(instruction: CpuInstruction) -> bool {
    match instruction {
        CpuInstruction::LdR8Imm8(_) | CpuInstruction::AddAImm8 | CpuInstruction::SubAImm8
        | CpuInstruction::AdcAImm8 | CpuInstruction::SbcAImm8 | CpuInstruction::AndAImm8
        | CpuInstruction::OrAImm8 | CpuInstruction::XorAImm8 | CpuInstruction::CpAImm8
        | CpuInstruction::LdHlMemImm8 | CpuInstruction::LdhA8A | CpuInstruction::LdhAA8
        | CpuInstruction::LdhAC | CpuInstruction::LdhCA => true,
        _ => false,
    }
}

/// The instructions that take a 16-bit immediate operand into a register.
pub open spec fn takes_imm16(instruction: CpuInstruction) -> bool {
    instruction is LdR16Imm16 || instruction is LdSpImm16
}

/// The address that the register-pair cycle of an instruction reads or writes, if any.
pub open spec fn r16_cycle_address(instruction: CpuInstruction, regs: CpuRegisters) -> Option<u16> {
    match instruction {
        CpuInstruction::LdAR16mem(src) => Some(regs.r16(src)),
        CpuInstruction::LdR16memA(dest) => Some(regs.r16(dest)),
        CpuInstruction::LdHlMemR8(_) | CpuInstruction::LdAHlIncMem | CpuInstruction::LdAHlDecMem
        | CpuInstruction::LdHlIncMemA | CpuInstruction::LdHlDecMemA => Some(
            regs.r16(CpuReg16::HL),
        ),
        _ => None,
    }
}

/// The instructions that spend their second cycle on a register pair.
pub open spec fn uses_r16_cycle(instruction: CpuInstruction) -> bool {
    match instruction {
        CpuInstruction::AddHlR16(_) | CpuInstruction::LdAR16mem(_)
        | CpuInstruction::LdR16memA(_) | CpuInstruction::LdHlMemR8(_)
        | CpuInstruction::LdHlMemImm8 | CpuInstruction::LdAHlIncMem
        | CpuInstruction::LdAHlDecMem | CpuInstruction::LdHlIncMemA
        | CpuInstruction::LdHlDecMemA => true,
        _ => false,
    }
}

/// The instructions that take a signed 8-bit operand.
pub open spec fn takes_e8(instruction: CpuInstruction) -> bool {
    match instruction {
        CpuInstruction::JrNzE8 | CpuInstruction::JrZE8 | CpuInstruction::JrNcE8
        | CpuInstruction::JrCE8 | CpuInstruction::JrE8 | CpuInstruction::AddSpE8 => true,
        _ => false,
    }
}

/// The calls (including `RST`), which push the return address.
pub open spec fn is_call(instruction: CpuInstruction) -> bool {
    match instruction {
        CpuInstruction::CallA16 | CpuInstruction::CallNzA16 | CpuInstruction::CallZA16
        | CpuInstruction::CallNcA16 | CpuInstruction::CallCA16 | CpuInstruction::Rst(_) => true,
        _ => false,
    }
}

/// The instructions that take a 16-bit address operand.
pub open spec fn takes_a16(instruction: CpuInstruction) -> bool {
    match instruction {
        CpuInstruction::JpNzA16 | CpuInstruction::JpZA16 | CpuInstruction::JpNcA16
        | CpuInstruction::JpCA16 | CpuInstruction::JpA16 | CpuInstruction::CallA16
        | CpuInstruction::CallNzA16 | CpuInstruction::CallZA16 | CpuInstruction::CallNcA16
        | CpuInstruction::CallCA16 | CpuInstruction::LdAAddr | CpuInstruction::LdAddrA => true,
        _ => false,
    }
}

/// The instructions that access memory at an absolute address.
pub open spec fn accesses_a16(instruction: CpuInstruction) -> bool {
    instruction is LdAAddr || instruction is LdAddrA
}

/// The returns.
pub open spec fn is_return(instruction: CpuInstruction) -> bool {
    instruction is Ret || instruction is RetI
}

/// The phases in which the instruction in progress is one that the phase handles.
pub open spec fn phase_wf(phase: CpuPhase) -> bool {
    match phase {
        CpuPhase::FetchImm8(i) => takes_imm8(i),
        CpuPhase::FetchImm16Low(i) => takes_imm16(i),
        CpuPhase::FetchImm16High(i) => takes_imm16(i),
        CpuPhase::FetchR16(i) => uses_r16_cycle(i),
        CpuPhase::FetchE8(i) => takes_e8(i),
        CpuPhase::FetchA16Low(i) => takes_a16(i),
        CpuPhase::FetchA16High(i, _) => takes_a16(i),
        CpuPhase::FetchA16Mem(i, _) => accesses_a16(i),
        CpuPhase::FetchR8(i) => i is LdhCA || i is LdhAC,
        CpuPhase::DecrementSpForWrite(i, _) => is_call(i),
        CpuPhase::WriteSpMemHigh(i, _) => is_call(i),
        CpuPhase::WriteSpMemLow(i, _) => is_call(i),
        CpuPhase::ReadSpLow(i) => is_return(i),
        CpuPhase::ReadSpHigh(i, _) => is_return(i),
        _ => true,
    }
}

impl Cpu {
    /// The CPU with other registers.
    pub open spec fn with_registers(self, registers: CpuRegisters) -> Cpu {
        Cpu { registers, ..self }
    }

    /// The CPU in another phase.
    pub open spec fn in_phase(self, phase: CpuPhase) -> Cpu {
        Cpu { phase, ..self }
    }

    /// The CPU with PC moved past a byte it has fetched.
    pub open spec fn after_fetch(self) -> Cpu {
        self.with_registers(
            CpuRegisters { pc: wrap16(self.registers.pc + 1), ..self.registers },
        )
    }

    /// The CPU with SP changed.
    pub open spec fn with_sp(self, sp: int) -> Cpu {
        self.with_registers(CpuRegisters { sp: sp as u16, ..self.registers })
    }

    /// The CPU after an 8-bit ALU result went to A and its flags to F.
    pub open spec fn with_a_and_flags(self, result: (u8, CpuFlagsReg)) -> Cpu {
        self.with_registers(CpuRegisters { a: result.0, f: result.1, ..self.registers })
    }

    /// The CPU after a comparison set F.
    pub open spec fn with_flags(self, flags: CpuFlagsReg) -> Cpu {
        self.with_registers(CpuRegisters { f: flags, ..self.registers })
    }

    /// The first cycle of an instruction: the opcode is read at PC, PC moves on, and the
    /// instruction either completes at once or sets the phase of its next cycle.
    pub open spec fn spec_fetch_opcode(self, bus: MemoryBusView) -> Cpu {
        self.after_fetch().spec_begin(decode(bus.read8(self.registers.pc)))
    }

    /// What the first cycle does once the opcode has been fetched and decoded.
    pub open spec fn spec_begin(self, instruction: CpuInstruction) -> Cpu {
        let c = self;
        let regs = c.registers;
        match instruction {
            CpuInstruction::LdR8R8(dest, src) => c.with_registers(
                regs.with_r8(dest, regs.r8(src)),
            ).in_phase(CpuPhase::FetchOpcode),
            CpuInstruction::AddAR8(r) => c.with_a_and_flags(add8(regs.a, regs.r8(r), false)).in_phase(
                CpuPhase::FetchOpcode,
            ),
            CpuInstruction::AdcAR8(r) => c.with_a_and_flags(
                add8(regs.a, regs.r8(r), regs.f.carry),
            ).in_phase(CpuPhase::FetchOpcode),
            CpuInstruction::SubAR8(r) => c.with_a_and_flags(sub8(regs.a, regs.r8(r), false)).in_phase(
                CpuPhase::FetchOpcode,
            ),
            CpuInstruction::SbcAR8(r) => c.with_a_and_flags(
                sub8(regs.a, regs.r8(r), regs.f.carry),
            ).in_phase(CpuPhase::FetchOpcode),
            CpuInstruction::AndAR8(r) => c.with_a_and_flags(
                (regs.a & regs.r8(r), logic_flags(regs.a & regs.r8(r), true)),
            ).in_phase(CpuPhase::FetchOpcode),
            CpuInstruction::OrAR8(r) => c.with_a_and_flags(
                (regs.a | regs.r8(r), logic_flags(regs.a | regs.r8(r), false)),
            ).in_phase(CpuPhase::FetchOpcode),
            CpuInstruction::XorAR8(r) => c.with_a_and_flags(
                (regs.a ^ regs.r8(r), logic_flags(regs.a ^ regs.r8(r), false)),
            ).in_phase(CpuPhase::FetchOpcode),
            CpuInstruction::CpAR8(r) => c.with_flags(sub8(regs.a, regs.r8(r), false).1).in_phase(
                CpuPhase::FetchOpcode,
            ),
            CpuInstruction::JpHl => c.with_registers(
                CpuRegisters { pc: regs.r16(CpuReg16::HL), ..regs },
            ).in_phase(CpuPhase::FetchOpcode),
            CpuInstruction::Nop => c.in_phase(CpuPhase::FetchOpcode),
            CpuInstruction::DI => Cpu { ime: false, ..c }.in_phase(CpuPhase::FetchOpcode),
            CpuInstruction::EI => Cpu { ime: true, ..c }.in_phase(CpuPhase::FetchOpcode),
            CpuInstruction::Ret(cond) => if cond == CpuCondition::Always {
                c.in_phase(CpuPhase::ReadSpLow(CpuInstruction::Ret(cond)))
            } else {
                c.in_phase(CpuPhase::CheckRetCondition(cond))
            },
            CpuInstruction::RetI => c.in_phase(CpuPhase::ReadSpLow(CpuInstruction::RetI)),
            CpuInstruction::DecR16(r) => c.in_phase(CpuPhase::DecrementR16(r)),
            CpuInstruction::IncR16(r) => c.in_phase(CpuPhase::IncrementR16(r)),
            CpuInstruction::DecR8(r) => {
                let (result, flags) = sub8(regs.r8(r), 1, false);
                c.with_registers(CpuRegisters { f: flags, ..regs.with_r8(r, result) }).in_phase(
                    CpuPhase::FetchOpcode,
                )
            },
            CpuInstruction::IncR8(r) => {
                let (result, flags) = add8(regs.r8(r), 1, false);
                c.with_registers(CpuRegisters { f: flags, ..regs.with_r8(r, result) }).in_phase(
                    CpuPhase::FetchOpcode,
                )
            },
            CpuInstruction::PushR16(r) => c.in_phase(CpuPhase::DecrementSp(r)),
            CpuInstruction::PopR16(r) => c.in_phase(CpuPhase::PopR16Low(r)),
            CpuInstruction::Rst(addr) => c.in_phase(
                CpuPhase::DecrementSpForWrite(CpuInstruction::Rst(addr), addr),
            ),
            i => if uses_r16_cycle(i) {
                c.in_phase(CpuPhase::FetchR16(i))
            } else if takes_imm8(i) {
                c.in_phase(CpuPhase::FetchImm8(i))
            } else if takes_imm16(i) {
                c.in_phase(CpuPhase::FetchImm16Low(i))
            } else if takes_e8(i) {
                c.in_phase(CpuPhase::FetchE8(i))
            } else {
                c.in_phase(CpuPhase::FetchA16Low(i))
            },
        }
    }

    /// The cycle that reads an 8-bit immediate and completes the instruction
    /// (`LDH A, (C)`/`LDH (C), A` move on to their own cycle without reading).
    pub open spec fn spec_fetch_imm8(self, instruction: CpuInstruction, bus: MemoryBusView) -> (
        Cpu,
        MemoryBusView,
    ) {
        let value = bus.read8(self.registers.pc);
        let c = self.after_fetch().in_phase(CpuPhase::FetchOpcode);
        let regs = c.registers;
        match instruction {
            CpuInstruction::LdR8Imm8(r) => (c.with_registers(regs.with_r8(r, value)), bus),
            CpuInstruction::AddAImm8 => (c.with_a_and_flags(add8(regs.a, value, false)), bus),
            CpuInstruction::AdcAImm8 => (c.with_a_and_flags(add8(regs.a, value, regs.f.carry)), bus),
            CpuInstruction::SubAImm8 => (c.with_a_and_flags(sub8(regs.a, value, false)), bus),
            CpuInstruction::SbcAImm8 => (c.with_a_and_flags(sub8(regs.a, value, regs.f.carry)), bus),
            CpuInstruction::AndAImm8 => (
                c.with_a_and_flags((regs.a & value, logic_flags(regs.a & value, true))),
                bus,
            ),
            CpuInstruction::OrAImm8 => (
                c.with_a_and_flags((regs.a | value, logic_flags(regs.a | value, false))),
                bus,
            ),
            CpuInstruction::XorAImm8 => (
                c.with_a_and_flags((regs.a ^ value, logic_flags(regs.a ^ value, false))),
                bus,
            ),
            CpuInstruction::CpAImm8 => (c.with_flags(sub8(regs.a, value, false).1), bus),
            CpuInstruction::LdHlMemImm8 => (c, bus.write8(self.registers.r16(CpuReg16::HL), value)),
            CpuInstruction::LdhA8A => (c, bus.write8((0xFF00 + value) as u16, regs.a)),
            CpuInstruction::LdhAA8 => (
                c.with_registers(CpuRegisters { a: bus.read8((0xFF00 + value) as u16), ..regs }),
                bus,
            ),
            _ => (self.in_phase(CpuPhase::FetchR8(instruction)), bus),
        }
    }

    /// `LDH (C), A` and `LDH A, (C)`: the access at 0xFF00 + C.
    pub open spec fn spec_fetch_r8(self, instruction: CpuInstruction, bus: MemoryBusView) -> (
        Cpu,
        MemoryBusView,
    ) {
        let regs = self.registers;
        let addr = (0xFF00 + regs.c) as u16;
        let c = self.in_phase(CpuPhase::FetchOpcode);
        if instruction is LdhCA {
            (c, bus.write8(addr, regs.a))
        } else {
            (c.with_registers(CpuRegisters { a: bus.read8(addr), ..regs }), bus)
        }
    }

    /// The cycle that reads the low byte of a 16-bit immediate into the register.
    pub open spec fn spec_fetch_imm16_low(self, instruction: CpuInstruction, bus: MemoryBusView) -> Cpu {
        let low = bus.read8(self.registers.pc);
        let c = self.after_fetch().in_phase(CpuPhase::FetchImm16High(instruction));
        match instruction {
            CpuInstruction::LdR16Imm16(r) => c.with_registers(c.registers.with_r16_low(r, low)),
            _ => c.with_sp(low as int),
        }
    }

    /// The cycle that reads the high byte of a 16-bit immediate into the register.
    pub open spec fn spec_fetch_imm16_high(self, instruction: CpuInstruction, bus: MemoryBusView) -> Cpu {
        let high = bus.read8(self.registers.pc);
        let c = self.after_fetch().in_phase(CpuPhase::FetchOpcode);
        match instruction {
            CpuInstruction::LdR16Imm16(r) => c.with_registers(c.registers.with_r16_high(r, high)),
            _ => c.with_sp((c.registers.sp | ((high as u16) << 8u16)) as int),
        }
    }

    /// The second cycle of the instructions that work through a register pair.
    pub open spec fn spec_fetch_r16(self, instruction: CpuInstruction, bus: MemoryBusView) -> (
        Cpu,
        MemoryBusView,
    ) {
        let regs = self.registers;
        let hl = regs.r16(CpuReg16::HL);
        let c = self.in_phase(CpuPhase::FetchOpcode);
        match instruction {
            CpuInstruction::AddHlR16(src) => {
                let (result, flags) = add16(hl, regs.r16(src), false);
                (
                    c.with_registers(
                        CpuRegisters {
                            f: keep_zero(flags, regs.f),
                            ..regs.with_r16(CpuReg16::HL, result)
                        },
                    ),
                    bus,
                )
            },
            CpuInstruction::LdAR16mem(src) => (
                c.with_registers(CpuRegisters { a: bus.read8(regs.r16(src)), ..regs }),
                bus,
            ),
            CpuInstruction::LdR16memA(dest) => (c, bus.write8(regs.r16(dest), regs.a)),
            CpuInstruction::LdHlMemR8(src) => (c, bus.write8(hl, regs.r8(src))),
            CpuInstruction::LdAHlIncMem => (
                c.with_registers(
                    CpuRegisters { a: bus.read8(hl), ..regs }.with_r16(CpuReg16::HL, wrap16(hl + 1)),
                ),
                bus,
            ),
            CpuInstruction::LdAHlDecMem => (
                c.with_registers(
                    CpuRegisters { a: bus.read8(hl), ..regs }.with_r16(CpuReg16::HL, wrap16(hl - 1)),
                ),
                bus,
            ),
            CpuInstruction::LdHlIncMemA => (
                c.with_registers(regs.with_r16(CpuReg16::HL, wrap16(hl + 1))),
                bus.write8(hl, regs.a),
            ),
            CpuInstruction::LdHlDecMemA => (
                c.with_registers(regs.with_r16(CpuReg16::HL, wrap16(hl - 1))),
                bus.write8(hl, regs.a),
            ),
            _ => (self.in_phase(CpuPhase::FetchImm8(instruction)), bus),
        }
    }

    /// The cycle that reads a signed offset: `ADD SP, e8` moves on to the addition; a
    /// relative jump is taken or not by its condition.
    pub open spec fn spec_fetch_e8(self, instruction: CpuInstruction, bus: MemoryBusView) -> Cpu {
        let raw = bus.read8(self.registers.pc);
        let c = self.after_fetch();
        let flags = self.registers.f;
        if instruction is AddSpE8 {
            c.in_phase(CpuPhase::AddSpE8Low(raw))
        } else {
            let jump = match instruction {
                CpuInstruction::JrNzE8 => !flags.zero,
                CpuInstruction::JrZE8 => flags.zero,
                CpuInstruction::JrNcE8 => !flags.carry,
                CpuInstruction::JrCE8 => flags.carry,
                _ => true,
            };
            if jump {
                c.in_phase(CpuPhase::ApplyRelativeJump(raw as i8))
            } else {
                c.in_phase(CpuPhase::FetchOpcode)
            }
        }
    }

    /// `ADD SP, e8`, low half: the low byte of SP plus the raw offset sets H and C
    /// (as an unsigned addition) and clears Z and N.
    pub open spec fn spec_add_sp_e8_low(self, raw_offset: u8) -> Cpu {
        let (result_low, flags) = add8(low_byte(self.registers.sp), raw_offset, false);
        let adjustment: u8 = if raw_offset >= 0x80 { 0xFF } else { 0x00 };
        self.with_flags(
            CpuFlagsReg {
                zero: false,
                subtract: false,
                half_carry: flags.half_carry,
                carry: flags.carry,
            },
        ).in_phase(CpuPhase::AddSpE8High(result_low, adjustment))
    }

    /// `ADD SP, e8`, high half: the high byte of SP plus the sign extension and the carry.
    pub open spec fn spec_add_sp_e8_high(self, result_low: u8, adjustment: u8) -> Cpu {
        let carry: int = if self.registers.f.carry { 1 } else { 0 };
        let result_high = ((high_byte(self.registers.sp) + adjustment + carry) % 256) as u8;
        self.with_sp(word(result_high, result_low) as int).in_phase(CpuPhase::FetchOpcode)
    }

    /// The cycle that reads the low byte of an address.
    pub open spec fn spec_fetch_a16_low(self, instruction: CpuInstruction, bus: MemoryBusView) -> Cpu {
        self.after_fetch().in_phase(
            CpuPhase::FetchA16High(instruction, bus.read8(self.registers.pc)),
        )
    }

    /// The cycle that reads the high byte of an address and decides: a jump or call is
    /// taken or not by its condition; a load goes on to the memory access.
    pub open spec fn spec_fetch_a16_high(
        self,
        instruction: CpuInstruction,
        low: u8,
        bus: MemoryBusView,
    ) -> Cpu {
        let addr = word(bus.read8(self.registers.pc), low);
        let c = self.after_fetch();
        let flags = self.registers.f;
        match instruction {
            CpuInstruction::JpNzA16 | CpuInstruction::JpZA16 | CpuInstruction::JpNcA16
            | CpuInstruction::JpCA16 | CpuInstruction::JpA16 => {
                let jump = match instruction {
                    CpuInstruction::JpNzA16 => !flags.zero,
                    CpuInstruction::JpZA16 => flags.zero,
                    CpuInstruction::JpNcA16 => !flags.carry,
                    CpuInstruction::JpCA16 => flags.carry,
                    _ => true,
                };
                if jump {
                    c.in_phase(CpuPhase::ApplyAbsoluteJump(addr))
                } else {
                    c.in_phase(CpuPhase::FetchOpcode)
                }
            },
            CpuInstruction::LdAAddr | CpuInstruction::LdAddrA => c.in_phase(
                CpuPhase::FetchA16Mem(instruction, addr),
            ),
            _ => {
                let call = match instruction {
                    CpuInstruction::CallNzA16 => !flags.zero,
                    CpuInstruction::CallZA16 => flags.zero,
                    CpuInstruction::CallNcA16 => !flags.carry,
                    CpuInstruction::CallCA16 => flags.carry,
                    _ => true,
                };
                if call {
                    c.in_phase(CpuPhase::DecrementSpForWrite(instruction, addr))
                } else {
                    c.in_phase(CpuPhase::FetchOpcode)
                }
            },
        }
    }

    /// The memory access of `LD A, (a16)` and `LD (a16), A`.
    pub open spec fn spec_fetch_a16_mem(
        self,
        instruction: CpuInstruction,
        addr: u16,
        bus: MemoryBusView,
    ) -> (Cpu, MemoryBusView) {
        let c = self.in_phase(CpuPhase::FetchOpcode);
        if instruction is LdAAddr {
            (c.with_registers(CpuRegisters { a: bus.read8(addr), ..self.registers }), bus)
        } else {
            (c, bus.write8(addr, self.registers.a))
        }
    }

    /// A conditional return checks its condition in a cycle of its own.
    pub open spec fn spec_check_return_condition(self, condition: CpuCondition) -> Cpu {
        if condition_met(condition, self.registers.f) {
            self.in_phase(CpuPhase::ReadSpLow(CpuInstruction::Ret(condition)))
        } else {
            self.in_phase(CpuPhase::FetchOpcode)
        }
    }

    /// A call's first stack cycle: SP moves down.
    pub open spec fn spec_decrement_sp_for_write(self, instruction: CpuInstruction, addr: u16) -> Cpu {
        self.with_sp(self.registers.sp - 1).in_phase(CpuPhase::WriteSpMemHigh(instruction, addr))
    }

    /// A call writes the high byte of the return address at SP, and SP moves down.
    pub open spec fn spec_write_sp_high(
        self,
        instruction: CpuInstruction,
        addr: u16,
        bus: MemoryBusView,
    ) -> (Cpu, MemoryBusView) {
        (
            self.with_sp(self.registers.sp - 1).in_phase(CpuPhase::WriteSpMemLow(instruction, addr)),
            bus.write8(self.registers.sp, high_byte(self.registers.pc)),
        )
    }

    /// A call writes the low byte of the return address at SP and jumps.
    pub open spec fn spec_write_sp_low(
        self,
        instruction: CpuInstruction,
        addr: u16,
        bus: MemoryBusView,
    ) -> (Cpu, MemoryBusView) {
        (
            self.with_registers(CpuRegisters { pc: addr, ..self.registers }).in_phase(
                CpuPhase::FetchOpcode,
            ),
            bus.write8(self.registers.sp, low_byte(self.registers.pc)),
        )
    }

    /// A return reads the low byte of the return address at SP, and SP moves up.
    pub open spec fn spec_read_sp_low(self, instruction: CpuInstruction, bus: MemoryBusView) -> Cpu {
        self.with_sp(self.registers.sp + 1).in_phase(
            CpuPhase::ReadSpHigh(instruction, bus.read8(self.registers.sp)),
        )
    }

    /// A return reads the high byte at SP, SP moves up, and the jump is set up
    /// (enabling interrupts for `RETI`).
    pub open spec fn spec_read_sp_high(self, instruction: CpuInstruction, low: u8, bus: MemoryBusView) -> Cpu {
        let addr = word(bus.read8(self.registers.sp), low);
        let c = self.with_sp(self.registers.sp + 1);
        if instruction is RetI {
            c.in_phase(CpuPhase::ApplyAbsoluteJumpEnableInterrupts(addr))
        } else {
            c.in_phase(CpuPhase::ApplyAbsoluteJump(addr))
        }
    }

    /// `PUSH`: SP moves down.
    pub open spec fn spec_decrement_sp(self, register: CpuReg16) -> Cpu {
        self.with_sp(self.registers.sp - 1).in_phase(CpuPhase::PushR16High(register))
    }

    /// `PUSH`: the high byte of the pair is written at SP, and SP moves down.
    pub open spec fn spec_push_r16_high(self, register: CpuReg16, bus: MemoryBusView) -> (
        Cpu,
        MemoryBusView,
    ) {
        (
            self.with_sp(self.registers.sp - 1).in_phase(CpuPhase::PushR16Low(register)),
            bus.write8(self.registers.sp, high_byte(self.registers.r16(register))),
        )
    }

    /// `PUSH`: the low byte of the pair is written at SP, which stays where it is.
    pub open spec fn spec_push_r16_low(self, register: CpuReg16, bus: MemoryBusView) -> (
        Cpu,
        MemoryBusView,
    ) {
        (
            self.in_phase(CpuPhase::FetchOpcode),
            bus.write8(self.registers.sp, low_byte(self.registers.r16(register))),
        )
    }

    /// `POP`: the low byte is read at SP into the pair, and SP moves up.
    pub open spec fn spec_pop_r16_low(self, register: CpuReg16, bus: MemoryBusView) -> Cpu {
        let low = bus.read8(self.registers.sp);
        let c = self.with_sp(self.registers.sp + 1);
        c.with_registers(c.registers.with_r16_low(register, low)).in_phase(
            CpuPhase::PopR16High(register),
        )
    }

    /// `POP`: the high byte is read at SP into the pair, and SP moves up.
    pub open spec fn spec_pop_r16_high(self, register: CpuReg16, bus: MemoryBusView) -> Cpu {
        let high = bus.read8(self.registers.sp);
        let c = self.with_sp(self.registers.sp + 1);
        c.with_registers(c.registers.with_r16_high(register, high)).in_phase(CpuPhase::FetchOpcode)
    }

    /// 16-bit `INC`: the pair plus one, with the flags of a 16-bit addition.
    pub open spec fn spec_increment_r16(self, register: CpuReg16) -> Cpu {
        let (result, flags) = add16(self.registers.r16(register), 1, false);
        self.with_registers(
            CpuRegisters {
                f: keep_zero(flags, self.registers.f),
                ..self.registers.with_r16(register, result)
            },
        ).in_phase(CpuPhase::FetchOpcode)
    }

    /// 16-bit `DEC`: the pair minus one, with the flags of a 16-bit subtraction.
    pub open spec fn spec_decrement_r16(self, register: CpuReg16) -> Cpu {
        let (result, flags) = sub16(self.registers.r16(register), 1, false);
        self.with_registers(
            CpuRegisters {
                f: keep_zero(flags, self.registers.f),
                ..self.registers.with_r16(register, result)
            },
        ).in_phase(CpuPhase::FetchOpcode)
    }

    /// What one machine cycle does, by phase.
    pub open spec fn spec_machine_cycle(self, bus: MemoryBusView) -> (Cpu, MemoryBusView) {
        match self.phase {
            CpuPhase::FetchOpcode => (self.spec_fetch_opcode(bus), bus),
            CpuPhase::FetchImm8(i) => self.spec_fetch_imm8(i, bus),
            CpuPhase::FetchImm16Low(i) => (self.spec_fetch_imm16_low(i, bus), bus),
            CpuPhase::FetchImm16High(i) => (self.spec_fetch_imm16_high(i, bus), bus),
            CpuPhase::FetchR16(i) => self.spec_fetch_r16(i, bus),
            CpuPhase::FetchE8(i) => (self.spec_fetch_e8(i, bus), bus),
            CpuPhase::FetchA16Low(i) => (self.spec_fetch_a16_low(i, bus), bus),
            CpuPhase::FetchA16High(i, low) => (self.spec_fetch_a16_high(i, low, bus), bus),
            CpuPhase::FetchA16Mem(i, addr) => self.spec_fetch_a16_mem(i, addr, bus),
            CpuPhase::FetchR8(i) => self.spec_fetch_r8(i, bus),
            CpuPhase::ApplyRelativeJump(offset) => (
                self.with_registers(
                    CpuRegisters { pc: wrap16(self.registers.pc + offset), ..self.registers },
                ).in_phase(CpuPhase::FetchOpcode),
                bus,
            ),
            CpuPhase::ApplyAbsoluteJump(addr) => (
                self.with_registers(CpuRegisters { pc: addr, ..self.registers }).in_phase(
                    CpuPhase::FetchOpcode,
                ),
                bus,
            ),
            CpuPhase::ApplyAbsoluteJumpEnableInterrupts(addr) => (
                Cpu {
                    ime: true,
                    ..self.with_registers(CpuRegisters { pc: addr, ..self.registers }).in_phase(
                        CpuPhase::FetchOpcode,
                    )
                },
                bus,
            ),
            CpuPhase::AddSpE8Low(raw) => (self.spec_add_sp_e8_low(raw), bus),
            CpuPhase::AddSpE8High(low, adjustment) => (self.spec_add_sp_e8_high(low, adjustment), bus),
            CpuPhase::DecrementSpForWrite(i, addr) => (self.spec_decrement_sp_for_write(i, addr), bus),
            CpuPhase::DecrementSp(r) => (self.spec_decrement_sp(r), bus),
            CpuPhase::WriteSpMemHigh(i, addr) => self.spec_write_sp_high(i, addr, bus),
            CpuPhase::WriteSpMemLow(i, addr) => self.spec_write_sp_low(i, addr, bus),
            CpuPhase::ReadSpHigh(i, low) => (self.spec_read_sp_high(i, low, bus), bus),
            CpuPhase::ReadSpLow(i) => (self.spec_read_sp_low(i, bus), bus),
            CpuPhase::PushR16Low(r) => self.spec_push_r16_low(r, bus),
            CpuPhase::PushR16High(r) => self.spec_push_r16_high(r, bus),
            CpuPhase::PopR16Low(r) => (self.spec_pop_r16_low(r, bus), bus),
            CpuPhase::PopR16High(r) => (self.spec_pop_r16_high(r, bus), bus),
            CpuPhase::DecrementR16(r) => (self.spec_decrement_r16(r), bus),
            CpuPhase::IncrementR16(r) => (self.spec_increment_r16(r), bus),
            CpuPhase::CheckRetCondition(cond) => (self.spec_check_return_condition(cond), bus),
        }
    }

    /// One T-cycle: the countdown runs, and every fourth T-cycle a machine cycle happens.
    pub open spec fn spec_step(self, bus: MemoryBusView) -> (Cpu, MemoryBusView) {
        if self.t_cycles_until_step != 0 {
            (Cpu { t_cycles_until_step: (self.t_cycles_until_step - 1) as u8, ..self }, bus)
        } else {
            Cpu { t_cycles_until_step: 3, ..self }.spec_machine_cycle(bus)
        }
    }

    /// The CPU and the bus after `n` machine cycles.
    pub open spec fn run_cycles(self, bus: MemoryBusView, n: nat) -> (Cpu, MemoryBusView)
        decreases n,
    {
        if n == 0 {
            (self, bus)
        } else {
            let (cpu, next) = self.spec_machine_cycle(bus);
            cpu.run_cycles(next, (n - 1) as nat)
        }
    }

    /// The CPU's own invariant: the countdown is at most 3, the phase fits its
    /// instruction, and the opcode table is the SM83 map.
    pub open spec fn wf(self) -> bool {
        &&& self.t_cycles_until_step <= 3
        &&& phase_wf(self.phase)
        &&& forall|row: int, col: int|
            0 <= row < 16 && 0 <= col < 16 ==> #[trigger] self.instruction_set[row][col]
                == decode((row * 16 + col) as u8)
    }

    /// Whether every cartridge address that the next machine cycle reads or writes lies
    /// inside the ROM.
    pub open spec fn cycle_in_rom(self, bus: MemoryBusView) -> bool {
        let regs = self.registers;
        match self.phase {
            CpuPhase::FetchOpcode | CpuPhase::FetchImm16Low(_) | CpuPhase::FetchImm16High(_)
            | CpuPhase::FetchE8(_) | CpuPhase::FetchA16Low(_) | CpuPhase::FetchA16High(_, _) => {
                bus.rom_covers(regs.pc)
            },
            CpuPhase::FetchImm8(i) => {
                &&& bus.rom_covers(regs.pc)
                &&& i is LdHlMemImm8 ==> bus.rom_covers(regs.r16(CpuReg16::HL))
            },
            CpuPhase::FetchR16(i) => match r16_cycle_address(i, regs) {
                Some(addr) => bus.rom_covers(addr),
                None => true,
            },
            CpuPhase::FetchA16Mem(_, addr) => bus.rom_covers(addr),
            CpuPhase::WriteSpMemHigh(_, _) | CpuPhase::WriteSpMemLow(_, _)
            | CpuPhase::PushR16High(_) | CpuPhase::PushR16Low(_) | CpuPhase::ReadSpLow(_)
            | CpuPhase::ReadSpHigh(_, _) | CpuPhase::PopR16Low(_) | CpuPhase::PopR16High(_) => {
                bus.rom_covers(regs.sp)
            },
            _ => true,
        }
    }

    /// The inputs on which the next T-cycle runs: every cartridge address it touches
    /// inside the ROM, a supported opcode to decode, and no stack pointer moving past
    /// either end.
    pub open spec fn can_step(self, bus: MemoryBusView) -> bool {
        &&& bus.inv()
        &&& self.t_cycles_until_step == 0 ==> self.cycle_in_rom(bus)
        &&& self.t_cycles_until_step == 0 ==> match self.phase {
            CpuPhase::FetchOpcode => supported(decode(bus.read8(self.registers.pc))),
            CpuPhase::DecrementSpForWrite(_, _) | CpuPhase::DecrementSp(_)
            | CpuPhase::WriteSpMemHigh(_, _) | CpuPhase::PushR16High(_) => self.registers.sp > 0,
            CpuPhase::ReadSpLow(_) | CpuPhase::ReadSpHigh(_, _) | CpuPhase::PopR16Low(_)
            | CpuPhase::PopR16High(_) => self.registers.sp < 0xFFFF,
            _ => true,
        }
    }
}

} // verus!
