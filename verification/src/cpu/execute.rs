//! The CPU's machine cycles, one function per phase.
use vstd::prelude::*;

use crate::cpu::cpu_arithmetic::{CpuArithmetic, CpuLogic};
use crate::cpu::instructions::{CpuCondition, CpuInstruction, decode};
use crate::cpu::registers::{CpuFlagsReg, CpuReg16, CpuReg8, CpuRegisters, join, word, high_byte, low_byte};
use crate::cpu::semantics::{condition_met, phase_wf, r16_cycle_address, supported, takes_imm8, wrap16};
use crate::cpu::{Cpu, CpuPhase};
use crate::memory_bus::{MemoryBus, MemoryBusView};

verus! {

/// What the bus must satisfy for a machine cycle to access it.
pub open spec fn bus_ready(bus: MemoryBusView) -> bool {
    bus.inv()
}

impl Cpu {
    /// Reads a byte through the bus.
    pub fn read8(&mut self, bus: &MemoryBus, addr: u16) -> (value: u8)
        requires
            bus@.rom_covers(addr),
            bus_ready(bus@),
        ensures
            value == bus@.read8(addr),
            *final(self) == *old(self),
    {
        bus.read8(addr)
    }

    /// Reads the byte at PC and moves PC past it.
    pub fn fetch8(&mut self, bus: &MemoryBus) -> (value: u8)
        requires
            bus@.rom_covers(old(self).registers.pc),
            bus_ready(bus@),
        ensures
            value == bus@.read8(old(self).registers.pc),
            *final(self) == old(self).after_fetch(),
    {
        let value = bus.read8(self.registers.pc);
        self.registers.pc = self.registers.pc.wrapping_add(1);
        value
    }

    fn phase_add_a_r8(&mut self, register: CpuReg8, carry_flag: bool)
        ensures
            *final(self) == old(self).with_a_and_flags(
                old(self).registers.a.spec_cpu_add(old(self).registers.r8(register), carry_flag),
            ).in_phase(CpuPhase::FetchOpcode),
    {
        let value = self.registers.get_r8(register);
        let (result, flags) = self.registers.a.cpu_add(value, carry_flag);
        self.registers.a = result;
        self.registers.f = flags;
        self.phase = CpuPhase::FetchOpcode;
    }

    fn phase_sub_a_r8(&mut self, register: CpuReg8, borrow_flag: bool)
        ensures
            *final(self) == old(self).with_a_and_flags(
                old(self).registers.a.spec_cpu_sub(old(self).registers.r8(register), borrow_flag),
            ).in_phase(CpuPhase::FetchOpcode),
    {
        let value = self.registers.get_r8(register);
        let (result, flags) = self.registers.a.cpu_sub(value, borrow_flag);
        self.registers.a = result;
        self.registers.f = flags;
        self.phase = CpuPhase::FetchOpcode;
    }

    fn phase_and_a_r8(&mut self, register: CpuReg8)
        ensures
            *final(self) == old(self).with_a_and_flags(
                old(self).registers.a.spec_cpu_and(old(self).registers.r8(register)),
            ).in_phase(CpuPhase::FetchOpcode),
    {
        let value = self.registers.get_r8(register);
        let (result, flags) = self.registers.a.cpu_and(value);
        self.registers.a = result;
        self.registers.f = flags;
        self.phase = CpuPhase::FetchOpcode;
    }

    fn phase_or_a_r8(&mut self, register: CpuReg8)
        ensures
            *final(self) == old(self).with_a_and_flags(
                old(self).registers.a.spec_cpu_or(old(self).registers.r8(register)),
            ).in_phase(CpuPhase::FetchOpcode),
    {
        let value = self.registers.get_r8(register);
        let (result, flags) = self.registers.a.cpu_or(value);
        self.registers.a = result;
        self.registers.f = flags;
        self.phase = CpuPhase::FetchOpcode;
    }

    fn phase_xor_a_r8(&mut self, register: CpuReg8)
        ensures
            *final(self) == old(self).with_a_and_flags(
                old(self).registers.a.spec_cpu_xor(old(self).registers.r8(register)),
            ).in_phase(CpuPhase::FetchOpcode),
    {
        let value = self.registers.get_r8(register);
        let (result, flags) = self.registers.a.cpu_xor(value);
        self.registers.a = result;
        self.registers.f = flags;
        self.phase = CpuPhase::FetchOpcode;
    }

    fn phase_cp_a_r8(&mut self, register: CpuReg8)
        ensures
            *final(self) == old(self).with_flags(
                old(self).registers.a.spec_cpu_sub(old(self).registers.r8(register), false).1,
            ).in_phase(CpuPhase::FetchOpcode),
    {
        let value = self.registers.get_r8(register);
        let (_, flags) = self.registers.a.cpu_sub(value, false);
        self.registers.f = flags;
        self.phase = CpuPhase::FetchOpcode;
    }

    fn decrement_r8(&mut self, register: CpuReg8)
        ensures
            ({
                let (result, flags) = old(self).registers.r8(register).spec_cpu_sub(1, false);
                *final(self) == old(self).with_registers(
                    CpuRegisters { f: flags, ..old(self).registers.with_r8(register, result) },
                ).in_phase(CpuPhase::FetchOpcode)
            }),
    {
        let value = self.registers.get_r8(register);
        let (result, flags) = value.cpu_sub(1, false);
        self.registers.set_r8(register, result);
        self.registers.f = flags;
        self.phase = CpuPhase::FetchOpcode;
    }

    fn increment_r8(&mut self, register: CpuReg8)
        ensures
            ({
                let (result, flags) = old(self).registers.r8(register).spec_cpu_add(1, false);
                *final(self) == old(self).with_registers(
                    CpuRegisters { f: flags, ..old(self).registers.with_r8(register, result) },
                ).in_phase(CpuPhase::FetchOpcode)
            }),
    {
        let value = self.registers.get_r8(register);
        let (result, flags) = value.cpu_add(1, false);
        self.registers.set_r8(register, result);
        self.registers.f = flags;
        self.phase = CpuPhase::FetchOpcode;
    }

    fn increment_r16(&mut self, register: CpuReg16)
        ensures
            *final(self) == old(self).spec_increment_r16(register),
    {
        let value = self.registers.get_r16(register);
        let (result, flags) = value.cpu_add(1, false);
        let zero = self.registers.f.zero;
        self.registers.set_r16(register, result);
        self.registers.f = CpuFlagsReg { zero, ..flags };
        self.phase = CpuPhase::FetchOpcode;
    }

    fn decrement_r16(&mut self, register: CpuReg16)
        ensures
            *final(self) == old(self).spec_decrement_r16(register),
    {
        let value = self.registers.get_r16(register);
        let (result, flags) = value.cpu_sub(1, false);
        let zero = self.registers.f.zero;
        self.registers.set_r16(register, result);
        self.registers.f = CpuFlagsReg { zero, ..flags };
        self.phase = CpuPhase::FetchOpcode;
    }

    fn apply_relative_jump(&mut self, offset: i8)
        ensures
            *final(self) == old(self).with_registers(
                CpuRegisters { pc: wrap16(old(self).registers.pc + offset), ..old(self).registers },
            ).in_phase(CpuPhase::FetchOpcode),
    {
        let pc = self.registers.pc;
        let delta = offset as u16;
        let next = pc.wrapping_add(delta);
        assert(next == wrap16(pc + offset)) by (bit_vector)
            requires
                delta == offset as u16,
                next == (if pc + delta > 0xFFFF { pc + delta - 0x10000 } else { pc + delta }),
        ;
        self.registers.pc = next;
        self.phase = CpuPhase::FetchOpcode;
    }

    fn apply_absolute_jump(&mut self, addr: u16)
        ensures
            *final(self) == old(self).with_registers(
                CpuRegisters { pc: addr, ..old(self).registers },
            ).in_phase(CpuPhase::FetchOpcode),
    {
        self.registers.pc = addr;
        self.phase = CpuPhase::FetchOpcode;
    }

    fn check_return_condition(&mut self, condition: CpuCondition)
        ensures
            *final(self) == old(self).spec_check_return_condition(condition),
    {
        let should_return = match condition {
            CpuCondition::NZ => !self.registers.f.zero,
            CpuCondition::Z => self.registers.f.zero,
            CpuCondition::NC => !self.registers.f.carry,
            CpuCondition::C => self.registers.f.carry,
            CpuCondition::Always => true,
        };
        if !should_return {
            self.phase = CpuPhase::FetchOpcode;
            return;
        }
        self.phase = CpuPhase::ReadSpLow(CpuInstruction::Ret(condition));
    }

    fn decrement_sp_for_write(&mut self, instruction: CpuInstruction, addr: u16)
        requires
            old(self).registers.sp > 0,
        ensures
            *final(self) == old(self).spec_decrement_sp_for_write(instruction, addr),
    {
        self.registers.sp -= 1;
        self.phase = CpuPhase::WriteSpMemHigh(instruction, addr);
    }

    fn decrement_sp(&mut self, register: CpuReg16)
        requires
            old(self).registers.sp > 0,
        ensures
            *final(self) == old(self).spec_decrement_sp(register),
    {
        self.registers.sp -= 1;
        self.phase = CpuPhase::PushR16High(register);
    }

    fn add_sp_e8_low(&mut self, raw_offset: u8)
        ensures
            *final(self) == old(self).spec_add_sp_e8_low(raw_offset),
    {
        let sp = self.registers.sp;
        let sp_low = (sp & 0xFF) as u8;
        assert(sp_low == low_byte(sp)) by (bit_vector)
            requires
                sp_low == (sp & 0xFF) as u8,
        ;
        let (result_low, reg) = sp_low.cpu_add(raw_offset, false);
        let adjustment: u8 = if raw_offset & 0x80 != 0 { 0xFF } else { 0x00 };
        assert((raw_offset & 0x80 != 0) == (raw_offset >= 0x80)) by (bit_vector);
        self.registers.f.zero = false;
        self.registers.f.subtract = false;
        self.registers.f.half_carry = reg.half_carry;
        self.registers.f.carry = reg.carry;
        self.phase = CpuPhase::AddSpE8High(result_low, adjustment);
    }

    fn add_sp_e8_high(&mut self, result_low: u8, adjustment: u8)
        ensures
            *final(self) == old(self).spec_add_sp_e8_high(result_low, adjustment),
    {
        let sp = self.registers.sp;
        let sp_high = (sp >> 8) as u8;
        assert(sp_high == high_byte(sp)) by (bit_vector)
            requires
                sp_high == (sp >> 8) as u8,
        ;
        let carry: u8 = if self.registers.f.carry { 1 } else { 0 };
        let result_high = sp_high.wrapping_add(adjustment).wrapping_add(carry);
        assert(result_high == (sp_high + adjustment + carry) % 256);
        self.registers.sp = join(result_high, result_low);
        self.phase = CpuPhase::FetchOpcode;
    }

    fn write_sp_high(&mut self, instruction: CpuInstruction, addr: u16, bus: &mut MemoryBus)
        requires
            old(bus)@.rom_covers(old(self).registers.sp),
            bus_ready(old(bus)@),
            old(self).registers.sp > 0,
        ensures
            (*final(self), final(bus)@) == old(self).spec_write_sp_high(instruction, addr, old(bus)@),
            bus_ready(final(bus)@),
            final(bus)@.rom.len() == old(bus)@.rom.len(),
    {
        let pc = self.registers.pc;
        let high = (pc >> 8) as u8;
        assert(high == high_byte(pc)) by (bit_vector)
            requires
                high == (pc >> 8) as u8,
        ;
        bus.write8(self.registers.sp, high);
        self.registers.sp -= 1;
        self.phase = CpuPhase::WriteSpMemLow(instruction, addr);
    }

    fn write_sp_low(&mut self, instruction: CpuInstruction, addr: u16, bus: &mut MemoryBus)
        requires
            old(bus)@.rom_covers(old(self).registers.sp),
            bus_ready(old(bus)@),
        ensures
            (*final(self), final(bus)@) == old(self).spec_write_sp_low(instruction, addr, old(bus)@),
            bus_ready(final(bus)@),
            final(bus)@.rom.len() == old(bus)@.rom.len(),
    {
        let pc = self.registers.pc;
        let low = pc as u8;
        assert(low == low_byte(pc)) by (bit_vector)
            requires
                low == pc as u8,
        ;
        bus.write8(self.registers.sp, low);
        self.registers.pc = addr;
        self.phase = CpuPhase::FetchOpcode;
    }

    fn read_sp_low(&mut self, instruction: CpuInstruction, bus: &MemoryBus)
        requires
            bus@.rom_covers(old(self).registers.sp),
            bus_ready(bus@),
            old(self).registers.sp < 0xFFFF,
        ensures
            *final(self) == old(self).spec_read_sp_low(instruction, bus@),
    {
        let low_byte = self.read8(bus, self.registers.sp);
        self.registers.sp += 1;
        self.phase = CpuPhase::ReadSpHigh(instruction, low_byte);
    }

    fn read_sp_high(&mut self, instruction: CpuInstruction, low_byte: u8, bus: &MemoryBus)
        requires
            bus@.rom_covers(old(self).registers.sp),
            bus_ready(bus@),
            old(self).registers.sp < 0xFFFF,
        ensures
            *final(self) == old(self).spec_read_sp_high(instruction, low_byte, bus@),
    {
        let high_byte = self.read8(bus, self.registers.sp);
        self.registers.sp += 1;
        let addr = join(high_byte, low_byte);
        match instruction {
            CpuInstruction::RetI => self.phase = CpuPhase::ApplyAbsoluteJumpEnableInterrupts(addr),
            _ => self.phase = CpuPhase::ApplyAbsoluteJump(addr),
        }
    }

    fn push_r16_high(&mut self, register: CpuReg16, bus: &mut MemoryBus)
        requires
            old(bus)@.rom_covers(old(self).registers.sp),
            bus_ready(old(bus)@),
            old(self).registers.sp > 0,
        ensures
            (*final(self), final(bus)@) == old(self).spec_push_r16_high(register, old(bus)@),
            bus_ready(final(bus)@),
            final(bus)@.rom.len() == old(bus)@.rom.len(),
    {
        let value = self.registers.get_r16(register);
        let high = (value >> 8) as u8;
        assert(high == high_byte(value)) by (bit_vector)
            requires
                high == (value >> 8) as u8,
        ;
        bus.write8(self.registers.sp, high);
        self.registers.sp -= 1;
        self.phase = CpuPhase::PushR16Low(register);
    }

    fn push_r16_low(&mut self, register: CpuReg16, bus: &mut MemoryBus)
        requires
            old(bus)@.rom_covers(old(self).registers.sp),
            bus_ready(old(bus)@),
        ensures
            (*final(self), final(bus)@) == old(self).spec_push_r16_low(register, old(bus)@),
            bus_ready(final(bus)@),
            final(bus)@.rom.len() == old(bus)@.rom.len(),
    {
        let value = self.registers.get_r16(register);
        let low = value as u8;
        assert(low == low_byte(value)) by (bit_vector)
            requires
                low == value as u8,
        ;
        bus.write8(self.registers.sp, low);
        self.phase = CpuPhase::FetchOpcode;
    }

    fn pop_r16_low(&mut self, register: CpuReg16, bus: &MemoryBus)
        requires
            bus@.rom_covers(old(self).registers.sp),
            bus_ready(bus@),
            old(self).registers.sp < 0xFFFF,
        ensures
            *final(self) == old(self).spec_pop_r16_low(register, bus@),
    {
        let low_byte = self.read8(bus, self.registers.sp);
        self.registers.sp += 1;
        self.registers.set_r16_low(register, low_byte);
        self.phase = CpuPhase::PopR16High(register);
    }

    fn pop_r16_high(&mut self, register: CpuReg16, bus: &MemoryBus)
        requires
            bus@.rom_covers(old(self).registers.sp),
            bus_ready(bus@),
            old(self).registers.sp < 0xFFFF,
        ensures
            *final(self) == old(self).spec_pop_r16_high(register, bus@),
    {
        let high_byte = self.read8(bus, self.registers.sp);
        self.registers.sp += 1;
        self.registers.set_r16_high(register, high_byte);
        self.phase = CpuPhase::FetchOpcode;
    }
}

impl Cpu {
    fn fetch_imm8(&mut self, instruction: CpuInstruction, bus: &mut MemoryBus)
        requires
            old(bus)@.rom_covers(old(self).registers.pc),
            instruction is LdHlMemImm8 ==> old(bus)@.rom_covers(old(self).registers.r16(CpuReg16::HL)),
            bus_ready(old(bus)@),
            takes_imm8(instruction),
        ensures
            (*final(self), final(bus)@) == old(self).spec_fetch_imm8(instruction, old(bus)@),
            bus_ready(final(bus)@),
            final(bus)@.rom.len() == old(bus)@.rom.len(),
    {
        match instruction {
            CpuInstruction::LdHlMemImm8 | CpuInstruction::LdhA8A | CpuInstruction::LdhAA8 => {
                self.fetch_imm8_memory(instruction, bus);
            },
            CpuInstruction::LdhAC | CpuInstruction::LdhCA => {
                self.phase = CpuPhase::FetchR8(instruction);
            },
            _ => {
                self.fetch_imm8_register(instruction, bus);
            },
        }
    }

    /// The immediate goes to a register or through the ALU into A.
    fn fetch_imm8_register(&mut self, instruction: CpuInstruction, bus: &MemoryBus)
        requires
            bus@.rom_covers(old(self).registers.pc),
            bus_ready(bus@),
            takes_imm8(instruction),
            !(instruction is LdHlMemImm8 || instruction is LdhA8A || instruction is LdhAA8
                || instruction is LdhAC || instruction is LdhCA),
        ensures
            *final(self) == old(self).spec_fetch_imm8(instruction, bus@).0,
            old(self).spec_fetch_imm8(instruction, bus@).1 == bus@,
    {
        let ghost target = old(self).spec_fetch_imm8(instruction, bus@);
        match instruction {
            CpuInstruction::LdR8Imm8(register) => {
                let value = self.fetch8(bus);
                self.registers.set_r8(register, value);
                self.phase = CpuPhase::FetchOpcode;
                assert(*self == target.0);
            },
            CpuInstruction::AddAImm8 => {
                let value = self.fetch8(bus);
                let (result, flags) = self.registers.a.cpu_add(value, false);
                self.registers.a = result;
                self.registers.f = flags;
                self.phase = CpuPhase::FetchOpcode;
                assert(*self == target.0);
            },
            CpuInstruction::SubAImm8 => {
                let value = self.fetch8(bus);
                let (result, flags) = self.registers.a.cpu_sub(value, false);
                self.registers.a = result;
                self.registers.f = flags;
                self.phase = CpuPhase::FetchOpcode;
                assert(*self == target.0);
            },
            CpuInstruction::AdcAImm8 => {
                let value = self.fetch8(bus);
                let (result, flags) = self.registers.a.cpu_add(value, self.registers.f.carry);
                self.registers.a = result;
                self.registers.f = flags;
                self.phase = CpuPhase::FetchOpcode;
                assert(*self == target.0);
            },
            CpuInstruction::SbcAImm8 => {
                let value = self.fetch8(bus);
                let (result, flags) = self.registers.a.cpu_sub(value, self.registers.f.carry);
                self.registers.a = result;
                self.registers.f = flags;
                self.phase = CpuPhase::FetchOpcode;
                assert(*self == target.0);
            },
            CpuInstruction::AndAImm8 => {
                let value = self.fetch8(bus);
                let (result, flags) = self.registers.a.cpu_and(value);
                self.registers.a = result;
                self.registers.f = flags;
                self.phase = CpuPhase::FetchOpcode;
                assert(*self == target.0);
            },
            CpuInstruction::OrAImm8 => {
                let value = self.fetch8(bus);
                let (result, flags) = self.registers.a.cpu_or(value);
                self.registers.a = result;
                self.registers.f = flags;
                self.phase = CpuPhase::FetchOpcode;
                assert(*self == target.0);
            },
            CpuInstruction::XorAImm8 => {
                let value = self.fetch8(bus);
                let (result, flags) = self.registers.a.cpu_xor(value);
                self.registers.a = result;
                self.registers.f = flags;
                self.phase = CpuPhase::FetchOpcode;
                assert(*self == target.0);
            },
            CpuInstruction::CpAImm8 => {
                let value = self.fetch8(bus);
                let (_, flags) = self.registers.a.cpu_sub(value, false);
                self.registers.f = flags;
                self.phase = CpuPhase::FetchOpcode;
                assert(*self == target.0);
            },
            _ => {},
        }
    }

    /// The immediate is a value or an address for a memory access.
    fn fetch_imm8_memory(&mut self, instruction: CpuInstruction, bus: &mut MemoryBus)
        requires
            old(bus)@.rom_covers(old(self).registers.pc),
            instruction is LdHlMemImm8 ==> old(bus)@.rom_covers(old(self).registers.r16(CpuReg16::HL)),
            bus_ready(old(bus)@),
            instruction is LdHlMemImm8 || instruction is LdhA8A || instruction is LdhAA8,
        ensures
            (*final(self), final(bus)@) == old(self).spec_fetch_imm8(instruction, old(bus)@),
            bus_ready(final(bus)@),
            final(bus)@.rom.len() == old(bus)@.rom.len(),
    {
        let ghost target = old(self).spec_fetch_imm8(instruction, old(bus)@);
        match instruction {
            CpuInstruction::LdHlMemImm8 => {
                let hl_value = self.registers.get_r16(CpuReg16::HL);
                let imm_value = self.fetch8(bus);
                bus.write8(hl_value, imm_value);
                self.phase = CpuPhase::FetchOpcode;
                assert(*self == target.0 && bus@ == target.1);
            },
            CpuInstruction::LdhA8A => {
                let offset = self.fetch8(bus);
                let addr = 0xFF00 | (offset as u16);
                assert(addr == 0xFF00 + offset) by (bit_vector)
                    requires
                        addr == 0xFF00 | (offset as u16),
                ;
                let value = self.registers.get_r8(CpuReg8::A);
                bus.write8(addr, value);
                self.phase = CpuPhase::FetchOpcode;
                assert(*self == target.0 && bus@ == target.1);
            },
            CpuInstruction::LdhAA8 => {
                let offset = self.fetch8(bus);
                let addr = 0xFF00 | (offset as u16);
                assert(addr == 0xFF00 + offset) by (bit_vector)
                    requires
                        addr == 0xFF00 | (offset as u16),
                ;
                let value = bus.read8(addr);
                self.registers.set_r8(CpuReg8::A, value);
                self.phase = CpuPhase::FetchOpcode;
                assert(*self == target.0 && bus@ == target.1);
            },
            _ => {},
        }
    }

    fn phase_fetch_r8(&mut self, instruction: CpuInstruction, bus: &mut MemoryBus)
        requires
            bus_ready(old(bus)@),
        ensures
            (*final(self), final(bus)@) == old(self).spec_fetch_r8(instruction, old(bus)@),
            bus_ready(final(bus)@),
            final(bus)@.rom.len() == old(bus)@.rom.len(),
    {
        let c = self.registers.get_r8(CpuReg8::C);
        let addr = 0xFF00 | (c as u16);
        assert(addr == 0xFF00 + c) by (bit_vector)
            requires
                addr == 0xFF00 | (c as u16),
        ;
        match instruction {
            CpuInstruction::LdhCA => {
                let value = self.registers.get_r8(CpuReg8::A);
                bus.write8(addr, value);
                self.phase = CpuPhase::FetchOpcode;
            },
            _ => {
                let value = bus.read8(addr);
                self.registers.set_r8(CpuReg8::A, value);
                self.phase = CpuPhase::FetchOpcode;
            },
        }
    }

    fn fetch_imm16_low(&mut self, instruction: CpuInstruction, bus: &MemoryBus)
        requires
            bus@.rom_covers(old(self).registers.pc),
            bus_ready(bus@),
        ensures
            *final(self) == old(self).spec_fetch_imm16_low(instruction, bus@),
    {
        let low_byte = self.fetch8(bus);
        match instruction {
            CpuInstruction::LdR16Imm16(register) => {
                self.registers.set_r16_low(register, low_byte);
                self.phase = CpuPhase::FetchImm16High(instruction);
            },
            _ => {
                self.registers.sp = low_byte as u16;
                self.phase = CpuPhase::FetchImm16High(instruction);
            },
        }
    }

    fn fetch_imm16_high(&mut self, instruction: CpuInstruction, bus: &MemoryBus)
        requires
            bus@.rom_covers(old(self).registers.pc),
            bus_ready(bus@),
        ensures
            *final(self) == old(self).spec_fetch_imm16_high(instruction, bus@),
    {
        let high_byte = self.fetch8(bus);
        match instruction {
            CpuInstruction::LdR16Imm16(register) => {
                self.registers.set_r16_high(register, high_byte);
                self.phase = CpuPhase::FetchOpcode;
            },
            _ => {
                self.registers.sp = self.registers.sp | ((high_byte as u16) << 8u16);
                self.phase = CpuPhase::FetchOpcode;
            },
        }
    }

    fn fetch_r16(&mut self, instruction: CpuInstruction, bus: &mut MemoryBus)
        requires
            r16_cycle_address(instruction, old(self).registers) matches Some(addr) ==> old(bus)@.rom_covers(addr),
            bus_ready(old(bus)@),
        ensures
            (*final(self), final(bus)@) == old(self).spec_fetch_r16(instruction, old(bus)@),
            bus_ready(final(bus)@),
            final(bus)@.rom.len() == old(bus)@.rom.len(),
    {
        match instruction {
            CpuInstruction::AddHlR16(_) | CpuInstruction::LdAR16mem(_)
            | CpuInstruction::LdAHlIncMem | CpuInstruction::LdAHlDecMem => {
                self.fetch_r16_load(instruction, bus);
            },
            CpuInstruction::LdR16memA(_) | CpuInstruction::LdHlMemR8(_)
            | CpuInstruction::LdHlIncMemA | CpuInstruction::LdHlDecMemA => {
                self.fetch_r16_store(instruction, bus);
            },
            _ => {
                self.phase = CpuPhase::FetchImm8(instruction);
            },
        }
    }

    /// `ADD HL, rr` and the loads into A through a pair.
    fn fetch_r16_load(&mut self, instruction: CpuInstruction, bus: &MemoryBus)
        requires
            r16_cycle_address(instruction, old(self).registers) matches Some(addr) ==> bus@.rom_covers(addr),
            bus_ready(bus@),
            instruction is AddHlR16 || instruction is LdAR16mem || instruction is LdAHlIncMem
                || instruction is LdAHlDecMem,
        ensures
            *final(self) == old(self).spec_fetch_r16(instruction, bus@).0,
            old(self).spec_fetch_r16(instruction, bus@).1 == bus@,
    {
        match instruction {
            CpuInstruction::AddHlR16(src) => self.add_hl_r16(src, bus),
            CpuInstruction::LdAR16mem(src) => self.ld_a_r16_mem(src, bus),
            CpuInstruction::LdAHlIncMem => self.ld_a_hl_mem_step(true, bus),
            _ => self.ld_a_hl_mem_step(false, bus),
        }
    }

    fn add_hl_r16(&mut self, src: CpuReg16, bus: &MemoryBus)
        ensures
            *final(self) == old(self).spec_fetch_r16(CpuInstruction::AddHlR16(src), bus@).0,
            old(self).spec_fetch_r16(CpuInstruction::AddHlR16(src), bus@).1 == bus@,
    {
        let src_value = self.registers.get_r16(src);
        let dest_value = self.registers.get_r16(CpuReg16::HL);
        let (result, flags) = dest_value.cpu_add(src_value, false);
        self.registers.set_r16(CpuReg16::HL, result);
        self.registers.f = CpuFlagsReg { zero: self.registers.f.zero, ..flags };
        self.phase = CpuPhase::FetchOpcode;
    }

    fn ld_a_r16_mem(&mut self, src: CpuReg16, bus: &MemoryBus)
        requires
            bus@.rom_covers(old(self).registers.r16(src)),
            bus_ready(bus@),
        ensures
            *final(self) == old(self).spec_fetch_r16(CpuInstruction::LdAR16mem(src), bus@).0,
            old(self).spec_fetch_r16(CpuInstruction::LdAR16mem(src), bus@).1 == bus@,
    {
        let src_value = self.registers.get_r16(src);
        let value = bus.read8(src_value);
        self.registers.set_r8(CpuReg8::A, value);
        self.phase = CpuPhase::FetchOpcode;
    }

    /// `LD A, (HL+)` or `LD A, (HL-)`.
    fn ld_a_hl_mem_step(&mut self, increment: bool, bus: &MemoryBus)
        requires
            bus@.rom_covers(old(self).registers.r16(CpuReg16::HL)),
            bus_ready(bus@),
        ensures
            ({
                let instruction = if increment {
                    CpuInstruction::LdAHlIncMem
                } else {
                    CpuInstruction::LdAHlDecMem
                };
                &&& *final(self) == old(self).spec_fetch_r16(instruction, bus@).0
                &&& old(self).spec_fetch_r16(instruction, bus@).1 == bus@
            }),
    {
        let hl_value = self.registers.get_r16(CpuReg16::HL);
        let value = bus.read8(hl_value);
        self.registers.set_r8(CpuReg8::A, value);
        let next = if increment { hl_value.wrapping_add(1) } else { hl_value.wrapping_sub(1) };
        assert(next == if increment { wrap16(hl_value + 1) } else { wrap16(hl_value - 1) });
        self.registers.set_r16(CpuReg16::HL, next);
        self.phase = CpuPhase::FetchOpcode;
    }

    /// The stores through a pair.
    fn fetch_r16_store(&mut self, instruction: CpuInstruction, bus: &mut MemoryBus)
        requires
            r16_cycle_address(instruction, old(self).registers) matches Some(addr) ==> old(bus)@.rom_covers(addr),
            bus_ready(old(bus)@),
            instruction is LdR16memA || instruction is LdHlMemR8 || instruction is LdHlIncMemA
                || instruction is LdHlDecMemA,
        ensures
            (*final(self), final(bus)@) == old(self).spec_fetch_r16(instruction, old(bus)@),
            bus_ready(final(bus)@),
            final(bus)@.rom.len() == old(bus)@.rom.len(),
    {
        match instruction {
            CpuInstruction::LdR16memA(dest) => {
                let address = self.registers.get_r16(dest);
                let value = self.registers.get_r8(CpuReg8::A);
                bus.write8(address, value);
                self.phase = CpuPhase::FetchOpcode;
            },
            CpuInstruction::LdHlMemR8(src) => {
                let address = self.registers.get_r16(CpuReg16::HL);
                let value = self.registers.get_r8(src);
                bus.write8(address, value);
                self.phase = CpuPhase::FetchOpcode;
            },
            CpuInstruction::LdHlIncMemA => self.ld_hl_mem_a_step(true, bus),
            _ => self.ld_hl_mem_a_step(false, bus),
        }
    }

    /// `LD (HL+), A` or `LD (HL-), A`.
    fn ld_hl_mem_a_step(&mut self, increment: bool, bus: &mut MemoryBus)
        requires
            old(bus)@.rom_covers(old(self).registers.r16(CpuReg16::HL)),
            bus_ready(old(bus)@),
        ensures
            ({
                let instruction = if increment {
                    CpuInstruction::LdHlIncMemA
                } else {
                    CpuInstruction::LdHlDecMemA
                };
                (*final(self), final(bus)@) == old(self).spec_fetch_r16(instruction, old(bus)@)
            }),
            bus_ready(final(bus)@),
            final(bus)@.rom.len() == old(bus)@.rom.len(),
    {
        let hl_value = self.registers.get_r16(CpuReg16::HL);
        let value = self.registers.get_r8(CpuReg8::A);
        bus.write8(hl_value, value);
        let next = if increment { hl_value.wrapping_add(1) } else { hl_value.wrapping_sub(1) };
        assert(next == if increment { wrap16(hl_value + 1) } else { wrap16(hl_value - 1) });
        self.registers.set_r16(CpuReg16::HL, next);
        self.phase = CpuPhase::FetchOpcode;
    }

    fn fetch_e8(&mut self, instruction: CpuInstruction, bus: &MemoryBus)
        requires
            bus@.rom_covers(old(self).registers.pc),
            bus_ready(bus@),
        ensures
            *final(self) == old(self).spec_fetch_e8(instruction, bus@),
    {
        let raw_offset = self.fetch8(bus);
        if instruction == CpuInstruction::AddSpE8 {
            self.phase = CpuPhase::AddSpE8Low(raw_offset);
            return;
        }
        let offset = raw_offset as i8;
        let should_jump = match instruction {
            CpuInstruction::JrNzE8 => !self.registers.f.zero,
            CpuInstruction::JrZE8 => self.registers.f.zero,
            CpuInstruction::JrNcE8 => !self.registers.f.carry,
            CpuInstruction::JrCE8 => self.registers.f.carry,
            _ => true,
        };
        if !should_jump {
            self.phase = CpuPhase::FetchOpcode;
            return;
        }
        self.phase = CpuPhase::ApplyRelativeJump(offset);
    }

    fn fetch_a16_low(&mut self, instruction: CpuInstruction, bus: &MemoryBus)
        requires
            bus@.rom_covers(old(self).registers.pc),
            bus_ready(bus@),
        ensures
            *final(self) == old(self).spec_fetch_a16_low(instruction, bus@),
    {
        let low_byte = self.fetch8(bus);
        self.phase = CpuPhase::FetchA16High(instruction, low_byte);
    }

    fn fetch_a16_high(&mut self, instruction: CpuInstruction, low_byte: u8, bus: &MemoryBus)
        requires
            bus@.rom_covers(old(self).registers.pc),
            bus_ready(bus@),
        ensures
            *final(self) == old(self).spec_fetch_a16_high(instruction, low_byte, bus@),
    {
        let high_byte = self.fetch8(bus);
        let addr = join(high_byte, low_byte);
        match instruction {
            CpuInstruction::JpNzA16 => {
                if !self.registers.f.zero {
                    self.phase = CpuPhase::ApplyAbsoluteJump(addr);
                    return;
                }
                self.phase = CpuPhase::FetchOpcode;
            },
            CpuInstruction::JpZA16 => {
                if self.registers.f.zero {
                    self.phase = CpuPhase::ApplyAbsoluteJump(addr);
                    return;
                }
                self.phase = CpuPhase::FetchOpcode;
            },
            CpuInstruction::JpNcA16 => {
                if !self.registers.f.carry {
                    self.phase = CpuPhase::ApplyAbsoluteJump(addr);
                    return;
                }
                self.phase = CpuPhase::FetchOpcode;
            },
            CpuInstruction::JpCA16 => {
                if self.registers.f.carry {
                    self.phase = CpuPhase::ApplyAbsoluteJump(addr);
                    return;
                }
                self.phase = CpuPhase::FetchOpcode;
            },
            CpuInstruction::JpA16 => {
                self.phase = CpuPhase::ApplyAbsoluteJump(addr);
            },
            CpuInstruction::CallNzA16 => {
                if !self.registers.f.zero {
                    self.phase = CpuPhase::DecrementSpForWrite(instruction, addr);
                    return;
                }
                self.phase = CpuPhase::FetchOpcode;
            },
            CpuInstruction::CallZA16 => {
                if self.registers.f.zero {
                    self.phase = CpuPhase::DecrementSpForWrite(instruction, addr);
                    return;
                }
                self.phase = CpuPhase::FetchOpcode;
            },
            CpuInstruction::CallNcA16 => {
                if !self.registers.f.carry {
                    self.phase = CpuPhase::DecrementSpForWrite(instruction, addr);
                    return;
                }
                self.phase = CpuPhase::FetchOpcode;
            },
            CpuInstruction::CallCA16 => {
                if self.registers.f.carry {
                    self.phase = CpuPhase::DecrementSpForWrite(instruction, addr);
                    return;
                }
                self.phase = CpuPhase::FetchOpcode;
            },
            CpuInstruction::LdAAddr | CpuInstruction::LdAddrA => {
                self.phase = CpuPhase::FetchA16Mem(instruction, addr);
            },
            _ => {
                self.phase = CpuPhase::DecrementSpForWrite(instruction, addr);
            },
        }
    }

    fn fetch_a16_mem(&mut self, instruction: CpuInstruction, addr: u16, bus: &mut MemoryBus)
        requires
            old(bus)@.rom_covers(addr),
            bus_ready(old(bus)@),
        ensures
            (*final(self), final(bus)@) == old(self).spec_fetch_a16_mem(instruction, addr, old(bus)@),
            bus_ready(final(bus)@),
            final(bus)@.rom.len() == old(bus)@.rom.len(),
    {
        match instruction {
            CpuInstruction::LdAAddr => {
                let value = self.read8(bus, addr);
                self.registers.set_r8(CpuReg8::A, value);
                self.phase = CpuPhase::FetchOpcode;
            },
            _ => {
                let value = self.registers.get_r8(CpuReg8::A);
                bus.write8(addr, value);
                self.phase = CpuPhase::FetchOpcode;
            },
        }
    }
}

impl Cpu {
    /// Whether every cartridge address that the next machine cycle reads or writes lies
    /// inside the ROM.
    pub fn cycle_fits_rom(&self, bus: &MemoryBus) -> (fits: bool)
        ensures
            fits == self.cycle_in_rom(bus@),
    {
        let regs = &self.registers;
        match self.phase {
            CpuPhase::FetchOpcode | CpuPhase::FetchImm16Low(_) | CpuPhase::FetchImm16High(_)
            | CpuPhase::FetchE8(_) | CpuPhase::FetchA16Low(_) | CpuPhase::FetchA16High(_, _) => {
                rom_covers(bus, regs.pc)
            },
            CpuPhase::FetchImm8(instruction) => {
                let hl_fits = match instruction {
                    CpuInstruction::LdHlMemImm8 => rom_covers(bus, regs.get_r16(CpuReg16::HL)),
                    _ => true,
                };
                rom_covers(bus, regs.pc) && hl_fits
            },
            CpuPhase::FetchR16(instruction) => match instruction {
                CpuInstruction::LdAR16mem(src) => rom_covers(bus, regs.get_r16(src)),
                CpuInstruction::LdR16memA(dest) => rom_covers(bus, regs.get_r16(dest)),
                CpuInstruction::LdHlMemR8(_) | CpuInstruction::LdAHlIncMem
                | CpuInstruction::LdAHlDecMem | CpuInstruction::LdHlIncMemA
                | CpuInstruction::LdHlDecMemA => rom_covers(bus, regs.get_r16(CpuReg16::HL)),
                _ => true,
            },
            CpuPhase::FetchA16Mem(_, addr) => rom_covers(bus, addr),
            CpuPhase::WriteSpMemHigh(_, _) | CpuPhase::WriteSpMemLow(_, _)
            | CpuPhase::PushR16High(_) | CpuPhase::PushR16Low(_) | CpuPhase::ReadSpLow(_)
            | CpuPhase::ReadSpHigh(_, _) | CpuPhase::PopR16Low(_) | CpuPhase::PopR16High(_) => {
                rom_covers(bus, regs.sp)
            },
            _ => true,
        }
    }

    /// The instruction that an opcode stands for, looked up in the opcode table.
    pub fn decode_instruction(&self, opcode: u8) -> (instruction: CpuInstruction)
        requires
            self.wf(),
        ensures
            instruction == decode(opcode),
    {
        let row = (opcode >> 4) as usize;
        let col = (opcode & 0x0F) as usize;
        assert(row == opcode / 16 && col == opcode % 16) by (bit_vector)
            requires
                row == (opcode >> 4) as usize,
                col == (opcode & 0x0F) as usize,
        ;
        assert(self.instruction_set[row as int][col as int] == decode((row * 16 + col) as u8));
        self.instruction_set[row][col]
    }

    /// The first cycle of an instruction.
    fn phase_fetch_opcode(&mut self, bus: &MemoryBus)
        requires
            bus@.rom_covers(old(self).registers.pc),
            old(self).wf(),
            bus_ready(bus@),
            supported(decode(bus@.read8(old(self).registers.pc))),
        ensures
            *final(self) == old(self).spec_fetch_opcode(bus@),
    {
        let opcode = self.fetch8(bus);
        let instruction = self.decode_instruction(opcode);
        self.begin(instruction);
    }

    /// What the first cycle does with the decoded instruction.
    fn begin(&mut self, instruction: CpuInstruction)
        requires
            supported(instruction),
        ensures
            *final(self) == old(self).spec_begin(instruction),
    {
        match instruction {
            CpuInstruction::LdR8R8(dest, src) => {
                let value = self.registers.get_r8(src);
                self.registers.set_r8(dest, value);
                self.phase = CpuPhase::FetchOpcode;
            },
            CpuInstruction::AddAR8(register) => {
                self.phase_add_a_r8(register, false);
            },
            CpuInstruction::AdcAR8(register) => {
                self.phase_add_a_r8(register, self.registers.f.carry);
            },
            CpuInstruction::SubAR8(register) => {
                self.phase_sub_a_r8(register, false);
            },
            CpuInstruction::SbcAR8(register) => {
                self.phase_sub_a_r8(register, self.registers.f.carry);
            },
            CpuInstruction::AndAR8(register) => {
                self.phase_and_a_r8(register);
            },
            CpuInstruction::OrAR8(register) => {
                self.phase_or_a_r8(register);
            },
            CpuInstruction::XorAR8(register) => {
                self.phase_xor_a_r8(register);
            },
            CpuInstruction::CpAR8(register) => {
                self.phase_cp_a_r8(register);
            },
            CpuInstruction::DecR8(r8) => {
                self.decrement_r8(r8);
            },
            CpuInstruction::IncR8(r8) => {
                self.increment_r8(r8);
            },
            _ => {
                self.start_instruction(instruction);
            },
        }
    }

    /// The instructions whose first cycle only sets up the next one (or touches no
    /// register but PC and IME).
    fn start_instruction(&mut self, instruction: CpuInstruction)
        requires
            supported(instruction),
            !(instruction is LdR8R8 || instruction is AddAR8 || instruction is AdcAR8
                || instruction is SubAR8 || instruction is SbcAR8 || instruction is AndAR8
                || instruction is OrAR8 || instruction is XorAR8 || instruction is CpAR8
                || instruction is DecR8 || instruction is IncR8),
        ensures
            *final(self) == old(self).spec_begin(instruction),
    {
        match instruction {
            CpuInstruction::LdR8Imm8(_) | CpuInstruction::AdcAImm8 | CpuInstruction::LdhAA8
            | CpuInstruction::LdhA8A | CpuInstruction::AddAImm8 | CpuInstruction::SubAImm8
            | CpuInstruction::SbcAImm8 | CpuInstruction::AndAImm8 | CpuInstruction::OrAImm8
            | CpuInstruction::XorAImm8 | CpuInstruction::CpAImm8 => {
                self.phase = CpuPhase::FetchImm8(instruction);
            },
            CpuInstruction::AddHlR16(_) | CpuInstruction::LdAR16mem(_)
            | CpuInstruction::LdR16memA(_) | CpuInstruction::LdHlMemImm8
            | CpuInstruction::LdHlMemR8(_) | CpuInstruction::LdAHlIncMem
            | CpuInstruction::LdAHlDecMem | CpuInstruction::LdHlIncMemA
            | CpuInstruction::LdHlDecMemA => {
                self.phase = CpuPhase::FetchR16(instruction);
            },
            CpuInstruction::LdR16Imm16(_) | CpuInstruction::LdSpImm16 => {
                self.phase = CpuPhase::FetchImm16Low(instruction);
            },
            CpuInstruction::JrNzE8 | CpuInstruction::JrZE8 | CpuInstruction::JrNcE8
            | CpuInstruction::JrCE8 | CpuInstruction::JrE8 | CpuInstruction::AddSpE8 => {
                self.phase = CpuPhase::FetchE8(instruction);
            },
            CpuInstruction::JpNzA16 | CpuInstruction::JpZA16 | CpuInstruction::JpNcA16
            | CpuInstruction::JpCA16 | CpuInstruction::JpA16 | CpuInstruction::CallA16
            | CpuInstruction::CallNzA16 | CpuInstruction::CallZA16 | CpuInstruction::CallNcA16
            | CpuInstruction::CallCA16 | CpuInstruction::LdAAddr | CpuInstruction::LdAddrA => {
                self.phase = CpuPhase::FetchA16Low(instruction);
            },
            CpuInstruction::JpHl => {
                let hl_value = self.registers.get_r16(CpuReg16::HL);
                self.registers.pc = hl_value;
                self.phase = CpuPhase::FetchOpcode;
            },
            CpuInstruction::Nop => {
                self.phase = CpuPhase::FetchOpcode;
            },
            CpuInstruction::DI => {
                self.ime = false;
                self.phase = CpuPhase::FetchOpcode;
            },
            CpuInstruction::EI => {
                self.ime = true;
                self.phase = CpuPhase::FetchOpcode;
            },
            CpuInstruction::Ret(CpuCondition::Always) => {
                self.phase = CpuPhase::ReadSpLow(instruction);
            },
            CpuInstruction::Ret(cond) => {
                self.phase = CpuPhase::CheckRetCondition(cond);
            },
            CpuInstruction::RetI => {
                self.phase = CpuPhase::ReadSpLow(instruction);
            },
            CpuInstruction::DecR16(r16) => {
                self.phase = CpuPhase::DecrementR16(r16);
            },
            CpuInstruction::IncR16(r16) => {
                self.phase = CpuPhase::IncrementR16(r16);
            },
            CpuInstruction::PushR16(r16) => {
                self.phase = CpuPhase::DecrementSp(r16);
            },
            CpuInstruction::PopR16(r16) => {
                self.phase = CpuPhase::PopR16Low(r16);
            },
            CpuInstruction::Rst(addr) => {
                self.phase = CpuPhase::DecrementSpForWrite(instruction, addr);
            },
            _ => {},
        }
    }
}

impl Cpu {
    /// One T-cycle: every fourth one runs a machine cycle of the current phase.
    pub fn step(&mut self, bus: &mut MemoryBus)
        requires
            old(self).wf(),
            old(self).can_step(old(bus)@),
        ensures
            (*final(self), final(bus)@) == old(self).spec_step(old(bus)@),
            final(self).wf(),
            final(bus).inv(),
            final(bus)@.rom.len() == old(bus)@.rom.len(),
    {
        if self.t_cycles_until_step != 0 {
            self.t_cycles_until_step -= 1;
            return;
        }
        self.t_cycles_until_step = 3;
        let ghost ticked = *self;
        match self.phase {
            CpuPhase::FetchOpcode => self.phase_fetch_opcode(bus),
            CpuPhase::FetchImm8(instruction) => self.fetch_imm8(instruction, bus),
            CpuPhase::FetchImm16Low(instruction) => self.fetch_imm16_low(instruction, bus),
            CpuPhase::FetchImm16High(instruction) => self.fetch_imm16_high(instruction, bus),
            CpuPhase::FetchR16(instruction) => self.fetch_r16(instruction, bus),
            CpuPhase::FetchE8(instruction) => self.fetch_e8(instruction, bus),
            CpuPhase::FetchA16Low(instruction) => self.fetch_a16_low(instruction, bus),
            CpuPhase::FetchA16High(instruction, low_byte) => {
                self.fetch_a16_high(instruction, low_byte, bus)
            },
            CpuPhase::DecrementSpForWrite(instruction, addr) => {
                self.decrement_sp_for_write(instruction, addr)
            },
            CpuPhase::IncrementR16(register) => self.increment_r16(register),
            CpuPhase::DecrementR16(register) => self.decrement_r16(register),
            CpuPhase::WriteSpMemHigh(instruction, addr) => {
                self.write_sp_high(instruction, addr, bus)
            },
            CpuPhase::WriteSpMemLow(instruction, addr) => self.write_sp_low(instruction, addr, bus),
            CpuPhase::ReadSpHigh(instruction, low_byte) => {
                self.read_sp_high(instruction, low_byte, bus)
            },
            CpuPhase::CheckRetCondition(condition) => self.check_return_condition(condition),
            CpuPhase::ReadSpLow(instruction) => self.read_sp_low(instruction, bus),
            CpuPhase::ApplyRelativeJump(offset) => self.apply_relative_jump(offset),
            CpuPhase::ApplyAbsoluteJump(addr) => self.apply_absolute_jump(addr),
            CpuPhase::ApplyAbsoluteJumpEnableInterrupts(addr) => {
                self.apply_absolute_jump(addr);
                self.ime = true;
            },
            CpuPhase::PushR16High(register) => self.push_r16_high(register, bus),
            CpuPhase::PushR16Low(register) => self.push_r16_low(register, bus),
            CpuPhase::DecrementSp(register) => self.decrement_sp(register),
            CpuPhase::PopR16Low(register) => self.pop_r16_low(register, bus),
            CpuPhase::PopR16High(register) => self.pop_r16_high(register, bus),
            CpuPhase::FetchA16Mem(instruction, addr) => self.fetch_a16_mem(instruction, addr, bus),
            CpuPhase::FetchR8(instruction) => self.phase_fetch_r8(instruction, bus),
            CpuPhase::AddSpE8Low(raw_offset) => self.add_sp_e8_low(raw_offset),
            CpuPhase::AddSpE8High(result_low, adjustment) => {
                self.add_sp_e8_high(result_low, adjustment)
            },
        }
        proof {
            lemma_machine_cycle_wf(ticked, old(bus)@);
        }
    }
}

/// The first cycle of a supported instruction moves to a phase that fits it, and
/// keeps the countdown and the opcode table.
proof fn lemma_begin_wf(cpu: Cpu, instruction: CpuInstruction)
    requires
        supported(instruction),
    ensures
        phase_wf(cpu.spec_begin(instruction).phase),
        cpu.spec_begin(instruction).instruction_set == cpu.instruction_set,
        cpu.spec_begin(instruction).t_cycles_until_step == cpu.t_cycles_until_step,
{
}

/// A machine cycle keeps the CPU well formed on every input it runs on.
pub proof fn lemma_machine_cycle_wf(cpu: Cpu, bus: MemoryBusView)
    requires
        cpu.wf(),
        cpu.t_cycles_until_step == 3,
        cpu.phase == CpuPhase::FetchOpcode ==> supported(decode(bus.read8(cpu.registers.pc))),
    ensures
        cpu.spec_machine_cycle(bus).0.wf(),
{
    lemma_machine_cycle_keeps_table(cpu, bus);
    lemma_machine_cycle_phase_wf(cpu, bus);
}

proof fn lemma_machine_cycle_keeps_table(cpu: Cpu, bus: MemoryBusView)
    requires
        cpu.phase == CpuPhase::FetchOpcode ==> supported(decode(bus.read8(cpu.registers.pc))),
    ensures
        cpu.spec_machine_cycle(bus).0.instruction_set == cpu.instruction_set,
        cpu.spec_machine_cycle(bus).0.t_cycles_until_step == cpu.t_cycles_until_step,
{
    if cpu.phase == CpuPhase::FetchOpcode {
        lemma_begin_wf(cpu.after_fetch(), decode(bus.read8(cpu.registers.pc)));
    }
}

proof fn lemma_machine_cycle_phase_wf(cpu: Cpu, bus: MemoryBusView)
    requires
        phase_wf(cpu.phase),
        cpu.phase == CpuPhase::FetchOpcode ==> supported(decode(bus.read8(cpu.registers.pc))),
    ensures
        phase_wf(cpu.spec_machine_cycle(bus).0.phase),
{
    match cpu.phase {
        CpuPhase::FetchOpcode => {
            lemma_begin_wf(cpu.after_fetch(), decode(bus.read8(cpu.registers.pc)));
        },
        CpuPhase::FetchImm8(i) => {
            assert(phase_wf(cpu.spec_fetch_imm8(i, bus).0.phase));
        },
        CpuPhase::FetchImm16Low(i) => {
            assert(phase_wf(cpu.spec_fetch_imm16_low(i, bus).phase));
        },
        CpuPhase::FetchImm16High(i) => {
            assert(phase_wf(cpu.spec_fetch_imm16_high(i, bus).phase));
        },
        CpuPhase::FetchR16(i) => {
            assert(phase_wf(cpu.spec_fetch_r16(i, bus).0.phase));
        },
        CpuPhase::FetchE8(i) => {
            assert(phase_wf(cpu.spec_fetch_e8(i, bus).phase));
        },
        CpuPhase::FetchA16Low(i) => {
            assert(phase_wf(cpu.spec_fetch_a16_low(i, bus).phase));
        },
        CpuPhase::FetchA16High(i, low) => {
            assert(phase_wf(cpu.spec_fetch_a16_high(i, low, bus).phase));
        },
        CpuPhase::FetchA16Mem(i, addr) => {
            assert(phase_wf(cpu.spec_fetch_a16_mem(i, addr, bus).0.phase));
        },
        CpuPhase::FetchR8(i) => {
            assert(phase_wf(cpu.spec_fetch_r8(i, bus).0.phase));
        },
        CpuPhase::ReadSpLow(i) => {
            assert(phase_wf(cpu.spec_read_sp_low(i, bus).phase));
        },
        CpuPhase::ReadSpHigh(i, low) => {
            assert(phase_wf(cpu.spec_read_sp_high(i, low, bus).phase));
        },
        CpuPhase::DecrementSpForWrite(i, addr) => {
            assert(phase_wf(cpu.spec_decrement_sp_for_write(i, addr).phase));
        },
        CpuPhase::WriteSpMemHigh(i, addr) => {
            assert(phase_wf(cpu.spec_write_sp_high(i, addr, bus).0.phase));
        },
        CpuPhase::WriteSpMemLow(i, addr) => {
            assert(phase_wf(cpu.spec_write_sp_low(i, addr, bus).0.phase));
        },
        CpuPhase::CheckRetCondition(cond) => {
            assert(phase_wf(cpu.spec_check_return_condition(cond).phase));
        },
        _ => {},
    }
}

/// Four T-cycles make one machine cycle: from a cycle boundary, the first T-cycle does
/// the cycle's work and the next three only count down, back to the next boundary.
pub proof fn lemma_machine_cycle_every_four_t_cycles(cpu: Cpu, bus: MemoryBusView)
    requires
        cpu.t_cycles_until_step == 0,
        cpu.phase == CpuPhase::FetchOpcode ==> supported(decode(bus.read8(cpu.registers.pc))),
    ensures
        ({
            let cycle = Cpu { t_cycles_until_step: 3, ..cpu }.spec_machine_cycle(bus);
            let (c1, b1) = cpu.spec_step(bus);
            let (c2, b2) = c1.spec_step(b1);
            let (c3, b3) = c2.spec_step(b2);
            let (c4, b4) = c3.spec_step(b3);
            &&& (c1, b1) == cycle
            &&& c1.t_cycles_until_step == 3
            &&& c4 == Cpu { t_cycles_until_step: 0, ..cycle.0 }
            &&& b4 == cycle.1
        }),
{
    lemma_machine_cycle_keeps_table(Cpu { t_cycles_until_step: 3, ..cpu }, bus);
}

/// A machine cycle either leaves the bus alone or makes one write through it.
pub proof fn lemma_machine_cycle_bus(cpu: Cpu, bus: MemoryBusView)
    ensures
        cpu.spec_machine_cycle(bus).1 == bus || exists|addr: u16, value: u8|
            cpu.spec_machine_cycle(bus).1 == bus.write8(addr, value),
{
    let regs = cpu.registers;
    match cpu.phase {
        CpuPhase::FetchImm8(i) => {
            let value = bus.read8(regs.pc);
            if i is LdHlMemImm8 {
                assert(cpu.spec_machine_cycle(bus).1 == bus.write8(regs.r16(CpuReg16::HL), value));
            } else if i is LdhA8A {
                assert(cpu.spec_machine_cycle(bus).1 == bus.write8((0xFF00 + value) as u16, regs.a));
            }
        },
        CpuPhase::FetchR16(i) => {
            match i {
                CpuInstruction::LdR16memA(dest) => {
                    assert(cpu.spec_machine_cycle(bus).1 == bus.write8(regs.r16(dest), regs.a));
                },
                CpuInstruction::LdHlMemR8(src) => {
                    assert(cpu.spec_machine_cycle(bus).1 == bus.write8(
                        regs.r16(CpuReg16::HL),
                        regs.r8(src),
                    ));
                },
                CpuInstruction::LdHlIncMemA | CpuInstruction::LdHlDecMemA => {
                    assert(cpu.spec_machine_cycle(bus).1 == bus.write8(
                        regs.r16(CpuReg16::HL),
                        regs.a,
                    ));
                },
                _ => {},
            }
        },
        CpuPhase::FetchA16Mem(i, addr) => {
            if !(i is LdAAddr) {
                assert(cpu.spec_machine_cycle(bus).1 == bus.write8(addr, regs.a));
            }
        },
        CpuPhase::FetchR8(i) => {
            if i is LdhCA {
                assert(cpu.spec_machine_cycle(bus).1 == bus.write8((0xFF00 + regs.c) as u16, regs.a));
            }
        },
        CpuPhase::WriteSpMemHigh(i, addr) => {
            assert(cpu.spec_machine_cycle(bus).1 == bus.write8(regs.sp, high_byte(regs.pc)));
        },
        CpuPhase::WriteSpMemLow(i, addr) => {
            assert(cpu.spec_machine_cycle(bus).1 == bus.write8(regs.sp, low_byte(regs.pc)));
        },
        CpuPhase::PushR16High(r) => {
            assert(cpu.spec_machine_cycle(bus).1 == bus.write8(regs.sp, high_byte(regs.r16(r))));
        },
        CpuPhase::PushR16Low(r) => {
            assert(cpu.spec_machine_cycle(bus).1 == bus.write8(regs.sp, low_byte(regs.r16(r))));
        },
        _ => {},
    }
}

/// Whether the ROM holds `addr`, where `addr` is a cartridge address.
fn rom_covers(bus: &MemoryBus, addr: u16) -> (covered: bool)
    ensures
        covered == bus@.rom_covers(addr),
{
    addr > 0x7FFF || (addr as usize) < bus.rom.len()
}

/// Whether the CPU executes an instruction (see `supported`).
pub fn is_supported(instruction: CpuInstruction) -> (r: bool)
    ensures
        r == supported(instruction),
{
    match instruction {
        CpuInstruction::LdAddrSp | CpuInstruction::LdhCA | CpuInstruction::LdhAC
        | CpuInstruction::LdHlSpE8 | CpuInstruction::LdSpHl | CpuInstruction::LdR8HlMem(_)
        | CpuInstruction::IncHlMem | CpuInstruction::DecHlMem | CpuInstruction::AluAHlMem(_)
        | CpuInstruction::Illegal | CpuInstruction::PrefixCb | CpuInstruction::Rlca
        | CpuInstruction::Rrca | CpuInstruction::Rla | CpuInstruction::Rra | CpuInstruction::Daa
        | CpuInstruction::Cpl | CpuInstruction::Scf | CpuInstruction::Ccf | CpuInstruction::Halt
        | CpuInstruction::Stop => false,
        _ => true,
    }
}

} // verus!
