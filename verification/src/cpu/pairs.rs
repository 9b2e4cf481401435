//! Register pairs: 16-bit `ADD HL`, `INC`/`DEC` of a pair, and the loads through BC, DE
//! and HL (with HL moving on after `LD A, (HL+)`, `LD (HL-), A` and the like).
use vstd::prelude::*;

use crate::cpu::instructions::CpuInstruction;
use crate::cpu::registers::{CpuReg16, CpuRegisters, low_byte};
use crate::cpu::{Cpu, CpuPhase};
use crate::memory_bus::MemoryBusView;

verus! {

/// The value of BC, DE, HL or SP: the first register of a pair is the high byte.
pub open spec fn pair_value(registers: CpuRegisters, pair: CpuReg16) -> int {
    match pair {
        CpuReg16::BC => registers.b * 256 + registers.c,
        CpuReg16::DE => registers.d * 256 + registers.e,
        CpuReg16::HL => registers.h * 256 + registers.l,
        CpuReg16::SP => registers.sp as int,
        CpuReg16::AF => registers.a * 256,
    }
}

/// The registers with BC, DE, HL or SP changed and the rest as in `before`: whether
/// `after` differs from `before` only in `pair` (and possibly F), with the pair at `value`.
pub open spec fn only_pair_changes(
    before: CpuRegisters,
    after: CpuRegisters,
    pair: CpuReg16,
    value: int,
) -> bool {
    &&& pair_value(after, pair) == value
    &&& match pair {
        CpuReg16::BC => after == CpuRegisters { b: after.b, c: after.c, f: after.f, ..before },
        CpuReg16::DE => after == CpuRegisters { d: after.d, e: after.e, f: after.f, ..before },
        CpuReg16::HL => after == CpuRegisters { h: after.h, l: after.l, f: after.f, ..before },
        CpuReg16::SP => after == CpuRegisters { sp: after.sp, f: after.f, ..before },
        CpuReg16::AF => false,
    }
}

/// `ADD HL, rr` in its second cycle: HL becomes HL + rr modulo 65536; Z keeps its value, N
/// is cleared, H is the carry out of bit 11 and C the carry out of bit 15; nothing else
/// changes and the bus is not touched.
#[verifier::spinoff_prover]
#[verifier::rlimit(40)]
pub proof fn lemma_add_hl(cpu: Cpu, bus: MemoryBusView, source: CpuReg16)
    requires
        source != CpuReg16::AF,
    ensures
        ({
            let (next, bus_after) = cpu.spec_fetch_r16(CpuInstruction::AddHlR16(source), bus);
            let before = cpu.registers;
            let after = next.registers;
            let hl = pair_value(before, CpuReg16::HL);
            let v = pair_value(before, source);
            &&& bus_after == bus
            &&& next.phase == CpuPhase::FetchOpcode
            &&& only_pair_changes(before, after, CpuReg16::HL, (hl + v) % 65536)
            &&& after.f.zero == before.f.zero
            &&& !after.f.subtract
            &&& after.f.half_carry == (hl % 4096 + v % 4096 >= 4096)
            &&& after.f.carry == (hl + v >= 65536)
        }),
{
}

/// `INC rr` and `DEC rr` (BC, DE, HL or SP) in their second cycle: the pair goes one up or
/// down modulo 65536, Z keeps its value, and no other register but F changes.
#[verifier::spinoff_prover]
#[verifier::rlimit(40)]
pub proof fn lemma_inc_dec_pair(cpu: Cpu, pair: CpuReg16)
    requires
        pair != CpuReg16::AF,
    ensures
        ({
            let before = cpu.registers;
            let up = cpu.spec_increment_r16(pair);
            let down = cpu.spec_decrement_r16(pair);
            &&& up.phase == CpuPhase::FetchOpcode
            &&& only_pair_changes(before, up.registers, pair, (pair_value(before, pair) + 1) % 65536)
            &&& up.registers.f.zero == before.f.zero
            &&& down.phase == CpuPhase::FetchOpcode
            &&& only_pair_changes(before, down.registers, pair, (pair_value(before, pair) - 1) % 65536)
            &&& down.registers.f.zero == before.f.zero
        }),
{
}

/// The loads through a pair, in their second cycle: `LD A, (rr)` reads the byte at BC or
/// DE into A and `LD (rr), A` writes A there; `LD A, (HL+)`/`(HL-)` read the byte at HL
/// into A and `LD (HL+), A`/`(HL-), A` write A there, and then HL goes one up or down
/// modulo 65536. Nothing else changes, F included.
#[verifier::spinoff_prover]
#[verifier::rlimit(60)]
pub proof fn lemma_pair_loads(cpu: Cpu, bus: MemoryBusView, pair: CpuReg16)
    requires
        pair == CpuReg16::BC || pair == CpuReg16::DE,
    ensures
        ({
            let before = cpu.registers;
            let at_pair = pair_value(before, pair) as u16;
            let hl = pair_value(before, CpuReg16::HL);
            let (load, load_bus) = cpu.spec_fetch_r16(CpuInstruction::LdAR16mem(pair), bus);
            let (store, store_bus) = cpu.spec_fetch_r16(CpuInstruction::LdR16memA(pair), bus);
            let (inc_load, inc_load_bus) = cpu.spec_fetch_r16(CpuInstruction::LdAHlIncMem, bus);
            let (dec_load, dec_load_bus) = cpu.spec_fetch_r16(CpuInstruction::LdAHlDecMem, bus);
            let (inc_store, inc_store_bus) = cpu.spec_fetch_r16(CpuInstruction::LdHlIncMemA, bus);
            let (dec_store, dec_store_bus) = cpu.spec_fetch_r16(CpuInstruction::LdHlDecMemA, bus);
            &&& load.registers == (CpuRegisters { a: bus.read8(at_pair), ..before })
            &&& load_bus == bus
            &&& store.registers == before
            &&& store_bus == bus.write8(at_pair, before.a)
            &&& inc_load.registers.a == bus.read8(hl as u16)
            &&& only_pair_changes(
                CpuRegisters { a: inc_load.registers.a, ..before },
                inc_load.registers,
                CpuReg16::HL,
                (hl + 1) % 65536,
            )
            &&& inc_load.registers.f == before.f
            &&& inc_load_bus == bus
            &&& dec_load.registers.a == bus.read8(hl as u16)
            &&& only_pair_changes(
                CpuRegisters { a: dec_load.registers.a, ..before },
                dec_load.registers,
                CpuReg16::HL,
                (hl - 1) % 65536,
            )
            &&& dec_load.registers.f == before.f
            &&& dec_load_bus == bus
            &&& only_pair_changes(before, inc_store.registers, CpuReg16::HL, (hl + 1) % 65536)
            &&& inc_store.registers.f == before.f
            &&& inc_store_bus == bus.write8(hl as u16, before.a)
            &&& only_pair_changes(before, dec_store.registers, CpuReg16::HL, (hl - 1) % 65536)
            &&& dec_store.registers.f == before.f
            &&& dec_store_bus == bus.write8(hl as u16, before.a)
            &&& load.phase == CpuPhase::FetchOpcode && store.phase == CpuPhase::FetchOpcode
            &&& inc_load.phase == CpuPhase::FetchOpcode && dec_load.phase == CpuPhase::FetchOpcode
            &&& inc_store.phase == CpuPhase::FetchOpcode && dec_store.phase == CpuPhase::FetchOpcode
        }),
{
}

/// `ADD SP, e8` over its three cycles after the opcode: the offset byte is read as a signed
/// number (−128 to 127) and added to SP modulo 65536; Z and N are cleared, and H and C are
/// the carries out of bits 3 and 7 of the unsigned addition of the offset byte to the low
/// byte of SP; PC moves past the offset and nothing else changes.
#[verifier::spinoff_prover]
#[verifier::rlimit(60)]
pub proof fn lemma_add_sp_offset(cpu: Cpu, bus: MemoryBusView)
    ensures
        ({
            let before = cpu.registers;
            let raw = bus.read8(before.pc) as int;
            let offset = if raw < 128 { raw } else { raw - 256 };
            let low = before.sp as int % 256;
            let first = cpu.spec_fetch_e8(CpuInstruction::AddSpE8, bus);
            let (second, _b2) = first.spec_machine_cycle(bus);
            let (third, bus_after) = second.spec_machine_cycle(bus);
            let after = third.registers;
            &&& bus_after == bus
            &&& third.phase == CpuPhase::FetchOpcode
            &&& after.sp == (before.sp as int + offset) % 65536
            &&& !after.f.zero && !after.f.subtract
            &&& after.f.half_carry == (low % 16 + raw % 16 >= 16)
            &&& after.f.carry == (low + raw >= 256)
            &&& after == (CpuRegisters {
                pc: ((before.pc + 1) % 65536) as u16,
                sp: after.sp,
                f: after.f,
                ..before
            })
        }),
{
    let before = cpu.registers;
    let raw = bus.read8(before.pc);
    let first = cpu.spec_fetch_e8(CpuInstruction::AddSpE8, bus);
    assert(first.phase == CpuPhase::AddSpE8Low(raw));
    let second = first.spec_add_sp_e8_low(raw);
    assert(first.spec_machine_cycle(bus).0 == second);
    let low = low_byte(before.sp);
    let result_low = ((low + raw) % 256) as u8;
    let adjustment: u8 = if raw >= 0x80 { 0xFF } else { 0x00 };
    assert(second.phase == CpuPhase::AddSpE8High(result_low, adjustment));
    assert(second.registers.f.carry == (low + raw >= 256));
    let third = second.spec_add_sp_e8_high(result_low, adjustment);
    assert(second.spec_machine_cycle(bus).0 == third);
    lemma_signed_sp_sum(before.sp, raw);
}

/// The two byte-wide halves of `ADD SP, e8` give SP plus the signed offset.
proof fn lemma_signed_sp_sum(sp: u16, raw: u8)
    ensures
        ({
            let low = sp as int % 256;
            let carry = if low + raw >= 256 { 1int } else { 0int };
            let adjustment = if raw >= 128 { 255int } else { 0int };
            let result_low = (low + raw) % 256;
            let result_high = (sp as int / 256 + adjustment + carry) % 256;
            256 * result_high + result_low == (sp + (if raw < 128 { raw as int } else { raw - 256 }))
                % 65536
        }),
{
    let low = sp as int % 256;
    let high = sp as int / 256;
    let carry = if low + raw >= 256 { 1int } else { 0int };
    let adjustment = if raw >= 128 { 255int } else { 0int };
    let result_low = (low + raw) % 256;
    assert(sp == 256 * high + low);
    assert(low + raw == 256 * carry + result_low);
}

} // verus!
