//! The SM83 CPU: one machine cycle (four T-cycles) per phase of an instruction.
pub mod alu;
pub mod branches;
pub mod calls;
pub mod cpu_arithmetic;
pub mod execute;
pub mod instructions;
pub mod loads;
pub mod pairs;
pub mod registers;
pub mod semantics;
pub mod stack;

pub use crate::cpu::cpu_arithmetic::{CpuArithmetic, CpuLogic};
pub use crate::cpu::instructions::{CpuCondition, CpuInstruction};
pub use crate::cpu::registers::{CpuReg16, CpuReg8, CpuRegisters};

use vstd::prelude::*;

use crate::cpu::instructions::{decode, lemma_decode_injective};
use crate::cpu::registers::CpuFlagsReg;

verus! {

/// What the CPU does on its next machine cycle; the instruction in progress and the
/// bytes it has read so far ride along.
#[derive(Clone, Copy, Debug, PartialEq, Eq, Structural)]
pub enum CpuPhase {
    FetchOpcode,
    FetchImm8(CpuInstruction),
    FetchImm16Low(CpuInstruction),
    FetchImm16High(CpuInstruction),
    FetchR16(CpuInstruction),
    FetchE8(CpuInstruction),
    FetchA16Low(CpuInstruction),
    FetchA16High(CpuInstruction, u8),
    FetchA16Mem(CpuInstruction, u16),
    FetchR8(CpuInstruction),
    ApplyRelativeJump(i8),
    ApplyAbsoluteJump(u16),
    ApplyAbsoluteJumpEnableInterrupts(u16),
    AddSpE8Low(u8),
    AddSpE8High(u8, u8),
    DecrementSpForWrite(CpuInstruction, u16),
    DecrementSp(CpuReg16),
    WriteSpMemHigh(CpuInstruction, u16),
    WriteSpMemLow(CpuInstruction, u16),
    ReadSpHigh(CpuInstruction, u8),
    ReadSpLow(CpuInstruction),
    PushR16Low(CpuReg16),
    PushR16High(CpuReg16),
    PopR16Low(CpuReg16),
    PopR16High(CpuReg16),
    DecrementR16(CpuReg16),
    IncrementR16(CpuReg16),
    CheckRetCondition(CpuCondition),
}

/// The CPU: the T-cycle countdown to its next machine cycle, the phase of the current
/// instruction, the registers, the opcode table and the interrupt master enable flag.
pub struct Cpu {
    pub t_cycles_until_step: u8,
    pub phase: CpuPhase,
    pub registers: CpuRegisters,
    pub instruction_set: [[CpuInstruction; 16]; 16],
    pub ime: bool,
}

/// The registers at power-on: all zero.
pub open spec fn zero_registers() -> CpuRegisters {
    CpuRegisters {
        pc: 0,
        sp: 0,
        a: 0,
        b: 0,
        c: 0,
        d: 0,
        e: 0,
        h: 0,
        l: 0,
        f: CpuFlagsReg { zero: false, subtract: false, half_carry: false, carry: false },
    }
}

/// The registers as the boot ROM leaves them.
pub open spec fn post_boot_registers() -> CpuRegisters {
    CpuRegisters {
        pc: 0x100,
        sp: 0xFFFE,
        a: 0x01,
        b: 0x00,
        c: 0x13,
        d: 0x00,
        e: 0xD8,
        h: 0x01,
        l: 0x4D,
        f: CpuFlagsReg { zero: true, subtract: false, half_carry: true, carry: true },
    }
}

impl Cpu {
    /// A CPU at power-on: about to fetch the opcode at 0 after three more T-cycles.
    pub fn new() -> (cpu: Self)
        ensures
            cpu.wf(),
            cpu.t_cycles_until_step == 3,
            cpu.phase == CpuPhase::FetchOpcode,
            cpu.registers == zero_registers(),
            !cpu.ime,
    {
        Cpu {
            t_cycles_until_step: 3,
            phase: CpuPhase::FetchOpcode,
            registers: CpuRegisters::new(),
            instruction_set: Self::initialize_instruction_set(),
            ime: false,
        }
    }

    /// A CPU in the state that the boot ROM hands over in, at 0x100.
    pub fn new_post_boot() -> (cpu: Self)
        ensures
            cpu.wf(),
            cpu.t_cycles_until_step == 3,
            cpu.phase == CpuPhase::FetchOpcode,
            cpu.registers == post_boot_registers(),
            !cpu.ime,
    {
        let mut cpu = Self::new();
        cpu.registers.pc = 0x100;
        cpu.registers.sp = 0xFFFE;
        cpu.registers.a = 0x01;
        cpu.registers.f.zero = true;
        cpu.registers.f.subtract = false;
        cpu.registers.f.half_carry = true;
        cpu.registers.f.carry = true;
        cpu.registers.b = 0x00;
        cpu.registers.c = 0x13;
        cpu.registers.d = 0x00;
        cpu.registers.e = 0xD8;
        cpu.registers.h = 0x01;
        cpu.registers.l = 0x4D;
        cpu
    }

    /// The first opcode, in table order, that stands for `instruction`; for any instruction
    /// but `Illegal` it is the only one.
    pub fn encode_instruction(&self, instruction: CpuInstruction) -> (opcode: u8)
        requires
            self.wf(),
            exists|op: u8| decode(op) == instruction,
        ensures
            decode(opcode) == instruction,
            forall|op: u8| op < opcode ==> decode(op) != instruction,
            !(instruction is Illegal) ==> forall|op: u8| #[trigger] decode(op) == instruction ==> op
                == opcode,
    {
        let mut row: usize = 0;
        while row < 16
            invariant
                row <= 16,
                self.wf(),
                forall|op: u8| op < row * 16 ==> decode(op) != instruction,
            decreases 16 - row,
        {
            let mut col: usize = 0;
            while col < 16
                invariant
                    row < 16,
                    col <= 16,
                    self.wf(),
                    forall|op: u8| op < row * 16 + col ==> decode(op) != instruction,
                decreases 16 - col,
            {
                assert(self.instruction_set[row as int][col as int] == decode(
                    (row * 16 + col) as u8,
                ));
                if self.instruction_set[row][col] == instruction {
                    let opcode = (row * 16 + col) as u8;
                    proof {
                        assert forall|op: u8|
                            !(instruction is Illegal) && #[trigger] decode(op) == instruction
                            implies op == opcode by {
                            lemma_decode_injective(op, opcode);
                        }
                    }
                    return opcode;
                }
                col += 1;
            }
            row += 1;
        }
        let ghost witness = choose|op: u8| decode(op) == instruction;
        assert(false);
        0
    }
}

} // verus!
