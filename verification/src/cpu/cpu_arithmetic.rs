//! The arithmetic and logic unit: results and flags of 8- and 16-bit operations.
use vstd::prelude::*;

use crate::cpu::registers::CpuFlagsReg;

verus! {

/// The carry input of an operation as a number.
pub open spec fn bit(flag: bool) -> int {
    if flag { 1 } else { 0 }
}

/// `ADD`/`ADC` on bytes: the sum modulo 256; H is the carry out of bit 3, C the carry out of bit 7.
pub open spec fn add8(a: u8, b: u8, carry: bool) -> (u8, CpuFlagsReg) {
    let sum = a + b + bit(carry);
    let result = (sum % 256) as u8;
    (result, CpuFlagsReg {
        zero: result == 0,
        subtract: false,
        half_carry: a % 16 + b % 16 + bit(carry) > 15,
        carry: sum > 255,
    })
}

/// `SUB`/`SBC`/`CP` on bytes: the difference modulo 256; H is the borrow from bit 4, C the borrow out.
pub open spec fn sub8(a: u8, b: u8, borrow: bool) -> (u8, CpuFlagsReg) {
    let result = ((a - b - bit(borrow)) % 256) as u8;
    (result, CpuFlagsReg {
        zero: result == 0,
        subtract: true,
        half_carry: a % 16 < b % 16 + bit(borrow),
        carry: a < b + bit(borrow),
    })
}

/// 16-bit `ADD`/`INC`: Z is not computed (reported clear; 16-bit operations leave the CPU's Z
/// as it was, see `keep_zero`); H is the carry out of bit 11, C out of bit 15.
pub open spec fn add16(a: u16, b: u16, carry: bool) -> (u16, CpuFlagsReg) {
    let sum = a + b + bit(carry);
    (((sum % 65536) as u16), CpuFlagsReg {
        zero: false,
        subtract: false,
        half_carry: a % 4096 + b % 4096 + bit(carry) > 4095,
        carry: sum > 65535,
    })
}

/// 16-bit `DEC`: Z is not computed (reported clear; 16-bit operations leave the CPU's Z as it
/// was, see `keep_zero`); H is the borrow from bit 12, C the borrow out.
pub open spec fn sub16(a: u16, b: u16, borrow: bool) -> (u16, CpuFlagsReg) {
    ((((a - b - bit(borrow)) % 65536) as u16), CpuFlagsReg {
        zero: false,
        subtract: true,
        half_carry: a % 4096 < b % 4096 + bit(borrow),
        carry: a < b + bit(borrow),
    })
}

/// The flags of a bitwise operation with the given result; only `AND` sets H.
pub open spec fn logic_flags(result: u8, half_carry: bool) -> CpuFlagsReg {
    CpuFlagsReg { zero: result == 0, subtract: false, half_carry, carry: false }
}

/// Addition and subtraction with carry/borrow as the CPU computes them.
pub trait CpuArithmetic: Sized {
    spec fn spec_cpu_add(self, value: Self, carry_flag: bool) -> (Self, CpuFlagsReg);

    spec fn spec_cpu_sub(self, value: Self, borrow_flag: bool) -> (Self, CpuFlagsReg);

    spec fn spec_one() -> Self;

    fn cpu_add(&self, value: Self, carry_flag: bool) -> (r: (Self, CpuFlagsReg))
        ensures
            r == self.spec_cpu_add(value, carry_flag),
    ;

    fn cpu_sub(&self, value: Self, borrow_flag: bool) -> (r: (Self, CpuFlagsReg))
        ensures
            r == self.spec_cpu_sub(value, borrow_flag),
    ;

    fn cpu_inc(&self) -> (r: (Self, CpuFlagsReg))
        ensures
            r == self.spec_cpu_add(Self::spec_one(), false),
    ;

    fn cpu_dec(&self) -> (r: (Self, CpuFlagsReg))
        ensures
            r == self.spec_cpu_sub(Self::spec_one(), false),
    ;
}

/// Bitwise operations, which the CPU has on bytes only.
pub trait CpuLogic: Sized {
    spec fn spec_cpu_and(self, value: Self) -> (Self, CpuFlagsReg);

    spec fn spec_cpu_or(self, value: Self) -> (Self, CpuFlagsReg);

    spec fn spec_cpu_xor(self, value: Self) -> (Self, CpuFlagsReg);

    fn cpu_and(&self, value: Self) -> (r: (Self, CpuFlagsReg))
        ensures
            r == self.spec_cpu_and(value),
    ;

    fn cpu_or(&self, value: Self) -> (r: (Self, CpuFlagsReg))
        ensures
            r == self.spec_cpu_or(value),
    ;

    fn cpu_xor(&self, value: Self) -> (r: (Self, CpuFlagsReg))
        ensures
            r == self.spec_cpu_xor(value),
    ;
}

impl CpuArithmetic for u8 {
    open spec fn spec_cpu_add(self, value: u8, carry_flag: bool) -> (u8, CpuFlagsReg) {
        add8(self, value, carry_flag)
    }

    open spec fn spec_cpu_sub(self, value: u8, borrow_flag: bool) -> (u8, CpuFlagsReg) {
        sub8(self, value, borrow_flag)
    }

    open spec fn spec_one() -> u8 {
        1
    }

    fn cpu_add(&self, value: u8, carry_flag: bool) -> (r: (u8, CpuFlagsReg)) {
        let a = *self;
        let carry: u8 = if carry_flag { 1 } else { 0 };
        let result_u16: u16 = a as u16 + value as u16 + carry as u16;
        let result_carry = result_u16 > 0xFF;
        let result = result_u16 as u8;
        assert(result == result_u16 % 256) by (bit_vector)
            requires
                result == result_u16 as u8,
        ;
        assert((a & 0x0F) == a % 16 && (value & 0x0F) == value % 16) by (bit_vector);
        let flags = CpuFlagsReg {
            zero: result == 0,
            subtract: false,
            half_carry: ((a & 0x0F) + (value & 0x0F) + carry) > 0x0F,
            carry: result_carry,
        };
        (result, flags)
    }

    fn cpu_sub(&self, value: u8, borrow_flag: bool) -> (r: (u8, CpuFlagsReg)) {
        let a = *self;
        let borrow: u8 = if borrow_flag { 1 } else { 0 };
        let subtrahend: u16 = value as u16 + borrow as u16;
        let result_u16 = (a as u16).wrapping_sub(subtrahend);
        let result = result_u16 as u8;
        let borrow_occurred = (a as u16) < subtrahend;
        assert(result == ((a - subtrahend) % 256) as u8) by {
            if a >= subtrahend {
                assert(result_u16 == a - subtrahend);
            } else {
                assert(result_u16 == a - subtrahend + 65536);
            }
            assert(result == result_u16 % 256) by (bit_vector)
                requires
                    result == result_u16 as u8,
            ;
        }
        assert((a & 0x0F) == a % 16 && (value & 0x0F) == value % 16) by (bit_vector);
        let flags = CpuFlagsReg {
            zero: result == 0,
            subtract: true,
            half_carry: (a & 0x0F) < (value & 0x0F) + borrow,
            carry: borrow_occurred,
        };
        (result, flags)
    }

    fn cpu_inc(&self) -> (r: (u8, CpuFlagsReg)) {
        self.cpu_add(1, false)
    }

    fn cpu_dec(&self) -> (r: (u8, CpuFlagsReg)) {
        self.cpu_sub(1, false)
    }
}

impl CpuLogic for u8 {
    open spec fn spec_cpu_and(self, value: u8) -> (u8, CpuFlagsReg) {
        (self & value, logic_flags(self & value, true))
    }

    open spec fn spec_cpu_or(self, value: u8) -> (u8, CpuFlagsReg) {
        (self | value, logic_flags(self | value, false))
    }

    open spec fn spec_cpu_xor(self, value: u8) -> (u8, CpuFlagsReg) {
        (self ^ value, logic_flags(self ^ value, false))
    }

    fn cpu_and(&self, value: u8) -> (r: (u8, CpuFlagsReg)) {
        let result = *self & value;
        let flags = CpuFlagsReg {
            zero: result == 0,
            subtract: false,
            half_carry: true,
            carry: false,
        };
        (result, flags)
    }

    fn cpu_or(&self, value: u8) -> (r: (u8, CpuFlagsReg)) {
        let result = *self | value;
        let flags = CpuFlagsReg { zero: result == 0, subtract: false, half_carry: false, carry: false };
        (result, flags)
    }

    fn cpu_xor(&self, value: u8) -> (r: (u8, CpuFlagsReg)) {
        let result = *self ^ value;
        let flags = CpuFlagsReg { zero: result == 0, subtract: false, half_carry: false, carry: false };
        (result, flags)
    }
}

impl CpuArithmetic for u16 {
    open spec fn spec_cpu_add(self, value: u16, carry_flag: bool) -> (u16, CpuFlagsReg) {
        add16(self, value, carry_flag)
    }

    open spec fn spec_cpu_sub(self, value: u16, borrow_flag: bool) -> (u16, CpuFlagsReg) {
        sub16(self, value, borrow_flag)
    }

    open spec fn spec_one() -> u16 {
        1
    }

    fn cpu_add(&self, value: u16, carry_flag: bool) -> (r: (u16, CpuFlagsReg)) {
        let a = *self;
        let carry: u16 = if carry_flag { 1 } else { 0 };
        let result_u32: u32 = a as u32 + value as u32 + carry as u32;
        let result_carry = result_u32 > 0xFFFF;
        let result = result_u32 as u16;
        assert(result == result_u32 % 65536) by (bit_vector)
            requires
                result == result_u32 as u16,
        ;
        assert((a & 0x0FFF) == a % 4096 && (value & 0x0FFF) == value % 4096) by (bit_vector);
        let flags = CpuFlagsReg {
            zero: false,
            subtract: false,
            half_carry: ((a & 0x0FFF) + (value & 0x0FFF) + carry) > 0x0FFF,
            carry: result_carry,
        };
        (result, flags)
    }

    fn cpu_sub(&self, value: u16, borrow_flag: bool) -> (r: (u16, CpuFlagsReg)) {
        let a = *self;
        let borrow: u16 = if borrow_flag { 1 } else { 0 };
        let subtrahend: u32 = value as u32 + borrow as u32;
        let result_u32 = (a as u32).wrapping_sub(subtrahend);
        let result = result_u32 as u16;
        let borrow_occurred = (a as u32) < subtrahend;
        assert(result == ((a - subtrahend) % 65536) as u16) by {
            if a >= subtrahend {
                assert(result_u32 == a - subtrahend);
            } else {
                assert(result_u32 == a - subtrahend + 0x1_0000_0000);
            }
            assert(result == result_u32 % 65536) by (bit_vector)
                requires
                    result == result_u32 as u16,
            ;
        }
        assert((a & 0x0FFF) == a % 4096 && (value & 0x0FFF) == value % 4096) by (bit_vector);
        let flags = CpuFlagsReg {
            zero: false,
            subtract: true,
            half_carry: (a & 0x0FFF) < (value & 0x0FFF) + borrow,
            carry: borrow_occurred,
        };
        (result, flags)
    }

    fn cpu_inc(&self) -> (r: (u16, CpuFlagsReg)) {
        self.cpu_add(1, false)
    }

    fn cpu_dec(&self) -> (r: (u16, CpuFlagsReg)) {
        self.cpu_sub(1, false)
    }
}

/// Subtracting what was added gives the byte back, whatever the carries.
pub proof fn lemma_add8_sub8_inverse(a: u8, b: u8, carry: bool)
    ensures
        sub8(add8(a, b, carry).0, b, carry).0 == a,
{
}

/// `ADD` is commutative in result and flags.
pub proof fn lemma_add8_commutes(a: u8, b: u8, carry: bool)
    ensures
        add8(a, b, carry) == add8(b, a, carry),
{
}

/// A comparison (a subtraction without borrow) sets Z exactly when the bytes are equal
/// and C exactly when the first is smaller.
pub proof fn lemma_sub8_compares(a: u8, b: u8)
    ensures
        sub8(a, b, false).1.zero <==> a == b,
        sub8(a, b, false).1.carry <==> a < b,
{
}

/// Decrementing an incremented word gives it back.
pub proof fn lemma_add16_sub16_inverse(a: u16, b: u16)
    ensures
        sub16(add16(a, b, false).0, b, false).0 == a,
{
}

} // verus!
