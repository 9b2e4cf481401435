//! The register file of the SM83 CPU.
use vstd::prelude::*;

verus! {

/// An 8-bit register that instructions can name.
#[derive(Clone, Copy, Debug, PartialEq, Eq, Structural)]
pub enum CpuReg8 {
    A,
    B,
    C,
    D,
    E,
    H,
    L,
}

/// A 16-bit register pair (or the stack pointer).
#[derive(Clone, Copy, Debug, PartialEq, Eq, Structural)]
pub enum CpuReg16 {
    BC,
    DE,
    HL,
    AF,
    SP,
}

/// The flags register F; only its upper four bits exist.
#[derive(Clone, Copy, Debug, PartialEq, Eq, Structural)]
pub struct CpuFlagsReg {
    pub zero: bool,
    pub subtract: bool,
    pub half_carry: bool,
    pub carry: bool,
}

/// The byte value of one flag: `weight` when it is set, else 0.
pub open spec fn flag_weight(set: bool, weight: int) -> int {
    if set { weight } else { 0 }
}

impl CpuFlagsReg {
    /// The flags that a byte of F holds: Z in bit 7, N in bit 6, H in bit 5, C in bit 4.
    pub open spec fn spec_from_byte(value: u8) -> CpuFlagsReg {
        CpuFlagsReg {
            zero: value & 0x80 != 0,
            subtract: value & 0x40 != 0,
            half_carry: value & 0x20 != 0,
            carry: value & 0x10 != 0,
        }
    }

    /// The byte that F reads as; its lower nibble is always zero.
    pub open spec fn spec_to_byte(self) -> int {
        flag_weight(self.zero, 0x80) + flag_weight(self.subtract, 0x40) + flag_weight(
            self.half_carry,
            0x20,
        ) + flag_weight(self.carry, 0x10)
    }

    pub fn new() -> (flags: Self)
        ensures
            flags == (CpuFlagsReg { zero: false, subtract: false, half_carry: false, carry: false }),
    {
        CpuFlagsReg { zero: false, subtract: false, half_carry: false, carry: false }
    }

    /// Unpacks the upper nibble of `value`; the lower nibble is dropped.
    pub fn from_byte(value: u8) -> (flags: Self)
        ensures
            flags == Self::spec_from_byte(value),
    {
        CpuFlagsReg {
            zero: value & 0b1000_0000 != 0,
            subtract: value & 0b0100_0000 != 0,
            half_carry: value & 0b0010_0000 != 0,
            carry: value & 0b0001_0000 != 0,
        }
    }

    /// Packs the flags into the byte that register F holds.
    pub fn to_byte(&self) -> (value: u8)
        ensures
            value == self.spec_to_byte(),
    {
        let z: u8 = if self.zero { 0b1000_0000 } else { 0 };
        let n: u8 = if self.subtract { 0b0100_0000 } else { 0 };
        let h: u8 = if self.half_carry { 0b0010_0000 } else { 0 };
        let c: u8 = if self.carry { 0b0001_0000 } else { 0 };
        assert(z | n | h | c == z + n + h + c) by (bit_vector)
            requires
                z == 0 || z == 0x80,
                n == 0 || n == 0x40,
                h == 0 || h == 0x20,
                c == 0 || c == 0x10,
        ;
        z | n | h | c
    }
}

impl From<u8> for CpuFlagsReg {
    fn from(value: u8) -> (flags: Self) {
        Self::from_byte(value)
    }
}

impl vstd::std_specs::convert::FromSpecImpl<u8> for CpuFlagsReg {
    open spec fn obeys_from_spec() -> bool {
        true
    }

    open spec fn from_spec(value: u8) -> Self {
        Self::spec_from_byte(value)
    }
}

impl From<&CpuFlagsReg> for u8 {
    fn from(flags: &CpuFlagsReg) -> (value: u8) {
        flags.to_byte()
    }
}

impl vstd::std_specs::convert::FromSpecImpl<&CpuFlagsReg> for u8 {
    open spec fn obeys_from_spec() -> bool {
        true
    }

    open spec fn from_spec(flags: &CpuFlagsReg) -> u8 {
        flags.spec_to_byte() as u8
    }
}

/// The bits of F: Z is bit 7, N bit 6, H bit 5 and C bit 4; the low nibble reads as 0.
pub proof fn lemma_flags_bits(flags: CpuFlagsReg)
    ensures
        (flags.spec_to_byte() / 128) % 2 == (if flags.zero { 1int } else { 0int }),
        (flags.spec_to_byte() / 64) % 2 == (if flags.subtract { 1int } else { 0int }),
        (flags.spec_to_byte() / 32) % 2 == (if flags.half_carry { 1int } else { 0int }),
        (flags.spec_to_byte() / 16) % 2 == (if flags.carry { 1int } else { 0int }),
        flags.spec_to_byte() % 16 == 0,
        0 <= flags.spec_to_byte() < 256,
{
}

/// Packing the flags and unpacking the byte gives the flags back.
pub proof fn lemma_flags_byte_round_trip(flags: CpuFlagsReg)
    ensures
        0 <= flags.spec_to_byte() < 256,
        CpuFlagsReg::spec_from_byte(flags.spec_to_byte() as u8) == flags,
{
    let b = flags.spec_to_byte() as u8;
    let z: u8 = if flags.zero { 0x80 } else { 0 };
    let n: u8 = if flags.subtract { 0x40 } else { 0 };
    let h: u8 = if flags.half_carry { 0x20 } else { 0 };
    let c: u8 = if flags.carry { 0x10 } else { 0 };
    assert(b == z + n + h + c);
    assert({
        &&& ((z + n + h + c) as u8 & 0x80 != 0) == (z == 0x80)
        &&& ((z + n + h + c) as u8 & 0x40 != 0) == (n == 0x40)
        &&& ((z + n + h + c) as u8 & 0x20 != 0) == (h == 0x20)
        &&& ((z + n + h + c) as u8 & 0x10 != 0) == (c == 0x10)
    }) by (bit_vector)
        requires
            z == 0 || z == 0x80,
            n == 0 || n == 0x40,
            h == 0 || h == 0x20,
            c == 0 || c == 0x10,
    ;
}

/// Unpacking a byte and packing it again keeps its upper nibble and clears the lower one.
pub proof fn lemma_byte_flags_round_trip(value: u8)
    ensures
        CpuFlagsReg::spec_from_byte(value).spec_to_byte() == value & 0xF0,
{
    let f = CpuFlagsReg::spec_from_byte(value);
    let z: u8 = if value & 0x80 != 0 { 0x80 } else { 0 };
    let n: u8 = if value & 0x40 != 0 { 0x40 } else { 0 };
    let h: u8 = if value & 0x20 != 0 { 0x20 } else { 0 };
    let c: u8 = if value & 0x10 != 0 { 0x10 } else { 0 };
    assert(f.spec_to_byte() == z + n + h + c);
    assert(value & 0xF0 == z + n + h + c) by (bit_vector)
        requires
            z == (if value & 0x80 != 0 { 0x80u8 } else { 0u8 }),
            n == (if value & 0x40 != 0 { 0x40u8 } else { 0u8 }),
            h == (if value & 0x20 != 0 { 0x20u8 } else { 0u8 }),
            c == (if value & 0x10 != 0 { 0x10u8 } else { 0u8 }),
    ;
}


/// The register file. `f` holds the flags; the rest are plain bytes and words.
#[derive(Clone, Copy, Debug, PartialEq, Eq, Structural)]
pub struct CpuRegisters {
    pub pc: u16,
    pub sp: u16,
    pub a: u8,
    pub b: u8,
    pub c: u8,
    pub d: u8,
    pub e: u8,
    pub h: u8,
    pub l: u8,
    pub f: CpuFlagsReg,
}

/// The word whose high byte is `high` and low byte is `low`.
pub open spec fn word(high: u8, low: u8) -> u16 {
    (high as int * 256 + low as int) as u16
}

/// The high byte of a word.
pub open spec fn high_byte(value: u16) -> u8 {
    (value as int / 256) as u8
}

/// The low byte of a word.
pub open spec fn low_byte(value: u16) -> u8 {
    (value as int % 256) as u8
}

impl CpuRegisters {
    /// The value of an 8-bit register.
    pub open spec fn r8(self, register: CpuReg8) -> u8 {
        match register {
            CpuReg8::A => self.a,
            CpuReg8::B => self.b,
            CpuReg8::C => self.c,
            CpuReg8::D => self.d,
            CpuReg8::E => self.e,
            CpuReg8::H => self.h,
            CpuReg8::L => self.l,
        }
    }

    /// The registers with one 8-bit register replaced.
    pub open spec fn with_r8(self, register: CpuReg8, value: u8) -> CpuRegisters {
        match register {
            CpuReg8::A => CpuRegisters { a: value, ..self },
            CpuReg8::B => CpuRegisters { b: value, ..self },
            CpuReg8::C => CpuRegisters { c: value, ..self },
            CpuReg8::D => CpuRegisters { d: value, ..self },
            CpuReg8::E => CpuRegisters { e: value, ..self },
            CpuReg8::H => CpuRegisters { h: value, ..self },
            CpuReg8::L => CpuRegisters { l: value, ..self },
        }
    }

    /// The value of a 16-bit register; AF reads F through its byte form.
    pub open spec fn r16(self, register: CpuReg16) -> u16 {
        match register {
            CpuReg16::BC => word(self.b, self.c),
            CpuReg16::DE => word(self.d, self.e),
            CpuReg16::HL => word(self.h, self.l),
            CpuReg16::AF => word(self.a, self.f.spec_to_byte() as u8),
            CpuReg16::SP => self.sp,
        }
    }

    /// The registers with the low byte of a pair replaced (F takes the upper nibble only).
    pub open spec fn with_r16_low(self, register: CpuReg16, value: u8) -> CpuRegisters {
        match register {
            CpuReg16::BC => CpuRegisters { c: value, ..self },
            CpuReg16::DE => CpuRegisters { e: value, ..self },
            CpuReg16::HL => CpuRegisters { l: value, ..self },
            CpuReg16::AF => CpuRegisters { f: CpuFlagsReg::spec_from_byte(value), ..self },
            CpuReg16::SP => CpuRegisters { sp: word(high_byte(self.sp), value), ..self },
        }
    }

    /// The registers with the high byte of a pair replaced.
    pub open spec fn with_r16_high(self, register: CpuReg16, value: u8) -> CpuRegisters {
        match register {
            CpuReg16::BC => CpuRegisters { b: value, ..self },
            CpuReg16::DE => CpuRegisters { d: value, ..self },
            CpuReg16::HL => CpuRegisters { h: value, ..self },
            CpuReg16::AF => CpuRegisters { a: value, ..self },
            CpuReg16::SP => CpuRegisters { sp: word(value, low_byte(self.sp)), ..self },
        }
    }

    /// The registers with a whole pair replaced.
    pub open spec fn with_r16(self, register: CpuReg16, value: u16) -> CpuRegisters {
        self.with_r16_high(register, high_byte(value)).with_r16_low(register, low_byte(value))
    }

    pub fn new() -> (registers: Self)
        ensures
            registers == (CpuRegisters {
                pc: 0,
                sp: 0,
                a: 0,
                b: 0,
                c: 0,
                d: 0,
                e: 0,
                h: 0,
                l: 0,
                f: CpuFlagsReg { zero: false, subtract: false, half_carry: false, carry: false },
            }),
    {
        CpuRegisters {
            pc: 0,
            sp: 0,
            a: 0,
            b: 0,
            c: 0,
            d: 0,
            e: 0,
            h: 0,
            l: 0,
            f: CpuFlagsReg::new(),
        }
    }

    pub fn set_r8(&mut self, register: CpuReg8, value: u8)
        ensures
            *final(self) == old(self).with_r8(register, value),
    {
        match register {
            CpuReg8::A => self.a = value,
            CpuReg8::B => self.b = value,
            CpuReg8::C => self.c = value,
            CpuReg8::D => self.d = value,
            CpuReg8::E => self.e = value,
            CpuReg8::H => self.h = value,
            CpuReg8::L => self.l = value,
        }
    }

    pub fn get_r8(&self, register: CpuReg8) -> (value: u8)
        ensures
            value == self.r8(register),
    {
        match register {
            CpuReg8::A => self.a,
            CpuReg8::B => self.b,
            CpuReg8::C => self.c,
            CpuReg8::D => self.d,
            CpuReg8::E => self.e,
            CpuReg8::H => self.h,
            CpuReg8::L => self.l,
        }
    }

    pub fn set_r16_low(&mut self, register: CpuReg16, value: u8)
        ensures
            *final(self) == old(self).with_r16_low(register, value),
    {
        match register {
            CpuReg16::BC => self.c = value,
            CpuReg16::DE => self.e = value,
            CpuReg16::HL => self.l = value,
            CpuReg16::AF => self.f = CpuFlagsReg::from_byte(value),
            CpuReg16::SP => {
                let sp = self.sp;
                let r = (sp & 0xFF00) | (value as u16);
                assert(r == word(high_byte(sp), value)) by {
                    assert((sp & 0xFF00) | (value as u16) == (sp / 256) * 256 + value)
                        by (bit_vector);
                }
                self.sp = r;
            },
        }
    }

    pub fn set_r16_high(&mut self, register: CpuReg16, value: u8)
        ensures
            *final(self) == old(self).with_r16_high(register, value),
    {
        match register {
            CpuReg16::BC => self.b = value,
            CpuReg16::DE => self.d = value,
            CpuReg16::HL => self.h = value,
            CpuReg16::AF => self.a = value,
            CpuReg16::SP => {
                let sp = self.sp;
                let r = (sp & 0x00FF) | ((value as u16) << 8);
                assert(r == word(value, low_byte(sp))) by {
                    assert((sp & 0x00FF) | ((value as u16) << 8) == value * 256 + sp % 256)
                        by (bit_vector);
                }
                self.sp = r;
            },
        }
    }

    pub fn set_r16(&mut self, register: CpuReg16, value: u16)
        ensures
            *final(self) == old(self).with_r16(register, value),
    {
        let high = (value >> 8) as u8;
        let low = (value & 0xFF) as u8;
        assert(high == high_byte(value) && low == low_byte(value)) by {
            assert((value >> 8) == value / 256 && (value & 0xFF) == value % 256) by (bit_vector);
        }
        self.set_r16_high(register, high);
        self.set_r16_low(register, low);
    }

    pub fn get_r16(&self, register: CpuReg16) -> (value: u16)
        ensures
            value == self.r16(register),
    {
        match register {
            CpuReg16::BC => join(self.b, self.c),
            CpuReg16::DE => join(self.d, self.e),
            CpuReg16::HL => join(self.h, self.l),
            CpuReg16::AF => join(self.a, self.f.to_byte()),
            CpuReg16::SP => self.sp,
        }
    }
}

/// Writing an 8-bit register and reading it back gives the value written;
/// the other 8-bit registers, F, SP and PC are unchanged.
pub proof fn lemma_r8_round_trip(regs: CpuRegisters, register: CpuReg8, value: u8)
    ensures
        regs.with_r8(register, value).r8(register) == value,
        forall|other: CpuReg8|
            other != register ==> #[trigger] regs.with_r8(register, value).r8(other) == regs.r8(
                other,
            ),
        regs.with_r8(register, value).f == regs.f,
        regs.with_r8(register, value).sp == regs.sp,
        regs.with_r8(register, value).pc == regs.pc,
{
}

/// Builds a word from its high and low bytes.
pub fn join(high: u8, low: u8) -> (value: u16)
    ensures
        value == word(high, low),
{
    let r = ((high as u16) << 8) | (low as u16);
    assert(((high as u16) << 8) | (low as u16) == high * 256 + low) by (bit_vector);
    r
}

/// Writing a pair and reading it back gives the value written, but for AF,
/// whose lower nibble does not exist; the other pairs and PC are unchanged.
pub proof fn lemma_r16_round_trip(regs: CpuRegisters, register: CpuReg16, value: u16)
    ensures
        regs.with_r16(register, value).r16(register) == (if register == CpuReg16::AF {
            value & 0xFFF0
        } else {
            value
        }),
        regs.with_r16(register, value).pc == regs.pc,
        forall|other: CpuReg16|
            other != register ==> #[trigger] regs.with_r16(register, value).r16(other) == regs.r16(other),
{
    let hi = high_byte(value);
    let lo = low_byte(value);
    assert(word(hi, lo) == value);
    if register == CpuReg16::AF {
        lemma_byte_flags_round_trip(lo);
        assert(lo & 0xF0 == (value & 0xFFF0) % 256 && hi == (value & 0xFFF0) / 256) by (bit_vector)
            requires
                lo == value % 256,
                hi == value / 256,
        ;
    }
}

} // verus!
