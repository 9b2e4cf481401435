//! The memory map: ROM, work RAM, high RAM and the memory-mapped devices.
use vstd::prelude::*;

use crate::cpu::registers::flag_weight;
use crate::joypad::Joypad;
use crate::ppu::Ppu;
use crate::ppu::lcd::{LcdStatus, lemma_lcd_control_round_trip};
use crate::ppu::colors::{lemma_cpu_writes_keep_colors, ppu_colors_valid};
use crate::ppu::model::{PpuView, initial_ppu};
use crate::serial::{Serial, initial_serial};

verus! {

/// The five interrupt sources.
#[derive(Clone, Copy, Debug, PartialEq, Eq, Structural)]
pub enum InterruptType {
    VBlank,
    LCD,
    Timer,
    Serial,
    Joypad,
}

impl InterruptType {
    /// The address of the handler that the interrupt jumps to.
    pub open spec fn spec_handler_address(self) -> u16 {
        match self {
            InterruptType::VBlank => 0x0040,
            InterruptType::LCD => 0x0048,
            InterruptType::Timer => 0x0050,
            InterruptType::Serial => 0x0058,
            InterruptType::Joypad => 0x0060,
        }
    }

    pub fn handler_address(self) -> (address: u16)
        ensures
            address == self.spec_handler_address(),
    {
        match self {
            InterruptType::VBlank => 0x0040,
            InterruptType::LCD => 0x0048,
            InterruptType::Timer => 0x0050,
            InterruptType::Serial => 0x0058,
            InterruptType::Joypad => 0x0060,
        }
    }
}

impl From<InterruptType> for u16 {
    fn from(interrupt: InterruptType) -> (address: u16) {
        interrupt.handler_address()
    }
}

impl vstd::std_specs::convert::FromSpecImpl<InterruptType> for u16 {
    open spec fn obeys_from_spec() -> bool {
        true
    }

    open spec fn from_spec(interrupt: InterruptType) -> u16 {
        interrupt.spec_handler_address()
    }
}

/// The interrupts, in priority order, whose bits are set in an IE/IF byte.
pub open spec fn spec_pending_interrupts(value: u8) -> Seq<InterruptType> {
    (if value & 0x01 != 0 { seq![InterruptType::VBlank] } else { Seq::empty() }) + (if value & 0x02
        != 0 {
        seq![InterruptType::LCD]
    } else {
        Seq::empty()
    }) + (if value & 0x04 != 0 { seq![InterruptType::Timer] } else { Seq::empty() }) + (if value
        & 0x08 != 0 {
        seq![InterruptType::Serial]
    } else {
        Seq::empty()
    }) + (if value & 0x10 != 0 { seq![InterruptType::Joypad] } else { Seq::empty() })
}

/// Lists the interrupts whose bits are set in an IE/IF byte, from the highest priority down.
pub fn pending_interrupts(value: u8) -> (interrupts: Vec<InterruptType>)
    ensures
        interrupts@ == spec_pending_interrupts(value),
{
    let mut interrupts: Vec<InterruptType> = Vec::new();
    if value & 0b0000_0001 != 0 {
        interrupts.push(InterruptType::VBlank);
    }
    let ghost s1 = interrupts@;
    if value & 0b0000_0010 != 0 {
        interrupts.push(InterruptType::LCD);
    }
    let ghost s2 = interrupts@;
    if value & 0b0000_0100 != 0 {
        interrupts.push(InterruptType::Timer);
    }
    let ghost s3 = interrupts@;
    if value & 0b0000_1000 != 0 {
        interrupts.push(InterruptType::Serial);
    }
    let ghost s4 = interrupts@;
    if value & 0b0001_0000 != 0 {
        interrupts.push(InterruptType::Joypad);
    }
    assert(interrupts@ =~= spec_pending_interrupts(value));
    interrupts
}

/// The five interrupt bits of IE or IF.
#[derive(Clone, Copy, Debug, PartialEq, Eq, Structural)]
pub struct Interrupt {
    pub v_blank: bool,
    pub lcd: bool,
    pub timer: bool,
    pub serial: bool,
    pub joypad: bool,
}

impl Interrupt {
    /// The bits that a byte written to IE or IF sets (bits 0 to 4).
    pub open spec fn spec_from_byte(value: u8) -> Interrupt {
        Interrupt {
            v_blank: value & 0x01 != 0,
            lcd: value & 0x02 != 0,
            timer: value & 0x04 != 0,
            serial: value & 0x08 != 0,
            joypad: value & 0x10 != 0,
        }
    }

    /// The byte that IE or IF reads as.
    pub open spec fn spec_to_byte(self) -> int {
        flag_weight(self.v_blank, 0x01) + flag_weight(self.lcd, 0x02) + flag_weight(self.timer, 0x04)
            + flag_weight(self.serial, 0x08) + flag_weight(self.joypad, 0x10)
    }

    /// The interrupt's bit in this register.
    pub open spec fn spec_get(self, interrupt: InterruptType) -> bool {
        match interrupt {
            InterruptType::VBlank => self.v_blank,
            InterruptType::LCD => self.lcd,
            InterruptType::Timer => self.timer,
            InterruptType::Serial => self.serial,
            InterruptType::Joypad => self.joypad,
        }
    }

    /// The register with one interrupt's bit set to `set`.
    pub open spec fn spec_with(self, interrupt: InterruptType, set: bool) -> Interrupt {
        match interrupt {
            InterruptType::VBlank => Interrupt { v_blank: set, ..self },
            InterruptType::LCD => Interrupt { lcd: set, ..self },
            InterruptType::Timer => Interrupt { timer: set, ..self },
            InterruptType::Serial => Interrupt { serial: set, ..self },
            InterruptType::Joypad => Interrupt { joypad: set, ..self },
        }
    }

    pub fn new() -> (interrupt: Self)
        ensures
            interrupt == (Interrupt {
                v_blank: false,
                lcd: false,
                timer: false,
                serial: false,
                joypad: false,
            }),
    {
        Interrupt { v_blank: false, lcd: false, timer: false, serial: false, joypad: false }
    }

    pub fn from_byte(value: u8) -> (interrupt: Self)
        ensures
            interrupt == Self::spec_from_byte(value),
    {
        Interrupt {
            v_blank: value & 0b0000_0001 != 0,
            lcd: value & 0b0000_0010 != 0,
            timer: value & 0b0000_0100 != 0,
            serial: value & 0b0000_1000 != 0,
            joypad: value & 0b0001_0000 != 0,
        }
    }

    pub fn to_byte(&self) -> (value: u8)
        ensures
            value == self.spec_to_byte(),
    {
        let b0: u8 = if self.v_blank { 1 } else { 0 };
        let b1: u8 = if self.lcd { 1 } else { 0 };
        let b2: u8 = if self.timer { 1 } else { 0 };
        let b3: u8 = if self.serial { 1 } else { 0 };
        let b4: u8 = if self.joypad { 1 } else { 0 };
        assert(b0 | (b1 << 1) | (b2 << 2) | (b3 << 3) | (b4 << 4) == b0 + 2 * b1 + 4 * b2 + 8 * b3
            + 16 * b4) by (bit_vector)
            requires
                b0 < 2,
                b1 < 2,
                b2 < 2,
                b3 < 2,
                b4 < 2,
        ;
        b0 | (b1 << 1) | (b2 << 2) | (b3 << 3) | (b4 << 4)
    }
}

impl From<u8> for Interrupt {
    fn from(value: u8) -> (converted: Self) {
        Self::from_byte(value)
    }
}

impl vstd::std_specs::convert::FromSpecImpl<u8> for Interrupt {
    open spec fn obeys_from_spec() -> bool {
        true
    }

    open spec fn from_spec(value: u8) -> Self {
        Self::spec_from_byte(value)
    }
}

impl From<Interrupt> for u8 {
    fn from(interrupt: Interrupt) -> (value: u8) {
        interrupt.to_byte()
    }
}

impl vstd::std_specs::convert::FromSpecImpl<Interrupt> for u8 {
    open spec fn obeys_from_spec() -> bool {
        true
    }

    open spec fn from_spec(interrupt: Interrupt) -> u8 {
        interrupt.spec_to_byte() as u8
    }
}

/// The bit of each interrupt in IE and IF: VBlank is bit 0, LCD bit 1, Timer bit 2,
/// Serial bit 3 and Joypad bit 4; bits 5 to 7 read as 0.
pub proof fn lemma_interrupt_bits(i: Interrupt)
    ensures
        i.spec_to_byte() % 2 == (if i.v_blank { 1int } else { 0int }),
        (i.spec_to_byte() / 2) % 2 == (if i.lcd { 1int } else { 0int }),
        (i.spec_to_byte() / 4) % 2 == (if i.timer { 1int } else { 0int }),
        (i.spec_to_byte() / 8) % 2 == (if i.serial { 1int } else { 0int }),
        (i.spec_to_byte() / 16) % 2 == (if i.joypad { 1int } else { 0int }),
        0 <= i.spec_to_byte() < 32,
{
}

/// A byte written to IE or IF reads back with its lower five bits only.
pub proof fn lemma_interrupt_round_trip(value: u8)
    ensures
        Interrupt::spec_from_byte(value).spec_to_byte() == value & 0x1F,
{
    let i = Interrupt::spec_from_byte(value);
    let b0: u8 = if i.v_blank { 1 } else { 0 };
    let b1: u8 = if i.lcd { 2 } else { 0 };
    let b2: u8 = if i.timer { 4 } else { 0 };
    let b3: u8 = if i.serial { 8 } else { 0 };
    let b4: u8 = if i.joypad { 16 } else { 0 };
    assert(i.spec_to_byte() == b0 + b1 + b2 + b3 + b4);
    assert(value & 0x1F == b0 + b1 + b2 + b3 + b4) by (bit_vector)
        requires
            b0 == (if value & 0x01 != 0 { 1u8 } else { 0u8 }),
            b1 == (if value & 0x02 != 0 { 2u8 } else { 0u8 }),
            b2 == (if value & 0x04 != 0 { 4u8 } else { 0u8 }),
            b3 == (if value & 0x08 != 0 { 8u8 } else { 0u8 }),
            b4 == (if value & 0x10 != 0 { 16u8 } else { 0u8 }),
    ;
}

/// The whole address space and the devices behind it.
pub struct MemoryBus {
    pub rom: Vec<u8>,
    pub ram: Vec<u8>,
    pub hram: Vec<u8>,
    pub serial: Serial,
    pub interrupt_enable: Interrupt,
    pub interrupt_flags: Interrupt,
    pub joypad: Joypad,
    pub ppu: Ppu,
}

/// The mathematical state of the bus.
pub struct MemoryBusView {
    pub rom: Seq<u8>,
    pub ram: Seq<u8>,
    pub hram: Seq<u8>,
    pub serial: Serial,
    pub interrupt_enable: Interrupt,
    pub interrupt_flags: Interrupt,
    pub joypad: Joypad,
    pub ppu: PpuView,
}

impl View for MemoryBus {
    type V = MemoryBusView;

    open spec fn view(&self) -> MemoryBusView {
        MemoryBusView {
            rom: self.rom@,
            ram: self.ram@,
            hram: self.hram@,
            serial: self.serial,
            interrupt_enable: self.interrupt_enable,
            interrupt_flags: self.interrupt_flags,
            joypad: self.joypad,
            ppu: self.ppu@,
        }
    }
}

/// Whether an address falls in one of the three windows onto work RAM:
/// 0xA000–0xBFFF, 0xC000–0xDFFF and its echo 0xE000–0xFDFF.
pub open spec fn is_ram_address(addr: u16) -> bool {
    0xA000 <= addr <= 0xFDFF
}

/// The byte of work RAM that a RAM address reaches.
pub open spec fn ram_index(addr: u16) -> int {
    if addr <= 0xBFFF {
        addr - 0xA000
    } else if addr <= 0xDFFF {
        addr - 0xC000
    } else {
        addr - 0xE000
    }
}

/// The bus at power-on with the given cartridge.
pub open spec fn initial_bus(rom: Seq<u8>) -> MemoryBusView {
    MemoryBusView {
        rom,
        ram: Seq::new(0x2000, |i: int| 0u8),
        hram: Seq::new(0x7F, |i: int| 0u8),
        serial: initial_serial(),
        interrupt_enable: Interrupt::spec_from_byte(0),
        interrupt_flags: Interrupt::spec_from_byte(0),
        joypad: Joypad {
            a: false,
            b: false,
            start: false,
            select: false,
            up: false,
            down: false,
            left: false,
            right: false,
            select_buttons: false,
            select_d_pad: false,
        },
        ppu: initial_ppu(),
    }
}

impl MemoryBusView {
    /// The sizes of the RAMs and the devices' own bounds.
    pub open spec fn inv(self) -> bool {
        &&& self.ram.len() == 0x2000
        &&& self.hram.len() == 0x7F
        &&& self.serial.inv()
        &&& self.ppu.inv()
    }

    /// Whether an access to `addr` stays inside the cartridge ROM it needs.
    pub open spec fn rom_covers(self, addr: u16) -> bool {
        addr <= 0x7FFF ==> addr < self.rom.len()
    }

    /// What a CPU read of `addr` returns.
    pub closed spec fn read8(self, addr: u16) -> u8 {
        if addr <= 0x7FFF {
            self.rom[addr as int]
        } else if is_ram_address(addr) {
            self.ram[ram_index(addr)]
        } else if addr == 0xFF00 {
            self.joypad.spec_get_by_cpu()
        } else if addr == 0xFF01 {
            self.serial.data
        } else if addr == 0xFF02 {
            self.serial.control
        } else if 0xFF80 <= addr <= 0xFFFE {
            self.hram[addr - 0xFF80]
        } else if addr == 0xFFFF {
            self.interrupt_enable.spec_to_byte() as u8
        } else if addr == 0xFF0F {
            self.interrupt_flags.spec_to_byte() as u8
        } else if 0xFE00 <= addr <= 0xFE9F {
            self.ppu.read_oam(addr)
        } else if 0x8000 <= addr <= 0x9FFF {
            self.ppu.read_vram(addr)
        } else if addr == 0xFF40 {
            self.ppu.lcd_control.spec_to_byte() as u8
        } else if addr == 0xFF41 {
            self.ppu.read_lcd_status() as u8
        } else if addr == 0xFF44 {
            self.ppu.row
        } else {
            0
        }
    }

    /// The bus after a CPU write of `value` to `addr`. (Its body is visible in this
    /// module only; outside, what the laws below state of it is what is known.)
    pub closed spec fn write8(self, addr: u16, value: u8) -> MemoryBusView {
        if addr <= 0x7FFF {
            MemoryBusView { rom: self.rom.update(addr as int, value), ..self }
        } else if is_ram_address(addr) {
            MemoryBusView { ram: self.ram.update(ram_index(addr), value), ..self }
        } else if addr == 0xFF00 {
            MemoryBusView {
                joypad: Joypad {
                    select_buttons: value & 0x20 == 0,
                    select_d_pad: value & 0x10 == 0,
                    ..self.joypad
                },
                ..self
            }
        } else if addr == 0xFF01 {
            MemoryBusView { serial: Serial { data: value, ..self.serial }, ..self }
        } else if addr == 0xFF02 {
            MemoryBusView { serial: Serial { control: value, ..self.serial }, ..self }
        } else if 0xFF80 <= addr <= 0xFFFE {
            MemoryBusView { hram: self.hram.update(addr - 0xFF80, value), ..self }
        } else if addr == 0xFFFF {
            MemoryBusView { interrupt_enable: Interrupt::spec_from_byte(value), ..self }
        } else if addr == 0xFF0F {
            MemoryBusView { interrupt_flags: Interrupt::spec_from_byte(value), ..self }
        } else if 0xFE00 <= addr <= 0xFE9F {
            MemoryBusView { ppu: self.ppu.write_oam(addr, value), ..self }
        } else if 0x8000 <= addr <= 0x9FFF {
            MemoryBusView { ppu: self.ppu.write_vram(addr, value), ..self }
        } else if addr == 0xFF40 {
            MemoryBusView { ppu: self.ppu.write_lcd_control(value), ..self }
        } else if addr == 0xFF41 {
            MemoryBusView {
                ppu: PpuView { lcd_status: LcdStatus::spec_from_byte(value), ..self.ppu },
                ..self
            }
        } else if addr == 0xFF45 {
            MemoryBusView { ppu: PpuView { lyc: value, ..self.ppu }, ..self }
        } else {
            self
        }
    }
}

impl MemoryBus {
    /// The bounds that the bus keeps.
    pub open spec fn inv(&self) -> bool {
        self@.inv()
    }

    pub fn new(rom_data: Vec<u8>) -> (bus: Self)
        ensures
            bus@ == initial_bus(rom_data@),
            bus.inv(),
    {
        let ram: Vec<u8> = vec![0; 0x2000];
        let hram: Vec<u8> = vec![0; 0x7F];
        assert(ram@ =~= Seq::new(0x2000, |i: int| 0u8));
        assert(hram@ =~= Seq::new(0x7F, |i: int| 0u8));
        let interrupt_enable = Interrupt::new();
        let interrupt_flags = Interrupt::new();
        assert(interrupt_enable == Interrupt::spec_from_byte(0)) by {
            assert(0u8 & 0x01 == 0 && 0u8 & 0x02 == 0 && 0u8 & 0x04 == 0 && 0u8 & 0x08 == 0
                && 0u8 & 0x10 == 0) by (bit_vector);
        }
        MemoryBus {
            rom: rom_data,
            ram,
            hram,
            serial: Serial::new(),
            interrupt_enable,
            interrupt_flags,
            joypad: Joypad::new(),
            ppu: Ppu::new(),
        }
    }

    /// A CPU read (see `MemoryBusView::read8`).
    pub fn read8(&self, addr: u16) -> (value: u8)
        requires
            self.inv(),
            self@.rom_covers(addr),
        ensures
            value == self@.read8(addr),
    {
        if addr <= 0x7FFF {
            self.rom[addr as usize]
        } else if 0xA000 <= addr && addr <= 0xBFFF {
            self.ram[(addr - 0xA000) as usize]
        } else if 0xC000 <= addr && addr <= 0xDFFF {
            self.ram[(addr - 0xC000) as usize]
        } else if 0xE000 <= addr && addr <= 0xFDFF {
            self.ram[(addr - 0xE000) as usize]
        } else if addr == 0xFF00 {
            self.joypad.get_by_cpu()
        } else if addr == 0xFF01 {
            self.serial.data
        } else if addr == 0xFF02 {
            self.serial.control
        } else if 0xFF80 <= addr && addr <= 0xFFFE {
            self.hram[(addr - 0xFF80) as usize]
        } else if addr == 0xFFFF {
            self.interrupt_enable.to_byte()
        } else if addr == 0xFF0F {
            self.interrupt_flags.to_byte()
        } else if 0xFE00 <= addr && addr <= 0xFE9F {
            self.ppu.read_oam_by_cpu(addr)
        } else if 0x8000 <= addr && addr <= 0x9FFF {
            self.ppu.read_vram_by_cpu(addr)
        } else if addr == 0xFF40 {
            self.ppu.read_lcd_control_by_cpu()
        } else if addr == 0xFF41 {
            self.ppu.read_lcd_status_by_cpu()
        } else if addr == 0xFF44 {
            self.ppu.read_ly_by_cpu()
        } else {
            0
        }
    }

    /// A CPU write (see `MemoryBusView::write8`).
    pub fn write8(&mut self, addr: u16, value: u8)
        requires
            old(self).inv(),
            old(self)@.rom_covers(addr),
        ensures
            final(self)@ == old(self)@.write8(addr, value),
            final(self).inv(),
            final(self)@.rom.len() == old(self)@.rom.len(),
    {
        if addr <= 0x7FFF || (0xA000 <= addr && addr <= 0xFDFF) || (0xFF80 <= addr && addr
            <= 0xFFFE) {
            self.write_memory(addr, value);
        } else if (0xFE00 <= addr && addr <= 0xFE9F) || (0x8000 <= addr && addr <= 0x9FFF) || addr
            == 0xFF40 {
            self.write_video(addr, value);
        } else {
            self.write_register(addr, value);
        }
    }

    /// A write to ROM, work RAM or high RAM.
    fn write_memory(&mut self, addr: u16, value: u8)
        requires
            old(self).inv(),
            old(self)@.rom_covers(addr),
            addr <= 0x7FFF || is_ram_address(addr) || 0xFF80 <= addr <= 0xFFFE,
        ensures
            final(self)@ == old(self)@.write8(addr, value),
            final(self).inv(),
    {
        let ghost target = old(self)@.write8(addr, value);
        if addr <= 0x7FFF {
            self.rom.set(addr as usize, value);
            assert(self@ == target);
        } else if 0xA000 <= addr && addr <= 0xBFFF {
            self.ram.set((addr - 0xA000) as usize, value);
            assert(self@ == target);
        } else if 0xC000 <= addr && addr <= 0xDFFF {
            self.ram.set((addr - 0xC000) as usize, value);
            assert(self@ == target);
        } else if 0xE000 <= addr && addr <= 0xFDFF {
            self.ram.set((addr - 0xE000) as usize, value);
            assert(self@ == target);
        } else {
            self.hram.set((addr - 0xFF80) as usize, value);
            assert(self@ == target);
        }
    }

    /// A write to OAM, VRAM or LCDC.
    fn write_video(&mut self, addr: u16, value: u8)
        requires
            old(self).inv(),
            0xFE00 <= addr <= 0xFE9F || 0x8000 <= addr <= 0x9FFF || addr == 0xFF40,
        ensures
            final(self)@ == old(self)@.write8(addr, value),
            final(self).inv(),
    {
        let ghost target = old(self)@.write8(addr, value);
        if 0xFE00 <= addr && addr <= 0xFE9F {
            self.ppu.write_oam_by_cpu(addr, value);
            assert(self@ == target);
        } else if 0x8000 <= addr && addr <= 0x9FFF {
            self.ppu.write_vram_by_cpu(addr, value);
            assert(self@ == target);
        } else {
            self.ppu.write_lcd_control_by_cpu(value);
            assert(self@ == target);
        }
    }

    /// A write to one of the I/O registers outside the PPU's memories.
    fn write_register(&mut self, addr: u16, value: u8)
        requires
            old(self).inv(),
            !(addr <= 0x7FFF || is_ram_address(addr) || 0xFF80 <= addr <= 0xFFFE),
            !(0xFE00 <= addr <= 0xFE9F || 0x8000 <= addr <= 0x9FFF || addr == 0xFF40),
        ensures
            final(self)@ == old(self)@.write8(addr, value),
            final(self).inv(),
    {
        let ghost target = old(self)@.write8(addr, value);
        if addr == 0xFF00 || addr == 0xFF01 || addr == 0xFF02 {
            self.write_port_register(addr, value);
        } else if addr == 0xFFFF || addr == 0xFF0F {
            self.write_interrupt_register(addr, value);
        } else if addr == 0xFF41 || addr == 0xFF45 {
            self.write_lcd_register(addr, value);
        } else {
            assert(self@ == target);
        }
    }

    /// A write to P1, SB or SC.
    fn write_port_register(&mut self, addr: u16, value: u8)
        requires
            old(self).inv(),
            addr == 0xFF00 || addr == 0xFF01 || addr == 0xFF02,
        ensures
            final(self)@ == old(self)@.write8(addr, value),
            final(self).inv(),
    {
        let ghost target = old(self)@.write8(addr, value);
        if addr == 0xFF00 {
            self.joypad.set_by_cpu(value);
            assert(self@ == target);
        } else if addr == 0xFF01 {
            self.serial.data = value;
            assert(self@ == target);
        } else {
            self.serial.control = value;
            assert(self@ == target);
        }
    }

    /// A write to IE or IF.
    fn write_interrupt_register(&mut self, addr: u16, value: u8)
        requires
            old(self).inv(),
            addr == 0xFFFF || addr == 0xFF0F,
        ensures
            final(self)@ == old(self)@.write8(addr, value),
            final(self).inv(),
    {
        let ghost target = old(self)@.write8(addr, value);
        let interrupt = Interrupt::from_byte(value);
        if addr == 0xFFFF {
            self.interrupt_enable = interrupt;
            assert(self@ == target);
        } else {
            self.interrupt_flags = interrupt;
            assert(self@ == target);
        }
    }

    /// A write to STAT or LYC.
    fn write_lcd_register(&mut self, addr: u16, value: u8)
        requires
            old(self).inv(),
            addr == 0xFF41 || addr == 0xFF45,
        ensures
            final(self)@ == old(self)@.write8(addr, value),
            final(self).inv(),
    {
        let ghost target = old(self)@.write8(addr, value);
        if addr == 0xFF41 {
            self.ppu.write_lcd_status_by_cpu(value);
            assert(self@.ppu == target.ppu);
            assert(self@ == target);
        } else {
            self.ppu.write_lyc_by_cpu(value);
            assert(self@.ppu == target.ppu);
            assert(self@ == target);
        }
    }

    fn set_interrupt_flag(&mut self, interrupt: InterruptType, set: bool)
        ensures
            final(self)@ == (MemoryBusView {
                interrupt_flags: old(self)@.interrupt_flags.spec_with(interrupt, set),
                ..old(self)@
            }),
    {
        match interrupt {
            InterruptType::VBlank => self.interrupt_flags.v_blank = set,
            InterruptType::LCD => self.interrupt_flags.lcd = set,
            InterruptType::Timer => self.interrupt_flags.timer = set,
            InterruptType::Serial => self.interrupt_flags.serial = set,
            InterruptType::Joypad => self.interrupt_flags.joypad = set,
        }
    }

    /// Raises an interrupt in IF.
    pub fn request_interrupt(&mut self, interrupt: InterruptType)
        ensures
            final(self)@ == (MemoryBusView {
                interrupt_flags: old(self)@.interrupt_flags.spec_with(interrupt, true),
                ..old(self)@
            }),
    {
        self.set_interrupt_flag(interrupt, true);
    }

    /// Clears an interrupt in IF.
    pub fn clear_interrupt_flag(&mut self, interrupt: InterruptType)
        ensures
            final(self)@ == (MemoryBusView {
                interrupt_flags: old(self)@.interrupt_flags.spec_with(interrupt, false),
                ..old(self)@
            }),
    {
        self.set_interrupt_flag(interrupt, false);
    }
}

/// Work RAM is memory: a write is read back at its address and at every address that
/// mirrors the same byte, and reads of the other bytes are unchanged.
pub proof fn lemma_ram_read_after_write(bus: MemoryBusView, a: u16, b: u16, value: u8)
    requires
        bus.inv(),
        is_ram_address(a),
        is_ram_address(b),
    ensures
        bus.write8(a, value).read8(b) == (if ram_index(a) == ram_index(b) {
            value
        } else {
            bus.read8(b)
        }),
{
}

/// High RAM is memory: a write is read back, and the other bytes of high RAM keep
/// their values.
pub proof fn lemma_hram_read_after_write(bus: MemoryBusView, a: u16, b: u16, value: u8)
    requires
        bus.inv(),
        0xFF80 <= a <= 0xFFFE,
        0xFF80 <= b <= 0xFFFE,
    ensures
        bus.write8(a, value).read8(b) == (if a == b {
            value
        } else {
            bus.read8(b)
        }),
{
}

/// The cartridge area takes writes as plain memory: a byte written is read back.
pub proof fn lemma_rom_read_after_write(bus: MemoryBusView, addr: u16, value: u8)
    requires
        addr <= 0x7FFF,
        addr < bus.rom.len(),
    ensures
        bus.write8(addr, value).read8(addr) == value,
{
}

/// SB and SC read back what was written to them.
pub proof fn lemma_serial_registers_read_back(bus: MemoryBusView, addr: u16, value: u8)
    requires
        addr == 0xFF01 || addr == 0xFF02,
    ensures
        bus.write8(addr, value).read8(addr) == value,
{
}

/// IE and IF keep the five interrupt bits of a write and read the others as 0.
pub proof fn lemma_interrupt_registers_read_back(bus: MemoryBusView, addr: u16, value: u8)
    requires
        addr == 0xFFFF || addr == 0xFF0F,
    ensures
        bus.write8(addr, value).read8(addr) == value & 0x1F,
{
    lemma_interrupt_round_trip(value);
}

/// LCDC reads back exactly the byte written to it.
pub proof fn lemma_lcd_control_read_back(bus: MemoryBusView, value: u8)
    ensures
        bus.write8(0xFF40, value).read8(0xFF40) == value,
{
    lemma_lcd_control_round_trip(value);
}

/// While VRAM is open to the CPU, tile data and the tile map read back what was written.
pub proof fn lemma_vram_read_after_write(bus: MemoryBusView, addr: u16, value: u8)
    requires
        bus.inv(),
        0x8000 <= addr <= 0x97FF || 0x9800 <= addr <= 0x9BFF,
        !bus.ppu.vram_blocked(),
    ensures
        bus.write8(addr, value).read8(addr) == value,
{
}

/// A read depends on the joypad only at P1 and on the serial port only at SB and SC.
pub proof fn lemma_read8_frame(bus: MemoryBusView, other: MemoryBusView, addr: u16)
    requires
        other == (MemoryBusView { joypad: other.joypad, serial: other.serial, ..bus }),
        addr != 0xFF00,
        addr != 0xFF01,
        addr != 0xFF02,
    ensures
        other.read8(addr) == bus.read8(addr),
{
}

/// The reads of P1, SB and SC.
pub proof fn lemma_read8_ports(bus: MemoryBusView)
    ensures
        bus.read8(0xFF00) == bus.joypad.spec_get_by_cpu(),
        bus.read8(0xFF01) == bus.serial.data,
        bus.read8(0xFF02) == bus.serial.control,
{
}

/// A write to work RAM or high RAM keeps the bus's bounds and every byte of the
/// cartridge area.
pub proof fn lemma_memory_write_keeps_rom(bus: MemoryBusView, addr: u16, value: u8, code: u16)
    requires
        bus.inv(),
        is_ram_address(addr) || 0xFF80 <= addr <= 0xFFFE,
        code <= 0x7FFF,
    ensures
        bus.write8(addr, value).inv(),
        bus.write8(addr, value).rom == bus.rom,
        bus.write8(addr, value).read8(code) == bus.read8(code),
{
}

/// A CPU write through the bus keeps the PPU's colour ids.
pub proof fn lemma_write8_keeps_colors(bus: MemoryBusView, addr: u16, value: u8)
    requires
        ppu_colors_valid(bus.ppu),
    ensures
        ppu_colors_valid(bus.write8(addr, value).ppu),
{
    lemma_cpu_writes_keep_colors(bus.ppu, addr, value);
}

/// The read map: what a CPU read of each address gives (the definition of `read8`).
pub proof fn lemma_read8_map(bus: MemoryBusView, addr: u16)
    ensures
        bus.read8(addr) == ({
            if addr <= 0x7FFF {
                bus.rom[addr as int]
            } else if is_ram_address(addr) {
                bus.ram[ram_index(addr)]
            } else if addr == 0xFF00 {
                bus.joypad.spec_get_by_cpu()
            } else if addr == 0xFF01 {
                bus.serial.data
            } else if addr == 0xFF02 {
                bus.serial.control
            } else if 0xFF80 <= addr <= 0xFFFE {
                bus.hram[addr - 0xFF80]
            } else if addr == 0xFFFF {
                bus.interrupt_enable.spec_to_byte() as u8
            } else if addr == 0xFF0F {
                bus.interrupt_flags.spec_to_byte() as u8
            } else if 0xFE00 <= addr <= 0xFE9F {
                bus.ppu.read_oam(addr)
            } else if 0x8000 <= addr <= 0x9FFF {
                bus.ppu.read_vram(addr)
            } else if addr == 0xFF40 {
                bus.ppu.lcd_control.spec_to_byte() as u8
            } else if addr == 0xFF41 {
                bus.ppu.read_lcd_status() as u8
            } else if addr == 0xFF44 {
                bus.ppu.row
            } else {
                0
            }
        }),
{
}

/// The write map: what a CPU write to each address changes, and that it changes nothing
/// else (the definition of `write8`).
pub proof fn lemma_write8_map(bus: MemoryBusView, addr: u16, value: u8)
    ensures
        bus.write8(addr, value) == ({
            if addr <= 0x7FFF {
                MemoryBusView { rom: bus.rom.update(addr as int, value), ..bus }
            } else if is_ram_address(addr) {
                MemoryBusView { ram: bus.ram.update(ram_index(addr), value), ..bus }
            } else if addr == 0xFF00 {
                MemoryBusView {
                    joypad: Joypad {
                        select_buttons: value & 0x20 == 0,
                        select_d_pad: value & 0x10 == 0,
                        ..bus.joypad
                    },
                    ..bus
                }
            } else if addr == 0xFF01 {
                MemoryBusView { serial: Serial { data: value, ..bus.serial }, ..bus }
            } else if addr == 0xFF02 {
                MemoryBusView { serial: Serial { control: value, ..bus.serial }, ..bus }
            } else if 0xFF80 <= addr <= 0xFFFE {
                MemoryBusView { hram: bus.hram.update(addr - 0xFF80, value), ..bus }
            } else if addr == 0xFFFF {
                MemoryBusView { interrupt_enable: Interrupt::spec_from_byte(value), ..bus }
            } else if addr == 0xFF0F {
                MemoryBusView { interrupt_flags: Interrupt::spec_from_byte(value), ..bus }
            } else if 0xFE00 <= addr <= 0xFE9F {
                MemoryBusView { ppu: bus.ppu.write_oam(addr, value), ..bus }
            } else if 0x8000 <= addr <= 0x9FFF {
                MemoryBusView { ppu: bus.ppu.write_vram(addr, value), ..bus }
            } else if addr == 0xFF40 {
                MemoryBusView { ppu: bus.ppu.write_lcd_control(value), ..bus }
            } else if addr == 0xFF41 {
                MemoryBusView {
                    ppu: PpuView { lcd_status: LcdStatus::spec_from_byte(value), ..bus.ppu },
                    ..bus
                }
            } else if addr == 0xFF45 {
                MemoryBusView { ppu: PpuView { lyc: value, ..bus.ppu }, ..bus }
            } else {
                bus
            }
        }),
{
}

/// Whether two addresses reach the same byte of memory (work RAM and its echo share bytes).
pub open spec fn same_cell(a: u16, b: u16) -> bool {
    a == b || (is_ram_address(a) && is_ram_address(b) && ram_index(a) == ram_index(b))
}

/// A write to work RAM or high RAM keeps the bus's bounds and what every address that
/// does not reach the written byte reads.
pub proof fn lemma_memory_write_keeps_others(bus: MemoryBusView, addr: u16, value: u8, other: u16)
    requires
        bus.inv(),
        is_ram_address(addr) || 0xFF80 <= addr <= 0xFFFE,
        !same_cell(addr, other),
    ensures
        bus.write8(addr, value).inv(),
        bus.write8(addr, value).read8(other) == bus.read8(other),
{
}

} // verus!
