//! The LCD control (LCDC) and status (STAT) registers.
use vstd::prelude::*;

use crate::cpu::registers::flag_weight;

verus! {

/// The bits of LCDC, from bit 7 down to bit 0.
#[derive(Clone, Copy, Debug, PartialEq, Eq, Structural)]
pub struct LcdControl {
    pub lcd_and_ppu_enable: bool,
    pub window_tile_map_area: bool,
    pub window_enable: bool,
    pub use_unsigned_tile_addressing: bool,
    pub bg_tile_map_area: bool,
    pub obj_size: bool,
    pub obj_enable: bool,
    pub bg_and_window_enable: bool,
}

impl LcdControl {
    /// The register that a byte written to LCDC sets.
    pub open spec fn spec_from_byte(value: u8) -> LcdControl {
        LcdControl {
            lcd_and_ppu_enable: value & 0x80 != 0,
            window_tile_map_area: value & 0x40 != 0,
            window_enable: value & 0x20 != 0,
            use_unsigned_tile_addressing: value & 0x10 != 0,
            bg_tile_map_area: value & 0x08 != 0,
            obj_size: value & 0x04 != 0,
            obj_enable: value & 0x02 != 0,
            bg_and_window_enable: value & 0x01 != 0,
        }
    }

    /// The byte that LCDC reads as.
    pub open spec fn spec_to_byte(self) -> int {
        flag_weight(self.lcd_and_ppu_enable, 0x80) + flag_weight(self.window_tile_map_area, 0x40)
            + flag_weight(self.window_enable, 0x20) + flag_weight(
            self.use_unsigned_tile_addressing,
            0x10,
        ) + flag_weight(self.bg_tile_map_area, 0x08) + flag_weight(self.obj_size, 0x04)
            + flag_weight(self.obj_enable, 0x02) + flag_weight(self.bg_and_window_enable, 0x01)
    }

    pub fn new() -> (control: Self)
        ensures
            control == Self::spec_from_byte(0),
    {
        Self::from_byte(0)
    }

    pub fn from_byte(value: u8) -> (control: Self)
        ensures
            control == Self::spec_from_byte(value),
    {
        LcdControl {
            lcd_and_ppu_enable: value & 0b1000_0000 != 0,
            window_tile_map_area: value & 0b0100_0000 != 0,
            window_enable: value & 0b0010_0000 != 0,
            use_unsigned_tile_addressing: value & 0b0001_0000 != 0,
            bg_tile_map_area: value & 0b0000_1000 != 0,
            obj_size: value & 0b0000_0100 != 0,
            obj_enable: value & 0b0000_0010 != 0,
            bg_and_window_enable: value & 0b0000_0001 != 0,
        }
    }

    pub fn to_byte(&self) -> (value: u8)
        ensures
            value == self.spec_to_byte(),
    {
        let b7: u8 = if self.lcd_and_ppu_enable { 0x80 } else { 0 };
        let b6: u8 = if self.window_tile_map_area { 0x40 } else { 0 };
        let b5: u8 = if self.window_enable { 0x20 } else { 0 };
        let b4: u8 = if self.use_unsigned_tile_addressing { 0x10 } else { 0 };
        let b3: u8 = if self.bg_tile_map_area { 0x08 } else { 0 };
        let b2: u8 = if self.obj_size { 0x04 } else { 0 };
        let b1: u8 = if self.obj_enable { 0x02 } else { 0 };
        let b0: u8 = if self.bg_and_window_enable { 0x01 } else { 0 };
        assert(b7 | b6 | b5 | b4 | b3 | b2 | b1 | b0 == b7 + b6 + b5 + b4 + b3 + b2 + b1 + b0)
            by (bit_vector)
            requires
                b7 == 0 || b7 == 0x80,
                b6 == 0 || b6 == 0x40,
                b5 == 0 || b5 == 0x20,
                b4 == 0 || b4 == 0x10,
                b3 == 0 || b3 == 0x08,
                b2 == 0 || b2 == 0x04,
                b1 == 0 || b1 == 0x02,
                b0 == 0 || b0 == 0x01,
        ;
        b7 | b6 | b5 | b4 | b3 | b2 | b1 | b0
    }
}

impl From<u8> for LcdControl {
    fn from(value: u8) -> (converted: Self) {
        Self::from_byte(value)
    }
}

impl vstd::std_specs::convert::FromSpecImpl<u8> for LcdControl {
    open spec fn obeys_from_spec() -> bool {
        true
    }

    open spec fn from_spec(value: u8) -> Self {
        Self::spec_from_byte(value)
    }
}

impl From<&LcdControl> for u8 {
    fn from(control: &LcdControl) -> (value: u8) {
        control.to_byte()
    }
}

impl vstd::std_specs::convert::FromSpecImpl<&LcdControl> for u8 {
    open spec fn obeys_from_spec() -> bool {
        true
    }

    open spec fn from_spec(control: &LcdControl) -> u8 {
        control.spec_to_byte() as u8
    }
}

/// The bits of LCDC: 7 LCD on, 6 window tile map, 5 window on, 4 unsigned tile data
/// addressing (0x8000), 3 background tile map, 2 object size, 1 objects on, 0 background on.
pub proof fn lemma_lcd_control_bits(c: LcdControl)
    ensures
        (c.spec_to_byte() / 128) % 2 == (if c.lcd_and_ppu_enable { 1int } else { 0int }),
        (c.spec_to_byte() / 64) % 2 == (if c.window_tile_map_area { 1int } else { 0int }),
        (c.spec_to_byte() / 32) % 2 == (if c.window_enable { 1int } else { 0int }),
        (c.spec_to_byte() / 16) % 2 == (if c.use_unsigned_tile_addressing { 1int } else { 0int }),
        (c.spec_to_byte() / 8) % 2 == (if c.bg_tile_map_area { 1int } else { 0int }),
        (c.spec_to_byte() / 4) % 2 == (if c.obj_size { 1int } else { 0int }),
        (c.spec_to_byte() / 2) % 2 == (if c.obj_enable { 1int } else { 0int }),
        c.spec_to_byte() % 2 == (if c.bg_and_window_enable { 1int } else { 0int }),
        0 <= c.spec_to_byte() < 256,
{
}

/// Writing a byte to LCDC and reading it back gives the same byte.
pub proof fn lemma_lcd_control_round_trip(value: u8)
    ensures
        LcdControl::spec_from_byte(value).spec_to_byte() == value,
{
    let c = LcdControl::spec_from_byte(value);
    let b7: u8 = if c.lcd_and_ppu_enable { 0x80 } else { 0 };
    let b6: u8 = if c.window_tile_map_area { 0x40 } else { 0 };
    let b5: u8 = if c.window_enable { 0x20 } else { 0 };
    let b4: u8 = if c.use_unsigned_tile_addressing { 0x10 } else { 0 };
    let b3: u8 = if c.bg_tile_map_area { 0x08 } else { 0 };
    let b2: u8 = if c.obj_size { 0x04 } else { 0 };
    let b1: u8 = if c.obj_enable { 0x02 } else { 0 };
    let b0: u8 = if c.bg_and_window_enable { 0x01 } else { 0 };
    assert(c.spec_to_byte() == b7 + b6 + b5 + b4 + b3 + b2 + b1 + b0);
    assert(value == b7 + b6 + b5 + b4 + b3 + b2 + b1 + b0) by (bit_vector)
        requires
            b7 == (if value & 0x80 != 0 { 0x80u8 } else { 0u8 }),
            b6 == (if value & 0x40 != 0 { 0x40u8 } else { 0u8 }),
            b5 == (if value & 0x20 != 0 { 0x20u8 } else { 0u8 }),
            b4 == (if value & 0x10 != 0 { 0x10u8 } else { 0u8 }),
            b3 == (if value & 0x08 != 0 { 0x08u8 } else { 0u8 }),
            b2 == (if value & 0x04 != 0 { 0x04u8 } else { 0u8 }),
            b1 == (if value & 0x02 != 0 { 0x02u8 } else { 0u8 }),
            b0 == (if value & 0x01 != 0 { 0x01u8 } else { 0u8 }),
    ;
}

/// The writable interrupt-select bits of STAT; the mode and LY=LYC bits are computed on read.
#[derive(Clone, Copy, Debug, PartialEq, Eq, Structural)]
pub struct LcdStatus {
    pub mode_oam_interrupt: bool,
    pub mode_v_blank_interrupt: bool,
    pub mode_h_blank_interrupt: bool,
    pub lyc_equals_ly_interrupt: bool,
}

impl LcdStatus {
    /// The select bits that a byte written to STAT sets (bits 6 to 3).
    pub open spec fn spec_from_byte(value: u8) -> LcdStatus {
        LcdStatus {
            lyc_equals_ly_interrupt: value & 0x40 != 0,
            mode_oam_interrupt: value & 0x20 != 0,
            mode_v_blank_interrupt: value & 0x10 != 0,
            mode_h_blank_interrupt: value & 0x08 != 0,
        }
    }

    /// The select bits as they read back in STAT.
    pub open spec fn spec_to_byte(self) -> int {
        flag_weight(self.lyc_equals_ly_interrupt, 0x40) + flag_weight(self.mode_oam_interrupt, 0x20)
            + flag_weight(self.mode_v_blank_interrupt, 0x10) + flag_weight(
            self.mode_h_blank_interrupt,
            0x08,
        )
    }

    pub fn new() -> (status: Self)
        ensures
            status == Self::spec_from_byte(0),
    {
        Self::from_byte(0)
    }

    pub fn from_byte(value: u8) -> (status: Self)
        ensures
            status == Self::spec_from_byte(value),
    {
        LcdStatus {
            lyc_equals_ly_interrupt: value & 0b0100_0000 != 0,
            mode_oam_interrupt: value & 0b0010_0000 != 0,
            mode_v_blank_interrupt: value & 0b0001_0000 != 0,
            mode_h_blank_interrupt: value & 0b0000_1000 != 0,
        }
    }

    pub fn to_byte(&self) -> (value: u8)
        ensures
            value == self.spec_to_byte(),
    {
        let b6: u8 = if self.lyc_equals_ly_interrupt { 0x40 } else { 0 };
        let b5: u8 = if self.mode_oam_interrupt { 0x20 } else { 0 };
        let b4: u8 = if self.mode_v_blank_interrupt { 0x10 } else { 0 };
        let b3: u8 = if self.mode_h_blank_interrupt { 0x08 } else { 0 };
        assert(b6 | b5 | b4 | b3 == b6 + b5 + b4 + b3) by (bit_vector)
            requires
                b6 == 0 || b6 == 0x40,
                b5 == 0 || b5 == 0x20,
                b4 == 0 || b4 == 0x10,
                b3 == 0 || b3 == 0x08,
        ;
        b6 | b5 | b4 | b3
    }
}

impl From<u8> for LcdStatus {
    fn from(value: u8) -> (converted: Self) {
        Self::from_byte(value)
    }
}

impl vstd::std_specs::convert::FromSpecImpl<u8> for LcdStatus {
    open spec fn obeys_from_spec() -> bool {
        true
    }

    open spec fn from_spec(value: u8) -> Self {
        Self::spec_from_byte(value)
    }
}

impl From<&LcdStatus> for u8 {
    fn from(status: &LcdStatus) -> (value: u8) {
        status.to_byte()
    }
}

impl vstd::std_specs::convert::FromSpecImpl<&LcdStatus> for u8 {
    open spec fn obeys_from_spec() -> bool {
        true
    }

    open spec fn from_spec(status: &LcdStatus) -> u8 {
        status.spec_to_byte() as u8
    }
}

/// The select bits of STAT: 6 the LY=LYC interrupt, 5 the OAM-search interrupt, 4 the
/// VBlank interrupt, 3 the HBlank interrupt; bits 7 and 2 to 0 are not among them.
pub proof fn lemma_lcd_status_bits(s: LcdStatus)
    ensures
        (s.spec_to_byte() / 64) % 2 == (if s.lyc_equals_ly_interrupt { 1int } else { 0int }),
        (s.spec_to_byte() / 32) % 2 == (if s.mode_oam_interrupt { 1int } else { 0int }),
        (s.spec_to_byte() / 16) % 2 == (if s.mode_v_blank_interrupt { 1int } else { 0int }),
        (s.spec_to_byte() / 8) % 2 == (if s.mode_h_blank_interrupt { 1int } else { 0int }),
        s.spec_to_byte() % 8 == 0,
        0 <= s.spec_to_byte() < 128,
{
}

/// Writing a byte to STAT keeps only its select bits (6 to 3) on read-back.
pub proof fn lemma_lcd_status_round_trip(value: u8)
    ensures
        LcdStatus::spec_from_byte(value).spec_to_byte() == value & 0x78,
{
    let s = LcdStatus::spec_from_byte(value);
    let b6: u8 = if s.lyc_equals_ly_interrupt { 0x40 } else { 0 };
    let b5: u8 = if s.mode_oam_interrupt { 0x20 } else { 0 };
    let b4: u8 = if s.mode_v_blank_interrupt { 0x10 } else { 0 };
    let b3: u8 = if s.mode_h_blank_interrupt { 0x08 } else { 0 };
    assert(s.spec_to_byte() == b6 + b5 + b4 + b3);
    assert(value & 0x78 == b6 + b5 + b4 + b3) by (bit_vector)
        requires
            b6 == (if value & 0x40 != 0 { 0x40u8 } else { 0u8 }),
            b5 == (if value & 0x20 != 0 { 0x20u8 } else { 0u8 }),
            b4 == (if value & 0x10 != 0 { 0x10u8 } else { 0u8 }),
            b3 == (if value & 0x08 != 0 { 0x08u8 } else { 0u8 }),
    ;
}

} // verus!
