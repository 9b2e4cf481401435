//! The CPU's access to the PPU: VRAM, OAM and the LCD registers.
use vstd::prelude::*;

use crate::ppu::lcd::{LcdControl, LcdStatus};
use crate::ppu::model::PpuView;
use crate::ppu::{Framebuffer, Ppu, PpuMode};

verus! {

impl Ppu {
    pub fn read_vram_by_cpu(&self, addr: u16) -> (value: u8)
        requires
            self.inv(),
        ensures
            value == self@.read_vram(addr),
    {
        if self.mode == PpuMode::PixelTransfer && self.lcd_control.lcd_and_ppu_enable {
            return 0;
        }
        if 0x8000 <= addr && addr <= 0x97FF {
            self.tile_data.0[addr as usize - 0x8000]
        } else if 0x9800 <= addr && addr <= 0x9BFF {
            self.tile_map.get(addr as usize - 0x9800)
        } else {
            0
        }
    }

    pub fn write_vram_by_cpu(&mut self, addr: u16, value: u8)
        requires
            old(self).inv(),
        ensures
            final(self)@ == old(self)@.write_vram(addr, value),
            final(self).inv(),
    {
        let ghost target = old(self)@.write_vram(addr, value);
        let blocked = self.mode == PpuMode::PixelTransfer && self.lcd_control.lcd_and_ppu_enable;
        if blocked {
        } else if 0x8000 <= addr && addr <= 0x97FF {
            let offset = addr as usize - 0x8000;
            assert(target == (PpuView { tile_data: old(self)@.tile_data.update(offset as int, value), ..old(self)@ }));
            self.tile_data.set(offset, value);
            assert(self@ == target);
        } else if 0x9800 <= addr && addr <= 0x9BFF {
            let offset = addr as usize - 0x9800;
            assert(target == (PpuView { tile_map: old(self)@.tile_map.update(offset as int, value), ..old(self)@ }));
            self.tile_map.set(offset, value);
            assert(self@ == target);
        }
    }

    pub fn read_oam_by_cpu(&self, addr: u16) -> (value: u8)
        requires
            self.inv(),
            0xFE00 <= addr <= 0xFE9F,
        ensures
            value == self@.read_oam(addr),
    {
        if self.mode == PpuMode::PixelTransfer || self.mode == PpuMode::OamSearch
            && self.lcd_control.lcd_and_ppu_enable {
            return 0;
        }
        self.oam.0[addr as usize - 0xFE00]
    }

    pub fn write_oam_by_cpu(&mut self, addr: u16, value: u8)
        requires
            old(self).inv(),
            0xFE00 <= addr <= 0xFE9F,
        ensures
            final(self)@ == old(self)@.write_oam(addr, value),
            final(self).inv(),
    {
        if self.mode == PpuMode::PixelTransfer || self.mode == PpuMode::OamSearch
            && self.lcd_control.lcd_and_ppu_enable {
            return;
        }
        let ghost target = old(self)@.write_oam(addr, value);
        self.oam.set(addr as usize - 0xFE00, value);
        assert(self@ == target);
    }

    pub fn read_lcd_control_by_cpu(&self) -> (value: u8)
        ensures
            value == self@.lcd_control.spec_to_byte(),
    {
        self.lcd_control.to_byte()
    }

    pub fn read_ly_by_cpu(&self) -> (value: u8)
        ensures
            value == self@.row,
    {
        self.row
    }

    pub fn write_lcd_control_by_cpu(&mut self, value: u8)
        requires
            old(self).inv(),
        ensures
            final(self)@ == old(self)@.write_lcd_control(value),
            final(self).inv(),
    {
        self.lcd_control = LcdControl::from_byte(value);
        if self.lcd_control.lcd_and_ppu_enable {
            self.mode = PpuMode::OamSearch;
            self.framebuffer = Framebuffer::new();
            self.col = 0;
            self.row = 0;
            self.screen_x = 0;
        }
    }

    pub fn read_lcd_status_by_cpu(&self) -> (value: u8)
        ensures
            value == self@.read_lcd_status(),
    {
        let mode_bits: u8 = match self.mode {
            PpuMode::OamSearch => 2,
            PpuMode::PixelTransfer => 3,
            PpuMode::HBlank => 0,
            PpuMode::VBlank => 1,
        };
        let status = self.lcd_status.to_byte();
        let coincidence: u8 = if self.row == self.lyc { 1 } else { 0 };
        assert(status % 8 == 0);
        assert(mode_bits | status | (coincidence << 2) == mode_bits + status + 4 * coincidence)
            by (bit_vector)
            requires
                mode_bits < 4,
                status % 8 == 0,
                coincidence < 2,
        ;
        mode_bits | status | (coincidence << 2)
    }

    pub fn write_lcd_status_by_cpu(&mut self, value: u8)
        ensures
            final(self)@ == (PpuView { lcd_status: LcdStatus::spec_from_byte(value), ..old(self)@ }),
    {
        self.lcd_status = LcdStatus::from_byte(value);
    }

    pub fn write_lyc_by_cpu(&mut self, value: u8)
        ensures
            final(self)@ == (PpuView { lyc: value, ..old(self)@ }),
    {
        self.lyc = value;
    }

    pub fn read_scroll_x_by_cpu(&self) -> (value: u8)
        ensures
            value == self@.scx,
    {
        self.scx
    }

    pub fn write_scroll_x_by_cpu(&mut self, value: u8)
        ensures
            final(self)@ == (PpuView { scx: value, ..old(self)@ }),
    {
        self.scx = value;
    }

    pub fn read_scroll_y_by_cpu(&self) -> (value: u8)
        ensures
            value == self@.scy,
    {
        self.scy
    }

    pub fn write_scroll_y_by_cpu(&mut self, value: u8)
        ensures
            final(self)@ == (PpuView { scy: value, ..old(self)@ }),
    {
        self.scy = value;
    }
}

} // verus!
