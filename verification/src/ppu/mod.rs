//! The picture processing unit: its modes along a scanline, the pixel fetcher,
//! the background and object FIFOs, and the CPU's view of VRAM, OAM and the LCD registers.
pub mod colors;
pub mod cpu_access;
pub mod lcd;
pub mod model;
pub mod pipeline;
pub mod sprite;

use std::collections::VecDeque;
use vstd::prelude::*;

use crate::memory_bus::InterruptType;
use crate::ppu::lcd::{LcdControl, LcdStatus};
use crate::ppu::model::{
    FetcherView, PpuView, blank_framebuffer, choose_pixel, color_id, initial_fetcher,
    initial_ppu, lemma_advance_mode_inv, pop_front, reverse8, tile_row_pixels, with_pixel,
    wrap8, merge_object_row,
};
use crate::ppu::sprite::{Sprite, SpriteAttributes, sort_sprites_in_place, sprites_at, sprites_at_x};

verus! {

/// The four PPU modes of a scanline.
#[derive(Clone, Copy, Debug, PartialEq, Eq, Structural)]
pub enum PpuMode {
    HBlank,
    VBlank,
    OamSearch,
    PixelTransfer,
}

/// The screen: 144 rows of 160 color ids.
#[derive(Clone, Copy, Debug)]
pub struct Framebuffer(pub [[u8; 160]; 144]);

impl Framebuffer {
    pub fn new() -> (framebuffer: Self)
        ensures
            framebuffer == blank_framebuffer(),
    {
        Framebuffer([[0; 160]; 144])
    }

    /// Sets the color id of one pixel.
    pub fn set_pixel(&mut self, row: usize, col: usize, color: u8)
        requires
            row < 144,
            col < 160,
        ensures
            *final(self) == with_pixel(*old(self), row as int, col as int, color),
    {
        self.0[row][col] = color;
    }
}

/// Tile data: 384 tiles of 16 bytes at 0x8000–0x97FF.
pub struct TileData(pub Vec<u8>);

impl TileData {
    pub fn new() -> (data: Self)
        ensures
            data.0@ == Seq::new(0x1800, |i: int| 0u8),
    {
        let v: Vec<u8> = vec![0; 0x1800];
        assert(v@ =~= Seq::new(0x1800, |i: int| 0u8));
        TileData(v)
    }

    pub fn set(&mut self, offset: usize, value: u8)
        requires
            offset < old(self).0@.len(),
        ensures
            final(self).0@ == old(self).0@.update(offset as int, value),
    {
        self.0.set(offset, value);
    }
}

/// Object attribute memory: 40 objects of 4 bytes at 0xFE00–0xFE9F.
pub struct OAM(pub Vec<u8>);

impl OAM {
    pub fn new() -> (oam: Self)
        ensures
            oam.0@ == Seq::new(0xA0, |i: int| 0u8),
    {
        let v: Vec<u8> = vec![0; 0xA0];
        assert(v@ =~= Seq::new(0xA0, |i: int| 0u8));
        OAM(v)
    }

    pub fn set(&mut self, offset: usize, value: u8)
        requires
            offset < old(self).0@.len(),
        ensures
            final(self).0@ == old(self).0@.update(offset as int, value),
    {
        self.0.set(offset, value);
    }
}

/// The background tile map at 0x9800: 32 rows of 32 tile ids, stored row by row.
pub struct TileMap(pub Vec<u8>);

impl TileMap {
    pub fn new() -> (map: Self)
        ensures
            map.0@ == Seq::new(1024, |i: int| 0u8),
    {
        let v: Vec<u8> = vec![0; 1024];
        assert(v@ =~= Seq::new(1024, |i: int| 0u8));
        TileMap(v)
    }

    /// The tile id at `offset` (row `offset / 32`, column `offset % 32`).
    pub fn get(&self, offset: usize) -> (tile: u8)
        requires
            offset < self.0@.len(),
        ensures
            tile == self.0@[offset as int],
    {
        self.0[offset]
    }

    pub fn set(&mut self, offset: usize, value: u8)
        requires
            offset < old(self).0@.len(),
        ensures
            final(self).0@ == old(self).0@.update(offset as int, value),
    {
        self.0.set(offset, value);
    }
}

/// What a PPU step reports to the rest of the machine.
#[derive(Clone, Copy, Debug)]
pub enum PpuEvent {
    FrameReady(Framebuffer),
    InterruptRequested(InterruptType),
}

/// The stages of the pixel fetcher.
#[derive(Clone, Copy, Debug, PartialEq, Eq, Structural)]
pub enum FetcherState {
    FetchTileId,
    FetchTileDataLow,
    FetchTileDataHigh,
    Sleep,
    Push,
}

/// The pixel fetcher.
pub struct Fetcher {
    pub state: FetcherState,
    pub tile_id: u8,
    pub tile_data_low: u8,
    pub tile_data_high: u8,
    pub clock: u8,
    pub tile_x: u8,
    pub pending_sprites: VecDeque<Sprite>,
    pub current_sprite: Option<Sprite>,
}

impl View for Fetcher {
    type V = FetcherView;

    open spec fn view(&self) -> FetcherView {
        FetcherView {
            state: self.state,
            tile_id: self.tile_id,
            tile_data_low: self.tile_data_low,
            tile_data_high: self.tile_data_high,
            clock: self.clock,
            tile_x: self.tile_x,
            pending_sprites: self.pending_sprites@,
            current_sprite: self.current_sprite,
        }
    }
}

impl Fetcher {
    pub fn new() -> (fetcher: Self)
        ensures
            fetcher@ == initial_fetcher(),
    {
        Fetcher {
            state: FetcherState::FetchTileId,
            tile_id: 0,
            tile_data_low: 0,
            tile_data_high: 0,
            clock: 2,
            tile_x: 0,
            pending_sprites: VecDeque::new(),
            current_sprite: None,
        }
    }

    /// Queues `sprites` behind the objects already waiting to be fetched.
    pub(crate) fn queue_pending(&mut self, sprites: &Vec<Sprite>)
        ensures
            final(self)@ == (FetcherView {
                pending_sprites: old(self)@.pending_sprites + sprites@,
                ..old(self)@
            }),
    {
        let mut i: usize = 0;
        while i < sprites.len()
            invariant
                i <= sprites.len(),
                self@ == (FetcherView {
                    pending_sprites: old(self)@.pending_sprites + sprites@.take(i as int),
                    ..old(self)@
                }),
            decreases sprites.len() - i,
        {
            self.pending_sprites.push_back(sprites[i]);
            assert(old(self)@.pending_sprites + sprites@.take(i + 1) =~= (old(self)@.pending_sprites
                + sprites@.take(i as int)).push(sprites@[i as int]));
            i += 1;
        }
        assert(sprites@.take(sprites.len() as int) =~= sprites@);
    }
}

/// The PPU.
pub struct Ppu {
    pub row: u8,
    pub col: u16,
    pub mode: PpuMode,
    pub framebuffer: Framebuffer,
    pub tile_data: TileData,
    pub lcd_control: LcdControl,
    pub oam: OAM,
    pub tile_map: TileMap,
    pub background_fifo: VecDeque<u8>,
    pub object_fifo: VecDeque<u8>,
    pub fetcher: Fetcher,
    pub screen_x: u8,
    pub lyc: u8,
    pub lcd_status: LcdStatus,
    pub scx: u8,
    pub scy: u8,
    pub pixels_to_discard: u8,
    pub sprites_to_draw: Vec<Sprite>,
}

impl View for Ppu {
    type V = PpuView;

    open spec fn view(&self) -> PpuView {
        PpuView {
            row: self.row,
            col: self.col,
            mode: self.mode,
            framebuffer: self.framebuffer,
            tile_data: self.tile_data.0@,
            lcd_control: self.lcd_control,
            oam: self.oam.0@,
            tile_map: self.tile_map.0@,
            background_fifo: self.background_fifo@,
            object_fifo: self.object_fifo@,
            fetcher: self.fetcher@,
            screen_x: self.screen_x,
            lyc: self.lyc,
            lcd_status: self.lcd_status,
            scx: self.scx,
            scy: self.scy,
            pixels_to_discard: self.pixels_to_discard,
            sprites_to_draw: self.sprites_to_draw@,
        }
    }
}

/// Reverses the bits of a byte (horizontal flip of a tile row).
pub fn reverse_bits(b: u8) -> (r: u8)
    ensures
        r == reverse8(b),
{
    ((b >> 7u8) & 1) | (((b >> 6u8) & 1) << 1u8) | (((b >> 5u8) & 1) << 2u8) | (((b >> 4u8) & 1)
        << 3u8) | (((b >> 3u8) & 1) << 4u8) | (((b >> 2u8) & 1) << 5u8) | (((b >> 1u8) & 1) << 6u8)
        | ((b & 1) << 7u8)
}

/// Picks the pixel to draw; see `choose_pixel`.
pub fn select_pixel(bg: Option<u8>, obj: Option<u8>, discard: u8) -> (r: (Option<u8>, u8))
    ensures
        r == choose_pixel(bg, obj, discard),
{
    match bg {
        Some(bg_color_id) => match obj {
            Some(obj_color_id) => {
                if obj_color_id != 0 {
                    (Some(obj_color_id), discard)
                } else {
                    (Some(bg_color_id), discard)
                }
            },
            None => {
                if discard > 0 {
                    (None, discard - 1)
                } else {
                    (Some(bg_color_id), discard)
                }
            },
        },
        None => (obj, discard),
    }
}

} // verus!
