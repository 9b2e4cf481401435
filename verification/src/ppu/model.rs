//! The mathematical model of the PPU: its state and what one dot does to it.
use vstd::prelude::*;
use vstd::array::{spec_array_update, spec_array_fill_for_copy_type};

use crate::memory_bus::InterruptType;
use crate::ppu::lcd::{LcdControl, LcdStatus};
use crate::ppu::sprite::{Sprite, SpriteAttributes, sort_sprites, sprites_at};
use crate::ppu::{Framebuffer, FetcherState, PpuEvent, PpuMode};

verus! {

/// The all-zero screen.
pub open spec fn blank_framebuffer() -> Framebuffer {
    Framebuffer(spec_array_fill_for_copy_type(spec_array_fill_for_copy_type(0u8)))
}

/// The screen with one pixel replaced.
pub open spec fn with_pixel(fb: Framebuffer, row: int, col: int, color: u8) -> Framebuffer {
    Framebuffer(spec_array_update(fb.0, row, spec_array_update(fb.0[row], col, color)))
}


/// The mathematical state of the pixel fetcher.
pub struct FetcherView {
    pub state: FetcherState,
    pub tile_id: u8,
    pub tile_data_low: u8,
    pub tile_data_high: u8,
    pub clock: u8,
    pub tile_x: u8,
    pub pending_sprites: Seq<Sprite>,
    pub current_sprite: Option<Sprite>,
}


/// The fetcher at the start of a scanline.
pub open spec fn initial_fetcher() -> FetcherView {
    FetcherView {
        state: FetcherState::FetchTileId,
        tile_id: 0,
        tile_data_low: 0,
        tile_data_high: 0,
        clock: 2,
        tile_x: 0,
        pending_sprites: Seq::empty(),
        current_sprite: None,
    }
}


/// The mathematical state of the PPU.
pub struct PpuView {
    pub row: u8,
    pub col: u16,
    pub mode: PpuMode,
    pub framebuffer: Framebuffer,
    pub tile_data: Seq<u8>,
    pub lcd_control: LcdControl,
    pub oam: Seq<u8>,
    pub tile_map: Seq<u8>,
    pub background_fifo: Seq<u8>,
    pub object_fifo: Seq<u8>,
    pub fetcher: FetcherView,
    pub screen_x: u8,
    pub lyc: u8,
    pub lcd_status: LcdStatus,
    pub scx: u8,
    pub scy: u8,
    pub pixels_to_discard: u8,
    pub sprites_to_draw: Seq<Sprite>,
}


/// A byte truncated to 8 bits, as wrapping arithmetic gives it.
pub open spec fn wrap8(value: int) -> u8 {
    (value % 256) as u8
}

/// The bits of a byte in reverse order.
pub open spec fn reverse8(b: u8) -> u8 {
    ((b >> 7u8) & 1) | (((b >> 6u8) & 1) << 1u8) | (((b >> 5u8) & 1) << 2u8) | (((b >> 4u8) & 1)
        << 3u8) | (((b >> 3u8) & 1) << 4u8) | (((b >> 2u8) & 1) << 5u8) | (((b >> 1u8) & 1) << 6u8)
        | ((b & 1) << 7u8)
}


/// The color id (0 to 3) of pixel `bit` of a tile row: bit `bit` of the high byte
/// above bit `bit` of the low byte.
pub open spec fn color_id(low: u8, high: u8, bit: u8) -> u8 {
    (((high >> bit) & 1u8) << 1u8) | ((low >> bit) & 1u8)
}

/// The eight pixels of a tile row, leftmost (bit 7) first.
pub open spec fn tile_row_pixels(low: u8, high: u8) -> Seq<u8> {
    Seq::new(8, |k: int| color_id(low, high, (7 - k) as u8))
}

/// Mixes an object's tile row into the object FIFO, from pixel `bit` down to pixel 0:
/// a pixel already queued is replaced only where it is transparent, and a pixel
/// past the end of the FIFO is appended.
pub open spec fn merge_object_row(fifo: Seq<u8>, low: u8, high: u8, bit: int) -> Seq<u8>
    decreases bit + 1,
{
    if bit < 0 {
        fifo
    } else {
        let color = color_id(low, high, bit as u8);
        let next = if bit < fifo.len() {
            if fifo[bit] == 0 {
                fifo.update(bit, color)
            } else {
                fifo
            }
        } else {
            fifo.push(color)
        };
        merge_object_row(next, low, high, bit - 1)
    }
}

/// The first element of a FIFO and what remains, if it is not empty.
pub open spec fn pop_front(fifo: Seq<u8>) -> (Option<u8>, Seq<u8>) {
    if fifo.len() > 0 {
        (Some(fifo[0]), fifo.drop_first())
    } else {
        (None, fifo)
    }
}

/// The pixel that reaches the screen from the heads of the background and object FIFOs,
/// and the count of pixels still to discard: an opaque object pixel wins, a transparent
/// one shows the background, and a lone background pixel is dropped while pixels remain
/// to be discarded.
pub open spec fn choose_pixel(bg: Option<u8>, obj: Option<u8>, discard: u8) -> (Option<u8>, u8) {
    match bg {
        Some(bg_color) => match obj {
            Some(obj_color) => (Some(if obj_color != 0 { obj_color } else { bg_color }), discard),
            None => if discard > 0 {
                (None, (discard - 1) as u8)
            } else {
                (Some(bg_color), discard)
            },
        },
        None => (obj, discard),
    }
}


/// The object that the four OAM bytes of entry `index` describe.
pub open spec fn oam_sprite(oam: Seq<u8>, index: int) -> Sprite {
    Sprite {
        y: oam[4 * index],
        x: oam[4 * index + 1],
        tile_index: oam[4 * index + 2],
        attributes: SpriteAttributes::spec_from_byte(oam[4 * index + 3]),
    }
}

impl PpuView {
    /// The bounds as they stand after a pixel of the line was drawn: as between dots, but
    /// the screen X may have reached the end of the line (160).
    pub open spec fn inv_after_pixel(self) -> bool {
        &&& PpuView { screen_x: 0, col: 80, ..self }.inv()
        &&& self.mode == PpuMode::PixelTransfer
        &&& self.screen_x <= 160
        &&& self.col == 80 + self.screen_x
    }

    /// The bounds as they stand after the work of a dot, before the change of mode: the
    /// dot counter may have reached the end of OAM search (80) or of the line (456).
    pub open spec fn inv_after_dot(self) -> bool {
        ||| self.inv()
        ||| (self.mode == PpuMode::OamSearch && self.col <= 80 && PpuView { col: 0, ..self }.inv())
        ||| ((self.mode == PpuMode::HBlank || self.mode == PpuMode::VBlank) && self.col <= 456
            && PpuView { col: 0, ..self }.inv())
        ||| self.inv_after_pixel()
    }

    /// The bounds that the PPU keeps between dots: the dot counter stays within the line
    /// (456 dots), and during pixel transfer it runs 80 ahead of the screen X, which is 0
    /// in every other mode.
    pub open spec fn inv(self) -> bool {
        &&& self.tile_data.len() == 0x1800
        &&& self.oam.len() == 0xA0
        &&& self.tile_map.len() == 1024
        &&& self.screen_x < 160
        &&& self.sprites_to_draw.len() <= 10
        &&& self.col < 456
        &&& (self.mode == PpuMode::OamSearch ==> self.col < 80)
        &&& (self.mode == PpuMode::PixelTransfer ==> self.col == 80 + self.screen_x)
        &&& (self.mode != PpuMode::PixelTransfer ==> self.screen_x == 0)
        &&& (self.mode != PpuMode::VBlank ==> self.row < 144)
        &&& (self.mode == PpuMode::VBlank ==> self.row < 154)
    }

    /// The row of the current tile that the fetcher reads (flipped for a Y-flipped object).
    pub open spec fn line_in_tile(self) -> int {
        let line = (wrap8(self.row + self.scy) % 8) as int;
        match self.fetcher.current_sprite {
            Some(sprite) => if sprite.attributes.y_flip {
                7 - line
            } else {
                line
            },
            None => line,
        }
    }

    /// The offset in tile data of the low byte of the current tile row: tiles from 0x8000
    /// by unsigned id, or from 0x9000 by signed id.
    pub open spec fn tile_address(self) -> int {
        let id = self.fetcher.tile_id as int;
        if self.lcd_control.use_unsigned_tile_addressing {
            id * 16 + self.line_in_tile() * 2
        } else {
            0x1000 + (if id < 128 { id } else { id - 256 }) * 16 + self.line_in_tile() * 2
        }
    }

    /// The index in the tile map of the background tile that the fetcher reads next.
    pub open spec fn map_index(self) -> int {
        let tile_y = wrap8(self.row + self.scy) / 8;
        let tile_x = (self.scx / 8 + self.fetcher.tile_x) % 32;
        tile_y * 32 + tile_x
    }

    /// Moves one pixel from the FIFOs to the screen at the current row and screen X, and
    /// moves on to the next screen X; an opaque object pixel wins over the background, and
    /// while pixels are still to be discarded for SCX a lone background pixel is dropped
    /// instead (and nothing moves on).
    pub open spec fn transfer_pixel(self) -> PpuView {
        let (bg, bg_rest) = pop_front(self.background_fifo);
        let (obj, obj_rest) = pop_front(self.object_fifo);
        let (drawn, discard) = choose_pixel(bg, obj, self.pixels_to_discard);
        PpuView {
            background_fifo: bg_rest,
            object_fifo: obj_rest,
            pixels_to_discard: discard,
            framebuffer: match drawn {
                Some(color) => with_pixel(
                    self.framebuffer,
                    self.row as int,
                    self.screen_x as int,
                    color,
                ),
                None => self.framebuffer,
            },
            col: if drawn is Some {
                (self.col + 1) as u16
            } else {
                self.col
            },
            screen_x: if drawn is Some {
                (self.screen_x + 1) as u8
            } else {
                self.screen_x
            },
            ..self
        }
    }

    /// The fetcher with the objects at the current screen X queued.
    pub open spec fn queue_sprites(self, fetcher: FetcherView) -> FetcherView {
        FetcherView {
            pending_sprites: fetcher.pending_sprites + sprites_at(
                self.sprites_to_draw,
                self.screen_x,
            ),
            ..fetcher
        }
    }

    /// Whether the fetcher is fetching a horizontally flipped object.
    pub open spec fn fetching_x_flipped(self) -> bool {
        match self.fetcher.current_sprite {
            Some(sprite) => sprite.attributes.x_flip,
            None => false,
        }
    }

    /// Fetcher stage 1: the tile id, from the first object at the current X if there is
    /// one (which becomes the current object), else from the background tile map.
    pub open spec fn fetch_tile_id(self) -> PpuView {
        let f = self.fetcher;
        let found = sprites_at(self.sprites_to_draw, self.screen_x);
        let f1 = if found.len() > 0 {
            let pending = f.pending_sprites + found;
            FetcherView {
                pending_sprites: pending.drop_first(),
                current_sprite: Some(pending[0]),
                tile_id: pending[0].tile_index,
                ..f
            }
        } else {
            FetcherView { tile_id: self.tile_map[self.map_index()], ..f }
        };
        PpuView {
            fetcher: FetcherView { state: FetcherState::FetchTileDataLow, clock: 2, ..f1 },
            ..self
        }
    }

    /// Fetcher stage 2: the low byte of the tile row (bit-reversed for a flipped object).
    pub open spec fn fetch_tile_data_low(self) -> PpuView {
        let byte = self.tile_data[self.tile_address()];
        let f1 = self.queue_sprites(self.fetcher);
        PpuView {
            fetcher: FetcherView {
                tile_data_low: if self.fetching_x_flipped() { reverse8(byte) } else { byte },
                state: FetcherState::FetchTileDataHigh,
                clock: 2,
                ..f1
            },
            ..self
        }
    }

    /// Fetcher stage 3: the high byte of the tile row.
    pub open spec fn fetch_tile_data_high(self) -> PpuView {
        let byte = self.tile_data[self.tile_address() + 1];
        let f1 = self.queue_sprites(self.fetcher);
        PpuView {
            fetcher: FetcherView {
                tile_data_high: if self.fetching_x_flipped() { reverse8(byte) } else { byte },
                state: FetcherState::Sleep,
                clock: 2,
                ..f1
            },
            ..self
        }
    }

    /// Fetcher stage 4: a pause.
    pub open spec fn fetch_sleep(self) -> PpuView {
        let f1 = self.queue_sprites(self.fetcher);
        PpuView { fetcher: FetcherView { state: FetcherState::Push, clock: 2, ..f1 }, ..self }
    }

    /// Fetcher stage 5: an object row is mixed into the object FIFO once it has room;
    /// a background row waits for the background FIFO to be empty and moves to the next tile.
    pub open spec fn fetch_push(self) -> PpuView {
        let f = self.fetcher;
        if f.current_sprite is Some {
            if self.object_fifo.len() < 8 {
                let f1 = self.queue_sprites(f);
                PpuView {
                    object_fifo: merge_object_row(
                        self.object_fifo,
                        f.tile_data_low,
                        f.tile_data_high,
                        7,
                    ),
                    fetcher: FetcherView { state: FetcherState::FetchTileId, clock: 2, ..f1 },
                    ..self
                }
            } else {
                self
            }
        } else if self.background_fifo.len() == 0 {
            let f1 = self.queue_sprites(f);
            PpuView {
                background_fifo: tile_row_pixels(f.tile_data_low, f.tile_data_high),
                fetcher: FetcherView {
                    tile_x: ((f.tile_x + 1) % 32) as u8,
                    state: FetcherState::FetchTileId,
                    clock: 2,
                    ..f1
                },
                ..self
            }
        } else {
            self
        }
    }

    /// The fetcher's stage during pixel transfer.
    pub open spec fn fetch(self) -> PpuView {
        match self.fetcher.state {
            FetcherState::FetchTileId => self.fetch_tile_id(),
            FetcherState::FetchTileDataLow => self.fetch_tile_data_low(),
            FetcherState::FetchTileDataHigh => self.fetch_tile_data_high(),
            FetcherState::Sleep => self.fetch_sleep(),
            FetcherState::Push => self.fetch_push(),
        }
    }

    /// OAM search: on even dots, object `col / 2` is taken for the line if it covers
    /// the current row and fewer than ten are taken.
    pub open spec fn scan_oam(self) -> PpuView {
        if self.col % 2 == 0 && self.sprites_to_draw.len() < 10 {
            let sprite = oam_sprite(self.oam, self.col as int / 2);
            let top = wrap8(sprite.y - 16);
            if top <= self.row && self.row < wrap8(top + 8) {
                PpuView { sprites_to_draw: self.sprites_to_draw.push(sprite), ..self }
            } else {
                self
            }
        } else {
            self
        }
    }

    /// The work of one dot in the current mode.
    pub open spec fn mode_step(self) -> (PpuView, Seq<PpuEvent>) {
        match self.mode {
            PpuMode::OamSearch => {
                let events = if self.lyc == self.row && self.lcd_status.lyc_equals_ly_interrupt {
                    seq![PpuEvent::InterruptRequested(InterruptType::LCD)]
                } else {
                    Seq::empty()
                };
                let s = self.scan_oam();
                (PpuView { col: (s.col + 1) as u16, ..s }, events)
            },
            PpuMode::PixelTransfer => (self.transfer_pixel().fetch(), Seq::empty()),
            _ => (PpuView { col: (self.col + 1) as u16, ..self }, Seq::empty()),
        }
    }

    /// The change of mode at the end of a dot, with the events it raises.
    pub open spec fn advance_mode(self) -> (PpuView, Seq<PpuEvent>) {
        match self.mode {
            PpuMode::OamSearch => if self.col >= 80 {
                (
                    PpuView {
                        sprites_to_draw: sort_sprites(self.sprites_to_draw),
                        fetcher: FetcherView { tile_x: 0, ..self.fetcher },
                        mode: PpuMode::PixelTransfer,
                        pixels_to_discard: self.scx % 8,
                        ..self
                    },
                    Seq::empty(),
                )
            } else {
                (self, Seq::empty())
            },
            PpuMode::HBlank => if self.col >= 456 {
                let row = (self.row + 1) as u8;
                if row >= 144 {
                    let lcd = if self.lcd_status.mode_v_blank_interrupt {
                        seq![PpuEvent::InterruptRequested(InterruptType::LCD)]
                    } else {
                        Seq::empty()
                    };
                    (
                        PpuView { col: 0, row, mode: PpuMode::VBlank, ..self },
                        seq![PpuEvent::InterruptRequested(InterruptType::VBlank)] + lcd + seq![
                            PpuEvent::InterruptRequested(InterruptType::VBlank),
                            PpuEvent::FrameReady(self.framebuffer),
                        ],
                    )
                } else {
                    (
                        PpuView { col: 0, row, mode: PpuMode::OamSearch, ..self },
                        if self.lcd_status.mode_oam_interrupt {
                            seq![PpuEvent::InterruptRequested(InterruptType::LCD)]
                        } else {
                            Seq::empty()
                        },
                    )
                }
            } else {
                (self, Seq::empty())
            },
            PpuMode::PixelTransfer => if self.screen_x >= 160 {
                (
                    PpuView {
                        mode: PpuMode::HBlank,
                        fetcher: initial_fetcher(),
                        background_fifo: Seq::empty(),
                        screen_x: 0,
                        ..self
                    },
                    if self.lcd_status.mode_h_blank_interrupt {
                        seq![PpuEvent::InterruptRequested(InterruptType::LCD)]
                    } else {
                        Seq::empty()
                    },
                )
            } else {
                (self, Seq::empty())
            },
            PpuMode::VBlank => {
                let s = if self.col >= 456 {
                    PpuView { col: 0, row: (self.row + 1) as u8, ..self }
                } else {
                    self
                };
                if s.row >= 154 {
                    (
                        PpuView {
                            row: 0,
                            mode: PpuMode::OamSearch,
                            framebuffer: blank_framebuffer(),
                            ..s
                        },
                        Seq::empty(),
                    )
                } else {
                    (s, Seq::empty())
                }
            },
        }
    }

    /// One dot (T-cycle) of the PPU: nothing while the LCD is off; otherwise the mode's
    /// work, then the change of mode, with the events of both in that order.
    pub open spec fn step(self) -> (PpuView, Seq<PpuEvent>) {
        if !self.lcd_control.lcd_and_ppu_enable {
            (self, Seq::empty())
        } else {
            let (s1, events1) = self.mode_step();
            let (s2, events2) = s1.advance_mode();
            (s2, events1 + events2)
        }
    }
}

/// The PPU as it is at power-on.
pub open spec fn initial_ppu() -> PpuView {
    PpuView {
        row: 0,
        col: 0,
        mode: PpuMode::OamSearch,
        framebuffer: blank_framebuffer(),
        tile_data: Seq::new(0x1800, |i: int| 0u8),
        lcd_control: LcdControl::spec_from_byte(0),
        oam: Seq::new(0xA0, |i: int| 0u8),
        tile_map: Seq::new(1024, |i: int| 0u8),
        background_fifo: Seq::empty(),
        object_fifo: Seq::empty(),
        fetcher: initial_fetcher(),
        screen_x: 0,
        lyc: 0,
        lcd_status: LcdStatus::spec_from_byte(0),
        scx: 0,
        scy: 0,
        pixels_to_discard: 0,
        sprites_to_draw: Seq::empty(),
    }
}


/// The pixels of a tile row, leftmost first: pixel `k` has colour id 2 × (bit 7 − k of the
/// high byte) + (bit 7 − k of the low byte), a number from 0 to 3.
pub proof fn lemma_tile_row_pixels(low: u8, high: u8)
    ensures
        tile_row_pixels(low, high).len() == 8,
        forall|k: int|
            0 <= k < 8 ==> #[trigger] tile_row_pixels(low, high)[k] == 2 * ((high >> ((7 - k) as u8))
                & 1u8) + ((low >> ((7 - k) as u8)) & 1u8) && tile_row_pixels(low, high)[k] < 4,
{
    assert forall|k: int| 0 <= k < 8 implies #[trigger] tile_row_pixels(low, high)[k] == 2 * ((high
        >> ((7 - k) as u8)) & 1u8) + ((low >> ((7 - k) as u8)) & 1u8) && tile_row_pixels(low, high)[k]
        < 4 by {
        let b = (7 - k) as u8;
        let h = (high >> b) & 1u8;
        let l = (low >> b) & 1u8;
        assert((h << 1u8) | l == 2 * h + l && 2 * h + l < 4 && h <= 1 && l <= 1) by (bit_vector)
            requires
                h == (high >> b) & 1u8,
                l == (low >> b) & 1u8,
        ;
    }
}

/// Where the fetcher reads the low byte of a tile row, as an offset into tile data (VRAM
/// from 0x8000). With LCDC bit 4 set, tile `id` starts at `16 * id` (0x8000–0x8FFF); with
/// it clear the id is signed: tiles 0–127 start at `0x1000 + 16 * id` (0x9000–0x97FF)
/// and tiles 128–255 (−128 to −1) at `0x1000 - 16 * (256 - id)` (0x8800–0x8FFF). The row is `(LY + SCY) mod 8`,
/// counted from the bottom while a vertically flipped object is fetched; the high byte
/// follows the low one.
pub proof fn lemma_tile_address(s: PpuView)
    ensures
        ({
            let id = s.fetcher.tile_id as int;
            let line = (s.row as int + s.scy as int) % 256 % 8;
            let flipped = match s.fetcher.current_sprite {
                Some(sprite) => sprite.attributes.y_flip,
                None => false,
            };
            let row_in_tile = if flipped { 7 - line } else { line };
            let start = if s.lcd_control.use_unsigned_tile_addressing {
                16 * id
            } else if id < 128 {
                0x1000 + 16 * id
            } else {
                0x1000 - 16 * (256 - id)
            };
            &&& s.tile_address() == start + 2 * row_in_tile
            &&& 0 <= s.tile_address() && s.tile_address() + 1 < 0x1800
        }),
{
    let line = (s.row as int + s.scy as int) % 256 % 8;
    assert(wrap8(s.row + s.scy) as int == (s.row as int + s.scy as int) % 256);
    assert(0 <= line < 8);
    assert(0 <= s.line_in_tile() < 8);
}

/// The tile-map entry that the background fetcher reads: the map is 32 × 32 tiles, the
/// background row is `(LY + SCY) mod 256` and its tile row that divided by 8, and the
/// column is the fetcher's tile counter plus `SCX / 8`, wrapping at 32 tiles.
pub proof fn lemma_background_map_index(s: PpuView)
    ensures
        s.map_index() == ((s.row as int + s.scy as int) % 256) / 8 * 32 + (s.scx as int / 8
            + s.fetcher.tile_x as int) % 32,
        0 <= s.map_index() < 1024,
{
    assert(wrap8(s.row + s.scy) as int == (s.row as int + s.scy as int) % 256);
}

/// Which pixel reaches the screen from the heads of the FIFOs: with both a background and
/// an object pixel, an opaque object pixel (colour id other than 0) wins and a transparent
/// one lets the background show; a background pixel alone is drawn, unless pixels are
/// still to be discarded for SCX, in which case it is dropped and the count goes down by
/// one; an object pixel alone is drawn as it is; and with both FIFOs empty nothing is.
/// The discard count changes only when a pixel is dropped.
pub proof fn lemma_pixel_priority(bg: Option<u8>, obj: Option<u8>, discard: u8)
    ensures
        ({
            let (drawn, left) = choose_pixel(bg, obj, discard);
            &&& (bg is Some && obj is Some && obj->0 != 0) ==> drawn == obj && left == discard
            &&& (bg is Some && obj is Some && obj->0 == 0) ==> drawn == bg && left == discard
            &&& (bg is Some && obj is None && discard == 0) ==> drawn == bg && left == 0
            &&& (bg is Some && obj is None && discard > 0) ==> drawn is None && left == discard - 1
            &&& bg is None ==> drawn == obj && left == discard
        }),
{
}

/// The timing of a line with the LCD on: OAM search takes dots 0–79 and pixel transfer
/// starts on the dot that reaches 80; HBlank and VBlank count dots up to 456, where the
/// next line starts at dot 0; after line 143 comes VBlank (with a VBlank interrupt and
/// the finished frame), and after line 153 line 0 in OAM search. Nothing but pixel
/// transfer changes the line within it.
pub proof fn lemma_line_timing(s: PpuView)
    requires
        s.inv(),
        s.lcd_control.lcd_and_ppu_enable,
    ensures
        ({
            let (t, events) = s.step();
            &&& s.mode == PpuMode::OamSearch ==> t.row == s.row && t.col == s.col + 1 && (t.mode
                == PpuMode::PixelTransfer) == (s.col == 79) && (t.mode == PpuMode::OamSearch) == (
            s.col < 79)
            &&& s.mode == PpuMode::PixelTransfer ==> t.row == s.row && (t.mode == PpuMode::HBlank
                || t.mode == PpuMode::PixelTransfer)
            &&& (s.mode == PpuMode::HBlank && s.col < 455) ==> t.mode == PpuMode::HBlank && t.row
                == s.row && t.col == s.col + 1 && events.len() == 0
            &&& (s.mode == PpuMode::HBlank && s.col == 455 && s.row < 143) ==> t.mode
                == PpuMode::OamSearch && t.row == s.row + 1 && t.col == 0
            &&& (s.mode == PpuMode::HBlank && s.col == 455 && s.row == 143) ==> t.mode
                == PpuMode::VBlank && t.row == 144 && t.col == 0 && events.contains(
                PpuEvent::InterruptRequested(InterruptType::VBlank),
            ) && events.contains(PpuEvent::FrameReady(s.framebuffer))
            &&& (s.mode == PpuMode::VBlank && s.col < 455) ==> t.mode == PpuMode::VBlank && t.row
                == s.row && t.col == s.col + 1
            &&& (s.mode == PpuMode::VBlank && s.col == 455 && s.row < 153) ==> t.mode
                == PpuMode::VBlank && t.row == s.row + 1 && t.col == 0
            &&& (s.mode == PpuMode::VBlank && s.col == 455 && s.row == 153) ==> t.mode
                == PpuMode::OamSearch && t.row == 0 && t.col == 0
        }),
{
    let (t, events) = s.step();
    if s.mode == PpuMode::HBlank && s.col == 455 && s.row == 143 {
        let lcd = if s.lcd_status.mode_v_blank_interrupt {
            seq![PpuEvent::InterruptRequested(InterruptType::LCD)]
        } else {
            Seq::empty()
        };
        let tail = seq![PpuEvent::InterruptRequested(InterruptType::VBlank)] + lcd + seq![
            PpuEvent::InterruptRequested(InterruptType::VBlank),
            PpuEvent::FrameReady(s.framebuffer),
        ];
        assert(events == Seq::<PpuEvent>::empty() + tail);
        assert(events[0] == PpuEvent::InterruptRequested(InterruptType::VBlank));
        assert(events[events.len() - 1] == PpuEvent::FrameReady(s.framebuffer));
    }
}

/// The objects of a line are drawn in order of X, and at equal X in order of tile index:
/// the end of OAM search leaves them sorted that way, and keeps each of them.
pub proof fn lemma_drawing_order(sprites: Seq<Sprite>)
    ensures
        ({
            let sorted = sort_sprites(sprites);
            &&& forall|i: int, j: int|
                0 <= i < j < sorted.len() ==> (#[trigger] sorted[i]).x < (#[trigger] sorted[j]).x
                    || (sorted[i].x == sorted[j].x && sorted[i].tile_index <= sorted[j].tile_index)
            &&& sorted.to_multiset() == sprites.to_multiset()
        }),
{
    crate::ppu::sprite::lemma_sort_sprites(sprites);
}

/// OAM search, dot by dot: on an even dot `c` below 80, while fewer than ten objects are
/// taken, the object of OAM entry `c / 2` (bytes Y, X, tile, attributes) is taken exactly
/// when the line lies in the eight rows from `Y - 16` (modulo 256) on; on odd dots, and
/// once ten are taken, none is.
pub proof fn lemma_oam_scan(s: PpuView)
    requires
        s.inv(),
        s.mode == PpuMode::OamSearch,
    ensures
        ({
            let t = s.scan_oam();
            let entry = 4 * (s.col as int / 2);
            let top = (s.oam[entry] as int - 16) % 256;
            let taken = s.col % 2 == 0 && s.sprites_to_draw.len() < 10 && top <= s.row
                && s.row < (top + 8) % 256;
            &&& t == (PpuView { sprites_to_draw: t.sprites_to_draw, ..s })
            &&& taken ==> t.sprites_to_draw == s.sprites_to_draw.push(
                Sprite {
                    y: s.oam[entry],
                    x: s.oam[entry + 1],
                    tile_index: s.oam[entry + 2],
                    attributes: SpriteAttributes::spec_from_byte(s.oam[entry + 3]),
                },
            )
            &&& !taken ==> t.sprites_to_draw == s.sprites_to_draw
        }),
{
}

/// The mode that STAT reports in its bits 1–0: 0 in HBlank, 1 in VBlank, 2 during OAM
/// search and 3 during pixel transfer.
pub open spec fn stat_mode_bits(mode: PpuMode) -> int {
    match mode {
        PpuMode::HBlank => 0,
        PpuMode::VBlank => 1,
        PpuMode::OamSearch => 2,
        PpuMode::PixelTransfer => 3,
    }
}

/// STAT as the CPU reads it after writing `value` to it: bits 1–0 give the mode, bit 2 is
/// set exactly when LY equals LYC, bits 6–3 are those of the byte written, and bit 7 and
/// the written bits 2–0 read as 0.
pub proof fn lemma_stat_read_after_write(s: PpuView, value: u8)
    ensures
        ({
            let read = PpuView { lcd_status: LcdStatus::spec_from_byte(value), ..s }.read_lcd_status();
            &&& read == (value & 0x78) as int + (if s.row == s.lyc { 4int } else { 0int })
                + stat_mode_bits(s.mode)
            &&& read % 4 == stat_mode_bits(s.mode)
            &&& s.mode == PpuMode::HBlank ==> read % 4 == 0
            &&& s.mode == PpuMode::VBlank ==> read % 4 == 1
            &&& s.mode == PpuMode::OamSearch ==> read % 4 == 2
            &&& s.mode == PpuMode::PixelTransfer ==> read % 4 == 3
            &&& (read / 4) % 2 == (if s.row == s.lyc { 1int } else { 0int })
            &&& read / 8 == (value & 0x78) as int / 8
        }),
{
    crate::ppu::lcd::lemma_lcd_status_round_trip(value);
}

/// The change of mode keeps the PPU's bounds, from any state that a dot's work can leave.
pub proof fn lemma_advance_mode_inv(s: PpuView)
    requires
        s.inv_after_dot(),
    ensures
        s.advance_mode().0.inv(),
{
    if s.mode == PpuMode::OamSearch && s.col >= 80 {
        crate::ppu::sprite::lemma_sort_sprites(s.sprites_to_draw);
    }
}


impl PpuView {
    /// Whether VRAM is closed to the CPU (during pixel transfer with the LCD on).
    pub open spec fn vram_blocked(self) -> bool {
        self.mode == PpuMode::PixelTransfer && self.lcd_control.lcd_and_ppu_enable
    }

    /// Whether OAM is closed to the CPU: during pixel transfer, and during OAM search
    /// with the LCD on.
    pub open spec fn oam_blocked(self) -> bool {
        self.mode == PpuMode::PixelTransfer || (self.mode == PpuMode::OamSearch
            && self.lcd_control.lcd_and_ppu_enable)
    }

    /// A CPU read of VRAM: tile data at 0x8000–0x97FF, the tile map at 0x9800–0x9BFF,
    /// and 0 elsewhere or while VRAM is blocked.
    pub open spec fn read_vram(self, addr: u16) -> u8 {
        if self.vram_blocked() {
            0
        } else if 0x8000 <= addr <= 0x97FF {
            self.tile_data[addr - 0x8000]
        } else if 0x9800 <= addr <= 0x9BFF {
            self.tile_map[addr - 0x9800]
        } else {
            0
        }
    }

    /// A CPU write of VRAM; ignored elsewhere or while VRAM is blocked.
    pub open spec fn write_vram(self, addr: u16, value: u8) -> PpuView {
        if self.vram_blocked() {
            self
        } else if 0x8000 <= addr <= 0x97FF {
            PpuView { tile_data: self.tile_data.update(addr - 0x8000, value), ..self }
        } else if 0x9800 <= addr <= 0x9BFF {
            PpuView { tile_map: self.tile_map.update(addr - 0x9800, value), ..self }
        } else {
            self
        }
    }

    /// A CPU read of OAM (0xFE00–0xFE9F); 0 while OAM is blocked.
    pub open spec fn read_oam(self, addr: u16) -> u8 {
        if self.oam_blocked() {
            0
        } else {
            self.oam[addr - 0xFE00]
        }
    }

    /// A CPU write of OAM; ignored while OAM is blocked.
    pub open spec fn write_oam(self, addr: u16, value: u8) -> PpuView {
        if self.oam_blocked() {
            self
        } else {
            PpuView { oam: self.oam.update(addr - 0xFE00, value), ..self }
        }
    }

    /// A write of LCDC: switching the LCD on restarts the frame at line 0 in OAM search.
    pub open spec fn write_lcd_control(self, value: u8) -> PpuView {
        let control = LcdControl::spec_from_byte(value);
        if control.lcd_and_ppu_enable {
            PpuView {
                lcd_control: control,
                mode: PpuMode::OamSearch,
                framebuffer: blank_framebuffer(),
                col: 0,
                row: 0,
                screen_x: 0,
                ..self
            }
        } else {
            PpuView { lcd_control: control, ..self }
        }
    }

    /// The number of the current mode as STAT reports it.
    pub open spec fn mode_number(self) -> int {
        match self.mode {
            PpuMode::HBlank => 0,
            PpuMode::VBlank => 1,
            PpuMode::OamSearch => 2,
            PpuMode::PixelTransfer => 3,
        }
    }

    /// A read of STAT: the mode in bits 0–1, LY=LYC in bit 2 and the select bits.
    pub open spec fn read_lcd_status(self) -> int {
        self.mode_number() + self.lcd_status.spec_to_byte() + (if self.row == self.lyc {
            4int
        } else {
            0int
        })
    }
}

} // verus!
