//! What the PPU does on each dot: pixel transfer, the fetcher, OAM search and the
//! changes of mode.
use std::collections::VecDeque;
use vstd::prelude::*;

use crate::memory_bus::InterruptType;
use crate::ppu::lcd::{LcdControl, LcdStatus};
use crate::ppu::model::{
    PpuView, choose_pixel, color_id, initial_ppu, lemma_advance_mode_inv, pop_front, reverse8,
    tile_row_pixels, with_pixel, wrap8, merge_object_row,
};
use crate::ppu::sprite::{Sprite, SpriteAttributes, sort_sprites_in_place, sprites_at, sprites_at_x};
use crate::ppu::{
    Fetcher, FetcherState, Framebuffer, OAM, Ppu, PpuEvent, PpuMode, TileData, TileMap,
    reverse_bits, select_pixel,
};

verus! {

impl Ppu {
    /// The bounds that the PPU keeps between steps.
    pub open spec fn inv(&self) -> bool {
        self@.inv()
    }

    pub fn new() -> (ppu: Self)
        ensures
            ppu@ == initial_ppu(),
            ppu.inv(),
    {
        Ppu {
            mode: PpuMode::OamSearch,
            row: 0,
            col: 0,
            lcd_control: LcdControl::new(),
            framebuffer: Framebuffer::new(),
            tile_data: TileData::new(),
            oam: OAM::new(),
            tile_map: TileMap::new(),
            background_fifo: VecDeque::new(),
            object_fifo: VecDeque::new(),
            fetcher: Fetcher::new(),
            screen_x: 0,
            lyc: 0,
            lcd_status: LcdStatus::new(),
            scx: 0,
            scy: 0,
            pixels_to_discard: 0,
            sprites_to_draw: Vec::new(),
        }
    }

    /// The objects of the current line whose X equals `x`.
    pub fn get_sprite_at(&self, x: u8) -> (sprites: Vec<Sprite>)
        ensures
            sprites@ == sprites_at(self.sprites_to_draw@, x),
    {
        sprites_at_x(&self.sprites_to_draw, x)
    }

    /// The offset in tile data of the low byte of the tile row that the fetcher reads.
    pub fn tile_address(&self) -> (address: usize)
        ensures
            address == self@.tile_address(),
            address + 1 < 0x1800,
    {
        let mut line_in_tile: u8 = self.row.wrapping_add(self.scy) % 8;
        assert(line_in_tile == wrap8(self.row + self.scy) % 8);
        if let Some(sprite) = self.fetcher.current_sprite {
            if sprite.attributes.y_flip {
                line_in_tile = 7 - line_in_tile;
            }
        }
        let id = self.fetcher.tile_id as usize;
        if self.lcd_control.use_unsigned_tile_addressing {
            id * 16 + (line_in_tile as usize) * 2
        } else {
            let base: usize = if id < 128 { 0x1000 + id * 16 } else { 0x1000 - (256 - id) * 16 };
            base + (line_in_tile as usize) * 2
        }
    }

    /// Moves one pixel from the FIFOs to the screen.
    #[verifier::spinoff_prover]
    #[verifier::rlimit(40)]
    pub fn transfer_pixel(&mut self)
        requires
            old(self)@.row < 144,
            old(self)@.screen_x < 160,
            old(self)@.col < 0xFFFF,
        ensures
            final(self)@ == old(self)@.transfer_pixel(),
    {
        let background_pixel = self.background_fifo.pop_front();
        let object_pixel = self.object_fifo.pop_front();
        assert(old(self)@.background_fifo.len() > 0 ==> old(self)@.background_fifo.subrange(
            1,
            old(self)@.background_fifo.len() as int,
        ) =~= old(self)@.background_fifo.drop_first());
        assert(old(self)@.object_fifo.len() > 0 ==> old(self)@.object_fifo.subrange(
            1,
            old(self)@.object_fifo.len() as int,
        ) =~= old(self)@.object_fifo.drop_first());
        let ghost popped = self@;
        assert(popped.background_fifo == pop_front(old(self)@.background_fifo).1);
        assert(popped.object_fifo == pop_front(old(self)@.object_fifo).1);
        assert(background_pixel == pop_front(old(self)@.background_fifo).0);
        assert(object_pixel == pop_front(old(self)@.object_fifo).0);
        let (drawn, discard) = select_pixel(background_pixel, object_pixel, self.pixels_to_discard);
        let ghost target = old(self)@.transfer_pixel();
        assert(target == (PpuView {
            pixels_to_discard: discard,
            framebuffer: match drawn {
                Some(c) => with_pixel(
                    popped.framebuffer,
                    popped.row as int,
                    popped.screen_x as int,
                    c,
                ),
                None => popped.framebuffer,
            },
            col: if drawn is Some {
                (popped.col + 1) as u16
            } else {
                popped.col
            },
            screen_x: if drawn is Some {
                (popped.screen_x + 1) as u8
            } else {
                popped.screen_x
            },
            ..popped
        }));
        self.pixels_to_discard = discard;
        let ghost mid = self@;
        assert(mid == (PpuView { pixels_to_discard: discard, ..popped }));
        if drawn.is_some() {
            let color = drawn.unwrap();
            self.framebuffer.set_pixel(self.row as usize, self.screen_x as usize, color);
            let ghost drawn_state = self@;
            assert(drawn_state == (PpuView {
                framebuffer: with_pixel(mid.framebuffer, mid.row as int, mid.screen_x as int, color),
                ..mid
            }));
            self.col += 1;
            self.screen_x += 1;
            assert(self@ == (PpuView {
                col: (drawn_state.col + 1) as u16,
                screen_x: (drawn_state.screen_x + 1) as u8,
                ..drawn_state
            }));
            assert(self@ == target);
        } else {
            assert(self@ == target);
        }
    }

    /// Queues the objects at the current screen X for the fetcher.
    fn check_and_push_sprite(&mut self)
        ensures
            final(self)@ == (PpuView { fetcher: old(self)@.queue_sprites(old(self)@.fetcher), ..old(self)@ }),
    {
        let sprites = self.get_sprite_at(self.screen_x);
        self.fetcher.queue_pending(&sprites);
    }

    /// Replaces the object pixel at position `i` of the object FIFO.
    fn set_object_pixel(&mut self, i: usize, color: u8)
        requires
            i < old(self)@.object_fifo.len(),
        ensures
            final(self)@ == (PpuView {
                object_fifo: old(self)@.object_fifo.update(i as int, color),
                ..old(self)@
            }),
    {
        self.object_fifo.remove(i);
        self.object_fifo.insert(i, color);
        assert(self.object_fifo@ =~= old(self)@.object_fifo.update(i as int, color));
    }

    /// Mixes the fetched object row into the object FIFO.
    fn push_object_row(&mut self)
        ensures
            final(self)@ == (PpuView {
                object_fifo: merge_object_row(
                    old(self)@.object_fifo,
                    old(self)@.fetcher.tile_data_low,
                    old(self)@.fetcher.tile_data_high,
                    7,
                ),
                ..old(self)@
            }),
    {
        let low = self.fetcher.tile_data_low;
        let high = self.fetcher.tile_data_high;
        let ghost start = self.object_fifo@;
        let mut i: usize = 8;
        while i > 0
            invariant
                i <= 8,
                self@ == (PpuView { object_fifo: self@.object_fifo, ..old(self)@ }),
                low == old(self)@.fetcher.tile_data_low,
                high == old(self)@.fetcher.tile_data_high,
                merge_object_row(start, low, high, 7) == merge_object_row(
                    self.object_fifo@,
                    low,
                    high,
                    i - 1,
                ),
                start == old(self)@.object_fifo,
            decreases i,
        {
            i = i - 1;
            let b = i as u8;
            let bit_low = (low >> b) & 1;
            let bit_high = (high >> b) & 1;
            let color = (bit_high << 1u8) | bit_low;
            assert(color == color_id(low, high, b));
            if i < self.object_fifo.len() {
                if self.object_fifo[i] == 0 {
                    self.set_object_pixel(i, color);
                }
            } else {
                self.object_fifo.push_back(color);
            }
        }
    }

    /// Pushes the fetched background row into the (empty) background FIFO.
    fn push_background_row(&mut self)
        requires
            old(self)@.background_fifo.len() == 0,
        ensures
            final(self)@ == (PpuView {
                background_fifo: tile_row_pixels(
                    old(self)@.fetcher.tile_data_low,
                    old(self)@.fetcher.tile_data_high,
                ),
                ..old(self)@
            }),
    {
        let low = self.fetcher.tile_data_low;
        let high = self.fetcher.tile_data_high;
        let mut i: usize = 8;
        while i > 0
            invariant
                i <= 8,
                self@ == (PpuView { background_fifo: self@.background_fifo, ..old(self)@ }),
                low == old(self)@.fetcher.tile_data_low,
                high == old(self)@.fetcher.tile_data_high,
                self.background_fifo@ =~= tile_row_pixels(low, high).take(8 - i),
            decreases i,
        {
            i = i - 1;
            let b = i as u8;
            let bit_low = (low >> b) & 1;
            let bit_high = (high >> b) & 1;
            let color = (bit_high << 1u8) | bit_low;
            assert(color == color_id(low, high, b));
            self.background_fifo.push_back(color);
            assert(self.background_fifo@ =~= tile_row_pixels(low, high).take(8 - i));
        }
        assert(tile_row_pixels(low, high).take(8) =~= tile_row_pixels(low, high));
    }

    /// The background tile id that the fetcher reads next.
    fn background_tile_id(&self) -> (tile: u8)
        requires
            self@.inv_after_pixel(),
        ensures
            tile == self@.tile_map[self@.map_index()],
    {
        let background_y = self.row.wrapping_add(self.scy);
        let tile_y = (background_y / 8) as usize;
        let first_tile_x = (self.scx / 8) as usize;
        let tile_x = (first_tile_x + self.fetcher.tile_x as usize) % 32;
        assert(tile_y * 32 + tile_x == self@.map_index());
        self.tile_map.get(tile_y * 32 + tile_x)
    }

    fn fetch_tile_id(&mut self)
        requires
            old(self)@.inv_after_pixel(),
        ensures
            final(self)@ == old(self)@.fetch_tile_id(),
    {
        let ghost target = old(self)@.fetch_tile_id();
        if self.fetcher.clock > 0 {
            self.fetcher.clock -= 1;
        }
        let sprites = self.get_sprite_at(self.screen_x);
        if sprites.len() > 0 {
            let ghost pending = self.fetcher.pending_sprites@ + sprites@;
            self.fetcher.queue_pending(&sprites);
            let sprite = self.fetcher.pending_sprites[0];
            self.fetcher.pending_sprites.pop_front();
            assert(pending.subrange(1, pending.len() as int) =~= pending.drop_first());
            self.fetcher.current_sprite = Some(sprite);
            self.fetcher.tile_id = sprite.tile_index;
            self.fetcher.state = FetcherState::FetchTileDataLow;
            self.fetcher.clock = 2;
            assert(self@.fetcher == target.fetcher);
            assert(self@ == target);
        } else {
            let tile = self.background_tile_id();
            self.fetcher.tile_id = tile;
            self.fetcher.state = FetcherState::FetchTileDataLow;
            self.fetcher.clock = 2;
            assert(self@.fetcher == target.fetcher);
            assert(self@ == target);
        }
    }

    fn fetch_tile_data_low(&mut self)
        requires
            old(self)@.inv_after_pixel(),
        ensures
            final(self)@ == old(self)@.fetch_tile_data_low(),
    {
        let ghost target = old(self)@.fetch_tile_data_low();
        if self.fetcher.clock > 0 {
            self.fetcher.clock -= 1;
        }
        let address = self.tile_address();
        let mut byte = self.tile_data.0[address];
        if let Some(sprite) = self.fetcher.current_sprite {
            if sprite.attributes.x_flip {
                byte = reverse_bits(byte);
            }
        }
        self.fetcher.tile_data_low = byte;
        self.check_and_push_sprite();
        self.fetcher.state = FetcherState::FetchTileDataHigh;
        self.fetcher.clock = 2;
        assert(self@.fetcher == target.fetcher);
        assert(self@ == target);
    }

    fn fetch_tile_data_high(&mut self)
        requires
            old(self)@.inv_after_pixel(),
        ensures
            final(self)@ == old(self)@.fetch_tile_data_high(),
    {
        let ghost target = old(self)@.fetch_tile_data_high();
        if self.fetcher.clock > 0 {
            self.fetcher.clock -= 1;
        }
        let address = self.tile_address() + 1;
        let mut byte = self.tile_data.0[address];
        if let Some(sprite) = self.fetcher.current_sprite {
            if sprite.attributes.x_flip {
                byte = reverse_bits(byte);
            }
        }
        self.fetcher.tile_data_high = byte;
        self.check_and_push_sprite();
        self.fetcher.state = FetcherState::Sleep;
        self.fetcher.clock = 2;
        assert(self@.fetcher == target.fetcher);
        assert(self@ == target);
    }

    fn fetch_sleep(&mut self)
        ensures
            final(self)@ == old(self)@.fetch_sleep(),
    {
        let ghost target = old(self)@.fetch_sleep();
        if self.fetcher.clock > 0 {
            self.fetcher.clock -= 1;
        }
        self.check_and_push_sprite();
        self.fetcher.state = FetcherState::Push;
        self.fetcher.clock = 2;
        assert(self@.fetcher == target.fetcher);
        assert(self@ == target);
    }

    fn fetch_push(&mut self)
        ensures
            final(self)@ == old(self)@.fetch_push(),
    {
        let ghost target = old(self)@.fetch_push();
        if self.fetcher.current_sprite.is_some() {
            if self.object_fifo.len() < 8 {
                self.push_object_row();
                self.check_and_push_sprite();
                self.fetcher.state = FetcherState::FetchTileId;
                self.fetcher.clock = 2;
                assert(self@.fetcher == target.fetcher);
                assert(self@ == target);
            }
        } else if self.background_fifo.len() == 0 {
            self.push_background_row();
            self.check_and_push_sprite();
            let next = self.fetcher.tile_x.wrapping_add(1);
            let t = self.fetcher.tile_x;
            assert(next & 31 == (t + 1) % 32) by (bit_vector)
                requires
                    next == (if t + 1 > 255 { t + 1 - 256 } else { t + 1 }),
            ;
            self.fetcher.tile_x = next & 31;
            self.fetcher.state = FetcherState::FetchTileId;
            self.fetcher.clock = 2;
            assert(self@.fetcher == target.fetcher);
            assert(self@ == target);
        }
    }

    /// One stage of the pixel fetcher.
    fn fetch(&mut self)
        requires
            old(self)@.inv_after_pixel(),
        ensures
            final(self)@ == old(self)@.fetch(),
    {
        match self.fetcher.state {
            FetcherState::FetchTileId => self.fetch_tile_id(),
            FetcherState::FetchTileDataLow => self.fetch_tile_data_low(),
            FetcherState::FetchTileDataHigh => self.fetch_tile_data_high(),
            FetcherState::Sleep => self.fetch_sleep(),
            FetcherState::Push => self.fetch_push(),
        }
    }

    /// OAM search for the current dot.
    fn scan_oam(&mut self)
        requires
            old(self).inv(),
            old(self)@.mode == PpuMode::OamSearch,
        ensures
            final(self)@ == old(self)@.scan_oam(),
    {
        if self.col % 2 == 0 && self.sprites_to_draw.len() < 10 {
            let index = (self.col / 2) as usize;
            let sprite = Sprite {
                y: self.oam.0[index * 4],
                x: self.oam.0[index * 4 + 1],
                tile_index: self.oam.0[index * 4 + 2],
                attributes: SpriteAttributes::from_byte(self.oam.0[index * 4 + 3]),
            };
            let top = sprite.y.wrapping_sub(16);
            assert(top == wrap8(sprite.y - 16));
            let bottom = top.wrapping_add(8);
            assert(bottom == wrap8(top + 8));
            if top <= self.row && self.row < bottom && self.sprites_to_draw.len() < 10 {
                self.sprites_to_draw.push(sprite);
            }
        }
    }

    /// The change of mode at the end of a dot; its events are appended to `events`.
    fn advance_mode(&mut self, events: &mut Vec<PpuEvent>)
        requires
            old(self)@.inv_after_dot(),
        ensures
            final(self)@ == old(self)@.advance_mode().0,
            final(events)@ == old(events)@ + old(self)@.advance_mode().1,
    {
        let ghost start = events@;
        match self.mode {
            PpuMode::OamSearch => {
                if self.col >= 80 {
                    sort_sprites_in_place(&mut self.sprites_to_draw);
                    self.fetcher.tile_x = 0;
                    self.mode = PpuMode::PixelTransfer;
                    self.pixels_to_discard = self.scx % 8;
                }
                assert(events@ =~= start + Seq::<PpuEvent>::empty());
            },
            PpuMode::HBlank => {
                if self.col >= 456 {
                    self.col = 0;
                    self.row += 1;
                    if self.row >= 144 {
                        self.mode = PpuMode::VBlank;
                        events.push(PpuEvent::InterruptRequested(InterruptType::VBlank));
                        if self.lcd_status.mode_v_blank_interrupt {
                            events.push(PpuEvent::InterruptRequested(InterruptType::LCD));
                        }
                        events.push(PpuEvent::InterruptRequested(InterruptType::VBlank));
                        events.push(PpuEvent::FrameReady(self.framebuffer));
                    } else {
                        self.mode = PpuMode::OamSearch;
                        if self.lcd_status.mode_oam_interrupt {
                            events.push(PpuEvent::InterruptRequested(InterruptType::LCD));
                        }
                    }
                }
                assert(events@ =~= start + old(self)@.advance_mode().1);
            },
            PpuMode::PixelTransfer => {
                if self.screen_x >= 160 {
                    self.mode = PpuMode::HBlank;
                    self.fetcher = Fetcher::new();
                    self.background_fifo.clear();
                    self.screen_x = 0;
                    if self.lcd_status.mode_h_blank_interrupt {
                        events.push(PpuEvent::InterruptRequested(InterruptType::LCD));
                    }
                }
                assert(events@ =~= start + old(self)@.advance_mode().1);
            },
            PpuMode::VBlank => {
                if self.col >= 456 {
                    self.col = 0;
                    self.row += 1;
                }
                if self.row >= 154 {
                    self.row = 0;
                    self.mode = PpuMode::OamSearch;
                    self.framebuffer = Framebuffer::new();
                }
                assert(events@ =~= start + Seq::<PpuEvent>::empty());
            },
        }
    }

    /// The work of one dot in the current mode; its events are appended to `events`.
    fn mode_step(&mut self, events: &mut Vec<PpuEvent>)
        requires
            old(self).inv(),
        ensures
            final(self)@ == old(self)@.mode_step().0,
            final(events)@ == old(events)@ + old(self)@.mode_step().1,
    {
        let ghost start = events@;
        match self.mode {
            PpuMode::OamSearch => {
                if self.lyc == self.row && self.lcd_status.lyc_equals_ly_interrupt {
                    events.push(PpuEvent::InterruptRequested(InterruptType::LCD));
                }
                assert(events@ =~= start + old(self)@.mode_step().1);
                self.scan_oam();
                self.col += 1;
            },
            PpuMode::PixelTransfer => {
                self.transfer_pixel();
                let ghost transferred = self@;
                assert(transferred.inv_after_pixel());
                self.fetch();
                assert(events@ =~= start + old(self)@.mode_step().1);
            },
            _ => {
                self.col += 1;
                assert(events@ =~= start + old(self)@.mode_step().1);
            },
        }
    }

    /// One dot (T-cycle) of the PPU, with the events it raises in order.
    pub fn step(&mut self) -> (events: Vec<PpuEvent>)
        requires
            old(self).inv(),
        ensures
            final(self).inv(),
            (final(self)@, events@) == old(self)@.step(),
    {
        let mut events = Vec::<PpuEvent>::new();
        if !self.lcd_control.lcd_and_ppu_enable {
            return events;
        }
        self.mode_step(&mut events);
        let ghost mid = self@;
        let ghost mid_events = events@;
        assert(mid_events =~= old(self)@.mode_step().1);
        self.advance_mode(&mut events);
        proof {
            lemma_advance_mode_inv(mid);
        }
        assert(events@ =~= old(self)@.step().1);
        events
    }
}

} // verus!
