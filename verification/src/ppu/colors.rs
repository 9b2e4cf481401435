//! Colour ids: every pixel that the PPU queues or draws is a colour id from 0 to 3.
use vstd::prelude::*;

use crate::ppu::model::{
    PpuView,
    blank_framebuffer,
    color_id,
    initial_ppu,
    merge_object_row,
    tile_row_pixels,
    with_pixel,
};
use crate::ppu::{Framebuffer, PpuEvent, PpuMode};

verus! {

broadcast use vstd::array::group_array_axioms;

/// Whether every pixel of a frame is a colour id from 0 to 3.
pub open spec fn frame_colors_valid(framebuffer: Framebuffer) -> bool {
    forall|row: int, col: int|
        0 <= row < 144 && 0 <= col < 160 ==> #[trigger] framebuffer.0[row][col] < 4
}

/// Whether every pixel queued in a FIFO is a colour id from 0 to 3.
pub open spec fn fifo_colors_valid(fifo: Seq<u8>) -> bool {
    forall|i: int| 0 <= i < fifo.len() ==> #[trigger] fifo[i] < 4
}

/// Whether the screen and both FIFOs hold colour ids only.
pub open spec fn ppu_colors_valid(s: PpuView) -> bool {
    &&& frame_colors_valid(s.framebuffer)
    &&& fifo_colors_valid(s.background_fifo)
    &&& fifo_colors_valid(s.object_fifo)
}

/// Whether every frame among the events holds colour ids only.
pub open spec fn event_frames_valid(events: Seq<PpuEvent>) -> bool {
    forall|k: int|
        0 <= k < events.len() ==> (#[trigger] events[k] matches PpuEvent::FrameReady(frame)
            ==> frame_colors_valid(frame))
}

proof fn lemma_color_id(low: u8, high: u8, bit: u8)
    ensures
        color_id(low, high, bit) < 4,
{
    assert((((high >> bit) & 1u8) << 1u8) | ((low >> bit) & 1u8) < 4) by (bit_vector);
}

proof fn lemma_tile_row_colors(low: u8, high: u8)
    ensures
        fifo_colors_valid(tile_row_pixels(low, high)),
{
    assert forall|i: int| 0 <= i < 8 implies #[trigger] tile_row_pixels(low, high)[i] < 4 by {
        lemma_color_id(low, high, (7 - i) as u8);
    }
}

proof fn lemma_merge_colors(fifo: Seq<u8>, low: u8, high: u8, bit: int)
    requires
        fifo_colors_valid(fifo),
    ensures
        fifo_colors_valid(merge_object_row(fifo, low, high, bit)),
    decreases bit + 1,
{
    if bit >= 0 {
        let color = color_id(low, high, bit as u8);
        lemma_color_id(low, high, bit as u8);
        let next = if bit < fifo.len() {
            if fifo[bit] == 0 {
                fifo.update(bit, color)
            } else {
                fifo
            }
        } else {
            fifo.push(color)
        };
        assert(fifo_colors_valid(next));
        lemma_merge_colors(next, low, high, bit - 1);
    }
}

proof fn lemma_drop_first_colors(fifo: Seq<u8>)
    requires
        fifo_colors_valid(fifo),
        fifo.len() > 0,
    ensures
        fifo_colors_valid(fifo.drop_first()),
        fifo[0] < 4,
{
    assert forall|i: int| 0 <= i < fifo.drop_first().len() implies #[trigger] fifo.drop_first()[i]
        < 4 by {
        assert(fifo.drop_first()[i] == fifo[i + 1]);
    }
}

/// The blank screen holds colour 0 everywhere.
pub proof fn lemma_blank_frame_colors()
    ensures
        frame_colors_valid(blank_framebuffer()),
{
    let fb = blank_framebuffer();
    assert forall|row: int, col: int| 0 <= row < 144 && 0 <= col < 160 implies #[trigger] fb.0[row][col]
        < 4 by {
        assert(fb.0[row][col] == 0);
    }
}

proof fn lemma_with_pixel_colors(fb: Framebuffer, row: int, col: int, color: u8)
    requires
        frame_colors_valid(fb),
        color < 4,
        0 <= row < 144,
        0 <= col < 160,
    ensures
        frame_colors_valid(with_pixel(fb, row, col, color)),
{
    let updated = with_pixel(fb, row, col, color);
    assert forall|r: int, c: int| 0 <= r < 144 && 0 <= c < 160 implies #[trigger] updated.0[r][c]
        < 4 by {
        if r == row {
            assert(updated.0[r][c] == (if c == col { color } else { fb.0[r][c] }));
        } else {
            assert(updated.0[r] == fb.0[r]);
        }
    }
}

proof fn lemma_transfer_pixel_colors(s: PpuView)
    requires
        ppu_colors_valid(s),
        s.row < 144,
        s.screen_x < 160,
    ensures
        ppu_colors_valid(s.transfer_pixel()),
{
    if s.background_fifo.len() > 0 {
        lemma_drop_first_colors(s.background_fifo);
    }
    if s.object_fifo.len() > 0 {
        lemma_drop_first_colors(s.object_fifo);
    }
    let t = s.transfer_pixel();
    if t.framebuffer != s.framebuffer {
        let color = t.framebuffer.0[s.row as int][s.screen_x as int];
        assert(color < 4) by {
            if s.background_fifo.len() > 0 {
                assert(s.background_fifo[0] < 4);
            }
            if s.object_fifo.len() > 0 {
                assert(s.object_fifo[0] < 4);
            }
        }
        lemma_with_pixel_colors(s.framebuffer, s.row as int, s.screen_x as int, color);
    }
}

proof fn lemma_fetch_colors(s: PpuView)
    requires
        ppu_colors_valid(s),
    ensures
        ppu_colors_valid(s.fetch()),
{
    let f = s.fetcher;
    lemma_tile_row_colors(f.tile_data_low, f.tile_data_high);
    lemma_merge_colors(s.object_fifo, f.tile_data_low, f.tile_data_high, 7);
}

/// Every dot of the PPU keeps colour ids on the screen and in the FIFOs, and every frame
/// it finishes holds colour ids only: no pixel ever falls outside a four-colour palette.
pub proof fn lemma_ppu_step_colors(s: PpuView)
    requires
        s.inv(),
        ppu_colors_valid(s),
    ensures
        ppu_colors_valid(s.step().0),
        event_frames_valid(s.step().1),
{
    if s.lcd_control.lcd_and_ppu_enable {
        let (s1, events1) = s.mode_step();
        if s.mode == PpuMode::PixelTransfer {
            lemma_transfer_pixel_colors(s);
            lemma_fetch_colors(s.transfer_pixel());
        }
        assert(ppu_colors_valid(s1));
        assert(event_frames_valid(events1));
        lemma_blank_frame_colors();
        let (s2, events2) = s1.advance_mode();
        assert(ppu_colors_valid(s2));
        assert(event_frames_valid(events2));
        assert forall|k: int| 0 <= k < (events1 + events2).len() implies (#[trigger] (events1
            + events2)[k] matches PpuEvent::FrameReady(frame) ==> frame_colors_valid(frame)) by {
            if k < events1.len() {
                assert((events1 + events2)[k] == events1[k]);
            } else {
                assert((events1 + events2)[k] == events2[k - events1.len()]);
            }
        }
    }
}

/// At power-on the screen is blank and the FIFOs are empty.
pub proof fn lemma_initial_ppu_colors()
    ensures
        ppu_colors_valid(initial_ppu()),
{
    lemma_blank_frame_colors();
}

/// The CPU's writes to the PPU keep colour ids: they leave the FIFOs alone and either
/// keep the screen or blank it.
pub proof fn lemma_cpu_writes_keep_colors(s: PpuView, addr: u16, value: u8)
    requires
        ppu_colors_valid(s),
    ensures
        ppu_colors_valid(s.write_vram(addr, value)),
        ppu_colors_valid(s.write_oam(addr, value)),
        ppu_colors_valid(s.write_lcd_control(value)),
{
    lemma_blank_frame_colors();
}

} // verus!
