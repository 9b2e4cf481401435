//! What the front ends share: the keyboard layout, running the machine for one frame,
//! and the colours in which a frame is shown.
use vstd::prelude::*;

use crate::gameboy::{Event, GameBoy, GameBoyView, frames_hold_colors, lemma_frames_hold_colors_append};
use crate::joypad::{Joypad, lemma_joypad_read_bits};
use crate::ppu::Framebuffer;
use crate::ppu::colors::frame_colors_valid;

verus! {

/// The T-cycles of one frame: 154 lines of 456 dots.
pub const T_CYCLES_PER_FRAME: usize = 70_224;

/// The T-cycles of one second of the DMG clock.
pub const T_CYCLES_PER_SECOND: u64 = 4_194_304;

/// The length of a frame in nanoseconds (rounded down).
pub const FRAME_DURATION_NANOS: u64 = 1_000_000_000 * 70_224 / T_CYCLES_PER_SECOND;

/// Whether a frame is due: a deadline is set and has come.
pub fn frame_due(deadline: Option<u64>, now: u64) -> (due: bool)
    ensures
        due == (deadline matches Some(d) && now >= d),
{
    match deadline {
        Some(d) => now >= d,
        None => false,
    }
}

/// The deadline after a frame ran: one frame after the last deadline, or one frame
/// after the frame finished if it finished after that.
pub fn next_frame_deadline(deadline: u64, finished_at: u64) -> (next: u64)
    requires
        deadline + FRAME_DURATION_NANOS <= u64::MAX,
        finished_at + FRAME_DURATION_NANOS <= u64::MAX,
    ensures
        next == (if deadline + FRAME_DURATION_NANOS <= finished_at {
            finished_at + FRAME_DURATION_NANOS
        } else {
            deadline + FRAME_DURATION_NANOS
        }),
        next > finished_at,
{
    let next = deadline + FRAME_DURATION_NANOS;
    if next <= finished_at {
        finished_at + FRAME_DURATION_NANOS
    } else {
        next
    }
}

/// The eight buttons of the joypad.
#[derive(Clone, Copy, Debug, PartialEq, Eq, Structural)]
pub enum Button {
    Up,
    Down,
    Left,
    Right,
    A,
    B,
    Select,
    Start,
}

/// The keyboard layout: W, A, S, D for the d-pad, J and K for A and B, U and I for
/// Select and Start.
pub open spec fn spec_button_for_key(key: char) -> Option<Button> {
    if key == 'w' {
        Some(Button::Up)
    } else if key == 's' {
        Some(Button::Down)
    } else if key == 'a' {
        Some(Button::Left)
    } else if key == 'd' {
        Some(Button::Right)
    } else if key == 'j' {
        Some(Button::A)
    } else if key == 'k' {
        Some(Button::B)
    } else if key == 'u' {
        Some(Button::Select)
    } else if key == 'i' {
        Some(Button::Start)
    } else {
        None
    }
}

/// The button that a key stands for, if any.
pub fn button_for_key(key: char) -> (button: Option<Button>)
    ensures
        button == spec_button_for_key(key),
{
    if key == 'w' {
        Some(Button::Up)
    } else if key == 's' {
        Some(Button::Down)
    } else if key == 'a' {
        Some(Button::Left)
    } else if key == 'd' {
        Some(Button::Right)
    } else if key == 'j' {
        Some(Button::A)
    } else if key == 'k' {
        Some(Button::B)
    } else if key == 'u' {
        Some(Button::Select)
    } else if key == 'i' {
        Some(Button::Start)
    } else {
        None
    }
}

impl Joypad {
    /// The joypad with one button pressed or released.
    pub open spec fn spec_with_button(self, button: Button, pressed: bool) -> Joypad {
        match button {
            Button::Up => Joypad { up: pressed, ..self },
            Button::Down => Joypad { down: pressed, ..self },
            Button::Left => Joypad { left: pressed, ..self },
            Button::Right => Joypad { right: pressed, ..self },
            Button::A => Joypad { a: pressed, ..self },
            Button::B => Joypad { b: pressed, ..self },
            Button::Select => Joypad { select: pressed, ..self },
            Button::Start => Joypad { start: pressed, ..self },
        }
    }

    /// Presses or releases one button.
    pub fn set_button(&mut self, button: Button, pressed: bool)
        ensures
            *final(self) == old(self).spec_with_button(button, pressed),
    {
        match button {
            Button::Up => self.up = pressed,
            Button::Down => self.down = pressed,
            Button::Left => self.left = pressed,
            Button::Right => self.right = pressed,
            Button::A => self.a = pressed,
            Button::B => self.b = pressed,
            Button::Select => self.select = pressed,
            Button::Start => self.start = pressed,
        }
    }
}

/// Pressing a key of the layout shows in P1 as a 0 in its button's bit while its group is
/// selected: W, A, S, D clear bits 2, 1, 3 and 0 with the direction pad selected, and J,
/// K, U, I clear bits 0, 1, 2 and 3 with the action buttons selected; any other key
/// stands for no button.
pub proof fn lemma_key_reaches_p1(joypad: Joypad, key: char)
    ensures
        ({
            let pressed = joypad.spec_with_button(spec_button_for_key(key)->0, true);
            let d_pad = Joypad { select_d_pad: true, select_buttons: false, ..pressed };
            let buttons = Joypad { select_d_pad: false, select_buttons: true, ..pressed };
            &&& key == 'w' ==> d_pad.spec_get_by_cpu() & 0x04 == 0
            &&& key == 'a' ==> d_pad.spec_get_by_cpu() & 0x02 == 0
            &&& key == 's' ==> d_pad.spec_get_by_cpu() & 0x08 == 0
            &&& key == 'd' ==> d_pad.spec_get_by_cpu() & 0x01 == 0
            &&& key == 'j' ==> buttons.spec_get_by_cpu() & 0x01 == 0
            &&& key == 'k' ==> buttons.spec_get_by_cpu() & 0x02 == 0
            &&& key == 'u' ==> buttons.spec_get_by_cpu() & 0x04 == 0
            &&& key == 'i' ==> buttons.spec_get_by_cpu() & 0x08 == 0
            &&& (key != 'w' && key != 'a' && key != 's' && key != 'd' && key != 'j' && key != 'k'
                && key != 'u' && key != 'i') ==> spec_button_for_key(key) is None
        }),
{
    let pressed = joypad.spec_with_button(spec_button_for_key(key)->0, true);
    lemma_joypad_read_bits(Joypad { select_d_pad: true, select_buttons: false, ..pressed });
    lemma_joypad_read_bits(Joypad { select_d_pad: false, select_buttons: true, ..pressed });
}

/// The machine after `n` T-cycles with the joypad held as it is, and the events of those
/// cycles in order.
pub open spec fn run_steps(gameboy: GameBoyView, joypad: Joypad, n: nat) -> (GameBoyView, Seq<Event>)
    decreases n,
{
    if n == 0 {
        (gameboy, Seq::empty())
    } else {
        let (before, events) = run_steps(gameboy, joypad, (n - 1) as nat);
        let (after, more) = before.step(joypad);
        (after, events + more)
    }
}

/// One more T-cycle after `n`.
proof fn lemma_run_steps_next(
    gameboy: GameBoyView,
    joypad: Joypad,
    n: nat,
    before: GameBoyView,
    events: Seq<Event>,
)
    requires
        run_steps(gameboy, joypad, n) == (before, events),
    ensures
        run_steps(gameboy, joypad, n + 1) == (
            before.step(joypad).0,
            events + before.step(joypad).1,
        ),
{
}

impl GameBoy {
    /// Runs one frame's worth of T-cycles, stopping early where the machine cannot take
    /// the next one; returns the events in order and the number of T-cycles run.
    pub fn emulate_frame(&mut self, joypad: &Joypad) -> (result: (Vec<Event>, usize))
        requires
            old(self).inv(),
        ensures
            final(self).inv(),
            result.1 <= T_CYCLES_PER_FRAME,
            (final(self)@, result.0@) == run_steps(old(self)@, *joypad, result.1 as nat),
            result.1 < T_CYCLES_PER_FRAME ==> !final(self)@.can_step(*joypad),
            frames_hold_colors(result.0@),
    {
        let ghost start = self@;
        let mut events: Vec<Event> = Vec::new();
        let mut i: usize = 0;
        while i < T_CYCLES_PER_FRAME
            invariant
                i <= T_CYCLES_PER_FRAME,
                start == old(self)@,
                self.inv(),
                frames_hold_colors(events@),
                (self@, events@) == run_steps(start, *joypad, i as nat),
            decreases T_CYCLES_PER_FRAME - i,
        {
            if !self.can_step(joypad) {
                return (events, i);
            }
            let ghost before = (self@, events@);
            let mut more = self.step(joypad);
            let ghost produced = more@;
            events.append(&mut more);
            proof {
                lemma_run_steps_next(start, *joypad, i as nat, before.0, before.1);
                lemma_frames_hold_colors_append(before.1, produced);
            }
            assert(events@ == before.1 + produced);
            i += 1;
        }
        (events, i)
    }
}

/// The bytes sent over the serial port among `events`, in order.
pub open spec fn serial_bytes_of(events: Seq<Event>) -> Seq<u8>
    decreases events.len(),
{
    if events.len() == 0 {
        Seq::empty()
    } else {
        let rest = serial_bytes_of(events.drop_last());
        match events.last() {
            Event::SerialByte(byte) => rest.push(byte),
            Event::FrameReady(_) => rest,
        }
    }
}

/// The bytes sent over the serial port among `events`, in order.
pub fn serial_bytes(events: &Vec<Event>) -> (bytes: Vec<u8>)
    ensures
        bytes@ == serial_bytes_of(events@),
{
    let mut bytes: Vec<u8> = Vec::new();
    let mut i: usize = 0;
    while i < events.len()
        invariant
            i <= events@.len(),
            bytes@ == serial_bytes_of(events@.take(i as int)),
        decreases events@.len() - i,
    {
        assert(events@.take(i + 1).drop_last() =~= events@.take(i as int));
        match events[i] {
            Event::SerialByte(byte) => bytes.push(byte),
            Event::FrameReady(_) => {},
        }
        i += 1;
    }
    assert(events@.take(events@.len() as int) =~= events@);
    bytes
}

/// The last frame finished among `events`, if any.
pub open spec fn last_frame_of(events: Seq<Event>) -> Option<Framebuffer>
    decreases events.len(),
{
    if events.len() == 0 {
        None
    } else {
        match events.last() {
            Event::FrameReady(frame) => Some(frame),
            Event::SerialByte(_) => last_frame_of(events.drop_last()),
        }
    }
}

/// The last frame finished among `events`, if any.
pub fn last_frame(events: &Vec<Event>) -> (frame: Option<Framebuffer>)
    ensures
        frame == last_frame_of(events@),
        frames_hold_colors(events@) ==> (frame matches Some(f) ==> frame_colors_valid(f)),
{
    let mut frame: Option<Framebuffer> = None;
    let mut i: usize = 0;
    while i < events.len()
        invariant
            i <= events@.len(),
            frame == last_frame_of(events@.take(i as int)),
            frames_hold_colors(events@) ==> (frame matches Some(f) ==> frame_colors_valid(f)),
        decreases events@.len() - i,
    {
        assert(events@.take(i + 1).drop_last() =~= events@.take(i as int));
        assert(events@[i as int] == events[i as int]);
        match events[i] {
            Event::FrameReady(finished) => frame = Some(finished),
            Event::SerialByte(_) => {},
        }
        i += 1;
    }
    assert(events@.take(events@.len() as int) =~= events@);
    frame
}

/// The screen colour, as red, green, blue and alpha, of a colour id: four shades of green
/// from lightest to darkest.
pub open spec fn palette_rgba(color: u8) -> Seq<u8> {
    if color == 0 {
        seq![0xe0u8, 0xf8, 0xd0, 0xff]
    } else if color == 1 {
        seq![0x88u8, 0xc0, 0x70, 0xff]
    } else if color == 2 {
        seq![0x34u8, 0x68, 0x56, 0xff]
    } else {
        seq![0x08u8, 0x18, 0x20, 0xff]
    }
}

/// The screen colour of a colour id (0 to 3).
pub fn palette_color(color: u8) -> (rgba: [u8; 4])
    requires
        color < 4,
    ensures
        rgba@ == palette_rgba(color),
{
    let rgba: [u8; 4] = if color == 0 {
        [0xe0, 0xf8, 0xd0, 0xff]
    } else if color == 1 {
        [0x88, 0xc0, 0x70, 0xff]
    } else if color == 2 {
        [0x34, 0x68, 0x56, 0xff]
    } else {
        [0x08, 0x18, 0x20, 0xff]
    };
    assert(rgba@ =~= palette_rgba(color));
    rgba
}

/// Where channel `channel` of the pixel at `row`, `col` lies in an RGBA frame.
pub open spec fn rgba_index(row: int, col: int, channel: int) -> int {
    (row * 160 + col) * 4 + channel
}

/// A frame as RGBA bytes, row by row, four bytes per pixel.
pub fn frame_to_rgba(framebuffer: &Framebuffer) -> (rgba: Vec<u8>)
    requires
        frame_colors_valid(*framebuffer),
    ensures
        rgba@.len() == 144 * 160 * 4,
        forall|row: int, col: int, channel: int|
            0 <= row < 144 && 0 <= col < 160 && 0 <= channel < 4 ==> #[trigger] rgba@[rgba_index(
                row,
                col,
                channel,
            )] == palette_rgba(framebuffer.0[row][col])[channel],
{
    let mut rgba: Vec<u8> = Vec::new();
    let mut row: usize = 0;
    while row < 144
        invariant
            row <= 144,
            frame_colors_valid(*framebuffer),
            rgba@.len() == row * 160 * 4,
            forall|r: int, c: int, k: int|
                0 <= r < row && 0 <= c < 160 && 0 <= k < 4 ==> #[trigger] rgba@[rgba_index(r, c, k)]
                    == palette_rgba(framebuffer.0[r][c])[k],
        decreases 144 - row,
    {
        let line = framebuffer.0[row];
        let mut col: usize = 0;
        while col < 160
            invariant
                row < 144,
                col <= 160,
                line == framebuffer.0[row as int],
                frame_colors_valid(*framebuffer),
                rgba@.len() == (row * 160 + col) * 4,
                forall|r: int, c: int, k: int|
                    0 <= r < row && 0 <= c < 160 && 0 <= k < 4 ==> #[trigger] rgba@[rgba_index(
                        r,
                        c,
                        k,
                    )] == palette_rgba(framebuffer.0[r][c])[k],
                forall|c: int, k: int|
                    0 <= c < col && 0 <= k < 4 ==> #[trigger] rgba@[rgba_index(row as int, c, k)]
                        == palette_rgba(framebuffer.0[row as int][c])[k],
            decreases 160 - col,
        {
            assert(framebuffer.0[row as int][col as int] < 4);
            let color = palette_color(line[col]);
            rgba.push(color[0]);
            rgba.push(color[1]);
            rgba.push(color[2]);
            rgba.push(color[3]);
            col += 1;
        }
        row += 1;
    }
    rgba
}

} // verus!
