use purremu_gb_core::frontend::{
    button_for_key, frame_to_rgba, last_frame, palette_color, serial_bytes, Button,
    T_CYCLES_PER_FRAME,
};
use purremu_gb_core::hello_world_rom::build_rom;
use purremu_gb_core::ppu::Framebuffer;
use purremu_gb_core::{Event, GameBoy, Joypad};

#[test]
fn the_keyboard_layout_maps_wasd_jk_and_ui() {
    assert_eq!(button_for_key('w'), Some(Button::Up));
    assert_eq!(button_for_key('a'), Some(Button::Left));
    assert_eq!(button_for_key('s'), Some(Button::Down));
    assert_eq!(button_for_key('d'), Some(Button::Right));
    assert_eq!(button_for_key('j'), Some(Button::A));
    assert_eq!(button_for_key('k'), Some(Button::B));
    assert_eq!(button_for_key('u'), Some(Button::Select));
    assert_eq!(button_for_key('i'), Some(Button::Start));
    assert_eq!(button_for_key('x'), None);
    assert_eq!(button_for_key('W'), None);
}

#[test]
fn setting_a_button_changes_that_button_only() {
    let mut joypad = Joypad::new();
    joypad.set_button(Button::Start, true);
    assert!(joypad.start);
    let mut expected = Joypad::new();
    expected.start = true;
    assert_eq!(joypad, expected);
    joypad.set_button(Button::Start, false);
    assert_eq!(joypad, Joypad::new());
}

#[test]
fn a_frame_runs_70224_cycles_on_a_program_of_nops() {
    let mut gameboy = GameBoy::new_post_boot(vec![0; 0x8000]);
    let (events, cycles) = gameboy.emulate_frame(&Joypad::new());
    assert_eq!(cycles, T_CYCLES_PER_FRAME);
    // The serial port runs from power-on (SC bit 0 set) and sends SB, which stays 0,
    // every 4096 cycles.
    assert_eq!(serial_bytes(&events), vec![0u8; 17]);
}

#[test]
fn a_frame_stops_early_at_an_unsupported_instruction() {
    let mut rom = vec![0; 0x8000];
    rom[0x0110] = 0x76; // HALT
    let mut gameboy = GameBoy::new_post_boot(rom);
    let (_, cycles) = gameboy.emulate_frame(&Joypad::new());
    assert_eq!(cycles, 16 * 4 + 3);
    assert_eq!(gameboy.cpu.registers.pc, 0x0110);
    assert!(!gameboy.can_step(&Joypad::new()));
}

#[test]
fn the_hello_world_rom_prints_within_a_few_frames() {
    let mut gameboy = GameBoy::new_post_boot(build_rom());
    let joypad = Joypad::new();
    let mut output = Vec::new();
    let (events, cycles) = gameboy.emulate_frame(&joypad);
    assert_eq!(cycles, T_CYCLES_PER_FRAME);
    output.extend(serial_bytes(&events));
    let (events, cycles) = gameboy.emulate_frame(&joypad);
    assert_eq!(cycles, T_CYCLES_PER_FRAME);
    output.extend(serial_bytes(&events));
    assert!(output.starts_with(b"Hello, World!\n"), "{output:?}");
}

#[test]
fn the_hello_world_rom_shows_its_text_on_screen() {
    let mut gameboy = GameBoy::new_post_boot(build_rom());
    let joypad = Joypad::new();
    let mut frames = Vec::new();
    for _ in 0..8 {
        let (events, cycles) = gameboy.emulate_frame(&joypad);
        assert_eq!(cycles, T_CYCLES_PER_FRAME);
        assert!(gameboy.memory_bus.ppu.col < 456);
        if let Some(frame) = last_frame(&events) {
            frames.push(frame);
        }
    }
    let frame = frames.last().expect("the PPU finished no frame");
    // HELLO WORLD sits in map row 8 from column 4: pixel rows 64 to 71, columns 32 to 119.
    let glyphs: [[u8; 8]; 7] = [
        [0x42, 0x42, 0x42, 0x7e, 0x42, 0x42, 0x42, 0x00],
        [0x7e, 0x40, 0x40, 0x7c, 0x40, 0x40, 0x7e, 0x00],
        [0x40, 0x40, 0x40, 0x40, 0x40, 0x40, 0x7e, 0x00],
        [0x3c, 0x42, 0x42, 0x42, 0x42, 0x42, 0x3c, 0x00],
        [0x42, 0x42, 0x42, 0x42, 0x5a, 0x66, 0x42, 0x00],
        [0x7c, 0x42, 0x42, 0x7c, 0x48, 0x44, 0x42, 0x00],
        [0x78, 0x44, 0x42, 0x42, 0x42, 0x44, 0x78, 0x00],
    ];
    let text = [1usize, 2, 3, 3, 4, 0, 5, 4, 6, 3, 7];
    for row in 0..8 {
        for (i, &tile) in text.iter().enumerate() {
            for bit in 0..8 {
                let lit = tile != 0 && glyphs[tile - 1][row] & (0x80 >> bit) != 0;
                let expected = if lit { 3 } else { 0 };
                assert_eq!(frame.0[64 + row][32 + 8 * i + bit], expected, "row {row} tile {i} bit {bit}");
            }
        }
    }
    assert!(frame.0[0].iter().all(|&color| color == 0));
}

#[test]
fn serial_bytes_and_the_last_frame_are_picked_from_the_events() {
    let mut first = Framebuffer::new();
    first.set_pixel(0, 0, 3);
    let second = Framebuffer::new();
    let events = vec![
        Event::SerialByte(b'O'),
        Event::FrameReady(first),
        Event::SerialByte(b'K'),
        Event::FrameReady(second),
        Event::SerialByte(b'!'),
    ];
    assert_eq!(serial_bytes(&events), b"OK!");
    assert_eq!(last_frame(&events).unwrap().0[0][0], 0);
    assert!(last_frame(&events[..1].to_vec()).is_none());
}

#[test]
fn frames_turn_into_rgba_with_the_green_palette() {
    let mut framebuffer = Framebuffer::new();
    framebuffer.set_pixel(0, 1, 3);
    framebuffer.set_pixel(143, 159, 2);
    let rgba = frame_to_rgba(&framebuffer);
    assert_eq!(rgba.len(), 144 * 160 * 4);
    assert_eq!(&rgba[0..4], &palette_color(0));
    assert_eq!(&rgba[4..8], &[0x08, 0x18, 0x20, 0xff]);
    assert_eq!(&rgba[rgba.len() - 4..], &[0x34, 0x68, 0x56, 0xff]);
    assert_eq!(palette_color(1), [0x88, 0xc0, 0x70, 0xff]);
}
