use purremu_gb_core::hello_world_rom::{build_rom, ENTRY_POINT, PROGRAM_START, ROM_SIZE};
use purremu_gb_core::{Event, GameBoy, Joypad};

#[test]
fn builds_a_32_kib_emulator_only_rom_without_an_official_logo() {
    let rom = build_rom();

    assert_eq!(rom.len(), ROM_SIZE);
    assert_eq!(rom[ENTRY_POINT], 0xc3);
    assert_eq!(
        u16::from_le_bytes([rom[ENTRY_POINT + 1], rom[ENTRY_POINT + 2]]),
        PROGRAM_START as u16
    );
    assert!(rom[0x0104..0x0134].iter().all(|byte| *byte == 0));
}

#[test]
fn prints_hello_world_over_the_serial_device() {
    let mut gameboy = GameBoy::new_post_boot(build_rom());
    let joypad = Joypad::new();
    let mut output = Vec::new();

    for _ in 0..300_000 {
        for event in gameboy.step(&joypad) {
            if let Event::SerialByte(byte) = event {
                output.push(byte);
            }
        }

        if output.ends_with(b"Hello, World!\n") {
            break;
        }
    }

    assert_eq!(output, b"Hello, World!\n");
}

#[test]
fn the_rom_carries_the_serial_text_after_the_program() {
    let rom = build_rom();
    assert_eq!(&rom[0x232..0x241], b"Hello, World!\n\0");
}
