use purremu_gb_core::cpu::instructions::CpuCbInstruction;
use purremu_gb_core::cpu::registers::{join, CpuFlagsReg, CpuRegisters};
use purremu_gb_core::cpu::{Cpu, CpuArithmetic, CpuInstruction, CpuLogic, CpuPhase, CpuReg16, CpuReg8};
use purremu_gb_core::joypad::Joypad;
use purremu_gb_core::memory_bus::{pending_interrupts, Interrupt, InterruptType, MemoryBus};
use purremu_gb_core::ppu::lcd::{LcdControl, LcdStatus};
use purremu_gb_core::ppu::sprite::{sort_sprites_in_place, sprites_at_x, Sprite, SpriteAttributes};
use purremu_gb_core::ppu::{reverse_bits, select_pixel, Ppu, PpuEvent, PpuMode};
use purremu_gb_core::serial::Serial;

const ALL_R8: [CpuReg8; 7] = [
    CpuReg8::A,
    CpuReg8::B,
    CpuReg8::C,
    CpuReg8::D,
    CpuReg8::E,
    CpuReg8::H,
    CpuReg8::L,
];

fn sample_bytes() -> Vec<u8> {
    vec![0x00, 0x01, 0x0F, 0x10, 0x7F, 0x80, 0xAA, 0xF0, 0xFE, 0xFF]
}

#[test]
fn adding_then_subtracting_gives_the_first_operand_back() {
    for a in sample_bytes() {
        for b in sample_bytes() {
            for carry in [false, true] {
                let (sum, _) = a.cpu_add(b, carry);
                let (back, _) = sum.cpu_sub(b, carry);
                assert_eq!(back, a, "a={a:#04x} b={b:#04x} carry={carry}");
            }
        }
    }
    for (a, b) in [(0x1234u16, 0xFEDCu16), (0xFFFF, 1), (0, 0xFFFF)] {
        let (sum, _) = a.cpu_add(b, false);
        assert_eq!(sum.cpu_sub(b, false).0, a);
    }
}

#[test]
fn addition_commutes_with_the_same_flags() {
    for a in sample_bytes() {
        for b in sample_bytes() {
            assert_eq!(a.cpu_add(b, true), b.cpu_add(a, true));
        }
    }
}

#[test]
fn subtraction_sets_zero_on_equal_operands_and_carry_on_a_smaller_minuend() {
    let (_, equal) = 0x42u8.cpu_sub(0x42, false);
    assert!(equal.zero && !equal.carry && equal.subtract);
    let (result, smaller) = 0x10u8.cpu_sub(0x20, false);
    assert_eq!(result, 0xF0);
    assert!(smaller.carry && !smaller.zero);
}

#[test]
fn sixteen_bit_addition_wraps_and_carries_from_bit_15() {
    let (result, flags) = 0xFFFFu16.cpu_add(1, false);
    assert_eq!(result, 0);
    assert!(flags.carry);
    assert!(flags.half_carry);
    let (result, flags) = 0x0FFFu16.cpu_add(1, false);
    assert_eq!(result, 0x1000);
    assert!(flags.half_carry);
    assert!(!flags.carry);
}

#[test]
fn increment_and_decrement_wrap_around() {
    assert_eq!(0xFFu8.cpu_inc().0, 0x00);
    assert!(0xFFu8.cpu_inc().1.zero);
    assert_eq!(0x00u8.cpu_dec().0, 0xFF);
    assert_eq!(0xFFFFu16.cpu_inc().0, 0);
    assert_eq!(0u16.cpu_dec().0, 0xFFFF);
}

#[test]
fn logic_operations_set_the_documented_flags() {
    let (result, flags) = 0xF0u8.cpu_and(0x0F);
    assert_eq!(result, 0);
    assert!(flags.zero && flags.half_carry && !flags.carry && !flags.subtract);
    let (result, flags) = 0xF0u8.cpu_or(0x0F);
    assert_eq!(result, 0xFF);
    assert!(!flags.zero && !flags.half_carry && !flags.carry);
    let (result, flags) = 0xAAu8.cpu_xor(0xAA);
    assert_eq!(result, 0);
    assert!(flags.zero && !flags.half_carry);
}

#[test]
fn the_flags_register_keeps_only_its_upper_nibble() {
    for value in sample_bytes() {
        assert_eq!(CpuFlagsReg::from_byte(value).to_byte(), value & 0xF0);
    }
    let flags = CpuFlagsReg { zero: true, subtract: false, half_carry: true, carry: false };
    assert_eq!(flags.to_byte(), 0xA0);
    assert_eq!(CpuFlagsReg::from_byte(flags.to_byte()), flags);
}

#[test]
fn a_register_reads_back_what_was_written() {
    let mut registers = CpuRegisters::new();
    for register in ALL_R8 {
        registers.set_r8(register, 0x5A);
        assert_eq!(registers.get_r8(register), 0x5A);
    }
    for register in [CpuReg16::BC, CpuReg16::DE, CpuReg16::HL] {
        registers.set_r16(register, 0xBEEF);
        assert_eq!(registers.get_r16(register), 0xBEEF);
    }
    registers.set_r16(CpuReg16::AF, 0x12FF);
    assert_eq!(registers.get_r16(CpuReg16::AF), 0x12F0);
    registers.set_r16_low(CpuReg16::BC, 0x34);
    registers.set_r16_high(CpuReg16::BC, 0x12);
    assert_eq!(registers.get_r16(CpuReg16::BC), 0x1234);
    assert_eq!(join(0x12, 0x34), 0x1234);
}

#[test]
fn the_post_boot_state_matches_the_dmg_boot_rom() {
    let cpu = Cpu::new_post_boot();
    assert_eq!(cpu.registers.pc, 0x0100);
    assert_eq!(cpu.registers.sp, 0xFFFE);
    assert_eq!(cpu.registers.get_r16(CpuReg16::AF), 0x01B0);
    assert_eq!(cpu.registers.get_r16(CpuReg16::BC), 0x0013);
    assert_eq!(cpu.registers.get_r16(CpuReg16::DE), 0x00D8);
    assert_eq!(cpu.registers.get_r16(CpuReg16::HL), 0x014D);
    assert_eq!(cpu.phase, CpuPhase::FetchOpcode);
    let fresh = Cpu::new();
    assert_eq!(fresh.registers.pc, 0);
    assert_eq!(fresh.registers.sp, 0);
}

#[test]
fn opcodes_decode_through_the_instruction_table() {
    let cpu = Cpu::new();
    assert_eq!(cpu.decode_instruction(0x00), CpuInstruction::Nop);
    assert_eq!(cpu.decode_instruction(0xC3), CpuInstruction::JpA16);
    assert_eq!(cpu.decode_instruction(0xCD), CpuInstruction::CallA16);
    assert_eq!(cpu.decode_instruction(0xE9), CpuInstruction::JpHl);
    assert_eq!(cpu.encode_instruction(CpuInstruction::JpHl), 0xE9);
    assert_eq!(cpu.encode_instruction(CpuInstruction::Nop), 0x00);
    assert_eq!(cpu.encode_instruction(CpuInstruction::Rst(0x38)), 0xFF);
    for opcode in [0x00u8, 0x06, 0x3E, 0x80, 0xC3, 0xCD, 0xE0, 0xFE] {
        let instruction = cpu.decode_instruction(opcode);
        assert_eq!(cpu.decode_instruction(cpu.encode_instruction(instruction)), instruction);
    }
}

#[test]
fn cb_opcodes_split_into_operation_bit_and_operand() {
    let decoded = CpuCbInstruction::decode(0x7C);
    let again = CpuCbInstruction::decode(0x7C);
    assert_eq!(decoded, again);
    assert_ne!(CpuCbInstruction::decode(0x7C), CpuCbInstruction::decode(0x7D));
}

#[test]
fn interrupt_registers_keep_five_bits() {
    for value in sample_bytes() {
        assert_eq!(Interrupt::from_byte(value).to_byte(), value & 0x1F);
    }
}

#[test]
fn pending_interrupts_come_in_priority_order() {
    assert_eq!(
        pending_interrupts(0x1F),
        vec![
            InterruptType::VBlank,
            InterruptType::LCD,
            InterruptType::Timer,
            InterruptType::Serial,
            InterruptType::Joypad
        ]
    );
    assert_eq!(pending_interrupts(0x12), vec![InterruptType::LCD, InterruptType::Joypad]);
    assert!(pending_interrupts(0xE0).is_empty());
    assert_eq!(InterruptType::VBlank.handler_address(), 0x40);
    assert_eq!(InterruptType::Joypad.handler_address(), 0x60);
}

#[test]
fn requesting_an_interrupt_sets_its_flag_and_clearing_removes_it() {
    let mut bus = MemoryBus::new(vec![0; 0x8000]);
    bus.request_interrupt(InterruptType::Timer);
    assert_eq!(bus.read8(0xFF0F), 0x04);
    bus.request_interrupt(InterruptType::VBlank);
    assert_eq!(bus.read8(0xFF0F), 0x05);
    bus.clear_interrupt_flag(InterruptType::Timer);
    assert_eq!(bus.read8(0xFF0F), 0x01);
    bus.write8(0xFFFF, 0xFF);
    assert_eq!(bus.read8(0xFFFF), 0x1F);
}

#[test]
fn work_ram_reads_back_writes_and_mirrors_them_in_echo_ram() {
    let mut bus = MemoryBus::new(vec![0; 0x8000]);
    bus.write8(0xC123, 0x77);
    assert_eq!(bus.read8(0xC123), 0x77);
    assert_eq!(bus.read8(0xE123), 0x77);
    bus.write8(0xE200, 0x66);
    assert_eq!(bus.read8(0xC200), 0x66);
    assert_eq!(bus.read8(0xC124), 0x00);
}

#[test]
fn high_ram_reads_back_writes() {
    let mut bus = MemoryBus::new(vec![0; 0x8000]);
    bus.write8(0xFF80, 1);
    bus.write8(0xFFFE, 2);
    assert_eq!(bus.read8(0xFF80), 1);
    assert_eq!(bus.read8(0xFFFE), 2);
    assert_eq!(bus.read8(0xFF81), 0);
}

#[test]
fn the_cartridge_area_reads_the_rom() {
    let mut rom = vec![0; 0x8000];
    rom[0x1234] = 0xAB;
    rom[0x7FFF] = 0xCD;
    let bus = MemoryBus::new(rom);
    assert_eq!(bus.read8(0x1234), 0xAB);
    assert_eq!(bus.read8(0x7FFF), 0xCD);
}

#[test]
fn serial_and_lcd_registers_read_back() {
    let mut bus = MemoryBus::new(vec![0; 0x8000]);
    bus.write8(0xFF01, 0x48);
    assert_eq!(bus.read8(0xFF01), 0x48);
    bus.write8(0xFF40, 0x91);
    assert_eq!(bus.read8(0xFF40), 0x91);
    bus.write8(0xFF40, 0x00);
    bus.write8(0x8000, 0x3C);
    assert_eq!(bus.read8(0x8000), 0x3C);
    bus.write8(0x9800, 0x07);
    assert_eq!(bus.read8(0x9800), 0x07);
}

#[test]
fn the_serial_port_sends_the_written_byte_after_4096_cycles() {
    let mut serial = Serial::new();
    serial.data = 0x48;
    serial.control = 0x81;
    for cycle in 0..4095 {
        assert_eq!(serial.step(), None, "cycle {cycle}");
    }
    assert_eq!(serial.step(), Some(0x48));
    assert_eq!(serial, Serial::new());
}

#[test]
fn a_stopped_serial_port_sends_nothing() {
    let mut serial = Serial::new();
    serial.data = 0x48;
    serial.control = 0x80;
    for _ in 0..5000 {
        assert_eq!(serial.step(), None);
    }
}

#[test]
fn the_joypad_reads_pressed_buttons_as_zero_bits() {
    let mut joypad = Joypad::new();
    assert_eq!(joypad.get_by_cpu(), 0xFF);
    joypad.a = true;
    joypad.up = true;
    joypad.set_by_cpu(0x10);
    assert_eq!(joypad.get_by_cpu() & 0x0F, 0x0E);
    joypad.set_by_cpu(0x20);
    assert_eq!(joypad.get_by_cpu() & 0x0F, 0x0B);
    joypad.set_by_cpu(0x30);
    assert_eq!(joypad.get_by_cpu() & 0x0F, 0x0F);
    assert_eq!(joypad.get_by_cpu() & 0xF0, 0xF0);
}

#[test]
fn lcd_control_round_trips_and_status_keeps_its_select_bits() {
    for value in sample_bytes() {
        assert_eq!(LcdControl::from_byte(value).to_byte(), value);
        assert_eq!(LcdStatus::from_byte(value).to_byte(), value & 0x78);
        assert_eq!(SpriteAttributes::from_byte(value).to_byte(), value);
    }
}

#[test]
fn sprites_sort_by_x_then_tile_and_filter_by_x() {
    let attributes = SpriteAttributes::from_byte(0);
    let sprite = |x: u8, tile_index: u8| Sprite { y: 16, x, tile_index, attributes };
    let mut sprites = vec![sprite(20, 3), sprite(10, 5), sprite(20, 1), sprite(10, 2)];
    sort_sprites_in_place(&mut sprites);
    assert_eq!(sprites, vec![sprite(10, 2), sprite(10, 5), sprite(20, 1), sprite(20, 3)]);
    assert_eq!(sprites_at_x(&sprites, 20), vec![sprite(20, 1), sprite(20, 3)]);
    assert!(sprites_at_x(&sprites, 30).is_empty());
    assert_eq!(Sprite::from_bytes([16, 8, 1, 0x20]), Sprite {
        y: 16,
        x: 8,
        tile_index: 1,
        attributes: SpriteAttributes::from_byte(0x20)
    });
}

#[test]
fn bit_reversal_flips_a_tile_row() {
    assert_eq!(reverse_bits(0b1000_0000), 0b0000_0001);
    assert_eq!(reverse_bits(0b1100_1010), 0b0101_0011);
    for value in sample_bytes() {
        assert_eq!(reverse_bits(reverse_bits(value)), value);
    }
}

#[test]
fn an_opaque_object_pixel_wins_over_the_background() {
    assert_eq!(select_pixel(Some(1), Some(2), 0), (Some(2), 0));
    assert_eq!(select_pixel(Some(1), Some(0), 0).0, Some(1));
    assert_eq!(select_pixel(None, None, 0).0, None);
}

#[test]
fn jr_wraps_the_program_counter_backwards_past_zero() {
    let mut bus = MemoryBus::new(vec![0; 0x8000]);
    let mut cpu = Cpu::new();
    bus.rom[0] = cpu.encode_instruction(CpuInstruction::JrE8);
    bus.rom[1] = (-4i8) as u8;
    for _ in 0..12 {
        cpu.step(&mut bus);
    }
    assert_eq!(cpu.registers.pc, 0xFFFE);
    assert_eq!(cpu.phase, CpuPhase::FetchOpcode);
}

#[test]
fn call_then_ret_returns_after_the_call() {
    let mut bus = MemoryBus::new(vec![0; 0x8000]);
    let mut cpu = Cpu::new_post_boot();
    bus.rom[0x0100] = cpu.encode_instruction(CpuInstruction::CallA16);
    bus.rom[0x0101] = 0x00;
    bus.rom[0x0102] = 0x20;
    bus.rom[0x2000] = 0xC9; // RET
    for _ in 0..(6 * 4) {
        cpu.step(&mut bus);
    }
    assert_eq!(cpu.registers.pc, 0x2000);
    assert_eq!(cpu.registers.sp, 0xFFFC);
    for _ in 0..(4 * 4) {
        cpu.step(&mut bus);
    }
    assert_eq!(cpu.registers.pc, 0x0103);
    assert_eq!(cpu.registers.sp, 0xFFFE);
    assert_eq!(cpu.phase, CpuPhase::FetchOpcode);
}

#[test]
fn push_moves_the_stack_pointer_down_by_two_and_pop_restores_the_pair() {
    let mut bus = MemoryBus::new(vec![0; 0x8000]);
    let mut cpu = Cpu::new_post_boot();
    cpu.registers.set_r16(CpuReg16::BC, 0x1234);
    bus.rom[0x0100] = cpu.encode_instruction(CpuInstruction::PushR16(CpuReg16::BC));
    bus.rom[0x0101] = cpu.encode_instruction(CpuInstruction::PopR16(CpuReg16::DE));
    for _ in 0..16 {
        cpu.step(&mut bus);
    }
    assert_eq!(cpu.registers.sp, 0xFFFC);
    assert_eq!(bus.read8(0xFFFD), 0x12);
    assert_eq!(bus.read8(0xFFFC), 0x34);
    for _ in 0..12 {
        cpu.step(&mut bus);
    }
    assert_eq!(cpu.registers.sp, 0xFFFE);
    assert_eq!(cpu.registers.get_r16(CpuReg16::DE), 0x1234);
    assert_eq!(cpu.registers.pc, 0x0102);
}

#[test]
fn add_and_sub_with_an_immediate_ignore_the_carry_flag() {
    let mut bus = MemoryBus::new(vec![0; 0x8000]);
    let mut cpu = Cpu::new_post_boot();
    cpu.registers.f.carry = true;
    cpu.registers.a = 0x10;
    bus.rom[0x0100] = 0xC6; // ADD A, 0x20
    bus.rom[0x0101] = 0x20;
    bus.rom[0x0102] = 0xD6; // SUB A, 0x40
    bus.rom[0x0103] = 0x40;
    for _ in 0..8 {
        cpu.step(&mut bus);
    }
    assert_eq!(cpu.registers.a, 0x30);
    assert!(!cpu.registers.f.carry);
    cpu.registers.f.carry = true;
    for _ in 0..8 {
        cpu.step(&mut bus);
    }
    assert_eq!(cpu.registers.a, 0xF0);
    assert!(cpu.registers.f.carry && cpu.registers.f.subtract);
}

#[test]
fn sixteen_bit_operations_keep_the_zero_flag() {
    for zero in [false, true] {
        let mut bus = MemoryBus::new(vec![0; 0x8000]);
        let mut cpu = Cpu::new();
        cpu.registers.f.zero = zero;
        cpu.registers.set_r16(CpuReg16::HL, 0xFFFF);
        cpu.registers.set_r16(CpuReg16::BC, 0x0001);
        bus.rom[0] = cpu.encode_instruction(CpuInstruction::AddHlR16(CpuReg16::BC));
        bus.rom[1] = cpu.encode_instruction(CpuInstruction::IncR16(CpuReg16::DE));
        bus.rom[2] = cpu.encode_instruction(CpuInstruction::DecR16(CpuReg16::DE));
        for _ in 0..8 {
            cpu.step(&mut bus);
        }
        assert_eq!(cpu.registers.get_r16(CpuReg16::HL), 0);
        assert!(cpu.registers.f.carry);
        assert_eq!(cpu.registers.f.zero, zero);
        for _ in 0..16 {
            cpu.step(&mut bus);
        }
        assert_eq!(cpu.registers.get_r16(CpuReg16::DE), 0);
        assert_eq!(cpu.registers.f.zero, zero);
    }
}

#[test]
fn an_unsupported_opcode_stops_the_game_boy_before_it_steps() {
    let mut rom = vec![0; 0x8000];
    rom[0x0100] = 0x76; // HALT
    let joypad = Joypad::new();
    let mut gameboy = purremu_gb_core::GameBoy::new_post_boot(rom);
    for _ in 0..3 {
        assert!(gameboy.can_step(&joypad));
        gameboy.step(&joypad);
    }
    assert!(!gameboy.can_step(&joypad));
    let gameboy = purremu_gb_core::GameBoy::new_post_boot(vec![0; 0x8000]);
    assert!(gameboy.can_step(&Joypad::new()));
}

#[test]
fn a_short_rom_runs_until_the_program_counter_leaves_it() {
    let joypad = Joypad::new();
    let mut gameboy = purremu_gb_core::GameBoy::new_post_boot(vec![0; 0x0104]);
    let mut steps = 0;
    while gameboy.can_step(&joypad) {
        gameboy.step(&joypad);
        steps += 1;
        assert!(steps < 100);
    }
    assert_eq!(gameboy.cpu.registers.pc, 0x0104);
    assert_eq!(steps, 4 * 4 + 3);
}

#[test]
fn a_load_from_past_the_end_of_the_rom_stops_the_machine() {
    let joypad = Joypad::new();
    let mut rom = vec![0; 0x0200];
    rom[0x0100] = 0xFA; // LD A, (a16)
    rom[0x0101] = 0x00;
    rom[0x0102] = 0x40; // 0x4000, past the end of the ROM
    let mut gameboy = purremu_gb_core::GameBoy::new_post_boot(rom);
    let mut steps = 0;
    while gameboy.can_step(&joypad) {
        gameboy.step(&joypad);
        steps += 1;
    }
    assert_eq!(steps, 3 * 4 + 3);
    assert_eq!(gameboy.cpu.phase, CpuPhase::FetchA16Mem(CpuInstruction::LdAAddr, 0x4000));
}

#[test]
fn register_types_convert_from_and_into_bytes() {
    assert_eq!(u8::from(&CpuFlagsReg::from(0xFF)), 0xF0);
    assert_eq!(u8::from(&LcdControl::from(0x91)), 0x91);
    assert_eq!(u8::from(&LcdStatus::from(0xFF)), 0x78);
    assert_eq!(u8::from(&SpriteAttributes::from(0xA5)), 0xA5);
    assert_eq!(u8::from(Interrupt::from(0xFF)), 0x1F);
    assert_eq!(u16::from(InterruptType::Timer), 0x50);
    assert_eq!(u16::from(InterruptType::Serial), 0x58);
    assert_eq!(Sprite::from([20, 30, 4, 0x80]), Sprite::from_bytes([20, 30, 4, 0x80]));
    assert_eq!(Sprite::from([20, 30, 4, 0x80]).x, 30);
}

#[test]
fn every_legal_opcode_is_the_only_one_of_its_instruction() {
    let cpu = Cpu::new();
    let mut legal = 0;
    for opcode in 0..=255u8 {
        let instruction = cpu.decode_instruction(opcode);
        if instruction != CpuInstruction::Illegal {
            legal += 1;
            assert_eq!(cpu.encode_instruction(instruction), opcode);
        }
    }
    assert_eq!(legal, 245);
    assert_eq!(cpu.encode_instruction(CpuInstruction::Illegal), 0xD3);
}

#[test]
fn the_ppu_keeps_its_dot_counter_within_a_line_and_finishes_frames() {
    let mut ppu = Ppu::new();
    ppu.write_lcd_control_by_cpu(0x91);
    let mut frames = 0;
    let mut longest_transfer = 0u16;
    for _ in 0..(2 * 70224) {
        let events = ppu.step();
        for event in events.iter() {
            if let PpuEvent::FrameReady(_) = event {
                frames += 1;
            }
        }
        assert!(ppu.col < 456);
        assert!(ppu.row < 154);
        if ppu.mode == PpuMode::PixelTransfer {
            assert_eq!(ppu.col, 80 + ppu.screen_x as u16);
            longest_transfer = longest_transfer.max(ppu.col);
        } else {
            assert_eq!(ppu.screen_x, 0);
        }
    }
    assert_eq!(frames, 2);
    assert_eq!(longest_transfer, 239);
}

#[test]
fn the_ppu_does_nothing_while_the_lcd_is_off() {
    let mut ppu = Ppu::new();
    ppu.col = 455;
    let events = ppu.step();
    assert!(events.is_empty());
    assert_eq!(ppu.col, 455);
    assert_eq!(ppu.row, 0);
}
