//! A Game Boy emulator core: the SM83 CPU, the memory bus, the picture
//! processing unit, the serial port and the joypad, with their behaviour
//! stated as Verus contracts.

pub mod cpu;
pub mod ppu;
pub mod memory_bus;
pub mod joypad;
pub mod serial;
pub mod gameboy;
pub mod frontend;
pub mod hello_world_rom;

pub use crate::gameboy::{Event, GameBoy};
pub use crate::joypad::Joypad;
