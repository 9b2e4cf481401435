# purremu-gb-core

A Game Boy (DMG) emulator core written in Verus: every function of the library carries
a `requires`/`ensures` contract over a mathematical model of the machine, and Verus
proves the code against it.

## Layout

- `src/cpu/` — the SM83 CPU. `registers.rs` (register file and flags),
  `cpu_arithmetic.rs` (8- and 16-bit ALU with flags), `instructions.rs` (the opcode map
  as a spec function and the table built from it), `semantics.rs` (the model: what one
  machine cycle does in each phase), `execute.rs` (the executable CPU, proved equal to
  the model T-cycle by T-cycle), `calls.rs` (what a `CALL` pushes, a `RET` pops) and
  `stack.rs` (a `PUSH` followed by a `POP` of the same pair).
- `src/memory_bus.rs` — the address map: ROM, work RAM and its echo, high RAM, the
  serial, joypad, interrupt and LCD registers; read-after-write laws.
- `src/ppu/` — the picture processing unit: LCD registers, objects and their drawing
  order, the model of a dot and the bounds it keeps (`model.rs`), the pixel pipeline
  (`pipeline.rs`) and the
  proof that every pixel it queues or draws is a colour id from 0 to 3 (`colors.rs`).
- `src/serial.rs`, `src/joypad.rs` — the serial port and P1.
- `src/gameboy.rs` — the whole machine, one T-cycle at a time, with its events.
- `src/frontend.rs` — what the front ends share: key layout, frame loop, frame colours
  and frame pacing.
- `src/hello_world_rom.rs` — a small assembler and the hello-world test ROM.
- `app/` — the terminal and window front ends (not verified).
- `tests/` — executable tests of the library.
