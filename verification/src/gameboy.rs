//! The whole machine: one step advances the serial port, the CPU and the PPU by a T-cycle.
use vstd::prelude::*;

use crate::cpu::execute::{is_supported, lemma_machine_cycle_bus};
use crate::cpu::instructions::decode;
use crate::cpu::{Cpu, CpuPhase};
use crate::joypad::Joypad;
use crate::memory_bus::{
    InterruptType, Interrupt, MemoryBus, MemoryBusView, lemma_read8_frame, lemma_read8_ports,
    lemma_write8_keeps_colors,
};
use crate::ppu::colors::{
    event_frames_valid, frame_colors_valid, lemma_initial_ppu_colors, lemma_ppu_step_colors,
    ppu_colors_valid,
};
use crate::ppu::{Framebuffer, PpuEvent};
use crate::serial::lemma_serial_step_inv;

verus! {

/// What a step reports: a byte sent over the serial port, or a finished frame.
#[derive(Clone, Copy, Debug)]
pub enum Event {
    SerialByte(u8),
    FrameReady(Framebuffer),
}

/// The machine: a CPU and the bus with every device on it.
pub struct GameBoy {
    pub cpu: Cpu,
    pub memory_bus: MemoryBus,
}

/// The mathematical state of the machine.
pub struct GameBoyView {
    pub cpu: Cpu,
    pub bus: MemoryBusView,
}

impl View for GameBoy {
    type V = GameBoyView;

    open spec fn view(&self) -> GameBoyView {
        GameBoyView { cpu: self.cpu, bus: self.memory_bus@ }
    }
}

/// The bus with the eight buttons taken from the host's joypad.
pub open spec fn bus_with_input(bus: MemoryBusView, joypad: Joypad) -> MemoryBusView {
    MemoryBusView {
        joypad: Joypad {
            select_buttons: bus.joypad.select_buttons,
            select_d_pad: bus.joypad.select_d_pad,
            ..joypad
        },
        ..bus
    }
}

/// The bus that the CPU sees in a step: the buttons read, then the serial port stepped.
pub open spec fn bus_before_cpu(bus: MemoryBusView, joypad: Joypad) -> MemoryBusView {
    let with_input = bus_with_input(bus, joypad);
    MemoryBusView { serial: with_input.serial.spec_step().0, ..with_input }
}

/// IF after the PPU's interrupt requests, in order.
pub open spec fn raise_interrupts(flags: Interrupt, events: Seq<PpuEvent>) -> Interrupt
    decreases events.len(),
{
    if events.len() == 0 {
        flags
    } else {
        let before = raise_interrupts(flags, events.drop_last());
        match events.last() {
            PpuEvent::InterruptRequested(interrupt) => before.spec_with(interrupt, true),
            PpuEvent::FrameReady(_) => before,
        }
    }
}

/// The finished frames among the PPU's events, in order.
pub open spec fn frame_events(events: Seq<PpuEvent>) -> Seq<Event>
    decreases events.len(),
{
    if events.len() == 0 {
        Seq::empty()
    } else {
        let before = frame_events(events.drop_last());
        match events.last() {
            PpuEvent::FrameReady(frame) => before.push(Event::FrameReady(frame)),
            PpuEvent::InterruptRequested(_) => before,
        }
    }
}

/// What a PPU step does to IF: the bit of every interrupt that the step requests is set,
/// and every other bit keeps its value.
pub proof fn lemma_raise_interrupts(flags: Interrupt, events: Seq<PpuEvent>)
    ensures
        ({
            let raised = raise_interrupts(flags, events);
            &&& raised.v_blank == (flags.v_blank || events.contains(
                PpuEvent::InterruptRequested(InterruptType::VBlank),
            ))
            &&& raised.lcd == (flags.lcd || events.contains(
                PpuEvent::InterruptRequested(InterruptType::LCD),
            ))
            &&& raised.timer == (flags.timer || events.contains(
                PpuEvent::InterruptRequested(InterruptType::Timer),
            ))
            &&& raised.serial == (flags.serial || events.contains(
                PpuEvent::InterruptRequested(InterruptType::Serial),
            ))
            &&& raised.joypad == (flags.joypad || events.contains(
                PpuEvent::InterruptRequested(InterruptType::Joypad),
            ))
        }),
    decreases events.len(),
{
    if events.len() > 0 {
        let rest = events.drop_last();
        lemma_raise_interrupts(flags, rest);
        assert(events =~= rest.push(events.last()));
        assert forall|e: PpuEvent| events.contains(e) <==> (rest.contains(e) || e == events.last()) by {
            if events.contains(e) {
                let k = choose|k: int| 0 <= k < events.len() && events[k] == e;
                if k < events.len() - 1 {
                    assert(rest[k] == e);
                }
            }
            if rest.contains(e) {
                let k = choose|k: int| 0 <= k < rest.len() && rest[k] == e;
                assert(events[k] == e);
            }
            if e == events.last() {
                assert(events[events.len() - 1] == e);
            }
        }
    }
}

impl GameBoyView {
    /// The bounds that the machine keeps between steps, and colour ids (0 to 3) on the
    /// screen and in the PPU's FIFOs.
    pub open spec fn inv(self) -> bool {
        &&& self.cpu.wf()
        &&& self.bus.inv()
        &&& ppu_colors_valid(self.bus.ppu)
    }

    /// The inputs on which a step runs: the CPU can take its T-cycle.
    pub open spec fn can_step(self, joypad: Joypad) -> bool {
        &&& self.inv()
        &&& self.cpu.can_step(bus_before_cpu(self.bus, joypad))
    }

    /// One T-cycle of the machine: the buttons are read, the serial port steps (a byte
    /// it finishes is reported first), the CPU steps, the PPU steps, its interrupt
    /// requests are raised in IF and its finished frames are reported. (Opaque, so that
    /// reasoning about many cycles does not unfold each one; `reveal` opens it.)
    #[verifier::opaque]
    pub open spec fn step(self, joypad: Joypad) -> (GameBoyView, Seq<Event>) {
        let before_cpu = bus_before_cpu(self.bus, joypad);
        let sent = bus_with_input(self.bus, joypad).serial.spec_step().1;
        let (cpu, after_cpu) = self.cpu.spec_step(before_cpu);
        let (ppu, ppu_events) = after_cpu.ppu.step();
        let bus = MemoryBusView {
            ppu,
            interrupt_flags: raise_interrupts(after_cpu.interrupt_flags, ppu_events),
            ..after_cpu
        };
        let serial_events = match sent {
            Some(byte) => seq![Event::SerialByte(byte)],
            None => Seq::empty(),
        };
        (GameBoyView { cpu, bus }, serial_events + frame_events(ppu_events))
    }
}

impl GameBoy {
    /// The bounds that the machine keeps between steps.
    pub open spec fn inv(&self) -> bool {
        self@.inv()
    }

    pub fn new(rom_data: Vec<u8>) -> (gameboy: Self)
        ensures
            gameboy.inv(),
            gameboy@.cpu.phase == CpuPhase::FetchOpcode,
            gameboy@.cpu.registers == crate::cpu::zero_registers(),
            gameboy@.bus == crate::memory_bus::initial_bus(rom_data@),
    {
        proof {
            lemma_initial_ppu_colors();
        }
        GameBoy { cpu: Cpu::new(), memory_bus: MemoryBus::new(rom_data) }
    }

    pub fn new_post_boot(rom_data: Vec<u8>) -> (gameboy: Self)
        ensures
            gameboy.inv(),
            gameboy@.cpu.phase == CpuPhase::FetchOpcode,
            gameboy@.cpu.registers == crate::cpu::post_boot_registers(),
            gameboy@.bus == crate::memory_bus::initial_bus(rom_data@),
    {
        proof {
            lemma_initial_ppu_colors();
        }
        GameBoy { cpu: Cpu::new_post_boot(), memory_bus: MemoryBus::new(rom_data) }
    }

    /// Whether `step` can run with this joypad input.
    pub fn can_step(&self, joypad: &Joypad) -> (ready: bool)
        requires
            self.inv(),
        ensures
            ready == self@.can_step(*joypad),
    {
        let bus = &self.memory_bus;
        let ghost before_cpu = bus_before_cpu(bus@, *joypad);
        proof {
            lemma_serial_step_inv(bus@.serial);
        }
        if self.cpu.t_cycles_until_step != 0 {
            return true;
        }
        if !self.cpu.cycle_fits_rom(bus) {
            return false;
        }
        let sp = self.cpu.registers.sp;
        match self.cpu.phase {
            CpuPhase::FetchOpcode => {
                let pc = self.cpu.registers.pc;
                let mut input = bus.joypad;
                input.set_by_bus(joypad);
                let mut serial = bus.serial;
                let _ = serial.step();
                proof {
                    lemma_read8_ports(before_cpu);
                    if pc != 0xFF00 && pc != 0xFF01 && pc != 0xFF02 {
                        lemma_read8_frame(bus@, before_cpu, pc);
                    }
                }
                let opcode = if pc == 0xFF00 {
                    input.get_by_cpu()
                } else if pc == 0xFF01 {
                    serial.data
                } else if pc == 0xFF02 {
                    serial.control
                } else {
                    bus.read8(pc)
                };
                is_supported(self.cpu.decode_instruction(opcode))
            },
            CpuPhase::DecrementSpForWrite(_, _) | CpuPhase::DecrementSp(_)
            | CpuPhase::WriteSpMemHigh(_, _) | CpuPhase::PushR16High(_) => sp > 0,
            CpuPhase::ReadSpLow(_) | CpuPhase::ReadSpHigh(_, _) | CpuPhase::PopR16Low(_)
            | CpuPhase::PopR16High(_) => sp < 0xFFFF,
            _ => true,
        }
    }

    /// One T-cycle of the machine, with the events it produced in order.
    pub fn step(&mut self, joypad: &Joypad) -> (events: Vec<Event>)
        requires
            old(self)@.can_step(*joypad),
        ensures
            (final(self)@, events@) == old(self)@.step(*joypad),
            final(self).inv(),
            frames_hold_colors(events@),
    {
        proof {
            reveal(GameBoyView::step);
        }
        let ghost start = self@;
        let mut events: Vec<Event> = Vec::new();
        self.memory_bus.joypad.set_by_bus(joypad);
        if let Some(byte) = self.memory_bus.serial.step() {
            events.push(Event::SerialByte(byte));
        }
        let ghost before_cpu = self.memory_bus@;
        assert(before_cpu == bus_before_cpu(start.bus, *joypad));
        self.cpu.step(&mut self.memory_bus);
        proof {
            lemma_cpu_step_colors(start.cpu, before_cpu);
            lemma_ppu_step_colors(self.memory_bus.ppu@);
        }
        let ghost serial_events = events@;
        let ppu_events = self.memory_bus.ppu.step();
        report_ppu_events(&mut self.memory_bus, &mut events, &ppu_events);
        assert(events@ =~= old(self)@.step(*joypad).1);
        proof {
            lemma_frame_events_colors(ppu_events@);
            lemma_frames_hold_colors_append(serial_events, frame_events(ppu_events@));
        }
        events
    }
}

/// Whether every frame among the events holds colour ids (0 to 3) only.
pub open spec fn frames_hold_colors(events: Seq<Event>) -> bool {
    forall|k: int|
        0 <= k < events.len() ==> (#[trigger] events[k] matches Event::FrameReady(frame)
            ==> frame_colors_valid(frame))
}

/// Joining two lists of events whose frames hold colour ids.
pub proof fn lemma_frames_hold_colors_append(first: Seq<Event>, second: Seq<Event>)
    requires
        frames_hold_colors(first),
        frames_hold_colors(second),
    ensures
        frames_hold_colors(first + second),
{
    assert forall|k: int| 0 <= k < (first + second).len() implies (#[trigger] (first + second)[k]
        matches Event::FrameReady(frame) ==> frame_colors_valid(frame)) by {
        if k < first.len() {
            assert((first + second)[k] == first[k]);
        } else {
            assert((first + second)[k] == second[k - first.len()]);
        }
    }
}

proof fn lemma_frame_events_colors(events: Seq<PpuEvent>)
    requires
        event_frames_valid(events),
    ensures
        frames_hold_colors(frame_events(events)),
    decreases events.len(),
{
    if events.len() > 0 {
        let rest = events.drop_last();
        assert(event_frames_valid(rest)) by {
            assert forall|k: int| 0 <= k < rest.len() implies (#[trigger] rest[k] matches PpuEvent::FrameReady(
                frame,
            ) ==> frame_colors_valid(frame)) by {
                assert(rest[k] == events[k]);
            }
        }
        lemma_frame_events_colors(rest);
        assert(events.last() == events[events.len() - 1]);
    }
}

/// A CPU step keeps the PPU's colour ids.
proof fn lemma_cpu_step_colors(cpu: Cpu, bus: MemoryBusView)
    requires
        ppu_colors_valid(bus.ppu),
    ensures
        ppu_colors_valid(cpu.spec_step(bus).1.ppu),
{
    if cpu.t_cycles_until_step == 0 {
        let ticked = Cpu { t_cycles_until_step: 3, ..cpu };
        lemma_machine_cycle_bus(ticked, bus);
        if ticked.spec_machine_cycle(bus).1 != bus {
            let (addr, value) = choose|addr: u16, value: u8|
                ticked.spec_machine_cycle(bus).1 == bus.write8(addr, value);
            lemma_write8_keeps_colors(bus, addr, value);
        }
    }
}

/// Raises the PPU's interrupt requests in IF and reports its finished frames.
fn report_ppu_events(bus: &mut MemoryBus, events: &mut Vec<Event>, ppu_events: &Vec<PpuEvent>)
    requires
        old(bus).inv(),
    ensures
        final(bus)@ == (MemoryBusView {
            interrupt_flags: raise_interrupts(old(bus)@.interrupt_flags, ppu_events@),
            ..old(bus)@
        }),
        final(events)@ == old(events)@ + frame_events(ppu_events@),
        final(bus).inv(),
{
    let ghost start_bus = bus@;
    let ghost start_events = events@;
    let mut i: usize = 0;
    while i < ppu_events.len()
        invariant
            i <= ppu_events.len(),
            bus@ == (MemoryBusView {
                interrupt_flags: raise_interrupts(
                    start_bus.interrupt_flags,
                    ppu_events@.take(i as int),
                ),
                ..start_bus
            }),
            events@ == start_events + frame_events(ppu_events@.take(i as int)),
            start_bus.inv(),
        decreases ppu_events.len() - i,
    {
        let ghost prefix = ppu_events@.take(i as int);
        assert(ppu_events@.take(i + 1).drop_last() =~= prefix);
        match ppu_events[i] {
            PpuEvent::FrameReady(framebuffer) => {
                events.push(Event::FrameReady(framebuffer));
            },
            PpuEvent::InterruptRequested(interrupt_type) => {
                bus.request_interrupt(interrupt_type);
            },
        }
        assert(events@ =~= start_events + frame_events(ppu_events@.take(i + 1)));
        i += 1;
    }
    assert(ppu_events@.take(ppu_events.len() as int) =~= ppu_events@);
}

} // verus!
