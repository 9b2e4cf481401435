//! The joypad: the eight buttons and the P1 register through which the CPU reads them.
use vstd::prelude::*;

use crate::cpu::registers::flag_weight;

verus! {

/// The buttons, and which of the two button groups P1 selects.
#[derive(Clone, Copy, Debug, PartialEq, Eq, Structural)]
pub struct Joypad {
    pub a: bool,
    pub b: bool,
    pub start: bool,
    pub select: bool,
    pub up: bool,
    pub down: bool,
    pub left: bool,
    pub right: bool,
    pub select_buttons: bool,
    pub select_d_pad: bool,
}

impl Joypad {
    /// The low nibble of P1 before inversion: a bit is set when a pressed button of a
    /// selected group drives it.
    pub open spec fn spec_pressed_bits(self) -> int {
        flag_weight((self.select_d_pad && self.right) || (self.select_buttons && self.a), 1)
            + flag_weight((self.select_d_pad && self.left) || (self.select_buttons && self.b), 2)
            + flag_weight((self.select_d_pad && self.up) || (self.select_buttons && self.select), 4)
            + flag_weight((self.select_d_pad && self.down) || (self.select_buttons && self.start), 8)
    }

    /// What the CPU reads from P1: every bit inverted, so that 0 means pressed.
    pub open spec fn spec_get_by_cpu(self) -> u8 {
        (255 - self.spec_pressed_bits()) as u8
    }

    pub fn new() -> (joypad: Self)
        ensures
            joypad == (Joypad {
                a: false,
                b: false,
                start: false,
                select: false,
                up: false,
                down: false,
                left: false,
                right: false,
                select_buttons: false,
                select_d_pad: false,
            }),
    {
        Joypad {
            a: false,
            b: false,
            start: false,
            select: false,
            up: false,
            down: false,
            left: false,
            right: false,
            select_buttons: false,
            select_d_pad: false,
        }
    }

    /// Takes the state of the eight buttons from `input`; the group selection stays.
    pub fn set_by_bus(&mut self, input: &Joypad)
        ensures
            *final(self) == (Joypad {
                select_buttons: old(self).select_buttons,
                select_d_pad: old(self).select_d_pad,
                ..*input
            }),
    {
        self.a = input.a;
        self.b = input.b;
        self.start = input.start;
        self.select = input.select;
        self.up = input.up;
        self.down = input.down;
        self.left = input.left;
        self.right = input.right;
    }

    /// A CPU write of P1: a 0 in bit 5 selects the action buttons, a 0 in bit 4 the
    /// direction pad; the other bits are dropped.
    pub fn set_by_cpu(&mut self, buttons: u8)
        ensures
            *final(self) == (Joypad {
                select_buttons: buttons & 0x20 == 0,
                select_d_pad: buttons & 0x10 == 0,
                ..*old(self)
            }),
    {
        self.select_buttons = buttons & 0b0010_0000 == 0;
        self.select_d_pad = buttons & 0b0001_0000 == 0;
    }

    /// A CPU read of P1.
    pub fn get_by_cpu(&self) -> (value: u8)
        ensures
            value == self.spec_get_by_cpu(),
    {
        // A bit is driven low by a pressed button of either selected group.
        let b0: u8 = if (self.select_d_pad && self.right) || (self.select_buttons && self.a) { 1 } else { 0 };
        let b1: u8 = if (self.select_d_pad && self.left) || (self.select_buttons && self.b) { 2 } else { 0 };
        let b2: u8 = if (self.select_d_pad && self.up) || (self.select_buttons && self.select) { 4 } else { 0 };
        let b3: u8 = if (self.select_d_pad && self.down) || (self.select_buttons && self.start) { 8 } else { 0 };
        let result = b0 | b1 | b2 | b3;
        assert(!(b0 | b1 | b2 | b3) == 255 - (b0 + b1 + b2 + b3)) by (bit_vector)
            requires
                b0 == 0 || b0 == 1,
                b1 == 0 || b1 == 2,
                b2 == 0 || b2 == 4,
                b3 == 0 || b3 == 8,
        ;
        !result
    }
}

/// What P1 reads, bit by bit: a low bit is 0 exactly when a pressed button of a selected
/// group drives it (bit 0: Right or A, bit 1: Left or B, bit 2: Up or Select, bit 3: Down
/// or Start; the direction pad counts when bit 4 was written 0, the action buttons when
/// bit 5 was), and the high nibble reads as 1s.
pub proof fn lemma_joypad_read_bits(joypad: Joypad)
    ensures
        ({
            let value = joypad.spec_get_by_cpu();
            let d = joypad.select_d_pad;
            let b = joypad.select_buttons;
            &&& (value & 0x01 == 0) == ((d && joypad.right) || (b && joypad.a))
            &&& (value & 0x02 == 0) == ((d && joypad.left) || (b && joypad.b))
            &&& (value & 0x04 == 0) == ((d && joypad.up) || (b && joypad.select))
            &&& (value & 0x08 == 0) == ((d && joypad.down) || (b && joypad.start))
            &&& value & 0xF0 == 0xF0
        }),
{
    let d = joypad.select_d_pad;
    let b = joypad.select_buttons;
    let b0: u8 = if (d && joypad.right) || (b && joypad.a) { 1 } else { 0 };
    let b1: u8 = if (d && joypad.left) || (b && joypad.b) { 2 } else { 0 };
    let b2: u8 = if (d && joypad.up) || (b && joypad.select) { 4 } else { 0 };
    let b3: u8 = if (d && joypad.down) || (b && joypad.start) { 8 } else { 0 };
    let value = joypad.spec_get_by_cpu();
    assert(value == 255 - (b0 + b1 + b2 + b3));
    assert({
        &&& (value & 0x01 == 0) == (b0 == 1)
        &&& (value & 0x02 == 0) == (b1 == 2)
        &&& (value & 0x04 == 0) == (b2 == 4)
        &&& (value & 0x08 == 0) == (b3 == 8)
        &&& value & 0xF0 == 0xF0
    }) by (bit_vector)
        requires
            b0 == 0 || b0 == 1,
            b1 == 0 || b1 == 2,
            b2 == 0 || b2 == 4,
            b3 == 0 || b3 == 8,
            value == 255 - (b0 + b1 + b2 + b3),
    ;
}

/// P1 always reads with its upper nibble set, whatever the buttons and the selection.
pub proof fn lemma_joypad_upper_bits_set(joypad: Joypad)
    ensures
        joypad.spec_get_by_cpu() >= 0xF0,
{
}

/// With neither group selected, P1 reads as 0xFF: no button reaches the CPU.
pub proof fn lemma_joypad_unselected_reads_released(joypad: Joypad)
    requires
        !joypad.select_buttons,
        !joypad.select_d_pad,
    ensures
        joypad.spec_get_by_cpu() == 0xFF,
{
}

} // verus!
