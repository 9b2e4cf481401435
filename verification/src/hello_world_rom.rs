//! A small emulator-only test ROM, assembled in place: it prints "Hello, World!" over
//! the serial port and puts "HELLO WORLD" tiles in the background map.
use std::collections::HashMap;
use vstd::prelude::*;

use crate::cpu::registers::{high_byte, low_byte};

verus! {

/// The size of the ROM: 32 KiB.
pub const ROM_SIZE: usize = 0x8000;

/// Where the CPU starts after the boot ROM.
pub const ENTRY_POINT: usize = 0x0100;

/// Where the program starts, after the cartridge header.
pub const PROGRAM_START: usize = 0x0150;

/// Where the tiles are copied to.
pub const TILE_DATA_DESTINATION: u16 = 0x8000;

/// The first byte of the background tile map.
pub const TILE_MAP_START: u16 = 0x9800;

/// Where the text goes in the tile map: row 8, column 4.
pub const TEXT_DESTINATION: u16 = 0x9904;

/// The places in the program that jumps and loads refer to.
#[derive(Clone, Copy, Debug, PartialEq, Eq, Structural)]
enum Label {
    Main,
    SerialNext,
    SerialWait,
    AfterSerial,
    CopyTileData,
    ClearTileMap,
    CopyBackgroundText,
    Done,
    TileData,
    BackgroundText,
    SerialText,
}

/// The key under which a label's position is kept.
spec fn label_key(label: Label) -> u64 {
    match label {
        Label::Main => 0,
        Label::SerialNext => 1,
        Label::SerialWait => 2,
        Label::AfterSerial => 3,
        Label::CopyTileData => 4,
        Label::ClearTileMap => 5,
        Label::CopyBackgroundText => 6,
        Label::Done => 7,
        Label::TileData => 8,
        Label::BackgroundText => 9,
        Label::SerialText => 10,
    }
}

impl Label {
    /// The key under which the label's position is kept.
    fn key(self) -> (key: u64)
        ensures
            key == label_key(self),
    {
        match self {
            Label::Main => 0,
            Label::SerialNext => 1,
            Label::SerialWait => 2,
            Label::AfterSerial => 3,
            Label::CopyTileData => 4,
            Label::ClearTileMap => 5,
            Label::CopyBackgroundText => 6,
            Label::Done => 7,
            Label::TileData => 8,
            Label::BackgroundText => 9,
            Label::SerialText => 10,
        }
    }
}

/// How a reference to a label is written once the label's position is known.
#[derive(Clone, Copy, Debug, PartialEq, Eq, Structural)]
enum FixupKind {
    Absolute16,
    Relative8,
}

/// A reference to a label, to be written at `offset`.
#[derive(Clone, Copy, Debug, PartialEq, Eq, Structural)]
struct Fixup {
    offset: usize,
    label: Label,
    kind: FixupKind,
}

/// The ROM being assembled: its bytes, the write position, the labels defined so far
/// and the references still to be written.
struct Assembler {
    rom: Vec<u8>,
    position: usize,
    labels: HashMap<u64, usize>,
    fixups: Vec<Fixup>,
}

/// The position at which `label` is defined, if it is.
spec fn label_position(labels: Map<u64, usize>, label: Label) -> Option<usize> {
    if labels.contains_key(label_key(label)) {
        Some(labels[label_key(label)])
    } else {
        None
    }
}

/// The number of bytes that a reference takes.
spec fn fixup_width(kind: FixupKind) -> int {
    match kind {
        FixupKind::Absolute16 => 2,
        FixupKind::Relative8 => 1,
    }
}

/// Whether a reference can be written: its label is defined, it lies in the ROM, and the
/// label's position fits in 16 bits, or (for a relative jump) is within a signed byte of
/// the end of the jump.
spec fn fixup_resolvable(rom_len: int, labels: Map<u64, usize>, fixup: Fixup) -> bool {
    match label_position(labels, fixup.label) {
        Some(target) => {
            &&& fixup.offset + fixup_width(fixup.kind) <= rom_len
            &&& match fixup.kind {
                FixupKind::Absolute16 => target <= 0xFFFF,
                FixupKind::Relative8 => -128 <= target - (fixup.offset + 1) <= 127,
            }
        },
        None => false,
    }
}

/// The ROM with one reference written: a 16-bit address little-endian, or the signed
/// distance from the end of the jump.
spec fn patch(rom: Seq<u8>, fixup: Fixup, target: usize) -> Seq<u8> {
    match fixup.kind {
        FixupKind::Absolute16 => rom.update(fixup.offset as int, low_byte(target as u16)).update(
            fixup.offset + 1,
            high_byte(target as u16),
        ),
        FixupKind::Relative8 => rom.update(
            fixup.offset as int,
            ((target - (fixup.offset + 1)) % 256) as u8,
        ),
    }
}

/// The ROM with all references written, in order.
spec fn apply_fixups(rom: Seq<u8>, fixups: Seq<Fixup>, labels: Map<u64, usize>) -> Seq<u8>
    decreases fixups.len(),
{
    if fixups.len() == 0 {
        rom
    } else {
        patch(
            apply_fixups(rom, fixups.drop_last(), labels),
            fixups.last(),
            label_position(labels, fixups.last().label).unwrap(),
        )
    }
}

/// Whether every reference in `fixups` can be written.
spec fn all_resolvable(rom_len: int, labels: Map<u64, usize>, fixups: Seq<Fixup>) -> bool
    decreases fixups.len(),
{
    if fixups.len() == 0 {
        true
    } else {
        fixup_resolvable(rom_len, labels, fixups.last()) && all_resolvable(
            rom_len,
            labels,
            fixups.drop_last(),
        )
    }
}

/// Whether no reference in `fixups` writes a byte in `lo .. hi`.
spec fn clear_of(fixups: Seq<Fixup>, lo: int, hi: int) -> bool
    decreases fixups.len(),
{
    if fixups.len() == 0 {
        true
    } else {
        let last = fixups.last();
        &&& (last.offset + fixup_width(last.kind) <= lo || hi <= last.offset)
        &&& clear_of(fixups.drop_last(), lo, hi)
    }
}

proof fn lemma_all_resolvable(rom_len: int, labels: Map<u64, usize>, fixups: Seq<Fixup>)
    requires
        all_resolvable(rom_len, labels, fixups),
    ensures
        forall|k: int|
            0 <= k < fixups.len() ==> fixup_resolvable(rom_len, labels, #[trigger] fixups[k]),
    decreases fixups.len(),
{
    if fixups.len() > 0 {
        lemma_all_resolvable(rom_len, labels, fixups.drop_last());
        assert forall|k: int| 0 <= k < fixups.len() implies fixup_resolvable(
            rom_len,
            labels,
            #[trigger] fixups[k],
        ) by {
            if k < fixups.len() - 1 {
                assert(fixups[k] == fixups.drop_last()[k]);
            }
        }
    }
}

/// Writing references that lie outside `lo .. hi` keeps the length and the bytes there.
proof fn lemma_apply_outside(
    rom: Seq<u8>,
    fixups: Seq<Fixup>,
    labels: Map<u64, usize>,
    lo: int,
    hi: int,
)
    requires
        all_resolvable(rom.len() as int, labels, fixups),
        clear_of(fixups, lo, hi),
        0 <= lo,
        hi <= rom.len(),
    ensures
        apply_fixups(rom, fixups, labels).len() == rom.len(),
        forall|j: int| lo <= j < hi ==> #[trigger] apply_fixups(rom, fixups, labels)[j] == rom[j],
    decreases fixups.len(),
{
    if fixups.len() > 0 {
        let rest = fixups.drop_last();
        lemma_apply_outside(rom, rest, labels, lo, hi);
        let before = apply_fixups(rom, rest, labels);
        let last = fixups.last();
        assert(fixup_resolvable(rom.len() as int, labels, last));
        assert forall|j: int| lo <= j < hi implies #[trigger] apply_fixups(rom, fixups, labels)[j]
            == rom[j] by {
            assert(before[j] == rom[j]);
            assert(j != last.offset);
            assert(last.kind == FixupKind::Absolute16 ==> j != last.offset + 1);
        }
    }
}

/// Writing a list of references is writing its first `n`, then the rest.
proof fn lemma_apply_split(rom: Seq<u8>, fixups: Seq<Fixup>, labels: Map<u64, usize>, n: int)
    requires
        0 <= n <= fixups.len(),
    ensures
        apply_fixups(rom, fixups, labels) == apply_fixups(
            apply_fixups(rom, fixups.take(n), labels),
            fixups.skip(n),
            labels,
        ),
    decreases fixups.len(),
{
    if n == fixups.len() {
        assert(fixups.take(n) =~= fixups);
        assert(fixups.skip(n) =~= Seq::<Fixup>::empty());
    } else {
        let rest = fixups.drop_last();
        lemma_apply_split(rom, rest, labels, n);
        assert(rest.take(n) =~= fixups.take(n));
        assert(fixups.skip(n).drop_last() =~= rest.skip(n));
    }
}

/// Whether `after` has the length of `before` and agrees with it below `end`.
spec fn keeps_prefix(before: Seq<u8>, after: Seq<u8>, end: int) -> bool {
    &&& after.len() == before.len()
    &&& forall|j: int| 0 <= j < end ==> #[trigger] after[j] == before[j]
}

impl Assembler {
    fn new() -> (assembler: Self)
        ensures
            assembler.rom@ == Seq::new(ROM_SIZE as nat, |i: int| 0u8),
            assembler.position == 0,
            assembler.labels@ == Map::<u64, usize>::empty(),
            assembler.fixups@ == Seq::<Fixup>::empty(),
    {
        let rom: Vec<u8> = vec![0; ROM_SIZE];
        assert(rom@ =~= Seq::new(ROM_SIZE as nat, |i: int| 0u8));
        Assembler { rom, position: 0, labels: HashMap::new(), fixups: Vec::new() }
    }

    /// Moves the write position.
    fn seek(&mut self, position: usize)
        requires
            position < old(self).rom@.len(),
        ensures
            final(self).position == position,
            final(self).rom@ == old(self).rom@,
            final(self).labels@ == old(self).labels@,
            final(self).fixups@ == old(self).fixups@,
    {
        self.position = position;
    }

    /// Defines a label at the write position; a label is defined once.
    fn label(&mut self, label: Label)
        requires
            !old(self).labels@.contains_key(label_key(label)),
        ensures
            final(self).labels@ == old(self).labels@.insert(label_key(label), old(self).position),
            final(self).position == old(self).position,
            final(self).rom@ == old(self).rom@,
            final(self).fixups@ == old(self).fixups@,
    {
        let position = self.position;
        self.labels.insert(label.key(), position);
    }

    /// Writes bytes at the write position and moves past them.
    fn emit(&mut self, bytes: &[u8])
        requires
            old(self).position + bytes@.len() <= old(self).rom@.len(),
        ensures
            final(self).rom@ == old(self).rom@.take(old(self).position as int) + bytes@
                + old(self).rom@.skip(old(self).position + bytes@.len()),
            keeps_prefix(old(self).rom@, final(self).rom@, old(self).position as int),
            final(self).position == old(self).position + bytes@.len(),
            final(self).labels@ == old(self).labels@,
            final(self).fixups@ == old(self).fixups@,
    {
        let start = self.position;
        let rom_len = self.rom.len();
        let mut i: usize = 0;
        while i < bytes.len()
            invariant
                i <= bytes@.len(),
                rom_len == old(self).rom@.len(),
                start == old(self).position,
                start + bytes@.len() <= rom_len,
                self.position == start,
                self.labels@ == old(self).labels@,
                self.fixups@ == old(self).fixups@,
                self.rom@ =~= old(self).rom@.take(start as int) + bytes@.take(i as int)
                    + old(self).rom@.skip(start + i),
            decreases bytes@.len() - i,
        {
            self.rom.set(start + i, bytes[i]);
            i += 1;
        }
        self.position = start + bytes.len();
    }

    /// Writes an instruction with a 16-bit address operand, to be filled in with the
    /// label's position.
    fn emit_absolute16(&mut self, opcode: u8, label: Label)
        requires
            old(self).position + 3 <= old(self).rom@.len(),
        ensures
            final(self).rom@ == old(self).rom@.update(old(self).position as int, opcode).update(
                old(self).position + 1,
                0,
            ).update(old(self).position + 2, 0),
            keeps_prefix(old(self).rom@, final(self).rom@, old(self).position as int),
            final(self).position == old(self).position + 3,
            final(self).labels@ == old(self).labels@,
            final(self).fixups@ == old(self).fixups@.push(
                Fixup { offset: (old(self).position + 1) as usize, label, kind: FixupKind::Absolute16 },
            ),
    {
        let start = self.position;
        self.emit(&[opcode]);
        let offset = self.position;
        self.emit(&[0, 0]);
        self.fixups.push(Fixup { offset, label, kind: FixupKind::Absolute16 });
        assert(self.rom@ =~= old(self).rom@.update(start as int, opcode).update(start + 1, 0).update(
            start + 2,
            0,
        ));
    }

    /// Writes a relative jump whose displacement is to be filled in from the label's
    /// position.
    fn emit_relative8(&mut self, opcode: u8, label: Label)
        requires
            old(self).position + 2 <= old(self).rom@.len(),
        ensures
            final(self).rom@ == old(self).rom@.update(old(self).position as int, opcode).update(
                old(self).position + 1,
                0,
            ),
            keeps_prefix(old(self).rom@, final(self).rom@, old(self).position as int),
            final(self).position == old(self).position + 2,
            final(self).labels@ == old(self).labels@,
            final(self).fixups@ == old(self).fixups@.push(
                Fixup { offset: (old(self).position + 1) as usize, label, kind: FixupKind::Relative8 },
            ),
    {
        let start = self.position;
        self.emit(&[opcode]);
        let offset = self.position;
        self.emit(&[0]);
        self.fixups.push(Fixup { offset, label, kind: FixupKind::Relative8 });
        assert(self.rom@ =~= old(self).rom@.update(start as int, opcode).update(start + 1, 0));
    }

    /// Writes every reference and hands out the ROM.
    fn finish(self) -> (rom: Vec<u8>)
        requires
            forall|k: int|
                0 <= k < self.fixups@.len() ==> fixup_resolvable(
                    self.rom@.len() as int,
                    self.labels@,
                    #[trigger] self.fixups@[k],
                ),
        ensures
            rom@ == apply_fixups(self.rom@, self.fixups@, self.labels@),
    {
        let Assembler { rom, position: _, labels, fixups } = self;
        let mut rom = rom;
        let ghost unpatched = rom@;
        let rom_len = rom.len();
        let mut i: usize = 0;
        while i < fixups.len()
            invariant
                i <= fixups@.len(),
                rom_len == unpatched.len(),
                rom@ == apply_fixups(unpatched, fixups@.take(i as int), labels@),
                rom@.len() == unpatched.len(),
                forall|k: int|
                    0 <= k < fixups@.len() ==> fixup_resolvable(
                        unpatched.len() as int,
                        labels@,
                        #[trigger] fixups@[k],
                    ),
            decreases fixups@.len() - i,
        {
            let fixup = fixups[i];
            assert(fixup_resolvable(unpatched.len() as int, labels@, fixups@[i as int]));
            let found = labels.get(&fixup.label.key());
            let target = *found.unwrap();
            assert(fixups@.take(i + 1).drop_last() =~= fixups@.take(i as int));
            match fixup.kind {
                FixupKind::Absolute16 => {
                    let bytes = le_bytes(target as u16);
                    rom.set(fixup.offset, bytes[0]);
                    rom.set(fixup.offset + 1, bytes[1]);
                },
                FixupKind::Relative8 => {
                    let instruction_end = fixup.offset + 1;
                    let displacement: u8 = if target >= instruction_end {
                        (target - instruction_end) as u8
                    } else {
                        (256 - (instruction_end - target)) as u8
                    };
                    rom.set(fixup.offset, displacement);
                },
            }
            i += 1;
        }
        assert(fixups@.take(fixups@.len() as int) =~= fixups@);
        rom
    }
}

/// The labels of the program, in the order in which they are defined.
spec fn program_label_list() -> Seq<(Label, usize)> {
    seq![
        (Label::Main, 0x150usize),
        (Label::SerialNext, 0x15Ausize),
        (Label::SerialWait, 0x165usize),
        (Label::AfterSerial, 0x16Dusize),
        (Label::CopyTileData, 0x176usize),
        (Label::ClearTileMap, 0x184usize),
        (Label::CopyBackgroundText, 0x195usize),
        (Label::Done, 0x1A5usize),
        (Label::TileData, 0x1A7usize),
        (Label::BackgroundText, 0x227usize),
        (Label::SerialText, 0x232usize),
    ]
}

/// The positions of the first `n` labels of the program, by key.
spec fn program_labels_upto(n: nat) -> Map<u64, usize>
    decreases n,
{
    if n == 0 {
        Map::empty()
    } else {
        let (label, position) = program_label_list()[n - 1];
        program_labels_upto((n - 1) as nat).insert(label_key(label), position)
    }
}

/// The positions of all the labels of the program, by key.
spec fn program_labels() -> Map<u64, usize> {
    program_labels_upto(11)
}

/// The references of the program, in the order in which they are written.
spec fn program_fixups() -> Seq<Fixup> {
    seq![
        Fixup { offset: 0x101, label: Label::Main, kind: FixupKind::Absolute16 },
        Fixup { offset: 0x158, label: Label::SerialText, kind: FixupKind::Absolute16 },
        Fixup { offset: 0x15E, label: Label::AfterSerial, kind: FixupKind::Relative8 },
        Fixup { offset: 0x16A, label: Label::SerialWait, kind: FixupKind::Relative8 },
        Fixup { offset: 0x16C, label: Label::SerialNext, kind: FixupKind::Relative8 },
        Fixup { offset: 0x16E, label: Label::TileData, kind: FixupKind::Absolute16 },
        Fixup { offset: 0x17D, label: Label::CopyTileData, kind: FixupKind::Relative8 },
        Fixup { offset: 0x18B, label: Label::ClearTileMap, kind: FixupKind::Relative8 },
        Fixup { offset: 0x18D, label: Label::BackgroundText, kind: FixupKind::Absolute16 },
        Fixup { offset: 0x19C, label: Label::CopyBackgroundText, kind: FixupKind::Relative8 },
        Fixup { offset: 0x1A6, label: Label::Done, kind: FixupKind::Relative8 },
    ]
}

/// The assembler at a given point of the program: write position, labels and references
/// so far, and a ROM of full size.
spec fn assembled_up_to(a: &Assembler, position: usize, labels: int, fixups: int) -> bool {
    &&& a.rom@.len() == ROM_SIZE
    &&& a.position == position
    &&& a.labels@ == program_labels_upto(labels as nat)
    &&& a.fixups@ == program_fixups().take(fixups)
}

/// The little-endian bytes of a word.
fn le_bytes(value: u16) -> (bytes: [u8; 2])
    ensures
        bytes@ == seq![low_byte(value), high_byte(value)],
{
    let low = (value & 0xFF) as u8;
    let high = (value >> 8) as u8;
    assert(low == low_byte(value) && high == high_byte(value)) by (bit_vector)
        requires
            low == (value & 0xFF) as u8,
            high == (value >> 8) as u8,
    ;
    let bytes = [low, high];
    assert(bytes@ =~= seq![low_byte(value), high_byte(value)]);
    bytes
}

/// The rows of the 5x7 letters H, E, L, O, W, R and D, centred in 8x8 tiles: bit 7 is
/// the leftmost pixel of a row.
pub open spec fn glyph_rows() -> Seq<Seq<u8>> {
    seq![
        seq![0x42u8, 0x42, 0x42, 0x7e, 0x42, 0x42, 0x42, 0x00],
        seq![0x7eu8, 0x40, 0x40, 0x7c, 0x40, 0x40, 0x7e, 0x00],
        seq![0x40u8, 0x40, 0x40, 0x40, 0x40, 0x40, 0x7e, 0x00],
        seq![0x3cu8, 0x42, 0x42, 0x42, 0x42, 0x42, 0x3c, 0x00],
        seq![0x42u8, 0x42, 0x42, 0x42, 0x5a, 0x66, 0x42, 0x00],
        seq![0x7cu8, 0x42, 0x42, 0x7c, 0x48, 0x44, 0x42, 0x00],
        seq![0x78u8, 0x44, 0x42, 0x42, 0x42, 0x44, 0x78, 0x00],
    ]
}

/// The 5x7 letters H, E, L, O, W, R and D, centred in 8x8 tiles, one byte per row.
fn glyphs() -> (table: [[u8; 8]; 7])
    ensures
        forall|g: int, r: int| 0 <= g < 7 && 0 <= r < 8 ==> #[trigger] table[g][r] == glyph_rows()[g][r],
{
    let table: [[u8; 8]; 7] = [
        [0x42, 0x42, 0x42, 0x7e, 0x42, 0x42, 0x42, 0x00],  // H
        [0x7e, 0x40, 0x40, 0x7c, 0x40, 0x40, 0x7e, 0x00],  // E
        [0x40, 0x40, 0x40, 0x40, 0x40, 0x40, 0x7e, 0x00],  // L
        [0x3c, 0x42, 0x42, 0x42, 0x42, 0x42, 0x3c, 0x00],  // O
        [0x42, 0x42, 0x42, 0x42, 0x5a, 0x66, 0x42, 0x00],  // W
        [0x7c, 0x42, 0x42, 0x7c, 0x48, 0x44, 0x42, 0x00],  // R
        [0x78, 0x44, 0x42, 0x42, 0x42, 0x44, 0x78, 0x00],  // D
    ];
    assert(table[0]@ =~= glyph_rows()[0]);
    assert(table[1]@ =~= glyph_rows()[1]);
    assert(table[2]@ =~= glyph_rows()[2]);
    assert(table[3]@ =~= glyph_rows()[3]);
    assert(table[4]@ =~= glyph_rows()[4]);
    assert(table[5]@ =~= glyph_rows()[5]);
    assert(table[6]@ =~= glyph_rows()[6]);
    table
}

/// The tile numbers of "HELLO WORLD" in the background map (tile 0 is blank): tiles 1 to
/// 7 are the glyphs H, E, L, O, W, R and D in that order.
fn background_text() -> (text: [u8; 11])
    ensures
        text@ == seq![1u8, 2, 3, 3, 4, 0, 5, 4, 6, 3, 7],
{
    let text: [u8; 11] = [1, 2, 3, 3, 4, 0, 5, 4, 6, 3, 7];
    assert(text@ =~= seq![1u8, 2, 3, 3, 4, 0, 5, 4, 6, 3, 7]);
    text
}

/// "Hello, World!" and a newline, ended by a zero byte.
fn serial_text() -> (text: [u8; 15])
    ensures
        text@ == hello_world_line().push(0),
{
    let text: [u8; 15] = [
        0x48, 0x65, 0x6c, 0x6c, 0x6f, 0x2c, 0x20, 0x57, 0x6f, 0x72, 0x6c, 0x64, 0x21, 0x0a, 0x00,
    ];
    assert(text@ =~= hello_world_line().push(0));
    text
}

/// The bytes of "Hello, World!\n".
pub open spec fn hello_world_line() -> Seq<u8> {
    seq![
        0x48u8, 0x65, 0x6c, 0x6c, 0x6f, 0x2c, 0x20, 0x57, 0x6f, 0x72, 0x6c, 0x64, 0x21, 0x0a,
    ]
}

/// The tile data: a blank tile, then each glyph row written to both bitplanes, so that a
/// set bit selects colour 3.
fn tile_data(glyphs: &[[u8; 8]; 7]) -> (tiles: Vec<u8>)
    ensures
        tiles@.len() == 128,
        forall|j: int| 0 <= j < 16 ==> #[trigger] tiles@[j] == 0,
        forall|g: int, r: int|
            0 <= g < 7 && 0 <= r < 8 ==> tiles@[16 + 16 * g + 2 * r] == glyphs[g][r]
                && tiles@[16 + 16 * g + 2 * r + 1] == glyphs[g][r],
{
    let mut tiles: Vec<u8> = Vec::new();
    let mut j: usize = 0;
    while j < 16
        invariant
            j <= 16,
            tiles@.len() == j,
            forall|k: int| 0 <= k < j ==> #[trigger] tiles@[k] == 0,
        decreases 16 - j,
    {
        tiles.push(0);
        j += 1;
    }
    let mut g: usize = 0;
    while g < 7
        invariant
            g <= 7,
            tiles@.len() == 16 + 16 * g,
            forall|k: int| 0 <= k < 16 ==> #[trigger] tiles@[k] == 0,
            forall|h: int, r: int|
                0 <= h < g && 0 <= r < 8 ==> tiles@[16 + 16 * h + 2 * r] == glyphs[h][r]
                    && tiles@[16 + 16 * h + 2 * r + 1] == glyphs[h][r],
        decreases 7 - g,
    {
        let glyph = glyphs[g];
        let mut r: usize = 0;
        while r < 8
            invariant
                g < 7,
                r <= 8,
                glyph == glyphs[g as int],
                tiles@.len() == 16 + 16 * g + 2 * r,
                forall|k: int| 0 <= k < 16 ==> #[trigger] tiles@[k] == 0,
                forall|h: int, q: int|
                    0 <= h < g && 0 <= q < 8 ==> tiles@[16 + 16 * h + 2 * q] == glyphs[h][q]
                        && tiles@[16 + 16 * h + 2 * q + 1] == glyphs[h][q],
                forall|q: int|
                    0 <= q < r ==> tiles@[16 + 16 * g + 2 * q] == glyphs[g as int][q]
                        && tiles@[16 + 16 * g + 2 * q + 1] == glyphs[g as int][q],
            decreases 8 - r,
        {
            let row = glyph[r];
            tiles.push(row);
            tiles.push(row);
            r += 1;
        }
        g += 1;
    }
    tiles
}

/// The code that sends the serial text, before its references are written.
spec fn serial_output_code() -> Seq<u8> {
    seq![
        0xf3u8, 0x31, 0xfe, 0xff, 0xaf, 0xe0, 0x40, 0x21, 0x00, 0x00, 0x2a, 0xfe, 0x00, 0x28, 0x00,
        0xe0, 0x01, 0x3e, 0x81, 0xe0, 0x02, 0xf0, 0x02, 0xe6, 0x80, 0x20, 0x00, 0x18, 0x00,
    ]
}

/// The code that copies the tile data, before its references are written.
spec fn tile_copy_code(tile_data_len: u16) -> Seq<u8> {
    seq![
        0x11u8, 0x00, 0x00, 0x21, low_byte(TILE_DATA_DESTINATION), high_byte(TILE_DATA_DESTINATION),
        0x01, low_byte(tile_data_len), high_byte(tile_data_len), 0x1a, 0x13, 0x22, 0x0b, 0x78,
        0xb1, 0x20, 0x00,
    ]
}

/// The code that clears the map and writes the text tiles, before its references are written.
spec fn map_setup_code(background_text_len: u16) -> Seq<u8> {
    seq![
        0x21u8, low_byte(TILE_MAP_START), high_byte(TILE_MAP_START), 0x01, 0x00, 0x04, 0x36, 0x00,
        0x23, 0x0b, 0x78, 0xb1, 0x20, 0x00, 0x11, 0x00, 0x00, 0x21, low_byte(TEXT_DESTINATION),
        high_byte(TEXT_DESTINATION), 0x01, low_byte(background_text_len),
        high_byte(background_text_len), 0x1a, 0x13, 0x22, 0x0b, 0x78, 0xb1, 0x20, 0x00,
    ]
}

/// The code that turns the display on and loops, before its reference is written.
spec fn display_on_code() -> Seq<u8> {
    seq![0x3eu8, 0xe4, 0xe0, 0x47, 0x3e, 0x91, 0xe0, 0x40, 0x18, 0x00]
}

/// The jump at the entry point, over the cartridge header to the program.
fn emit_entry(a: &mut Assembler)
    requires
        old(a).rom@ == Seq::new(ROM_SIZE as nat, |i: int| 0u8),
        old(a).position == 0,
        old(a).labels@ == Map::<u64, usize>::empty(),
        old(a).fixups@ == Seq::<Fixup>::empty(),
    ensures
        assembled_up_to(final(a), 0x150, 0, 1),
        final(a).rom@ == Seq::new(ROM_SIZE as nat, |i: int| 0u8).update(0x100, 0xc3),
{
    a.seek(ENTRY_POINT);
    a.emit_absolute16(0xc3, Label::Main);  // JP main
    a.seek(PROGRAM_START);
    assert(a.rom@ =~= Seq::new(ROM_SIZE as nat, |i: int| 0u8).update(0x100, 0xc3));
    assert(a.labels@ =~= program_labels_upto(0)) by {
        reveal_with_fuel(program_labels_upto, 1);
    }
    assert(a.fixups@ =~= program_fixups().take(1));
}

/// Sends the serial text, one byte at a time, waiting for each transfer to end.
fn emit_serial_output(a: &mut Assembler)
    requires
        assembled_up_to(old(a), 0x150, 0, 1),
    ensures
        assembled_up_to(final(a), 0x16D, 4, 5),
        final(a).rom@ == old(a).rom@.take(0x150) + serial_output_code() + old(a).rom@.skip(0x16D),
        keeps_prefix(old(a).rom@, final(a).rom@, PROGRAM_START as int),
{
    a.label(Label::Main);
    a.emit(
        &[
            0xf3,  // DI
            0x31,
            0xfe,
            0xff,  // LD SP, $FFFE
            0xaf,  // XOR A
            0xe0,
            0x40,  // LDH [$FF40], A; disable the LCD
        ],
    );
    a.emit_absolute16(0x21, Label::SerialText);  // LD HL, serial_text
    a.label(Label::SerialNext);
    a.emit(
        &[
            0x2a,  // LD A, [HL+]
            0xfe,
            0x00,  // CP 0
        ],
    );
    a.emit_relative8(0x28, Label::AfterSerial);  // JR Z, after_serial
    a.emit(
        &[
            0xe0,
            0x01,  // LDH [$FF01], A; SB
            0x3e,
            0x81,  // LD A, $81
            0xe0,
            0x02,  // LDH [$FF02], A; SC
        ],
    );
    a.label(Label::SerialWait);
    a.emit(
        &[
            0xf0,
            0x02,  // LDH A, [$FF02]
            0xe6,
            0x80,  // AND $80
        ],
    );
    a.emit_relative8(0x20, Label::SerialWait);  // JR NZ, serial_wait
    a.emit_relative8(0x18, Label::SerialNext);  // JR serial_next
    a.label(Label::AfterSerial);
    assert(a.labels@ =~= program_labels_upto(4)) by {
        reveal_with_fuel(program_labels_upto, 5);
    }
    assert(a.fixups@ =~= program_fixups().take(5));
    assert(a.rom@ =~= old(a).rom@.take(0x150) + serial_output_code() + old(a).rom@.skip(0x16D));
}

/// Copies the tile data to video RAM.
fn emit_tile_copy(a: &mut Assembler, tile_data_len: u16)
    requires
        assembled_up_to(old(a), 0x16D, 4, 5),
    ensures
        assembled_up_to(final(a), 0x17E, 5, 7),
        final(a).rom@ == old(a).rom@.take(0x16D) + tile_copy_code(tile_data_len) + old(a).rom@.skip(0x17E),
        keeps_prefix(old(a).rom@, final(a).rom@, PROGRAM_START as int),
{
    proof {
        reveal_with_fuel(program_labels_upto, 5);
    }
    a.emit_absolute16(0x11, Label::TileData);  // LD DE, tile_data
    a.emit(&[0x21]);  // LD HL, $8000
    a.emit(&le_bytes(TILE_DATA_DESTINATION));
    a.emit(&[0x01]);  // LD BC, tile_data_end - tile_data
    a.emit(&le_bytes(tile_data_len));
    a.label(Label::CopyTileData);
    a.emit(
        &[
            0x1a,  // LD A, [DE]
            0x13,  // INC DE
            0x22,  // LD [HL+], A
            0x0b,  // DEC BC
            0x78,  // LD A, B
            0xb1,  // OR C
        ],
    );
    a.emit_relative8(0x20, Label::CopyTileData);  // JR NZ, copy_tile_data
    assert(a.labels@ =~= program_labels_upto(5)) by {
        reveal_with_fuel(program_labels_upto, 6);
    }
    assert(a.fixups@ =~= program_fixups().take(7));
    assert(a.rom@ =~= old(a).rom@.take(0x16D) + tile_copy_code(tile_data_len) + old(a).rom@.skip(0x17E));
}

/// Clears the background map and writes the text tiles into it.
fn emit_map_setup(a: &mut Assembler, background_text_len: u16)
    requires
        assembled_up_to(old(a), 0x17E, 5, 7),
    ensures
        assembled_up_to(final(a), 0x19D, 7, 10),
        final(a).rom@ == old(a).rom@.take(0x17E) + map_setup_code(background_text_len) + old(a).rom@.skip(0x19D),
        keeps_prefix(old(a).rom@, final(a).rom@, PROGRAM_START as int),
{
    proof {
        reveal_with_fuel(program_labels_upto, 6);
    }
    a.emit(&[0x21]);  // LD HL, $9800
    a.emit(&le_bytes(TILE_MAP_START));
    a.emit(&[0x01, 0x00, 0x04]);  // LD BC, $0400
    a.label(Label::ClearTileMap);
    a.emit(
        &[
            0x36,
            0x00,  // LD [HL], 0
            0x23,  // INC HL
            0x0b,  // DEC BC
            0x78,  // LD A, B
            0xb1,  // OR C
        ],
    );
    a.emit_relative8(0x20, Label::ClearTileMap);  // JR NZ, clear_tile_map
    a.emit_absolute16(0x11, Label::BackgroundText);  // LD DE, background_text
    a.emit(&[0x21]);  // LD HL, text position in the background map
    a.emit(&le_bytes(TEXT_DESTINATION));
    a.emit(&[0x01]);  // LD BC, background text length
    a.emit(&le_bytes(background_text_len));
    a.label(Label::CopyBackgroundText);
    a.emit(
        &[
            0x1a,  // LD A, [DE]
            0x13,  // INC DE
            0x22,  // LD [HL+], A
            0x0b,  // DEC BC
            0x78,  // LD A, B
            0xb1,  // OR C
        ],
    );
    a.emit_relative8(0x20, Label::CopyBackgroundText);  // JR NZ, copy_background_text
    assert(a.labels@ =~= program_labels_upto(7)) by {
        reveal_with_fuel(program_labels_upto, 8);
    }
    assert(a.fixups@ =~= program_fixups().take(10));
    assert(a.rom@ =~= old(a).rom@.take(0x17E) + map_setup_code(background_text_len) + old(a).rom@.skip(0x19D));
}

/// Sets the palette, turns the LCD on and loops forever.
fn emit_display_on(a: &mut Assembler)
    requires
        assembled_up_to(old(a), 0x19D, 7, 10),
    ensures
        assembled_up_to(final(a), 0x1A7, 8, 11),
        final(a).rom@ == old(a).rom@.take(0x19D) + display_on_code() + old(a).rom@.skip(0x1A7),
        keeps_prefix(old(a).rom@, final(a).rom@, PROGRAM_START as int),
{
    proof {
        reveal_with_fuel(program_labels_upto, 8);
    }
    a.emit(
        &[
            0x3e,
            0xe4,  // LD A, $E4; identity DMG palette
            0xe0,
            0x47,  // LDH [$FF47], A; BGP
            0x3e,
            0x91,  // LD A, $91; LCD on, $8000 tiles, $9800 background
            0xe0,
            0x40,  // LDH [$FF40], A; LCDC
        ],
    );
    a.label(Label::Done);
    a.emit_relative8(0x18, Label::Done);  // JR done
    assert(a.labels@ =~= program_labels_upto(8)) by {
        reveal_with_fuel(program_labels_upto, 9);
    }
    assert(a.fixups@ =~= program_fixups().take(11));
    assert(a.rom@ =~= old(a).rom@.take(0x19D) + display_on_code() + old(a).rom@.skip(0x1A7));
}

/// The data after the program: tiles, background text and serial text.
fn emit_data(a: &mut Assembler, tiles: &Vec<u8>, text: [u8; 11], serial: [u8; 15])
    requires
        assembled_up_to(old(a), 0x1A7, 8, 11),
        tiles@.len() == 128,
    ensures
        assembled_up_to(final(a), 0x241, 11, 11),
        final(a).rom@ == old(a).rom@.take(0x1A7) + tiles@ + text@ + serial@ + old(a).rom@.skip(0x241),
        keeps_prefix(old(a).rom@, final(a).rom@, PROGRAM_START as int),
        final(a).rom@.subrange(0x232, 0x241) == serial@,
{
    proof {
        reveal_with_fuel(program_labels_upto, 9);
    }
    a.label(Label::TileData);
    a.emit(tiles.as_slice());
    a.label(Label::BackgroundText);
    a.emit(&text);
    a.label(Label::SerialText);
    a.emit(&serial);
    assert(a.labels@ =~= program_labels_upto(11)) by {
        reveal_with_fuel(program_labels_upto, 12);
    }
    assert(a.rom@.subrange(0x232, 0x241) =~= serial@);
    assert(a.rom@ =~= old(a).rom@.take(0x1A7) + tiles@ + text@ + serial@ + old(a).rom@.skip(0x241));
}

/// The program at 0x150 with its references written: send the serial text, copy the
/// tiles and the text into video RAM, turn the display on and loop.
pub open spec fn program_code() -> Seq<u8> {
    seq![
        0xf3u8, 0x31, 0xfe, 0xff, 0xaf, 0xe0, 0x40, 0x21, 0x32, 0x02, 0x2a, 0xfe, 0x00, 0x28, 0x0e,
        0xe0, 0x01, 0x3e, 0x81, 0xe0, 0x02, 0xf0, 0x02, 0xe6, 0x80, 0x20, 0xfa, 0x18, 0xed, 0x11,
        0xa7, 0x01, 0x21, 0x00, 0x80, 0x01, 0x80, 0x00, 0x1a, 0x13, 0x22, 0x0b, 0x78, 0xb1, 0x20,
        0xf8, 0x21, 0x00, 0x98, 0x01, 0x00, 0x04, 0x36, 0x00, 0x23, 0x0b, 0x78, 0xb1, 0x20, 0xf8,
        0x11, 0x27, 0x02, 0x21, 0x04, 0x99, 0x01, 0x0b, 0x00, 0x1a, 0x13, 0x22, 0x0b, 0x78, 0xb1,
        0x20, 0xf8, 0x3e, 0xe4, 0xe0, 0x47, 0x3e, 0x91, 0xe0, 0x40, 0x18, 0xfe,
    ]
}

/// The tile numbers of "HELLO WORLD" in the background map.
pub open spec fn background_tiles() -> Seq<u8> {
    seq![1u8, 2, 3, 3, 4, 0, 5, 4, 6, 3, 7]
}

/// Whether `rom` is the hello-world image: the jump at 0x100, the program at 0x150, then
/// the tile data (a blank tile and each glyph row written to both bitplanes), the
/// background tile numbers and the serial text, and zeros everywhere else.
pub open spec fn is_hello_world_image(rom: Seq<u8>) -> bool {
    &&& rom.len() == ROM_SIZE
    &&& rom.subrange(0x100, 0x103) == seq![0xc3u8, 0x50, 0x01]
    &&& rom.subrange(0x150, 0x1A7) == program_code()
    &&& forall|j: int| 0x1A7 <= j < 0x1B7 ==> #[trigger] rom[j] == 0
    &&& forall|g: int, r: int|
        0 <= g < 7 && 0 <= r < 8 ==> rom[0x1B7 + 16 * g + 2 * r] == glyph_rows()[g][r] && rom[0x1B7
            + 16 * g + 2 * r + 1] == glyph_rows()[g][r]
    &&& rom.subrange(0x227, 0x232) == background_tiles()
    &&& rom.subrange(0x232, 0x241) == hello_world_line().push(0)
    &&& forall|j: int|
        0 <= j < 0x100 || 0x103 <= j < 0x150 || 0x241 <= j < ROM_SIZE ==> #[trigger] rom[j] == 0
}

/// The ROM with the program's references written.
spec fn patched(rom: Seq<u8>) -> Seq<u8> {
    rom.update(0x101, 0x50).update(0x102, 0x01).update(0x158, 0x32).update(0x159, 0x02).update(
        0x15E,
        0x0e,
    ).update(0x16A, 0xfa).update(0x16C, 0xed).update(0x16E, 0xa7).update(0x16F, 0x01).update(
        0x17D,
        0xf8,
    ).update(0x18B, 0xf8).update(0x18D, 0x27).update(0x18E, 0x02).update(0x19C, 0xf8).update(
        0x1A6,
        0xfe,
    )
}

/// The program's references, written in order.
proof fn lemma_program_fixups(rom: Seq<u8>)
    requires
        rom.len() == ROM_SIZE,
    ensures
        apply_fixups(rom, program_fixups(), program_labels()) == patched(rom),
{
    reveal_with_fuel(apply_fixups, 12);
    reveal_with_fuel(program_labels_upto, 12);
    assert(apply_fixups(rom, program_fixups(), program_labels()) =~= patched(rom));
}

/// Writing the references into the unpatched code gives the program.
proof fn lemma_patched_code(rom: Seq<u8>)
    requires
        rom.len() == ROM_SIZE,
        rom.subrange(0x150, 0x1A7) == serial_output_code() + tile_copy_code(128) + map_setup_code(
            11,
        ) + display_on_code(),
    ensures
        patched(rom).subrange(0x150, 0x1A7) == program_code(),
{
    let code = serial_output_code() + tile_copy_code(128) + map_setup_code(11) + display_on_code();
    assert(code =~= seq![
        0xf3u8, 0x31, 0xfe, 0xff, 0xaf, 0xe0, 0x40, 0x21, 0x00, 0x00, 0x2a, 0xfe, 0x00, 0x28, 0x00,
        0xe0, 0x01, 0x3e, 0x81, 0xe0, 0x02, 0xf0, 0x02, 0xe6, 0x80, 0x20, 0x00, 0x18, 0x00, 0x11,
        0x00, 0x00, 0x21, 0x00, 0x80, 0x01, 0x80, 0x00, 0x1a, 0x13, 0x22, 0x0b, 0x78, 0xb1, 0x20,
        0x00, 0x21, 0x00, 0x98, 0x01, 0x00, 0x04, 0x36, 0x00, 0x23, 0x0b, 0x78, 0xb1, 0x20, 0x00,
        0x11, 0x00, 0x00, 0x21, 0x04, 0x99, 0x01, 0x0b, 0x00, 0x1a, 0x13, 0x22, 0x0b, 0x78, 0xb1,
        0x20, 0x00, 0x3e, 0xe4, 0xe0, 0x47, 0x3e, 0x91, 0xe0, 0x40, 0x18, 0x00,
    ]);
    assert forall|j: int| 0 <= j < 0x57 implies #[trigger] patched(rom).subrange(0x150, 0x1A7)[j]
        == program_code()[j] by {
        assert(rom[0x150 + j] == code[j]);
    }
    assert(patched(rom).subrange(0x150, 0x1A7) =~= program_code());
}

/// Assembles the ROM: 32 KiB, a jump from the entry point over an empty cartridge header
/// (no official logo) to a program that prints "Hello, World!" over the serial port and
/// shows "HELLO WORLD" on the screen.
pub fn build_rom() -> (rom: Vec<u8>)
    ensures
        is_hello_world_image(rom@),
        rom@[ENTRY_POINT as int] == 0xc3,
        rom@[ENTRY_POINT + 1] + 256 * rom@[ENTRY_POINT + 2] == PROGRAM_START,
{
    let mut a = Assembler::new();
    emit_entry(&mut a);
    let ghost b1 = a.rom@;
    emit_serial_output(&mut a);
    let ghost b2 = a.rom@;
    let glyph_table = glyphs();
    let tiles = tile_data(&glyph_table);
    emit_tile_copy(&mut a, tiles.len() as u16);
    let ghost b3 = a.rom@;
    let text = background_text();
    emit_map_setup(&mut a, text.as_slice().len() as u16);
    let ghost b4 = a.rom@;
    emit_display_on(&mut a);
    let ghost b5 = a.rom@;
    let serial = serial_text();
    emit_data(&mut a, &tiles, text, serial);
    let ghost before = a.rom@;
    proof {
        assert(a.fixups@ =~= program_fixups());
        assert(a.labels@ =~= program_labels());
        assert(all_resolvable(ROM_SIZE as int, program_labels(), program_fixups())) by {
            reveal_with_fuel(all_resolvable, 12);
            reveal_with_fuel(program_labels_upto, 12);
        }
        lemma_all_resolvable(ROM_SIZE as int, program_labels(), program_fixups());
    }
    let rom = a.finish();
    proof {
        lemma_program_fixups(before);
        assert(rom@ == patched(before));
        assert(tiles.len() as u16 == 128u16);
        assert(before.subrange(0x150, 0x1A7) =~= serial_output_code() + tile_copy_code(128)
            + map_setup_code(11) + display_on_code());
        lemma_patched_code(before);
        assert(rom@.subrange(0x100, 0x103) =~= seq![0xc3u8, 0x50, 0x01]);
        assert(before.subrange(0x1A7, 0x227) =~= tiles@);
        assert forall|j: int| 0x1A7 <= j < 0x1B7 implies #[trigger] rom@[j] == 0 by {
            assert(before[j] == tiles@[j - 0x1A7]);
        }
        assert forall|g: int, r: int| 0 <= g < 7 && 0 <= r < 8 implies rom@[0x1B7 + 16 * g + 2
            * r] == glyph_rows()[g][r] && rom@[0x1B7 + 16 * g + 2 * r + 1] == glyph_rows()[g][r] by {
            assert(before[0x1B7 + 16 * g + 2 * r] == tiles@[16 + 16 * g + 2 * r]);
            assert(before[0x1B7 + 16 * g + 2 * r + 1] == tiles@[16 + 16 * g + 2 * r + 1]);
            assert(glyph_table[g][r] == glyph_rows()[g][r]);
        }
        assert(rom@.subrange(0x227, 0x232) =~= background_tiles());
        assert(rom@.subrange(0x232, 0x241) =~= hello_world_line().push(0));
        assert forall|j: int| 0 <= j < 0x100 || 0x103 <= j < 0x150 || 0x241 <= j < ROM_SIZE implies #[trigger] rom@[j] == 0 by {
            assert(rom@[j] == before[j]);
        }
    }
    rom
}

} // verus!
