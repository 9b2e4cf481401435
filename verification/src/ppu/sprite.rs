//! Objects (sprites): their attributes, their decoding from OAM, and the order
//! in which a scanline draws them.
use vstd::prelude::*;

use crate::cpu::registers::flag_weight;

verus! {

/// The attribute byte of an object.
#[derive(Clone, Copy, Debug, PartialEq, Eq, Structural)]
pub struct SpriteAttributes {
    pub priority: bool,
    pub y_flip: bool,
    pub x_flip: bool,
    pub palette_number: u8,
    pub fetch_tile_from_bank_1: bool,
    pub cgb_palette_number: u8,
}

impl SpriteAttributes {
    /// The attributes that an OAM attribute byte holds.
    pub open spec fn spec_from_byte(value: u8) -> SpriteAttributes {
        SpriteAttributes {
            priority: value & 0x80 != 0,
            y_flip: value & 0x40 != 0,
            x_flip: value & 0x20 != 0,
            palette_number: (value & 0x10) >> 4,
            fetch_tile_from_bank_1: value & 0x08 != 0,
            cgb_palette_number: value & 0x07,
        }
    }

    /// The attribute byte that these attributes pack into.
    pub open spec fn spec_to_byte(self) -> int {
        flag_weight(self.priority, 0x80) + flag_weight(self.y_flip, 0x40) + flag_weight(
            self.x_flip,
            0x20,
        ) + (self.palette_number % 2) * 0x10 + flag_weight(self.fetch_tile_from_bank_1, 0x08) + (
        self.cgb_palette_number % 8)
    }

    pub fn from_byte(value: u8) -> (attributes: Self)
        ensures
            attributes == Self::spec_from_byte(value),
    {
        SpriteAttributes {
            priority: value & 0b1000_0000 != 0,
            y_flip: value & 0b0100_0000 != 0,
            x_flip: value & 0b0010_0000 != 0,
            palette_number: (value & 0b0001_0000) >> 4,
            fetch_tile_from_bank_1: value & 0b0000_1000 != 0,
            cgb_palette_number: value & 0b0000_0111,
        }
    }

    pub fn to_byte(&self) -> (value: u8)
        ensures
            value == self.spec_to_byte(),
    {
        let b7: u8 = if self.priority { 0x80 } else { 0 };
        let b6: u8 = if self.y_flip { 0x40 } else { 0 };
        let b5: u8 = if self.x_flip { 0x20 } else { 0 };
        let b4: u8 = (self.palette_number & 0b0000_0001) << 4;
        let b3: u8 = if self.fetch_tile_from_bank_1 { 0x08 } else { 0 };
        let low: u8 = self.cgb_palette_number & 0b0000_0111;
        let p = self.palette_number;
        let c = self.cgb_palette_number;
        assert(b4 == (p % 2) * 0x10 && low == c % 8 && b7 | b6 | b5 | b4 | b3 | low == b7 + b6
            + b5 + b4 + b3 + low) by (bit_vector)
            requires
                b4 == (p & 1) << 4,
                low == c & 7,
                b7 == 0 || b7 == 0x80,
                b6 == 0 || b6 == 0x40,
                b5 == 0 || b5 == 0x20,
                b3 == 0 || b3 == 0x08,
        ;
        b7 | b6 | b5 | b4 | b3 | low
    }
}

impl From<u8> for SpriteAttributes {
    fn from(value: u8) -> (converted: Self) {
        Self::from_byte(value)
    }
}

impl vstd::std_specs::convert::FromSpecImpl<u8> for SpriteAttributes {
    open spec fn obeys_from_spec() -> bool {
        true
    }

    open spec fn from_spec(value: u8) -> Self {
        Self::spec_from_byte(value)
    }
}

impl From<&SpriteAttributes> for u8 {
    fn from(attributes: &SpriteAttributes) -> (value: u8) {
        attributes.to_byte()
    }
}

impl vstd::std_specs::convert::FromSpecImpl<&SpriteAttributes> for u8 {
    open spec fn obeys_from_spec() -> bool {
        true
    }

    open spec fn from_spec(attributes: &SpriteAttributes) -> u8 {
        attributes.spec_to_byte() as u8
    }
}

/// The bits of an object's attribute byte: 7 behind the background, 6 flipped vertically,
/// 5 flipped horizontally, 4 the palette, 3 the VRAM bank, 2 to 0 the colour palette.
pub proof fn lemma_sprite_attribute_bits(a: SpriteAttributes)
    ensures
        (a.spec_to_byte() / 128) % 2 == (if a.priority { 1int } else { 0int }),
        (a.spec_to_byte() / 64) % 2 == (if a.y_flip { 1int } else { 0int }),
        (a.spec_to_byte() / 32) % 2 == (if a.x_flip { 1int } else { 0int }),
        (a.spec_to_byte() / 16) % 2 == a.palette_number % 2,
        (a.spec_to_byte() / 8) % 2 == (if a.fetch_tile_from_bank_1 { 1int } else { 0int }),
        a.spec_to_byte() % 8 == a.cgb_palette_number % 8,
{
}

/// Decoding an attribute byte and packing it again gives the same byte.
pub proof fn lemma_sprite_attributes_round_trip(value: u8)
    ensures
        SpriteAttributes::spec_from_byte(value).spec_to_byte() == value,
{
    let a = SpriteAttributes::spec_from_byte(value);
    let b7: u8 = if a.priority { 0x80 } else { 0 };
    let b6: u8 = if a.y_flip { 0x40 } else { 0 };
    let b5: u8 = if a.x_flip { 0x20 } else { 0 };
    let b3: u8 = if a.fetch_tile_from_bank_1 { 0x08 } else { 0 };
    let p = a.palette_number;
    let c = a.cgb_palette_number;
    assert(p % 2 == p && c % 8 == c && p < 2) by (bit_vector)
        requires
            p == (value & 0x10) >> 4,
            c == value & 0x07,
    ;
    assert(value == b7 + b6 + b5 + p * 0x10 + b3 + c) by (bit_vector)
        requires
            b7 == (if value & 0x80 != 0 { 0x80u8 } else { 0u8 }),
            b6 == (if value & 0x40 != 0 { 0x40u8 } else { 0u8 }),
            b5 == (if value & 0x20 != 0 { 0x20u8 } else { 0u8 }),
            b3 == (if value & 0x08 != 0 { 0x08u8 } else { 0u8 }),
            p == (value & 0x10) >> 4,
            c == value & 0x07,
    ;
}

/// One object: its position (Y is stored plus 16, X plus 8), its tile and its attributes.
#[derive(Clone, Copy, Debug, PartialEq, Eq, Structural)]
pub struct Sprite {
    pub y: u8,
    pub x: u8,
    pub tile_index: u8,
    pub attributes: SpriteAttributes,
}

impl Sprite {
    /// The object that four OAM bytes describe.
    pub open spec fn spec_from_bytes(data: [u8; 4]) -> Sprite {
        Sprite {
            y: data[0],
            x: data[1],
            tile_index: data[2],
            attributes: SpriteAttributes::spec_from_byte(data[3]),
        }
    }

    pub fn from_bytes(data: [u8; 4]) -> (sprite: Self)
        ensures
            sprite == Self::spec_from_bytes(data),
    {
        Sprite {
            y: data[0],
            x: data[1],
            tile_index: data[2],
            attributes: SpriteAttributes::from_byte(data[3]),
        }
    }
}

impl From<[u8; 4]> for Sprite {
    fn from(data: [u8; 4]) -> (sprite: Self) {
        Self::from_bytes(data)
    }
}

impl vstd::std_specs::convert::FromSpecImpl<[u8; 4]> for Sprite {
    open spec fn obeys_from_spec() -> bool {
        true
    }

    open spec fn from_spec(data: [u8; 4]) -> Self {
        Self::spec_from_bytes(data)
    }
}

/// The drawing order of objects: by X, and by tile index among objects with the same X.
pub open spec fn sprite_le(a: Sprite, b: Sprite) -> bool {
    a.x < b.x || (a.x == b.x && a.tile_index <= b.tile_index)
}

/// Whether a sequence of objects is in drawing order.
pub open spec fn sprites_sorted(s: Seq<Sprite>) -> bool {
    forall|i: int, j: int| 0 <= i < j < s.len() ==> sprite_le(#[trigger] s[i], #[trigger] s[j])
}

/// Inserts an object into a sorted sequence after every object that does not come after it.
pub open spec fn insert_sprite(s: Seq<Sprite>, sprite: Sprite) -> Seq<Sprite>
    decreases s.len(),
{
    if s.len() == 0 {
        seq![sprite]
    } else if sprite_le(s.last(), sprite) {
        s.push(sprite)
    } else {
        insert_sprite(s.drop_last(), sprite).push(s.last())
    }
}

/// The stable sort of a sequence of objects into drawing order.
pub open spec fn sort_sprites(s: Seq<Sprite>) -> Seq<Sprite>
    decreases s.len(),
{
    if s.len() == 0 {
        s
    } else {
        insert_sprite(sort_sprites(s.drop_last()), s.last())
    }
}

/// The objects of `sprites` whose X equals `x`, in their order.
pub open spec fn sprites_at(sprites: Seq<Sprite>, x: u8) -> Seq<Sprite> {
    sprites.filter(|sprite: Sprite| sprite.x == x)
}

proof fn lemma_insert_sprite_bounded(s: Seq<Sprite>, sprite: Sprite, bound: Sprite)
    requires
        forall|i: int| 0 <= i < s.len() ==> sprite_le(#[trigger] s[i], bound),
        sprite_le(sprite, bound),
    ensures
        forall|i: int|
            0 <= i < insert_sprite(s, sprite).len() ==> sprite_le(
                #[trigger] insert_sprite(s, sprite)[i],
                bound,
            ),
    decreases s.len(),
{
    if s.len() == 0 {
        assert(insert_sprite(s, sprite) =~= seq![sprite]);
    } else if sprite_le(s.last(), sprite) {
        assert(insert_sprite(s, sprite) =~= s.push(sprite));
    } else {
        let t = s.drop_last();
        assert(forall|i: int| 0 <= i < t.len() ==> #[trigger] t[i] == s[i]);
        lemma_insert_sprite_bounded(t, sprite, bound);
        let r = insert_sprite(t, sprite);
        assert(insert_sprite(s, sprite) =~= r.push(s.last()));
        assert(sprite_le(s[s.len() - 1], bound));
    }
}

/// Inserting into a sorted sequence keeps it sorted, adds exactly the one object
/// and keeps the others.
pub proof fn lemma_insert_sprite(s: Seq<Sprite>, sprite: Sprite)
    requires
        sprites_sorted(s),
    ensures
        sprites_sorted(insert_sprite(s, sprite)),
        insert_sprite(s, sprite).to_multiset() =~= s.to_multiset().insert(sprite),
        insert_sprite(s, sprite).len() == s.len() + 1,
    decreases s.len(),
{
    broadcast use vstd::seq_lib::group_to_multiset_ensures;

    if s.len() == 0 {
        assert(seq![sprite] =~= Seq::<Sprite>::empty().push(sprite));
    } else if sprite_le(s.last(), sprite) {
    } else {
        let t = s.drop_last();
        assert(s =~= t.push(s.last()));
        lemma_insert_sprite(t, sprite);
        lemma_insert_sprite_bounded(t, sprite, s.last());
    }
}

/// The sort gives a sorted permutation of its input.
pub proof fn lemma_sort_sprites(s: Seq<Sprite>)
    ensures
        sprites_sorted(sort_sprites(s)),
        sort_sprites(s).to_multiset() =~= s.to_multiset(),
        sort_sprites(s).len() == s.len(),
    decreases s.len(),
{
    broadcast use vstd::seq_lib::group_to_multiset_ensures;

    if s.len() > 0 {
        let t = s.drop_last();
        assert(s =~= t.push(s.last()));
        lemma_sort_sprites(t);
        lemma_insert_sprite(sort_sprites(t), s.last());
    }
}

/// Sorts objects into drawing order, keeping the order of objects with equal keys.
pub fn sort_sprites_in_place(sprites: &mut Vec<Sprite>)
    ensures
        final(sprites)@ == sort_sprites(old(sprites)@),
{
    let mut result: Vec<Sprite> = Vec::new();
    let mut i: usize = 0;
    while i < sprites.len()
        invariant
            i <= sprites.len(),
            result@ == sort_sprites(sprites@.take(i as int)),
        decreases sprites.len() - i,
    {
        let sprite = sprites[i];
        let ghost before = result@;
        let mut j: usize = result.len();
        assert(before.take(j as int) =~= before);
        assert(before.skip(j as int) =~= Seq::<Sprite>::empty());
        while j > 0 && !(result[j - 1].x < sprite.x || (result[j - 1].x == sprite.x
            && result[j - 1].tile_index <= sprite.tile_index))
            invariant
                j <= result.len(),
                result@ == before,
                insert_sprite(before, sprite) == insert_sprite(before.take(j as int), sprite)
                    + before.skip(j as int),
            decreases j,
        {
            let ghost t = before.take(j as int);
            assert(t.drop_last() =~= before.take(j - 1));
            assert(before.skip(j - 1) =~= seq![t.last()] + before.skip(j as int));
            assert(insert_sprite(t, sprite) == insert_sprite(before.take(j - 1), sprite).push(
                t.last(),
            ));
            assert(insert_sprite(t, sprite) + before.skip(j as int) =~= insert_sprite(
                before.take(j - 1),
                sprite,
            ) + before.skip(j - 1));
            j = j - 1;
        }
        proof {
            let t = before.take(j as int);
            if j > 0 {
                assert(insert_sprite(t, sprite) == t.push(sprite));
            } else {
                assert(insert_sprite(t, sprite) =~= seq![sprite]);
            }
        }
        result.insert(j, sprite);
        proof {
            let s = sprites@.take(i + 1);
            assert(s.drop_last() =~= sprites@.take(i as int));
            assert(result@ =~= before.take(j as int).push(sprite) + before.skip(j as int));
        }
        i = i + 1;
    }
    assert(sprites@.take(sprites.len() as int) =~= sprites@);
    *sprites = result;
}

/// The objects whose X equals `x`, in their order.
pub fn sprites_at_x(sprites: &Vec<Sprite>, x: u8) -> (found: Vec<Sprite>)
    ensures
        found@ == sprites_at(sprites@, x),
{
    let mut found: Vec<Sprite> = Vec::new();
    let mut i: usize = 0;
    while i < sprites.len()
        invariant
            i <= sprites.len(),
            found@ == sprites_at(sprites@.take(i as int), x),
        decreases sprites.len() - i,
    {
        proof {
            let pred = |sprite: Sprite| sprite.x == x;
            assert(sprites@.take(i + 1) =~= sprites@.take(i as int).push(sprites@[i as int]));
            sprites@.take(i as int).lemma_filter_push(sprites@[i as int], pred);
        }
        if sprites[i].x == x {
            found.push(sprites[i]);
        }
        i = i + 1;
    }
    assert(sprites@.take(sprites.len() as int) =~= sprites@);
    found
}

} // verus!
