//! Glyph and colour tables for sprites, entity bodies and solid blocks.
use vstd::prelude::*;

verus! {

/// A foreground colour as red, green and blue.
#[derive(Clone, Copy, Debug, PartialEq, Eq, Structural)]
pub struct Rgb {
    pub r: u8,
    pub g: u8,
    pub b: u8,
}

/// The neutral colour: used for fluids and for blocks without a colour.
pub open spec fn spec_unit_rgb() -> Rgb {
    Rgb { r: 1, g: 1, b: 1 }
}

/// The colour of a column in which no solid block was found.
pub open spec fn spec_sky_rgb() -> Rgb {
    Rgb { r: 0, g: 255, b: 255 }
}

pub fn unit_rgb() -> (r: Rgb)
    ensures
        r == spec_unit_rgb(),
{
    Rgb { r: 1, g: 1, b: 1 }
}

pub fn sky_rgb() -> (r: Rgb)
    ensures
        r == spec_sky_rgb(),
{
    Rgb { r: 0, g: 255, b: 255 }
}

/// The decoration that a passable block carries, grouped into the bands that
/// the display tells apart.
#[derive(Clone, Copy, Debug, PartialEq, Eq, Structural)]
pub enum SpriteKind {
    Apple,
    Sunflower,
    Mushroom,
    Velorite,
    VeloriteFrag,
    Chest,
    Crate,
    Stones,
    Twigs,
    Amethyst,
    Ruby,
    Beehive,
    /// Any flower, grass, cactus or crop.
    Flower,
    /// Any window, table, bed or other furniture.
    Furniture,
    /// A decoration that no band covers.
    Unclassified,
}

/// The kind of body an entity has.
#[derive(Clone, Copy, Debug, PartialEq, Eq, Structural)]
pub enum BodyKind {
    Humanoid,
    QuadrupedLow,
    QuadrupedSmall,
    QuadrupedMedium,
    BirdMedium,
    BirdLarge,
    FishSmall,
    FishMedium,
    BipedLarge,
    BipedSmall,
    Object,
    Golem,
    Dragon,
    Theropod,
    Ship,
    Arthropod,
    ItemDrop,
}

/// The glyph shown where nothing else applies.
pub const FALLBACK_GLYPH: char = '?';

pub open spec fn spec_sprite_glyph(k: SpriteKind) -> char {
    match k {
        SpriteKind::Apple => 'a',
        SpriteKind::Sunflower => 'u',
        SpriteKind::Mushroom => 'm',
        SpriteKind::Velorite | SpriteKind::VeloriteFrag => 'v',
        SpriteKind::Chest | SpriteKind::Crate => 'c',
        SpriteKind::Stones => 's',
        SpriteKind::Twigs => 't',
        SpriteKind::Amethyst | SpriteKind::Ruby => 'g',
        SpriteKind::Beehive => 'b',
        SpriteKind::Flower => '%',
        SpriteKind::Furniture => '&',
        SpriteKind::Unclassified => '?',
    }
}

pub open spec fn spec_body_glyph(b: BodyKind) -> char {
    match b {
        BodyKind::Humanoid => '@',
        BodyKind::QuadrupedLow => '4',
        BodyKind::QuadrupedSmall => 'q',
        BodyKind::QuadrupedMedium => 'Q',
        BodyKind::BirdMedium => 'b',
        BodyKind::BirdLarge => 'B',
        BodyKind::FishSmall => 'f',
        BodyKind::FishMedium => 'F',
        BodyKind::BipedLarge | BodyKind::BipedSmall => '2',
        BodyKind::Object => 'o',
        BodyKind::Golem => 'G',
        BodyKind::Dragon => 'D',
        BodyKind::Theropod => 'T',
        BodyKind::Ship => 'S',
        BodyKind::Arthropod => 'A',
        BodyKind::ItemDrop => 'I',
    }
}

/// The glyphs of the first solid blocks a column scan meets, nearest first.
pub open spec fn spec_tier_glyphs() -> Seq<char> {
    seq!['#', '+', '=']
}

/// The glyph of a solid block found at scan position `k`, at world height
/// `z` (in blocks): a staircase marker for the first three positions, then a
/// marker by the parity of the height.
pub open spec fn spec_tier_glyph(k: int, z: int) -> char {
    if 0 <= k < 3 {
        spec_tier_glyphs()[k]
    } else if z % 2 == 0 {
        'O'
    } else {
        '0'
    }
}

/// The colour of a solid block: neutral for a fluid, else its own colour,
/// neutral where it has none.
pub open spec fn spec_solid_color(color: Option<Rgb>, fluid: bool) -> Rgb {
    if fluid {
        spec_unit_rgb()
    } else {
        match color {
            Some(c) => c,
            None => spec_unit_rgb(),
        }
    }
}

/// A glyph that shows on the terminal: printable ASCII other than a space.
pub open spec fn is_visible_glyph(c: char) -> bool {
    '!' <= c <= '~'
}

pub fn sprite_glyph(k: SpriteKind) -> (r: char)
    ensures
        r == spec_sprite_glyph(k),
{
    match k {
        SpriteKind::Apple => 'a',
        SpriteKind::Sunflower => 'u',
        SpriteKind::Mushroom => 'm',
        SpriteKind::Velorite | SpriteKind::VeloriteFrag => 'v',
        SpriteKind::Chest | SpriteKind::Crate => 'c',
        SpriteKind::Stones => 's',
        SpriteKind::Twigs => 't',
        SpriteKind::Amethyst | SpriteKind::Ruby => 'g',
        SpriteKind::Beehive => 'b',
        SpriteKind::Flower => '%',
        SpriteKind::Furniture => '&',
        SpriteKind::Unclassified => FALLBACK_GLYPH,
    }
}

pub fn body_glyph(b: BodyKind) -> (r: char)
    ensures
        r == spec_body_glyph(b),
{
    match b {
        BodyKind::Humanoid => '@',
        BodyKind::QuadrupedLow => '4',
        BodyKind::QuadrupedSmall => 'q',
        BodyKind::QuadrupedMedium => 'Q',
        BodyKind::BirdMedium => 'b',
        BodyKind::BirdLarge => 'B',
        BodyKind::FishSmall => 'f',
        BodyKind::FishMedium => 'F',
        BodyKind::BipedLarge | BodyKind::BipedSmall => '2',
        BodyKind::Object => 'o',
        BodyKind::Golem => 'G',
        BodyKind::Dragon => 'D',
        BodyKind::Theropod => 'T',
        BodyKind::Ship => 'S',
        BodyKind::Arthropod => 'A',
        BodyKind::ItemDrop => 'I',
    }
}

pub fn tier_glyph(k: usize, z: i64) -> (r: char)
    ensures
        r == spec_tier_glyph(k as int, z as int),
{
    if k == 0 {
        '#'
    } else if k == 1 {
        '+'
    } else if k == 2 {
        '='
    } else if z % 2 == 0 {
        'O'
    } else {
        '0'
    }
}

pub fn solid_color(color: Option<Rgb>, fluid: bool) -> (r: Rgb)
    ensures
        r == spec_solid_color(color, fluid),
{
    if fluid {
        unit_rgb()
    } else {
        match color {
            Some(c) => c,
            None => unit_rgb(),
        }
    }
}

/// Every sprite, every body and every scan position yields a visible glyph:
/// the tables have no gap.
pub proof fn lemma_classifier_total(k: SpriteKind, b: BodyKind, tier: int, z: int)
    ensures
        is_visible_glyph(spec_sprite_glyph(k)),
        is_visible_glyph(spec_body_glyph(b)),
        is_visible_glyph(spec_tier_glyph(tier, z)),
        is_visible_glyph(FALLBACK_GLYPH),
{
    if 0 <= tier < 3 {
        assert(spec_tier_glyphs()[tier] == '#' || spec_tier_glyphs()[tier] == '+'
            || spec_tier_glyphs()[tier] == '=');
    }
}

} // verus!
