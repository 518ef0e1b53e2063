//! The column scan: picks the one visible surface of a stack of voxels.
//!
//! A column is the run of voxels under one grid cell, ordered from the one
//! nearest the viewer to the farthest. The scan walks it in that order. A
//! decoration never hides what lies below it, but the first decoration found
//! gives the column its glyph. The first solid block ends the scan and gives
//! the column its colour, and its glyph when no decoration came before it.
use vstd::prelude::*;
use crate::glyph::{
    Rgb, SpriteKind, spec_sky_rgb, spec_solid_color, spec_sprite_glyph, spec_tier_glyph,
    sky_rgb, solid_color, sprite_glyph, tier_glyph, FALLBACK_GLYPH,
};

verus! {

/// How many layers above the viewer's level a scan starts.
pub const SCAN_ABOVE: i64 = 2;

/// How many layers a scan looks at.
pub const SCAN_DEPTH: usize = 18;

/// What the world holds at one place of a column.
#[derive(Clone, Copy, Debug, PartialEq, Eq, Structural)]
pub enum Voxel {
    /// Not loaded, or outside the world.
    Absent,
    /// Passable and bare.
    Air,
    /// Passable, carrying a decoration.
    Decorated(SpriteKind),
    /// A filled block, with its colour if it has one.
    Solid { color: Option<Rgb>, fluid: bool },
}

/// What a column shows: its glyph, its colour, and the scan position of the
/// solid block that ended the scan, if one did.
#[derive(Clone, Copy, Debug, PartialEq, Eq, Structural)]
pub struct ColumnSample {
    pub glyph: char,
    pub color: Rgb,
    pub depth: Option<usize>,
}

/// The rest of a scan from position `k` on, with `deco` the glyph of the
/// first decoration met so far. `top_z` is the world height, in blocks, of
/// position 0; position `k` lies at `top_z - k`.
pub open spec fn scan_from(col: Seq<Voxel>, top_z: int, k: int, deco: Option<char>) -> ColumnSample
    decreases col.len() - k,
{
    if k < 0 || k >= col.len() {
        ColumnSample {
            glyph: match deco {
                Some(g) => g,
                None => FALLBACK_GLYPH,
            },
            color: spec_sky_rgb(),
            depth: None,
        }
    } else {
        match col[k] {
            Voxel::Decorated(s) => scan_from(
                col,
                top_z,
                k + 1,
                match deco {
                    Some(g) => Some(g),
                    None => Some(spec_sprite_glyph(s)),
                },
            ),
            Voxel::Solid { color, fluid } => ColumnSample {
                glyph: match deco {
                    Some(g) => g,
                    None => spec_tier_glyph(k, top_z - k),
                },
                color: spec_solid_color(color, fluid),
                depth: Some(k as usize),
            },
            _ => scan_from(col, top_z, k + 1, deco),
        }
    }
}

/// What the column `col`, whose first voxel lies at height `top_z`, shows.
pub open spec fn spec_sample_column(col: Seq<Voxel>, top_z: int) -> ColumnSample {
    scan_from(col, top_z, 0, None)
}

/// Scans `column`, nearest voxel first, and returns what it shows.
pub fn sample_column(column: &Vec<Voxel>, top_z: i64) -> (r: ColumnSample)
    requires
        column.len() <= 0x1_0000,
        -0x7fff_ffff_0000_0000 <= top_z,
    ensures
        r == spec_sample_column(column@, top_z as int),
{
    let mut deco: Option<char> = None;
    let mut k: usize = 0;
    while k < column.len()
        invariant
            k <= column.len(),
            column.len() <= 0x1_0000,
            -0x7fff_ffff_0000_0000 <= top_z,
            spec_sample_column(column@, top_z as int) == scan_from(column@, top_z as int, k as int, deco),
        decreases column.len() - k,
    {
        match column[k] {
            Voxel::Decorated(s) => {
                if deco.is_none() {
                    deco = Some(sprite_glyph(s));
                }
            },
            Voxel::Solid { color, fluid } => {
                let glyph = match deco {
                    Some(g) => g,
                    None => tier_glyph(k, top_z - k as i64),
                };
                return ColumnSample { glyph, color: solid_color(color, fluid), depth: Some(k) };
            },
            _ => {},
        }
        k = k + 1;
    }
    let glyph = match deco {
        Some(g) => g,
        None => FALLBACK_GLYPH,
    };
    ColumnSample { glyph, color: sky_rgb(), depth: None }
}

proof fn lemma_scan_depth(col: Seq<Voxel>, top_z: int, k: int, deco: Option<char>)
    requires
        0 <= k,
        col.len() <= usize::MAX,
    ensures
        ({
            let r = scan_from(col, top_z, k, deco);
            &&& r.depth matches Some(d) ==> k <= d < col.len() && col[d as int] is Solid
                && forall|j: int| k <= j < d ==> !(#[trigger] col[j] is Solid)
            &&& r.depth is None ==> forall|j: int| k <= j < col.len() ==> !(#[trigger] col[j] is Solid)
        }),
    decreases col.len() - k,
{
    if k < col.len() {
        match col[k] {
            Voxel::Solid { .. } => {},
            Voxel::Decorated(s) => {
                let next = match deco {
                    Some(g) => Some(g),
                    None => Some(spec_sprite_glyph(s)),
                };
                lemma_scan_depth(col, top_z, k + 1, next);
            },
            _ => {
                lemma_scan_depth(col, top_z, k + 1, deco);
            },
        }
    }
}

/// Near-to-far precedence: the block a column shows is the first solid block
/// of the column, and a column shows no block only when it holds none.
pub proof fn lemma_first_solid_wins(col: Seq<Voxel>, top_z: int)
    requires
        col.len() <= usize::MAX,
    ensures
        ({
            let r = spec_sample_column(col, top_z);
            &&& r.depth matches Some(d) ==> d < col.len() && col[d as int] is Solid
                && forall|j: int| 0 <= j < d ==> !(#[trigger] col[j] is Solid)
            &&& r.depth is None ==> forall|j: int| 0 <= j < col.len() ==> !(#[trigger] col[j] is Solid)
        }),
{
    lemma_scan_depth(col, top_z, 0, None);
}

proof fn lemma_scan_keeps_glyph(col: Seq<Voxel>, top_z: int, k: int, g: char)
    requires
        0 <= k,
    ensures
        scan_from(col, top_z, k, Some(g)).glyph == g,
    decreases col.len() - k,
{
    if k < col.len() {
        match col[k] {
            Voxel::Solid { .. } => {},
            _ => {
                lemma_scan_keeps_glyph(col, top_z, k + 1, g);
            },
        }
    }
}

proof fn lemma_scan_reaches(col: Seq<Voxel>, top_z: int, k: int, d: int)
    requires
        0 <= k <= d < col.len(),
        forall|j: int| k <= j < d ==> (#[trigger] col[j] is Air || col[j] is Absent),
    ensures
        scan_from(col, top_z, k, None) == scan_from(col, top_z, d, None),
    decreases d - k,
{
    if k < d {
        lemma_scan_reaches(col, top_z, k + 1, d);
    }
}

/// Decoration priority: when the first voxel that is not bare or absent is a
/// decoration, the column shows that decoration's glyph, whatever solid
/// block the scan meets below it.
pub proof fn lemma_decoration_kept(col: Seq<Voxel>, top_z: int, d: int)
    requires
        0 <= d < col.len(),
        col[d] is Decorated,
        forall|j: int| 0 <= j < d ==> (#[trigger] col[j] is Air || col[j] is Absent),
    ensures
        spec_sample_column(col, top_z).glyph == spec_sprite_glyph(col[d]->Decorated_0),
{
    lemma_scan_reaches(col, top_z, 0, d);
    lemma_scan_keeps_glyph(col, top_z, d + 1, spec_sprite_glyph(col[d]->Decorated_0));
}

} // verus!
