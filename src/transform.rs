//! Conversion between world positions and character-grid cells.
//!
//! World positions are fixed-point: one block is `SUBDIV` sub-units. The zoom
//! factor is the positive rational `num / den`: one grid cell spans `num / den`
//! blocks. The vertical screen axis runs opposite to the world's `y` axis.
use vstd::prelude::*;

verus! {

/// Number of sub-units in one world block.
pub const SUBDIV: i64 = 256;

/// Largest numerator or denominator a zoom factor may have, so that the
/// conversions stay within 64-bit arithmetic.
pub const ZOOM_PART_MAX: u32 = 1048576;

/// A zoom factor `num / den`: how many blocks one grid cell spans.
#[derive(Clone, Copy, Debug, PartialEq, Eq, Structural)]
pub struct Zoom {
    pub num: u32,
    pub den: u32,
}

impl Zoom {
    pub open spec fn wf(self) -> bool {
        1 <= self.num <= ZOOM_PART_MAX && 1 <= self.den <= ZOOM_PART_MAX
    }

    /// The zoom factor one: one block per cell.
    pub fn unit() -> (r: Zoom)
        ensures
            r.wf(),
            r.num == 1 && r.den == 1,
    {
        Zoom { num: 1, den: 1 }
    }
}

/// Size of the character grid, in cells.
#[derive(Clone, Copy, Debug, PartialEq, Eq, Structural)]
pub struct GridSize {
    pub width: u16,
    pub height: u16,
}

/// A world position in sub-units.
#[derive(Clone, Copy, Debug, PartialEq, Eq, Structural)]
pub struct WorldPos {
    pub x: i32,
    pub y: i32,
    pub z: i32,
}

/// A grid cell, column `x` and row `y`, counted from the top left corner.
#[derive(Clone, Copy, Debug, PartialEq, Eq, Structural)]
pub struct CellPos {
    pub x: i64,
    pub y: i64,
}

pub open spec fn axis_sign(flip: bool) -> int {
    if flip {
        -1
    } else {
        1
    }
}

/// The cell, along one axis, of a point at offset `d` (sub-units) from the
/// viewer: `floor(sign * d / (zoom * SUBDIV) + size / 2)`.
pub open spec fn axis_to_cell(d: int, zoom: Zoom, size: int, flip: bool) -> int {
    (2 * d * zoom.den * axis_sign(flip) + size * zoom.num * SUBDIV) / (2 * zoom.num * SUBDIV)
}

/// The offset from the viewer (sub-units), along one axis, of the corner of
/// cell `c`: `floor(sign * (c - size / 2) * zoom * SUBDIV)`.
pub open spec fn axis_to_offset(c: int, zoom: Zoom, size: int, flip: bool) -> int {
    ((2 * c - size) * zoom.num * SUBDIV * axis_sign(flip)) / (2 * zoom.den)
}

/// A point in the world's horizontal plane, in sub-units.
#[derive(Clone, Copy, Debug, PartialEq, Eq, Structural)]
pub struct PlanePos {
    pub x: i64,
    pub y: i64,
}

/// Converting a point to its cell and the cell back to a point lands within
/// one cell of the start, plus one sub-unit of rounding: `|back - d|` is less
/// than `zoom * SUBDIV + 1` sub-units.
pub proof fn lemma_axis_round_trip(d: int, zoom: Zoom, size: int, flip: bool)
    requires
        zoom.wf(),
    ensures
        ({
            let back = axis_to_offset(axis_to_cell(d, zoom, size, flip), zoom, size, flip);
            let err = if back >= d { back - d } else { d - back };
            err * zoom.den < zoom.num * SUBDIV + zoom.den
        }),
{
    let num = zoom.num as int;
    let den = zoom.den as int;
    let s = axis_sign(flip);
    let b = 2 * num * SUBDIV;
    let a = 2 * d * den * s + size * num * SUBDIV;
    let c = axis_to_cell(d, zoom, size, flip);
    assert(b > 0) by (nonlinear_arith)
        requires b == 2 * num * SUBDIV, num >= 1;
    vstd::arithmetic::div_mod::lemma_fundamental_div_mod(a, b);
    vstd::arithmetic::div_mod::lemma_mod_bound(a, b);
    assert(c * b <= a < c * b + b) by (nonlinear_arith)
        requires c == a / b, a == b * (a / b) + a % b, 0 <= a % b < b;
    let y = c * b - size * num * SUBDIV;
    assert((2 * c - size) * num * SUBDIV == y) by (nonlinear_arith)
        requires y == c * b - size * num * SUBDIV, b == 2 * num * SUBDIV;
    let x = y * s;
    assert((2 * c - size) * num * SUBDIV * s == x) by (nonlinear_arith)
        requires (2 * c - size) * num * SUBDIV == y, x == y * s;
    let dd = 2 * den;
    let back = x / dd;
    vstd::arithmetic::div_mod::lemma_fundamental_div_mod(x, dd);
    vstd::arithmetic::div_mod::lemma_mod_bound(x, dd);
    assert(back * dd <= x < back * dd + dd) by (nonlinear_arith)
        requires back == x / dd, x == dd * (x / dd) + x % dd, 0 <= x % dd < dd;
    if flip {
        assert(x == -y);
        assert(2 * d * den <= x < 2 * d * den + b);
        assert(d <= back) by (nonlinear_arith)
            requires 2 * d * den <= x, x < back * (2 * den) + 2 * den, den >= 1;
        assert((back - d) * den < num * SUBDIV) by (nonlinear_arith)
            requires back * (2 * den) <= x, x < 2 * d * den + b, b == 2 * num * SUBDIV;
    } else {
        assert(x == y);
        assert(2 * d * den - b < x <= 2 * d * den);
        assert(back <= d) by (nonlinear_arith)
            requires back * (2 * den) <= x, x <= 2 * d * den, den >= 1;
        assert((d - back) * den < num * SUBDIV + den) by (nonlinear_arith)
            requires 2 * d * den - b < x, x < back * (2 * den) + 2 * den, b == 2 * num * SUBDIV;
    }
}

/// `q` is the floor of `x / d` when `q * d <= x < q * d + d`.
pub proof fn lemma_floor_unique(x: int, d: int, q: int)
    requires
        d > 0,
        q * d <= x < q * d + d,
    ensures
        x / d == q,
{
    vstd::arithmetic::div_mod::lemma_fundamental_div_mod_converse(x, d, q, x - q * d);
}

/// Floor division by a positive divisor.
fn floor_div(a: i64, b: i64) -> (r: i64)
    requires
        b > 0,
    ensures
        r == a / b,
        a >= 0 ==> 0 <= r <= a,
        a < 0 ==> a <= r < 0,
{
    if a >= 0 {
        let q = (a as u64) / (b as u64);
        proof {
            let qi = q as int;
            let ai = a as int;
            let bi = b as int;
            assert(qi * bi <= ai && ai < qi * bi + bi) by (nonlinear_arith)
                requires qi == ai / bi, bi > 0, ai >= 0;
            assert(0 <= qi <= ai) by (nonlinear_arith)
                requires qi * bi <= ai, bi >= 1, ai >= 0, qi >= 0;
            lemma_floor_unique(ai, bi, qi);
        }
        q as i64
    } else {
        let n = (-(a + 1)) as u64;
        let q = n / (b as u64);
        proof {
            let ai = a as int;
            let bi = b as int;
            let qi = q as int;
            assert(qi * bi <= n && n < qi * bi + bi) by (nonlinear_arith)
                requires qi == (n as int) / bi, bi > 0, n >= 0;
            assert((-qi - 1) * bi <= ai && ai < (-qi - 1) * bi + bi) by (nonlinear_arith)
                requires qi * bi <= -(ai + 1), -(ai + 1) < qi * bi + bi;
            lemma_floor_unique(ai, bi, -qi - 1);
            assert(0 <= qi <= n) by (nonlinear_arith)
                requires qi * bi <= n, bi >= 1, n >= 0, qi == (n as int) / bi;
        }
        -(q as i64) - 1
    }
}


/// Sub-unit bound on an offset between two world positions.
pub open spec fn offset_fits(d: int) -> bool {
    -0x1_0000_0000 <= d <= 0x1_0000_0000
}

fn to_cell(d: i64, zoom: Zoom, size: u16, flip: bool) -> (r: i64)
    requires
        zoom.wf(),
        offset_fits(d as int),
    ensures
        r == axis_to_cell(d as int, zoom, size as int, flip),
{
    let sd: i64 = if flip { -d } else { d };
    let den = zoom.den as i64;
    let num = zoom.num as i64;
    assert(-0x40_0000_0000_0000 <= 2 * sd * den <= 0x40_0000_0000_0000) by (nonlinear_arith)
        requires -0x1_0000_0000 <= sd <= 0x1_0000_0000, 1 <= den <= 1048576;
    assert(0 <= (size as i64) * num * SUBDIV <= 0x1000_0000_0000) by (nonlinear_arith)
        requires 0 <= size <= 65535, 1 <= num <= 1048576;
    assert(512 <= 2 * num * SUBDIV <= 0x2000_0000) by (nonlinear_arith)
        requires 1 <= num <= 1048576;
    let a = 2 * sd * den + (size as i64) * num * SUBDIV;
    assert(2 * sd * den == 2 * d * den * axis_sign(flip)) by (nonlinear_arith)
        requires sd == d * axis_sign(flip);
    floor_div(a, 2 * num * SUBDIV)
}

fn to_offset(c: i64, zoom: Zoom, size: u16, flip: bool) -> (r: i64)
    requires
        zoom.wf(),
        -0x1_0000 <= c <= 0x1_0000,
    ensures
        r == axis_to_offset(c as int, zoom, size as int, flip),
        -0x4_0000_0000_0000 <= r <= 0x4_0000_0000_0000,
{
    let den = zoom.den as i64;
    let num = zoom.num as i64;
    let k = 2 * c - size as i64;
    assert(-0x4_0000_0000_0000 <= k * num * SUBDIV <= 0x4_0000_0000_0000) by (nonlinear_arith)
        requires -0x3_0000 <= k <= 0x3_0000, 1 <= num <= 1048576;
    let x = k * num * SUBDIV;
    let sx: i64 = if flip { -x } else { x };
    assert(sx == (2 * c - size) * num * SUBDIV * axis_sign(flip)) by (nonlinear_arith)
        requires sx == x * axis_sign(flip), x == k * num * SUBDIV, k == 2 * c - size;
    floor_div(sx, 2 * den)
}

/// The grid cell on which the world position `p` shows, seen from `viewer`:
/// the offset is scaled down by the zoom, `y` is flipped, and the origin is
/// moved to the middle of the grid. The cell may lie outside the grid.
pub fn world_to_screen(p: PlanePos, viewer: WorldPos, zoom: Zoom, grid: GridSize) -> (r: CellPos)
    requires
        zoom.wf(),
        offset_fits(p.x - viewer.x),
        offset_fits(p.y - viewer.y),
    ensures
        r.x == axis_to_cell(p.x - viewer.x, zoom, grid.width as int, false),
        r.y == axis_to_cell(p.y - viewer.y, zoom, grid.height as int, true),
{
    CellPos {
        x: to_cell(p.x - viewer.x as i64, zoom, grid.width, false),
        y: to_cell(p.y - viewer.y as i64, zoom, grid.height, true),
    }
}

/// The world point, in sub-units, at the top left corner of grid cell
/// `(x, y)`: the inverse of `world_to_screen` up to rounding.
pub fn screen_to_world(x: u16, y: u16, viewer: WorldPos, zoom: Zoom, grid: GridSize) -> (r: PlanePos)
    requires
        zoom.wf(),
    ensures
        r.x == viewer.x + axis_to_offset(x as int, zoom, grid.width as int, false),
        r.y == viewer.y + axis_to_offset(y as int, zoom, grid.height as int, true),
{
    let ox = to_offset(x as i64, zoom, grid.width, false);
    let oy = to_offset(y as i64, zoom, grid.height, true);
    PlanePos { x: viewer.x as i64 + ox, y: viewer.y as i64 + oy }
}

/// The block that holds the sub-unit coordinate `s`.
pub open spec fn block_of(s: int) -> int {
    s / (SUBDIV as int)
}

pub fn block_coord(s: i64) -> (r: i64)
    ensures
        r == block_of(s as int),
{
    floor_div(s, SUBDIV)
}

/// Seen from `viewer`, a world position mapped to its cell and that cell's
/// corner mapped back to the world lies within one cell of the start along
/// each axis, plus one sub-unit of rounding.
pub proof fn lemma_screen_round_trip(p: PlanePos, viewer: WorldPos, zoom: Zoom, grid: GridSize)
    requires
        zoom.wf(),
    ensures
        ({
            let cx = axis_to_cell(p.x - viewer.x, zoom, grid.width as int, false);
            let cy = axis_to_cell(p.y - viewer.y, zoom, grid.height as int, true);
            let bx = viewer.x + axis_to_offset(cx, zoom, grid.width as int, false);
            let by = viewer.y + axis_to_offset(cy, zoom, grid.height as int, true);
            &&& (if bx >= p.x { bx - p.x } else { p.x - bx }) * zoom.den < zoom.num * SUBDIV + zoom.den
            &&& (if by >= p.y { by - p.y } else { p.y - by }) * zoom.den < zoom.num * SUBDIV + zoom.den
        }),
{
    lemma_axis_round_trip(p.x - viewer.x, zoom, grid.width as int, false);
    lemma_axis_round_trip(p.y - viewer.y, zoom, grid.height as int, true);
}

} // verus!
