//! The character grid that one render pass fills, and the entity overlay.
use vstd::prelude::*;
use crate::glyph::{BodyKind, Rgb, body_glyph, spec_body_glyph, spec_sky_rgb, sky_rgb};
use crate::terrain::{ColumnSample, Voxel, SCAN_ABOVE, sample_column, spec_sample_column};
use crate::transform::{
    axis_to_cell, axis_to_offset, block_coord, block_of, screen_to_world, world_to_screen,
    GridSize, PlanePos, WorldPos, Zoom,
};

verus! {

/// The foreground colour of a cell.
#[derive(Clone, Copy, Debug, PartialEq, Eq, Structural)]
pub enum Ink {
    /// A true colour.
    True(Rgb),
    /// The terminal's white, used for entities.
    White,
}

/// One cell of the grid: a glyph and its colour.
#[derive(Clone, Copy, Debug, PartialEq, Eq, Structural)]
pub struct Cell {
    pub glyph: char,
    pub ink: Ink,
}

/// An entity seen in one tick: where it stands and what body it has.
#[derive(Clone, Copy, Debug, PartialEq, Eq, Structural)]
pub struct EntitySnapshot {
    pub pos: WorldPos,
    pub body: BodyKind,
}

/// A block of the world, in whole blocks.
#[derive(Clone, Copy, Debug, PartialEq, Eq, Structural)]
pub struct BlockPos {
    pub x: i64,
    pub y: i64,
    pub z: i64,
}

pub open spec fn spec_blank_cell() -> Cell {
    Cell { glyph: ' ', ink: Ink::True(spec_sky_rgb()) }
}

pub open spec fn in_grid(size: GridSize, x: int, y: int) -> bool {
    0 <= x < size.width && 0 <= y < size.height
}

/// Where the cell `(x, y)` is kept: row after row.
pub open spec fn cell_index(size: GridSize, x: int, y: int) -> int {
    y * size.width + x
}

/// The cells after writing `cell` at `(x, y)`: only a position inside the
/// grid is written.
pub open spec fn spec_put(cells: Seq<Cell>, size: GridSize, x: int, y: int, cell: Cell) -> Seq<Cell> {
    if in_grid(size, x, y) {
        cells.update(cell_index(size, x, y), cell)
    } else {
        cells
    }
}

/// The cell on which entity `e` shows.
pub open spec fn entity_cell_pos(e: EntitySnapshot, viewer: WorldPos, zoom: Zoom, size: GridSize) -> (int, int) {
    (
        axis_to_cell(e.pos.x - viewer.x, zoom, size.width as int, false),
        axis_to_cell(e.pos.y - viewer.y, zoom, size.height as int, true),
    )
}

/// The cell that shows a column sample.
pub open spec fn spec_sample_cell(s: ColumnSample) -> Cell {
    Cell { glyph: s.glyph, ink: Ink::True(s.color) }
}

pub open spec fn spec_entity_cell(e: EntitySnapshot) -> Cell {
    Cell { glyph: spec_body_glyph(e.body), ink: Ink::White }
}

/// The cells after drawing the first `n` entities, in order, over `cells`.
pub open spec fn spec_overlay(
    cells: Seq<Cell>,
    ents: Seq<EntitySnapshot>,
    viewer: WorldPos,
    zoom: Zoom,
    size: GridSize,
    n: int,
) -> Seq<Cell>
    decreases n,
{
    if n <= 0 || n > ents.len() {
        cells
    } else {
        let prev = spec_overlay(cells, ents, viewer, zoom, size, n - 1);
        let p = entity_cell_pos(ents[n - 1], viewer, zoom, size);
        spec_put(prev, size, p.0, p.1, spec_entity_cell(ents[n - 1]))
    }
}

/// A grid of `width * height` cells, kept row after row.
pub struct Grid {
    size: GridSize,
    cells: Vec<Cell>,
}

impl View for Grid {
    type V = Seq<Cell>;

    closed spec fn view(&self) -> Seq<Cell> {
        self.cells@
    }
}

impl Grid {
    pub closed spec fn size(&self) -> GridSize {
        self.size
    }

    pub open spec fn wf(&self) -> bool {
        self@.len() == self.size().width * self.size().height
    }

    /// A grid of the given size with every cell blank.
    pub fn new(size: GridSize) -> (r: Grid)
        ensures
            r.wf(),
            r.size() == size,
            r@ == Seq::new((size.width * size.height) as nat, |i: int| spec_blank_cell()),
    {
        proof {
            lemma_grid_area_fits(size);
        }
        let n: usize = size.width as usize * size.height as usize;
        let mut cells: Vec<Cell> = Vec::new();
        let blank = Cell { glyph: ' ', ink: Ink::True(sky_rgb()) };
        let mut i: usize = 0;
        while i < n
            invariant
                i <= n,
                n == size.width * size.height,
                blank == spec_blank_cell(),
                cells@ == Seq::new(i as nat, |j: int| spec_blank_cell()),
            decreases n - i,
        {
            cells.push(blank);
            i = i + 1;
            assert(cells@ =~= Seq::new(i as nat, |j: int| spec_blank_cell()));
        }
        Grid { size, cells }
    }

    pub fn width(&self) -> (r: u16)
        ensures
            r == self.size().width,
    {
        self.size.width
    }

    pub fn height(&self) -> (r: u16)
        ensures
            r == self.size().height,
    {
        self.size.height
    }

    pub fn grid_size(&self) -> (r: GridSize)
        ensures
            r == self.size(),
    {
        self.size
    }

    /// The cell at column `x`, row `y`.
    pub fn get(&self, x: u16, y: u16) -> (r: Cell)
        requires
            self.wf(),
            in_grid(self.size(), x as int, y as int),
        ensures
            r == self@[cell_index(self.size(), x as int, y as int)],
    {
        proof {
            lemma_index_in_grid(self.size(), x as int, y as int);
            lemma_grid_area_fits(self.size());
        }
        self.cells[y as usize * self.size.width as usize + x as usize]
    }

    /// Writes `cell` at `(x, y)` if that lies inside the grid; else does
    /// nothing. Returns whether it wrote.
    pub fn put(&mut self, x: i64, y: i64, cell: Cell) -> (r: bool)
        requires
            old(self).wf(),
        ensures
            final(self).wf(),
            final(self).size() == old(self).size(),
            final(self)@ == spec_put(old(self)@, old(self).size(), x as int, y as int, cell),
            r == in_grid(old(self).size(), x as int, y as int),
    {
        if 0 <= x && x < self.size.width as i64 && 0 <= y && y < self.size.height as i64 {
            proof {
                lemma_index_in_grid(self.size, x as int, y as int);
                lemma_grid_area_fits(self.size);
            }
            let i = y as usize * self.size.width as usize + x as usize;
            self.cells.set(i, cell);
            true
        } else {
            false
        }
    }

    /// Scans `column`, whose first voxel lies at height `top_z`, and writes
    /// what it shows at `(x, y)`.
    pub fn draw_column(&mut self, x: u16, y: u16, column: &Vec<Voxel>, top_z: i64)
        requires
            old(self).wf(),
            column.len() <= 0x1_0000,
            -0x7fff_ffff_0000_0000 <= top_z,
        ensures
            final(self).wf(),
            final(self).size() == old(self).size(),
            final(self)@ == spec_put(
                old(self)@,
                old(self).size(),
                x as int,
                y as int,
                spec_sample_cell(spec_sample_column(column@, top_z as int)),
            ),
    {
        let s = sample_column(column, top_z);
        self.put(x as i64, y as i64, Cell { glyph: s.glyph, ink: Ink::True(s.color) });
    }

    /// Draws every entity over the grid, in order, in the entity colour: an
    /// entity whose cell lies outside the grid is skipped, and where two
    /// entities share a cell the later one shows.
    pub fn overlay_entities(&mut self, entities: &Vec<EntitySnapshot>, viewer: WorldPos, zoom: Zoom)
        requires
            old(self).wf(),
            zoom.wf(),
        ensures
            final(self).wf(),
            final(self).size() == old(self).size(),
            final(self)@ == spec_overlay(old(self)@, entities@, viewer, zoom, old(self).size(), entities.len() as int),
    {
        let ghost start = self@;
        let size = self.size;
        let mut i: usize = 0;
        while i < entities.len()
            invariant
                i <= entities.len(),
                zoom.wf(),
                self.wf(),
                self.size() == size,
                self@ == spec_overlay(start, entities@, viewer, zoom, size, i as int),
            decreases entities.len() - i,
        {
            let e = entities[i];
            let p = PlanePos { x: e.pos.x as i64, y: e.pos.y as i64 };
            let c = world_to_screen(p, viewer, zoom, size);
            let cell = Cell { glyph: body_glyph(e.body), ink: Ink::White };
            self.put(c.x, c.y, cell);
            i = i + 1;
        }
    }
}

proof fn lemma_grid_area_fits(size: GridSize)
    ensures
        size.width * size.height <= 0xfffe_0001,
        0 <= size.width * size.height,
{
    assert(0 <= size.width * size.height <= 0xfffe_0001) by (nonlinear_arith)
        requires 0 <= size.width <= 0xffff, 0 <= size.height <= 0xffff;
}

/// The world column shown at cell `(x, y)`: the block under the corner of
/// the cell, and the height, `SCAN_ABOVE` blocks over the viewer's, at
/// which its scan starts.
pub fn column_origin(x: u16, y: u16, viewer: WorldPos, zoom: Zoom, size: GridSize) -> (r: BlockPos)
    requires
        zoom.wf(),
    ensures
        r.x == block_of(viewer.x + axis_to_offset(x as int, zoom, size.width as int, false)),
        r.y == block_of(viewer.y + axis_to_offset(y as int, zoom, size.height as int, true)),
        r.z == block_of(viewer.z as int) + SCAN_ABOVE,
{
    let w = screen_to_world(x, y, viewer, zoom, size);
    let z = block_coord(viewer.z as i64);
    BlockPos { x: block_coord(w.x), y: block_coord(w.y), z: z + SCAN_ABOVE }
}

pub proof fn lemma_index_in_grid(size: GridSize, x: int, y: int)
    requires
        in_grid(size, x, y),
    ensures
        0 <= cell_index(size, x, y) < size.width * size.height,
        cell_index(size, x, y) % (size.width as int) == x,
        cell_index(size, x, y) / (size.width as int) == y,
{
    let w = size.width as int;
    let h = size.height as int;
    assert(0 <= y * w + x < w * h) by (nonlinear_arith)
        requires 0 <= x < w, 0 <= y < h;
    vstd::arithmetic::div_mod::lemma_fundamental_div_mod_converse(y * w + x, w, y, x);
}

/// The overlay writes only cells inside the grid, and only those on which
/// some entity shows: every other cell keeps what it held, and the grid
/// keeps its size. An entity whose cell lies outside the grid changes nothing.
pub proof fn lemma_overlay_stays_in_grid(
    cells: Seq<Cell>,
    ents: Seq<EntitySnapshot>,
    viewer: WorldPos,
    zoom: Zoom,
    size: GridSize,
    n: int,
)
    requires
        cells.len() == size.width * size.height,
        0 <= n <= ents.len(),
    ensures
        spec_overlay(cells, ents, viewer, zoom, size, n).len() == cells.len(),
        forall|x: int, y: int|
            #![trigger spec_overlay(cells, ents, viewer, zoom, size, n)[cell_index(size, x, y)]]
            in_grid(size, x, y) && (forall|j: int|
                0 <= j < n ==> #[trigger] entity_cell_pos(ents[j], viewer, zoom, size) != (x, y))
                ==> spec_overlay(cells, ents, viewer, zoom, size, n)[cell_index(size, x, y)]
                == cells[cell_index(size, x, y)],
    decreases n,
{
    if n > 0 {
        lemma_overlay_stays_in_grid(cells, ents, viewer, zoom, size, n - 1);
        let prev = spec_overlay(cells, ents, viewer, zoom, size, n - 1);
        let p = entity_cell_pos(ents[n - 1], viewer, zoom, size);
        if in_grid(size, p.0, p.1) {
            lemma_index_in_grid(size, p.0, p.1);
        }
        assert forall|x: int, y: int|
            in_grid(size, x, y) && (forall|j: int|
                0 <= j < n ==> #[trigger] entity_cell_pos(ents[j], viewer, zoom, size) != (x, y))
            implies spec_overlay(cells, ents, viewer, zoom, size, n)[cell_index(size, x, y)]
                == cells[cell_index(size, x, y)] by {
            assert(entity_cell_pos(ents[n - 1], viewer, zoom, size) != (x, y));
            assert(prev[cell_index(size, x, y)] == cells[cell_index(size, x, y)]);
            lemma_index_in_grid(size, x, y);
            if in_grid(size, p.0, p.1) {
                lemma_index_in_grid(size, p.0, p.1);
                assert(cell_index(size, p.0, p.1) != cell_index(size, x, y));
            }
        }
    }
}

} // verus!
