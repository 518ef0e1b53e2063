use teloren::glyph::{body_glyph, sprite_glyph, tier_glyph, solid_color, BodyKind, Rgb, SpriteKind};
use teloren::screen::{column_origin, Cell, EntitySnapshot, Grid, Ink};
use teloren::terrain::{sample_column, Voxel, SCAN_DEPTH};
use teloren::transform::{
    block_coord, screen_to_world, world_to_screen, GridSize, PlanePos, WorldPos, Zoom, SUBDIV,
};

fn grid80() -> GridSize {
    GridSize { width: 80, height: 25 }
}

fn origin() -> WorldPos {
    WorldPos { x: 0, y: 0, z: 0 }
}

fn stone() -> Voxel {
    Voxel::Solid { color: Some(Rgb { r: 100, g: 90, b: 80 }), fluid: false }
}

#[test]
fn origin_projects_to_grid_middle() {
    let c = world_to_screen(PlanePos { x: 0, y: 0 }, origin(), Zoom::unit(), grid80());
    assert_eq!((c.x, c.y), (40, 12));
}

#[test]
fn world_y_grows_upward_on_screen() {
    let up = world_to_screen(PlanePos { x: 0, y: 3 * SUBDIV }, origin(), Zoom::unit(), grid80());
    assert_eq!((up.x, up.y), (40, 9));
    let right = world_to_screen(PlanePos { x: 5 * SUBDIV, y: 0 }, origin(), Zoom::unit(), grid80());
    assert_eq!((right.x, right.y), (45, 12));
}

#[test]
fn zoom_scales_offsets() {
    let z = Zoom { num: 2, den: 1 };
    let c = world_to_screen(PlanePos { x: 10 * SUBDIV, y: -4 * SUBDIV }, origin(), z, grid80());
    assert_eq!((c.x, c.y), (45, 14));
    let half = Zoom { num: 1, den: 2 };
    let d = world_to_screen(PlanePos { x: -3 * SUBDIV, y: 0 }, origin(), half, grid80());
    assert_eq!(d.x, 34);
}

#[test]
fn negative_offsets_round_down() {
    let c = world_to_screen(PlanePos { x: -1, y: 0 }, origin(), Zoom::unit(), grid80());
    assert_eq!(c.x, 39);
}

#[test]
fn screen_to_world_inverts_within_a_cell() {
    let grids = [grid80(), GridSize { width: 7, height: 3 }, GridSize { width: 1, height: 1 }];
    let zooms = [Zoom::unit(), Zoom { num: 3, den: 2 }, Zoom { num: 4, den: 9 }, Zoom { num: 27, den: 8 }];
    let viewer = WorldPos { x: 1000, y: -777, z: 5 };
    for g in grids.iter() {
        for z in zooms.iter() {
            for p in [(0i64, 0i64), (1234, -999), (-5000, 4096), (77, 78)].iter() {
                let pos = PlanePos { x: p.0, y: p.1 };
                let c = world_to_screen(pos, viewer, *z, *g);
                if c.x >= 0 && c.x < 65536 && c.y >= 0 && c.y < 65536 {
                    let back = screen_to_world(c.x as u16, c.y as u16, viewer, *z, *g);
                    let tol = z.num as i64 * SUBDIV + z.den as i64;
                    assert!((back.x - pos.x).abs() * (z.den as i64) < tol);
                    assert!((back.y - pos.y).abs() * (z.den as i64) < tol);
                }
            }
        }
    }
}

#[test]
fn screen_to_world_exact_values() {
    let w = screen_to_world(40, 12, origin(), Zoom::unit(), grid80());
    assert_eq!((w.x, w.y), (0, 128));
    let w2 = screen_to_world(0, 0, origin(), Zoom { num: 3, den: 2 }, grid80());
    assert_eq!((w2.x, w2.y), (-15360, 4800));
}

#[test]
fn block_coord_floors() {
    assert_eq!(block_coord(0), 0);
    assert_eq!(block_coord(255), 0);
    assert_eq!(block_coord(256), 1);
    assert_eq!(block_coord(-1), -1);
    assert_eq!(block_coord(-257), -2);
}

#[test]
fn column_origin_starts_two_above_viewer() {
    let o = column_origin(40, 12, origin(), Zoom::unit(), grid80());
    assert_eq!((o.x, o.y, o.z), (0, 0, 2));
    let o2 = column_origin(0, 0, WorldPos { x: 512, y: 0, z: -300 }, Zoom::unit(), grid80());
    assert_eq!((o2.x, o2.y, o2.z), (-38, 12, 0));
}

fn column_with(at: usize, v: Voxel) -> Vec<Voxel> {
    let mut c = vec![Voxel::Air; SCAN_DEPTH];
    c[at] = v;
    c
}

#[test]
fn solid_at_viewer_level_renders_in_grid_middle() {
    let o = column_origin(40, 12, origin(), Zoom::unit(), grid80());
    // World height 0 lies two positions into the scan that starts at height 2.
    let k = (o.z - 0) as usize;
    let s = sample_column(&column_with(k, stone()), o.z);
    assert_eq!(s.glyph, '=');
    assert_eq!(s.depth, Some(2));
    assert_eq!(s.color, Rgb { r: 100, g: 90, b: 80 });
    let mut grid = Grid::new(grid80());
    grid.draw_column(40, 12, &column_with(k, stone()), o.z);
    assert_eq!(grid.get(40, 12).glyph, '=');
}

#[test]
fn nearest_solid_uses_first_tier_glyph() {
    let s = sample_column(&column_with(0, stone()), 2);
    assert_eq!(s.glyph, '#');
    let s1 = sample_column(&column_with(1, stone()), 2);
    assert_eq!(s1.glyph, '+');
}

#[test]
fn deep_tiers_alternate_by_height_parity() {
    let s = sample_column(&column_with(5, stone()), 2);
    assert_eq!(s.glyph, '0');
    let s2 = sample_column(&column_with(6, stone()), 2);
    assert_eq!(s2.glyph, 'O');
    assert_eq!(tier_glyph(7, -3), '0');
    assert_eq!(tier_glyph(7, -4), 'O');
}

#[test]
fn flower_sprite_shows_over_deeper_solid() {
    let mut col = column_with(2, Voxel::Decorated(SpriteKind::Flower));
    col[4] = stone();
    let s = sample_column(&col, 2);
    assert_eq!(s.glyph, '%');
    assert_eq!(s.depth, Some(4));
    assert_eq!(s.color, Rgb { r: 100, g: 90, b: 80 });
}

#[test]
fn first_decoration_keeps_priority() {
    let mut col = column_with(1, Voxel::Decorated(SpriteKind::Apple));
    col[2] = Voxel::Decorated(SpriteKind::Chest);
    let s = sample_column(&col, 2);
    assert_eq!(s.glyph, 'a');
    assert_eq!(s.depth, None);
    assert_eq!(s.color, Rgb { r: 0, g: 255, b: 255 });
}

#[test]
fn first_solid_wins_over_deeper_ones() {
    let mut col = column_with(3, stone());
    col[1] = Voxel::Solid { color: Some(Rgb { r: 1, g: 2, b: 3 }), fluid: false };
    let s = sample_column(&col, 2);
    assert_eq!(s.depth, Some(1));
    assert_eq!(s.glyph, '+');
    assert_eq!(s.color, Rgb { r: 1, g: 2, b: 3 });
}

#[test]
fn empty_column_shows_sky() {
    let col = vec![Voxel::Absent; SCAN_DEPTH];
    let s = sample_column(&col, 10);
    assert_eq!(s.glyph, '?');
    assert_eq!(s.depth, None);
    assert_eq!(s.color, Rgb { r: 0, g: 255, b: 255 });
    let s2 = sample_column(&Vec::new(), 0);
    assert_eq!(s2.glyph, '?');
}

#[test]
fn fluid_renders_neutral() {
    let water = Voxel::Solid { color: Some(Rgb { r: 0, g: 0, b: 200 }), fluid: true };
    let s = sample_column(&column_with(0, water), 0);
    assert_eq!(s.color, Rgb { r: 1, g: 1, b: 1 });
    assert_eq!(solid_color(None, false), Rgb { r: 1, g: 1, b: 1 });
    assert_eq!(solid_color(Some(Rgb { r: 9, g: 8, b: 7 }), false), Rgb { r: 9, g: 8, b: 7 });
}

#[test]
fn classifier_is_total() {
    let sprites = [
        SpriteKind::Apple, SpriteKind::Sunflower, SpriteKind::Mushroom, SpriteKind::Velorite,
        SpriteKind::VeloriteFrag, SpriteKind::Chest, SpriteKind::Crate, SpriteKind::Stones,
        SpriteKind::Twigs, SpriteKind::Amethyst, SpriteKind::Ruby, SpriteKind::Beehive,
        SpriteKind::Flower, SpriteKind::Furniture, SpriteKind::Unclassified,
    ];
    for s in sprites.iter() {
        let g = sprite_glyph(*s);
        assert!(g.is_ascii_graphic());
    }
    let bodies = [
        BodyKind::Humanoid, BodyKind::QuadrupedLow, BodyKind::QuadrupedSmall,
        BodyKind::QuadrupedMedium, BodyKind::BirdMedium, BodyKind::BirdLarge, BodyKind::FishSmall,
        BodyKind::FishMedium, BodyKind::BipedLarge, BodyKind::BipedSmall, BodyKind::Object,
        BodyKind::Golem, BodyKind::Dragon, BodyKind::Theropod, BodyKind::Ship, BodyKind::Arthropod,
        BodyKind::ItemDrop,
    ];
    for b in bodies.iter() {
        assert!(body_glyph(*b).is_ascii_graphic());
    }
    assert_eq!(sprite_glyph(SpriteKind::Unclassified), '?');
    assert_eq!(sprite_glyph(SpriteKind::Furniture), '&');
    assert_eq!(sprite_glyph(SpriteKind::Ruby), 'g');
    assert_eq!(body_glyph(BodyKind::Humanoid), '@');
    assert_eq!(body_glyph(BodyKind::Dragon), 'D');
}

fn entity(x: i32, y: i32, body: BodyKind) -> EntitySnapshot {
    EntitySnapshot { pos: WorldPos { x, y, z: 0 }, body }
}

#[test]
fn overlay_draws_entities_in_white() {
    let mut grid = Grid::new(grid80());
    let ents = vec![entity(0, 0, BodyKind::Humanoid), entity(2 * 256, 0, BodyKind::Dragon)];
    grid.overlay_entities(&ents, origin(), Zoom::unit());
    assert_eq!(grid.get(40, 12), Cell { glyph: '@', ink: Ink::White });
    assert_eq!(grid.get(42, 12), Cell { glyph: 'D', ink: Ink::White });
}

#[test]
fn overlay_skips_entities_outside_grid() {
    let mut grid = Grid::new(GridSize { width: 4, height: 3 });
    let before: Vec<Cell> = (0..3u16).flat_map(|y| (0..4u16).map(move |x| (x, y))).map(|(x, y)| grid.get(x, y)).collect();
    let ents = vec![entity(100 * 256, 0, BodyKind::Ship), entity(0, -100 * 256, BodyKind::Golem), entity(-3 * 256, 0, BodyKind::Object)];
    grid.overlay_entities(&ents, origin(), Zoom::unit());
    let after: Vec<Cell> = (0..3u16).flat_map(|y| (0..4u16).map(move |x| (x, y))).map(|(x, y)| grid.get(x, y)).collect();
    assert_eq!(before, after);
}

#[test]
fn overlay_last_entity_wins_shared_cell() {
    let mut grid = Grid::new(grid80());
    let ents = vec![entity(0, 0, BodyKind::Golem), entity(10, 10, BodyKind::FishSmall)];
    grid.overlay_entities(&ents, origin(), Zoom::unit());
    assert_eq!(grid.get(40, 12).glyph, 'f');
}

#[test]
fn put_clips_to_grid() {
    let mut grid = Grid::new(GridSize { width: 2, height: 2 });
    let c = Cell { glyph: 'x', ink: Ink::White };
    assert!(!grid.put(2, 0, c));
    assert!(!grid.put(-1, 1, c));
    assert!(!grid.put(0, 2, c));
    assert!(grid.put(1, 1, c));
    assert_eq!(grid.get(1, 1), c);
    assert_eq!(grid.get(0, 1).glyph, ' ');
}
