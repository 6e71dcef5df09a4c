//! Static per-level data: two tile layers, their classification tables,
//! dimensions and spawn points.
use vstd::prelude::*;

verus! {

/// Classification of a tile that blocks movement.
pub const COLLISION_TILE: u32 = 1;

/// Classification of a tile that kills the player.
pub const KILL_TILE: u32 = 2;

/// Classification of a tile that completes the level.
pub const WIN_TILE: u32 = 4;

/// Largest width or height of a level, in tiles.
pub const MAX_LEVEL_TILES: u32 = 65536;

/// Largest magnitude of a spawn or stop coordinate, in pixels.
pub const MAX_POINT_PX: i32 = 1000000;

/// A point in whole pixels.
#[derive(Clone, Copy, Debug, PartialEq, Eq, Structural)]
pub struct Point {
    pub x: i32,
    pub y: i32,
}

/// A level. Tile ids in `background` and `foreground` index the matching
/// classification table; the maps are row-major, `width` tiles per row.
#[derive(Clone, Debug)]
pub struct Level {
    pub background: Vec<u16>,
    pub foreground: Vec<u16>,
    pub width: u32,
    pub height: u32,
    pub background_collision: Vec<u32>,
    pub foreground_collision: Vec<u32>,
    pub slimes: Vec<Point>,
    pub boars: Vec<Point>,
    pub snails: Vec<Point>,
    pub enemy_stops: Vec<Point>,
    pub start_pos: Point,
}

pub open spec fn point_ok(p: Point) -> bool {
    -MAX_POINT_PX <= p.x <= MAX_POINT_PX && -MAX_POINT_PX <= p.y <= MAX_POINT_PX
}

/// Whether the tile id at `i` of a layer has classification `kind` in the
/// layer's table; an id past the end of the table has none.
pub open spec fn layer_is(ids: Seq<u16>, table: Seq<u32>, i: int, kind: u32) -> bool {
    (ids[i] as int) < table.len() && table[ids[i] as int] == kind
}

impl Level {
    pub open spec fn wf(&self) -> bool {
        &&& self.width <= MAX_LEVEL_TILES
        &&& self.height <= MAX_LEVEL_TILES
        &&& self.background@.len() == self.width * self.height
        &&& self.foreground@.len() == self.width * self.height
        &&& point_ok(self.start_pos)
        &&& forall|i: int| 0 <= i < self.boars@.len() ==> point_ok(#[trigger] self.boars@[i])
        &&& forall|i: int|
            0 <= i < self.enemy_stops@.len() ==> point_ok(#[trigger] self.enemy_stops@[i])
    }

    pub open spec fn in_bounds(&self, x: int, y: int) -> bool {
        0 <= x < self.width && 0 <= y < self.height
    }

    /// Whether tile `(x, y)` has classification `kind` in either layer. Outside
    /// the map every tile blocks movement and has no other classification.
    pub open spec fn tile_is(&self, x: int, y: int, kind: u32) -> bool {
        if !self.in_bounds(x, y) {
            kind == COLLISION_TILE
        } else {
            let i = y * self.width + x;
            layer_is(self.foreground@, self.foreground_collision@, i, kind) || layer_is(
                self.background@,
                self.background_collision@,
                i,
                kind,
            )
        }
    }

    pub fn collides(&self, x: i32, y: i32) -> (r: bool)
        requires
            self.wf(),
        ensures
            r == self.tile_is(x as int, y as int, COLLISION_TILE),
            !self.in_bounds(x as int, y as int) ==> r,
    {
        self.at_point(x, y, COLLISION_TILE)
    }

    pub fn kills(&self, x: i32, y: i32) -> (r: bool)
        requires
            self.wf(),
        ensures
            r == self.tile_is(x as int, y as int, KILL_TILE),
            !self.in_bounds(x as int, y as int) ==> !r,
    {
        self.at_point(x, y, KILL_TILE)
    }

    pub fn wins(&self, x: i32, y: i32) -> (r: bool)
        requires
            self.wf(),
        ensures
            r == self.tile_is(x as int, y as int, WIN_TILE),
            !self.in_bounds(x as int, y as int) ==> !r,
    {
        self.at_point(x, y, WIN_TILE)
    }

    /// Whether tile `(x, y)` has classification `tile`. Both classification
    /// tables are bounds-checked: an id past the end of its table gives the
    /// tile no classification from that layer.
    pub fn at_point(&self, x: i32, y: i32, tile: u32) -> (r: bool)
        requires
            self.wf(),
        ensures
            r == self.tile_is(x as int, y as int, tile),
    {
        if x < 0 || x as u32 >= self.width || y < 0 || y as u32 >= self.height {
            return tile == COLLISION_TILE;
        }
        let cells: usize = self.background.len();
        let w: usize = self.width as usize;
        let xu: usize = x as usize;
        let yu: usize = y as usize;
        proof {
            assert(yu * w + xu < self.width * self.height) by (nonlinear_arith)
                requires
                    xu < w,
                    yu < self.height,
                    w == self.width,
            ;
            assert(yu * w + xu < cells);
        }
        let pos: usize = yu * w + xu;
        let tile_foreground: u16 = self.foreground[pos];
        let tile_background: u16 = self.background[pos];
        let mut foreground_collision = false;
        if (tile_foreground as usize) < self.foreground_collision.len() {
            foreground_collision = self.foreground_collision[tile_foreground as usize] == tile;
        }
        let mut background_collision = false;
        if (tile_background as usize) < self.background_collision.len() {
            background_collision = self.background_collision[tile_background as usize] == tile;
        }
        foreground_collision || background_collision
    }
}

} // verus!
