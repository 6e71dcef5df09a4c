//! A moving body and its collision-aware movement solver.
use vstd::prelude::*;
use crate::fixed::{abs_int, floor_div, Fixed, Vec2};
use crate::level::{Level, Point, COLLISION_TILE, KILL_TILE, WIN_TILE};
use crate::sprites::{SpriteFrame, SpritePlacement, SpriteTag, SCREEN_HEIGHT, SCREEN_WIDTH};

verus! {

/// Edge of a tile in pixels.
pub const TILE_SIZE: i32 = 8;

/// Largest magnitude of a coordinate of an entity's position, raw.
pub const MAX_POS_RAW: i32 = 268435456;

/// Largest magnitude of a component of an entity's velocity, raw (8 pixels).
pub const MAX_SPEED_RAW: i32 = 2048;

/// Largest magnitude of a position coordinate that a tile query accepts, raw.
pub const MAX_QUERY_RAW: i32 = 536870912;

/// Width along one axis of the precision at which a blocked move is resolved:
/// an eighth of a pixel, raw.
pub const RESOLUTION_RAW: i32 = 32;

/// Size of a collision box in pixels; the box is centred on the position.
#[derive(Clone, Copy, Debug, PartialEq, Eq, Structural)]
pub struct Mask {
    pub x: u16,
    pub y: u16,
}

/// First and last tile, along one axis, that a box of `size` pixels centred on
/// the raw coordinate `pos` overlaps.
pub open spec fn tile_span(pos: int, size: int) -> (int, int) {
    let half = size / 2;
    let p = pos / 256;
    ((p - half) / 8, (p + half - 1) / 8)
}

/// Whether the box `mask` centred on the raw point `(px, py)` overlaps a tile
/// of classification `kind`.
pub open spec fn touches(level: &Level, mask: Mask, px: int, py: int, kind: u32) -> bool {
    let xs = tile_span(px, mask.x as int);
    let ys = tile_span(py, mask.y as int);
    exists|tx: int, ty: int|
        xs.0 <= tx <= xs.1 && ys.0 <= ty <= ys.1 && #[trigger] level.tile_is(tx, ty, kind)
}

/// `touches` for solid tiles, with the coordinates given along and across the
/// axis of a move.
pub open spec fn hits_axis(
    level: &Level,
    mask: Mask,
    horizontal: bool,
    along: int,
    across: int,
) -> bool {
    if horizontal {
        touches(level, mask, along, across, COLLISION_TILE)
    } else {
        touches(level, mask, across, along, COLLISION_TILE)
    }
}

/// The raw coordinate of `p` along the axis of a move.
pub open spec fn along(p: Vec2, horizontal: bool) -> int {
    if horizontal {
        p.x.raw as int
    } else {
        p.y.raw as int
    }
}

/// The raw coordinate of `p` across the axis of a move.
pub open spec fn across(p: Vec2, horizontal: bool) -> int {
    if horizontal {
        p.y.raw as int
    } else {
        p.x.raw as int
    }
}

/// How a blocked move of `vel` along one axis from `from` ends at `to`: at a
/// clear point between the start and the target, or at the start, within an
/// eighth of a pixel of a blocked point further along.
pub open spec fn partial_axis(
    level: &Level,
    mask: Mask,
    horizontal: bool,
    from: int,
    across: int,
    vel: int,
    to: int,
) -> bool {
    &&& (vel >= 0 ==> from <= to <= from + vel)
    &&& (vel <= 0 ==> from + vel <= to <= from)
    &&& (to == from || !hits_axis(level, mask, horizontal, to, across))
    &&& exists|h: int|
        #[trigger] hits_axis(level, mask, horizontal, h, across) && (vel > 0 ==> to < h <= to
            + RESOLUTION_RAW && h <= from + vel) && (vel < 0 ==> to - RESOLUTION_RAW <= h < to
            && from + vel <= h) && (vel == 0 ==> h == to)
}

/// How a move of `vel` along one axis from `from` ends at `to`: in full where
/// the box is clear at the target, else as `partial_axis` says.
pub open spec fn resolved_axis(
    level: &Level,
    mask: Mask,
    horizontal: bool,
    from: int,
    across: int,
    vel: int,
    to: int,
) -> bool {
    if !hits_axis(level, mask, horizontal, from + vel, across) {
        to == from + vel
    } else {
        partial_axis(level, mask, horizontal, from, across, vel, to)
    }
}

/// A box that overlaps no solid tile lies inside the map, so its position is
/// bounded by the size of the largest map.
pub proof fn lemma_clear_box_in_map(level: &Level, mask: Mask, px: int, py: int)
    requires
        level.wf(),
        mask.x >= 2,
        mask.y >= 2,
        !touches(level, mask, px, py, COLLISION_TILE),
    ensures
        0 <= px < 134217728,
        0 <= py < 134217728,
{
    let xs = tile_span(px, mask.x as int);
    let ys = tile_span(py, mask.y as int);
    assert(!level.tile_is(xs.0, ys.0, COLLISION_TILE));
    assert(!level.tile_is(xs.1, ys.1, COLLISION_TILE));
}

/// A moving body: position and velocity in raw fixed-point pixels, a
/// collision box, and the sprite that shows it.
#[derive(Clone, Copy, Debug, PartialEq, Eq, Structural)]
pub struct Entity {
    pub sprite: SpriteFrame,
    pub size: Point,
    pub position: Vec2,
    pub velocity: Vec2,
    pub collision_mask: Mask,
    /// Only applies to the sprite, not the collision mask or position.
    pub sprite_offset: Point,
}

pub open spec fn within(v: int, bound: int) -> bool {
    -bound <= v <= bound
}

impl Entity {
    pub open spec fn wf(&self) -> bool {
        &&& within(self.position.x.raw as int, MAX_POS_RAW as int)
        &&& within(self.position.y.raw as int, MAX_POS_RAW as int)
        &&& within(self.velocity.x.raw as int, MAX_SPEED_RAW as int)
        &&& within(self.velocity.y.raw as int, MAX_SPEED_RAW as int)
        &&& self.collision_mask.x >= 2
        &&& self.collision_mask.y >= 2
        &&& within(self.size.x as int, 65536)
        &&& within(self.size.y as int, 65536)
        &&& within(self.sprite_offset.x as int, 65536)
        &&& within(self.sprite_offset.y as int, 65536)
    }

    /// Whether the collision box at the raw point `(px, py)` overlaps a tile
    /// of classification `kind`.
    pub open spec fn hits(&self, level: &Level, px: int, py: int, kind: u32) -> bool {
        touches(level, self.collision_mask, px, py, kind)
    }

    /// A body at the origin, at rest, with a 16 by 16 sprite.
    pub fn new(collision_mask: Mask, offset: Option<Point>) -> (r: Entity)
        ensures
            r.position.x.raw == 0 && r.position.y.raw == 0,
            r.velocity.x.raw == 0 && r.velocity.y.raw == 0,
            r.collision_mask == collision_mask,
            r.size == (Point { x: 16, y: 16 }),
            r.sprite_offset == (match offset {
                Some(o) => o,
                None => Point { x: 0, y: 0 },
            }),
            r.sprite == (SpriteFrame {
                tag: SpriteTag::WarriorIdle,
                index: 0,
                hflip: false,
                in_front: false,
            }),
    {
        Entity {
            sprite: SpriteFrame {
                tag: SpriteTag::WarriorIdle,
                index: 0,
                hflip: false,
                in_front: false,
            },
            collision_mask,
            size: Point { x: 16, y: 16 },
            position: Vec2::zero(),
            velocity: Vec2::zero(),
            sprite_offset: match offset {
                Some(o) => o,
                None => Point { x: 0, y: 0 },
            },
        }
    }

    /// Whether the collision box at `position` overlaps a tile of
    /// classification `kind`.
    fn something_at_point(&self, level: &Level, position: Vec2, kind: u32) -> (r: bool)
        requires
            level.wf(),
            within(position.x.raw as int, MAX_QUERY_RAW as int),
            within(position.y.raw as int, MAX_QUERY_RAW as int),
        ensures
            r == self.hits(level, position.x.raw as int, position.y.raw as int, kind),
    {
        let hx: i32 = (self.collision_mask.x / 2) as i32;
        let hy: i32 = (self.collision_mask.y / 2) as i32;
        let px: i32 = position.x.floor();
        let py: i32 = position.y.floor();
        assert(within(px as int, 2097152)) by {
            assert(position.x.raw / 256 >= -2097152);
            assert(position.x.raw / 256 <= 2097152);
        }
        assert(within(py as int, 2097152)) by {
            assert(position.y.raw / 256 >= -2097152);
            assert(position.y.raw / 256 <= 2097152);
        }
        let left: i32 = floor_div(px - hx, TILE_SIZE);
        let right: i32 = floor_div(px + hx - 1, TILE_SIZE);
        let top: i32 = floor_div(py - hy, TILE_SIZE);
        let bottom: i32 = floor_div(py + hy - 1, TILE_SIZE);
        assert(right < 1000000 && bottom < 1000000);
        let ghost xs = tile_span(position.x.raw as int, self.collision_mask.x as int);
        let ghost ys = tile_span(position.y.raw as int, self.collision_mask.y as int);
        assert(xs == (left as int, right as int));
        assert(ys == (top as int, bottom as int));
        let mut x: i32 = left;
        while x <= right
            invariant
                level.wf(),
                xs == (left as int, right as int),
                ys == (top as int, bottom as int),
                xs == tile_span(position.x.raw as int, self.collision_mask.x as int),
                ys == tile_span(position.y.raw as int, self.collision_mask.y as int),
                left <= x <= right + 1 || (x == left && right < left),
                right < 1000000,
                bottom < 1000000,
                forall|tx: int, ty: int|
                    left <= tx < x && top <= ty <= bottom ==> !#[trigger] level.tile_is(
                        tx,
                        ty,
                        kind,
                    ),
            decreases right + 1 - x,
        {
            let mut y: i32 = top;
            while y <= bottom
                invariant
                    level.wf(),
                    xs == (left as int, right as int),
                    ys == (top as int, bottom as int),
                    xs == tile_span(position.x.raw as int, self.collision_mask.x as int),
                    ys == tile_span(position.y.raw as int, self.collision_mask.y as int),
                    left <= x <= right,
                    top <= y,
                    y <= bottom + 1 || bottom < top,
                    bottom < 1000000,
                    forall|tx: int, ty: int|
                        left <= tx < x && top <= ty <= bottom ==> !#[trigger] level.tile_is(
                            tx,
                            ty,
                            kind,
                        ),
                    forall|ty: int| top <= ty < y ==> !#[trigger] level.tile_is(x as int, ty, kind),
                decreases bottom + 1 - y,
            {
                if level.at_point(x, y, kind) {
                    assert(level.tile_is(x as int, y as int, kind));
                    assert(xs.0 <= x <= xs.1 && ys.0 <= y <= ys.1);
                    assert(touches(
                        level,
                        self.collision_mask,
                        position.x.raw as int,
                        position.y.raw as int,
                        kind,
                    ));
                    return true;
                }
                y = y + 1;
            }
            assert forall|tx: int, ty: int|
                left <= tx < x + 1 && top <= ty <= bottom implies !#[trigger] level.tile_is(
                tx,
                ty,
                kind,
            ) by {
                if tx == x {
                    assert(!level.tile_is(x as int, ty, kind));
                }
            }
            x = x + 1;
        }
        false
    }

    pub fn collision_at_point(&self, level: &Level, position: Vec2) -> (r: bool)
        requires
            level.wf(),
            within(position.x.raw as int, MAX_QUERY_RAW as int),
            within(position.y.raw as int, MAX_QUERY_RAW as int),
        ensures
            r == self.hits(level, position.x.raw as int, position.y.raw as int, COLLISION_TILE),
    {
        self.something_at_point(level, position, COLLISION_TILE)
    }

    pub fn killision_at_point(&self, level: &Level, position: Vec2) -> (r: bool)
        requires
            level.wf(),
            within(position.x.raw as int, MAX_QUERY_RAW as int),
            within(position.y.raw as int, MAX_QUERY_RAW as int),
        ensures
            r == self.hits(level, position.x.raw as int, position.y.raw as int, KILL_TILE),
    {
        self.something_at_point(level, position, KILL_TILE)
    }

    pub fn completion_at_point(&self, level: &Level, position: Vec2) -> (r: bool)
        requires
            level.wf(),
            within(position.x.raw as int, MAX_QUERY_RAW as int),
            within(position.y.raw as int, MAX_QUERY_RAW as int),
        ensures
            r == self.hits(level, position.x.raw as int, position.y.raw as int, WIN_TILE),
    {
        self.something_at_point(level, position, WIN_TILE)
    }

    /// Moves by the velocity, one axis after the other, stopping each axis
    /// short of solid tiles; returns the distance actually moved.
    pub fn update_position(&mut self, level: &Level) -> (r: Vec2)
        requires
            old(self).wf(),
            level.wf(),
        ensures
            final(self).wf(),
            old(self).moved(level, *final(self)),
            r.x.raw == final(self).position.x.raw - old(self).position.x.raw,
            r.y.raw == final(self).position.y.raw - old(self).position.y.raw,
            abs_int(r.x.raw as int) <= abs_int(old(self).velocity.x.raw as int),
            abs_int(r.y.raw as int) <= abs_int(old(self).velocity.y.raw as int),
            !old(self).hits(
                level,
                old(self).position.x.raw as int,
                old(self).position.y.raw as int,
                COLLISION_TILE,
            ) ==> !final(self).hits(
                level,
                final(self).position.x.raw as int,
                final(self).position.y.raw as int,
                COLLISION_TILE,
            ),
    {
        let old_position = self.position;
        let ghost mask = self.collision_mask;
        let x_velocity = Vec2::new(self.velocity.x, Fixed::zero());
        if !self.collision_at_point(level, self.position.plus(x_velocity)) {
            proof {
                lemma_clear_box_in_map(
                    level,
                    mask,
                    old_position.x.raw + self.velocity.x.raw,
                    old_position.y.raw as int,
                );
            }
            self.position = self.position.plus(x_velocity);
        } else {
            let dx = self.binary_search_collision(level, true, self.velocity.x);
            proof {
                if dx.raw != 0 {
                    lemma_clear_box_in_map(
                        level,
                        mask,
                        old_position.x.raw + dx.raw,
                        old_position.y.raw as int,
                    );
                }
            }
            self.position = Vec2::new(self.position.x.plus(dx), self.position.y);
        }
        let mid_position = self.position;
        let y_velocity = Vec2::new(Fixed::zero(), self.velocity.y);
        if !self.collision_at_point(level, self.position.plus(y_velocity)) {
            proof {
                lemma_clear_box_in_map(
                    level,
                    mask,
                    mid_position.x.raw as int,
                    mid_position.y.raw + self.velocity.y.raw,
                );
            }
            self.position = self.position.plus(y_velocity);
        } else {
            let dy = self.binary_search_collision(level, false, self.velocity.y);
            proof {
                if dy.raw != 0 {
                    lemma_clear_box_in_map(
                        level,
                        mask,
                        mid_position.x.raw as int,
                        mid_position.y.raw + dy.raw,
                    );
                }
            }
            self.position = Vec2::new(self.position.x, self.position.y.plus(dy));
        }
        proof {
            if !old(self).hits(
                level,
                old_position.x.raw as int,
                old_position.y.raw as int,
                COLLISION_TILE,
            ) {
                old(self).lemma_move_stays_clear(level, *self);
            }
        }
        self.position.minus(old_position)
    }

    /// Along one axis, the largest part of a move of `initial` from the
    /// current position that keeps the box clear, found by bisection to an
    /// eighth of a pixel. The result lies between 0 and `initial` and is 0 or
    /// clear; where the full move is blocked it ends as `partial_axis` says.
    fn binary_search_collision(&self, level: &Level, horizontal: bool, initial: Fixed) -> (r:
        Fixed)
        requires
            self.wf(),
            level.wf(),
            within(initial.raw as int, MAX_SPEED_RAW as int),
        ensures
            initial.raw >= 0 ==> 0 <= r.raw <= initial.raw,
            initial.raw <= 0 ==> initial.raw <= r.raw <= 0,
            r.raw == 0 || !hits_axis(
                level,
                self.collision_mask,
                horizontal,
                along(self.position, horizontal) + r.raw,
                across(self.position, horizontal),
            ),
            hits_axis(
                level,
                self.collision_mask,
                horizontal,
                along(self.position, horizontal) + initial.raw,
                across(self.position, horizontal),
            ) ==> partial_axis(
                level,
                self.collision_mask,
                horizontal,
                along(self.position, horizontal),
                across(self.position, horizontal),
                initial.raw as int,
                along(self.position, horizontal) + r.raw,
            ),
    {
        let ghost from = along(self.position, horizontal);
        let ghost side = across(self.position, horizontal);
        let ghost mask = self.collision_mask;
        let mut low: i32 = 0;
        let mut high: i32 = initial.raw;
        let mut gap: i32 = if high >= low {
            high - low
        } else {
            low - high
        };
        while gap > RESOLUTION_RAW
            invariant
                self.wf(),
                level.wf(),
                from == along(self.position, horizontal),
                side == across(self.position, horizontal),
                mask == self.collision_mask,
                gap == abs_int(high - low),
                within(initial.raw as int, MAX_SPEED_RAW as int),
                initial.raw > 0 ==> 0 <= low < high <= initial.raw,
                initial.raw < 0 ==> initial.raw <= high < low <= 0,
                initial.raw == 0 ==> low == 0 && high == 0,
                low == 0 || !hits_axis(level, mask, horizontal, from + low, side),
                hits_axis(level, mask, horizontal, from + initial.raw, side) ==> hits_axis(
                    level,
                    mask,
                    horizontal,
                    from + high,
                    side,
                ),
            decreases gap,
        {
            let mid: i32 = (low + high) / 2;
            let offset = if horizontal {
                Vec2::new(Fixed::from_raw(mid), Fixed::zero())
            } else {
                Vec2::new(Fixed::zero(), Fixed::from_raw(mid))
            };
            if self.collision_at_point(level, self.position.plus(offset)) {
                high = mid;
            } else {
                low = mid;
            }
            gap = if high >= low {
                high - low
            } else {
                low - high
            };
        }
        Fixed::from_raw(low)
    }

    /// Where the sprite goes on the screen, drawn with the camera at
    /// `additional_offset`, and whether it is near enough to the screen to show.
    pub fn commit_position(&self, additional_offset: Vec2) -> (r: SpritePlacement)
        requires
            self.wf(),
            within(additional_offset.x.raw as int, MAX_POS_RAW as int),
            within(additional_offset.y.raw as int, MAX_POS_RAW as int),
        ensures
            r == self.placement(additional_offset),
    {
        let p = self.position.minus(additional_offset).floor();
        let px: i32 = p.0 - self.sprite_offset.x;
        let py: i32 = p.1 - self.sprite_offset.y;
        let hidden = px < -self.size.x || px > SCREEN_WIDTH + self.size.x || py < -self.size.y || py
            > SCREEN_HEIGHT + self.size.y;
        SpritePlacement { x: px - self.size.x, y: py - self.size.y, visible: !hidden }
    }

    /// The screen point of the sprite's anchor with the camera at `offset`.
    pub open spec fn screen_point(&self, offset: Vec2) -> (int, int) {
        (
            (self.position.x.raw - offset.x.raw) / 256 - self.sprite_offset.x,
            (self.position.y.raw - offset.y.raw) / 256 - self.sprite_offset.y,
        )
    }

    pub open spec fn placement(&self, offset: Vec2) -> SpritePlacement {
        let p = self.screen_point(offset);
        SpritePlacement {
            x: (p.0 - self.size.x) as i32,
            y: (p.1 - self.size.y) as i32,
            visible: -self.size.x <= p.0 <= SCREEN_WIDTH + self.size.x && -self.size.y <= p.1
                <= SCREEN_HEIGHT + self.size.y,
        }
    }

    /// Each axis of a move is resolved on its own: a horizontal move whose
    /// target is clear is made in full whatever blocks the vertical one, and
    /// the vertical move is tested from the point the horizontal one reached,
    /// so a body pushed diagonally against a surface slides along it.
    pub proof fn lemma_axis_independence(&self, level: &Level, post: Entity)
        requires
            self.moved(level, post),
        ensures
            !self.hits(
                level,
                self.position.x.raw + self.velocity.x.raw,
                self.position.y.raw as int,
                COLLISION_TILE,
            ) ==> post.position.x.raw == self.position.x.raw + self.velocity.x.raw,
            !self.hits(
                level,
                post.position.x.raw as int,
                self.position.y.raw + self.velocity.y.raw,
                COLLISION_TILE,
            ) ==> post.position.y.raw == self.position.y.raw + self.velocity.y.raw,
    {
    }

    /// A body that starts clear of solid tiles is still clear after a move.
    pub proof fn lemma_move_stays_clear(&self, level: &Level, post: Entity)
        requires
            self.moved(level, post),
            !self.hits(
                level,
                self.position.x.raw as int,
                self.position.y.raw as int,
                COLLISION_TILE,
            ),
        ensures
            !post.hits(
                level,
                post.position.x.raw as int,
                post.position.y.raw as int,
                COLLISION_TILE,
            ),
    {
    }

    /// A blocked horizontal move ends within an eighth of a pixel of a solid
    /// point further along, and short of the target: the bisection converges
    /// on the boundary.
    pub proof fn lemma_blocked_move_precision(&self, level: &Level, post: Entity)
        requires
            self.moved(level, post),
            self.hits(
                level,
                self.position.x.raw + self.velocity.x.raw,
                self.position.y.raw as int,
                COLLISION_TILE,
            ),
        ensures
            exists|h: int|
                #[trigger] self.hits(level, h, self.position.y.raw as int, COLLISION_TILE)
                    && abs_int(h - post.position.x.raw) <= RESOLUTION_RAW && abs_int(
                    h - self.position.x.raw,
                ) <= abs_int(self.velocity.x.raw as int),
            abs_int(post.position.x.raw - self.position.x.raw) <= abs_int(
                self.velocity.x.raw as int,
            ),
    {
        let from = self.position.x.raw as int;
        let across = self.position.y.raw as int;
        let vel = self.velocity.x.raw as int;
        let to = post.position.x.raw as int;
        assert(partial_axis(level, self.collision_mask, true, from, across, vel, to));
        let h = choose|h: int|
            #[trigger] hits_axis(level, self.collision_mask, true, h, across) && (vel > 0 ==> to
                < h <= to + RESOLUTION_RAW && h <= from + vel) && (vel < 0 ==> to - RESOLUTION_RAW
                <= h < to && from + vel <= h) && (vel == 0 ==> h == to);
        assert(self.hits(level, h, across, COLLISION_TILE));
    }

    /// A move at zero velocity leaves the entity where it is.
    pub proof fn lemma_still(&self, level: &Level, post: Entity)
        requires
            self.moved(level, post),
            self.velocity.x.raw == 0,
            self.velocity.y.raw == 0,
        ensures
            post == *self,
    {
        assert(post.position.x.raw == self.position.x.raw);
        assert(post.position.y.raw == self.position.y.raw);
        assert(post.position.x == self.position.x);
        assert(post.position.y == self.position.y);
    }

    /// `post` is this entity after one move through `level`: each axis
    /// resolved as `resolved_axis` says, the horizontal one first, and nothing
    /// but the position changed.
    pub open spec fn moved(&self, level: &Level, post: Entity) -> bool {
        &&& post == Entity { position: post.position, ..*self }
        &&& resolved_axis(
            level,
            self.collision_mask,
            true,
            self.position.x.raw as int,
            self.position.y.raw as int,
            self.velocity.x.raw as int,
            post.position.x.raw as int,
        )
        &&& resolved_axis(
            level,
            self.collision_mask,
            false,
            self.position.y.raw as int,
            post.position.x.raw as int,
            self.velocity.y.raw as int,
            post.position.y.raw as int,
        )
    }
}

} // verus!
