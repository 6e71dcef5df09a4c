//! The scrolling camera: follows the player smoothly and never shows past the
//! edges of the map.
use vstd::prelude::*;
use crate::entities::entity::{within, MAX_POS_RAW, TILE_SIZE};
use crate::fixed::{trunc_div, Fixed, Vec2};
use crate::level::MAX_LEVEL_TILES;
use crate::sprites::{SCREEN_HEIGHT, SCREEN_WIDTH};

verus! {

pub open spec fn clamp(v: int, lo: int, hi: int) -> int {
    if v < lo {
        lo
    } else if v > hi {
        hi
    } else {
        v
    }
}

/// The camera's next offset along one axis, in whole pixels: the target is
/// 3/4 of the player's pixel position, the centre moves a quarter of the way
/// toward it, and the offset is clamped to `[0, limit]`.
pub open spec fn camera_axis(player: int, current: int, half: int, limit: int) -> int {
    let target = trunc_div((player / 256) * 3, 4);
    let centre = current / 256 + half;
    clamp(trunc_div(centre * 3 + target, 4) - half, 0, limit)
}

/// Largest camera offset along an axis for a map of `tiles` tiles and a screen
/// of `screen` pixels.
pub open spec fn scroll_limit(tiles: int, screen: int) -> int {
    tiles * TILE_SIZE - screen
}

/// The camera offset for the next frame, from the player's position and the
/// current offset, for a map of `width` by `height` tiles.
pub fn next_map_position(player_pos: Vec2, current: Vec2, width: u32, height: u32) -> (r: Vec2)
    requires
        30 <= width <= MAX_LEVEL_TILES,
        20 <= height <= MAX_LEVEL_TILES,
        within(player_pos.x.raw as int, MAX_POS_RAW as int),
        within(player_pos.y.raw as int, MAX_POS_RAW as int),
        within(current.x.raw as int, MAX_POS_RAW as int),
        within(current.y.raw as int, MAX_POS_RAW as int),
    ensures
        r.x.raw == 256 * camera_axis(
            player_pos.x.raw as int,
            current.x.raw as int,
            SCREEN_WIDTH / 2,
            scroll_limit(width as int, SCREEN_WIDTH as int),
        ),
        r.y.raw == 256 * camera_axis(
            player_pos.y.raw as int,
            current.y.raw as int,
            SCREEN_HEIGHT / 2,
            scroll_limit(height as int, SCREEN_HEIGHT as int),
        ),
        0 <= r.x.raw <= 256 * scroll_limit(width as int, SCREEN_WIDTH as int),
        0 <= r.y.raw <= 256 * scroll_limit(height as int, SCREEN_HEIGHT as int),
{
    let x: i32 = camera_step(
        player_pos.x.floor(),
        current.x.floor(),
        SCREEN_WIDTH / 2,
        (width as i32) * TILE_SIZE - SCREEN_WIDTH,
    );
    let y: i32 = camera_step(
        player_pos.y.floor(),
        current.y.floor(),
        SCREEN_HEIGHT / 2,
        (height as i32) * TILE_SIZE - SCREEN_HEIGHT,
    );
    Vec2::new(Fixed::new(x), Fixed::new(y))
}

fn camera_step(player: i32, current: i32, half: i32, limit: i32) -> (r: i32)
    requires
        -1048576 <= player <= 1048576,
        -1048576 <= current <= 1048576,
        0 <= half <= 1024,
        0 <= limit <= 1048576,
    ensures
        r == clamp(trunc_div((current + half) * 3 + trunc_div(player * 3, 4), 4) - half, 0, limit as int),
        0 <= r <= limit,
{
    let target: i32 = (player * 3) / 4;
    let centre: i32 = current + half;
    let wanted: i32 = (centre * 3 + target) / 4 - half;
    if wanted < 0 {
        0
    } else if wanted > limit {
        limit
    } else {
        wanted
    }
}

} // verus!
