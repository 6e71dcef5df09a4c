//! What the logic decides about a sprite: which animation, which frame of it,
//! and how it is drawn. Decoding and drawing are left to the caller.
use vstd::prelude::*;

verus! {

/// Width of the screen in pixels.
pub const SCREEN_WIDTH: i32 = 240;

/// Height of the screen in pixels.
pub const SCREEN_HEIGHT: i32 = 160;

/// The animations a sprite can show.
#[derive(Clone, Copy, Debug, PartialEq, Eq, Structural)]
pub enum SpriteTag {
    WarriorIdle,
    WarriorRun,
    WarriorJump,
    WarriorAttack,
    WarriorDeadStart,
    WarriorDeadEnd,
    BoarIdle,
    BoarRun,
    BoarHit,
}

/// A frame of an animation. `index` counts frames from the start of the
/// animation and is taken modulo its length when drawn.
#[derive(Clone, Copy, Debug, PartialEq, Eq, Structural)]
pub struct SpriteFrame {
    pub tag: SpriteTag,
    pub index: usize,
    pub hflip: bool,
    pub in_front: bool,
}

/// Where a sprite goes on the screen this frame, and whether it is shown.
#[derive(Clone, Copy, Debug, PartialEq, Eq, Structural)]
pub struct SpritePlacement {
    pub x: i32,
    pub y: i32,
    pub visible: bool,
}

/// `timer / ticks` for a running frame counter; a counter that has wrapped
/// below zero counts as zero.
pub open spec fn tick_index(timer: int, ticks: int) -> int {
    if timer < 0 {
        0
    } else {
        timer / ticks
    }
}

pub fn tick_index_of(timer: i32, ticks: i32) -> (r: usize)
    requires
        ticks > 0,
    ensures
        r == tick_index(timer as int, ticks as int),
{
    if timer < 0 {
        0
    } else {
        (timer / ticks) as usize
    }
}

/// Frames from `start` to `timer` on a frame counter that wraps: the
/// difference modulo 2^32, which is exact for any span under 2^32 frames.
pub open spec fn elapsed(timer: i32, start: i32) -> int {
    (timer - start) % 4294967296
}

pub fn elapsed_of(timer: i32, start: i32) -> (r: u32)
    ensures
        r == elapsed(timer, start),
{
    let d: i64 = timer as i64 - start as i64;
    let e: i64 = if d < 0 {
        d + 4294967296
    } else {
        d
    };
    proof {
        let m = (timer - start) % 4294967296;
        if d < 0 {
            assert(m == d + 4294967296);
        } else {
            assert(m == d);
        }
    }
    e as u32
}

} // verus!
