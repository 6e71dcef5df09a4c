use tile_platformer::entities::entity::{Entity, Mask};
use tile_platformer::fixed::{Fixed, Vec2};
use tile_platformer::level::{Level, Point, COLLISION_TILE, KILL_TILE, WIN_TILE};

fn level_from_rows(rows: &[&str]) -> Level {
    let height = rows.len() as u32;
    let width = rows[0].len() as u32;
    let mut foreground = Vec::new();
    for row in rows {
        for c in row.chars() {
            foreground.push(match c {
                '#' => 1,
                'K' => 2,
                'W' => 4,
                _ => 0,
            });
        }
    }
    Level {
        background: vec![0; (width * height) as usize],
        foreground,
        width,
        height,
        background_collision: vec![0],
        foreground_collision: vec![0, COLLISION_TILE, KILL_TILE, 0, WIN_TILE],
        slimes: vec![],
        boars: vec![],
        snails: vec![],
        enemy_stops: vec![],
        start_pos: Point { x: 0, y: 0 },
    }
}

fn px(v: i32) -> Fixed {
    Fixed::new(v)
}

fn body(mask: (u16, u16), pos: (i32, i32), vel: (i32, i32)) -> Entity {
    let mut e = Entity::new(Mask { x: mask.0, y: mask.1 }, None);
    e.position = Vec2::new(Fixed::from_raw(pos.0), Fixed::from_raw(pos.1));
    e.velocity = Vec2::new(Fixed::from_raw(vel.0), Fixed::from_raw(vel.1));
    e
}

fn open_box() -> Level {
    level_from_rows(&[
        "##########",
        "#........#",
        "#........#",
        "#....#...#",
        "#........#",
        "#........#",
        "#........#",
        "##########",
    ])
}

#[test]
fn fixed_point_arithmetic() {
    let a = Fixed::from_raw(384); // 1.5
    let b = Fixed::from_raw(-640); // -2.5
    assert_eq!(a.mul_fixed(b).raw, -960); // -3.75
    assert_eq!(Fixed::from_raw(-1).mul_fixed(Fixed::from_raw(1)).raw, -1);
    assert_eq!(Fixed::from_raw(-3).div_int(2).raw, -1);
    assert_eq!(Fixed::from_raw(3).div_int(2).raw, 1);
    assert_eq!(Fixed::from_raw(-384).floor(), -2);
    assert_eq!(Fixed::from_raw(384).floor(), 1);
    assert_eq!(Fixed::new(-3).raw, -768);
    assert_eq!(a.plus(b).raw, -256);
    assert_eq!(a.minus(b).raw, 1024);
    assert_eq!(b.abs().raw, 640);
    assert_eq!(b.neg().raw, 640);
    assert_eq!(a.mul_int(54).div_int(64).raw, 324);
    let v = Vec2::from_ints(3, -4);
    assert_eq!(v.magnitude_squared(), 25 * 256);
    assert_eq!(v.manhattan_distance().raw, 7 * 256);
    assert_eq!(Vec2::new(Fixed::from_raw(-1), Fixed::from_raw(256)).floor(), (-1, 1));
    assert_eq!(Vec2::from_ints(-3, 5).div_int(2).x.raw, -384);
}

#[test]
fn collision_box_covers_touched_tiles() {
    let level = open_box();
    // solid tile (5, 3) spans pixels 40..48 by 24..32
    let e = body((6, 16), (0, 0), (0, 0));
    let at = |x: i32, y: i32| Vec2::new(Fixed::from_raw(x), Fixed::from_raw(y));
    assert!(e.collision_at_point(&level, at(44 * 256, 28 * 256)));
    // box spans x-3 ..= x+2: at x = 37 it reaches pixel 39, clear of the tile
    assert!(!e.collision_at_point(&level, at(37 * 256, 28 * 256)));
    assert!(e.collision_at_point(&level, at(38 * 256, 28 * 256)));
    // box spans y-8 ..= y+7
    assert!(!e.collision_at_point(&level, at(44 * 256, 40 * 256)));
    assert!(e.collision_at_point(&level, at(44 * 256, 39 * 256)));
    // leaving the map counts as solid
    assert!(e.collision_at_point(&level, at(-100 * 256, 28 * 256)));
    assert!(!e.killision_at_point(&level, at(-100 * 256, 28 * 256)));
    assert!(!e.completion_at_point(&level, at(-100 * 256, 28 * 256)));
}

#[test]
fn lethal_and_goal_tiles_are_found_under_the_box() {
    let level = level_from_rows(&["....", ".K.W", "...."]);
    let e = body((6, 6), (0, 0), (0, 0));
    let at = |x: i32, y: i32| Vec2::new(px(x), px(y));
    assert!(e.killision_at_point(&level, at(12, 12)));
    assert!(!e.completion_at_point(&level, at(12, 12)));
    assert!(e.completion_at_point(&level, at(28, 12)));
    assert!(!e.killision_at_point(&level, at(28, 12)));
    assert!(!e.collision_at_point(&level, at(12, 12)));
}

#[test]
fn landing_on_the_tile_below_stops_short_of_it() {
    // player at tile (5, 5), pixel (40, 40), solid tile at (5, 6)
    let mut rows = vec!["............"; 12];
    rows[6] = ".....#......";
    let level = level_from_rows(&rows);
    let mut e = body((6, 16), (40 * 256, 40 * 256), (0, 512));
    let moved = e.update_position(&level);
    assert_eq!(moved.x.raw, 0);
    // bisection from 0..2 px ends within an eighth of a pixel of the edge
    assert_eq!(e.position.y.raw, 40 * 256 + 224);
    assert_eq!(moved.y.raw, 224);
    // the box's lowest pixel row is 47, above tile row 6
    assert!(e.position.y.floor() + 7 < 48);
    assert!(!e.collision_at_point(&level, e.position));
    // one pixel down touches the tile: on the ground
    let below = e.position.plus(Vec2::new(Fixed::zero(), Fixed::from_raw(256)));
    assert!(e.collision_at_point(&level, below));
    // the blocked point an eighth of a pixel further is solid
    let further = e.position.plus(Vec2::new(Fixed::zero(), Fixed::from_raw(32)));
    assert!(e.collision_at_point(&level, further));
}

#[test]
fn free_moves_are_made_in_full() {
    let level = open_box();
    let mut e = body((6, 6), (20 * 256, 20 * 256), (300, -200));
    let moved = e.update_position(&level);
    assert_eq!((moved.x.raw, moved.y.raw), (300, -200));
    assert_eq!((e.position.x.raw, e.position.y.raw), (20 * 256 + 300, 20 * 256 - 200));
    assert_eq!((e.velocity.x.raw, e.velocity.y.raw), (300, -200));
}

#[test]
fn diagonal_move_into_floor_slides_along_it() {
    let rows = ["..........", "..........", "..........", "##########"];
    let level = level_from_rows(&rows);
    // 6x6 box with its lowest row at pixel 23, just above the floor
    let mut e = body((6, 6), (20 * 256, 21 * 256), (512, 512));
    let moved = e.update_position(&level);
    assert_eq!(moved.x.raw, 512);
    assert_eq!(moved.y.raw, 224);
    assert_eq!(e.position.x.raw, 22 * 256);
    assert!(!e.collision_at_point(&level, e.position));
    // pressed down against the floor by less than a pixel: no vertical move
    let mut e = body((6, 6), (20 * 256, 21 * 256 + 255), (512, 512));
    let moved = e.update_position(&level);
    assert_eq!((moved.x.raw, moved.y.raw), (512, 0));
}

#[test]
fn diagonal_move_into_corner_keeps_the_free_axis() {
    let rows = ["....#", "....#", "....#", "#####"];
    let level = level_from_rows(&rows);
    // wall at x >= 32, floor at y >= 24; box 6x6 at (28, 20) touches neither
    let mut e = body((6, 6), (28 * 256, 20 * 256), (-512, 512));
    let moved = e.update_position(&level);
    assert_eq!(moved.x.raw, -512);
    assert_eq!(moved.y.raw, 480);
    assert!(!e.collision_at_point(&level, e.position));
    let mut e = body((6, 6), (28 * 256, 18 * 256), (768, 256));
    let moved = e.update_position(&level);
    assert_eq!(moved.x.raw, 504);
    assert_eq!(moved.y.raw, 256);
    assert!(!e.collision_at_point(&level, e.position));
}

#[test]
fn blocked_moves_end_within_an_eighth_of_a_pixel() {
    let level = open_box();
    for speed in [1, 7, 32, 33, 100, 255, 256, 300, 511, 512, 640, 768, 1000, 1024] {
        // moving right toward the tile at x pixels 40..48 from a box edge at 37
        let mut e = body((6, 6), (35 * 256, 28 * 256), (speed, 0));
        let start = e.position.x.raw;
        e.update_position(&level);
        let moved = e.position.x.raw - start;
        assert!(moved >= 0 && moved <= speed);
        assert!(!e.collision_at_point(&level, e.position));
        if moved < speed {
            let further = Vec2::new(Fixed::from_raw(e.position.x.raw + 32), e.position.y);
            assert!(e.collision_at_point(&level, further), "speed {speed}");
        }
        // moving left toward the same tile from the right
        let mut e = body((6, 6), (51 * 256, 28 * 256), (-speed, 0));
        let start = e.position.x.raw;
        e.update_position(&level);
        let moved = e.position.x.raw - start;
        assert!(moved <= 0 && moved >= -speed);
        assert!(!e.collision_at_point(&level, e.position));
        if moved > -speed {
            let further = Vec2::new(Fixed::from_raw(e.position.x.raw - 32), e.position.y);
            assert!(e.collision_at_point(&level, further), "speed -{speed}");
        }
    }
}

#[test]
fn clear_bodies_stay_clear() {
    let level = open_box();
    for vx in [-2048, -700, -256, -31, 0, 31, 256, 700, 2048] {
        for vy in [-2048, -513, -64, 0, 64, 513, 2048] {
            for start in [(12, 12), (20, 28), (36, 28), (44, 20), (60, 50), (70, 12)] {
                let mut e = body((6, 10), (start.0 * 256, start.1 * 256), (vx, vy));
                if e.collision_at_point(&level, e.position) {
                    continue;
                }
                e.update_position(&level);
                assert!(!e.collision_at_point(&level, e.position), "{start:?} {vx} {vy}");
            }
        }
    }
}

#[test]
fn sprite_placement_follows_camera_and_culls() {
    let mut e = body((6, 16), (100 * 256 + 128, 60 * 256), (0, 0));
    e.sprite_offset = Point { x: 2, y: -3 };
    let p = e.commit_position(Vec2::from_ints(10, 20));
    // floor(100.5 - 10) - 2 - 16 = 72; 60 - 20 + 3 - 16 = 27
    assert_eq!((p.x, p.y, p.visible), (72, 27, true));
    let far = e.commit_position(Vec2::from_ints(-400, 20));
    assert!(!far.visible);
    let edge = e.commit_position(Vec2::from_ints(100 - 2 - 256, 20));
    // anchor at x = 256 = 240 + 16: still shown
    assert!(edge.visible);
    let past = e.commit_position(Vec2::from_ints(100 - 2 - 257, 20));
    assert!(!past.visible);
}

#[test]
fn new_entity_defaults() {
    let e = Entity::new(Mask { x: 6, y: 16 }, None);
    assert_eq!((e.position.x.raw, e.position.y.raw), (0, 0));
    assert_eq!((e.size.x, e.size.y), (16, 16));
    assert_eq!((e.sprite_offset.x, e.sprite_offset.y), (0, 0));
    let e = Entity::new(Mask { x: 6, y: 16 }, Some(Point { x: 4, y: -1 }));
    assert_eq!((e.sprite_offset.x, e.sprite_offset.y), (4, -1));
}
