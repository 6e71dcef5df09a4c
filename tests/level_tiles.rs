use tile_platformer::level::{Level, Point, COLLISION_TILE, KILL_TILE, WIN_TILE};

fn grid(width: u32, height: u32, foreground: Vec<u16>, background: Vec<u16>) -> Level {
    Level {
        background,
        foreground,
        width,
        height,
        background_collision: vec![0, COLLISION_TILE, KILL_TILE, 0, WIN_TILE],
        foreground_collision: vec![0, COLLISION_TILE, KILL_TILE, 0, WIN_TILE],
        slimes: vec![],
        boars: vec![],
        snails: vec![],
        enemy_stops: vec![],
        start_pos: Point { x: 0, y: 0 },
    }
}

#[test]
fn out_of_bounds_blocks_but_neither_kills_nor_wins() {
    let level = grid(3, 2, vec![0; 6], vec![0; 6]);
    for &(x, y) in &[(-1, 0), (0, -1), (3, 0), (0, 2), (-5, -5), (100, 100), (i32::MIN, 0), (0, i32::MAX)] {
        assert!(level.collides(x, y), "({x}, {y}) should block");
        assert!(!level.kills(x, y), "({x}, {y}) should not kill");
        assert!(!level.wins(x, y), "({x}, {y}) should not win");
    }
    for x in 0..3 {
        for y in 0..2 {
            assert!(!level.collides(x, y));
            assert!(!level.kills(x, y));
            assert!(!level.wins(x, y));
        }
    }
}

#[test]
fn classification_comes_from_either_layer() {
    // row-major: index = y * width + x
    let foreground = vec![1, 0, 0, 4, 0, 0];
    let background = vec![0, 2, 0, 1, 0, 0];
    let level = grid(3, 2, foreground, background);
    assert!(level.collides(0, 0));
    assert!(level.kills(1, 0));
    assert!(!level.collides(1, 0));
    // a goal in the foreground over a solid background tile is both
    assert!(level.wins(0, 1));
    assert!(level.collides(0, 1));
    assert!(!level.kills(0, 1));
    assert!(!level.collides(2, 1));
}

#[test]
fn ids_past_either_table_have_no_classification() {
    let level = grid(2, 1, vec![9, 0], vec![0, 5]);
    assert!(!level.collides(0, 0));
    assert!(!level.kills(0, 0));
    assert!(!level.wins(0, 0));
    assert!(!level.collides(1, 0));
    assert!(!level.wins(1, 0));
}

#[test]
fn at_point_matches_named_queries() {
    let level = grid(2, 2, vec![1, 2, 4, 0], vec![0, 0, 0, 0]);
    assert!(level.at_point(0, 0, COLLISION_TILE));
    assert!(level.at_point(1, 0, KILL_TILE));
    assert!(level.at_point(0, 1, WIN_TILE));
    assert!(!level.at_point(1, 1, COLLISION_TILE));
    assert!(level.at_point(-1, 0, COLLISION_TILE));
    assert!(!level.at_point(-1, 0, KILL_TILE));
}
