use tile_platformer::fixed::{Fixed, Vec2};
use tile_platformer::input::{FrameInput, Tri};
use tile_platformer::level::{Level, Point, COLLISION_TILE, KILL_TILE, WIN_TILE};
use tile_platformer::player::{ping_pong, Player, PlayerAction};
use tile_platformer::sprites::SpriteTag;

/// 40 by 25 tiles, open, with a solid floor on tile row 20 (pixels 160..168).
fn floor_level() -> Level {
    let width = 40u32;
    let height = 25u32;
    let mut foreground = vec![0u16; (width * height) as usize];
    for x in 0..width {
        foreground[(20 * width + x) as usize] = 1;
    }
    Level {
        background: vec![0; (width * height) as usize],
        foreground,
        width,
        height,
        background_collision: vec![0],
        foreground_collision: vec![0, COLLISION_TILE, KILL_TILE, 0, WIN_TILE],
        slimes: vec![],
        boars: vec![],
        snails: vec![],
        enemy_stops: vec![],
        start_pos: Point { x: 100, y: 159 },
    }
}

fn neutral() -> FrameInput {
    FrameInput { x_tri: Tri::Zero, y_tri: Tri::Zero, jump_pressed: false, attack_pressed: false }
}

fn standing_player() -> Player {
    Player::new(Vec2::from_ints(100, 159), 4)
}

#[test]
fn ping_pong_is_a_triangle_wave() {
    let got: Vec<i32> = (0..13).map(|i| ping_pong(i, 4)).collect();
    assert_eq!(got, vec![0, 1, 2, 3, 2, 1, 0, 1, 2, 3, 2, 1, 0]);
    let got: Vec<i32> = (0..5).map(|i| ping_pong(i, 2)).collect();
    assert_eq!(got, vec![0, 1, 0, 1, 0]);
    assert_eq!(ping_pong(100, 5), 4);
}

#[test]
fn new_player_stands_above_the_spawn_point() {
    let p = standing_player();
    assert_eq!(p.warrior.position.x.raw, 100 * 256);
    assert_eq!(p.warrior.position.y.raw, 152 * 256);
    assert_eq!(p.action, PlayerAction::Idle);
    assert!(p.is_on_ground);
    assert_eq!(p.facing, Tri::Zero);
}

#[test]
fn resting_player_stays_idle_and_still() {
    let level = floor_level();
    let mut p = standing_player();
    let start = p.warrior.position;
    for timer in 1..=200 {
        p.update_frame(&neutral(), timer, &level);
        assert_eq!(p.action, PlayerAction::Idle);
        assert_eq!((p.warrior.velocity.x.raw, p.warrior.velocity.y.raw), (0, 0));
        assert_eq!(p.warrior.position, start);
        assert!(p.is_on_ground);
        assert_eq!(p.warrior.sprite.tag, SpriteTag::WarriorIdle);
        assert_eq!(p.warrior.sprite.index, (timer / 32) as usize);
    }
}

#[test]
fn ground_friction_brings_the_player_to_a_stop() {
    let level = floor_level();
    let mut p = standing_player();
    p.warrior.velocity = Vec2::new(Fixed::from_raw(512), Fixed::zero());
    p.update_frame(&neutral(), 1, &level);
    // 512 * 54 / 64 = 432
    assert_eq!(p.warrior.velocity.x.raw, 432);
    assert_eq!(p.action, PlayerAction::Run);
    assert_eq!(p.warrior.sprite.tag, SpriteTag::WarriorRun);
    let mut stopped_at = None;
    for timer in 2..100 {
        p.update_frame(&neutral(), timer, &level);
        if p.warrior.velocity.x.raw == 0 && stopped_at.is_none() {
            stopped_at = Some(timer);
        }
    }
    assert!(stopped_at.is_some());
    assert_eq!((p.warrior.velocity.x.raw, p.warrior.velocity.y.raw), (0, 0));
    assert_eq!(p.action, PlayerAction::Idle);
    assert!(p.is_on_ground);
}

#[test]
fn input_accelerates_on_the_ground() {
    let level = floor_level();
    let mut p = standing_player();
    let right = FrameInput { x_tri: Tri::Positive, ..neutral() };
    p.update_frame(&right, 1, &level);
    // (0 + 32) * 54 / 64 = 27
    assert_eq!(p.warrior.velocity.x.raw, 27);
    assert_eq!(p.facing, Tri::Positive);
    assert!(!p.warrior.sprite.hflip);
    let left = FrameInput { x_tri: Tri::Negative, ..neutral() };
    p.update_frame(&left, 2, &level);
    // (27 - 32) * 54 / 64 = -4.2, toward zero: -4
    assert_eq!(p.warrior.velocity.x.raw, -4);
    assert_eq!(p.facing, Tri::Negative);
    assert!(p.warrior.sprite.hflip);
    // facing stays when the pad is released
    p.update_frame(&neutral(), 3, &level);
    assert_eq!(p.facing, Tri::Negative);
    assert!(p.warrior.sprite.hflip);
}

#[test]
fn jump_then_one_double_jump() {
    let level = floor_level();
    let mut p = standing_player();
    let jump = FrameInput { jump_pressed: true, ..neutral() };
    p.update_frame(&jump, 1, &level);
    assert_eq!(p.warrior.velocity.y.raw, -384);
    assert_eq!(p.action, PlayerAction::Jump);
    assert_eq!(p.warrior.sprite.tag, SpriteTag::WarriorJump);
    p.update_frame(&jump, 2, &level);
    assert!(!p.is_on_ground);
    // -384 * 63 / 64 = -378, plus gravity 16
    assert_eq!(p.warrior.velocity.y.raw, -362);
    assert_eq!(p.action, PlayerAction::DoubleJump);
    assert!(p.has_double_jumped);
    p.update_frame(&jump, 3, &level);
    // no third jump: -362 * 63 / 64 = -356, plus 16
    assert_eq!(p.warrior.velocity.y.raw, -340);
    assert_eq!(p.action, PlayerAction::DoubleJump);
    // fall back down and land
    let mut landed = false;
    for timer in 4..200 {
        p.update_frame(&neutral(), timer, &level);
        if p.is_on_ground {
            landed = true;
        }
    }
    assert!(landed);
    assert!(!p.has_double_jumped);
    assert_eq!(p.action, PlayerAction::Idle);
    assert!(p.warrior.position.y.floor() + 7 < 160);
}

#[test]
fn attack_facing_right_runs_its_course() {
    let level = floor_level();
    let mut p = standing_player();
    p.facing = Tri::Positive;
    for timer in 1..10 {
        p.update_frame(&neutral(), timer, &level);
    }
    let attack = FrameInput { attack_pressed: true, ..neutral() };
    p.update_frame(&attack, 10, &level);
    assert_eq!(p.action, PlayerAction::Attack);
    assert_eq!(p.attack_start, 10);
    assert_eq!((p.sprite_off_set.x.raw, p.sprite_off_set.y.raw), (-15 * 256, 0));
    assert_eq!(p.warrior.sprite.tag, SpriteTag::WarriorAttack);
    assert_eq!(p.warrior.sprite.index, 0);
    // four animation frames of 16 frames each; the last is held two frames more
    for timer in 11..60 {
        p.update_frame(&neutral(), timer, &level);
        assert_eq!(p.action, PlayerAction::Attack, "frame {timer}");
        assert_eq!(p.warrior.sprite.index, ((timer - 10) / 16) as usize);
    }
    p.update_frame(&neutral(), 60, &level);
    assert_eq!(p.action, PlayerAction::Idle);
    assert_eq!((p.sprite_off_set.x.raw, p.sprite_off_set.y.raw), (0, 0));
    assert_eq!(p.times_last_attack_frame_displayed, 0);
    p.update_frame(&neutral(), 61, &level);
    assert_eq!(p.warrior.sprite.tag, SpriteTag::WarriorIdle);
}

#[test]
fn attack_facing_left_has_no_shift_and_needs_ground() {
    let level = floor_level();
    let mut p = standing_player();
    p.facing = Tri::Negative;
    let attack = FrameInput { attack_pressed: true, ..neutral() };
    p.update_frame(&attack, 5, &level);
    assert_eq!(p.action, PlayerAction::Attack);
    assert_eq!((p.sprite_off_set.x.raw, p.sprite_off_set.y.raw), (0, 0));
    // in the air the button does nothing
    let mut q = standing_player();
    let jump = FrameInput { jump_pressed: true, ..neutral() };
    q.update_frame(&jump, 1, &level);
    q.update_frame(&attack, 2, &level);
    assert_ne!(q.action, PlayerAction::Attack);
}

#[test]
fn player_falling_onto_a_tile_stops_above_it_and_is_grounded() {
    // player at tile (5, 5), pixel (40, 40), solid tile at (5, 6), moving down 2 px
    let width = 12u32;
    let mut foreground = vec![0u16; (width * width) as usize];
    foreground[(6 * width + 5) as usize] = 1;
    let mut level = floor_level();
    level.width = width;
    level.height = width;
    level.foreground = foreground;
    level.background = vec![0; (width * width) as usize];
    let mut p = standing_player();
    p.warrior.position = Vec2::from_ints(40, 40);
    p.warrior.velocity = Vec2::new(Fixed::zero(), Fixed::from_raw(512));
    p.is_on_ground = false;
    p.update_frame(&neutral(), 1, &level);
    assert!(p.is_on_ground);
    assert!(p.warrior.position.y.floor() + 7 < 48);
    assert!(p.warrior.velocity.y.raw >= 0 && p.warrior.velocity.y.raw < 256);
    assert!(!p.has_double_jumped);
}

#[test]
fn double_jump_is_allowed_during_an_attack_in_the_air() {
    let level = floor_level();
    let mut p = standing_player();
    p.warrior.position = Vec2::from_ints(100, 100);
    p.is_on_ground = false;
    p.action = PlayerAction::Attack;
    p.attack_start = 40;
    let jump = FrameInput { jump_pressed: true, ..neutral() };
    p.update_frame(&jump, 41, &level);
    // -384 * 63 / 64 = -378, plus gravity 16
    assert_eq!(p.warrior.velocity.y.raw, -362);
    assert!(p.has_double_jumped);
    assert_eq!(p.action, PlayerAction::Attack);
    // the second press in the air does nothing
    p.update_frame(&jump, 42, &level);
    assert_eq!(p.warrior.velocity.y.raw, -340);
}

#[test]
fn attack_timing_survives_the_frame_counter_wrapping() {
    let level = floor_level();
    let mut p = standing_player();
    let attack = FrameInput { attack_pressed: true, ..neutral() };
    let start = i32::MAX - 20;
    p.update_frame(&attack, start, &level);
    assert_eq!(p.action, PlayerAction::Attack);
    let mut timer = start;
    for _ in 0..49 {
        timer = timer.wrapping_add(1);
        p.update_frame(&neutral(), timer, &level);
        assert_eq!(p.action, PlayerAction::Attack);
    }
    timer = timer.wrapping_add(1);
    p.update_frame(&neutral(), timer, &level);
    assert!(timer < 0);
    assert_eq!(p.action, PlayerAction::Idle);
}
