//! One level in play: the frame loop's logic over the player, the enemy slots
//! and the camera.
use vstd::prelude::*;
use crate::camera::{camera_axis, clamp, next_map_position, scroll_limit};
use crate::entities::enemies::{BoarState, Enemy, EnemyUpdateState};
use crate::entities::entity::Entity;
use crate::fixed::{Fixed, Vec2};
use crate::input::{FrameInput, Tri};
use crate::level::{point_ok, Level, KILL_TILE, WIN_TILE};
use crate::player::{Player, PlayerAction};
use crate::sprites::{SpriteFrame, SpritePlacement, SpriteTag, SCREEN_HEIGHT, SCREEN_WIDTH};

verus! {

/// Number of enemy slots in a level.
pub const ENEMY_SLOTS: usize = 16;

/// How a frame ended.
#[derive(Clone, Copy, Debug, PartialEq, Eq, Structural)]
pub enum UpdateState {
    Normal,
    Dead,
    Complete,
}

/// A level in play: the frame counter, the level data, the camera, the
/// player and the enemy slots.
pub struct PlayingLevel {
    pub timer: i32,
    pub level: Level,
    /// Top-left world pixel shown at the screen's top-left corner.
    pub map_position: Vec2,
    pub player: Player,
    pub enemies: Vec<Enemy>,
}

/// The first camera offset along one axis: the start point centred on the
/// screen, clamped to the map.
pub open spec fn initial_scroll(start: int, half: int, limit: int) -> int {
    clamp(start - half, 0, limit)
}

impl PlayingLevel {
    pub open spec fn wf(&self) -> bool {
        &&& self.level.wf()
        &&& 30 <= self.level.width
        &&& 20 <= self.level.height
        &&& self.player.wf()
        &&& self.enemies@.len() == ENEMY_SLOTS
        &&& forall|i: int| 0 <= i < self.enemies@.len() ==> (#[trigger] self.enemies@[i]).wf()
        &&& 0 <= self.map_position.x.raw <= 256 * scroll_limit(
            self.level.width as int,
            SCREEN_WIDTH as int,
        )
        &&& 0 <= self.map_position.y.raw <= 256 * scroll_limit(
            self.level.height as int,
            SCREEN_HEIGHT as int,
        )
    }

    /// A level ready to play: a boar in each of the first slots for the boar
    /// spawn points, the rest empty; the player at the start point; the camera
    /// centred on the start point as far as the map allows.
    pub fn open_level(level: Level, attack_frames: usize) -> (r: PlayingLevel)
        requires
            level.wf(),
            30 <= level.width,
            20 <= level.height,
            level.boars@.len() <= ENEMY_SLOTS,
            1 <= attack_frames <= 1000000,
        ensures
            r.wf(),
            r.timer == 0,
            r.level == level,
            r.player.warrior.position.x.raw == level.start_pos.x * 256,
            r.player.warrior.position.y.raw == level.start_pos.y * 256 - 1792,
            r.player.warrior.velocity.is_zero(),
            r.player.is_on_ground,
            r.player.facing == Tri::Zero,
            !r.player.has_double_jumped,
            r.player.action == PlayerAction::Idle,
            r.player.attack_frames == attack_frames,
            r.player.times_last_attack_frame_displayed == 0,
            r.player.sprite_off_set.is_zero(),
            forall|i: int|
                0 <= i < ENEMY_SLOTS ==> match #[trigger] r.enemies@[i] {
                    Enemy::Boar(b) => i < level.boars@.len() && b.enemy_info.entity.position.x.raw
                        == level.boars@[i].x * 256 && b.enemy_info.entity.position.y.raw
                        == level.boars@[i].y * 256 + 256 && b.state == BoarState::Idle
                        && b.enemy_info.entity.velocity.is_zero(),
                    Enemy::Empty => i >= level.boars@.len(),
                },
            r.map_position.x.raw == 256 * initial_scroll(
                level.start_pos.x as int,
                SCREEN_WIDTH / 2,
                scroll_limit(level.width as int, SCREEN_WIDTH as int),
            ),
            r.map_position.y.raw == 256 * initial_scroll(
                level.start_pos.y as int,
                SCREEN_HEIGHT / 2,
                scroll_limit(level.height as int, SCREEN_HEIGHT as int),
            ),
            0 <= r.map_position.x.raw <= 256 * scroll_limit(level.width as int, SCREEN_WIDTH as int),
            0 <= r.map_position.y.raw <= 256 * scroll_limit(
                level.height as int,
                SCREEN_HEIGHT as int,
            ),
    {
        let mut e: Vec<Enemy> = Vec::new();
        let mut i: usize = 0;
        while i < ENEMY_SLOTS
            invariant
                level.wf(),
                level.boars@.len() <= ENEMY_SLOTS,
                i <= ENEMY_SLOTS,
                e@.len() == i,
                forall|j: int|
                    0 <= j < i ==> (#[trigger] e@[j]).wf() && match e@[j] {
                        Enemy::Boar(b) => j < level.boars@.len()
                            && b.enemy_info.entity.position.x.raw == level.boars@[j].x * 256
                            && b.enemy_info.entity.position.y.raw == level.boars@[j].y * 256
                            + 256 && b.state == BoarState::Idle
                            && b.enemy_info.entity.velocity.is_zero(),
                        Enemy::Empty => j >= level.boars@.len(),
                    },
            decreases ENEMY_SLOTS - i,
        {
            if i < level.boars.len() {
                let boar = level.boars[i];
                assert(point_ok(level.boars@[i as int]));
                e.push(Enemy::new_boar(Vec2::from_ints(boar.x, boar.y)));
            } else {
                e.push(Enemy::Empty);
            }
            i = i + 1;
        }
        let start_pos = Vec2::from_ints(level.start_pos.x, level.start_pos.y);
        let limit_x: i32 = (level.width as i32) * 8 - SCREEN_WIDTH;
        let limit_y: i32 = (level.height as i32) * 8 - SCREEN_HEIGHT;
        let sx: i32 = clamp_i32(level.start_pos.x - SCREEN_WIDTH / 2, 0, limit_x);
        let sy: i32 = clamp_i32(level.start_pos.y - SCREEN_HEIGHT / 2, 0, limit_y);
        let player = Player::new(start_pos, attack_frames);
        PlayingLevel {
            timer: 0,
            level,
            map_position: Vec2::from_ints(sx, sy),
            player,
            enemies: e,
        }
    }

    /// Brings the player to the front and lets the sprite drift up while the
    /// death animation plays.
    pub fn dead_start(&mut self)
        requires
            old(self).wf(),
        ensures
            final(self).wf(),
            final(self).player.warrior.velocity.x.raw == 0,
            final(self).player.warrior.velocity.y.raw == -256,
            final(self).player.warrior.sprite.in_front,
            final(self).player == (Player {
                warrior: Entity {
                    velocity: final(self).player.warrior.velocity,
                    sprite: SpriteFrame { in_front: true, ..old(self).player.warrior.sprite },
                    ..old(self).player.warrior
                },
                ..old(self).player
            }),
            final(self).timer == old(self).timer,
            final(self).level == old(self).level,
            final(self).enemies@ == old(self).enemies@,
            final(self).map_position == old(self).map_position,
    {
        self.player.warrior.velocity = Vec2::new(Fixed::zero(), Fixed::from_raw(-256));
        self.player.warrior.sprite.in_front = true;
    }

    /// One step of the death animation: frames up to 4 show its start, later
    /// ones its end 15 pixels higher on the screen. Returns where the
    /// player's sprite goes.
    pub fn dead_update(&mut self, animation_frame: usize) -> (r: SpritePlacement)
        requires
            old(self).wf(),
        ensures
            final(self).wf(),
            final(self).timer == old(self).timer.wrapping_add(1),
            final(self).player.warrior.sprite.tag == (if animation_frame <= 4 {
                SpriteTag::WarriorDeadStart
            } else {
                SpriteTag::WarriorDeadEnd
            }),
            final(self).player.warrior.sprite.index == animation_frame,
            final(self).player.warrior.position == old(self).player.warrior.position,
            r == final(self).player.warrior.placement(
                if animation_frame <= 4 {
                    old(self).map_position
                } else {
                    Vec2 {
                        x: old(self).map_position.x,
                        y: Fixed { raw: (old(self).map_position.y.raw - 3840) as i32 },
                    }
                },
            ),
    {
        self.timer = self.timer.wrapping_add(1);
        if animation_frame <= 4 {
            self.player.warrior.sprite = SpriteFrame {
                tag: SpriteTag::WarriorDeadStart,
                index: animation_frame,
                ..self.player.warrior.sprite
            };
            self.player.warrior.commit_position(self.map_position)
        } else {
            self.player.warrior.sprite = SpriteFrame {
                tag: SpriteTag::WarriorDeadEnd,
                index: animation_frame,
                ..self.player.warrior.sprite
            };
            self.player.warrior.commit_position(
                self.map_position.minus(Vec2::new(Fixed::zero(), Fixed::from_raw(3840))),
            )
        }
    }

    /// The camera offset for the next frame.
    pub fn get_next_map_position(&self) -> (r: Vec2)
        requires
            self.wf(),
        ensures
            r.x.raw == 256 * camera_axis(
                self.player.warrior.position.x.raw as int,
                self.map_position.x.raw as int,
                SCREEN_WIDTH / 2,
                scroll_limit(self.level.width as int, SCREEN_WIDTH as int),
            ),
            r.y.raw == 256 * camera_axis(
                self.player.warrior.position.y.raw as int,
                self.map_position.y.raw as int,
                SCREEN_HEIGHT / 2,
                scroll_limit(self.level.height as int, SCREEN_HEIGHT as int),
            ),
            0 <= r.x.raw <= 256 * scroll_limit(self.level.width as int, SCREEN_WIDTH as int),
            0 <= r.y.raw <= 256 * scroll_limit(self.level.height as int, SCREEN_HEIGHT as int),
    {
        next_map_position(
            self.player.warrior.position,
            self.map_position,
            self.level.width,
            self.level.height,
        )
    }

    /// Whether one of the enemies kills a player at `pos` doing `action` this
    /// frame.
    pub open spec fn enemy_kills(&self, pos: Vec2, action: PlayerAction, timer: i32) -> bool {
        exists|i: int|
            0 <= i < self.enemies@.len() && #[trigger] self.enemies@[i].kills_player(
                pos,
                action,
                timer,
            )
    }

    /// One frame of play: the frame counter advances, the player updates, then
    /// each enemy slot in order against the player's new position and action,
    /// then the camera. The player dies if an enemy kills them or they touch a
    /// lethal tile; else the level is complete if they touch a goal tile.
    pub fn update_frame(&mut self, input: &FrameInput) -> (r: UpdateState)
        requires
            old(self).wf(),
        ensures
            final(self).wf(),
            final(self).level == old(self).level,
            final(self).timer == old(self).timer.wrapping_add(1),
            old(self).player.stepped(&old(self).level, *input, final(self).timer, final(self).player),
            forall|i: int|
                0 <= i < ENEMY_SLOTS ==> #[trigger] old(self).enemies@[i].stepped(
                    &old(self).level,
                    final(self).player.warrior.position,
                    final(self).player.action,
                    final(self).timer,
                    final(self).enemies@[i],
                ),
            final(self).map_position.x.raw == 256 * camera_axis(
                final(self).player.warrior.position.x.raw as int,
                old(self).map_position.x.raw as int,
                SCREEN_WIDTH / 2,
                scroll_limit(old(self).level.width as int, SCREEN_WIDTH as int),
            ),
            final(self).map_position.y.raw == 256 * camera_axis(
                final(self).player.warrior.position.y.raw as int,
                old(self).map_position.y.raw as int,
                SCREEN_HEIGHT / 2,
                scroll_limit(old(self).level.height as int, SCREEN_HEIGHT as int),
            ),
            ({
                let p = final(self).player.warrior;
                let dead = old(self).enemy_kills(p.position, final(self).player.action, final(self).timer)
                    || p.hits(&old(self).level, p.position.x.raw as int, p.position.y.raw as int, KILL_TILE);
                let won = p.hits(&old(self).level, p.position.x.raw as int, p.position.y.raw as int, WIN_TILE);
                r == if dead {
                    UpdateState::Dead
                } else if won {
                    UpdateState::Complete
                } else {
                    UpdateState::Normal
                }
            }),
    {
        let ghost before = *self;
        self.timer = self.timer.wrapping_add(1);
        let timer: i32 = self.timer;
        self.player.update_frame(input, timer, &self.level);
        let player_pos = self.player.warrior.position;
        let action = self.player.action;
        let ghost moved_player = self.player;
        let mut player_dead = false;
        let mut i: usize = 0;
        while i < ENEMY_SLOTS
            invariant
                before.wf(),
                self.level == before.level,
                self.player.wf(),
                self.player == moved_player,
                before.player.stepped(&before.level, *input, timer, moved_player),
                self.player.warrior.position == player_pos,
                self.player.action == action,
                self.timer == timer,
                self.map_position == before.map_position,
                i <= ENEMY_SLOTS,
                self.enemies@.len() == ENEMY_SLOTS,
                forall|j: int| 0 <= j < ENEMY_SLOTS ==> (#[trigger] self.enemies@[j]).wf(),
                forall|j: int| i <= j < ENEMY_SLOTS ==> #[trigger] self.enemies@[j] == before.enemies@[j],
                forall|j: int|
                    0 <= j < i ==> #[trigger] before.enemies@[j].stepped(
                        &before.level,
                        player_pos,
                        action,
                        timer,
                        self.enemies@[j],
                    ),
                player_dead == exists|j: int|
                    0 <= j < i && #[trigger] before.enemies@[j].kills_player(player_pos, action, timer),
            decreases ENEMY_SLOTS - i,
        {
            let mut enemy = self.enemies[i];
            let outcome = enemy.update(&self.level, player_pos, action, timer);
            proof {
                if before.enemies@[i as int].kills_player(player_pos, action, timer) {
                    assert(exists|j: int|
                        0 <= j < i + 1 && #[trigger] before.enemies@[j].kills_player(player_pos, action, timer));
                }
            }
            if outcome == EnemyUpdateState::KillPlayer {
                player_dead = true;
            }
            self.enemies.set(i, enemy);
            i = i + 1;
        }
        assert(player_dead == before.enemy_kills(player_pos, action, timer));
        self.map_position = self.get_next_map_position();
        player_dead = player_dead || self.player.warrior.killision_at_point(&self.level, player_pos);
        if player_dead {
            UpdateState::Dead
        } else if self.player.warrior.completion_at_point(&self.level, player_pos) {
            UpdateState::Complete
        } else {
            UpdateState::Normal
        }
    }

    /// Where the player's sprite goes this frame, with the camera offset and
    /// the attack shift applied.
    pub fn commit_player(&self) -> (r: SpritePlacement)
        requires
            self.wf(),
        ensures
            r == self.player.warrior.placement(
                Vec2 {
                    x: Fixed {
                        raw: (self.map_position.x.raw - self.player.sprite_off_set.x.raw) as i32,
                    },
                    y: Fixed {
                        raw: (self.map_position.y.raw - self.player.sprite_off_set.y.raw) as i32,
                    },
                },
            ),
    {
        self.player.warrior.commit_position(self.map_position.minus(self.player.sprite_off_set))
    }
}

fn clamp_i32(v: i32, lo: i32, hi: i32) -> (r: i32)
    requires
        lo <= hi,
    ensures
        r == clamp(v as int, lo as int, hi as int),
{
    if v < lo {
        lo
    } else if v > hi {
        hi
    } else {
        v
    }
}

} // verus!
