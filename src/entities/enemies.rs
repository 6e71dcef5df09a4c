//! Enemies: per-kind state machines over an entity, kept in fixed slots with
//! an empty variant for despawned ones.
use vstd::prelude::*;
use crate::entities::entity::{Entity, Mask, MAX_POS_RAW, within};
use crate::fixed::{abs_int, Fixed, Vec2};
use crate::level::{Level, Point};
use crate::player::PlayerAction;
use crate::sprites::{
    elapsed, elapsed_of, tick_index, tick_index_of, SpritePlacement, SpriteFrame, SpriteTag,
};

verus! {

/// Squared distance, raw, under which a boar notices the player (64 pixels).
pub const BOAR_SIGHT_SQ_RAW: i64 = 1048576;

/// Squared distance, raw, under which a boar and the player meet (15 pixels).
pub const BOAR_REACH_SQ_RAW: i64 = 57600;

/// Horizontal speed of a charging boar, raw (1/4 pixel).
pub const BOAR_SPEED_RAW: i32 = 64;

/// Frames a boar's charge lasts: seven run frames of four frames each.
pub const BOAR_RUN_FRAMES: i32 = 28;

/// Frames a boar takes to die: four hit frames of four frames each.
pub const BOAR_DYING_FRAMES: i32 = 16;

/// Manhattan distance, raw, under which an enemy stop halts an enemy (8 pixels).
pub const STOP_RADIUS_RAW: i32 = 2048;

/// What an enemy's update asks of the level loop.
#[derive(Clone, Copy, Debug, PartialEq, Eq, Structural)]
pub enum EnemyUpdateState {
    Nothing,
    KillPlayer,
}

/// What a boar's update asks of its slot.
#[derive(Clone, Copy, Debug, PartialEq, Eq, Structural)]
pub enum UpdateState {
    Nothing,
    KillPlayer,
    Remove,
}

/// The squared distance between two points, raw, as `Vec2::magnitude_squared`
/// computes it.
pub open spec fn dist_sq(a: Vec2, b: Vec2) -> int {
    let dx = a.x.raw - b.x.raw;
    let dy = a.y.raw - b.y.raw;
    (dx * dx) / 256 + (dy * dy) / 256
}

/// Whether the point `p` lies within the stop radius of the enemy stop `s`
/// (in whole pixels), by Manhattan distance.
pub open spec fn near_stop(p: (int, int), s: Point) -> bool {
    abs_int(p.0 - s.x * 256) + abs_int(p.1 - s.y * 256) < STOP_RADIUS_RAW
}

/// Whether the point the entity heads for this frame is near an enemy stop.
pub open spec fn heading_to_stop(level: &Level, e: Entity) -> bool {
    exists|i: int|
        0 <= i < level.enemy_stops@.len() && #[trigger] near_stop(
            (e.position.x.raw + e.velocity.x.raw, e.position.y.raw + e.velocity.y.raw),
            level.enemy_stops@[i],
        )
}

/// `post` is `e` after the enemy move: halted if it heads to an enemy stop,
/// then moved through the level.
pub open spec fn patrolled(level: &Level, e: Entity, post: Entity) -> bool {
    let v = if heading_to_stop(level, e) {
        Vec2 { x: Fixed { raw: 0 }, y: Fixed { raw: 0 } }
    } else {
        e.velocity
    };
    Entity { velocity: v, ..e }.moved(level, post)
}

/// What every enemy has: its entity.
#[derive(Clone, Copy, Debug, PartialEq, Eq, Structural)]
pub struct EnemyInfo {
    pub entity: Entity,
}

impl EnemyInfo {
    pub fn new(start_pos: Vec2, collision: Mask) -> (r: EnemyInfo)
        ensures
            r.entity.position == start_pos,
            r.entity.velocity.is_zero(),
            r.entity.collision_mask == collision,
            r.entity.size == (Point { x: 16, y: 16 }),
            r.entity.sprite_offset == (Point { x: 0, y: 0 }),
    {
        let mut enemy_info = EnemyInfo { entity: Entity::new(collision, None) };
        enemy_info.entity.position = start_pos;
        enemy_info
    }

    /// Halts the enemy at an enemy stop, then moves it.
    pub fn update(&mut self, level: &Level)
        requires
            old(self).entity.wf(),
            level.wf(),
        ensures
            final(self).entity.wf(),
            patrolled(level, old(self).entity, final(self).entity),
    {
        let ghost e0 = self.entity;
        let mut i: usize = 0;
        while i < level.enemy_stops.len()
            invariant
                level.wf(),
                e0.wf(),
                0 <= i <= level.enemy_stops@.len(),
                self.entity == (Entity { velocity: self.entity.velocity, ..e0 }),
                self.entity.velocity == e0.velocity || self.entity.velocity.is_zero(),
                self.entity.velocity.is_zero() && !(self.entity.velocity == e0.velocity)
                    ==> heading_to_stop(level, e0),
                (exists|j: int|
                    0 <= j < i && #[trigger] near_stop(
                        (e0.position.x.raw + e0.velocity.x.raw, e0.position.y.raw
                            + e0.velocity.y.raw),
                        level.enemy_stops@[j],
                    )) ==> self.entity.velocity.is_zero(),
            decreases level.enemy_stops@.len() - i,
        {
            let stop: Point = level.enemy_stops[i];
            assert(crate::level::point_ok(level.enemy_stops@[i as int]));
            let ahead = self.entity.position.plus(self.entity.velocity);
            let d = ahead.minus(Vec2::from_ints(stop.x, stop.y));
            if d.manhattan_distance().raw < STOP_RADIUS_RAW {
                proof {
                    if !self.entity.velocity.is_zero() {
                        assert(near_stop(
                            (e0.position.x.raw + e0.velocity.x.raw, e0.position.y.raw
                                + e0.velocity.y.raw),
                            level.enemy_stops@[i as int],
                        ));
                    }
                }
                self.entity.velocity = Vec2::zero();
            } else {
                proof {
                    if self.entity.velocity == e0.velocity {
                        assert(!near_stop(
                            (e0.position.x.raw + e0.velocity.x.raw, e0.position.y.raw
                                + e0.velocity.y.raw),
                            level.enemy_stops@[i as int],
                        ));
                    }
                }
            }
            i = i + 1;
        }
        proof {
            if heading_to_stop(level, e0) {
                let j = choose|j: int|
                    0 <= j < level.enemy_stops@.len() && #[trigger] near_stop(
                        (e0.position.x.raw + e0.velocity.x.raw, e0.position.y.raw
                            + e0.velocity.y.raw),
                        level.enemy_stops@[j],
                    );
                assert(self.entity.velocity.is_zero());
            }
            if self.entity.velocity.is_zero() {
                assert(self.entity.velocity == (Vec2 { x: Fixed { raw: 0 }, y: Fixed { raw: 0 } }));
            }
        }
        self.entity.update_position(level);
    }

    pub fn commit(&self, background_offset: Vec2) -> (r: SpritePlacement)
        requires
            self.entity.wf(),
            within(background_offset.x.raw as int, MAX_POS_RAW as int),
            within(background_offset.y.raw as int, MAX_POS_RAW as int),
        ensures
            r == self.entity.placement(background_offset),
    {
        self.entity.commit_position(background_offset)
    }
}

/// A boar's state; running and dying remember the frame they began on.
#[derive(Clone, Copy, Debug, PartialEq, Eq, Structural)]
pub enum BoarState {
    Idle,
    Running(i32),
    Dying(i32),
}

/// A boar: idles until the player comes near, then charges toward the player
/// for a while; dies when it meets an attacking player, and kills one that is
/// not attacking.
#[derive(Clone, Copy, Debug, PartialEq, Eq, Structural)]
pub struct Boar {
    pub enemy_info: EnemyInfo,
    pub state: BoarState,
}

impl Boar {
    pub open spec fn wf(&self) -> bool {
        &&& self.enemy_info.entity.wf()
        &&& self.enemy_info.entity.collision_mask == (Mask { x: 28, y: 14 })
        &&& within(self.enemy_info.entity.velocity.x.raw as int, BOAR_SPEED_RAW as int)
        &&& self.enemy_info.entity.velocity.y.raw == 0
    }

    /// The boar and the outcome of this frame's decision, before the move:
    /// - idle: shows the idle loop; with the player in sight it starts running
    ///   toward the player;
    /// - running: shows the run cycle, four frames per animation frame, and
    ///   once 28 frames have passed since it began (counted modulo 2^32 on
    ///   the wrapping frame counter) stops and idles;
    /// - idle or running, meeting the player: dies if the player attacks, else
    ///   kills the player (and does not move this frame);
    /// - dying: stands still showing the hit animation, and once 16 frames
    ///   have passed since it began asks to be removed.
    pub open spec fn decide(
        &self,
        player_pos: Vec2,
        player_action: PlayerAction,
        timer: i32,
    ) -> (Boar, UpdateState) {
        let e = self.enemy_info.entity;
        let d2 = dist_sq(e.position, player_pos);
        let met = d2 < BOAR_REACH_SQ_RAW;
        let attacked = player_action == PlayerAction::Attack;
        let still = Vec2 { x: Fixed { raw: 0 }, y: Fixed { raw: 0 } };
        match self.state {
            BoarState::Idle => {
                let e1 = Entity {
                    sprite: SpriteFrame {
                        tag: SpriteTag::BoarIdle,
                        index: tick_index(timer as int, 16) as usize,
                        ..e.sprite
                    },
                    ..e
                };
                let sees = d2 < BOAR_SIGHT_SQ_RAW;
                let e2 = if sees {
                    Entity {
                        velocity: Vec2 {
                            x: Fixed {
                                raw: if e.position.x.raw > player_pos.x.raw {
                                    (-BOAR_SPEED_RAW) as i32
                                } else {
                                    BOAR_SPEED_RAW
                                },
                            },
                            y: Fixed { raw: 0 },
                        },
                        ..e1
                    }
                } else {
                    e1
                };
                let s1 = if sees {
                    BoarState::Running(timer)
                } else {
                    BoarState::Idle
                };
                if met && !attacked {
                    (Boar { enemy_info: EnemyInfo { entity: e2 }, state: s1 }, UpdateState::KillPlayer)
                } else {
                    (
                        Boar {
                            enemy_info: EnemyInfo { entity: e2 },
                            state: if met {
                                BoarState::Dying(timer)
                            } else {
                                s1
                            },
                        },
                        UpdateState::Nothing,
                    )
                }
            },
            BoarState::Running(start) => {
                let since = elapsed(timer, start);
                let offset = since / 4;
                let (e1, s1) = if since >= BOAR_RUN_FRAMES {
                    (Entity { velocity: still, ..e }, BoarState::Idle)
                } else {
                    (
                        Entity {
                            sprite: SpriteFrame {
                                tag: SpriteTag::BoarRun,
                                index: offset as usize,
                                ..e.sprite
                            },
                            ..e
                        },
                        self.state,
                    )
                };
                if met && !attacked {
                    (Boar { enemy_info: EnemyInfo { entity: e1 }, state: s1 }, UpdateState::KillPlayer)
                } else {
                    (
                        Boar {
                            enemy_info: EnemyInfo { entity: e1 },
                            state: if met {
                                BoarState::Dying(timer)
                            } else {
                                s1
                            },
                        },
                        UpdateState::Nothing,
                    )
                }
            },
            BoarState::Dying(start) => {
                let since = elapsed(timer, start);
                let offset = since / 4;
                let e1 = Entity { velocity: still, ..e };
                if since >= BOAR_DYING_FRAMES {
                    (Boar { enemy_info: EnemyInfo { entity: e1 }, state: self.state }, UpdateState::Remove)
                } else {
                    (
                        Boar {
                            enemy_info: EnemyInfo {
                                entity: Entity {
                                    sprite: SpriteFrame {
                                        tag: SpriteTag::BoarHit,
                                        index: offset as usize,
                                        ..e.sprite
                                    },
                                    ..e1
                                },
                            },
                            state: self.state,
                        },
                        UpdateState::Nothing,
                    )
                }
            },
        }
    }

    /// A boar at `start_pos` with a 28 by 14 collision box.
    pub fn new(start_pos: Vec2) -> (r: Boar)
        requires
            within(start_pos.x.raw as int, MAX_POS_RAW as int),
            within(start_pos.y.raw as int, MAX_POS_RAW as int),
        ensures
            r.wf(),
            r.state == BoarState::Idle,
            r.enemy_info.entity.position == start_pos,
            r.enemy_info.entity.velocity.is_zero(),
    {
        Boar { enemy_info: EnemyInfo::new(start_pos, Mask { x: 28, y: 14 }), state: BoarState::Idle }
    }

    /// One frame of the boar: the decision `decide` describes, then, unless it
    /// killed the player or asks to be removed, the enemy move.
    pub fn update(
        &mut self,
        level: &Level,
        player_pos: Vec2,
        player_action: PlayerAction,
        timer: i32,
    ) -> (r: UpdateState)
        requires
            old(self).wf(),
            level.wf(),
            within(player_pos.x.raw as int, MAX_POS_RAW as int),
            within(player_pos.y.raw as int, MAX_POS_RAW as int),
        ensures
            final(self).wf(),
            ({
                let (b, out) = old(self).decide(player_pos, player_action, timer);
                &&& r == out
                &&& out != UpdateState::Nothing ==> *final(self) == b
                &&& out == UpdateState::Nothing ==> final(self).state == b.state && patrolled(
                    level,
                    b.enemy_info.entity,
                    final(self).enemy_info.entity,
                )
            }),
    {
        let e = self.enemy_info.entity;
        let d2: i64 = e.position.minus(player_pos).magnitude_squared();
        let player_has_collided = d2 < BOAR_REACH_SQ_RAW;
        let attacked = player_action == PlayerAction::Attack;
        match self.state {
            BoarState::Idle => {
                self.enemy_info.entity.sprite = SpriteFrame {
                    tag: SpriteTag::BoarIdle,
                    index: tick_index_of(timer, 16),
                    ..self.enemy_info.entity.sprite
                };
                if d2 < BOAR_SIGHT_SQ_RAW {
                    self.state = BoarState::Running(timer);
                    let x_vel: i32 = if e.position.x.raw > player_pos.x.raw {
                        -BOAR_SPEED_RAW
                    } else {
                        BOAR_SPEED_RAW
                    };
                    self.enemy_info.entity.velocity = Vec2::new(Fixed::from_raw(x_vel), Fixed::zero());
                }
                if player_has_collided {
                    if attacked {
                        self.state = BoarState::Dying(timer);
                    } else {
                        return UpdateState::KillPlayer;
                    }
                }
            },
            BoarState::Running(start) => {
                let since: u32 = elapsed_of(timer, start);
                let offset: usize = (since / 4) as usize;
                if since >= BOAR_RUN_FRAMES as u32 {
                    self.enemy_info.entity.velocity = Vec2::zero();
                    self.state = BoarState::Idle;
                } else {
                    self.enemy_info.entity.sprite = SpriteFrame {
                        tag: SpriteTag::BoarRun,
                        index: offset,
                        ..self.enemy_info.entity.sprite
                    };
                }
                if player_has_collided {
                    if attacked {
                        self.state = BoarState::Dying(timer);
                    } else {
                        return UpdateState::KillPlayer;
                    }
                }
            },
            BoarState::Dying(start) => {
                let since: u32 = elapsed_of(timer, start);
                let offset: usize = (since / 4) as usize;
                self.enemy_info.entity.velocity = Vec2::zero();
                if since >= BOAR_DYING_FRAMES as u32 {
                    return UpdateState::Remove;
                }
                self.enemy_info.entity.sprite = SpriteFrame {
                    tag: SpriteTag::BoarHit,
                    index: offset,
                    ..self.enemy_info.entity.sprite
                };
            },
        }
        self.enemy_info.update(level);
        UpdateState::Nothing
    }

    pub fn commit(&self, background_offset: Vec2) -> (r: SpritePlacement)
        requires
            self.wf(),
            within(background_offset.x.raw as int, MAX_POS_RAW as int),
            within(background_offset.y.raw as int, MAX_POS_RAW as int),
        ensures
            r == self.enemy_info.entity.placement(background_offset),
    {
        self.enemy_info.commit(background_offset)
    }
}

/// An enemy slot: a boar, or empty once its enemy is gone.
#[derive(Clone, Copy, Debug, PartialEq, Eq, Structural)]
pub enum Enemy {
    Boar(Boar),
    Empty,
}

impl Enemy {
    pub open spec fn wf(&self) -> bool {
        match self {
            Enemy::Boar(b) => b.wf(),
            Enemy::Empty => true,
        }
    }

    /// Whether this frame's update reports that the player is killed.
    pub open spec fn kills_player(
        &self,
        player_pos: Vec2,
        player_action: PlayerAction,
        timer: i32,
    ) -> bool {
        match self {
            Enemy::Boar(b) => b.decide(player_pos, player_action, timer).1
                == UpdateState::KillPlayer,
            Enemy::Empty => false,
        }
    }

    /// `post` is this slot after one frame: an empty slot stays empty; a boar
    /// that asks to be removed leaves the slot empty; one that kills the player
    /// stands as it decided; any other makes the enemy move.
    pub open spec fn stepped(
        &self,
        level: &Level,
        player_pos: Vec2,
        player_action: PlayerAction,
        timer: i32,
        post: Enemy,
    ) -> bool {
        match self {
            Enemy::Empty => post == Enemy::Empty,
            Enemy::Boar(b) => {
                let (b1, out) = b.decide(player_pos, player_action, timer);
                match out {
                    UpdateState::Remove => post == Enemy::Empty,
                    UpdateState::KillPlayer => post == Enemy::Boar(b1),
                    UpdateState::Nothing => match post {
                        Enemy::Boar(b2) => b2.state == b1.state && patrolled(
                            level,
                            b1.enemy_info.entity,
                            b2.enemy_info.entity,
                        ),
                        Enemy::Empty => false,
                    },
                }
            },
        }
    }

    /// A boar standing on the spawn point `start_pos`, one pixel lower.
    pub fn new_boar(start_pos: Vec2) -> (r: Enemy)
        requires
            within(start_pos.x.raw as int, MAX_POS_RAW as int),
            within(start_pos.y.raw as int, MAX_POS_RAW as int - 256),
        ensures
            r.wf(),
            match r {
                Enemy::Boar(b) => b.state == BoarState::Idle && b.enemy_info.entity.position.x
                    == start_pos.x && b.enemy_info.entity.position.y.raw == start_pos.y.raw + 256
                    && b.enemy_info.entity.velocity.is_zero(),
                Enemy::Empty => false,
            },
    {
        Enemy::Boar(Boar::new(start_pos.plus(Vec2::new(Fixed::zero(), Fixed::from_raw(256)))))
    }

    pub fn update(
        &mut self,
        level: &Level,
        player_pos: Vec2,
        player_action: PlayerAction,
        timer: i32,
    ) -> (r: EnemyUpdateState)
        requires
            old(self).wf(),
            level.wf(),
            within(player_pos.x.raw as int, MAX_POS_RAW as int),
            within(player_pos.y.raw as int, MAX_POS_RAW as int),
        ensures
            final(self).wf(),
            old(self).stepped(level, player_pos, player_action, timer, *final(self)),
            r == (if old(self).kills_player(player_pos, player_action, timer) {
                EnemyUpdateState::KillPlayer
            } else {
                EnemyUpdateState::Nothing
            }),
    {
        match *self {
            Enemy::Boar(b) => {
                let mut boar = b;
                let update_state = boar.update(level, player_pos, player_action, timer);
                match update_state {
                    UpdateState::Remove => {
                        *self = Enemy::Empty;
                        EnemyUpdateState::Nothing
                    },
                    UpdateState::KillPlayer => {
                        *self = Enemy::Boar(boar);
                        EnemyUpdateState::KillPlayer
                    },
                    UpdateState::Nothing => {
                        *self = Enemy::Boar(boar);
                        EnemyUpdateState::Nothing
                    },
                }
            },
            Enemy::Empty => EnemyUpdateState::Nothing,
        }
    }

    /// Where the enemy's sprite goes with the camera at `background_offset`;
    /// none for an empty slot.
    pub fn commit(&self, background_offset: Vec2) -> (r: Option<SpritePlacement>)
        requires
            self.wf(),
            within(background_offset.x.raw as int, MAX_POS_RAW as int),
            within(background_offset.y.raw as int, MAX_POS_RAW as int),
        ensures
            r == match self {
                Enemy::Boar(b) => Some(b.enemy_info.entity.placement(background_offset)),
                Enemy::Empty => None,
            },
    {
        match self {
            Enemy::Boar(boar) => Some(boar.commit(background_offset)),
            Enemy::Empty => None,
        }
    }
}

} // verus!
