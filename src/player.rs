//! The player: a state machine over an entity that turns input into motion,
//! animation and attacks.
use vstd::prelude::*;
use vstd::arithmetic::div_mod::{lemma_fundamental_div_mod, lemma_mod_bound, lemma_small_mod};
use crate::entities::entity::{Entity, Mask, MAX_POS_RAW, MAX_SPEED_RAW, within};
use crate::fixed::{trunc_div, Fixed, Vec2};
use crate::input::{FrameInput, Tri};
use crate::level::{Level, COLLISION_TILE};
use crate::sprites::{elapsed, elapsed_of, tick_index, tick_index_of, SpriteFrame, SpriteTag};

verus! {

/// Horizontal acceleration on the ground per unit of input, raw (1/8 pixel).
pub const GROUND_ACCEL_RAW: i32 = 32;

/// Horizontal acceleration in the air per unit of input, raw (1/64 pixel).
pub const AIR_ACCEL_RAW: i32 = 4;

/// Gravity added to the vertical speed each airborne frame, raw (1/16 pixel).
pub const GRAVITY_RAW: i32 = 16;

/// Upward speed a jump sets, raw (1.5 pixels).
pub const JUMP_SPEED_RAW: i32 = 384;

/// Frames per attack animation frame.
pub const ATTACK_TICKS: i32 = 16;

/// Extra frames the last attack frame is held before the attack ends.
pub const ATTACK_HOLD_FRAMES: i32 = 2;

/// Horizontal shift of the sprite while attacking facing right, in pixels.
pub const ATTACK_SHIFT_PX: i32 = 15;

/// Vertical speed past which the player counts as rising or falling, raw
/// (1/16 pixel).
pub const DEADBAND_RAW: i32 = 16;

/// What the player is doing.
#[derive(Clone, Copy, Debug, PartialEq, Eq, Structural)]
pub enum PlayerAction {
    Idle,
    Run,
    Jump,
    DoubleJump,
    Attack,
    Dash,
}

/// Triangle wave of period `2 (n - 1)` over `i`: `0, 1, ..., n - 1, n - 2, ..., 1`.
pub open spec fn ping_pong_spec(i: int, n: int) -> int {
    let cycle = 2 * (n - 1);
    let m = i - cycle * trunc_div(i, cycle);
    if m >= n {
        cycle - m
    } else {
        m
    }
}

pub fn ping_pong(i: i32, n: i32) -> (r: i32)
    requires
        2 <= n <= 1073741824,
    ensures
        r == ping_pong_spec(i as int, n as int),
        i >= 0 ==> 0 <= r < n,
{
    let cycle: i32 = 2 * (n - 1);
    let q: i32 = i / cycle;
    proof {
        let ii = i as int;
        let c = cycle as int;
        if ii >= 0 {
            lemma_fundamental_div_mod(ii, c);
            lemma_mod_bound(ii, c);
            assert(q == ii / c);
            assert(c * q == ii - ii % c);
        } else {
            lemma_fundamental_div_mod(-ii, c);
            lemma_mod_bound(-ii, c);
            let k = (-ii) / c;
            assert(q == -k);
            assert(c * q == -(c * k)) by (nonlinear_arith)
                requires
                    q == -k,
            ;
            assert(c * q == ii + (-ii) % c);
        }
    }
    let i: i32 = i - cycle * q;
    if i >= n {
        cycle - i
    } else {
        i
    }
}

/// Velocity after this frame's control and forces, before collisions: on the
/// ground input accelerates (unless attacking) and friction damps both
/// components by 54/64; in the air input accelerates less, damping is 63/64
/// and gravity pulls down. A jump sets the vertical speed.
pub open spec fn steered_velocity(
    v: (int, int),
    on_ground: bool,
    attacking: bool,
    tri: int,
    jumped: bool,
) -> (int, int) {
    if on_ground {
        let vx = if attacking {
            v.0
        } else {
            v.0 + GROUND_ACCEL_RAW * tri
        };
        let damped = (trunc_div(vx * 54, 64), trunc_div(v.1 * 54, 64));
        if jumped {
            (damped.0, -JUMP_SPEED_RAW)
        } else {
            damped
        }
    } else {
        let vy = if jumped {
            -JUMP_SPEED_RAW
        } else {
            v.1
        };
        let vx = v.0 + AIR_ACCEL_RAW * tri;
        (trunc_div(vx * 63, 64), trunc_div(vy * 63, 64) + GRAVITY_RAW)
    }
}

/// The warrior's sprite: the attack frame while attacking; else the jump
/// animation while rising or falling past the deadband; else the run cycle
/// while moving sideways; else the idle cycle.
pub open spec fn warrior_sprite(
    attack_frame: Option<usize>,
    v: (int, int),
    timer: int,
    hflip: bool,
    in_front: bool,
) -> SpriteFrame {
    let (tag, index) = match attack_frame {
        Some(f) => (SpriteTag::WarriorAttack, f as int),
        None => if v.1 < -DEADBAND_RAW {
            (SpriteTag::WarriorJump, tick_index(timer, 16))
        } else if v.1 > DEADBAND_RAW {
            (SpriteTag::WarriorJump, if v.1 * 2 > 768 {
                tick_index(timer, 4)
            } else {
                0
            })
        } else if v.0 != 0 {
            (SpriteTag::WarriorRun, ping_pong_spec(tick_index(timer, 16), 4))
        } else {
            (SpriteTag::WarriorIdle, tick_index(timer, 32))
        },
    };
    SpriteFrame { tag, index: index as usize, hflip, in_front }
}

/// The player: the warrior's entity, ground contact, facing, double-jump
/// eligibility, the current action and the attack's timing.
pub struct Player {
    pub warrior: Entity,
    pub is_on_ground: bool,
    pub facing: Tri,
    pub has_double_jumped: bool,
    pub action: PlayerAction,
    /// Frame on which the current attack began.
    pub attack_start: i32,
    /// Number of frames in the attack animation.
    pub attack_frames: usize,
    pub times_last_attack_frame_displayed: i32,
    /// Cosmetic shift of the sprite, applied while attacking facing right.
    pub sprite_off_set: Vec2,
}

impl Player {
    pub open spec fn wf(&self) -> bool {
        &&& self.warrior.wf()
        &&& self.warrior.collision_mask == (Mask { x: 6, y: 16 })
        &&& 1 <= self.attack_frames <= 1000000
        &&& 0 <= self.times_last_attack_frame_displayed <= ATTACK_HOLD_FRAMES
        &&& within(self.sprite_off_set.x.raw as int, 3840)
        &&& within(self.sprite_off_set.y.raw as int, 3840)
    }

    /// Whether the collision box one pixel below the current position meets a
    /// solid tile.
    pub open spec fn grounded(&self, level: &Level) -> bool {
        self.warrior.hits(
            level,
            self.warrior.position.x.raw as int,
            self.warrior.position.y.raw + 256,
            COLLISION_TILE,
        )
    }

    /// Standing still on the ground with nothing going on.
    pub open spec fn at_rest(&self, level: &Level) -> bool {
        &&& self.grounded(level)
        &&& self.is_on_ground
        &&& self.action == PlayerAction::Idle
        &&& self.warrior.velocity.x.raw == 0
        &&& self.warrior.velocity.y.raw == 0
    }

    /// A player standing at `start_position`, lifted 7 pixels so that the
    /// 6 by 16 collision box rests on the tile below.
    pub fn new(start_position: Vec2, attack_frames: usize) -> (r: Player)
        requires
            within(start_position.x.raw as int, MAX_POS_RAW as int),
            within(start_position.y.raw as int, MAX_POS_RAW as int - 1792),
            1 <= attack_frames <= 1000000,
        ensures
            r.wf(),
            r.warrior.position.x == start_position.x,
            r.warrior.position.y.raw == start_position.y.raw - 1792,
            r.warrior.velocity.is_zero(),
            r.is_on_ground,
            r.facing == Tri::Zero,
            !r.has_double_jumped,
            r.action == PlayerAction::Idle,
            r.attack_frames == attack_frames,
            r.times_last_attack_frame_displayed == 0,
            r.sprite_off_set.is_zero(),
            r.warrior.sprite.tag == SpriteTag::WarriorIdle,
    {
        let mut warrior = Entity::new(Mask { x: 6, y: 16 }, None);
        warrior.position = start_position.plus(Vec2::new(Fixed::zero(), Fixed::new(-7)));
        Player {
            warrior,
            is_on_ground: true,
            facing: Tri::Zero,
            has_double_jumped: false,
            action: PlayerAction::Idle,
            attack_start: 0,
            attack_frames,
            times_last_attack_frame_displayed: 0,
            sprite_off_set: Vec2::zero(),
        }
    }

    /// Whether this frame's jump press makes a jump: on the ground unless
    /// attacking, or in the air once, the double jump.
    pub open spec fn jumps(&self, on_ground: bool, input: FrameInput) -> bool {
        input.jump_pressed && if on_ground {
            self.action != PlayerAction::Attack
        } else {
            !self.has_double_jumped
        }
    }

    /// Touching down this frame with a real downward speed (over one pixel).
    pub open spec fn lands(&self, on_ground: bool) -> bool {
        on_ground && !self.is_on_ground && self.warrior.velocity.y.raw > 256
    }

    pub open spec fn facing_after(&self, input: FrameInput) -> Tri {
        if input.x_tri != Tri::Zero {
            input.x_tri
        } else {
            self.facing
        }
    }

    pub open spec fn starts_attack(&self, on_ground: bool, input: FrameInput) -> bool {
        input.attack_pressed && on_ground && self.action != PlayerAction::Attack
    }

    /// The action once the move is done, before a new attack is considered;
    /// an attack under way keeps running through a double jump.
    pub open spec fn moving_action(&self, on_ground: bool, input: FrameInput, vx: int) -> PlayerAction {
        if self.action == PlayerAction::Attack {
            PlayerAction::Attack
        } else if self.jumps(on_ground, input) {
            if on_ground {
                PlayerAction::Jump
            } else {
                PlayerAction::DoubleJump
            }
        } else if on_ground {
            if self.lands(on_ground) || vx == 0 {
                PlayerAction::Idle
            } else {
                PlayerAction::Run
            }
        } else if self.action == PlayerAction::DoubleJump {
            PlayerAction::DoubleJump
        } else {
            PlayerAction::Jump
        }
    }

    /// The velocity this frame's control gives before the move.
    pub open spec fn control_velocity(&self, on_ground: bool, input: FrameInput) -> Vec2 {
        let v = steered_velocity(
            (self.warrior.velocity.x.raw as int, self.warrior.velocity.y.raw as int),
            on_ground,
            self.action == PlayerAction::Attack,
            input.x_tri.value(),
            self.jumps(on_ground, input),
        );
        Vec2 { x: Fixed { raw: v.0 as i32 }, y: Fixed { raw: v.1 as i32 } }
    }

    /// The player after this frame, given ground contact at the start of the
    /// frame and the position the move reached. The velocity becomes the
    /// distance actually moved. An attack starts on a press on the ground and
    /// shows its animation from that frame, 16 frames per animation frame; the
    /// last animation frame is held for two more frames, then the player is
    /// idle again and the sprite shift is cleared.
    #[verifier::opaque]
    pub open spec fn finish(
        &self,
        on_ground: bool,
        input: FrameInput,
        timer: i32,
        pos: Vec2,
    ) -> Player {
        let v = Vec2 {
            x: Fixed { raw: (pos.x.raw - self.warrior.position.x.raw) as i32 },
            y: Fixed { raw: (pos.y.raw - self.warrior.position.y.raw) as i32 },
        };
        let a0 = self.moving_action(on_ground, input, v.x.raw as int);
        let facing = self.facing_after(input);
        let starts = self.starts_attack(on_ground, input);
        let attacking = starts || a0 == PlayerAction::Attack;
        let start = if starts {
            timer
        } else {
            self.attack_start
        };
        let times0 = if starts {
            0
        } else {
            self.times_last_attack_frame_displayed as int
        };
        let off0 = if starts {
            if facing == Tri::Positive {
                Vec2 { x: Fixed { raw: (-ATTACK_SHIFT_PX * 256) as i32 }, y: Fixed { raw: 0 } }
            } else {
                Vec2 { x: Fixed { raw: 0 }, y: Fixed { raw: 0 } }
            }
        } else {
            self.sprite_off_set
        };
        let frame = ((elapsed(timer, start) / ATTACK_TICKS as int) % (
        self.attack_frames as int)) as usize;
        let times1 = if frame + 1 >= self.attack_frames {
            times0 + 1
        } else {
            times0
        };
        let ends = attacking && times1 > ATTACK_HOLD_FRAMES;
        let hflip = match facing {
            Tri::Negative => true,
            Tri::Positive => false,
            Tri::Zero => self.warrior.sprite.hflip,
        };
        Player {
            warrior: Entity {
                position: pos,
                velocity: v,
                sprite: warrior_sprite(
                    if attacking {
                        Some(frame)
                    } else {
                        None
                    },
                    (v.x.raw as int, v.y.raw as int),
                    timer as int,
                    hflip,
                    self.warrior.sprite.in_front,
                ),
                ..self.warrior
            },
            is_on_ground: on_ground,
            facing,
            has_double_jumped: if self.lands(on_ground) {
                false
            } else if !on_ground && self.jumps(on_ground, input) {
                true
            } else {
                self.has_double_jumped
            },
            action: if !attacking {
                a0
            } else if ends {
                PlayerAction::Idle
            } else {
                PlayerAction::Attack
            },
            attack_start: start,
            attack_frames: self.attack_frames,
            times_last_attack_frame_displayed: if !attacking {
                times0 as i32
            } else if ends {
                0
            } else {
                times1 as i32
            },
            sprite_off_set: if ends {
                Vec2 { x: Fixed { raw: 0 }, y: Fixed { raw: 0 } }
            } else {
                off0
            },
        }
    }

    /// `post` is this player after one frame: the entity moved with the
    /// velocity that control gives, and the rest as `finish` says.
    pub open spec fn stepped(&self, level: &Level, input: FrameInput, timer: i32, post: Player) -> bool {
        let g = self.grounded(level);
        let pre = Entity { velocity: self.control_velocity(g, input), ..self.warrior };
        &&& pre.moved(level, Entity { position: post.warrior.position, ..pre })
        &&& post == self.finish(g, input, timer, post.warrior.position)
    }

    /// One frame: ground contact is tested one pixel below, input and forces
    /// set the velocity, the entity moves through the level, and facing,
    /// attack and animation follow.
    pub fn update_frame(&mut self, input: &FrameInput, timer: i32, level: &Level)
        requires
            old(self).wf(),
            level.wf(),
        ensures
            final(self).wf(),
            old(self).stepped(level, *input, timer, *final(self)),
            old(self).at_rest(level) && input.is_neutral() ==> final(self).at_rest(level)
                && final(self).warrior.position == old(self).warrior.position,
    {
        let ghost before = *self;
        let below = self.warrior.position.plus(Vec2::new(Fixed::zero(), Fixed::from_raw(256)));
        let on_ground = self.warrior.collision_at_point(level, below);
        let landing = on_ground && !self.is_on_ground && self.warrior.velocity.y.raw > 256;
        let was_attacking = self.action == PlayerAction::Attack;
        let jumped = input.jump_pressed && if on_ground {
            !was_attacking
        } else {
            !self.has_double_jumped
        };
        self.warrior.velocity = steer_velocity(
            self.warrior.velocity,
            on_ground,
            was_attacking,
            input.x_tri,
            jumped,
        );
        if landing {
            self.has_double_jumped = false;
        } else if !on_ground && jumped {
            self.has_double_jumped = true;
        }
        self.is_on_ground = on_ground;
        let ghost pre = self.warrior;
        let moved = self.warrior.update_position(level);
        proof {
            if before.at_rest(level) && input.is_neutral() {
                pre.lemma_still(level, self.warrior);
            }
        }
        self.warrior.velocity = moved;
        self.finish_frame(Ghost(before), on_ground, landing, jumped, input, timer);
        proof {
            if before.at_rest(level) && input.is_neutral() {
                lemma_rest_step(before, level, *input, timer);
            }
        }
    }

    /// The part of a frame after the move: action, facing, attack and sprite.
    fn finish_frame(
        &mut self,
        before: Ghost<Player>,
        on_ground: bool,
        landing: bool,
        jumped: bool,
        input: &FrameInput,
        timer: i32,
    )
        requires
            before@.wf(),
            landing == before@.lands(on_ground),
            jumped == before@.jumps(on_ground, *input),
            old(self).warrior == (Entity {
                position: old(self).warrior.position,
                velocity: Vec2 {
                    x: Fixed {
                        raw: (old(self).warrior.position.x.raw
                            - before@.warrior.position.x.raw) as i32,
                    },
                    y: Fixed {
                        raw: (old(self).warrior.position.y.raw
                            - before@.warrior.position.y.raw) as i32,
                    },
                },
                ..before@.warrior
            }),
            old(self).is_on_ground == on_ground,
            old(self).has_double_jumped == (if landing {
                false
            } else if !on_ground && jumped {
                true
            } else {
                before@.has_double_jumped
            }),
            old(self).facing == before@.facing,
            old(self).action == before@.action,
            old(self).attack_start == before@.attack_start,
            old(self).attack_frames == before@.attack_frames,
            old(self).times_last_attack_frame_displayed
                == before@.times_last_attack_frame_displayed,
            old(self).sprite_off_set == before@.sprite_off_set,
        ensures
            *final(self) == before@.finish(on_ground, *input, timer, old(self).warrior.position),
            old(self).warrior.wf() ==> final(self).wf(),
            final(self).warrior.position == old(self).warrior.position,
    {
        reveal(Player::finish);
        let was_attacking = self.action == PlayerAction::Attack;
        let vx: i32 = self.warrior.velocity.x.raw;
        self.action = if was_attacking {
            PlayerAction::Attack
        } else if jumped {
            if on_ground {
                PlayerAction::Jump
            } else {
                PlayerAction::DoubleJump
            }
        } else if on_ground {
            if landing || vx == 0 {
                PlayerAction::Idle
            } else {
                PlayerAction::Run
            }
        } else if self.action == PlayerAction::DoubleJump {
            PlayerAction::DoubleJump
        } else {
            PlayerAction::Jump
        };
        if input.x_tri != Tri::Zero {
            self.facing = input.x_tri;
        }
        let hflip = match self.facing {
            Tri::Negative => true,
            Tri::Positive => false,
            Tri::Zero => self.warrior.sprite.hflip,
        };
        if input.attack_pressed && on_ground && !was_attacking {
            self.action = PlayerAction::Attack;
            self.attack_start = timer;
            self.times_last_attack_frame_displayed = 0;
            self.sprite_off_set = if self.facing == Tri::Positive {
                Vec2::new(Fixed::from_raw(-ATTACK_SHIFT_PX * 256), Fixed::zero())
            } else {
                Vec2::zero()
            };
        }
        let mut attack_frame: Option<usize> = None;
        if self.action == PlayerAction::Attack {
            let since: u32 = elapsed_of(timer, self.attack_start);
            let frame: usize = ((since / ATTACK_TICKS as u32) as usize) % self.attack_frames;
            if frame + 1 >= self.attack_frames {
                self.times_last_attack_frame_displayed = self.times_last_attack_frame_displayed + 1;
                if self.times_last_attack_frame_displayed > ATTACK_HOLD_FRAMES {
                    self.action = PlayerAction::Idle;
                    self.times_last_attack_frame_displayed = 0;
                    self.sprite_off_set = Vec2::zero();
                }
            }
            attack_frame = Some(frame);
        }
        self.warrior.sprite = warrior_sprite_of(
            attack_frame,
            self.warrior.velocity,
            timer,
            hflip,
            self.warrior.sprite.in_front,
        );
    }
}

/// A player at rest who gets no input stays at rest where it is.
proof fn lemma_rest_step(before: Player, level: &Level, input: FrameInput, timer: i32)
    requires
        before.wf(),
        before.at_rest(level),
        input.is_neutral(),
    ensures
        before.finish(before.grounded(level), input, timer, before.warrior.position).at_rest(
            level,
        ),
{
    reveal(Player::finish);
    let after = before.finish(before.grounded(level), input, timer, before.warrior.position);
    assert(after.warrior.position == before.warrior.position);
    assert(after.warrior.collision_mask == before.warrior.collision_mask);
}

/// A player at rest who gets no input for a frame is still at rest, in the
/// same place, after it.
pub proof fn lemma_rest_is_stable(
    level: &Level,
    p: Player,
    input: FrameInput,
    timer: i32,
    post: Player,
)
    requires
        level.wf(),
        p.wf(),
        p.at_rest(level),
        input.is_neutral(),
        p.stepped(level, input, timer, post),
    ensures
        post.at_rest(level),
        post.warrior.position == p.warrior.position,
{
    let g = p.grounded(level);
    let pre = Entity { velocity: p.control_velocity(g, input), ..p.warrior };
    pre.lemma_still(level, Entity { position: post.warrior.position, ..pre });
    lemma_rest_step(p, level, input, timer);
}

/// Holding no input while standing still on the ground, frame after frame,
/// leaves the player idle, at rest, where they stood.
pub proof fn lemma_rest_over_frames(
    level: &Level,
    frames: Seq<Player>,
    inputs: Seq<FrameInput>,
    timers: Seq<i32>,
)
    requires
        level.wf(),
        frames.len() >= 1,
        inputs.len() == frames.len() - 1,
        timers.len() == frames.len() - 1,
        frames[0].at_rest(level),
        forall|k: int| 0 <= k < frames.len() ==> (#[trigger] frames[k]).wf(),
        forall|k: int| 0 <= k < inputs.len() ==> (#[trigger] inputs[k]).is_neutral(),
        forall|k: int|
            0 <= k < inputs.len() ==> #[trigger] frames[k].stepped(
                level,
                inputs[k],
                timers[k],
                frames[k + 1],
            ),
    ensures
        forall|k: int|
            0 <= k < frames.len() ==> (#[trigger] frames[k]).at_rest(level)
                && frames[k].action == PlayerAction::Idle && frames[k].warrior.position
                == frames[0].warrior.position,
    decreases frames.len(),
{
    if frames.len() > 1 {
        let n = frames.len() - 1;
        lemma_rest_over_frames(level, frames.take(n), inputs.take(n - 1), timers.take(n - 1));
        assert(frames.take(n)[n - 1] == frames[n - 1]);
        assert(frames[n - 1].at_rest(level));
        let k = n - 1;
        assert(frames[k].stepped(level, inputs[k], timers[k], frames[k + 1]));
        assert(k + 1 == n);
        lemma_rest_is_stable(level, frames[n - 1], inputs[n - 1], timers[n - 1], frames[n]);
        assert forall|k: int| 0 <= k < frames.len() implies (#[trigger] frames[k]).at_rest(level)
            && frames[k].action == PlayerAction::Idle && frames[k].warrior.position
            == frames[0].warrior.position by {
            if k < n {
                assert(frames.take(n)[k] == frames[k]);
            }
        }
    }
}

/// How many frames an attack has shown its last animation frame `e` frames
/// after it began, for an animation of `n` frames.
pub open spec fn attack_hold_count(e: int, n: int) -> int {
    if e >= ATTACK_TICKS * (n - 1) {
        e - ATTACK_TICKS * (n - 1) + 1
    } else {
        0
    }
}

/// Frames from the start of an attack with an animation of `n` frames to the
/// frame on which the player is idle again: the animation up to its last
/// frame, then the hold.
pub open spec fn attack_length(n: int) -> int {
    ATTACK_TICKS * (n - 1) + ATTACK_HOLD_FRAMES
}

/// The frame an attack starts: pressing attack on the ground.
proof fn lemma_attack_start(level: &Level, p: Player, input: FrameInput, timer: i32, post: Player)
    requires
        level.wf(),
        p.wf(),
        p.action != PlayerAction::Attack,
        p.grounded(level),
        input.attack_pressed,
        p.stepped(level, input, timer, post),
    ensures
        post.action == PlayerAction::Attack,
        post.attack_start == timer,
        post.attack_frames == p.attack_frames,
        post.times_last_attack_frame_displayed == attack_hold_count(0, p.attack_frames as int),
{
    reveal(Player::finish);
    assert(elapsed(timer, timer) == 0);
    lemma_small_mod(0, p.attack_frames as nat);
}

/// A frame `e` frames into an attack, up to the frame that ends it.
proof fn lemma_attack_step(
    level: &Level,
    p: Player,
    input: FrameInput,
    timer: i32,
    post: Player,
    e: int,
)
    requires
        level.wf(),
        p.wf(),
        p.action == PlayerAction::Attack,
        1 <= e <= attack_length(p.attack_frames as int),
        elapsed(timer, p.attack_start) == e,
        p.times_last_attack_frame_displayed == attack_hold_count(e - 1, p.attack_frames as int),
        p.stepped(level, input, timer, post),
    ensures
        post.attack_start == p.attack_start,
        post.attack_frames == p.attack_frames,
        e < attack_length(p.attack_frames as int) ==> post.action == PlayerAction::Attack
            && post.times_last_attack_frame_displayed == attack_hold_count(
            e,
            p.attack_frames as int,
        ),
        e == attack_length(p.attack_frames as int) ==> post.action == PlayerAction::Idle
            && post.sprite_off_set.is_zero(),
{
    reveal(Player::finish);
    let n = p.attack_frames as int;
    assert(e / 16 < n);
    lemma_small_mod((e / 16) as nat, n as nat);
    assert(((e / 16) % n) == e / 16);
    assert(e / 16 + 1 >= n <==> e >= 16 * (n - 1));
}

/// An attack pressed on the ground runs its course: the player attacks for
/// `attack_length(n)` frames, counted from the frame of the press, and on the
/// next frame is idle again with the sprite shift cleared, whatever the input
/// in between.
pub proof fn lemma_attack_runs_its_course(
    level: &Level,
    frames: Seq<Player>,
    inputs: Seq<FrameInput>,
    timers: Seq<i32>,
)
    requires
        level.wf(),
        frames.len() >= 2,
        frames.len() == attack_length(frames[0].attack_frames as int) + 2,
        inputs.len() == frames.len() - 1,
        timers.len() == frames.len() - 1,
        forall|k: int| 0 <= k < frames.len() ==> (#[trigger] frames[k]).wf(),
        frames[0].action != PlayerAction::Attack,
        frames[0].grounded(level),
        inputs[0].attack_pressed,
        forall|k: int| 0 <= k < timers.len() ==> #[trigger] timers[k] == timers[0] + k,
        forall|k: int|
            0 <= k < inputs.len() ==> #[trigger] frames[k].stepped(
                level,
                inputs[k],
                timers[k],
                frames[k + 1],
            ),
    ensures
        forall|k: int|
            1 <= k <= attack_length(frames[0].attack_frames as int) ==> (#[trigger] frames[k]).action
                == PlayerAction::Attack,
        frames[frames.len() - 1].action == PlayerAction::Idle,
        frames[frames.len() - 1].sprite_off_set.is_zero(),
{
    let n = frames[0].attack_frames as int;
    let len = attack_length(n);
    let z: int = 0;
    assert(frames[z].stepped(level, inputs[z], timers[z], frames[z + 1]));
    lemma_attack_start(level, frames[0], inputs[0], timers[0], frames[1]);
    lemma_attack_prefix(level, frames, inputs, timers, len);
    let k = len;
    assert(frames[k].stepped(level, inputs[k], timers[k], frames[k + 1]));
    assert(elapsed(timers[k], timers[0]) == k);
    lemma_attack_step(level, frames[k], inputs[k], timers[k], frames[k + 1], k);
}

/// The first `j` frames after the press are attack frames.
proof fn lemma_attack_prefix(
    level: &Level,
    frames: Seq<Player>,
    inputs: Seq<FrameInput>,
    timers: Seq<i32>,
    j: int,
)
    requires
        level.wf(),
        frames.len() >= 2,
        frames.len() == attack_length(frames[0].attack_frames as int) + 2,
        inputs.len() == frames.len() - 1,
        timers.len() == frames.len() - 1,
        forall|k: int| 0 <= k < frames.len() ==> (#[trigger] frames[k]).wf(),
        forall|k: int| 0 <= k < timers.len() ==> #[trigger] timers[k] == timers[0] + k,
        forall|k: int|
            0 <= k < inputs.len() ==> #[trigger] frames[k].stepped(
                level,
                inputs[k],
                timers[k],
                frames[k + 1],
            ),
        frames[1].action == PlayerAction::Attack,
        frames[1].attack_start == timers[0],
        frames[1].attack_frames == frames[0].attack_frames,
        frames[1].times_last_attack_frame_displayed == attack_hold_count(
            0,
            frames[0].attack_frames as int,
        ),
        1 <= j <= attack_length(frames[0].attack_frames as int),
    ensures
        forall|k: int|
            1 <= k <= j ==> (#[trigger] frames[k]).action == PlayerAction::Attack
                && frames[k].attack_start == timers[0] && frames[k].attack_frames
                == frames[0].attack_frames && frames[k].times_last_attack_frame_displayed
                == attack_hold_count(k - 1, frames[0].attack_frames as int),
    decreases j,
{
    if j > 1 {
        lemma_attack_prefix(level, frames, inputs, timers, j - 1);
        let k = j - 1;
        assert(frames[k].stepped(level, inputs[k], timers[k], frames[k + 1]));
        assert(elapsed(timers[k], timers[0]) == k);
        lemma_attack_step(level, frames[k], inputs[k], timers[k], frames[k + 1], k);
    }
}

/// The velocity that `steered_velocity` gives, for a velocity within the
/// entity speed limit; the result stays within it.
fn steer_velocity(v: Vec2, on_ground: bool, attacking: bool, tri: Tri, jumped: bool) -> (r: Vec2)
    requires
        within(v.x.raw as int, MAX_SPEED_RAW as int),
        within(v.y.raw as int, MAX_SPEED_RAW as int),
    ensures
        (r.x.raw as int, r.y.raw as int) == steered_velocity(
            (v.x.raw as int, v.y.raw as int),
            on_ground,
            attacking,
            tri.value(),
            jumped,
        ),
        within(r.x.raw as int, MAX_SPEED_RAW as int),
        within(r.y.raw as int, MAX_SPEED_RAW as int),
{
    let t: i32 = tri.as_i32();
    if on_ground {
        let vx = if attacking {
            v.x
        } else {
            v.x.plus(Fixed::from_raw(GROUND_ACCEL_RAW * t))
        };
        let damped = Vec2::new(vx, v.y).mul_int(54).div_int(64);
        if jumped {
            Vec2::new(damped.x, Fixed::from_raw(-JUMP_SPEED_RAW))
        } else {
            damped
        }
    } else {
        let vy = if jumped {
            Fixed::from_raw(-JUMP_SPEED_RAW)
        } else {
            v.y
        };
        let vx = v.x.plus(Fixed::from_raw(AIR_ACCEL_RAW * t));
        let damped = Vec2::new(vx, vy).mul_int(63).div_int(64);
        Vec2::new(damped.x, damped.y.plus(Fixed::from_raw(GRAVITY_RAW)))
    }
}

fn warrior_sprite_of(
    attack_frame: Option<usize>,
    v: Vec2,
    timer: i32,
    hflip: bool,
    in_front: bool,
) -> (r: SpriteFrame)
    ensures
        r == warrior_sprite(attack_frame, (v.x.raw as int, v.y.raw as int), timer as int, hflip, in_front),
{
    let (tag, index): (SpriteTag, usize) = match attack_frame {
        Some(f) => (SpriteTag::WarriorAttack, f),
        None => if v.y.raw < -DEADBAND_RAW {
            (SpriteTag::WarriorJump, tick_index_of(timer, 16))
        } else if v.y.raw > DEADBAND_RAW {
            (SpriteTag::WarriorJump, if v.y.raw > 384 {
                tick_index_of(timer, 4)
            } else {
                0
            })
        } else if v.x.raw != 0 {
            (SpriteTag::WarriorRun, ping_pong(tick_index_of(timer, 16) as i32, 4) as usize)
        } else {
            (SpriteTag::WarriorIdle, tick_index_of(timer, 32))
        },
    };
    SpriteFrame { tag, index, hflip, in_front }
}

} // verus!
