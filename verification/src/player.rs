//! The player: movement, the attack timer, damage and the sword's
//! geometry.
use vstd::prelude::*;
use crate::fixed::{
    clamp, clamp_spec, div_toward_zero, divide_toward_zero, lemma_div_toward_zero_bounds,
    PLAYER_LIMIT, SKY_LIMIT, SPEED_LIMIT, WORLD_LIMIT,
};
use crate::geometry::Rect;
use crate::platform::{
    all_platforms_wf, fall_speed, footing, footing_spec, lemma_footing_bounds, Platform, FLOOR_Y,
    GRAVITY, TERMINAL_SPEED,
};
use crate::trig::{cosine, cosine_spec, lemma_trig_bounds, sine, sine_spec, TRIG_ONE};

verus! {

/// Width of the player's bounding box.
pub const PLAYER_WIDTH: i64 = 24_000;

/// Height of the player's bounding box.
pub const PLAYER_HEIGHT: i64 = 32_000;

/// Horizontal speed that a movement action sets.
pub const PLAYER_SPEED: i64 = 5_000;

/// Upward speed that a jump sets.
pub const JUMP_POWER: i64 = 12_000;

/// Full health: seven hearts of four quarters each.
pub const MAX_HEALTH: u32 = 28;

/// Duration of one sword swing, in timer steps.
pub const ATTACK_TIME: i64 = 400_000;

/// A swing can hit only while more than this much of it remains, that is
/// during its first half.
pub const HIT_WINDOW: i64 = 200_000;

/// Duration of the invincibility that follows a hit, in timer steps.
pub const DAMAGE_TIME: i64 = 1_000_000;

/// Timer steps that one delta step takes off the player's timers.
pub const TIMER_RATE: i64 = 16;

/// Lowest value the damage timer can reach: it is only lowered while
/// positive, by at most the largest delta.
pub const DAMAGE_TIMER_FLOOR: i64 = -68_719_476_736;

/// Share of the horizontal speed that survives a frame, in percent.
pub const FRICTION_PERCENT: i64 = 85;

/// Speeds of no more than this magnitude count as standing still for the
/// walk animation.
pub const WALK_THRESHOLD: i64 = 100;

/// Advance of the walk animation per frame.
pub const ANIMATION_STEP: i64 = 200;

/// Length of the walk animation cycle.
pub const ANIMATION_CYCLE: i64 = 4_000;

/// Horizontal speed of a knockback, for player and enemy alike.
pub const KNOCKBACK_SPEED: i64 = 8_000;

/// Upward speed the player gets when an enemy touches it.
pub const PLAYER_KNOCKBACK_LIFT: i64 = 5_000;

/// Distance from the hand to the tip of the sword.
pub const SWORD_LENGTH: i64 = 20_000;

/// Side of the square hit area centred on the tip of the sword.
pub const HITBOX_SIZE: i64 = 20_000;

/// Thousandths of a degree the sword sweeps over a whole swing: from
/// upright to ten degrees below the horizontal.
pub const SWING_ARC: i64 = 100_000;

/// Gap between the player's right edge and the hand when facing right.
pub const HAND_GAP_RIGHT: i64 = 2_000;

/// Gap between the hand and the player's left edge when facing left.
pub const HAND_GAP_LEFT: i64 = 6_000;

/// Depth of the hand below the player's top edge.
pub const HAND_DROP: i64 = 12_000;

/// The player's whole state. Lengths are in length steps, timers in
/// timer steps, health in quarter hearts.
#[derive(Clone, Copy, Debug, PartialEq, Eq, Structural)]
pub struct Player {
    pub x: i64,
    pub y: i64,
    pub width: i64,
    pub height: i64,
    pub vel_x: i64,
    pub vel_y: i64,
    pub speed: i64,
    pub jump_power: i64,
    pub on_ground: bool,
    pub facing_right: bool,
    pub is_attacking: bool,
    pub attack_cooldown: i64,
    pub health: u32,
    pub max_health: u32,
    pub animation_frame: i64,
    pub damage_cooldown: i64,
    pub invincible: bool,
    pub is_dead: bool,
}

/// A timer after `delta` delta steps, each worth `rate` timer steps.
pub open spec fn timer_after(timer: int, delta: int, rate: int) -> int {
    timer - delta * rate
}

/// Horizontal speed after one frame of friction, rounded toward rest.
pub open spec fn friction_spec(vel_x: int) -> int {
    div_toward_zero(vel_x * FRICTION_PERCENT, 100)
}

/// Phase of the walk animation after one frame at the given speed.
pub open spec fn animation_after(frame: int, vel_x: int) -> int {
    if vel_x > WALK_THRESHOLD || vel_x < -WALK_THRESHOLD {
        if frame + ANIMATION_STEP >= ANIMATION_CYCLE {
            0
        } else {
            frame + ANIMATION_STEP
        }
    } else {
        0
    }
}

/// Angle the sword has swept since the swing began, in thousandths of a
/// degree: it grows linearly from nothing to the whole arc while the
/// attack timer runs down.
pub open spec fn swing_angle_spec(attack_cooldown: int) -> int {
    (ATTACK_TIME - attack_cooldown) * SWING_ARC / (ATTACK_TIME as int)
}

/// Horizontal distance from hand to tip at the given swept angle.
pub open spec fn sword_reach_x(angle: int) -> int {
    SWORD_LENGTH * sine_spec(angle) / (TRIG_ONE as int)
}

/// Height of the tip above the hand at the given swept angle; negative
/// once the sword points below the horizontal.
pub open spec fn sword_reach_y(angle: int) -> int {
    div_toward_zero(SWORD_LENGTH * cosine_spec(angle), TRIG_ONE as int)
}

impl Player {
    /// The invariant of a player: fixed size, position, speed and tuning
    /// within the representable range, timers within their ranges and
    /// in step with their flags, health between nothing and full, and
    /// dead exactly when no health is left.
    pub open spec fn wf(self) -> bool {
        &&& self.width == PLAYER_WIDTH
        &&& self.height == PLAYER_HEIGHT
        &&& -SPEED_LIMIT <= self.speed <= SPEED_LIMIT
        &&& -SPEED_LIMIT <= self.jump_power <= SPEED_LIMIT
        &&& self.max_health == MAX_HEALTH
        &&& -PLAYER_LIMIT <= self.x <= PLAYER_LIMIT
        &&& -SKY_LIMIT <= self.y <= WORLD_LIMIT
        &&& -SPEED_LIMIT <= self.vel_x <= SPEED_LIMIT
        &&& -SPEED_LIMIT <= self.vel_y <= SPEED_LIMIT
        &&& 0 <= self.attack_cooldown <= ATTACK_TIME
        &&& self.is_attacking <==> self.attack_cooldown > 0
        &&& DAMAGE_TIMER_FLOOR <= self.damage_cooldown <= DAMAGE_TIME
        &&& self.invincible <==> self.damage_cooldown > 0
        &&& self.health <= self.max_health
        &&& self.is_dead <==> self.health == 0
        &&& 0 <= self.animation_frame < ANIMATION_CYCLE
    }

    /// The player's bounding box.
    pub open spec fn rect_spec(self) -> Rect {
        Rect { x: self.x, y: self.y, w: self.width, h: self.height }
    }

    /// The player at the start of a session.
    pub open spec fn initial() -> Player {
        Player {
            x: 100_000,
            y: 300_000,
            width: PLAYER_WIDTH,
            height: PLAYER_HEIGHT,
            vel_x: 0,
            vel_y: 0,
            speed: PLAYER_SPEED,
            jump_power: JUMP_POWER,
            on_ground: false,
            facing_right: true,
            is_attacking: false,
            attack_cooldown: 0,
            health: MAX_HEALTH,
            max_health: MAX_HEALTH,
            animation_frame: 0,
            damage_cooldown: 0,
            invincible: false,
            is_dead: false,
        }
    }

    /// A fresh player: in the air above the starting ground, at rest,
    /// facing right, at full health.
    pub fn new() -> (p: Player)
        ensures
            p == Player::initial(),
            p.wf(),
    {
        Player {
            x: 100_000,
            y: 300_000,
            width: PLAYER_WIDTH,
            height: PLAYER_HEIGHT,
            vel_x: 0,
            vel_y: 0,
            speed: PLAYER_SPEED,
            jump_power: JUMP_POWER,
            on_ground: false,
            facing_right: true,
            is_attacking: false,
            attack_cooldown: 0,
            health: MAX_HEALTH,
            max_health: MAX_HEALTH,
            animation_frame: 0,
            damage_cooldown: 0,
            invincible: false,
            is_dead: false,
        }
    }

    /// The player's bounding box.
    pub fn rect(&self) -> (r: Rect)
        ensures
            r == self.rect_spec(),
    {
        Rect { x: self.x, y: self.y, w: self.width, h: self.height }
    }

    /// The player one frame later: gravity, movement, landing and floor,
    /// then the two timers, friction and the walk animation.
    pub open spec fn step_spec(self, delta: u32, platforms: Seq<Platform>) -> Player {
        let vel_y = fall_speed(self.vel_y as int);
        let x = clamp_spec(self.x + self.vel_x, -PLAYER_LIMIT as int, PLAYER_LIMIT as int);
        let y = clamp_spec(self.y + vel_y, -SKY_LIMIT as int, SKY_LIMIT as int);
        let body = Rect { x: x as i64, y: y as i64, w: self.width, h: self.height };
        let rest = footing_spec(body, vel_y, platforms);
        let attack_left = timer_after(self.attack_cooldown as int, delta as int, TIMER_RATE as int);
        let damage_left = timer_after(self.damage_cooldown as int, delta as int, TIMER_RATE as int);
        let vel_x = friction_spec(self.vel_x as int);
        Player {
            x: x as i64,
            y: rest.y,
            vel_x: vel_x as i64,
            vel_y: rest.vel_y,
            on_ground: rest.on_ground,
            attack_cooldown: if self.attack_cooldown > 0 && attack_left > 0 {
                attack_left as i64
            } else {
                0
            },
            is_attacking: if self.attack_cooldown > 0 {
                self.is_attacking && attack_left > 0
            } else {
                self.is_attacking
            },
            damage_cooldown: if self.damage_cooldown > 0 {
                damage_left as i64
            } else {
                self.damage_cooldown
            },
            invincible: if self.damage_cooldown > 0 {
                self.invincible && damage_left > 0
            } else {
                self.invincible
            },
            animation_frame: animation_after(self.animation_frame as int, vel_x) as i64,
            ..self
        }
    }

    /// Advances the player by one frame of `delta` delta steps over the
    /// given platforms.
    pub fn update(&mut self, delta: u32, platforms: &[Platform])
        requires
            old(self).wf(),
            all_platforms_wf(platforms@),
        ensures
            *final(self) == old(self).step_spec(delta, platforms@),
            final(self).wf(),
            final(self).y + final(self).height <= FLOOR_Y,
            final(self).health == old(self).health,
            final(self).is_dead == old(self).is_dead,
    {
        self.vel_y = self.vel_y + GRAVITY;
        if self.vel_y > TERMINAL_SPEED {
            self.vel_y = TERMINAL_SPEED;
        }
        self.x = clamp(self.x + self.vel_x, -PLAYER_LIMIT, PLAYER_LIMIT);
        self.y = clamp(self.y + self.vel_y, -SKY_LIMIT, SKY_LIMIT);
        let body = self.rect();
        let rest = footing(&body, self.vel_y, platforms);
        self.y = rest.y;
        self.vel_y = rest.vel_y;
        self.on_ground = rest.on_ground;

        let spent: i64 = (delta as i64) * TIMER_RATE;
        if self.attack_cooldown > 0 {
            self.attack_cooldown = self.attack_cooldown - spent;
            if self.attack_cooldown <= 0 {
                self.is_attacking = false;
                self.attack_cooldown = 0;
            }
        }
        if self.damage_cooldown > 0 {
            self.damage_cooldown = self.damage_cooldown - spent;
            if self.damage_cooldown <= 0 {
                self.invincible = false;
            }
        }
        proof {
            lemma_div_toward_zero_bounds(self.vel_x * FRICTION_PERCENT, 100);
        }
        self.vel_x = divide_toward_zero(self.vel_x * FRICTION_PERCENT, 100);
        if self.vel_x > WALK_THRESHOLD || self.vel_x < -WALK_THRESHOLD {
            self.animation_frame = self.animation_frame + ANIMATION_STEP;
            if self.animation_frame >= ANIMATION_CYCLE {
                self.animation_frame = 0;
            }
        } else {
            self.animation_frame = 0;
        }
    }

    /// The player's box overlaps the platform.
    pub fn check_collision(&self, platform: &Platform) -> (r: bool)
        requires
            self.wf(),
            platform.wf(),
        ensures
            r == self.rect_spec().overlaps_spec(platform.rect_spec()),
    {
        self.rect().overlaps(&platform.rect())
    }

    /// The player after a jump action: thrown upwards when on the ground,
    /// unchanged in the air.
    pub open spec fn jump_spec(self) -> Player {
        if self.on_ground {
            Player { vel_y: (-self.jump_power) as i64, ..self }
        } else {
            self
        }
    }

    /// Starts a jump, but only from the ground.
    pub fn jump(&mut self)
        requires
            old(self).wf(),
        ensures
            *final(self) == old(self).jump_spec(),
            final(self).wf(),
    {
        if self.on_ground {
            self.vel_y = -self.jump_power;
        }
    }

    /// The player after a move-left action: full speed leftwards, facing
    /// left. The speed is set, not added to.
    pub open spec fn move_left_spec(self) -> Player {
        Player { vel_x: (-self.speed) as i64, facing_right: false, ..self }
    }

    /// Sets the horizontal speed to full speed leftwards and turns the
    /// player to the left.
    pub fn move_left(&mut self)
        requires
            old(self).wf(),
        ensures
            *final(self) == old(self).move_left_spec(),
            final(self).wf(),
    {
        self.vel_x = -self.speed;
        self.facing_right = false;
    }

    /// The player after a move-right action: full speed rightwards,
    /// facing right. The speed is set, not added to.
    pub open spec fn move_right_spec(self) -> Player {
        Player { vel_x: self.speed, facing_right: true, ..self }
    }

    /// Sets the horizontal speed to full speed rightwards and turns the
    /// player to the right.
    pub fn move_right(&mut self)
        requires
            old(self).wf(),
        ensures
            *final(self) == old(self).move_right_spec(),
            final(self).wf(),
    {
        self.vel_x = self.speed;
        self.facing_right = true;
    }

    /// The player after an attack action: a swing starts when none is
    /// running, and nothing changes while one is.
    pub open spec fn attack_spec(self) -> Player {
        if self.attack_cooldown <= 0 {
            Player { is_attacking: true, attack_cooldown: ATTACK_TIME, ..self }
        } else {
            self
        }
    }

    /// Starts a sword swing unless one is still running.
    pub fn attack(&mut self)
        requires
            old(self).wf(),
        ensures
            *final(self) == old(self).attack_spec(),
            final(self).wf(),
    {
        if self.attack_cooldown <= 0 {
            self.is_attacking = true;
            self.attack_cooldown = ATTACK_TIME;
        }
    }

    /// The player can be hurt: not invincible, not within the damage
    /// timer, not dead.
    pub open spec fn vulnerable(self) -> bool {
        !self.invincible && self.damage_cooldown <= 0 && !self.is_dead
    }

    /// The player after a hit: a vulnerable player loses a quarter heart,
    /// becomes invincible for the full damage time, and dies when no
    /// health is left; any other player is unchanged.
    pub open spec fn take_damage_spec(self) -> Player {
        if self.vulnerable() {
            Player {
                health: (self.health - 1) as u32,
                invincible: true,
                damage_cooldown: DAMAGE_TIME,
                is_dead: self.health <= 1,
                ..self
            }
        } else {
            self
        }
    }

    /// Applies one hit to the player.
    pub fn take_damage(&mut self)
        requires
            old(self).wf(),
        ensures
            *final(self) == old(self).take_damage_spec(),
            final(self).wf(),
    {
        if !self.invincible && self.damage_cooldown <= 0 && !self.is_dead {
            self.health = self.health - 1;
            self.invincible = true;
            self.damage_cooldown = DAMAGE_TIME;
            if self.health == 0 {
                self.is_dead = true;
            }
        }
    }

    /// The pivot of the sword: a point beside the player's box on the
    /// side the player faces, as `(x, y)`.
    pub open spec fn sword_hand_spec(self) -> (int, int) {
        (
            if self.facing_right {
                self.x + self.width + HAND_GAP_RIGHT
            } else {
                self.x - HAND_GAP_LEFT
            },
            self.y + HAND_DROP,
        )
    }

    /// The tip of the sword, as `(x, y)`: a sword's length from the hand,
    /// upright when the swing starts and swept forward by the swing
    /// angle toward the side the player faces.
    pub open spec fn sword_tip_spec(self) -> (int, int) {
        let angle = swing_angle_spec(self.attack_cooldown as int);
        let hand = self.sword_hand_spec();
        (
            if self.facing_right {
                hand.0 + sword_reach_x(angle)
            } else {
                hand.0 - sword_reach_x(angle)
            },
            hand.1 - sword_reach_y(angle),
        )
    }

    /// The sword's hit area: a square centred on the tip while a swing
    /// runs, and an empty rectangle at the origin otherwise.
    pub open spec fn sword_hitbox_spec(self) -> Rect {
        if self.is_attacking {
            let tip = self.sword_tip_spec();
            Rect {
                x: (tip.0 - HITBOX_SIZE / 2) as i64,
                y: (tip.1 - HITBOX_SIZE / 2) as i64,
                w: HITBOX_SIZE,
                h: HITBOX_SIZE,
            }
        } else {
            Rect { x: 0, y: 0, w: 0, h: 0 }
        }
    }

    /// The pivot of the sword, as `(x, y)`.
    pub fn sword_hand(&self) -> (r: (i64, i64))
        requires
            self.wf(),
        ensures
            r.0 == self.sword_hand_spec().0,
            r.1 == self.sword_hand_spec().1,
    {
        let hand_x: i64 = if self.facing_right {
            self.x + self.width + HAND_GAP_RIGHT
        } else {
            self.x - HAND_GAP_LEFT
        };
        (hand_x, self.y + HAND_DROP)
    }

    /// The tip of the sword, as `(x, y)`.
    pub fn sword_tip(&self) -> (r: (i64, i64))
        requires
            self.wf(),
        ensures
            r.0 == self.sword_tip_spec().0,
            r.1 == self.sword_tip_spec().1,
            -SWORD_LENGTH <= r.0 - self.sword_hand_spec().0 <= SWORD_LENGTH,
            -SWORD_LENGTH <= r.1 - self.sword_hand_spec().1 <= SWORD_LENGTH,
    {
        let angle: i64 = (ATTACK_TIME - self.attack_cooldown) * SWING_ARC / ATTACK_TIME;
        let (hand_x, hand_y) = self.sword_hand();
        proof {
            lemma_trig_bounds(angle as int);
            lemma_sword_reach(angle as int);
        }
        let reach_x: i64 = SWORD_LENGTH * sine(angle) / TRIG_ONE;
        let reach_y: i64 = divide_toward_zero(SWORD_LENGTH * cosine(angle), TRIG_ONE);
        let tip_x: i64 = if self.facing_right {
            hand_x + reach_x
        } else {
            hand_x - reach_x
        };
        (tip_x, hand_y - reach_y)
    }

    /// The sword's hit area.
    pub fn get_sword_hitbox(&self) -> (r: Rect)
        requires
            self.wf(),
        ensures
            r == self.sword_hitbox_spec(),
            r.wf(),
    {
        if self.is_attacking {
            let (tip_x, tip_y) = self.sword_tip();
            Rect {
                x: tip_x - HITBOX_SIZE / 2,
                y: tip_y - HITBOX_SIZE / 2,
                w: HITBOX_SIZE,
                h: HITBOX_SIZE,
            }
        } else {
            Rect { x: 0, y: 0, w: 0, h: 0 }
        }
    }
}

/// The tip of the sword is never further from the hand than the sword
/// is long, along either axis.
pub proof fn lemma_sword_reach(angle: int)
    requires
        0 <= angle <= SWING_ARC,
    ensures
        0 <= sword_reach_x(angle) <= SWORD_LENGTH,
        -SWORD_LENGTH <= sword_reach_y(angle) <= SWORD_LENGTH,
{
    lemma_trig_bounds(angle);
    let s = sine_spec(angle);
    let c = cosine_spec(angle);
    assert(0 <= SWORD_LENGTH * s / (TRIG_ONE as int) <= SWORD_LENGTH);
    if c >= 0 {
        assert(0 <= SWORD_LENGTH * c / (TRIG_ONE as int) <= SWORD_LENGTH);
    } else {
        assert(0 <= (-(SWORD_LENGTH * c)) / (TRIG_ONE as int) <= SWORD_LENGTH);
    }
}

/// A frame of movement keeps a well-formed player well formed, leaves
/// it at or above the floor, and touches neither health nor death.
pub proof fn lemma_player_step(player: Player, delta: u32, platforms: Seq<Platform>)
    requires
        player.wf(),
        all_platforms_wf(platforms),
    ensures
        player.step_spec(delta, platforms).wf(),
        player.step_spec(delta, platforms).y + PLAYER_HEIGHT <= FLOOR_Y,
        player.step_spec(delta, platforms).health == player.health,
        player.step_spec(delta, platforms).is_dead == player.is_dead,
{
    let vel_y = fall_speed(player.vel_y as int);
    let x = clamp_spec(player.x + player.vel_x, -PLAYER_LIMIT as int, PLAYER_LIMIT as int);
    let y = clamp_spec(player.y + vel_y, -SKY_LIMIT as int, SKY_LIMIT as int);
    let body = Rect { x: x as i64, y: y as i64, w: player.width, h: player.height };
    lemma_footing_bounds(body, vel_y, platforms);
    lemma_div_toward_zero_bounds(player.vel_x * FRICTION_PERCENT, 100);
}

} // verus!
