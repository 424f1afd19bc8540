//! Patrolling enemies.
use vstd::prelude::*;
use crate::fixed::{
    clamp, clamp_spec, div_toward_zero, divide_toward_zero, SKY_LIMIT, SPEED_LIMIT, WORLD_LIMIT,
};
use crate::geometry::Rect;
use crate::platform::{
    all_platforms_wf, fall_speed, footing, footing_spec, lemma_footing_bounds, Platform, GRAVITY,
    TERMINAL_SPEED,
};
use crate::player::KNOCKBACK_SPEED;

verus! {

/// Width of an enemy's bounding box.
pub const ENEMY_WIDTH: i64 = 21_000;

/// Height of an enemy's bounding box.
pub const ENEMY_HEIGHT: i64 = 27_000;

/// Patrol speed of an enemy.
pub const ENEMY_SPEED: i64 = 1_500;

/// Upward speed an enemy gets when the sword hits it.
pub const ENEMY_KNOCKBACK_LIFT: i64 = 3_000;

/// Value the hit flash is set to by a hit, in timer steps.
pub const FLASH_TIME: i64 = 1_000_000;

/// Timer steps that one delta step takes off the hit flash.
pub const FLASH_RATE: i64 = 50;

/// Lowest value the hit flash can reach: it is only lowered while
/// positive, by at most the largest delta.
pub const FLASH_FLOOR: i64 = -214_748_364_800;

/// One enemy. Lengths are in length steps, the hit flash in timer steps.
#[derive(Clone, Copy, Debug, PartialEq, Eq, Structural)]
pub struct Enemy {
    pub x: i64,
    pub y: i64,
    pub width: i64,
    pub height: i64,
    pub vel_x: i64,
    pub vel_y: i64,
    pub health: i32,
    pub patrol_start: i64,
    pub patrol_end: i64,
    pub speed: i64,
    pub is_alive: bool,
    pub hit_flash: i64,
}

impl Enemy {
    /// The invariant of an enemy: fixed size, position and velocity
    /// within the representable range, the hit flash within its range,
    /// and alive exactly while health is left.
    pub open spec fn wf(self) -> bool {
        &&& self.width == ENEMY_WIDTH
        &&& self.height == ENEMY_HEIGHT
        &&& -WORLD_LIMIT <= self.x <= WORLD_LIMIT
        &&& -SKY_LIMIT <= self.y <= WORLD_LIMIT
        &&& -SPEED_LIMIT <= self.vel_x <= SPEED_LIMIT
        &&& -SPEED_LIMIT <= self.vel_y <= SPEED_LIMIT
        &&& FLASH_FLOOR <= self.hit_flash <= FLASH_TIME
        &&& self.is_alive <==> self.health >= 1
    }

    /// The enemy's bounding box.
    pub open spec fn rect_spec(self) -> Rect {
        Rect { x: self.x, y: self.y, w: self.width, h: self.height }
    }

    /// A fresh enemy at the given place: one point of health, walking
    /// right, with a patrol interval of the given length centred on its
    /// horizontal position.
    pub open spec fn spawned(x: i64, y: i64, patrol_range: i64) -> Enemy {
        Enemy {
            x,
            y,
            width: ENEMY_WIDTH,
            height: ENEMY_HEIGHT,
            vel_x: ENEMY_SPEED,
            vel_y: 0,
            health: 1,
            patrol_start: (x - div_toward_zero(patrol_range as int, 2)) as i64,
            patrol_end: (x + div_toward_zero(patrol_range as int, 2)) as i64,
            speed: ENEMY_SPEED,
            is_alive: true,
            hit_flash: 0,
        }
    }

    /// Makes a fresh enemy; see [`Enemy::spawned`].
    pub fn new(x: i64, y: i64, patrol_range: i64) -> (e: Enemy)
        requires
            -WORLD_LIMIT <= x <= WORLD_LIMIT,
            -SKY_LIMIT <= y <= WORLD_LIMIT,
            -WORLD_LIMIT <= patrol_range <= WORLD_LIMIT,
        ensures
            e == Enemy::spawned(x, y, patrol_range),
            e.wf(),
    {
        let half: i64 = divide_toward_zero(patrol_range, 2);
        Enemy {
            x,
            y,
            width: ENEMY_WIDTH,
            height: ENEMY_HEIGHT,
            vel_x: ENEMY_SPEED,
            vel_y: 0,
            health: 1,
            patrol_start: x - half,
            patrol_end: x + half,
            speed: ENEMY_SPEED,
            is_alive: true,
            hit_flash: 0,
        }
    }

    /// The enemy's bounding box.
    pub fn rect(&self) -> (r: Rect)
        ensures
            r == self.rect_spec(),
    {
        Rect { x: self.x, y: self.y, w: self.width, h: self.height }
    }

    /// The enemy one frame later. A dead enemy does not change. A living
    /// one lowers a running hit flash, falls and moves, turns round when
    /// it is at or beyond either end of its patrol interval, and then
    /// lands like any body.
    pub open spec fn step_spec(self, delta: u32, platforms: Seq<Platform>) -> Enemy {
        if !self.is_alive {
            self
        } else {
            let vel_y = fall_speed(self.vel_y as int);
            let x = clamp_spec(self.x + self.vel_x, -WORLD_LIMIT as int, WORLD_LIMIT as int);
            let y = clamp_spec(self.y + vel_y, -SKY_LIMIT as int, SKY_LIMIT as int);
            let body = Rect { x: x as i64, y: y as i64, w: self.width, h: self.height };
            let rest = footing_spec(body, vel_y, platforms);
            Enemy {
                hit_flash: if self.hit_flash > 0 {
                    (self.hit_flash - delta * FLASH_RATE) as i64
                } else {
                    self.hit_flash
                },
                x: x as i64,
                y: rest.y,
                vel_x: if x <= self.patrol_start || x >= self.patrol_end {
                    (-self.vel_x) as i64
                } else {
                    self.vel_x
                },
                vel_y: rest.vel_y,
                ..self
            }
        }
    }

    /// Advances the enemy by one frame of `delta` delta steps over the
    /// given platforms.
    pub fn update(&mut self, delta: u32, platforms: &[Platform])
        requires
            old(self).wf(),
            all_platforms_wf(platforms@),
        ensures
            *final(self) == old(self).step_spec(delta, platforms@),
            final(self).wf(),
            final(self).health == old(self).health,
            final(self).is_alive == old(self).is_alive,
    {
        if !self.is_alive {
            return ;
        }
        if self.hit_flash > 0 {
            self.hit_flash = self.hit_flash - (delta as i64) * FLASH_RATE;
        }
        self.vel_y = self.vel_y + GRAVITY;
        if self.vel_y > TERMINAL_SPEED {
            self.vel_y = TERMINAL_SPEED;
        }
        self.x = clamp(self.x + self.vel_x, -WORLD_LIMIT, WORLD_LIMIT);
        self.y = clamp(self.y + self.vel_y, -SKY_LIMIT, SKY_LIMIT);
        if self.x <= self.patrol_start || self.x >= self.patrol_end {
            self.vel_x = -self.vel_x;
        }
        let body = self.rect();
        let rest = footing(&body, self.vel_y, platforms);
        self.y = rest.y;
        self.vel_y = rest.vel_y;
    }

    /// The enemy's box overlaps the platform.
    pub fn check_collision(&self, platform: &Platform) -> (r: bool)
        requires
            self.wf(),
            platform.wf(),
        ensures
            r == self.rect_spec().overlaps_spec(platform.rect_spec()),
    {
        self.rect().overlaps(&platform.rect())
    }

    /// The enemy after a hit, which always lands: one point of health
    /// less, dead once none is left, the hit flash at its full value, and
    /// thrown up and sideways, leftwards when `from_right` is set and
    /// rightwards otherwise.
    pub open spec fn take_damage_spec(self, from_right: bool) -> Enemy {
        Enemy {
            health: (self.health - 1) as i32,
            hit_flash: FLASH_TIME,
            vel_x: if from_right {
                (-KNOCKBACK_SPEED) as i64
            } else {
                KNOCKBACK_SPEED
            },
            vel_y: (-ENEMY_KNOCKBACK_LIFT) as i64,
            is_alive: self.is_alive && self.health > 1,
            ..self
        }
    }

    /// Applies one hit to the enemy.
    pub fn take_damage(&mut self, from_right: bool)
        requires
            old(self).wf(),
            old(self).health > i32::MIN,
        ensures
            *final(self) == old(self).take_damage_spec(from_right),
            final(self).wf(),
    {
        self.health = self.health - 1;
        self.hit_flash = FLASH_TIME;
        self.vel_x = if from_right {
            -KNOCKBACK_SPEED
        } else {
            KNOCKBACK_SPEED
        };
        self.vel_y = -ENEMY_KNOCKBACK_LIFT;
        if self.health <= 0 {
            self.is_alive = false;
        }
    }

    /// The sword can hit the enemy: it is alive, its hit flash has run
    /// out, and its box overlaps the sword's hit area.
    pub open spec fn hittable(self, sword: Rect) -> bool {
        self.is_alive && self.hit_flash <= 0 && sword.overlaps_spec(self.rect_spec())
    }

    /// The enemy after one hit test against the sword's hit area: hit
    /// when it can be, unchanged otherwise.
    pub open spec fn sword_hit_spec(self, sword: Rect, from_right: bool) -> Enemy {
        if self.hittable(sword) {
            self.take_damage_spec(from_right)
        } else {
            self
        }
    }

    /// Tests the enemy against the sword's hit area and applies the hit
    /// when it lands.
    pub fn sword_hit(&mut self, sword: &Rect, from_right: bool)
        requires
            old(self).wf(),
            sword.wf(),
        ensures
            *final(self) == old(self).sword_hit_spec(*sword, from_right),
            final(self).wf(),
    {
        if self.is_alive && self.hit_flash <= 0 && sword.overlaps(&self.rect()) {
            self.take_damage(from_right);
        }
    }
}

/// Every enemy of the sequence is well formed.
pub open spec fn all_enemies_wf(enemies: Seq<Enemy>) -> bool {
    forall|i: int| 0 <= i < enemies.len() ==> (#[trigger] enemies[i]).wf()
}

/// A frame of movement keeps a well-formed enemy well formed and
/// touches neither its health nor whether it is alive.
pub proof fn lemma_enemy_step(enemy: Enemy, delta: u32, platforms: Seq<Platform>)
    requires
        enemy.wf(),
        all_platforms_wf(platforms),
    ensures
        enemy.step_spec(delta, platforms).wf(),
        enemy.step_spec(delta, platforms).health == enemy.health,
        enemy.step_spec(delta, platforms).is_alive == enemy.is_alive,
{
    if enemy.is_alive {
        let vel_y = fall_speed(enemy.vel_y as int);
        let x = clamp_spec(enemy.x + enemy.vel_x, -WORLD_LIMIT as int, WORLD_LIMIT as int);
        let y = clamp_spec(enemy.y + vel_y, -SKY_LIMIT as int, SKY_LIMIT as int);
        let body = Rect { x: x as i64, y: y as i64, w: enemy.width, h: enemy.height };
        lemma_footing_bounds(body, vel_y, platforms);
    }
}

/// A hit test keeps a well-formed enemy well formed.
pub proof fn lemma_sword_hit_wf(enemy: Enemy, sword: Rect, from_right: bool)
    requires
        enemy.wf(),
    ensures
        enemy.sword_hit_spec(sword, from_right).wf(),
{
}

} // verus!
