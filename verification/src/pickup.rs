//! Heart pickups: they bob in the air and heal the player who touches
//! them.
use vstd::prelude::*;
use crate::fixed::{div_toward_zero, divide_toward_zero, WORLD_LIMIT};
use crate::geometry::Rect;
use crate::player::{Player, MAX_HEALTH};
use crate::trig::{lemma_trig_bounds, wave, wave_spec, FULL_TURN, STRAIGHT_ANGLE, TRIG_ONE};

verus! {

/// Side of a pickup's square box.
pub const PICKUP_SIZE: i64 = 20_000;

/// Quarter hearts that one pickup restores.
pub const HEAL_AMOUNT: u32 = 4;

/// Greatest distance a pickup floats away from its resting height.
pub const FLOAT_HEIGHT: i64 = 5_000;

/// Millionths of a thousandth of a degree that the floating motion
/// advances per delta step: three thousandths of a radian per frame.
pub const FLOAT_RATE: u128 = 171_887;

/// One heart pickup. Position, size and float offset are in length
/// steps.
#[derive(Clone, Copy, Debug, PartialEq, Eq, Structural)]
pub struct HeartPickup {
    pub x: i64,
    pub y: i64,
    pub size: i64,
    pub collected: bool,
    pub float_offset: i64,
}

/// Phase of the floating motion at a game time, in thousandths of a
/// degree within one full turn.
pub open spec fn float_angle(time: u64) -> int {
    (time as int * FLOAT_RATE as int / 1_000_000) % (FULL_TURN as int)
}

/// Vertical offset of a floating pickup at a game time: a sine wave of
/// amplitude [`FLOAT_HEIGHT`], rounded toward rest.
pub open spec fn float_offset_spec(time: u64) -> int {
    div_toward_zero(FLOAT_HEIGHT * wave_spec(float_angle(time)), TRIG_ONE as int)
}

impl HeartPickup {
    /// The invariant of a pickup: fixed size, a position inside the
    /// world, and a float offset no larger than the floating motion's
    /// amplitude.
    pub open spec fn wf(self) -> bool {
        &&& self.size == PICKUP_SIZE
        &&& -WORLD_LIMIT <= self.x <= WORLD_LIMIT
        &&& -WORLD_LIMIT <= self.y <= WORLD_LIMIT
        &&& -FLOAT_HEIGHT <= self.float_offset <= FLOAT_HEIGHT
    }

    /// The pickup's box at its resting height.
    pub open spec fn rect_spec(self) -> Rect {
        Rect { x: self.x, y: self.y, w: self.size, h: self.size }
    }

    /// An uncollected pickup at rest at the given place.
    pub fn new(x: i64, y: i64) -> (h: HeartPickup)
        ensures
            h == (HeartPickup { x, y, size: PICKUP_SIZE, collected: false, float_offset: 0 }),
    {
        HeartPickup { x, y, size: PICKUP_SIZE, collected: false, float_offset: 0 }
    }

    /// The pickup's box at its resting height.
    pub fn rect(&self) -> (r: Rect)
        ensures
            r == self.rect_spec(),
    {
        Rect { x: self.x, y: self.y, w: self.size, h: self.size }
    }

    /// The pickup with its float offset recomputed for a game time.
    pub open spec fn floated(self, time: u64) -> HeartPickup {
        HeartPickup { float_offset: float_offset_spec(time) as i64, ..self }
    }

    /// Recomputes the float offset from the elapsed game time, given in
    /// delta steps. Nothing of the previous offset is kept.
    pub fn update(&mut self, time: u64)
        requires
            old(self).wf(),
        ensures
            *final(self) == old(self).floated(time),
            final(self).wf(),
    {
        let turned: u128 = (time as u128) * FLOAT_RATE / 1_000_000;
        let angle: u128 = turned % (FULL_TURN as u128);
        let height: i64 = wave(angle as i64);
        proof {
            lemma_float_offset_bounds(time);
        }
        self.float_offset = divide_toward_zero(FLOAT_HEIGHT * height, TRIG_ONE);
    }

    /// An uncollected pickup whose resting box the player's box overlaps.
    pub open spec fn touches(self, player: Player) -> bool {
        !self.collected && player.rect_spec().overlaps_spec(self.rect_spec())
    }

    /// The player's box overlaps this pickup, and the pickup has not been
    /// collected yet.
    pub fn check_collision(&self, player: &Player) -> (r: bool)
        requires
            self.wf(),
            player.wf(),
        ensures
            r == self.touches(*player),
    {
        !self.collected && player.rect().overlaps(&self.rect())
    }

    /// The pickup heals this player: they touch, and the player is alive
    /// and short of full health.
    pub open spec fn heals(self, player: Player) -> bool {
        self.touches(player) && !player.is_dead && player.health < MAX_HEALTH
    }

    /// The player after meeting this pickup: healed by [`HEAL_AMOUNT`]
    /// up to full health when the pickup heals, unchanged otherwise.
    pub open spec fn healed(self, player: Player) -> Player {
        if self.heals(player) {
            Player {
                health: if player.health + HEAL_AMOUNT > MAX_HEALTH {
                    MAX_HEALTH
                } else {
                    (player.health + HEAL_AMOUNT) as u32
                },
                ..player
            }
        } else {
            player
        }
    }

    /// The pickup after meeting this player: collected when it heals,
    /// unchanged otherwise. A player at full health leaves it in place.
    pub open spec fn taken_by(self, player: Player) -> HeartPickup {
        if self.heals(player) {
            HeartPickup { collected: true, ..self }
        } else {
            self
        }
    }

    /// Lets the player collect the pickup if it heals them.
    pub fn collect(&mut self, player: &mut Player)
        requires
            old(self).wf(),
            old(player).wf(),
        ensures
            *final(self) == old(self).taken_by(*old(player)),
            *final(player) == old(self).healed(*old(player)),
            final(self).wf(),
            final(player).wf(),
    {
        if self.check_collision(player) && !player.is_dead && player.health < MAX_HEALTH {
            player.health = if player.health + HEAL_AMOUNT > MAX_HEALTH {
                MAX_HEALTH
            } else {
                player.health + HEAL_AMOUNT
            };
            self.collected = true;
        }
    }
}

/// Every pickup of the sequence is well formed.
pub open spec fn all_hearts_wf(hearts: Seq<HeartPickup>) -> bool {
    forall|i: int| 0 <= i < hearts.len() ==> (#[trigger] hearts[i]).wf()
}

/// The float offset never exceeds the amplitude of the floating motion.
pub proof fn lemma_float_offset_bounds(time: u64)
    ensures
        -FLOAT_HEIGHT <= float_offset_spec(time) <= FLOAT_HEIGHT,
{
    let angle = float_angle(time);
    if angle <= STRAIGHT_ANGLE {
        lemma_trig_bounds(angle);
    } else {
        lemma_trig_bounds(angle - STRAIGHT_ANGLE);
    }
    let height = wave_spec(angle);
    if height >= 0 {
        assert(0 <= FLOAT_HEIGHT * height / (TRIG_ONE as int) <= FLOAT_HEIGHT);
    } else {
        assert(0 <= (-(FLOAT_HEIGHT * height)) / (TRIG_ONE as int) <= FLOAT_HEIGHT);
    }
}

} // verus!
