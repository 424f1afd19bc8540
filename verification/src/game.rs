//! The frame loop: one call advances the whole world by one frame.
use vstd::prelude::*;
use crate::enemy::{lemma_enemy_step, lemma_sword_hit_wf, Enemy};
use crate::pickup::{lemma_float_offset_bounds, HeartPickup};
use crate::platform::Platform;
use crate::player::{
    lemma_player_step, Player, ATTACK_TIME, HIT_WINDOW, KNOCKBACK_SPEED, PLAYER_KNOCKBACK_LIFT,
    TIMER_RATE,
};
use crate::world::{Game, GameState, KeyState};

verus! {

/// How far the camera's left edge trails the player.
pub const CAMERA_LAG: i64 = 400_000;

/// Game time after a frame of `delta` delta steps; it stops at the
/// largest representable time.
pub open spec fn time_after(time: u64, delta: u32) -> u64 {
    if time + delta > u64::MAX {
        u64::MAX
    } else {
        (time + delta) as u64
    }
}

/// The player after the held actions are applied, in the order left,
/// right, jump, attack. With both directions held, right wins.
pub open spec fn steer_spec(player: Player, keys: KeyState) -> Player {
    let a = if keys.left {
        player.move_left_spec()
    } else {
        player
    };
    let b = if keys.right {
        a.move_right_spec()
    } else {
        a
    };
    let c = if keys.up {
        b.jump_spec()
    } else {
        b
    };
    if keys.space {
        c.attack_spec()
    } else {
        c
    }
}

/// Every enemy one frame later.
pub open spec fn enemies_stepped(
    enemies: Seq<Enemy>,
    delta: u32,
    platforms: Seq<Platform>,
) -> Seq<Enemy> {
    Seq::new(enemies.len(), |i: int| enemies[i].step_spec(delta, platforms))
}

/// The player after meeting the first `count` pickups in order.
pub open spec fn player_after_hearts(hearts: Seq<HeartPickup>, player: Player, count: int) -> Player
    decreases count,
{
    if count <= 0 {
        player
    } else {
        hearts[count - 1].healed(player_after_hearts(hearts, player, count - 1))
    }
}

/// The pickups after one frame: each has its float offset set for the
/// game time and is collected if it heals the player as the pickups
/// before it have left them.
pub open spec fn hearts_visited(hearts: Seq<HeartPickup>, player: Player, time: u64) -> Seq<
    HeartPickup,
> {
    Seq::new(
        hearts.len(),
        |i: int| hearts[i].floated(time).taken_by(player_after_hearts(hearts, player, i)),
    )
}

/// The attack timer after one frame: a running swing goes on, a held
/// attack starts one when none is running, and the timer then counts
/// down by the frame's length, stopping at zero.
pub open spec fn attack_clock_after(cooldown: i64, attack_held: bool, delta: u32) -> int {
    let running = if cooldown > 0 {
        cooldown as int
    } else if attack_held {
        ATTACK_TIME as int
    } else {
        0
    };
    if running - delta * TIMER_RATE > 0 {
        running - delta * TIMER_RATE
    } else {
        0
    }
}

/// The sword can hit this frame: a swing is running and is still in its
/// first half.
pub open spec fn sword_live(player: Player) -> bool {
    player.is_attacking && player.attack_cooldown > HIT_WINDOW
}

/// The enemies after the sword's hit test: while the sword is live,
/// each enemy is tested against the hit area on its own, so one swing
/// can hit several enemies in a frame.
pub open spec fn sword_sweep(enemies: Seq<Enemy>, player: Player) -> Seq<Enemy> {
    if sword_live(player) {
        Seq::new(
            enemies.len(),
            |i: int| enemies[i].sword_hit_spec(player.sword_hitbox_spec(), player.facing_right),
        )
    } else {
        enemies
    }
}

/// A living enemy whose box overlaps the player's.
pub open spec fn touches_player(player: Player, enemy: Enemy) -> bool {
    enemy.is_alive && player.rect_spec().overlaps_spec(enemy.rect_spec())
}

/// Index of the first enemy at or after `start` that touches the
/// player, if there is one.
pub open spec fn first_contact_from(player: Player, enemies: Seq<Enemy>, start: int) -> Option<int>
    decreases enemies.len() - start,
{
    if start < 0 || start >= enemies.len() {
        None
    } else if touches_player(player, enemies[start]) {
        Some(start)
    } else {
        first_contact_from(player, enemies, start + 1)
    }
}

/// What [`first_contact_from`] finds is in range and touches the player,
/// no earlier enemy from `start` on does, and nothing is found only
/// when no enemy from `start` on touches the player.
pub proof fn lemma_first_contact_from(player: Player, enemies: Seq<Enemy>, start: int)
    requires
        0 <= start,
    ensures
        match first_contact_from(player, enemies, start) {
            Some(i) => {
                &&& start <= i < enemies.len()
                &&& touches_player(player, enemies[i])
                &&& forall|j: int| start <= j < i ==> !touches_player(player, #[trigger] enemies[j])
            },
            None => forall|j: int|
                start <= j < enemies.len() ==> !touches_player(player, #[trigger] enemies[j]),
        },
    decreases enemies.len() - start,
{
    if start < enemies.len() && !touches_player(player, enemies[start]) {
        lemma_first_contact_from(player, enemies, start + 1);
    }
}

/// The player after an enemy has touched it: one hit, and thrown up and
/// away from the enemy, whether or not the hit took health.
pub open spec fn struck_by(player: Player, enemy: Enemy) -> Player {
    Player {
        vel_x: if player.x < enemy.x {
            (-KNOCKBACK_SPEED) as i64
        } else {
            KNOCKBACK_SPEED
        },
        vel_y: (-PLAYER_KNOCKBACK_LIFT) as i64,
        ..player.take_damage_spec()
    }
}

/// The player after contact damage: a player who is not invincible is
/// struck by the first enemy, in order, that touches it, and by no
/// other.
pub open spec fn contact_spec(player: Player, enemies: Seq<Enemy>) -> Player {
    if player.invincible {
        player
    } else {
        match first_contact_from(player, enemies, 0) {
            Some(i) => struck_by(player, enemies[i]),
            None => player,
        }
    }
}

/// Left edge of the camera for a player position: a fixed distance
/// behind the player, but never left of the origin.
pub open spec fn camera_for(player_x: i64) -> i64 {
    if player_x - CAMERA_LAG < 0 {
        0
    } else {
        (player_x - CAMERA_LAG) as i64
    }
}

/// The greater of the distance travelled so far and the player's
/// position.
pub open spec fn distance_for(distance: i64, player_x: i64) -> i64 {
    if player_x > distance {
        player_x
    } else {
        distance
    }
}

impl GameState {
    /// The world after the entities have moved and fought for one frame,
    /// with camera and distance brought up to date, before generation
    /// and pruning.
    pub open spec fn settled(self, delta: u32) -> GameState {
        let time = time_after(self.game_time, delta);
        let moved = steer_spec(self.player, self.keys).step_spec(delta, self.platforms);
        let healed = player_after_hearts(self.hearts, moved, self.hearts.len() as int);
        let enemies = sword_sweep(enemies_stepped(self.enemies, delta, self.platforms), healed);
        let player = contact_spec(healed, enemies);
        GameState {
            player,
            enemies,
            hearts: hearts_visited(self.hearts, moved, time),
            camera_x: camera_for(player.x),
            distance_traveled: distance_for(self.distance_traveled, player.x),
            game_time: time,
            ..self
        }
    }

    /// The world one frame later. Once the player is dead nothing
    /// changes any more. Otherwise the entities move and fight, the
    /// world is generated ahead of the new camera position, and what
    /// lies behind it is pruned.
    pub open spec fn advanced(self, delta: u32) -> GameState {
        if self.player.is_dead {
            self
        } else {
            self.settled(delta).generated().pruned()
        }
    }
}

impl Game {
    fn steer(&mut self)
        requires
            old(self).wf(),
        ensures
            final(self)@ == (GameState {
                player: steer_spec(old(self).player, old(self).keys),
                ..old(self)@
            }),
            final(self).wf(),
    {
        if self.keys.left {
            self.player.move_left();
        }
        if self.keys.right {
            self.player.move_right();
        }
        if self.keys.up {
            self.player.jump();
        }
        if self.keys.space {
            self.player.attack();
        }
    }

    fn step_enemies(&mut self, delta: u32)
        requires
            old(self).wf(),
        ensures
            final(self)@ == (GameState {
                enemies: enemies_stepped(old(self)@.enemies, delta, old(self)@.platforms),
                ..old(self)@
            }),
            final(self).wf(),
    {
        let mut i: usize = 0;
        while i < self.enemies.len()
            invariant
                0 <= i <= self.enemies.len(),
                self.enemies.len() == old(self).enemies.len(),
                self.wf(),
                self@ == (GameState { enemies: self.enemies@, ..old(self)@ }),
                forall|j: int|
                    0 <= j < i ==> self.enemies@[j] == (#[trigger] old(self).enemies@[j]).step_spec(
                        delta,
                        old(self)@.platforms,
                    ),
                forall|j: int|
                    i <= j < self.enemies.len() ==> self.enemies@[j] == old(self).enemies@[j],
            decreases self.enemies.len() - i,
        {
            let mut enemy = self.enemies[i];
            assert(enemy.wf());
            enemy.update(delta, self.platforms.as_slice());
            self.enemies.set(i, enemy);
            i += 1;
        }
        assert(self.enemies@ =~= enemies_stepped(
            old(self)@.enemies,
            delta,
            old(self)@.platforms,
        ));
    }

    fn visit_hearts(&mut self)
        requires
            old(self).wf(),
        ensures
            final(self)@ == (GameState {
                player: player_after_hearts(
                    old(self)@.hearts,
                    old(self).player,
                    old(self)@.hearts.len() as int,
                ),
                hearts: hearts_visited(old(self)@.hearts, old(self).player, old(self).game_time),
                ..old(self)@
            }),
            final(self).wf(),
    {
        let mut i: usize = 0;
        while i < self.hearts.len()
            invariant
                0 <= i <= self.hearts.len(),
                self.hearts.len() == old(self).hearts.len(),
                self.wf(),
                self@ == (GameState { player: self.player, hearts: self.hearts@, ..old(self)@ }),
                self.player == player_after_hearts(old(self)@.hearts, old(self).player, i as int),
                forall|j: int|
                    0 <= j < i ==> self.hearts@[j] == (#[trigger] old(self).hearts@[j]).floated(
                        old(self).game_time,
                    ).taken_by(player_after_hearts(old(self)@.hearts, old(self).player, j)),
                forall|j: int| i <= j < self.hearts.len() ==> self.hearts@[j] == old(self).hearts@[j],
            decreases self.hearts.len() - i,
        {
            let mut heart = self.hearts[i];
            assert(heart.wf());
            heart.update(self.game_time);
            heart.collect(&mut self.player);
            self.hearts.set(i, heart);
            i += 1;
        }
        assert(self.hearts@ =~= hearts_visited(
            old(self)@.hearts,
            old(self).player,
            old(self).game_time,
        ));
    }

    fn swing_sword(&mut self)
        requires
            old(self).wf(),
        ensures
            final(self)@ == (GameState {
                enemies: sword_sweep(old(self)@.enemies, old(self).player),
                ..old(self)@
            }),
            final(self).wf(),
    {
        if self.player.is_attacking && self.player.attack_cooldown > HIT_WINDOW {
            let sword = self.player.get_sword_hitbox();
            let from_right = self.player.facing_right;
            let mut i: usize = 0;
            while i < self.enemies.len()
                invariant
                    0 <= i <= self.enemies.len(),
                    self.enemies.len() == old(self).enemies.len(),
                    self.wf(),
                    sword.wf(),
                    sword == old(self).player.sword_hitbox_spec(),
                    from_right == old(self).player.facing_right,
                    self@ == (GameState { enemies: self.enemies@, ..old(self)@ }),
                    forall|j: int|
                        0 <= j < i ==> self.enemies@[j] == (#[trigger] old(
                            self,
                        ).enemies@[j]).sword_hit_spec(sword, from_right),
                    forall|j: int|
                        i <= j < self.enemies.len() ==> self.enemies@[j] == old(self).enemies@[j],
                decreases self.enemies.len() - i,
            {
                let mut enemy = self.enemies[i];
                assert(enemy.wf());
                enemy.sword_hit(&sword, from_right);
                self.enemies.set(i, enemy);
                i += 1;
            }
            assert(self.enemies@ =~= sword_sweep(old(self)@.enemies, old(self).player));
        }
    }

    fn touch_enemies(&mut self)
        requires
            old(self).wf(),
        ensures
            final(self)@ == (GameState {
                player: contact_spec(old(self).player, old(self)@.enemies),
                ..old(self)@
            }),
            final(self).wf(),
    {
        if self.player.invincible {
            return ;
        }
        let body = self.player.rect();
        let mut i: usize = 0;
        while i < self.enemies.len()
            invariant
                0 <= i <= self.enemies.len(),
                self.wf(),
                self@ == old(self)@,
                !self.player.invincible,
                body == self.player.rect_spec(),
                first_contact_from(self.player, self.enemies@, 0) == first_contact_from(
                    self.player,
                    self.enemies@,
                    i as int,
                ),
            decreases self.enemies.len() - i,
        {
            let enemy = self.enemies[i];
            assert(enemy.wf());
            if enemy.is_alive && body.overlaps(&enemy.rect()) {
                proof {
                    assert(touches_player(self.player, self.enemies@[i as int]));
                    assert(first_contact_from(self.player, self.enemies@, i as int) == Some(
                        i as int,
                    ));
                    assert(contact_spec(old(self).player, old(self)@.enemies) == struck_by(
                        old(self).player,
                        enemy,
                    ));
                }
                self.player.take_damage();
                self.player.vel_x = if body.x < enemy.x {
                    -KNOCKBACK_SPEED
                } else {
                    KNOCKBACK_SPEED
                };
                self.player.vel_y = -PLAYER_KNOCKBACK_LIFT;
                return ;
            }
            i += 1;
        }
        proof {
            assert(first_contact_from(self.player, self.enemies@, i as int) is None);
        }
    }

    /// Advances the whole world by one frame of `delta` delta steps,
    /// under the actions held in `keys`. A world whose player is dead
    /// is left as it is.
    pub fn update(&mut self, delta: u32)
        requires
            old(self).wf(),
        ensures
            final(self)@ == old(self)@.advanced(delta),
            final(self).wf(),
            !old(self).player.is_dead ==> final(self)@.caught_up(),
    {
        if self.player.is_dead {
            return ;
        }
        self.game_time = self.game_time.saturating_add(delta as u64);
        self.steer();
        self.player.update(delta, self.platforms.as_slice());
        self.step_enemies(delta);
        self.visit_hearts();
        self.swing_sword();
        self.touch_enemies();
        self.camera_x = self.player.x - CAMERA_LAG;
        if self.camera_x < 0 {
            self.camera_x = 0;
        }
        if self.player.x > self.distance_traveled {
            self.distance_traveled = self.player.x;
        }
        assert(self@ == old(self)@.settled(delta));
        self.generate_platforms_ahead();
        self.cleanup_behind();
    }
}

/// Meeting pickups keeps a well-formed player well formed, never
/// lowers health, and changes nothing but health.
pub proof fn lemma_player_after_hearts(hearts: Seq<HeartPickup>, player: Player, count: int)
    requires
        player.wf(),
        count <= hearts.len(),
    ensures
        player_after_hearts(hearts, player, count).wf(),
        player_after_hearts(hearts, player, count).health >= player.health,
        player_after_hearts(hearts, player, count) == (Player {
            health: player_after_hearts(hearts, player, count).health,
            ..player
        }),
    decreases count,
{
    if count > 0 {
        lemma_player_after_hearts(hearts, player, count - 1);
    }
}

/// Contact damage keeps a well-formed player well formed. It takes at
/// most a quarter heart, and none from a player who is invincible.
pub proof fn lemma_contact(player: Player, enemies: Seq<Enemy>)
    requires
        player.wf(),
    ensures
        contact_spec(player, enemies).wf(),
        player.health - 1 <= contact_spec(player, enemies).health <= player.health,
        player.invincible ==> contact_spec(player, enemies) == player,
        player.is_dead ==> contact_spec(player, enemies).is_dead,
        contact_spec(player, enemies).attack_cooldown == player.attack_cooldown,
        contact_spec(player, enemies).is_attacking == player.is_attacking,
{
}

impl GameState {
    /// The moving and fighting part of a frame keeps a well-formed world
    /// well formed.
    pub proof fn lemma_settled_wf(self, delta: u32)
        requires
            self.wf(),
        ensures
            self.settled(delta).wf(),
    {
        let next = self.settled(delta);
        let steered = steer_spec(self.player, self.keys);
        assert(steered.wf());
        lemma_player_step(steered, delta, self.platforms);
        let moved = steered.step_spec(delta, self.platforms);
        lemma_player_after_hearts(self.hearts, moved, self.hearts.len() as int);
        let healed = player_after_hearts(self.hearts, moved, self.hearts.len() as int);
        let stepped = enemies_stepped(self.enemies, delta, self.platforms);
        assert forall|i: int| 0 <= i < stepped.len() implies (#[trigger] stepped[i]).wf() by {
            assert(self.enemies[i].wf());
            lemma_enemy_step(self.enemies[i], delta, self.platforms);
        }
        let fought = sword_sweep(stepped, healed);
        assert forall|i: int| 0 <= i < fought.len() implies (#[trigger] fought[i]).wf() by {
            assert(stepped[i].wf());
            lemma_sword_hit_wf(stepped[i], healed.sword_hitbox_spec(), healed.facing_right);
        }
        lemma_contact(healed, fought);
        assert forall|i: int| 0 <= i < next.hearts.len() implies (#[trigger] next.hearts[i]).wf() by {
            assert(self.hearts[i].wf());
            lemma_float_offset_bounds(next.game_time);
        }
    }

    /// Nothing in a frame but the swing itself moves the attack timer:
    /// neither pickups nor contact with enemies, neither generation nor
    /// pruning.
    pub proof fn lemma_frame_attack_clock(self, delta: u32)
        requires
            self.wf(),
            !self.player.is_dead,
        ensures
            self.advanced(delta).player.attack_cooldown == attack_clock_after(
                self.player.attack_cooldown,
                self.keys.space,
                delta,
            ),
    {
        let steered = steer_spec(self.player, self.keys);
        assert(steered.wf());
        lemma_player_step(steered, delta, self.platforms);
        let moved = steered.step_spec(delta, self.platforms);
        lemma_player_after_hearts(self.hearts, moved, self.hearts.len() as int);
        let healed = player_after_hearts(self.hearts, moved, self.hearts.len() as int);
        let fought = sword_sweep(enemies_stepped(self.enemies, delta, self.platforms), healed);
        lemma_contact(healed, fought);
        self.lemma_settled_wf(delta);
        self.settled(delta).lemma_generated();
        self.settled(delta).generated().lemma_pruned_wf();
    }

    /// A frame keeps a well-formed world well formed and leaves the
    /// frontier caught up with the camera, unless the player is dead.
    pub proof fn lemma_advanced_wf(self, delta: u32)
        requires
            self.wf(),
        ensures
            self.advanced(delta).wf(),
            !self.player.is_dead ==> self.advanced(delta).caught_up(),
            self.player.is_dead ==> self.advanced(delta) == self,
    {
        if !self.player.is_dead {
            self.lemma_settled_wf(delta);
            self.settled(delta).lemma_generated();
            self.settled(delta).generated().lemma_pruned_wf();
        }
    }
}

} // verus!
