//! What holds of every run of the simulation.
use vstd::prelude::*;
use crate::enemy::{lemma_enemy_step, Enemy, FLASH_RATE, FLASH_TIME};
use crate::game::{
    attack_clock_after, enemies_stepped, lemma_contact, lemma_player_after_hearts,
    player_after_hearts, steer_spec, sword_live, sword_sweep,
};
use crate::geometry::Rect;
use crate::platform::{all_platforms_wf, Platform};
use crate::player::{
    lemma_player_step, Player, ATTACK_TIME, HIT_WINDOW, MAX_HEALTH, TIMER_RATE,
};
use crate::world::{GameState, KeyState};

verus! {

/// What the host supplies for one frame: the actions held and the
/// frame's length in delta steps.
pub struct FrameInput {
    pub keys: KeyState,
    pub delta: u32,
}

/// The world after a run: for each input in turn, the held actions are
/// set and the world is advanced by one frame.
pub open spec fn played(state: GameState, inputs: Seq<FrameInput>) -> GameState
    decreases inputs.len(),
{
    if inputs.len() == 0 {
        state
    } else {
        let before = played(state, inputs.drop_last());
        (GameState { keys: inputs.last().keys, ..before }).advanced(inputs.last().delta)
    }
}

/// Sum of the frame lengths of a run, in delta steps.
pub open spec fn total_delta(inputs: Seq<FrameInput>) -> int
    decreases inputs.len(),
{
    if inputs.len() == 0 {
        0
    } else {
        total_delta(inputs.drop_last()) + inputs.last().delta
    }
}

/// Health stays in range for all frames: after any run from a
/// well-formed world the world is well formed, health is between
/// nothing and full, and the player is dead exactly when no health is
/// left.
pub proof fn lemma_health_in_range(state: GameState, inputs: Seq<FrameInput>)
    requires
        state.wf(),
    ensures
        played(state, inputs).wf(),
        0 <= played(state, inputs).player.health <= MAX_HEALTH,
        played(state, inputs).player.is_dead <==> played(state, inputs).player.health == 0,
    decreases inputs.len(),
{
    if inputs.len() > 0 {
        lemma_health_in_range(state, inputs.drop_last());
        let before = played(state, inputs.drop_last());
        let held = GameState { keys: inputs.last().keys, ..before };
        held.lemma_advanced_wf(inputs.last().delta);
    }
}

/// Death is final: once the player is dead, no run changes the player,
/// the entities, the camera or the clock any more.
pub proof fn lemma_death_is_final(state: GameState, inputs: Seq<FrameInput>)
    requires
        state.player.is_dead,
    ensures
        played(state, inputs).player.is_dead,
        played(state, inputs) == (GameState { keys: played(state, inputs).keys, ..state }),
    decreases inputs.len(),
{
    if inputs.len() > 0 {
        lemma_death_is_final(state, inputs.drop_last());
    }
}

/// The invincibility window: while the damage timer of an invincible
/// player has not run out, no run lowers the player's health, whatever
/// touches the player. A hit sets the timer to the full damage time, so
/// no further health is lost for that long.
pub proof fn lemma_invincibility_window(state: GameState, inputs: Seq<FrameInput>)
    requires
        state.wf(),
        state.player.invincible,
        total_delta(inputs) * TIMER_RATE < state.player.damage_cooldown,
    ensures
        played(state, inputs).player.health >= state.player.health,
        played(state, inputs).player.is_dead == state.player.is_dead,
        !state.player.is_dead ==> played(state, inputs).player.invincible && played(
            state,
            inputs,
        ).player.damage_cooldown == state.player.damage_cooldown - total_delta(inputs)
            * TIMER_RATE,
    decreases inputs.len(),
{
    if state.player.is_dead {
        lemma_death_is_final(state, inputs);
    } else if inputs.len() > 0 {
        let earlier = inputs.drop_last();
        let delta = inputs.last().delta;
        assert(total_delta(earlier) * TIMER_RATE <= total_delta(inputs) * TIMER_RATE);
        lemma_invincibility_window(state, earlier);
        lemma_health_in_range(state, earlier);
        let before = played(state, earlier);
        let held = GameState { keys: inputs.last().keys, ..before };
        assert(held.wf());
        let steered = steer_spec(held.player, held.keys);
        assert(steered.wf());
        lemma_player_step(steered, delta, held.platforms);
        let moved = steered.step_spec(delta, held.platforms);
        assert(moved.damage_cooldown == state.player.damage_cooldown - total_delta(inputs)
            * TIMER_RATE);
        assert(moved.invincible);
        lemma_player_after_hearts(held.hearts, moved, held.hearts.len() as int);
        let healed = player_after_hearts(held.hearts, moved, held.hearts.len() as int);
        let fought = sword_sweep(enemies_stepped(held.enemies, delta, held.platforms), healed);
        lemma_contact(healed, fought);
        held.lemma_settled_wf(delta);
        held.settled(delta).lemma_generated();
        held.settled(delta).generated().lemma_pruned_wf();
    }
}

/// The last frame of a run: the world after a run that is not empty is
/// the world after all frames but the last, advanced by the last frame
/// under the last frame's held actions.
pub proof fn lemma_played_last(state: GameState, inputs: Seq<FrameInput>)
    requires
        inputs.len() > 0,
    ensures
        played(state, inputs) == (GameState {
            keys: inputs.last().keys,
            ..played(state, inputs.drop_last())
        }).advanced(inputs.last().delta),
{
}

/// The attack timer a swing starts from: what is left of a running
/// swing, or the full attack time of a swing that is about to start.
pub open spec fn swing_start(cooldown: i64) -> int {
    if cooldown > 0 {
        cooldown as int
    } else {
        ATTACK_TIME as int
    }
}

/// The hit window of a swing: take a run in which a swing is running
/// at the start or starts with the first frame, and is still running
/// after every frame but the last. Then the attack timer has simply
/// counted down, and if the sword is live at the end, the whole run is
/// shorter than the first half of the attack time.
pub proof fn lemma_swing_window(state: GameState, inputs: Seq<FrameInput>)
    requires
        state.wf(),
        inputs.len() > 0,
        state.player.attack_cooldown > 0 || inputs[0].keys.space,
        forall|k: int|
            0 < k < inputs.len() ==> (#[trigger] played(state, inputs.take(k))).player.attack_cooldown
                > 0,
        !played(state, inputs).player.is_dead,
    ensures
        played(state, inputs).player.attack_cooldown > 0 ==> played(
            state,
            inputs,
        ).player.attack_cooldown == swing_start(state.player.attack_cooldown) - total_delta(inputs)
            * TIMER_RATE,
        sword_live(played(state, inputs).player) ==> total_delta(inputs) * TIMER_RATE
            < ATTACK_TIME - HIT_WINDOW,
    decreases inputs.len(),
{
    let earlier = inputs.drop_last();
    let delta = inputs.last().delta;
    let before = played(state, earlier);
    let held = GameState { keys: inputs.last().keys, ..before };
    let after = played(state, inputs);
    lemma_played_last(state, inputs);
    assert(after == held.advanced(delta));
    assert(held.wf()) by {
        lemma_health_in_range(state, earlier);
    }
    assert(!before.player.is_dead) by {
        if before.player.is_dead {
            assert(held.advanced(delta) == held);
        }
    }
    assert(after.player.attack_cooldown == attack_clock_after(
        before.player.attack_cooldown,
        inputs.last().keys.space,
        delta,
    )) by {
        held.lemma_frame_attack_clock(delta);
    }
    if earlier.len() == 0 {
        assert(before == state);
        assert(total_delta(earlier) == 0);
    } else {
        assert(earlier =~= inputs.take(inputs.len() - 1));
        assert(earlier[0] == inputs[0]);
        assert forall|k: int| 0 < k < earlier.len() implies (#[trigger] played(
            state,
            earlier.take(k),
        )).player.attack_cooldown > 0 by {
            assert(earlier.take(k) =~= inputs.take(k));
        }
        lemma_swing_window(state, earlier);
        assert(played(state, inputs.take(inputs.len() - 1)).player.attack_cooldown > 0);
        assert(before.player.attack_cooldown == swing_start(state.player.attack_cooldown)
            - total_delta(earlier) * TIMER_RATE);
    }
    assert(total_delta(inputs) == total_delta(earlier) + delta);
    assert(state.player.attack_cooldown <= ATTACK_TIME);
}

/// One frame of a swing as a single enemy meets it: the frame's length,
/// the platforms, the sword's hit area and the side the hit comes from.
pub struct SwingFrame {
    pub delta: u32,
    pub platforms: Seq<Platform>,
    pub sword: Rect,
    pub from_right: bool,
}

/// An enemy after the frames of a swing: in each frame it moves and is
/// then tested against the sword.
pub open spec fn enemy_after_swing(enemy: Enemy, frames: Seq<SwingFrame>) -> Enemy
    decreases frames.len(),
{
    if frames.len() == 0 {
        enemy
    } else {
        let frame = frames.last();
        enemy_after_swing(enemy, frames.drop_last()).step_spec(
            frame.delta,
            frame.platforms,
        ).sword_hit_spec(frame.sword, frame.from_right)
    }
}

/// Sum of the frame lengths of a swing, in delta steps.
pub open spec fn swing_delta(frames: Seq<SwingFrame>) -> int
    decreases frames.len(),
{
    if frames.len() == 0 {
        0
    } else {
        swing_delta(frames.drop_last()) + frames.last().delta
    }
}

/// A swing's hit window closes before a hit flash runs out.
pub proof fn lemma_window_shorter_than_flash(delta: int)
    requires
        0 <= delta,
        delta * TIMER_RATE < ATTACK_TIME - HIT_WINDOW,
    ensures
        FLASH_TIME - delta * FLASH_RATE > 0,
{
}

/// One hit per swing: the sword can hit only while less than half of
/// the attack time has passed since the swing began, and over frames
/// that fit into that window an enemy loses at most one point of
/// health, however often the sword overlaps it.
pub proof fn lemma_one_hit_per_swing(enemy: Enemy, frames: Seq<SwingFrame>)
    requires
        enemy.wf(),
        forall|i: int| 0 <= i < frames.len() ==> all_platforms_wf((#[trigger] frames[i]).platforms),
        swing_delta(frames) * TIMER_RATE < ATTACK_TIME - HIT_WINDOW,
    ensures
        enemy_after_swing(enemy, frames).wf(),
        enemy.health - 1 <= enemy_after_swing(enemy, frames).health <= enemy.health,
        enemy_after_swing(enemy, frames).health < enemy.health ==> !enemy_after_swing(
            enemy,
            frames,
        ).is_alive || enemy_after_swing(enemy, frames).hit_flash + swing_delta(frames)
            * FLASH_RATE >= FLASH_TIME,
    decreases frames.len(),
{
    if frames.len() > 0 {
        let earlier = frames.drop_last();
        let frame = frames.last();
        assert(swing_delta(earlier) >= 0) by {
            lemma_swing_delta_nonnegative(earlier);
        }
        assert forall|i: int| 0 <= i < earlier.len() implies all_platforms_wf(
            (#[trigger] earlier[i]).platforms,
        ) by {
            assert(earlier[i] == frames[i]);
        }
        lemma_one_hit_per_swing(enemy, earlier);
        let before = enemy_after_swing(enemy, earlier);
        assert(all_platforms_wf(frame.platforms));
        lemma_enemy_step(before, frame.delta, frame.platforms);
        let moved = before.step_spec(frame.delta, frame.platforms);
        lemma_window_shorter_than_flash(swing_delta(frames));
    }
}

/// The frames of a swing take no negative time.
pub proof fn lemma_swing_delta_nonnegative(frames: Seq<SwingFrame>)
    ensures
        swing_delta(frames) >= 0,
    decreases frames.len(),
{
    if frames.len() > 0 {
        lemma_swing_delta_nonnegative(frames.drop_last());
    }
}

/// One swing can hit several enemies at once: in a frame in which the
/// sword is live, every enemy that can be hit is hit, wherever it
/// stands in the list, and every other enemy is left alone.
pub proof fn lemma_sweep_hits_each(enemies: Seq<Enemy>, player: Player, i: int)
    requires
        0 <= i < enemies.len(),
        sword_live(player),
    ensures
        sword_sweep(enemies, player).len() == enemies.len(),
        enemies[i].hittable(player.sword_hitbox_spec()) ==> sword_sweep(enemies, player)[i]
            == enemies[i].take_damage_spec(player.facing_right),
        !enemies[i].hittable(player.sword_hitbox_spec()) ==> sword_sweep(enemies, player)[i]
            == enemies[i],
{
}

/// Determinism: two runs from equal worlds under equal inputs end in
/// equal worlds, entity for entity and field for field.
pub proof fn lemma_deterministic(
    first: GameState,
    second: GameState,
    first_inputs: Seq<FrameInput>,
    second_inputs: Seq<FrameInput>,
)
    requires
        first == second,
        first_inputs == second_inputs,
    ensures
        played(first, first_inputs) == played(second, second_inputs),
{
}

} // verus!
