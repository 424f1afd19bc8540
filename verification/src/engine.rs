//! The engine a host drives: named key events in, one update per frame,
//! and a read-only snapshot of each settled frame out.
use vstd::prelude::*;
use crate::enemy::Enemy;
use crate::geometry::Rect;
use crate::pickup::HeartPickup;
use crate::player::{Player, ATTACK_TIME, MAX_HEALTH};
use crate::world::{Game, GameState, KeyState};

verus! {

/// Number of heart icons on the display.
pub const HEART_ICONS: usize = 7;

/// Quarter hearts in one heart icon.
pub const QUARTERS_PER_HEART: u32 = 4;

/// Length steps in one metre of displayed distance.
pub const METRE: i64 = 10_000;

/// Timer steps in one phase of the invincibility flicker.
pub const FLICKER_PHASE: i64 = 100_000;

/// An action that a key can hold down.
#[derive(Clone, Copy, Debug, PartialEq, Eq, Structural)]
pub enum Action {
    MoveLeft,
    MoveRight,
    Jump,
    Attack,
}

/// The action a key identifier stands for. Arrow keys and the letters
/// `a`, `d` and `w` in either case move and jump, the space bar
/// attacks, and every other identifier stands for nothing.
pub open spec fn key_action(key: Seq<char>) -> Option<Action> {
    if key == "ArrowLeft"@ || key == "a"@ || key == "A"@ {
        Some(Action::MoveLeft)
    } else if key == "ArrowRight"@ || key == "d"@ || key == "D"@ {
        Some(Action::MoveRight)
    } else if key == "ArrowUp"@ || key == "w"@ || key == "W"@ {
        Some(Action::Jump)
    } else if key == " "@ {
        Some(Action::Attack)
    } else {
        None
    }
}

/// The held actions after a key event: the action the key stands for
/// is held or released, and a key that stands for nothing changes
/// nothing.
pub open spec fn keys_after(keys: KeyState, action: Option<Action>, held: bool) -> KeyState {
    match action {
        Some(Action::MoveLeft) => KeyState { left: held, ..keys },
        Some(Action::MoveRight) => KeyState { right: held, ..keys },
        Some(Action::Jump) => KeyState { up: held, ..keys },
        Some(Action::Attack) => KeyState { space: held, ..keys },
        None => keys,
    }
}

/// Two strings hold the same characters.
pub fn same_text(a: &str, b: &str) -> (r: bool)
    ensures
        r == (a@ == b@),
{
    let n = a.unicode_len();
    if n != b.unicode_len() {
        return false;
    }
    let mut i: usize = 0;
    while i < n
        invariant
            0 <= i <= n,
            n == a@.len(),
            n == b@.len(),
            forall|j: int| 0 <= j < i ==> a@[j] == b@[j],
        decreases n - i,
    {
        if a.get_char(i) != b.get_char(i) {
            return false;
        }
        i += 1;
    }
    assert(a@ =~= b@);
    true
}

/// Maps a key identifier to the action it stands for.
pub fn parse_key(key: &str) -> (r: Option<Action>)
    ensures
        r == key_action(key@),
{
    if same_text(key, "ArrowLeft") || same_text(key, "a") || same_text(key, "A") {
        Some(Action::MoveLeft)
    } else if same_text(key, "ArrowRight") || same_text(key, "d") || same_text(key, "D") {
        Some(Action::MoveRight)
    } else if same_text(key, "ArrowUp") || same_text(key, "w") || same_text(key, "W") {
        Some(Action::Jump)
    } else if same_text(key, " ") {
        Some(Action::Attack)
    } else {
        None
    }
}

/// What the renderer needs to draw one enemy.
#[derive(Clone, Copy, Debug, PartialEq, Eq, Structural)]
pub struct EnemySprite {
    pub body: Rect,
    pub alive: bool,
    /// Remaining hit flash; the enemy flashes while it is positive.
    pub hit_flash: i64,
    /// The enemy moves leftwards and is drawn mirrored.
    pub facing_left: bool,
}

/// What the renderer needs to draw one pickup.
#[derive(Clone, Copy, Debug, PartialEq, Eq, Structural)]
pub struct PickupSprite {
    pub x: i64,
    /// Resting height plus float offset.
    pub y: i64,
    pub size: i64,
    pub collected: bool,
}

/// What the renderer needs to draw the player and the sword.
#[derive(Clone, Copy, Debug, PartialEq, Eq, Structural)]
pub struct PlayerSprite {
    pub body: Rect,
    pub facing_right: bool,
    /// Which of the two walk pictures to draw: 0 or 1.
    pub walk_frame: i64,
    /// The player is in the dark phase of the invincibility flicker
    /// and is not drawn.
    pub hidden: bool,
    pub attacking: bool,
    /// Progress of the swing in thousandths, from 0 to 1000.
    pub swing_progress: i64,
    pub hand_x: i64,
    pub hand_y: i64,
    pub tip_x: i64,
    pub tip_y: i64,
    pub invincible: bool,
    pub damage_cooldown: i64,
    pub health: u32,
    pub max_health: u32,
    pub dead: bool,
}

/// A read-only snapshot of one settled frame.
#[derive(Clone, Debug, PartialEq, Eq)]
pub struct Frame {
    pub camera_x: i64,
    pub platforms: Vec<Rect>,
    pub enemies: Vec<EnemySprite>,
    pub pickups: Vec<PickupSprite>,
    pub player: PlayerSprite,
    /// Quarters to fill in each heart icon, from left to right.
    pub hearts: Vec<u32>,
    /// Distance travelled, in whole metres.
    pub distance: i64,
    /// Elapsed game time, in delta steps.
    pub game_time: u64,
}

/// The mathematical value of a [`Frame`].
pub struct FrameView {
    pub camera_x: i64,
    pub platforms: Seq<Rect>,
    pub enemies: Seq<EnemySprite>,
    pub pickups: Seq<PickupSprite>,
    pub player: PlayerSprite,
    pub hearts: Seq<u32>,
    pub distance: i64,
    pub game_time: u64,
}

impl View for Frame {
    type V = FrameView;

    open spec fn view(&self) -> FrameView {
        FrameView {
            camera_x: self.camera_x,
            platforms: self.platforms@,
            enemies: self.enemies@,
            pickups: self.pickups@,
            player: self.player,
            hearts: self.hearts@,
            distance: self.distance,
            game_time: self.game_time,
        }
    }
}

/// An enemy as the renderer sees it.
pub open spec fn enemy_sprite(enemy: Enemy) -> EnemySprite {
    EnemySprite {
        body: enemy.rect_spec(),
        alive: enemy.is_alive,
        hit_flash: enemy.hit_flash,
        facing_left: enemy.vel_x < 0,
    }
}

/// A pickup as the renderer sees it.
pub open spec fn pickup_sprite(heart: HeartPickup) -> PickupSprite {
    PickupSprite {
        x: heart.x,
        y: (heart.y + heart.float_offset) as i64,
        size: heart.size,
        collected: heart.collected,
    }
}

/// The player as the renderer sees it. The player flickers while
/// invincible: it is hidden during every other tenth of a time unit of
/// the damage timer.
pub open spec fn player_sprite(player: Player) -> PlayerSprite {
    PlayerSprite {
        body: player.rect_spec(),
        facing_right: player.facing_right,
        walk_frame: (player.animation_frame / 1000 % 2) as i64,
        hidden: player.invincible && player.damage_cooldown / FLICKER_PHASE % 2 == 0,
        attacking: player.is_attacking,
        swing_progress: ((ATTACK_TIME - player.attack_cooldown) * 1000 / (ATTACK_TIME as int)) as i64,
        hand_x: player.sword_hand_spec().0 as i64,
        hand_y: player.sword_hand_spec().1 as i64,
        tip_x: player.sword_tip_spec().0 as i64,
        tip_y: player.sword_tip_spec().1 as i64,
        invincible: player.invincible,
        damage_cooldown: player.damage_cooldown,
        health: player.health,
        max_health: player.max_health,
        dead: player.is_dead,
    }
}

/// Quarters to fill in the heart icon at `index`, counted from the
/// left: icons fill up one after the other, four quarters each.
pub open spec fn heart_quarters(health: u32, index: int) -> u32 {
    if health <= 4 * index {
        0
    } else if health - 4 * index >= QUARTERS_PER_HEART {
        QUARTERS_PER_HEART
    } else {
        (health - 4 * index) as u32
    }
}

/// The snapshot of a world.
pub open spec fn frame_spec(state: GameState) -> FrameView {
    FrameView {
        camera_x: state.camera_x,
        platforms: Seq::new(state.platforms.len(), |i: int| state.platforms[i].rect_spec()),
        enemies: Seq::new(state.enemies.len(), |i: int| enemy_sprite(state.enemies[i])),
        pickups: Seq::new(state.hearts.len(), |i: int| pickup_sprite(state.hearts[i])),
        player: player_sprite(state.player),
        hearts: Seq::new(HEART_ICONS as nat, |i: int| heart_quarters(state.player.health, i)),
        distance: (state.distance_traveled / METRE) as i64,
        game_time: state.game_time,
    }
}

/// The simulation behind a narrow interface: key events, one update
/// per frame, and snapshots. An engine made by [`GameEngine::new`] is
/// well formed, and every method keeps it so.
pub struct GameEngine {
    game: Game,
}

impl View for GameEngine {
    type V = GameState;

    closed spec fn view(&self) -> GameState {
        self.game@
    }
}

impl GameEngine {
    /// The world inside the engine is well formed.
    pub open spec fn wf(&self) -> bool {
        self@.wf()
    }

    /// A new session: the opening world, generated ahead of the camera.
    pub fn new() -> (engine: GameEngine)
        ensures
            engine@ == GameState::opening().generated(),
            engine.wf(),
    {
        GameEngine { game: Game::new() }
    }

    /// The world inside the engine.
    pub fn game(&self) -> (game: &Game)
        ensures
            game@ == self@,
            game.wf() == self.wf(),
    {
        &self.game
    }

    /// Advances the world by one frame of `delta` delta steps.
    pub fn update(&mut self, delta: u32)
        requires
            old(self).wf(),
        ensures
            final(self)@ == old(self)@.advanced(delta),
            final(self).wf(),
    {
        self.game.update(delta);
    }

    /// A key went down: the action it stands for is held from now on.
    pub fn key_down(&mut self, key: String)
        ensures
            final(self)@ == (GameState {
                keys: keys_after(old(self)@.keys, key_action(key@), true),
                ..old(self)@
            }),
            final(self).wf() == old(self).wf(),
    {
        match parse_key(key.as_str()) {
            Some(Action::MoveLeft) => {
                self.game.keys.left = true;
            },
            Some(Action::MoveRight) => {
                self.game.keys.right = true;
            },
            Some(Action::Jump) => {
                self.game.keys.up = true;
            },
            Some(Action::Attack) => {
                self.game.keys.space = true;
            },
            None => {},
        }
    }

    /// A key went up: the action it stands for is no longer held.
    pub fn key_up(&mut self, key: String)
        ensures
            final(self)@ == (GameState {
                keys: keys_after(old(self)@.keys, key_action(key@), false),
                ..old(self)@
            }),
            final(self).wf() == old(self).wf(),
    {
        match parse_key(key.as_str()) {
            Some(Action::MoveLeft) => {
                self.game.keys.left = false;
            },
            Some(Action::MoveRight) => {
                self.game.keys.right = false;
            },
            Some(Action::Jump) => {
                self.game.keys.up = false;
            },
            Some(Action::Attack) => {
                self.game.keys.space = false;
            },
            None => {},
        }
    }

    /// Takes the snapshot of the current frame for the renderer.
    pub fn render(&self) -> (frame: Frame)
        requires
            self.wf(),
        ensures
            frame@ == frame_spec(self@),
    {
        snapshot(&self.game)
    }
}

fn sprite_of_enemy(enemy: &Enemy) -> (s: EnemySprite)
    ensures
        s == enemy_sprite(*enemy),
{
    EnemySprite {
        body: enemy.rect(),
        alive: enemy.is_alive,
        hit_flash: enemy.hit_flash,
        facing_left: enemy.vel_x < 0,
    }
}

fn sprite_of_pickup(heart: &HeartPickup) -> (s: PickupSprite)
    requires
        heart.wf(),
    ensures
        s == pickup_sprite(*heart),
{
    PickupSprite {
        x: heart.x,
        y: heart.y + heart.float_offset,
        size: heart.size,
        collected: heart.collected,
    }
}

fn sprite_of_player(player: &Player) -> (s: PlayerSprite)
    requires
        player.wf(),
    ensures
        s == player_sprite(*player),
{
    let (hand_x, hand_y) = player.sword_hand();
    let (tip_x, tip_y) = player.sword_tip();
    PlayerSprite {
        body: player.rect(),
        facing_right: player.facing_right,
        walk_frame: player.animation_frame / 1000 % 2,
        hidden: player.invincible && player.damage_cooldown / FLICKER_PHASE % 2 == 0,
        attacking: player.is_attacking,
        swing_progress: (ATTACK_TIME - player.attack_cooldown) * 1000 / ATTACK_TIME,
        hand_x,
        hand_y,
        tip_x,
        tip_y,
        invincible: player.invincible,
        damage_cooldown: player.damage_cooldown,
        health: player.health,
        max_health: player.max_health,
        dead: player.is_dead,
    }
}

fn quarters_of(health: u32, index: usize) -> (q: u32)
    requires
        health <= MAX_HEALTH,
        index < HEART_ICONS,
    ensures
        q == heart_quarters(health, index as int),
{
    let before: u32 = 4 * (index as u32);
    if health <= before {
        0
    } else if health - before >= QUARTERS_PER_HEART {
        QUARTERS_PER_HEART
    } else {
        health - before
    }
}

/// Takes the snapshot of a world for the renderer.
pub fn snapshot(game: &Game) -> (frame: Frame)
    requires
        game.wf(),
    ensures
        frame@ == frame_spec(game@),
{
    let mut platforms: Vec<Rect> = Vec::new();
    let mut i: usize = 0;
    while i < game.platforms.len()
        invariant
            0 <= i <= game.platforms.len(),
            platforms@.len() == i,
            forall|j: int| 0 <= j < i ==> platforms@[j] == (#[trigger] game.platforms@[j]).rect_spec(),
        decreases game.platforms.len() - i,
    {
        platforms.push(game.platforms[i].rect());
        i += 1;
    }
    let mut enemies: Vec<EnemySprite> = Vec::new();
    let mut i: usize = 0;
    while i < game.enemies.len()
        invariant
            0 <= i <= game.enemies.len(),
            enemies@.len() == i,
            forall|j: int| 0 <= j < i ==> enemies@[j] == enemy_sprite(#[trigger] game.enemies@[j]),
        decreases game.enemies.len() - i,
    {
        enemies.push(sprite_of_enemy(&game.enemies[i]));
        i += 1;
    }
    let mut pickups: Vec<PickupSprite> = Vec::new();
    let mut i: usize = 0;
    while i < game.hearts.len()
        invariant
            0 <= i <= game.hearts.len(),
            game.wf(),
            pickups@.len() == i,
            forall|j: int| 0 <= j < i ==> pickups@[j] == pickup_sprite(#[trigger] game.hearts@[j]),
        decreases game.hearts.len() - i,
    {
        assert(game.hearts@[i as int].wf());
        pickups.push(sprite_of_pickup(&game.hearts[i]));
        i += 1;
    }
    let mut hearts: Vec<u32> = Vec::new();
    let mut i: usize = 0;
    while i < HEART_ICONS
        invariant
            0 <= i <= HEART_ICONS,
            game.wf(),
            hearts@.len() == i,
            forall|j: int| 0 <= j < i ==> hearts@[j] == heart_quarters(game.player.health, j),
        decreases HEART_ICONS - i,
    {
        hearts.push(quarters_of(game.player.health, i));
        i += 1;
    }
    let frame = Frame {
        camera_x: game.camera_x,
        platforms,
        enemies,
        pickups,
        player: sprite_of_player(&game.player),
        hearts,
        distance: game.distance_traveled / METRE,
        game_time: game.game_time,
    };
    proof {
        let want = frame_spec(game@);
        assert(frame@.platforms =~= want.platforms);
        assert(frame@.enemies =~= want.enemies);
        assert(frame@.pickups =~= want.pickups);
        assert(frame@.hearts =~= want.hearts);
    }
    frame
}

} // verus!
