//! The world around the player: the entity lists, the camera, and the
//! seeded generator and pruner that keep the world populated ahead of
//! the camera and empty behind it.
use vstd::prelude::*;
use crate::enemy::{all_enemies_wf, Enemy};
use crate::fixed::{PLAYER_LIMIT, UNIT, WORLD_LIMIT};
use crate::pickup::{all_hearts_wf, HeartPickup, PICKUP_SIZE};
use crate::platform::{all_platforms_wf, Platform};
use crate::player::Player;

verus! {

/// How far ahead of the camera the world is generated.
pub const GENERATE_AHEAD: i64 = 1_200_000;

/// How far behind the camera entities are kept.
pub const KEEP_BEHIND: i64 = 500_000;

/// Height of a generated platform.
pub const PLATFORM_HEIGHT: i64 = 20_000;

/// Largest value of the generation frontier.
pub const FRONTIER_LIMIT: i64 = 1_000_000_002_000_000;

/// Multiplier of the seed sequence.
pub const SEED_FACTOR: u64 = 1_103_515_245;

/// Increment of the seed sequence.
pub const SEED_STEP: u64 = 12_345;

/// Number of values a seed can take: seeds have thirty-one bits.
pub const SEED_RANGE: u64 = 0x8000_0000;

/// Highest enemy spawn chance, in percent, that distance can buy; any
/// chance of a hundred or more spawns an enemy on every platform.
pub const MAX_SPAWN_CHANCE: i64 = 120;

/// Distance that buys one percent of enemy spawn chance.
pub const DISTANCE_PER_CHANCE: i64 = 25_000;

/// Chance, in percent, that a platform carries a heart pickup.
pub const HEART_CHANCE: u32 = 15;

/// The four actions that can be held down.
#[derive(Clone, Copy, Debug, PartialEq, Eq, Structural)]
pub struct KeyState {
    pub left: bool,
    pub right: bool,
    pub up: bool,
    pub space: bool,
}

impl KeyState {
    /// No action is held.
    pub open spec fn released() -> KeyState {
        KeyState { left: false, right: false, up: false, space: false }
    }
}

impl Default for KeyState {
    fn default() -> (k: KeyState)
        ensures
            k == KeyState::released(),
    {
        KeyState { left: false, right: false, up: false, space: false }
    }
}

/// The whole simulation state.
#[derive(Clone, Debug, PartialEq, Eq)]
pub struct Game {
    pub player: Player,
    pub enemies: Vec<Enemy>,
    pub platforms: Vec<Platform>,
    pub hearts: Vec<HeartPickup>,
    /// Left edge of the visible world.
    pub camera_x: i64,
    pub keys: KeyState,
    /// Greatest horizontal position the player has reached.
    pub distance_traveled: i64,
    /// The frontier: right end of the generated world.
    pub last_platform_x: i64,
    pub next_platform_seed: u32,
    /// Elapsed game time, in delta steps.
    pub game_time: u64,
}

/// The mathematical value of a [`Game`]: the same fields, with the
/// entity lists as sequences.
pub struct GameState {
    pub player: Player,
    pub enemies: Seq<Enemy>,
    pub platforms: Seq<Platform>,
    pub hearts: Seq<HeartPickup>,
    pub camera_x: i64,
    pub keys: KeyState,
    pub distance_traveled: i64,
    pub last_platform_x: i64,
    pub next_platform_seed: u32,
    pub game_time: u64,
}

impl View for Game {
    type V = GameState;

    open spec fn view(&self) -> GameState {
        GameState {
            player: self.player,
            enemies: self.enemies@,
            platforms: self.platforms@,
            hearts: self.hearts@,
            camera_x: self.camera_x,
            keys: self.keys,
            distance_traveled: self.distance_traveled,
            last_platform_x: self.last_platform_x,
            next_platform_seed: self.next_platform_seed,
            game_time: self.game_time,
        }
    }
}

/// The seed that follows `seed` in the generator's sequence.
pub open spec fn next_seed(seed: u32) -> u32 {
    ((seed * SEED_FACTOR + SEED_STEP) % (SEED_RANGE as int)) as u32
}

/// Gap between the frontier and the platform drawn from `seed`.
pub open spec fn gap_of(seed: u32) -> int {
    (50 + seed % 150) * UNIT
}

/// Width of the platform drawn from `seed`.
pub open spec fn width_of(seed: u32) -> int {
    (60 + seed % 90) * UNIT
}

/// Top edge of the platform drawn from `seed`: up to a hundred units
/// above or below the middle height of three hundred and fifty.
pub open spec fn top_of(seed: u32) -> int {
    (350 + seed % 200 - 100) * UNIT
}

/// Enemy spawn chance in percent at a distance travelled: forty percent
/// per thousand units, up to three thousand units.
pub open spec fn spawn_chance(distance: int) -> int {
    if distance / (DISTANCE_PER_CHANCE as int) > MAX_SPAWN_CHANCE {
        MAX_SPAWN_CHANCE as int
    } else {
        distance / (DISTANCE_PER_CHANCE as int)
    }
}

/// The platform drawn from `seed` carries an enemy at this distance.
pub open spec fn spawns_enemy(seed: u32, distance: int) -> bool {
    seed % 100 < spawn_chance(distance)
}

/// The platform whose second draw is `seed` carries a heart pickup.
pub open spec fn spawns_heart(seed: u32) -> bool {
    seed % 100 < HEART_CHANCE
}

impl GameState {
    /// The invariant of the simulation: every entity is well formed,
    /// camera and distance are not negative and within the player's
    /// range, and the frontier is within its range.
    pub open spec fn wf(self) -> bool {
        &&& self.player.wf()
        &&& all_enemies_wf(self.enemies)
        &&& all_platforms_wf(self.platforms)
        &&& all_hearts_wf(self.hearts)
        &&& 0 <= self.camera_x <= PLAYER_LIMIT
        &&& 0 <= self.distance_traveled <= PLAYER_LIMIT
        &&& -WORLD_LIMIT <= self.last_platform_x <= FRONTIER_LIMIT
    }

    /// The world is generated as far ahead of the camera as it has to
    /// be.
    pub open spec fn caught_up(self) -> bool {
        self.last_platform_x >= self.camera_x + GENERATE_AHEAD
    }

    /// Distance by which the frontier falls short of where it has to
    /// be; nothing once the world has caught up.
    pub open spec fn shortfall(self) -> nat {
        if self.caught_up() {
            0
        } else {
            (self.camera_x + GENERATE_AHEAD - self.last_platform_x) as nat
        }
    }

    /// Left edge of the platform that the next draw places.
    pub open spec fn next_platform_left(self) -> int {
        let seed = next_seed(self.next_platform_seed);
        self.last_platform_x + gap_of(seed) + width_of(seed) / 2
    }

    /// The platform that the next draw places.
    pub open spec fn next_platform(self) -> Platform {
        let seed = next_seed(self.next_platform_seed);
        Platform {
            x: self.next_platform_left() as i64,
            y: top_of(seed) as i64,
            width: width_of(seed) as i64,
            height: PLATFORM_HEIGHT,
        }
    }

    /// The enemy that the next draw places if it places one: above the
    /// platform, a quarter of its width in, patrolling four fifths of
    /// its width.
    pub open spec fn next_enemy(self) -> Enemy {
        let platform = self.next_platform();
        Enemy::spawned(
            (platform.x + platform.width / 4) as i64,
            (platform.y - 50 * UNIT) as i64,
            (platform.width * 8 / 10) as i64,
        )
    }

    /// The pickup that the next draw places if it places one: forty
    /// units above the platform's left edge.
    pub open spec fn next_heart(self) -> HeartPickup {
        let platform = self.next_platform();
        HeartPickup {
            x: platform.x,
            y: (platform.y - 40 * UNIT) as i64,
            size: PICKUP_SIZE,
            collected: false,
            float_offset: 0,
        }
    }

    /// One round of generation: two draws from the seed sequence place
    /// one platform beyond the frontier, perhaps an enemy and perhaps a
    /// heart pickup, and move the frontier to the new platform's far
    /// end.
    pub open spec fn extended(self) -> GameState {
        let first = next_seed(self.next_platform_seed);
        let second = next_seed(first);
        GameState {
            platforms: self.platforms.push(self.next_platform()),
            enemies: if spawns_enemy(first, self.distance_traveled as int) {
                self.enemies.push(self.next_enemy())
            } else {
                self.enemies
            },
            hearts: if spawns_heart(second) {
                self.hearts.push(self.next_heart())
            } else {
                self.hearts
            },
            last_platform_x: (self.last_platform_x + gap_of(first) + width_of(first)) as i64,
            next_platform_seed: second,
            ..self
        }
    }

    /// The world generated up to the fixed point: rounds of generation
    /// are repeated until the frontier has caught up with the camera.
    pub open spec fn generated(self) -> GameState
        decreases self.shortfall(),
        when self.last_platform_x <= FRONTIER_LIMIT
        via Self::generated_terminates
    {
        if self.caught_up() {
            self
        } else {
            self.extended().generated()
        }
    }

    #[via_fn]
    proof fn generated_terminates(self) {
        if self.last_platform_x <= FRONTIER_LIMIT && !self.caught_up() {
            self.lemma_extended_frontier();
        }
    }

    /// A round of generation moves the frontier forward by at least a
    /// hundred and ten units and by less than three hundred and fifty.
    pub proof fn lemma_extended_frontier(self)
        requires
            self.last_platform_x <= FRONTIER_LIMIT,
        ensures
            self.last_platform_x + 110 * UNIT <= self.extended().last_platform_x
                <= self.last_platform_x + 348 * UNIT,
            self.extended().camera_x == self.camera_x,
    {
        lemma_draw_bounds(next_seed(self.next_platform_seed));
    }
}

/// Ranges of what one draw yields: a gap of at least fifty units and
/// less than two hundred, a width of at least sixty and less than a
/// hundred and fifty, and a top edge at a height of at least two hundred
/// and fifty and less than four hundred and fifty. The width is even, so
/// that its half is exact.
pub proof fn lemma_draw_bounds(seed: u32)
    ensures
        50 * UNIT <= gap_of(seed) <= 199 * UNIT,
        60 * UNIT <= width_of(seed) <= 149 * UNIT,
        250 * UNIT <= top_of(seed) <= 449 * UNIT,
        width_of(seed) / 2 * 2 == width_of(seed),
{
    let a = seed % 150;
    let b = seed % 90;
    let c = seed % 200;
    assert(0 <= a < 150 && 0 <= b < 90 && 0 <= c < 200);
    assert(gap_of(seed) == (50 + a) * 1000);
    assert(width_of(seed) == (60 + b) * 1000);
    assert(top_of(seed) == (350 + c - 100) * 1000);
}

/// Draws the next seed of the sequence.
pub fn advance_seed(seed: u32) -> (r: u32)
    ensures
        r == next_seed(seed),
        r < SEED_RANGE,
{
    let wide: u64 = (seed as u64) * SEED_FACTOR + SEED_STEP;
    assert(wide & 0x7fff_ffff == wide % 0x8000_0000) by (bit_vector);
    (wide & 0x7fff_ffff) as u32
}

/// Where the pruning line lies for a camera position: everything at or
/// behind it may be dropped.
pub open spec fn prune_line(camera_x: i64) -> int {
    camera_x - KEEP_BEHIND
}

/// A platform is kept while its far end is ahead of the line.
pub open spec fn keeps_platform(platform: Platform, line: int) -> bool {
    platform.x + platform.width > line
}

/// An enemy is kept while it is ahead of the line or alive.
pub open spec fn keeps_enemy(enemy: Enemy, line: int) -> bool {
    enemy.x > line || enemy.is_alive
}

/// A pickup is kept while it is ahead of the line and not collected.
pub open spec fn keeps_heart(heart: HeartPickup, line: int) -> bool {
    heart.x > line && !heart.collected
}

/// [`keeps_platform`] for a fixed line, as a predicate on platforms.
pub open spec fn platform_keeper(line: int) -> spec_fn(Platform) -> bool {
    |platform: Platform| keeps_platform(platform, line)
}

/// [`keeps_enemy`] for a fixed line, as a predicate on enemies.
pub open spec fn enemy_keeper(line: int) -> spec_fn(Enemy) -> bool {
    |enemy: Enemy| keeps_enemy(enemy, line)
}

/// [`keeps_heart`] for a fixed line, as a predicate on pickups.
pub open spec fn heart_keeper(line: int) -> spec_fn(HeartPickup) -> bool {
    |heart: HeartPickup| keeps_heart(heart, line)
}

/// Filtering one element more either appends that element or changes
/// nothing.
pub proof fn lemma_filter_next<A>(items: Seq<A>, keep: spec_fn(A) -> bool, i: int)
    requires
        0 <= i < items.len(),
    ensures
        items.take(i + 1).filter(keep) == if keep(items[i]) {
            items.take(i).filter(keep).push(items[i])
        } else {
            items.take(i).filter(keep)
        },
{
    reveal(Seq::filter);
    assert(items.take(i + 1).drop_last() =~= items.take(i));
    assert(items.take(i + 1).last() == items[i]);
}

impl GameState {
    /// The world with everything behind the pruning line dropped; what
    /// is kept stays in its order.
    pub open spec fn pruned(self) -> GameState {
        let line = prune_line(self.camera_x);
        GameState {
            platforms: self.platforms.filter(platform_keeper(line)),
            enemies: self.enemies.filter(enemy_keeper(line)),
            hearts: self.hearts.filter(heart_keeper(line)),
            ..self
        }
    }

    /// The world at the start of a session, before anything is
    /// generated: the starting ground, two platforms and one enemy.
    pub open spec fn opening() -> GameState {
        GameState {
            player: Player::initial(),
            enemies: seq![Enemy::spawned(250_000, 350_000, 80_000)],
            platforms: seq![
                Platform { x: 0, y: 450_000, width: 200_000, height: 50_000 },
                Platform { x: 200_000, y: 400_000, width: 100_000, height: 20_000 },
                Platform { x: 350_000, y: 350_000, width: 80_000, height: 20_000 },
            ],
            hearts: Seq::empty(),
            camera_x: 0,
            keys: KeyState::released(),
            distance_traveled: 0,
            last_platform_x: 350_000,
            next_platform_seed: 1,
            game_time: 0,
        }
    }
}

fn prune_platforms(platforms: &Vec<Platform>, line: i64) -> (kept: Vec<Platform>)
    requires
        all_platforms_wf(platforms@),
    ensures
        kept@ == platforms@.filter(platform_keeper(line as int)),
        all_platforms_wf(kept@),
{
    let mut kept: Vec<Platform> = Vec::new();
    let mut i: usize = 0;
    assert(platforms@.take(0).filter(platform_keeper(line as int)) =~= Seq::empty()) by {
        reveal(Seq::filter);
    }
    while i < platforms.len()
        invariant
            0 <= i <= platforms.len(),
            all_platforms_wf(platforms@),
            all_platforms_wf(kept@),
            kept@ == platforms@.take(i as int).filter(platform_keeper(line as int)),
        decreases platforms.len() - i,
    {
        let platform = platforms[i];
        proof {
            lemma_filter_next(platforms@, platform_keeper(line as int), i as int);
            assert(platform.wf());
        }
        if platform.x + platform.width > line {
            kept.push(platform);
        }
        i += 1;
    }
    assert(platforms@.take(i as int) =~= platforms@);
    kept
}

fn prune_enemies(enemies: &Vec<Enemy>, line: i64) -> (kept: Vec<Enemy>)
    requires
        all_enemies_wf(enemies@),
    ensures
        kept@ == enemies@.filter(enemy_keeper(line as int)),
        all_enemies_wf(kept@),
{
    let mut kept: Vec<Enemy> = Vec::new();
    let mut i: usize = 0;
    assert(enemies@.take(0).filter(enemy_keeper(line as int)) =~= Seq::empty()) by {
        reveal(Seq::filter);
    }
    while i < enemies.len()
        invariant
            0 <= i <= enemies.len(),
            all_enemies_wf(enemies@),
            all_enemies_wf(kept@),
            kept@ == enemies@.take(i as int).filter(enemy_keeper(line as int)),
        decreases enemies.len() - i,
    {
        let enemy = enemies[i];
        proof {
            lemma_filter_next(enemies@, enemy_keeper(line as int), i as int);
            assert(enemy.wf());
        }
        if enemy.x > line || enemy.is_alive {
            kept.push(enemy);
        }
        i += 1;
    }
    assert(enemies@.take(i as int) =~= enemies@);
    kept
}

fn prune_hearts(hearts: &Vec<HeartPickup>, line: i64) -> (kept: Vec<HeartPickup>)
    requires
        all_hearts_wf(hearts@),
    ensures
        kept@ == hearts@.filter(heart_keeper(line as int)),
        all_hearts_wf(kept@),
{
    let mut kept: Vec<HeartPickup> = Vec::new();
    let mut i: usize = 0;
    assert(hearts@.take(0).filter(heart_keeper(line as int)) =~= Seq::empty()) by {
        reveal(Seq::filter);
    }
    while i < hearts.len()
        invariant
            0 <= i <= hearts.len(),
            all_hearts_wf(hearts@),
            all_hearts_wf(kept@),
            kept@ == hearts@.take(i as int).filter(heart_keeper(line as int)),
        decreases hearts.len() - i,
    {
        let heart = hearts[i];
        proof {
            lemma_filter_next(hearts@, heart_keeper(line as int), i as int);
            assert(heart.wf());
        }
        if heart.x > line && !heart.collected {
            kept.push(heart);
        }
        i += 1;
    }
    assert(hearts@.take(i as int) =~= hearts@);
    kept
}

impl Game {
    /// The invariant of the simulation; see [`GameState::wf`].
    pub open spec fn wf(&self) -> bool {
        self@.wf()
    }

    /// A new session: the opening world, generated ahead of the camera.
    pub fn new() -> (game: Game)
        ensures
            game@ == GameState::opening().generated(),
            game.wf(),
            game@.caught_up(),
    {
        let platforms = vec![
            Platform::new(0, 450_000, 200_000, 50_000),
            Platform::new(200_000, 400_000, 100_000, 20_000),
            Platform::new(350_000, 350_000, 80_000, 20_000),
        ];
        let enemies = vec![Enemy::new(250_000, 350_000, 80_000)];
        let mut game = Game {
            player: Player::new(),
            enemies,
            platforms,
            hearts: Vec::new(),
            camera_x: 0,
            keys: KeyState::default(),
            distance_traveled: 0,
            last_platform_x: 350_000,
            next_platform_seed: 1,
            game_time: 0,
        };
        proof {
            let opening = GameState::opening();
            assert(game.platforms@ =~= opening.platforms);
            assert(game.enemies@ =~= opening.enemies);
            assert(game.hearts@ =~= opening.hearts);
            assert(game@ == opening);
        }
        game.generate_platforms_ahead();
        game
    }

    /// Generates the world ahead of the camera until the frontier has
    /// caught up. When it already has, nothing changes.
    pub fn generate_platforms_ahead(&mut self)
        requires
            old(self).wf(),
        ensures
            final(self)@ == old(self)@.generated(),
            final(self).wf(),
            final(self)@.caught_up(),
    {
        while self.last_platform_x < self.camera_x + GENERATE_AHEAD
            invariant
                self.wf(),
                self@.generated() == old(self)@.generated(),
            decreases self@.shortfall(),
        {
            let ghost before = self@;
            proof {
                lemma_draw_bounds(next_seed(before.next_platform_seed));
                before.lemma_extended_frontier();
            }
            self.next_platform_seed = advance_seed(self.next_platform_seed);
            let seed: u32 = self.next_platform_seed;
            let gap: i64 = (50 + (seed % 150) as i64) * UNIT;
            let width: i64 = (60 + (seed % 90) as i64) * UNIT;
            let y: i64 = (350 + (seed % 200) as i64 - 100) * UNIT;
            let x: i64 = self.last_platform_x + gap + width / 2;
            self.platforms.push(Platform::new(x, y, width, PLATFORM_HEIGHT));
            let earned: i64 = self.distance_traveled / DISTANCE_PER_CHANCE;
            let chance: i64 = if earned > MAX_SPAWN_CHANCE {
                MAX_SPAWN_CHANCE
            } else {
                earned
            };
            if ((seed % 100) as i64) < chance {
                self.enemies.push(Enemy::new(x + width / 4, y - 50 * UNIT, width * 8 / 10));
            }
            self.next_platform_seed = advance_seed(self.next_platform_seed);
            if self.next_platform_seed % 100 < HEART_CHANCE {
                self.hearts.push(HeartPickup::new(x, y - 40 * UNIT));
            }
            self.last_platform_x = x + width / 2;
            proof {
                assert(self@ =~= before.extended());
            }
        }
    }

    /// Drops what lies behind the pruning line: platforms whose far end
    /// is at or behind it, dead enemies at or behind it, and pickups
    /// that are at or behind it or collected. What is kept stays in its
    /// order.
    pub fn cleanup_behind(&mut self)
        requires
            old(self).wf(),
        ensures
            final(self)@ == old(self)@.pruned(),
            final(self).wf(),
    {
        let line: i64 = self.camera_x - KEEP_BEHIND;
        self.platforms = prune_platforms(&self.platforms, line);
        self.enemies = prune_enemies(&self.enemies, line);
        self.hearts = prune_hearts(&self.hearts, line);
    }
}

impl GameState {
    /// A round of generation keeps a well-formed world well formed as
    /// long as the frontier was short of its goal, and changes nothing
    /// but the entity lists, the frontier and the seed.
    pub proof fn lemma_extended_wf(self)
        requires
            self.wf(),
            !self.caught_up(),
        ensures
            self.extended().wf(),
            self.extended().player == self.player,
            self.extended().camera_x == self.camera_x,
            self.extended().keys == self.keys,
            self.extended().distance_traveled == self.distance_traveled,
            self.extended().game_time == self.game_time,
    {
        let seed = next_seed(self.next_platform_seed);
        lemma_draw_bounds(seed);
        self.lemma_extended_frontier();
        let next = self.extended();
        let platform = self.next_platform();
        assert(platform.wf());
        assert(self.next_enemy().wf());
        assert(self.next_heart().wf());
        assert forall|i: int| 0 <= i < next.platforms.len() implies (#[trigger] next.platforms[i]).wf() by {
            if i < self.platforms.len() {
                assert(self.platforms[i].wf());
            }
        }
        assert forall|i: int| 0 <= i < next.enemies.len() implies (#[trigger] next.enemies[i]).wf() by {
            if i < self.enemies.len() {
                assert(self.enemies[i].wf());
            }
        }
        assert forall|i: int| 0 <= i < next.hearts.len() implies (#[trigger] next.hearts[i]).wf() by {
            if i < self.hearts.len() {
                assert(self.hearts[i].wf());
            }
        }
    }

    /// Generation reaches its fixed point: afterwards the frontier has
    /// caught up with the camera, the world is still well formed, and
    /// player, camera, keys, distance and time are untouched.
    pub proof fn lemma_generated(self)
        requires
            self.wf(),
        ensures
            self.generated().wf(),
            self.generated().caught_up(),
            self.generated().player == self.player,
            self.generated().camera_x == self.camera_x,
            self.generated().keys == self.keys,
            self.generated().distance_traveled == self.distance_traveled,
            self.generated().game_time == self.game_time,
        decreases self.shortfall(),
    {
        if !self.caught_up() {
            self.lemma_extended_wf();
            self.lemma_extended_frontier();
            self.extended().lemma_generated();
        }
    }

    /// Generation is a no-op on a world that has caught up, so running
    /// it twice is the same as running it once.
    pub proof fn lemma_generated_idempotent(self)
        requires
            self.wf(),
        ensures
            self.caught_up() ==> self.generated() == self,
            self.generated().generated() == self.generated(),
    {
        self.lemma_generated();
    }

    /// Pruning never adds anything: every entity left is one that was
    /// there, passes its keep test, and so a well-formed world stays
    /// well formed. Everything but the entity lists is untouched.
    pub proof fn lemma_pruned_wf(self)
        requires
            self.wf(),
        ensures
            self.pruned().wf(),
            self.pruned().player == self.player,
            self.pruned().camera_x == self.camera_x,
            self.pruned().last_platform_x == self.last_platform_x,
            self.pruned().caught_up() == self.caught_up(),
    {
        let line = prune_line(self.camera_x);
        let next = self.pruned();
        assert forall|i: int| 0 <= i < next.platforms.len() implies (#[trigger] next.platforms[i]).wf() by {
            lemma_filter_origin(self.platforms, platform_keeper(line), i);
        }
        assert forall|i: int| 0 <= i < next.enemies.len() implies (#[trigger] next.enemies[i]).wf() by {
            lemma_filter_origin(self.enemies, enemy_keeper(line), i);
        }
        assert forall|i: int| 0 <= i < next.hearts.len() implies (#[trigger] next.hearts[i]).wf() by {
            lemma_filter_origin(self.hearts, heart_keeper(line), i);
        }
    }
}

/// Every element of a filtered sequence is an element of the sequence
/// that was filtered.
pub proof fn lemma_filter_origin<A>(items: Seq<A>, keep: spec_fn(A) -> bool, i: int)
    requires
        0 <= i < items.filter(keep).len(),
    ensures
        exists|j: int| 0 <= j < items.len() && items[j] == items.filter(keep)[i],
    decreases items.len(),
{
    reveal(Seq::filter);
    if items.len() > 0 {
        let front = items.drop_last().filter(keep);
        if i < front.len() {
            lemma_filter_origin(items.drop_last(), keep, i);
            let j = choose|j: int| 0 <= j < items.drop_last().len() && items.drop_last()[j] == front[i];
            assert(items[j] == items.filter(keep)[i]);
        } else {
            assert(items[items.len() - 1] == items.filter(keep)[i]);
        }
    }
}

/// Pruning is safe. A platform whose far end is ahead of the pruning
/// line, an enemy ahead of it, a living enemy anywhere, and an
/// uncollected pickup ahead of it are all still there afterwards; and
/// no dead enemy at or behind the line is.
pub proof fn lemma_prune_safety(state: GameState)
    ensures
        forall|i: int|
            0 <= i < state.platforms.len() && (#[trigger] state.platforms[i]).x
                + state.platforms[i].width > prune_line(state.camera_x)
                ==> state.pruned().platforms.contains(state.platforms[i]),
        forall|i: int|
            0 <= i < state.enemies.len() && ((#[trigger] state.enemies[i]).x > prune_line(
                state.camera_x,
            ) || state.enemies[i].is_alive) ==> state.pruned().enemies.contains(state.enemies[i]),
        forall|i: int|
            0 <= i < state.hearts.len() && (#[trigger] state.hearts[i]).x > prune_line(
                state.camera_x,
            ) && !state.hearts[i].collected ==> state.pruned().hearts.contains(state.hearts[i]),
        forall|j: int|
            0 <= j < state.pruned().enemies.len() ==> (#[trigger] state.pruned().enemies[j]).is_alive
                || state.pruned().enemies[j].x > prune_line(state.camera_x),
{
    let line = prune_line(state.camera_x);
    assert forall|i: int|
        0 <= i < state.platforms.len() && (#[trigger] state.platforms[i]).x
            + state.platforms[i].width > line implies state.pruned().platforms.contains(
        state.platforms[i],
    ) by {
        assert(platform_keeper(line)(state.platforms[i]));
        state.platforms.lemma_filter_contains(platform_keeper(line), i);
    }
    assert forall|i: int|
        0 <= i < state.enemies.len() && ((#[trigger] state.enemies[i]).x > line
            || state.enemies[i].is_alive) implies state.pruned().enemies.contains(
        state.enemies[i],
    ) by {
        assert(enemy_keeper(line)(state.enemies[i]));
        state.enemies.lemma_filter_contains(enemy_keeper(line), i);
    }
    assert forall|i: int|
        0 <= i < state.hearts.len() && (#[trigger] state.hearts[i]).x > line
            && !state.hearts[i].collected implies state.pruned().hearts.contains(
        state.hearts[i],
    ) by {
        assert(heart_keeper(line)(state.hearts[i]));
        state.hearts.lemma_filter_contains(heart_keeper(line), i);
    }
    assert forall|j: int| 0 <= j < state.pruned().enemies.len() implies (
    #[trigger] state.pruned().enemies[j]).is_alive || state.pruned().enemies[j].x > line by {
        state.enemies.lemma_filter_pred(enemy_keeper(line), j);
    }
}

} // verus!
