use platformer::enemy::Enemy;
use platformer::pickup::HeartPickup;
use platformer::platform::Platform;
use platformer::world::{advance_seed, Game, KeyState};

#[test]
fn seed_sequence_from_one() {
    let a = advance_seed(1);
    let b = advance_seed(a);
    let c = advance_seed(b);
    let d = advance_seed(c);
    assert_eq!((a, b, c, d), (1_103_527_590, 377_401_575, 662_824_084, 1_147_902_781));
}

#[test]
fn seeds_have_thirty_one_bits() {
    assert_eq!(advance_seed(0), 12_345);
    assert_eq!(advance_seed(0x7fff_ffff), 1_043_980_748);
    assert_eq!(advance_seed(u32::MAX), 1_043_980_748);
    let mut seed = 1;
    for _ in 0..1000 {
        seed = advance_seed(seed);
        assert!(seed <= 0x7fff_ffff);
    }
}

#[test]
fn default_key_state_holds_nothing() {
    let keys = KeyState::default();
    assert_eq!(keys, KeyState { left: false, right: false, up: false, space: false });
}

#[test]
fn new_game_is_generated_ahead_of_the_camera() {
    let g = Game::new();
    assert_eq!(
        g.platforms,
        vec![
            Platform::new(0, 450_000, 200_000, 50_000),
            Platform::new(200_000, 400_000, 100_000, 20_000),
            Platform::new(350_000, 350_000, 80_000, 20_000),
            Platform::new(550_000, 440_000, 120_000, 20_000),
            Platform::new(726_000, 334_000, 64_000, 20_000),
            Platform::new(964_000, 324_000, 64_000, 20_000),
            Platform::new(1_094_000, 402_000, 92_000, 20_000),
            Platform::new(1_319_000, 336_000, 86_000, 20_000),
        ]
    );
    assert_eq!(g.enemies, vec![Enemy::new(250_000, 350_000, 80_000)]);
    assert!(g.hearts.is_empty());
    assert_eq!(g.camera_x, 0);
    assert_eq!(g.distance_traveled, 0);
    assert_eq!(g.last_platform_x, 1_362_000);
    assert_eq!(g.next_platform_seed, 267_834_847);
    assert_eq!(g.game_time, 0);
    assert_eq!(g.keys, KeyState::default());
    assert!(g.last_platform_x >= g.camera_x + 1_200_000);
}

#[test]
fn the_first_draw_places_the_first_platform() {
    // 1103527590 leaves 90 modulo 150, 60 modulo 90 and 190 modulo 200:
    // a gap of 140, a width of 120 and a top edge at 350 + 190 - 100.
    let g = Game::new();
    let first = g.platforms[3];
    assert_eq!(first.x, 350_000 + 140_000 + 60_000);
    assert_eq!(first.width, 120_000);
    assert_eq!(first.y, 440_000);
    assert_eq!(first.height, 20_000);
}

#[test]
fn generating_again_changes_nothing() {
    let mut g = Game::new();
    let before = g.clone();
    g.generate_platforms_ahead();
    assert_eq!(g, before);
    g.generate_platforms_ahead();
    assert_eq!(g, before);
}

#[test]
fn generation_catches_up_with_a_camera_far_ahead() {
    let mut g = Game::new();
    g.camera_x = 20_000_000;
    g.generate_platforms_ahead();
    assert!(g.last_platform_x >= g.camera_x + 1_200_000);
    assert_eq!(g.platforms.len(), 8 + 91);
    let grown = g.clone();
    g.generate_platforms_ahead();
    assert_eq!(g, grown);
}

#[test]
fn the_frontier_advances_by_gap_and_width() {
    let mut g = Game::new();
    g.camera_x = 20_000_000;
    g.generate_platforms_ahead();
    let mut frontier = 350_000;
    let mut seed = 1;
    for platform in &g.platforms[3..] {
        seed = advance_seed(seed);
        let gap = (50 + (seed % 150) as i64) * 1000;
        let width = (60 + (seed % 90) as i64) * 1000;
        assert_eq!(platform.x, frontier + gap + width / 2);
        assert_eq!(platform.width, width);
        assert_eq!(platform.y, (250 + (seed % 200) as i64) * 1000);
        assert!(platform.y >= 250_000 && platform.y <= 449_000);
        frontier += gap + width;
        seed = advance_seed(seed);
    }
    assert_eq!(g.last_platform_x, frontier);
    assert_eq!(g.next_platform_seed, seed);
}

#[test]
fn no_enemies_spawn_at_the_start() {
    let mut g = Game::new();
    g.camera_x = 20_000_000;
    g.generate_platforms_ahead();
    assert_eq!(g.enemies.len(), 1);
    assert_eq!(g.hearts.len(), 8);
}

#[test]
fn forty_percent_of_platforms_carry_an_enemy_after_a_thousand_units() {
    let mut g = Game::new();
    g.distance_traveled = 1_000_000;
    g.camera_x = 20_000_000;
    g.generate_platforms_ahead();
    // Count the draws below forty by replaying the seed sequence from
    // where the opening world left it.
    let mut seed = 267_834_847;
    let mut expected = 0;
    for _ in 0..91 {
        seed = advance_seed(seed);
        if seed % 100 < 40 {
            expected += 1;
        }
        seed = advance_seed(seed);
    }
    assert_eq!(g.enemies.len(), 1 + expected);
    assert_eq!(g.enemies.len(), 1 + 35);
}

#[test]
fn every_platform_carries_an_enemy_late_in_the_game() {
    let mut g = Game::new();
    g.distance_traveled = 2_500_000;
    g.camera_x = 20_000_000;
    g.generate_platforms_ahead();
    assert_eq!(g.platforms.len(), 8 + 91);
    assert_eq!(g.enemies.len(), 1 + 91);
    let mut far = Game::new();
    far.distance_traveled = 900_000_000;
    far.camera_x = 20_000_000;
    far.generate_platforms_ahead();
    assert_eq!(far.enemies.len(), 1 + 91);
}

#[test]
fn a_draw_at_the_chance_spawns_nothing() {
    // At a distance of 2474.999 units the chance is 98 percent, and only
    // draws below 98 spawn an enemy.
    let mut g = Game::new();
    g.distance_traveled = 2_474_999;
    g.camera_x = 200_000_000;
    g.generate_platforms_ahead();
    let mut seed = 267_834_847;
    let mut expected = 0;
    let mut unlucky = 0;
    for _ in 8..g.platforms.len() {
        seed = advance_seed(seed);
        if seed % 100 < 98 {
            expected += 1;
        } else {
            unlucky += 1;
        }
        seed = advance_seed(seed);
    }
    assert!(unlucky > 0);
    assert_eq!(g.enemies.len(), 1 + expected);
}

#[test]
fn spawned_enemies_and_hearts_sit_above_their_platform() {
    let mut g = Game::new();
    g.distance_traveled = 3_000_000;
    g.camera_x = 2_000_000;
    g.generate_platforms_ahead();
    assert_eq!(g.platforms.len(), 18);
    assert_eq!(g.enemies.len(), 11);
    assert_eq!(g.hearts.len(), 1);
    assert_eq!(g.last_platform_x, 3_246_000);
    let platform = g.platforms[8];
    assert_eq!(platform, Platform::new(1_469_000, 358_000, 98_000, 20_000));
    let enemy = g.enemies[1];
    assert_eq!(enemy, Enemy::new(1_469_000 + 24_500, 358_000 - 50_000, 78_400));
    assert_eq!((enemy.patrol_start, enemy.patrol_end), (1_454_300, 1_532_700));
    assert_eq!(g.hearts[0], HeartPickup::new(2_957_000, 374_000));
    assert_eq!(g.platforms[16].x, 2_957_000);
    assert_eq!(g.platforms[16].y, 414_000);
}

#[test]
fn pruning_drops_platforms_whose_far_end_is_behind_the_line() {
    let mut g = Game::new();
    g.camera_x = 1_000_000;
    // The line is at 500 units.
    g.cleanup_behind();
    assert_eq!(
        g.platforms,
        vec![
            Platform::new(550_000, 440_000, 120_000, 20_000),
            Platform::new(726_000, 334_000, 64_000, 20_000),
            Platform::new(964_000, 324_000, 64_000, 20_000),
            Platform::new(1_094_000, 402_000, 92_000, 20_000),
            Platform::new(1_319_000, 336_000, 86_000, 20_000),
        ]
    );
}

#[test]
fn a_platform_ending_exactly_on_the_line_is_dropped() {
    let mut g = Game::new();
    g.platforms = vec![
        Platform::new(400_000, 300_000, 100_000, 20_000),
        Platform::new(400_000, 300_000, 100_001, 20_000),
    ];
    g.camera_x = 1_000_000;
    g.cleanup_behind();
    assert_eq!(g.platforms, vec![Platform::new(400_000, 300_000, 100_001, 20_000)]);
}

#[test]
fn pruning_drops_dead_enemies_behind_the_line_only() {
    let mut g = Game::new();
    let mut dead_behind = Enemy::new(100_000, 300_000, 80_000);
    dead_behind.take_damage(true);
    let mut dead_on_line = Enemy::new(500_000, 300_000, 80_000);
    dead_on_line.take_damage(true);
    let mut dead_ahead = Enemy::new(500_001, 300_000, 80_000);
    dead_ahead.take_damage(true);
    let alive_behind = Enemy::new(200_000, 300_000, 80_000);
    let alive_ahead = Enemy::new(900_000, 300_000, 80_000);
    g.enemies = vec![dead_behind, alive_behind, dead_on_line, dead_ahead, alive_ahead];
    g.camera_x = 1_000_000;
    g.cleanup_behind();
    assert_eq!(g.enemies, vec![alive_behind, dead_ahead, alive_ahead]);
}

#[test]
fn pruning_drops_hearts_behind_the_line_or_collected() {
    let mut g = Game::new();
    let behind = HeartPickup::new(499_999, 300_000);
    let on_line = HeartPickup::new(500_000, 300_000);
    let ahead = HeartPickup::new(500_001, 300_000);
    let mut collected_ahead = HeartPickup::new(900_000, 300_000);
    collected_ahead.collected = true;
    let far = HeartPickup::new(1_500_000, 300_000);
    g.hearts = vec![behind, far, on_line, collected_ahead, ahead];
    g.camera_x = 1_000_000;
    g.cleanup_behind();
    assert_eq!(g.hearts, vec![far, ahead]);
}

#[test]
fn pruning_keeps_everything_near_the_start() {
    let mut g = Game::new();
    let before = g.clone();
    g.cleanup_behind();
    assert_eq!(g, before);
}

#[test]
fn pruning_touches_nothing_but_the_lists() {
    let mut g = Game::new();
    g.camera_x = 1_000_000;
    let before = g.clone();
    g.cleanup_behind();
    assert_eq!(g.player, before.player);
    assert_eq!(g.camera_x, before.camera_x);
    assert_eq!(g.last_platform_x, before.last_platform_x);
    assert_eq!(g.next_platform_seed, before.next_platform_seed);
    assert_eq!(g.distance_traveled, before.distance_traveled);
}
