use platformer::enemy::Enemy;
use platformer::geometry::Rect;
use platformer::platform::Platform;

fn opening_platforms() -> Vec<Platform> {
    vec![
        Platform::new(0, 450_000, 200_000, 50_000),
        Platform::new(200_000, 400_000, 100_000, 20_000),
        Platform::new(350_000, 350_000, 80_000, 20_000),
    ]
}

#[test]
fn new_enemy_matches_the_data_model() {
    let e = Enemy::new(250_000, 350_000, 80_000);
    assert_eq!(e.x, 250_000);
    assert_eq!(e.y, 350_000);
    assert_eq!(e.width, 21_000);
    assert_eq!(e.height, 27_000);
    assert_eq!(e.vel_x, 1_500);
    assert_eq!(e.vel_y, 0);
    assert_eq!(e.health, 1);
    assert_eq!(e.patrol_start, 210_000);
    assert_eq!(e.patrol_end, 290_000);
    assert_eq!(e.speed, 1_500);
    assert!(e.is_alive);
    assert_eq!(e.hit_flash, 0);
}

#[test]
fn patrol_interval_is_centred_for_odd_and_negative_ranges() {
    let e = Enemy::new(0, 0, 7);
    assert_eq!((e.patrol_start, e.patrol_end), (-3, 3));
    let e = Enemy::new(0, 0, -7);
    assert_eq!((e.patrol_start, e.patrol_end), (3, -3));
}

#[test]
fn one_hit_kills_a_fresh_enemy() {
    let mut e = Enemy::new(250_000, 350_000, 80_000);
    e.take_damage(true);
    assert!(!e.is_alive);
    assert_eq!(e.health, 0);
    assert_eq!(e.hit_flash, 1_000_000);
    assert_eq!((e.hit_flash as f64) / 1_000_000.0, 1.0);
    assert_eq!(e.vel_x, -8_000);
    assert_eq!(e.vel_y, -3_000);
}

#[test]
fn a_hit_from_the_left_throws_the_enemy_right() {
    let mut e = Enemy::new(250_000, 350_000, 80_000);
    e.take_damage(false);
    assert!(!e.is_alive);
    assert_eq!(e.vel_x, 8_000);
    assert_eq!(e.vel_y, -3_000);
}

#[test]
fn a_sturdy_enemy_survives_a_hit_but_still_flashes() {
    let mut e = Enemy::new(250_000, 350_000, 80_000);
    e.health = 3;
    e.take_damage(true);
    assert!(e.is_alive);
    assert_eq!(e.health, 2);
    assert_eq!(e.hit_flash, 1_000_000);
    assert_eq!(e.vel_x, -8_000);
}

#[test]
fn damage_always_applies_even_to_the_dead() {
    let mut e = Enemy::new(250_000, 350_000, 80_000);
    e.take_damage(true);
    e.take_damage(false);
    assert_eq!(e.health, -1);
    assert!(!e.is_alive);
    assert_eq!(e.vel_x, 8_000);
}

#[test]
fn an_enemy_falls_onto_its_platform_and_patrols() {
    let platforms = opening_platforms();
    let mut e = Enemy::new(250_000, 350_000, 80_000);
    e.update(1000, &platforms);
    assert_eq!((e.x, e.y, e.vel_x, e.vel_y), (251_500, 350_500, 1_500, 500));
    for _ in 1..9 {
        e.update(1000, &platforms);
    }
    assert_eq!((e.x, e.y, e.vel_y), (263_500, 372_500, 4_500));
    e.update(1000, &platforms);
    assert_eq!((e.x, e.y, e.vel_y), (265_000, 373_000, 0));
    for _ in 10..26 {
        e.update(1000, &platforms);
    }
    assert_eq!((e.x, e.vel_x), (289_000, 1_500));
    // At the end of the patrol interval the enemy turns round.
    e.update(1000, &platforms);
    assert_eq!((e.x, e.vel_x), (290_500, -1_500));
    e.update(1000, &platforms);
    assert_eq!((e.x, e.vel_x), (289_000, -1_500));
}

#[test]
fn an_enemy_turns_at_the_start_of_its_patrol() {
    let mut e = Enemy::new(250_000, 0, 80_000);
    e.vel_x = -1_500;
    e.x = 212_000;
    e.update(1000, &[]);
    assert_eq!((e.x, e.vel_x), (210_500, -1_500));
    e.update(1000, &[]);
    assert_eq!((e.x, e.vel_x), (209_000, 1_500));
}

#[test]
fn a_dead_enemy_does_not_move() {
    let mut e = Enemy::new(250_000, 350_000, 80_000);
    e.take_damage(true);
    let before = e;
    e.update(1000, &opening_platforms());
    assert_eq!(e, before);
}

#[test]
fn the_hit_flash_decays_over_twenty_frames() {
    let mut e = Enemy::new(250_000, 350_000, 80_000);
    e.health = 2;
    e.take_damage(true);
    for _ in 0..19 {
        e.update(1000, &[]);
        assert!(e.hit_flash > 0);
    }
    assert_eq!(e.hit_flash, 50_000);
    e.update(1000, &[]);
    assert_eq!(e.hit_flash, 0);
    e.update(1000, &[]);
    assert_eq!(e.hit_flash, 0);
}

#[test]
fn the_hit_flash_is_not_held_at_zero() {
    let mut e = Enemy::new(250_000, 350_000, 80_000);
    e.health = 2;
    e.take_damage(true);
    e.update(30_000, &[]);
    assert_eq!(e.hit_flash, -500_000);
    e.update(30_000, &[]);
    assert_eq!(e.hit_flash, -500_000);
}

#[test]
fn the_floor_catches_an_enemy() {
    let mut e = Enemy::new(1_000_000, 400_000, 80_000);
    for _ in 0..20 {
        e.update(1000, &[]);
    }
    assert_eq!(e.y, 450_000 - 27_000);
    assert_eq!(e.vel_y, 0);
}

#[test]
fn the_sword_hits_an_overlapping_enemy_once() {
    let sword = Rect { x: 240_000, y: 340_000, w: 20_000, h: 20_000 };
    let mut e = Enemy::new(250_000, 350_000, 80_000);
    e.health = 2;
    e.sword_hit(&sword, true);
    assert_eq!(e.health, 1);
    assert_eq!(e.hit_flash, 1_000_000);
    // The flash guards the enemy against the same swing.
    e.sword_hit(&sword, true);
    assert_eq!(e.health, 1);
    assert!(e.is_alive);
}

#[test]
fn the_sword_misses_what_it_does_not_overlap() {
    let sword = Rect { x: 0, y: 0, w: 20_000, h: 20_000 };
    let mut e = Enemy::new(250_000, 350_000, 80_000);
    let before = e;
    e.sword_hit(&sword, true);
    assert_eq!(e, before);
}

#[test]
fn the_sword_leaves_the_dead_alone() {
    let sword = Rect { x: 240_000, y: 340_000, w: 20_000, h: 20_000 };
    let mut e = Enemy::new(250_000, 350_000, 80_000);
    e.take_damage(true);
    e.hit_flash = 0;
    let before = e;
    e.sword_hit(&sword, false);
    assert_eq!(e, before);
}

#[test]
fn enemy_check_collision_is_the_overlap_test() {
    let e = Enemy::new(250_000, 350_000, 80_000);
    assert!(e.check_collision(&Platform::new(200_000, 370_000, 100_000, 20_000)));
    assert!(!e.check_collision(&Platform::new(200_000, 377_000, 100_000, 20_000)));
}
