use platformer::geometry::Rect;
use platformer::platform::{find_landing, footing, Platform};
use platformer::player::Player;

fn ground() -> Vec<Platform> {
    vec![Platform::new(0, 450_000, 200_000, 50_000)]
}

#[test]
fn new_player_matches_the_data_model() {
    let p = Player::new();
    assert_eq!(p.x, 100_000);
    assert_eq!(p.y, 300_000);
    assert_eq!(p.width, 24_000);
    assert_eq!(p.height, 32_000);
    assert_eq!(p.vel_x, 0);
    assert_eq!(p.vel_y, 0);
    assert_eq!(p.speed, 5_000);
    assert_eq!(p.jump_power, 12_000);
    assert!(!p.on_ground);
    assert!(p.facing_right);
    assert!(!p.is_attacking);
    assert_eq!(p.attack_cooldown, 0);
    assert_eq!(p.health, 28);
    assert_eq!(p.max_health, 28);
    assert_eq!(p.damage_cooldown, 0);
    assert!(!p.invincible);
    assert!(!p.is_dead);
}

#[test]
fn moving_right_for_a_hundred_frames_ends_on_the_ground() {
    let platforms = ground();
    let mut p = Player::new();
    for _ in 0..100 {
        p.move_right();
        p.update(1000, &platforms);
    }
    assert_eq!(p.x, 600_000);
    assert_eq!(p.y, 450_000 - p.height);
    assert_eq!(p.y, 418_000);
    assert_eq!(p.vel_y, 0);
    assert!(p.on_ground);
    assert_eq!(p.health, 28);
}

#[test]
fn a_resting_player_lands_on_the_starting_ground() {
    let platforms = ground();
    let mut p = Player::new();
    for _ in 0..21 {
        p.update(1000, &platforms);
    }
    assert_eq!(p.y, 415_500);
    assert_eq!(p.vel_y, 10_500);
    assert!(!p.on_ground);
    p.update(1000, &platforms);
    assert_eq!(p.x, 100_000);
    assert_eq!(p.y, 418_000);
    assert_eq!(p.vel_y, 0);
    assert!(p.on_ground);
}

#[test]
fn gravity_adds_half_a_unit_per_frame() {
    let mut p = Player::new();
    p.update(1000, &[]);
    assert_eq!(p.vel_y, 500);
    assert_eq!(p.y, 300_500);
    p.update(1000, &[]);
    assert_eq!(p.vel_y, 1_000);
    assert_eq!(p.y, 301_500);
}

#[test]
fn falling_speed_stops_at_terminal_speed() {
    let mut p = Player::new();
    p.y = -10_000_000;
    p.vel_y = 14_800;
    p.update(1000, &[]);
    assert_eq!(p.vel_y, 15_000);
    assert_eq!(p.y, -9_985_000);
    p.update(1000, &[]);
    assert_eq!(p.vel_y, 15_000);
    assert_eq!(p.y, -9_970_000);
}

#[test]
fn the_floor_catches_a_player_without_platforms() {
    let mut p = Player::new();
    for _ in 0..40 {
        p.update(1000, &[]);
    }
    assert_eq!(p.y, 418_000);
    assert_eq!(p.vel_y, 0);
    assert!(p.on_ground);
}

#[test]
fn platforms_are_not_solid_from_below() {
    // The player's top edge is below the platform's top edge: no landing.
    let platforms = vec![Platform::new(90_000, 295_000, 100_000, 20_000)];
    let mut p = Player::new();
    p.update(1000, &platforms);
    assert_eq!(p.y, 300_500);
    assert_eq!(p.vel_y, 500);
    assert!(!p.on_ground);
}

#[test]
fn a_rising_player_passes_through_a_platform() {
    let platforms = vec![Platform::new(90_000, 320_000, 100_000, 20_000)];
    let mut p = Player::new();
    p.vel_y = -6_000;
    p.update(1000, &platforms);
    assert_eq!(p.vel_y, -5_500);
    assert_eq!(p.y, 294_500);
    assert!(!p.on_ground);
}

#[test]
fn a_falling_player_lands_on_the_first_platform_in_order() {
    let platforms = vec![
        Platform::new(0, 330_000, 300_000, 20_000),
        Platform::new(0, 320_000, 300_000, 20_000),
    ];
    let mut p = Player::new();
    p.update(1000, &platforms);
    assert_eq!(p.y, 330_000 - 32_000);
    assert_eq!(p.vel_y, 0);
    assert!(p.on_ground);
}

#[test]
fn find_landing_reports_the_first_index() {
    let body = Rect { x: 100_000, y: 300_500, w: 24_000, h: 32_000 };
    let platforms = vec![
        Platform::new(500_000, 330_000, 50_000, 20_000),
        Platform::new(0, 330_000, 300_000, 20_000),
        Platform::new(0, 320_000, 300_000, 20_000),
    ];
    assert_eq!(find_landing(&body, 500, &platforms), Some(1));
    assert_eq!(find_landing(&body, 0, &platforms), None);
    assert_eq!(find_landing(&body, -500, &platforms), None);
    assert_eq!(find_landing(&body, 500, &[]), None);
}

#[test]
fn footing_applies_the_floor_after_landing() {
    let body = Rect { x: 100_000, y: 430_000, w: 24_000, h: 32_000 };
    // A platform whose top is below the floor: the floor wins.
    let platforms = vec![Platform::new(0, 455_000, 300_000, 20_000)];
    let rest = footing(&body, 500, &platforms);
    assert_eq!(rest.y, 418_000);
    assert_eq!(rest.vel_y, 0);
    assert!(rest.on_ground);
    let high = Rect { x: 100_000, y: 100_000, w: 24_000, h: 32_000 };
    let free = footing(&high, 500, &platforms);
    assert_eq!(free.y, 100_000);
    assert_eq!(free.vel_y, 500);
    assert!(!free.on_ground);
}

#[test]
fn a_body_exactly_on_the_floor_is_not_moved() {
    let body = Rect { x: 0, y: 418_000, w: 24_000, h: 32_000 };
    let rest = footing(&body, 500, &[]);
    assert_eq!(rest.y, 418_000);
    assert_eq!(rest.vel_y, 500);
    assert!(!rest.on_ground);
}

#[test]
fn movement_sets_speed_and_facing() {
    let mut p = Player::new();
    p.vel_x = 3_000;
    p.move_left();
    assert_eq!(p.vel_x, -5_000);
    assert!(!p.facing_right);
    p.move_right();
    assert_eq!(p.vel_x, 5_000);
    assert!(p.facing_right);
    p.move_right();
    assert_eq!(p.vel_x, 5_000);
}

#[test]
fn friction_keeps_eighty_five_percent() {
    let mut p = Player::new();
    p.move_right();
    let mut speeds = Vec::new();
    for _ in 0..6 {
        p.update(1000, &[]);
        speeds.push(p.vel_x);
    }
    assert_eq!(speeds, vec![4_250, 3_612, 3_070, 2_609, 2_217, 1_884]);
    assert_eq!(p.x, 100_000 + 5_000 + 4_250 + 3_612 + 3_070 + 2_609 + 2_217);
}

#[test]
fn friction_is_symmetric() {
    let mut p = Player::new();
    p.move_left();
    let mut speeds = Vec::new();
    for _ in 0..6 {
        p.update(1000, &[]);
        speeds.push(p.vel_x);
    }
    assert_eq!(speeds, vec![-4_250, -3_612, -3_070, -2_609, -2_217, -1_884]);
}

#[test]
fn friction_brings_the_player_to_rest() {
    let mut p = Player::new();
    p.move_right();
    for _ in 0..43 {
        p.update(1000, &[]);
    }
    assert_ne!(p.vel_x, 0);
    p.update(1000, &[]);
    assert_eq!(p.vel_x, 0);
}

#[test]
fn walk_animation_cycles_and_stops() {
    let mut p = Player::new();
    p.move_right();
    let mut phases = Vec::new();
    for _ in 0..25 {
        p.update(1000, &[]);
        phases.push(p.animation_frame);
    }
    assert_eq!(phases[0], 200);
    assert_eq!(phases[18], 3_800);
    assert_eq!(phases[19], 0);
    assert_eq!(phases[22], 600);
    // The speed has fallen to a tenth of a unit or less.
    assert_eq!(phases[23], 0);
    assert_eq!(phases[24], 0);
}

#[test]
fn jump_needs_ground() {
    let mut p = Player::new();
    p.jump();
    assert_eq!(p.vel_y, 0);
    p.on_ground = true;
    p.jump();
    assert_eq!(p.vel_y, -12_000);
}

#[test]
fn a_jump_rises_and_comes_back() {
    let platforms = ground();
    let mut p = Player::new();
    for _ in 0..30 {
        p.update(1000, &platforms);
    }
    assert!(p.on_ground);
    p.jump();
    let mut highest = p.y;
    let mut frames_to_land = 0;
    for frame in 1..=60 {
        p.update(1000, &platforms);
        if p.y < highest {
            highest = p.y;
        }
        if p.on_ground && frames_to_land == 0 {
            frames_to_land = frame;
        }
    }
    assert_eq!(highest, 280_000);
    // After 47 frames the player is back at ground height but only touches
    // the ground; the landing happens on the frame after.
    assert_eq!(frames_to_land, 48);
    assert_eq!(p.y, 418_000);
}

#[test]
fn attack_starts_a_swing_that_ends_after_twenty_five_frames() {
    let mut p = Player::new();
    p.attack();
    assert!(p.is_attacking);
    assert_eq!(p.attack_cooldown, 400_000);
    assert_eq!((p.attack_cooldown as f64) / 1_000_000.0, 0.4);
    for _ in 0..24 {
        p.update(1000, &[]);
        assert!(p.is_attacking);
    }
    assert_eq!(p.attack_cooldown, 16_000);
    p.update(1000, &[]);
    assert!(!p.is_attacking);
    assert_eq!(p.attack_cooldown, 0);
}

#[test]
fn attack_during_a_swing_changes_nothing() {
    let mut p = Player::new();
    p.attack();
    p.update(1000, &[]);
    assert_eq!(p.attack_cooldown, 384_000);
    let before = p;
    p.attack();
    assert_eq!(p, before);
}

#[test]
fn a_long_frame_ends_the_swing_at_zero() {
    let mut p = Player::new();
    p.attack();
    p.update(u32::MAX, &[]);
    assert!(!p.is_attacking);
    assert_eq!(p.attack_cooldown, 0);
}

#[test]
fn a_frame_of_no_length_moves_but_keeps_timers() {
    let mut p = Player::new();
    p.attack();
    p.take_damage();
    p.update(0, &[]);
    assert_eq!(p.attack_cooldown, 400_000);
    assert_eq!(p.damage_cooldown, 1_000_000);
    assert_eq!(p.y, 300_500);
}

#[test]
fn damage_takes_a_quarter_heart_and_grants_invincibility() {
    let mut p = Player::new();
    p.take_damage();
    assert_eq!(p.health, 27);
    assert!(p.invincible);
    assert_eq!(p.damage_cooldown, 1_000_000);
    assert!(!p.is_dead);
    p.take_damage();
    assert_eq!(p.health, 27);
}

#[test]
fn invincibility_lasts_one_time_unit() {
    let mut p = Player::new();
    p.take_damage();
    for _ in 0..62 {
        p.update(1000, &[]);
        assert!(p.invincible);
        p.take_damage();
        assert_eq!(p.health, 27);
    }
    assert_eq!(p.damage_cooldown, 8_000);
    p.update(1000, &[]);
    assert!(!p.invincible);
    assert_eq!(p.damage_cooldown, -8_000);
    p.take_damage();
    assert_eq!(p.health, 26);
    assert_eq!(p.damage_cooldown, 1_000_000);
}

#[test]
fn the_damage_timer_is_not_held_at_zero() {
    let mut p = Player::new();
    p.take_damage();
    p.update(4_000_000_000, &[]);
    assert!(!p.invincible);
    assert_eq!(p.damage_cooldown, -63_999_000_000);
    p.update(1000, &[]);
    assert_eq!(p.damage_cooldown, -63_999_000_000);
}

#[test]
fn the_last_quarter_heart_kills() {
    let mut p = Player::new();
    p.health = 1;
    p.take_damage();
    assert_eq!(p.health, 0);
    assert!(p.is_dead);
    assert!(p.invincible);
}

#[test]
fn a_dead_player_takes_no_damage() {
    let mut p = Player::new();
    p.health = 0;
    p.is_dead = true;
    let before = p;
    p.take_damage();
    assert_eq!(p, before);
}

#[test]
fn sword_hitbox_is_empty_without_a_swing() {
    let p = Player::new();
    assert_eq!(p.get_sword_hitbox(), Rect { x: 0, y: 0, w: 0, h: 0 });
}

#[test]
fn sword_starts_upright() {
    let mut p = Player::new();
    p.attack();
    assert_eq!(p.sword_hand(), (126_000, 312_000));
    assert_eq!(p.sword_tip(), (126_000, 292_000));
    assert_eq!(p.get_sword_hitbox(), Rect { x: 116_000, y: 282_000, w: 20_000, h: 20_000 });
}

#[test]
fn sword_at_half_swing() {
    let mut p = Player::new();
    p.is_attacking = true;
    p.attack_cooldown = 200_000;
    // Fifty degrees swept: twenty units times sine and cosine of fifty degrees.
    assert_eq!(p.sword_tip(), (126_000 + 15_320, 312_000 - 12_855));
    assert_eq!(p.get_sword_hitbox(), Rect { x: 131_320, y: 289_145, w: 20_000, h: 20_000 });
    p.facing_right = false;
    assert_eq!(p.sword_hand(), (94_000, 312_000));
    assert_eq!(p.get_sword_hitbox(), Rect { x: 68_680, y: 289_145, w: 20_000, h: 20_000 });
}

#[test]
fn sword_ends_below_the_horizontal() {
    let mut p = Player::new();
    p.is_attacking = true;
    p.attack_cooldown = 16_000;
    p.facing_right = false;
    assert_eq!(p.get_sword_hitbox(), Rect { x: 64_110, y: 304_090, w: 20_000, h: 20_000 });
}

#[test]
fn sword_tip_follows_the_real_circle() {
    let mut p = Player::new();
    p.is_attacking = true;
    let mut left = 400_000;
    while left > 0 {
        p.attack_cooldown = left;
        let progress = 1.0 - (left as f64) / 400_000.0;
        let angle = (90.0 - 100.0 * progress).to_radians();
        let (hand_x, hand_y) = p.sword_hand();
        let (tip_x, tip_y) = p.sword_tip();
        let want_x = (hand_x as f64) + angle.cos() * 20_000.0;
        let want_y = (hand_y as f64) - angle.sin() * 20_000.0;
        assert!(((tip_x as f64) - want_x).abs() < 2.0);
        assert!(((tip_y as f64) - want_y).abs() < 2.0);
        left -= 1_777;
    }
}

#[test]
fn check_collision_is_the_overlap_test() {
    let p = Player::new();
    assert!(p.check_collision(&Platform::new(90_000, 320_000, 100_000, 20_000)));
    assert!(!p.check_collision(&Platform::new(124_000, 320_000, 100_000, 20_000)));
    assert!(!p.check_collision(&Platform::new(90_000, 332_000, 100_000, 20_000)));
}
