use platformer::pickup::HeartPickup;
use platformer::player::Player;

#[test]
fn new_pickup_matches_the_data_model() {
    let h = HeartPickup::new(500_000, 300_000);
    assert_eq!(h.x, 500_000);
    assert_eq!(h.y, 300_000);
    assert_eq!(h.size, 20_000);
    assert!(!h.collected);
    assert_eq!(h.float_offset, 0);
}

#[test]
fn a_pickup_at_full_health_stays_uncollected() {
    let mut p = Player::new();
    let mut h = HeartPickup::new(p.x, p.y);
    assert_eq!(p.health, 28);
    assert!(h.check_collision(&p));
    h.update(1000);
    h.collect(&mut p);
    assert!(!h.collected);
    assert_eq!(p.health, 28);
}

#[test]
fn a_pickup_heals_four_quarters() {
    let mut p = Player::new();
    p.health = 10;
    let mut h = HeartPickup::new(p.x, p.y);
    h.collect(&mut p);
    assert!(h.collected);
    assert_eq!(p.health, 14);
}

#[test]
fn healing_stops_at_full_health() {
    let mut p = Player::new();
    p.health = 26;
    let mut h = HeartPickup::new(p.x, p.y);
    h.collect(&mut p);
    assert!(h.collected);
    assert_eq!(p.health, 28);
}

#[test]
fn a_pickup_changes_nothing_but_health() {
    let mut p = Player::new();
    p.health = 10;
    p.vel_x = 3_000;
    let before = p;
    let mut h = HeartPickup::new(p.x, p.y);
    h.collect(&mut p);
    let mut want = before;
    want.health = 14;
    assert_eq!(p, want);
}

#[test]
fn a_collected_pickup_is_inert() {
    let mut p = Player::new();
    p.health = 10;
    let mut h = HeartPickup::new(p.x, p.y);
    h.collected = true;
    assert!(!h.check_collision(&p));
    h.collect(&mut p);
    assert_eq!(p.health, 10);
}

#[test]
fn a_pickup_out_of_reach_is_not_collected() {
    let mut p = Player::new();
    p.health = 10;
    let mut h = HeartPickup::new(p.x + 24_000, p.y);
    assert!(!h.check_collision(&p));
    h.collect(&mut p);
    assert!(!h.collected);
    assert_eq!(p.health, 10);
    let mut near = HeartPickup::new(p.x + 23_999, p.y);
    near.collect(&mut p);
    assert!(near.collected);
    assert_eq!(p.health, 14);
}

#[test]
fn a_dead_player_collects_nothing() {
    let mut p = Player::new();
    p.health = 0;
    p.is_dead = true;
    let mut h = HeartPickup::new(p.x, p.y);
    h.collect(&mut p);
    assert!(!h.collected);
    assert_eq!(p.health, 0);
    assert!(p.is_dead);
}

#[test]
fn the_float_offset_is_a_sine_of_game_time() {
    let mut h = HeartPickup::new(0, 0);
    h.update(0);
    assert_eq!(h.float_offset, 0);
    h.update(1000);
    assert_eq!(h.float_offset, 14);
    h.update(100_000);
    assert_eq!(h.float_offset, 1_477);
    // A quarter, a half and three quarters of the period.
    h.update(523_599);
    assert_eq!(h.float_offset, 4_999);
    h.update(1_047_198);
    assert_eq!(h.float_offset, 0);
    h.update(1_570_796);
    assert_eq!(h.float_offset, -4_999);
}

#[test]
fn the_float_offset_is_close_to_the_real_sine() {
    let mut h = HeartPickup::new(0, 0);
    let mut time: u64 = 0;
    while time < 5_000_000 {
        h.update(time);
        let exact = ((time as f64) / 1000.0 * 0.003).sin() * 5_000.0;
        assert!(((h.float_offset as f64) - exact).abs() < 2.0);
        time += 7_919;
    }
}

#[test]
fn the_float_offset_does_not_move_the_box() {
    let mut p = Player::new();
    p.health = 10;
    let mut h = HeartPickup::new(p.x, p.y + 32_000);
    h.update(1_570_796);
    assert_eq!(h.float_offset, -4_999);
    assert!(!h.check_collision(&p));
    assert_eq!(h.y, p.y + 32_000);
}

#[test]
fn the_float_offset_survives_the_largest_time() {
    let mut h = HeartPickup::new(0, 0);
    h.update(u64::MAX);
    assert!(h.float_offset >= -5_000 && h.float_offset <= 5_000);
}
