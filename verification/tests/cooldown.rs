use zombie_shooter::graphics::cooldown::{
    count_down, Cooldown, FIRE_CADENCE, INITIAL_COOLDOWN, MOVEMENT_CADENCE,
};

#[test]
fn new_cooldown_starts_at_one_second() {
    let c = Cooldown::new();
    assert_eq!(c.movement, 1_000_000);
    assert_eq!(c.fire, 1_000_000);
    assert_eq!(INITIAL_COOLDOWN, 1_000_000);
}

#[test]
fn tick_takes_elapsed_time_off_both_countdowns() {
    let mut c = Cooldown { movement: 500, fire: 900 };
    c.tick(200);
    assert_eq!(c, Cooldown { movement: 300, fire: 700 });
}

#[test]
fn tick_floors_at_zero() {
    let mut c = Cooldown { movement: 500, fire: 900 };
    c.tick(600);
    assert_eq!(c, Cooldown { movement: 0, fire: 300 });
    assert!(c.movement_ready());
    assert!(!c.fire_ready());
}

#[test]
fn tick_reaches_zero_exactly() {
    let mut c = Cooldown { movement: 500, fire: 500 };
    c.tick(500);
    assert_eq!(c, Cooldown { movement: 0, fire: 0 });
}

#[test]
fn zero_countdown_is_rearmed_before_the_decrement() {
    let mut c = Cooldown { movement: 0, fire: 0 };
    c.tick(10_000);
    assert_eq!(c.movement, MOVEMENT_CADENCE - 10_000);
    assert_eq!(c.fire, FIRE_CADENCE - 10_000);
    assert_eq!(c.movement, 60_000);
    assert_eq!(c.fire, 190_000);
}

#[test]
fn rearmed_countdown_can_floor_again_in_the_same_tick() {
    let mut c = Cooldown { movement: 0, fire: 0 };
    c.tick(100_000);
    assert_eq!(c.movement, 0);
    assert_eq!(c.fire, 100_000);
}

#[test]
fn tick_of_nothing_rearms_only() {
    let mut c = Cooldown { movement: 0, fire: 7 };
    c.tick(0);
    assert_eq!(c, Cooldown { movement: 70_000, fire: 7 });
}

#[test]
fn tick_with_the_longest_elapsed_time() {
    let mut c = Cooldown { movement: u64::MAX, fire: 0 };
    c.tick(u64::MAX);
    assert_eq!(c, Cooldown { movement: 0, fire: 0 });
}

#[test]
fn count_down_values() {
    assert_eq!(count_down(10, 3), 7);
    assert_eq!(count_down(3, 10), 0);
    assert_eq!(count_down(0, 0), 0);
}
