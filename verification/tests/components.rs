use action_rpg::components::Stats;

#[test]
fn default_stats_are_four_of_four() {
    assert_eq!(Stats::default(), Stats { max_health: 4, health: 4 });
}

#[test]
fn damage_is_taken_off_the_health() {
    let mut stats = Stats { max_health: 4, health: 4 };
    stats.take_damage(1);
    assert_eq!(stats, Stats { max_health: 4, health: 3 });
    assert!(!stats.is_dead());
}

#[test]
fn health_stops_at_zero() {
    let mut stats = Stats { max_health: 4, health: 2 };
    stats.take_damage(5);
    assert_eq!(stats.health, 0);
    assert!(stats.is_dead());
    stats.take_damage(1);
    assert_eq!(stats.health, 0);
}

#[test]
fn negative_health_counts_as_dead_and_is_lifted_to_zero_by_a_hit() {
    let mut stats = Stats { max_health: 4, health: -3 };
    assert!(stats.is_dead());
    stats.take_damage(0);
    assert_eq!(stats.health, 0);
}

#[test]
fn negative_damage_adds_health() {
    let mut stats = Stats { max_health: 4, health: 2 };
    stats.take_damage(-1);
    assert_eq!(stats.health, 3);
}

#[test]
fn damage_at_the_limits_does_not_overflow() {
    let mut stats = Stats { max_health: 4, health: i32::MAX };
    stats.take_damage(i32::MIN);
    assert_eq!(stats.health, i32::MAX);
    let mut stats = Stats { max_health: 4, health: i32::MIN };
    stats.take_damage(i32::MAX);
    assert_eq!(stats.health, 0);
    let mut stats = Stats { max_health: 4, health: i32::MAX };
    stats.take_damage(i32::MAX);
    assert_eq!(stats.health, 0);
}

#[test]
fn damage_leaves_max_health_alone() {
    let mut stats = Stats { max_health: 9, health: 4 };
    stats.take_damage(3);
    assert_eq!(stats.max_health, 9);
}
