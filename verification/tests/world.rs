use action_rpg::factory::{BundleKind, FactoryError, SpawnRegistry};
use action_rpg::handle::{NodeHandle, NodeTable};
use action_rpg::world::grass::{kill_grass_system, Grass, GrassFate};
use action_rpg::world::health::{
    heart_row_width, set_health_system, set_max_health_system, ChangeHealth, ChangeMaxHealth,
    Health, HealthBundle, HeartEmpty, HeartFull, HEART_WIDTH,
};
use action_rpg::world::world::WorldBundle;
use bevy::prelude::Entity;

#[test]
fn grass_that_is_hit_is_cut() {
    let mut nodes = NodeTable::new();
    let grass = Grass { owner: nodes.register() };
    assert_eq!(kill_grass_system(&grass, &nodes, true), GrassFate::Cut);
    assert_eq!(kill_grass_system(&grass, &nodes, false), GrassFate::Stands);
}

#[test]
fn grass_whose_node_is_gone_is_removed_without_it() {
    let mut nodes = NodeTable::new();
    let grass = Grass { owner: nodes.register() };
    nodes.release(grass.owner);
    assert_eq!(kill_grass_system(&grass, &nodes, true), GrassFate::Gone);
    assert_eq!(kill_grass_system(&grass, &nodes, false), GrassFate::Gone);
}

#[test]
fn grass_is_set_up_with_its_hurt_box() {
    let grass = Grass { owner: NodeHandle { index: 1, generation: 0 } };
    let mut registry = SpawnRegistry::new();
    assert_eq!(
        grass._ready(&mut registry, &vec![false]),
        Err(FactoryError::MissingChild { kind: BundleKind::Grass, slot: 0 })
    );
    assert_eq!(grass._ready(&mut registry, &vec![true]), Ok(grass));
    assert_eq!(
        grass._ready(&mut registry, &vec![true]),
        Err(FactoryError::DuplicateRoot { root: grass.owner })
    );
}

#[test]
fn a_heart_is_fifteen_pixels_wide() {
    assert_eq!(HEART_WIDTH, 15);
    assert_eq!(heart_row_width(4), 60);
    assert_eq!(heart_row_width(0), 0);
    assert_eq!(heart_row_width(-2), -30);
    assert_eq!(heart_row_width(i32::MAX), 32_212_254_705);
    assert_eq!(heart_row_width(i32::MIN), -32_212_254_720);
}

#[test]
fn the_last_change_sets_the_width_of_the_full_hearts() {
    let mut nodes = NodeTable::new();
    let heart = HeartFull(nodes.register());
    let events = vec![ChangeHealth { health: 3 }, ChangeHealth { health: 2 }];
    assert_eq!(set_health_system(&heart, &nodes, &events), Some(30));
    assert_eq!(set_health_system(&heart, &nodes, &Vec::new()), None);
    nodes.release(heart.0);
    assert_eq!(set_health_system(&heart, &nodes, &events), None);
}

#[test]
fn the_last_change_sets_the_width_of_the_empty_hearts() {
    let mut nodes = NodeTable::new();
    let heart = HeartEmpty(nodes.register());
    let events = vec![ChangeMaxHealth { max_health: 4 }, ChangeMaxHealth { max_health: 6 }];
    assert_eq!(set_max_health_system(&heart, &nodes, &events), Some(90));
    assert_eq!(set_max_health_system(&heart, &nodes, &Vec::new()), None);
    nodes.release(heart.0);
    assert_eq!(set_max_health_system(&heart, &nodes, &events), None);
}

#[test]
fn the_health_display_is_set_up_with_both_rows() {
    let root = NodeHandle { index: 9, generation: 0 };
    let mut registry = SpawnRegistry::new();
    assert_eq!(
        HealthBundle._ready(root, &mut registry, &vec![true, false]),
        Err(FactoryError::MissingChild { kind: BundleKind::Health, slot: 1 })
    );
    assert_eq!(HealthBundle._ready(root, &mut registry, &vec![true, true]), Ok(Health));
    assert_eq!(
        HealthBundle._ready(root, &mut registry, &vec![true, true]),
        Err(FactoryError::DuplicateRoot { root })
    );
}

#[test]
fn a_level_keeps_the_entity_that_stands_for_it() {
    let root = NodeHandle { index: 0, generation: 0 };
    let mut registry = SpawnRegistry::new();
    let mut world = WorldBundle::default();
    assert_eq!(world.entity, None);
    assert_eq!(world._ready(root, &mut registry, Entity::from_raw(5)), Ok(()));
    assert_eq!(world.entity, Some(Entity::from_raw(5)));
    assert!(registry.contains(root));
}

#[test]
fn a_level_is_not_set_up_twice() {
    let root = NodeHandle { index: 0, generation: 0 };
    let mut registry = SpawnRegistry::new();
    let mut world = WorldBundle::default();
    world._ready(root, &mut registry, Entity::from_raw(5)).unwrap();
    assert_eq!(
        world._ready(root, &mut registry, Entity::from_raw(6)),
        Err(FactoryError::DuplicateRoot { root })
    );
    assert_eq!(world.entity, Some(Entity::from_raw(5)));
}

#[test]
fn a_level_that_is_taken_down_hands_its_entity_out_once() {
    let mut world = WorldBundle { entity: Some(Entity::from_raw(5)) };
    assert_eq!(world._notification(13), None);
    assert_eq!(world.entity, Some(Entity::from_raw(5)));
    assert_eq!(world._notification(1007), Some(Entity::from_raw(5)));
    assert_eq!(world.entity, None);
    assert_eq!(world._notification(1), None);
    assert_eq!(world.entity, None);
}

#[test]
fn a_level_that_is_deleted_hands_its_entity_out() {
    let mut world = WorldBundle { entity: Some(Entity::from_raw(8)) };
    assert_eq!(world._notification(1), Some(Entity::from_raw(8)));
    assert_eq!(world.entity, None);
}

#[test]
fn a_level_that_was_never_set_up_has_nothing_to_hand_out() {
    let mut world = WorldBundle::default();
    assert_eq!(world._notification(1), None);
    assert_eq!(world.entity, None);
}
