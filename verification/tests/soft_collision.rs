use action_rpg::delect_box::soft_collision::{soft_collision_system, SoftCollision, SoftPush};
use action_rpg::handle::NodeTable;

#[test]
fn without_neighbours_the_push_is_zero() {
    let mut nodes = NodeTable::new();
    let own = SoftCollision { owner: nodes.register() };
    assert_eq!(soft_collision_system(&own, &nodes, &Vec::new()), SoftPush::Rest);
}

#[test]
fn the_first_neighbour_pushes() {
    let mut nodes = NodeTable::new();
    let own = SoftCollision { owner: nodes.register() };
    let first = nodes.register();
    let second = nodes.register();
    assert_eq!(soft_collision_system(&own, &nodes, &vec![first, second]), SoftPush::From(first));
    assert_eq!(soft_collision_system(&own, &nodes, &vec![second, first]), SoftPush::From(second));
}

#[test]
fn neighbours_that_are_gone_are_passed_over() {
    let mut nodes = NodeTable::new();
    let own = SoftCollision { owner: nodes.register() };
    let first = nodes.register();
    let second = nodes.register();
    let third = nodes.register();
    nodes.release(first);
    nodes.release(second);
    assert_eq!(
        soft_collision_system(&own, &nodes, &vec![first, second, third]),
        SoftPush::From(third)
    );
    nodes.release(third);
    assert_eq!(soft_collision_system(&own, &nodes, &vec![first, second, third]), SoftPush::Rest);
}

#[test]
fn an_entity_whose_area_is_gone_keeps_its_push() {
    let mut nodes = NodeTable::new();
    let own = SoftCollision { owner: nodes.register() };
    let other = nodes.register();
    nodes.release(own.owner);
    assert_eq!(soft_collision_system(&own, &nodes, &vec![other]), SoftPush::Keep);
    assert_eq!(soft_collision_system(&own, &nodes, &Vec::new()), SoftPush::Keep);
}
