use action_rpg::enemy::{zone_system, DelectionZone, Sighting};
use action_rpg::handle::{NodeHandle, NodeTable};

#[test]
fn a_new_zone_has_noticed_nobody() {
    let owner = NodeHandle { index: 2, generation: 0 };
    assert_eq!(DelectionZone::new(owner), DelectionZone { owner, player: None });
}

#[test]
fn a_zone_with_nobody_in_sight_forgets_its_player() {
    let mut nodes = NodeTable::new();
    let area = nodes.register();
    let player = nodes.register();
    let mut zone = DelectionZone { owner: area, player: Some(player) };
    zone_system(&mut zone, &nodes, &Vec::new());
    assert_eq!(zone, DelectionZone { owner: area, player: None });
}

#[test]
fn a_player_inside_is_noticed() {
    let mut nodes = NodeTable::new();
    let area = nodes.register();
    let player = nodes.register();
    let mut zone = DelectionZone::new(area);
    zone_system(&mut zone, &nodes, &vec![Sighting { body: player, inside: true }]);
    assert_eq!(zone.player, Some(player));
    assert_eq!(zone.target(&nodes), Some(player));
}

#[test]
fn a_player_outside_is_forgotten() {
    let mut nodes = NodeTable::new();
    let area = nodes.register();
    let player = nodes.register();
    let mut zone = DelectionZone { owner: area, player: Some(player) };
    zone_system(&mut zone, &nodes, &vec![Sighting { body: player, inside: false }]);
    assert_eq!(zone.player, None);
    assert_eq!(zone.target(&nodes), None);
}

#[test]
fn the_last_sighting_decides() {
    let mut nodes = NodeTable::new();
    let area = nodes.register();
    let first = nodes.register();
    let second = nodes.register();
    let mut zone = DelectionZone::new(area);
    zone_system(
        &mut zone,
        &nodes,
        &vec![Sighting { body: first, inside: true }, Sighting { body: second, inside: true }],
    );
    assert_eq!(zone.player, Some(second));
    zone_system(
        &mut zone,
        &nodes,
        &vec![Sighting { body: first, inside: true }, Sighting { body: second, inside: false }],
    );
    assert_eq!(zone.player, None);
    zone_system(
        &mut zone,
        &nodes,
        &vec![Sighting { body: first, inside: false }, Sighting { body: second, inside: true }],
    );
    assert_eq!(zone.player, Some(second));
}

#[test]
fn a_body_that_is_gone_is_not_noticed() {
    let mut nodes = NodeTable::new();
    let area = nodes.register();
    let player = nodes.register();
    nodes.release(player);
    let mut zone = DelectionZone::new(area);
    zone_system(&mut zone, &nodes, &vec![Sighting { body: player, inside: true }]);
    assert_eq!(zone.player, None);
}

#[test]
fn a_zone_whose_area_is_gone_is_left_alone() {
    let mut nodes = NodeTable::new();
    let area = nodes.register();
    let player = nodes.register();
    nodes.release(area);
    let mut zone = DelectionZone { owner: area, player: Some(player) };
    zone_system(&mut zone, &nodes, &Vec::new());
    assert_eq!(zone.player, Some(player));
    zone_system(&mut zone, &nodes, &vec![Sighting { body: player, inside: false }]);
    assert_eq!(zone.player, Some(player));
}

#[test]
fn the_target_is_the_player_held_while_it_lives() {
    let mut nodes = NodeTable::new();
    let area = nodes.register();
    let player = nodes.register();
    let zone = DelectionZone { owner: area, player: Some(player) };
    assert_eq!(zone.target(&nodes), Some(player));
    nodes.release(player);
    assert_eq!(zone.target(&nodes), None);
    assert_eq!(DelectionZone::new(area).target(&nodes), None);
}
