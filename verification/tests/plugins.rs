use action_rpg::effect::EffectPlugin;
use action_rpg::enemy::EnemyPlugin;
use action_rpg::player::PlayerPlugin;
use action_rpg::plugins::{
    is_consistent, is_registered, GamePlugin, GamePluginGroup, Registration, Stage, SystemId,
};
use action_rpg::world::WorldPlugin;

fn update(system: SystemId) -> Registration {
    Registration { system, stage: Stage::Update, after: None }
}

fn update_after(system: SystemId, first: SystemId) -> Registration {
    Registration { system, stage: Stage::Update, after: Some(first) }
}

fn physics(system: SystemId) -> Registration {
    Registration { system, stage: Stage::Physics, after: None }
}

fn player_registrations() -> Vec<Registration> {
    vec![
        update(SystemId::PlayerState),
        update_after(SystemId::PlayerTimer, SystemId::PlayerState),
        update_after(SystemId::PlayerMove, SystemId::PlayerTimer),
        update(SystemId::AttackPlayer),
        update(SystemId::AttackPlayerExit),
        physics(SystemId::PlayerMovement),
        Registration {
            system: SystemId::PlayerNoHealth,
            stage: Stage::Physics,
            after: Some(SystemId::PlayerMovement),
        },
    ]
}

fn enemy_registrations() -> Vec<Registration> {
    vec![
        update(SystemId::Zone),
        update_after(SystemId::Bat, SystemId::Zone),
        update(SystemId::SoftCollision),
        update(SystemId::UpdateTargetPosition),
        update(SystemId::AttackExitBat),
        update(SystemId::AttackBat),
        physics(SystemId::BatMove),
    ]
}

fn world_registrations() -> Vec<Registration> {
    vec![
        update(SystemId::KillGrass),
        update(SystemId::SetHealth),
        update(SystemId::SetMaxHealth),
    ]
}

#[test]
fn the_player_registers_its_systems() {
    let mut schedule = Vec::new();
    PlayerPlugin.build(&mut schedule);
    assert_eq!(schedule, player_registrations());
}

#[test]
fn the_enemies_register_their_systems() {
    let mut schedule = Vec::new();
    EnemyPlugin.build(&mut schedule);
    assert_eq!(schedule, enemy_registrations());
}

#[test]
fn the_level_and_the_effects_register_their_systems() {
    let mut schedule = Vec::new();
    WorldPlugin.build(&mut schedule);
    assert_eq!(schedule, world_registrations());
    let mut schedule = Vec::new();
    EffectPlugin.build(&mut schedule);
    assert_eq!(schedule, vec![update(SystemId::EffectFinished)]);
}

#[test]
fn a_plugin_adds_to_what_is_there() {
    let mut schedule = vec![update(SystemId::SignalEvent)];
    EffectPlugin.build(&mut schedule);
    assert_eq!(schedule, vec![update(SystemId::SignalEvent), update(SystemId::EffectFinished)]);
}

#[test]
fn the_game_registers_everything_once() {
    let mut expected = vec![update(SystemId::SignalEvent)];
    expected.extend(world_registrations());
    expected.push(update(SystemId::EffectFinished));
    expected.extend(enemy_registrations());
    expected.extend(player_registrations());

    let mut schedule = Vec::new();
    GamePlugin.build(&mut schedule);
    assert_eq!(schedule, expected);
    assert_eq!(schedule.len(), 19);
    assert!(is_consistent(&schedule));

    let mut grouped = Vec::new();
    GamePluginGroup.build(&mut grouped);
    assert_eq!(grouped, expected);
}

#[test]
fn the_game_keeps_deciding_and_moving_apart() {
    let mut schedule = Vec::new();
    GamePlugin.build(&mut schedule);
    for system in [SystemId::PlayerState, SystemId::PlayerMove, SystemId::Zone, SystemId::Bat] {
        assert!(is_registered(&schedule, system, Stage::Update));
        assert!(!is_registered(&schedule, system, Stage::Physics));
    }
    for system in [SystemId::PlayerMovement, SystemId::BatMove, SystemId::PlayerNoHealth] {
        assert!(is_registered(&schedule, system, Stage::Physics));
        assert!(!is_registered(&schedule, system, Stage::Update));
    }
}

#[test]
fn a_schedule_with_a_system_twice_cannot_be_kept_to() {
    let mut schedule = Vec::new();
    PlayerPlugin.build(&mut schedule);
    PlayerPlugin.build(&mut schedule);
    assert!(!is_consistent(&schedule));
    assert!(!is_consistent(&vec![update(SystemId::Zone), physics(SystemId::Zone)]));
}

#[test]
fn a_system_cannot_run_after_one_that_is_not_in_its_stage() {
    assert!(!is_consistent(&vec![update_after(SystemId::Bat, SystemId::Zone)]));
    assert!(!is_consistent(&vec![
        physics(SystemId::Zone),
        update_after(SystemId::Bat, SystemId::Zone),
    ]));
    assert!(!is_consistent(&vec![update_after(SystemId::Bat, SystemId::Bat)]));
    assert!(is_consistent(&vec![
        update_after(SystemId::Bat, SystemId::Zone),
        update(SystemId::Zone),
    ]));
}

#[test]
fn the_empty_schedule_can_be_kept_to() {
    assert!(is_consistent(&Vec::new()));
    assert!(!is_registered(&Vec::new(), SystemId::Bat, Stage::Update));
}
