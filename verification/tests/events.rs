use action_rpg::events::{
    is_teardown, signal_event, signal_event_system, SignalEvent, NOTIFICATION_PREDELETE,
    NOTIFICATION_WM_GO_BACK_REQUEST,
};

#[test]
fn the_players_signals_are_known_by_name() {
    assert_eq!(
        signal_event("attack_animation_finished"),
        Some(SignalEvent::PlayerAttackAnimationFinished)
    );
    assert_eq!(
        signal_event("roll_animation_finished"),
        Some(SignalEvent::PlayerRollAnimationFinished)
    );
}

#[test]
fn grass_and_effects_are_known_by_the_end_of_the_name() {
    assert_eq!(
        signal_event("World/Grass3/_on_area_entered"),
        Some(SignalEvent::GrassAreaEntered { prefix: 12 })
    );
    assert_eq!(
        signal_event("HitEffect/_on_animation_finished"),
        Some(SignalEvent::EffectAnimationFinished { prefix: 9 })
    );
    assert_eq!(
        signal_event("/_on_area_entered"),
        Some(SignalEvent::GrassAreaEntered { prefix: 0 })
    );
}

#[test]
fn the_prefix_counts_bytes() {
    let name = "Büsche/_on_area_entered";
    let event = signal_event(name);
    assert_eq!(event, Some(SignalEvent::GrassAreaEntered { prefix: 7 }));
    assert_eq!(&name[..7], "Büsche");
}

#[test]
fn other_names_mean_nothing() {
    for name in [
        "",
        "attack",
        "attack_animation_finished ",
        " attack_animation_finished",
        "Attack_animation_finished",
        "roll_animation_finishe",
        "xroll_animation_finished",
        "_on_area_entered",
        "Grass/_on_area_entered/",
        "Effect_on_animation_finished",
        "animation_finished",
    ] {
        assert_eq!(signal_event(name), None, "{:?}", name);
    }
}

#[test]
fn signals_become_events_in_order_and_the_rest_is_dropped() {
    let names = vec![
        "roll_animation_finished".to_string(),
        "body_entered".to_string(),
        "attack_animation_finished".to_string(),
        "Grass/_on_area_entered".to_string(),
        "".to_string(),
        "roll_animation_finished".to_string(),
    ];
    assert_eq!(
        signal_event_system(&names),
        vec![
            SignalEvent::PlayerRollAnimationFinished,
            SignalEvent::PlayerAttackAnimationFinished,
            SignalEvent::GrassAreaEntered { prefix: 5 },
            SignalEvent::PlayerRollAnimationFinished,
        ]
    );
    assert_eq!(signal_event_system(&Vec::new()), Vec::new());
}

#[test]
fn deletion_and_going_back_take_a_level_down() {
    assert_eq!(NOTIFICATION_PREDELETE, 1);
    assert_eq!(NOTIFICATION_WM_GO_BACK_REQUEST, 1007);
    assert!(is_teardown(1));
    assert!(is_teardown(1007));
    for what in [0, 2, 13, 1006, 1008, -1, i64::MAX, i64::MIN] {
        assert!(!is_teardown(what));
    }
}
