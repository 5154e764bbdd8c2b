//! The player: its states, its moves, and the hits it takes.

pub mod player;

use crate::plugins::{physics, physics_after, update, update_after, Registration, Stage, SystemId};
use vstd::prelude::*;

verus! {

/// The systems of the player.
#[derive(Clone, Copy, Debug, Default, PartialEq, Eq, Structural)]
pub struct PlayerPlugin;

impl PlayerPlugin {
    /// The registrations of the player. The state is settled first, by input
    /// and by the countdown, before the move is decided from it; the body is
    /// moved in the physics stage, and only then is a player without health
    /// removed.
    pub open spec fn registrations() -> Seq<Registration> {
        seq![
            update(SystemId::PlayerState),
            update_after(SystemId::PlayerTimer, SystemId::PlayerState),
            update_after(SystemId::PlayerMove, SystemId::PlayerTimer),
            update(SystemId::AttackPlayer),
            update(SystemId::AttackPlayerExit),
            physics(SystemId::PlayerMovement),
            physics_after(SystemId::PlayerNoHealth, SystemId::PlayerMovement),
        ]
    }

    /// Adds the registrations of the player to `schedule`.
    pub fn build(&self, schedule: &mut Vec<Registration>)
        ensures
            final(schedule)@ == old(schedule)@ + Self::registrations(),
    {
        schedule.push(Registration { system: SystemId::PlayerState, stage: Stage::Update, after: None });
        schedule.push(
            Registration {
                system: SystemId::PlayerTimer,
                stage: Stage::Update,
                after: Some(SystemId::PlayerState),
            },
        );
        schedule.push(
            Registration {
                system: SystemId::PlayerMove,
                stage: Stage::Update,
                after: Some(SystemId::PlayerTimer),
            },
        );
        schedule.push(Registration { system: SystemId::AttackPlayer, stage: Stage::Update, after: None });
        schedule.push(
            Registration { system: SystemId::AttackPlayerExit, stage: Stage::Update, after: None },
        );
        schedule.push(
            Registration { system: SystemId::PlayerMovement, stage: Stage::Physics, after: None },
        );
        schedule.push(
            Registration {
                system: SystemId::PlayerNoHealth,
                stage: Stage::Physics,
                after: Some(SystemId::PlayerMovement),
            },
        );
        assert(schedule@ =~= old(schedule)@ + Self::registrations());
    }
}

} // verus!
