//! The level, what grows in it, and the health display.

pub mod grass;
pub mod health;
pub mod world;

use crate::plugins::{update, Registration, Stage, SystemId};
use vstd::prelude::*;

verus! {

/// The systems of the level and of the health display.
#[derive(Clone, Copy, Debug, Default, PartialEq, Eq, Structural)]
pub struct WorldPlugin;

impl WorldPlugin {
    /// The registrations of the level and of the health display.
    pub open spec fn registrations() -> Seq<Registration> {
        seq![
            update(SystemId::KillGrass),
            update(SystemId::SetHealth),
            update(SystemId::SetMaxHealth),
        ]
    }

    /// Adds the registrations of the level and of the health display to
    /// `schedule`.
    pub fn build(&self, schedule: &mut Vec<Registration>)
        ensures
            final(schedule)@ == old(schedule)@ + Self::registrations(),
    {
        schedule.push(Registration { system: SystemId::KillGrass, stage: Stage::Update, after: None });
        schedule.push(Registration { system: SystemId::SetHealth, stage: Stage::Update, after: None });
        schedule.push(Registration { system: SystemId::SetMaxHealth, stage: Stage::Update, after: None });
        assert(schedule@ =~= old(schedule)@ + Self::registrations());
    }
}

} // verus!
