//! What runs each tick, and in what order.
//!
//! The game is a set of systems. Each runs once per tick, in one of two
//! stages: first the stage that decides, then the stage that moves bodies
//! through the engine's physics. Within a stage a system may name one other
//! that has to run before it. A plugin is a list of such registrations; the
//! entity store that runs the systems is handed the list and keeps to it.

use vstd::prelude::*;

verus! {

/// The two stages of a tick, in the order in which they run.
#[derive(Clone, Copy, Debug, PartialEq, Eq, Hash, Structural)]
pub enum Stage {
    /// Systems that read input and samples and decide states and velocities.
    Update,
    /// Systems that hand velocities to the engine's physics.
    Physics,
}

/// The systems of the game.
#[derive(Clone, Copy, Debug, PartialEq, Eq, Hash, Structural)]
pub enum SystemId {
    SignalEvent,
    PlayerState,
    PlayerTimer,
    PlayerMove,
    AttackPlayer,
    AttackPlayerExit,
    PlayerMovement,
    PlayerNoHealth,
    Zone,
    Bat,
    SoftCollision,
    UpdateTargetPosition,
    AttackExitBat,
    AttackBat,
    BatMove,
    EffectFinished,
    KillGrass,
    SetHealth,
    SetMaxHealth,
}

/// One system, the stage it runs in, and the system of the same stage that
/// has to run before it, if there is one.
#[derive(Clone, Copy, Debug, PartialEq, Eq, Structural)]
pub struct Registration {
    pub system: SystemId,
    pub stage: Stage,
    pub after: Option<SystemId>,
}

/// Whether `system` is registered in `stage`.
pub open spec fn registered(schedule: Seq<Registration>, system: SystemId, stage: Stage) -> bool {
    exists|i: int|
        0 <= i < schedule.len() && (#[trigger] schedule[i]).system == system && schedule[i].stage
            == stage
}

/// Whether `first` is sure to run before `then` in every tick: both are
/// registered, and either `first` is in the earlier stage or `then` names it
/// as the system to run after.
pub open spec fn runs_before(schedule: Seq<Registration>, first: SystemId, then: SystemId) -> bool {
    exists|i: int, j: int|
        0 <= i < schedule.len() && 0 <= j < schedule.len() && (#[trigger] schedule[i]).system
            == first && (#[trigger] schedule[j]).system == then && ((schedule[i].stage
            == Stage::Update && schedule[j].stage == Stage::Physics) || (schedule[i].stage
            == schedule[j].stage && schedule[j].after == Some(first)))
}

/// Whether a schedule can be kept to: no system is registered twice, and
/// every system that is to run after another names one of its own stage.
pub open spec fn consistent(schedule: Seq<Registration>) -> bool {
    &&& forall|i: int, j: int|
        0 <= i < j < schedule.len() ==> (#[trigger] schedule[i]).system != (
        #[trigger] schedule[j]).system
    &&& forall|i: int|
        0 <= i < schedule.len() ==> match (#[trigger] schedule[i]).after {
            Some(first) => first != schedule[i].system && registered(
                schedule,
                first,
                schedule[i].stage,
            ),
            None => true,
        }
}

/// A registration in the deciding stage.
pub open spec fn update(system: SystemId) -> Registration {
    Registration { system, stage: Stage::Update, after: None }
}

/// A registration in the deciding stage, after another system.
pub open spec fn update_after(system: SystemId, first: SystemId) -> Registration {
    Registration { system, stage: Stage::Update, after: Some(first) }
}

/// A registration in the physics stage.
pub open spec fn physics(system: SystemId) -> Registration {
    Registration { system, stage: Stage::Physics, after: None }
}

/// A registration in the physics stage, after another system.
pub open spec fn physics_after(system: SystemId, first: SystemId) -> Registration {
    Registration { system, stage: Stage::Physics, after: Some(first) }
}

/// Whether `schedule` registers `system` in `stage`.
pub fn is_registered(schedule: &Vec<Registration>, system: SystemId, stage: Stage) -> (found: bool)
    ensures
        found == registered(schedule@, system, stage),
{
    let mut i: usize = 0;
    while i < schedule.len()
        invariant
            i <= schedule@.len(),
            forall|k: int|
                0 <= k < i ==> !((#[trigger] schedule@[k]).system == system && schedule@[k].stage
                    == stage),
        decreases schedule@.len() - i,
    {
        if schedule[i].system == system && schedule[i].stage == stage {
            return true;
        }
        i += 1;
    }
    false
}

/// Whether a schedule can be kept to.
pub fn is_consistent(schedule: &Vec<Registration>) -> (ok: bool)
    ensures
        ok == consistent(schedule@),
{
    let mut i: usize = 0;
    while i < schedule.len()
        invariant
            i <= schedule@.len(),
            forall|a: int, b: int|
                0 <= a < b < schedule@.len() && a < i ==> (#[trigger] schedule@[a]).system != (
                #[trigger] schedule@[b]).system,
            forall|a: int|
                0 <= a < i ==> match (#[trigger] schedule@[a]).after {
                    Some(first) => first != schedule@[a].system && registered(
                        schedule@,
                        first,
                        schedule@[a].stage,
                    ),
                    None => true,
                },
        decreases schedule@.len() - i,
    {
        let entry = schedule[i];
        match entry.after {
            Some(first) => {
                if first == entry.system || !is_registered(schedule, first, entry.stage) {
                    return false;
                }
            },
            None => {},
        }
        let mut j: usize = i + 1;
        while j < schedule.len()
            invariant
                i < j <= schedule@.len(),
                entry == schedule@[i as int],
                forall|b: int| i < b < j ==> schedule@[i as int].system != (
                #[trigger] schedule@[b]).system,
            decreases schedule@.len() - j,
        {
            if schedule[j].system == entry.system {
                return false;
            }
            j += 1;
        }
        i += 1;
    }
    true
}

/// The systems that the whole game runs.
#[derive(Clone, Copy, Debug, Default, PartialEq, Eq, Structural)]
pub struct GamePlugin;

/// The one group of plugins that the game is made of.
#[derive(Clone, Copy, Debug, Default, PartialEq, Eq, Structural)]
pub struct GamePluginGroup;

impl GamePlugin {
    /// The registrations of the whole game: the system that turns engine
    /// signals into events, then those of the level, the effects, the
    /// enemies and the player.
    pub open spec fn registrations() -> Seq<Registration> {
        seq![update(SystemId::SignalEvent)]
            + crate::world::WorldPlugin::registrations()
            + crate::effect::EffectPlugin::registrations()
            + crate::enemy::EnemyPlugin::registrations()
            + crate::player::PlayerPlugin::registrations()
    }

    /// Adds the registrations of the whole game to `schedule`.
    pub fn build(&self, schedule: &mut Vec<Registration>)
        ensures
            final(schedule)@ == old(schedule)@ + Self::registrations(),
    {
        schedule.push(Registration { system: SystemId::SignalEvent, stage: Stage::Update, after: None });
        crate::world::WorldPlugin.build(schedule);
        crate::effect::EffectPlugin.build(schedule);
        crate::enemy::EnemyPlugin.build(schedule);
        crate::player::PlayerPlugin.build(schedule);
        assert(schedule@ =~= old(schedule)@ + Self::registrations());
    }
}

impl GamePluginGroup {
    /// Adds the registrations of every plugin of the group to `schedule`.
    pub fn build(&mut self, schedule: &mut Vec<Registration>)
        ensures
            final(schedule)@ == old(schedule)@ + GamePlugin::registrations(),
    {
        GamePlugin.build(schedule);
    }
}

/// The whole game as one list, entry by entry.
proof fn lemma_game_registrations()
    ensures
        GamePlugin::registrations() == seq![
            update(SystemId::SignalEvent),
            update(SystemId::KillGrass),
            update(SystemId::SetHealth),
            update(SystemId::SetMaxHealth),
            update(SystemId::EffectFinished),
            update(SystemId::Zone),
            update_after(SystemId::Bat, SystemId::Zone),
            update(SystemId::SoftCollision),
            update(SystemId::UpdateTargetPosition),
            update(SystemId::AttackExitBat),
            update(SystemId::AttackBat),
            physics(SystemId::BatMove),
            update(SystemId::PlayerState),
            update_after(SystemId::PlayerTimer, SystemId::PlayerState),
            update_after(SystemId::PlayerMove, SystemId::PlayerTimer),
            update(SystemId::AttackPlayer),
            update(SystemId::AttackPlayerExit),
            physics(SystemId::PlayerMovement),
            physics_after(SystemId::PlayerNoHealth, SystemId::PlayerMovement),
        ],
{
    assert(GamePlugin::registrations() =~= seq![
        update(SystemId::SignalEvent),
        update(SystemId::KillGrass),
        update(SystemId::SetHealth),
        update(SystemId::SetMaxHealth),
        update(SystemId::EffectFinished),
        update(SystemId::Zone),
        update_after(SystemId::Bat, SystemId::Zone),
        update(SystemId::SoftCollision),
        update(SystemId::UpdateTargetPosition),
        update(SystemId::AttackExitBat),
        update(SystemId::AttackBat),
        physics(SystemId::BatMove),
        update(SystemId::PlayerState),
        update_after(SystemId::PlayerTimer, SystemId::PlayerState),
        update_after(SystemId::PlayerMove, SystemId::PlayerTimer),
        update(SystemId::AttackPlayer),
        update(SystemId::AttackPlayerExit),
        physics(SystemId::PlayerMovement),
        physics_after(SystemId::PlayerNoHealth, SystemId::PlayerMovement),
    ]);
}

/// The schedule of the whole game can be kept to.
pub proof fn lemma_game_schedule_consistent()
    ensures
        consistent(GamePlugin::registrations()),
{
    lemma_game_registrations();
    let s = GamePlugin::registrations();
    assert(s[5].system == SystemId::Zone && s[5].stage == Stage::Update);
    assert(s[12].system == SystemId::PlayerState && s[12].stage == Stage::Update);
    assert(s[13].system == SystemId::PlayerTimer && s[13].stage == Stage::Update);
    assert(s[17].system == SystemId::PlayerMovement && s[17].stage == Stage::Physics);
}

/// The order that the game relies on. The player's state is settled, by
/// input and then by its countdown, before the move is decided from it. A
/// zone is brought up to date before its bat decides. Every velocity is
/// decided before the physics stage hands it to the engine, and a player
/// without health is removed only after its body has been moved.
pub proof fn lemma_game_schedule_order()
    ensures
        runs_before(GamePlugin::registrations(), SystemId::PlayerState, SystemId::PlayerTimer),
        runs_before(GamePlugin::registrations(), SystemId::PlayerTimer, SystemId::PlayerMove),
        runs_before(GamePlugin::registrations(), SystemId::Zone, SystemId::Bat),
        runs_before(GamePlugin::registrations(), SystemId::PlayerMove, SystemId::PlayerMovement),
        runs_before(GamePlugin::registrations(), SystemId::Bat, SystemId::BatMove),
        runs_before(GamePlugin::registrations(), SystemId::SoftCollision, SystemId::BatMove),
        runs_before(
            GamePlugin::registrations(),
            SystemId::PlayerMovement,
            SystemId::PlayerNoHealth,
        ),
{
    lemma_game_registrations();
    let s = GamePlugin::registrations();
    assert(s[12].system == SystemId::PlayerState && s[13].system == SystemId::PlayerTimer);
    assert(s[14].system == SystemId::PlayerMove && s[17].system == SystemId::PlayerMovement);
    assert(s[5].system == SystemId::Zone && s[6].system == SystemId::Bat);
    assert(s[7].system == SystemId::SoftCollision && s[11].system == SystemId::BatMove);
    assert(s[18].system == SystemId::PlayerNoHealth);
}

} // verus!
