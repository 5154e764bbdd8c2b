use crate::components::Stats;
use crate::delect_box::hit_box::HitBox;
use crate::delect_box::{lands, mark_after_exit, mark_after_hit};
use crate::enemy::wander_controller::WanderTimer;
use crate::enemy::DelectionZone;
use crate::factory::{spawn_bundle, spawn_result, BundleKind, FactoryError, SpawnRegistry};
use crate::handle::{NodeHandle, NodeTable};
use crate::player::player::PlayerAttacking;
use crate::rng::{random_between, shuffled_pair};
use crate::timer::{Countdown, CountdownModel};
use vstd::prelude::*;

verus! {

/// The shortest pause before a bat thinks again, in nanoseconds.
pub const WANDER_PAUSE_MIN: u64 = 1_000_000_000;

/// The pause before a bat thinks again stays below this, in nanoseconds.
pub const WANDER_PAUSE_MAX: u64 = 3_000_000_000;

/// The pause before a new bat thinks for the first time, in nanoseconds.
pub const WANDER_FIRST_PAUSE: u64 = 2_000_000_000;

/// What a bat is doing.
#[derive(Clone, Copy, Debug, PartialEq, Eq, Hash, Structural)]
pub enum BatState {
    /// Hovering in place.
    IDLE,
    /// Flying to a spot near the place where it was spawned.
    WANDER,
    /// Flying at the player.
    CHASE,
}

impl Default for BatState {
    fn default() -> (state: BatState)
        ensures
            state == BatState::IDLE,
    {
        BatState::IDLE
    }
}

/// A bat's body.
#[derive(Clone, Copy, Debug, PartialEq, Eq, Structural)]
pub struct Bat {
    pub owner: NodeHandle,
}

/// A bat as it is placed in a scene.
#[derive(Clone, Copy, Debug, PartialEq, Eq, Structural)]
pub struct BatBundle {
    pub bat: Bat,
    pub state: BatState,
    pub stats: Stats,
}

impl BatBundle {
    /// Sets the bat up as an entity, from the children found under its body.
    /// The bat starts out idle, with the stats it was given and a countdown
    /// of two seconds.
    pub fn _ready(&self, registry: &mut SpawnRegistry, found: &Vec<bool>) -> (result: Result<
        (BatBundle, WanderTimer),
        FactoryError,
    >)
        ensures
            match spawn_result(BundleKind::Bat, self.bat.owner, old(registry)@, found@) {
                Ok(()) => {
                    &&& result matches Ok((bundle, timer))
                    &&& bundle == (BatBundle {
                        bat: self.bat,
                        state: BatState::IDLE,
                        stats: self.stats,
                    })
                    &&& timer.0@ == CountdownModel::fresh(WANDER_FIRST_PAUSE as nat)
                },
                Err(error) => result == Err::<(BatBundle, WanderTimer), FactoryError>(error),
            },
            final(registry)@ == if result is Ok {
                old(registry)@.insert(self.bat.owner)
            } else {
                old(registry)@
            },
    {
        match spawn_bundle(BundleKind::Bat, self.bat.owner, registry, found) {
            Ok(()) => Ok(
                (
                    BatBundle { bat: self.bat, state: BatState::IDLE, stats: self.stats },
                    WanderTimer(Countdown::new(WANDER_FIRST_PAUSE)),
                ),
            ),
            Err(error) => Err(error),
        }
    }
}

/// What the caller does for a bat in one tick.
#[derive(Clone, Copy, Debug, PartialEq, Eq, Structural)]
pub enum BatAction {
    /// Move the velocity toward zero by the friction of one tick.
    Brake,
    /// Move the velocity toward the wander target at full speed by the
    /// acceleration of one tick.
    Wander,
    /// Move the velocity toward this player at full speed by the
    /// acceleration of one tick.
    Chase(NodeHandle),
    /// Set the velocity to zero.
    Halt,
}

/// What comes of a bat's hurt box meeting the player's hit box in one tick.
#[derive(Clone, Copy, Debug, PartialEq, Eq, Structural)]
pub enum HitOutcome {
    /// No hit landed.
    Miss,
    /// A hit landed and the bat lives: knock it back and show the hit.
    Hit,
    /// A hit landed and no health is left: show the hit and the death, and
    /// remove the bat and its body.
    Kill,
}

impl BatAction {
    /// Whether the sprite is turned to face the way the bat flies: it is on
    /// every tick in which the bat steers somewhere or is stopped in a chase.
    pub open spec fn spec_turns_sprite(&self) -> bool {
        *self != BatAction::Brake
    }

    /// Whether the sprite is turned to face the way the bat flies.
    #[verifier::when_used_as_spec(spec_turns_sprite)]
    pub fn turns_sprite(&self) -> (turns: bool)
        ensures
            turns == self.spec_turns_sprite(),
    {
        match self {
            BatAction::Brake => false,
            _ => true,
        }
    }
}

/// The action of one tick, from the state at its start and the player to go
/// after.
pub open spec fn action_for(state: BatState, target: Option<NodeHandle>) -> BatAction {
    match state {
        BatState::IDLE => BatAction::Brake,
        BatState::WANDER => BatAction::Wander,
        BatState::CHASE => match target {
            Some(player) => BatAction::Chase(player),
            None => BatAction::Halt,
        },
    }
}

/// The state of an idling or wandering bat after it has thought again. A
/// player in the zone comes first: the bat chases. Otherwise a bat whose
/// countdown has run out takes up `pick`, and any other bat goes on as
/// before.
pub open spec fn state_after_rethink(
    state: BatState,
    seen: bool,
    expired: bool,
    pick: BatState,
) -> BatState {
    if seen {
        BatState::CHASE
    } else if expired {
        pick
    } else {
        state
    }
}

/// The countdown after the bat has thought again: one that has run out is
/// replaced by a fresh one of length `pause`, any other is left alone.
pub open spec fn timer_after_rethink(timer: CountdownModel, pause: nat) -> CountdownModel {
    if timer.finished {
        CountdownModel::fresh(pause)
    } else {
        timer
    }
}

/// What holds of an idling or wandering bat however the dice fall: it thinks
/// again with a pick between idling and wandering and with a pause of one to
/// three seconds.
pub open spec fn rethought(
    state: BatState,
    seen: bool,
    timer: CountdownModel,
    next_state: BatState,
    next_timer: CountdownModel,
) -> bool {
    exists|pick: BatState, pause: nat|
        {
            &&& pick == BatState::IDLE || pick == BatState::WANDER
            &&& WANDER_PAUSE_MIN <= pause < WANDER_PAUSE_MAX
            &&& next_state == #[trigger] state_after_rethink(state, seen, timer.finished, pick)
            &&& next_timer == #[trigger] timer_after_rethink(timer, pause)
        }
}

/// What thinking again comes to, case by case. A player in the zone makes
/// the bat chase, whatever its countdown says. Without one, a bat whose
/// countdown still runs stays as it is, and a bat whose countdown has run
/// out idles or wanders. A countdown that has run out is replaced by a fresh
/// one of one to three seconds, and no other countdown is touched.
pub proof fn lemma_rethought(
    state: BatState,
    seen: bool,
    timer: CountdownModel,
    next_state: BatState,
    next_timer: CountdownModel,
)
    requires
        rethought(state, seen, timer, next_state, next_timer),
    ensures
        seen ==> next_state == BatState::CHASE,
        !seen && !timer.finished ==> next_state == state,
        !seen && timer.finished ==> next_state == BatState::IDLE || next_state == BatState::WANDER,
        !timer.finished ==> next_timer == timer,
        timer.finished ==> next_timer == CountdownModel::fresh(next_timer.duration)
            && WANDER_PAUSE_MIN <= next_timer.duration < WANDER_PAUSE_MAX,
{
}

/// Lets an idling or wandering bat think again, with the pick and the pause
/// already drawn.
pub fn bat_rethink(
    seen: bool,
    state: &mut BatState,
    timer: &mut Countdown,
    pick: BatState,
    pause: u64,
)
    ensures
        *final(state) == state_after_rethink(*old(state), seen, old(timer)@.finished, pick),
        final(timer)@ == timer_after_rethink(old(timer)@, pause as nat),
{
    if timer.finished() {
        *state = pick;
        *timer = Countdown::new(pause);
    }
    if seen {
        *state = BatState::CHASE;
    }
}

/// Lets an idling or wandering bat think again. If a living player is in its
/// zone, it chases. Otherwise, once its countdown has run out, it idles or
/// wanders as the dice fall. A countdown that has run out starts again with a
/// pause of one to three seconds, drawn anew.
pub fn bat_idle_or_wander(
    delect_zone: &DelectionZone,
    nodes: &NodeTable,
    state: &mut BatState,
    timer: &mut Countdown,
)
    ensures
        rethought(
            *old(state),
            delect_zone.spec_target(nodes.live()) is Some,
            old(timer)@,
            *final(state),
            final(timer)@,
        ),
{
    let seen = delect_zone.target(nodes).is_some();
    let mut pick = BatState::IDLE;
    let mut pause: u64 = WANDER_PAUSE_MIN;
    if timer.finished() {
        let state_list = shuffled_pair([BatState::IDLE, BatState::WANDER]);
        pick = state_list[0];
        pause = random_between(WANDER_PAUSE_MIN, WANDER_PAUSE_MAX);
    }
    bat_rethink(seen, state, timer, pick, pause);
    proof {
        assert(*state == state_after_rethink(*old(state), seen, old(timer)@.finished, pick));
        assert(timer@ == timer_after_rethink(old(timer)@, pause as nat));
    }
}

/// Lets a chasing bat go after the player in its zone. Once that player has
/// left the zone or is gone, the bat stops and idles.
pub fn bat_chase(delect_zone: &DelectionZone, nodes: &NodeTable, state: &mut BatState) -> (action:
    BatAction)
    ensures
        action == action_for(BatState::CHASE, delect_zone.spec_target(nodes.live())),
        *final(state) == if delect_zone.spec_target(nodes.live()) is Some {
            *old(state)
        } else {
            BatState::IDLE
        },
{
    match delect_zone.target(nodes) {
        Some(player) => BatAction::Chase(player),
        None => {
            *state = BatState::IDLE;
            BatAction::Halt
        },
    }
}

/// Decides what a bat does this tick and what state it is in afterwards. The
/// action goes by the state at the start of the tick.
pub fn bat_system(
    state: &mut BatState,
    delect_zone: &DelectionZone,
    nodes: &NodeTable,
    timer: &mut WanderTimer,
) -> (action: BatAction)
    ensures
        action == action_for(*old(state), delect_zone.spec_target(nodes.live())),
        match *old(state) {
            BatState::CHASE => {
                &&& final(timer).0@ == old(timer).0@
                &&& *final(state) == if delect_zone.spec_target(nodes.live()) is Some {
                    BatState::CHASE
                } else {
                    BatState::IDLE
                }
            },
            _ => rethought(
                *old(state),
                delect_zone.spec_target(nodes.live()) is Some,
                old(timer).0@,
                *final(state),
                final(timer).0@,
            ),
        },
{
    match *state {
        BatState::IDLE => {
            bat_idle_or_wander(delect_zone, nodes, state, &mut timer.0);
            BatAction::Brake
        },
        BatState::CHASE => bat_chase(delect_zone, nodes, state),
        BatState::WANDER => {
            bat_idle_or_wander(delect_zone, nodes, state, &mut timer.0);
            BatAction::Wander
        },
    }
}

/// The player's hit box against a bat's hurt box, for one tick. If they
/// overlap and the bat is not marked, the bat loses the damage of `hit_box`
/// and is marked.
pub fn attack_bat_system(
    stats: &mut Stats,
    marker: &mut Option<PlayerAttacking>,
    hit_box: &HitBox,
    overlapping: bool,
) -> (outcome: HitOutcome)
    ensures
        *final(marker) is Some == mark_after_hit(*old(marker) is Some, overlapping),
        *final(stats) == if lands(*old(marker) is Some, overlapping) {
            old(stats).damaged(hit_box.damage)
        } else {
            *old(stats)
        },
        outcome == if !lands(*old(marker) is Some, overlapping) {
            HitOutcome::Miss
        } else if final(stats).spec_is_dead() {
            HitOutcome::Kill
        } else {
            HitOutcome::Hit
        },
{
    if marker.is_none() && overlapping {
        stats.take_damage(hit_box.damage);
        *marker = Some(PlayerAttacking);
        if stats.is_dead() {
            HitOutcome::Kill
        } else {
            HitOutcome::Hit
        }
    } else {
        HitOutcome::Miss
    }
}

/// Clears the mark of a bat that no longer overlaps the player's hit box, so
/// that the next swing hurts it again.
pub fn attack_exit_bat_system(marker: &mut Option<PlayerAttacking>, overlapping: bool)
    ensures
        *final(marker) is Some == mark_after_exit(*old(marker) is Some, overlapping),
{
    if marker.is_some() && !overlapping {
        *marker = None;
    }
}

} // verus!
