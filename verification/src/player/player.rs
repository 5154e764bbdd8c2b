use crate::components::Stats;
use crate::delect_box::{lands, mark_after_exit, mark_after_hit};
use crate::events::SignalEvent;
use crate::factory::{spawn_bundle, spawn_result, BundleKind, FactoryError, SpawnRegistry};
use crate::handle::NodeHandle;
use crate::timer::{total, Countdown, CountdownModel};
use crate::world::health::ChangeHealth;
use vstd::prelude::*;

verus! {

/// How long an attack lasts, in nanoseconds.
pub const ATTACK_ANIMATION_LEN: u64 = 400_000_000;

/// How long a roll lasts, in nanoseconds.
pub const ROLL_ANIMATION_LEN: u64 = 500_000_000;

/// The damage the player takes when an enemy touches it.
pub const CONTACT_DAMAGE: i32 = 1;

/// What the player is doing.
#[derive(Clone, Copy, Debug, PartialEq, Eq, Hash, Structural)]
pub enum PlayerState {
    /// Walking or standing, steered by the input axis.
    MOVE,
    /// Swinging the sword; input is ignored until the swing is over.
    ATTACK,
    /// Rolling; input is ignored until the roll is over.
    ROLL,
}

impl Default for PlayerState {
    fn default() -> (state: PlayerState)
        ensures
            state == PlayerState::MOVE,
    {
        PlayerState::MOVE
    }
}

/// Marks an enemy that is touching the player and has dealt its damage.
#[derive(Clone, Copy, Debug, Default, PartialEq, Eq, Structural)]
pub struct PlayerBeenAttack;

/// Marks an enemy that is inside the player's swing and has taken its damage.
#[derive(Clone, Copy, Debug, Default, PartialEq, Eq, Structural)]
pub struct PlayerAttacking;

/// The player's body.
#[derive(Clone, Copy, Debug, PartialEq, Eq, Structural)]
pub struct Player {
    pub owner: NodeHandle,
}

/// The player as it is placed in a scene.
#[derive(Clone, Copy, Debug, PartialEq, Eq, Structural)]
pub struct PlayerBundle {
    pub player: Player,
    pub state: PlayerState,
    pub stats: Stats,
}

impl PlayerBundle {
    /// Sets the player up as an entity, from the children found under its
    /// body. The player starts out moving, with the stats it was given.
    pub fn _ready(&self, registry: &mut SpawnRegistry, found: &Vec<bool>) -> (result: Result<
        PlayerBundle,
        FactoryError,
    >)
        ensures
            result == match spawn_result(
                BundleKind::Player,
                self.player.owner,
                old(registry)@,
                found@,
            ) {
                Ok(()) => Ok::<PlayerBundle, FactoryError>(
                    PlayerBundle {
                        player: self.player,
                        state: PlayerState::MOVE,
                        stats: self.stats,
                    },
                ),
                Err(error) => Err(error),
            },
            final(registry)@ == if result is Ok {
                old(registry)@.insert(self.player.owner)
            } else {
                old(registry)@
            },
    {
        match spawn_bundle(BundleKind::Player, self.player.owner, registry, found) {
            Ok(()) => Ok(
                PlayerBundle { player: self.player, state: PlayerState::MOVE, stats: self.stats },
            ),
            Err(error) => Err(error),
        }
    }
}

/// What the caller does for the player in one tick.
#[derive(Clone, Copy, Debug, PartialEq, Eq, Structural)]
pub enum PlayerAction {
    /// Face the input direction, play "Run", and move the velocity toward
    /// that direction at full speed by the acceleration of one tick.
    Run,
    /// Play "Idle" and move the velocity toward zero by the friction of one
    /// tick.
    Idle,
    /// Set the velocity to zero and play "Attack".
    Attack,
    /// Set the velocity to the facing direction at roll speed and play
    /// "Roll".
    Roll,
    /// Leave velocity and animation as they are.
    Wait,
}

impl PlayerAction {
    /// The name of the animation that the action plays, if it plays one.
    pub open spec fn spec_animation(&self) -> Option<Seq<char>> {
        match self {
            PlayerAction::Run => Some("Run"@),
            PlayerAction::Idle => Some("Idle"@),
            PlayerAction::Attack => Some("Attack"@),
            PlayerAction::Roll => Some("Roll"@),
            PlayerAction::Wait => None,
        }
    }

    /// The name of the animation that the action plays, if it plays one.
    pub fn animation(&self) -> (name: Option<&'static str>)
        ensures
            match name {
                Some(text) => self.spec_animation() == Some(text@),
                None => self.spec_animation() is None,
            },
    {
        match self {
            PlayerAction::Run => Some("Run"),
            PlayerAction::Idle => Some("Idle"),
            PlayerAction::Attack => Some("Attack"),
            PlayerAction::Roll => Some("Roll"),
            PlayerAction::Wait => None,
        }
    }
}

/// The state after the input of one tick. Only a moving player reacts; if
/// both buttons went down in the same tick, the roll wins.
pub open spec fn state_after_input(state: PlayerState, attack: bool, roll: bool) -> PlayerState {
    if state == PlayerState::MOVE {
        if roll {
            PlayerState::ROLL
        } else if attack {
            PlayerState::ATTACK
        } else {
            PlayerState::MOVE
        }
    } else {
        state
    }
}

/// The action of one tick. `timing` says whether the countdown of the
/// current attack or roll is already running.
pub open spec fn action_for(state: PlayerState, timing: bool, moving: bool) -> PlayerAction {
    match state {
        PlayerState::MOVE => if moving {
            PlayerAction::Run
        } else {
            PlayerAction::Idle
        },
        PlayerState::ATTACK => if timing {
            PlayerAction::Wait
        } else {
            PlayerAction::Attack
        },
        PlayerState::ROLL => if timing {
            PlayerAction::Wait
        } else {
            PlayerAction::Roll
        },
    }
}

/// The countdown that an action starts, if it starts one.
pub open spec fn countdown_for(action: PlayerAction) -> Option<CountdownModel> {
    match action {
        PlayerAction::Attack => Some(CountdownModel::fresh(ATTACK_ANIMATION_LEN as nat)),
        PlayerAction::Roll => Some(CountdownModel::fresh(ROLL_ANIMATION_LEN as nat)),
        _ => None,
    }
}

/// The state after an engine signal: the end of the attack animation ends an
/// attack, the end of the roll animation ends a roll, and nothing else
/// changes anything.
pub open spec fn state_after_signal(state: PlayerState, event: SignalEvent) -> PlayerState {
    match (state, event) {
        (PlayerState::ATTACK, SignalEvent::PlayerAttackAnimationFinished) => PlayerState::MOVE,
        (PlayerState::ROLL, SignalEvent::PlayerRollAnimationFinished) => PlayerState::MOVE,
        _ => state,
    }
}

/// What the passing of `delta` makes of the player's state and countdown,
/// and whether the velocity has to be set to zero. Without a countdown
/// nothing happens. A countdown that runs out is dropped and the player
/// moves again, coming to a halt if it was rolling.
pub open spec fn after_delta(
    state: PlayerState,
    timer: Option<CountdownModel>,
    delta: nat,
) -> (PlayerState, Option<CountdownModel>, bool) {
    match timer {
        None => (state, None, false),
        Some(t) => if t.tick(delta).finished {
            (PlayerState::MOVE, None, state == PlayerState::ROLL)
        } else {
            (state, Some(t.tick(delta)), false)
        },
    }
}

/// State and countdown after one tick for each entry of `deltas`, in order,
/// when no signal comes in between.
pub open spec fn after_deltas(
    state: PlayerState,
    timer: Option<CountdownModel>,
    deltas: Seq<nat>,
) -> (PlayerState, Option<CountdownModel>)
    decreases deltas.len(),
{
    if deltas.len() == 0 {
        (state, timer)
    } else {
        after_deltas(
            after_delta(state, timer, deltas[0]).0,
            after_delta(state, timer, deltas[0]).1,
            deltas.drop_first(),
        )
    }
}

/// The models of an optional countdown.
pub open spec fn countdown_view(timer: Option<Countdown>) -> Option<CountdownModel> {
    match timer {
        Some(t) => Some(t@),
        None => None,
    }
}

/// Starts an attack or a roll when its button has just gone down.
pub fn player_state_system(state: &mut PlayerState, attack: bool, roll: bool)
    ensures
        *final(state) == state_after_input(*old(state), attack, roll),
{
    if *state == PlayerState::MOVE {
        if attack {
            *state = PlayerState::ATTACK;
        }
        if roll {
            *state = PlayerState::ROLL;
        }
    }
}

/// Advances the countdown of the current attack or roll by `delta`
/// nanoseconds. When it runs out, the countdown is dropped and the player
/// moves again. Returns whether the velocity has to be set to zero, which is
/// so at the end of a roll.
pub fn player_timer_system(
    state: &mut PlayerState,
    timer: &mut Option<Countdown>,
    delta: u64,
) -> (halt: bool)
    ensures
        (*final(state), countdown_view(*final(timer)), halt) == after_delta(
            *old(state),
            countdown_view(*old(timer)),
            delta as nat,
        ),
{
    match *timer {
        None => false,
        Some(mut t) => {
            t.tick(delta);
            if t.finished() {
                let halt = *state == PlayerState::ROLL;
                *timer = None;
                *state = PlayerState::MOVE;
                halt
            } else {
                *timer = Some(t);
                false
            }
        },
    }
}

/// Ends an attack or a roll on the signal that its animation has finished,
/// dropping the countdown that ran beside it. Returns whether the velocity
/// has to be set to zero, which is so at the end of a roll.
pub fn player_signal_system(
    state: &mut PlayerState,
    timer: &mut Option<Countdown>,
    event: SignalEvent,
) -> (halt: bool)
    ensures
        *final(state) == state_after_signal(*old(state), event),
        *final(timer) == if *final(state) == *old(state) {
            *old(timer)
        } else {
            None
        },
        halt == (*old(state) == PlayerState::ROLL && *final(state) == PlayerState::MOVE),
{
    match (*state, event) {
        (PlayerState::ATTACK, SignalEvent::PlayerAttackAnimationFinished) => {
            *state = PlayerState::MOVE;
            *timer = None;
            false
        },
        (PlayerState::ROLL, SignalEvent::PlayerRollAnimationFinished) => {
            *state = PlayerState::MOVE;
            *timer = None;
            true
        },
        _ => false,
    }
}

/// Decides what the player does this tick. `moving` says whether the input
/// axis is away from zero. An attack or a roll that begins gets its
/// countdown; while that countdown runs, nothing more is asked.
pub fn player_move_system(
    state: PlayerState,
    timer: &mut Option<Countdown>,
    moving: bool,
) -> (action: PlayerAction)
    ensures
        action == action_for(state, *old(timer) is Some, moving),
        match countdown_for(action) {
            Some(started) => countdown_view(*final(timer)) == Some(started),
            None => *final(timer) == *old(timer),
        },
{
    match state {
        PlayerState::MOVE => player_move(moving),
        PlayerState::ATTACK => {
            if timer.is_none() {
                player_attack(timer)
            } else {
                PlayerAction::Wait
            }
        },
        PlayerState::ROLL => {
            if timer.is_none() {
                player_roll(timer)
            } else {
                PlayerAction::Wait
            }
        },
    }
}

/// The action of a moving player: run where the input points, or come to
/// rest when there is no input.
pub fn player_move(moving: bool) -> (action: PlayerAction)
    ensures
        action == action_for(PlayerState::MOVE, false, moving),
{
    if moving {
        PlayerAction::Run
    } else {
        PlayerAction::Idle
    }
}

/// Begins an attack: starts its countdown and asks for the swing.
pub fn player_attack(timer: &mut Option<Countdown>) -> (action: PlayerAction)
    ensures
        action == PlayerAction::Attack,
        countdown_view(*final(timer)) == Some(CountdownModel::fresh(ATTACK_ANIMATION_LEN as nat)),
{
    *timer = Some(Countdown::new(ATTACK_ANIMATION_LEN));
    PlayerAction::Attack
}

/// Begins a roll: starts its countdown and asks for the dash.
pub fn player_roll(timer: &mut Option<Countdown>) -> (action: PlayerAction)
    ensures
        action == PlayerAction::Roll,
        countdown_view(*final(timer)) == Some(CountdownModel::fresh(ROLL_ANIMATION_LEN as nat)),
{
    *timer = Some(Countdown::new(ROLL_ANIMATION_LEN));
    PlayerAction::Roll
}

/// An enemy's hit box against the player's hurt box, for one tick. If they
/// overlap and the enemy is not marked, the player loses one point of health,
/// the enemy is marked, and the new health is announced.
pub fn attack_player_system(
    stats: &mut Stats,
    marker: &mut Option<PlayerBeenAttack>,
    overlapping: bool,
) -> (event: Option<ChangeHealth>)
    ensures
        *final(stats) == if lands(*old(marker) is Some, overlapping) {
            old(stats).damaged(CONTACT_DAMAGE)
        } else {
            *old(stats)
        },
        *final(marker) is Some == mark_after_hit(*old(marker) is Some, overlapping),
        event == if lands(*old(marker) is Some, overlapping) {
            Some(ChangeHealth { health: final(stats).health })
        } else {
            None
        },
{
    if marker.is_none() && overlapping {
        stats.take_damage(CONTACT_DAMAGE);
        *marker = Some(PlayerBeenAttack);
        Some(ChangeHealth { health: stats.health })
    } else {
        None
    }
}

/// Clears the mark of an enemy that no longer overlaps the player, so that
/// its next touch hurts again.
pub fn attack_player_exit_system(marker: &mut Option<PlayerBeenAttack>, overlapping: bool)
    ensures
        *final(marker) is Some == mark_after_exit(*old(marker) is Some, overlapping),
{
    if marker.is_some() && !overlapping {
        *marker = None;
    }
}

/// Whether the player is to be removed from the game: it is once no health
/// is left.
pub fn player_no_health_system(stats: &Stats) -> (despawn: bool)
    ensures
        despawn == stats.spec_is_dead(),
{
    stats.is_dead()
}

/// While the player attacks or rolls, input changes nothing: the state stays
/// whatever buttons go down, and the action asked for never reads the input
/// axis and is the same whether the axis is at rest or not.
pub proof fn lemma_input_ignored_while_busy(
    state: PlayerState,
    timing: bool,
    attack: bool,
    roll: bool,
    moving: bool,
    other_moving: bool,
)
    requires
        state != PlayerState::MOVE,
    ensures
        state_after_input(state, attack, roll) == state,
        action_for(state, timing, moving) == action_for(state, timing, other_moving),
        action_for(state, timing, moving) != PlayerAction::Run,
        action_for(state, timing, moving) != PlayerAction::Idle,
{
}

/// An attack or a roll lasts as long as its countdown: over any run of ticks
/// without a signal, the player is still busy exactly while the time counted
/// is short of the countdown's length, and moves again from the tick that
/// completes it.
pub proof fn lemma_busy_until_countdown_ends(
    state: PlayerState,
    timer: CountdownModel,
    deltas: Seq<nat>,
)
    requires
        state != PlayerState::MOVE,
        timer.consistent(),
        !timer.finished,
    ensures
        after_deltas(state, Some(timer), deltas).0 == if deltas.len() > 0 && timer.elapsed + total(
            deltas,
        ) >= timer.duration {
            PlayerState::MOVE
        } else {
            state
        },
    decreases deltas.len(),
{
    if deltas.len() > 0 {
        let rest = deltas.drop_first();
        if timer.tick(deltas[0]).finished {
            lemma_moving_stays_without_countdown(rest);
        } else {
            lemma_busy_until_countdown_ends(state, timer.tick(deltas[0]), rest);
        }
    }
}

proof fn lemma_moving_stays_without_countdown(deltas: Seq<nat>)
    ensures
        after_deltas(PlayerState::MOVE, None, deltas) == (PlayerState::MOVE, None::<CountdownModel>),
    decreases deltas.len(),
{
    if deltas.len() > 0 {
        lemma_moving_stays_without_countdown(deltas.drop_first());
    }
}

/// A moving player without input stays as it is: it keeps moving, and tick
/// after tick it is asked to come to rest and for nothing else.
pub proof fn lemma_rest_is_steady(timing: bool)
    ensures
        state_after_input(PlayerState::MOVE, false, false) == PlayerState::MOVE,
        action_for(PlayerState::MOVE, timing, false) == PlayerAction::Idle,
        countdown_for(PlayerAction::Idle) is None,
{
}

/// A busy player returns to moving only through the end of its countdown or
/// the matching signal; every signal leaves a moving player moving.
pub proof fn lemma_signal_only_ends(state: PlayerState, event: SignalEvent)
    ensures
        state_after_signal(state, event) == state || state_after_signal(state, event)
            == PlayerState::MOVE,
        state == PlayerState::MOVE ==> state_after_signal(state, event) == PlayerState::MOVE,
{
}

} // verus!
