//! Short-lived visual effects.
//!
//! An effect is an animated sprite that plays once. It is given a countdown
//! as long as its animation, and it is removed when the countdown runs out.

use crate::handle::{NodeHandle, NodeTable};
use crate::timer::{Countdown, CountdownModel, NANOS_PER_SECOND};
use crate::plugins::{update, Registration, Stage, SystemId};
use vstd::prelude::*;

verus! {

/// Frames per second at which effects are animated.
pub const EFFECT_FRAME_RATE: u64 = 15;

/// The countdown of an effect.
#[derive(Clone, Copy, Debug, PartialEq, Eq)]
pub struct EffectTimer(pub Countdown);

/// What becomes of an effect in one tick.
#[derive(Clone, Copy, Debug, PartialEq, Eq, Structural)]
pub enum EffectFate {
    /// The animation is still playing: keep the effect.
    Playing,
    /// The animation is over: free the sprite and remove the effect.
    Finished,
    /// The animation is over and the sprite is gone already: remove the
    /// effect and leave the engine alone.
    Orphaned,
}

/// How long an animation of `frame_count` frames plays, in nanoseconds,
/// rounded down. An animation without frames takes no time, and no animation
/// takes longer than a countdown can hold.
pub open spec fn effect_duration(frame_count: int) -> nat {
    if frame_count <= 0 {
        0
    } else if frame_count * NANOS_PER_SECOND / (EFFECT_FRAME_RATE as int) > u64::MAX {
        u64::MAX as nat
    } else {
        (frame_count * NANOS_PER_SECOND / (EFFECT_FRAME_RATE as int)) as nat
    }
}

/// What becomes of an effect whose countdown is `timer` after the tick, and
/// whose sprite is alive or not.
pub open spec fn fate_for(timer: CountdownModel, alive: bool) -> EffectFate {
    if !timer.finished {
        EffectFate::Playing
    } else if alive {
        EffectFate::Finished
    } else {
        EffectFate::Orphaned
    }
}

/// The countdown for an effect whose animation has `frame_count` frames.
pub fn add_effect(frame_count: i64) -> (timer: EffectTimer)
    ensures
        timer.0@ == CountdownModel::fresh(effect_duration(frame_count as int)),
{
    if frame_count <= 0 {
        return EffectTimer(Countdown::new(0));
    }
    assert(frame_count * NANOS_PER_SECOND <= i64::MAX * NANOS_PER_SECOND) by (nonlinear_arith)
        requires
            frame_count <= i64::MAX,
    ;
    let nanos: u128 = (frame_count as u128) * (NANOS_PER_SECOND as u128);
    let duration: u128 = nanos / (EFFECT_FRAME_RATE as u128);
    if duration > u64::MAX as u128 {
        EffectTimer(Countdown::new(u64::MAX))
    } else {
        EffectTimer(Countdown::new(duration as u64))
    }
}

/// Advances the countdown of an effect by `delta` nanoseconds and says what
/// becomes of the effect. `sprite` is looked up anew: an effect whose sprite
/// the engine has freed in the meantime is removed without touching it.
pub fn effect_finished(
    timer: &mut EffectTimer,
    delta: u64,
    sprite: NodeHandle,
    nodes: &NodeTable,
) -> (fate: EffectFate)
    ensures
        final(timer).0@ == old(timer).0@.tick(delta as nat),
        fate == fate_for(final(timer).0@, nodes.live().contains(sprite)),
{
    timer.0.tick(delta);
    if timer.0.finished() {
        if nodes.is_live(sprite) {
            EffectFate::Finished
        } else {
            EffectFate::Orphaned
        }
    } else {
        EffectFate::Playing
    }
}

/// An effect is removed in the first tick by which the time counted has
/// reached the length of its animation, and in no earlier one.
pub proof fn lemma_effect_lasts_its_animation(frame_count: int, deltas: Seq<nat>, alive: bool)
    ensures
        fate_for(CountdownModel::fresh(effect_duration(frame_count)).tick_all(deltas), alive)
            != EffectFate::Playing <==> deltas.len() > 0 && crate::timer::total(deltas)
            >= effect_duration(frame_count),
{
    crate::timer::lemma_tick_all(CountdownModel::fresh(effect_duration(frame_count)), deltas);
}

/// The systems of the effects.
#[derive(Clone, Copy, Debug, Default, PartialEq, Eq, Structural)]
pub struct EffectPlugin;

impl EffectPlugin {
    /// The registrations of the effects.
    pub open spec fn registrations() -> Seq<Registration> {
        seq![update(SystemId::EffectFinished)]
    }

    /// Adds the registrations of the effects to `schedule`.
    pub fn build(&self, schedule: &mut Vec<Registration>)
        ensures
            final(schedule)@ == old(schedule)@ + Self::registrations(),
    {
        schedule.push(
            Registration { system: SystemId::EffectFinished, stage: Stage::Update, after: None },
        );
        assert(schedule@ =~= old(schedule)@ + Self::registrations());
    }
}

} // verus!
