use crate::timer::Countdown;
use vstd::prelude::*;

verus! {

/// The countdown after which a bat picks a new place to fly to and thinks
/// again about idling or wandering.
#[derive(Clone, Copy, Debug, PartialEq, Eq)]
pub struct WanderTimer(pub Countdown);

/// Advances a wander countdown by `delta` nanoseconds. Returns whether the
/// bat has to pick a new target, which is so in the tick that ends the
/// countdown and in no other.
pub fn update_target_position_system(timer: &mut WanderTimer, delta: u64) -> (retarget: bool)
    ensures
        final(timer).0@ == old(timer).0@.tick(delta as nat),
        retarget == final(timer).0@.just_finished,
{
    timer.0.tick(delta);
    timer.0.just_finished()
}

} // verus!
