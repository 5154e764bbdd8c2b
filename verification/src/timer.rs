//! One-shot countdowns in whole nanoseconds.
//!
//! Nothing in the game suspends: whatever has to happen "later" is a
//! countdown that some system advances once per tick and tests afterwards.

use vstd::prelude::*;

verus! {

/// Nanoseconds in one second.
pub const NANOS_PER_SECOND: u64 = 1_000_000_000;

/// What a countdown is, mathematically.
pub struct CountdownModel {
    /// Length of the countdown.
    pub duration: nat,
    /// Time counted so far.
    pub elapsed: nat,
    /// Whether the duration has been reached.
    pub finished: bool,
    /// Whether the duration was reached by the latest tick.
    pub just_finished: bool,
}

impl CountdownModel {
    /// A countdown of `duration` that has not been advanced yet.
    pub open spec fn fresh(duration: nat) -> CountdownModel {
        CountdownModel { duration, elapsed: 0, finished: false, just_finished: false }
    }

    /// The countdown after a tick of `delta`. A finished countdown only
    /// forgets that it has just finished; a running one adds `delta`, stops at
    /// its duration and finishes when it gets there.
    pub open spec fn tick(self, delta: nat) -> CountdownModel {
        if self.finished {
            CountdownModel { just_finished: false, ..self }
        } else if self.elapsed + delta >= self.duration {
            CountdownModel { elapsed: self.duration, finished: true, just_finished: true, ..self }
        } else {
            CountdownModel { elapsed: self.elapsed + delta, ..self }
        }
    }

    /// The countdown after one tick for each entry of `deltas`, in order.
    pub open spec fn tick_all(self, deltas: Seq<nat>) -> CountdownModel
        decreases deltas.len(),
    {
        if deltas.len() == 0 {
            self
        } else {
            self.tick(deltas[0]).tick_all(deltas.drop_first())
        }
    }

    /// What every countdown satisfies.
    pub open spec fn consistent(self) -> bool {
        &&& self.elapsed <= self.duration
        &&& self.finished ==> self.elapsed == self.duration
        &&& self.just_finished ==> self.finished
        &&& !self.finished && self.duration > 0 ==> self.elapsed < self.duration
    }
}

/// The sum of `deltas`.
pub open spec fn total(deltas: Seq<nat>) -> nat
    decreases deltas.len(),
{
    if deltas.len() == 0 {
        0
    } else {
        deltas[0] + total(deltas.drop_first())
    }
}

/// A countdown that runs once and then stays finished until it is reset.
#[derive(Clone, Copy, Debug, PartialEq, Eq)]
pub struct Countdown {
    duration: u64,
    elapsed: u64,
    finished: bool,
    just_finished: bool,
}

impl View for Countdown {
    type V = CountdownModel;

    closed spec fn view(&self) -> CountdownModel {
        CountdownModel {
            duration: self.duration as nat,
            elapsed: self.elapsed as nat,
            finished: self.finished,
            just_finished: self.just_finished,
        }
    }
}

impl Countdown {
    #[verifier::type_invariant]
    spec fn well_formed(self) -> bool {
        self@.consistent()
    }

    /// A fresh countdown of `duration` nanoseconds.
    pub fn new(duration: u64) -> (timer: Countdown)
        ensures
            timer@ == CountdownModel::fresh(duration as nat),
    {
        Countdown { duration, elapsed: 0, finished: false, just_finished: false }
    }

    /// The length of the countdown, in nanoseconds.
    pub fn duration(&self) -> (nanos: u64)
        ensures
            nanos == self@.duration,
    {
        self.duration
    }

    /// The time counted so far, in nanoseconds.
    pub fn elapsed(&self) -> (nanos: u64)
        ensures
            nanos == self@.elapsed,
    {
        self.elapsed
    }

    /// Whether the duration has been reached.
    pub fn finished(&self) -> (done: bool)
        ensures
            done == self@.finished,
    {
        self.finished
    }

    /// Whether the duration was reached by the latest tick.
    pub fn just_finished(&self) -> (done: bool)
        ensures
            done == self@.just_finished,
    {
        self.just_finished
    }

    /// Time still to run, in nanoseconds.
    pub fn remaining(&self) -> (nanos: u64)
        ensures
            self@.consistent(),
            nanos == self@.duration - self@.elapsed,
    {
        proof {
            use_type_invariant(self);
        }
        self.duration - self.elapsed
    }

    /// Advances the countdown by `delta` nanoseconds.
    pub fn tick(&mut self, delta: u64)
        ensures
            final(self)@ == old(self)@.tick(delta as nat),
    {
        proof {
            use_type_invariant(&*self);
        }
        if self.finished {
            *self = Countdown {
                duration: self.duration,
                elapsed: self.elapsed,
                finished: true,
                just_finished: false,
            };
        } else if delta >= self.duration - self.elapsed {
            *self = Countdown {
                duration: self.duration,
                elapsed: self.duration,
                finished: true,
                just_finished: true,
            };
        } else {
            *self = Countdown {
                duration: self.duration,
                elapsed: self.elapsed + delta,
                finished: false,
                just_finished: false,
            };
        }
    }

    /// Starts the countdown again from zero, keeping its duration.
    pub fn reset(&mut self)
        ensures
            final(self)@ == CountdownModel::fresh(old(self)@.duration),
    {
        *self = Countdown::new(self.duration);
    }
}

/// Ticking keeps a countdown consistent.
pub proof fn lemma_tick_consistent(timer: CountdownModel, delta: nat)
    requires
        timer.consistent(),
    ensures
        timer.tick(delta).consistent(),
        timer.tick(delta).duration == timer.duration,
{
}

/// A running countdown that is ticked several times has counted the sum of
/// the ticks, capped at its duration, and is finished exactly if at least one
/// tick was made and the sum has reached the duration.
pub proof fn lemma_tick_all(timer: CountdownModel, deltas: Seq<nat>)
    requires
        timer.consistent(),
        !timer.finished,
    ensures
        timer.tick_all(deltas).duration == timer.duration,
        timer.tick_all(deltas).consistent(),
        timer.tick_all(deltas).finished <==> deltas.len() > 0 && timer.elapsed + total(deltas)
            >= timer.duration,
        timer.tick_all(deltas).elapsed == if timer.elapsed + total(deltas) >= timer.duration {
            timer.duration
        } else {
            timer.elapsed + total(deltas)
        },
    decreases deltas.len(),
{
    if deltas.len() > 0 {
        let next = timer.tick(deltas[0]);
        let rest = deltas.drop_first();
        if next.finished {
            lemma_finished_stays(next, rest);
        } else {
            lemma_tick_all(next, rest);
        }
    }
}

/// A finished countdown stays finished, whatever ticks follow.
pub proof fn lemma_finished_stays(timer: CountdownModel, deltas: Seq<nat>)
    requires
        timer.consistent(),
        timer.finished,
    ensures
        timer.tick_all(deltas).finished,
        timer.tick_all(deltas).elapsed == timer.duration,
        timer.tick_all(deltas).duration == timer.duration,
        timer.tick_all(deltas).consistent(),
        deltas.len() > 0 ==> !timer.tick_all(deltas).just_finished,
    decreases deltas.len(),
{
    if deltas.len() > 0 {
        lemma_finished_stays(timer.tick(deltas[0]), deltas.drop_first());
        if deltas.drop_first().len() == 0 {
            assert(timer.tick(deltas[0]).tick_all(deltas.drop_first()) == timer.tick(deltas[0]));
        }
    }
}

} // verus!
