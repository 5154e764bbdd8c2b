//! Areas that deal and take hits.
//!
//! A hit box and a hurt box are matched by overlap alone, tick by tick. While
//! they stay in contact the pair carries a mark, so that one contact deals
//! its damage once however many ticks it lasts. One system sets the mark when
//! a hit lands, a companion clears it when the overlap has ceased.

use vstd::prelude::*;

pub mod hit_box;
pub mod hurt_box;
pub mod soft_collision;

verus! {

/// Whether a hit lands this tick: the areas overlap and the pair is not
/// marked yet.
pub open spec fn lands(marked: bool, overlapping: bool) -> bool {
    overlapping && !marked
}

/// The mark after the system that deals hits has run.
pub open spec fn mark_after_hit(marked: bool, overlapping: bool) -> bool {
    marked || overlapping
}

/// The mark after the system that ends contacts has run.
pub open spec fn mark_after_exit(marked: bool, overlapping: bool) -> bool {
    marked && overlapping
}

/// The mark after both systems have run once on the same overlap sample.
pub open spec fn mark_after_tick(marked: bool, overlapping: bool) -> bool {
    mark_after_exit(mark_after_hit(marked, overlapping), overlapping)
}

/// How many hits land over a run of ticks, one overlap sample per tick, when
/// both systems run every tick.
pub open spec fn hits_landed(marked: bool, samples: Seq<bool>) -> nat
    decreases samples.len(),
{
    if samples.len() == 0 {
        0
    } else {
        (if lands(marked, samples[0]) {
            1nat
        } else {
            0nat
        }) + hits_landed(mark_after_tick(marked, samples[0]), samples.drop_first())
    }
}

/// Whether an overlap begins at tick `i`: the areas overlap then and did not
/// just before. Before the first tick, the mark says whether they did.
pub open spec fn overlap_begins(marked: bool, samples: Seq<bool>, i: int) -> bool {
    samples[i] && !(if i == 0 {
        marked
    } else {
        samples[i - 1]
    })
}

/// How many overlaps begin within the first `n` ticks.
pub open spec fn overlaps_begun(marked: bool, samples: Seq<bool>, n: nat) -> nat
    decreases n,
{
    if n == 0 {
        0
    } else {
        overlaps_begun(marked, samples, (n - 1) as nat) + if overlap_begins(
            marked,
            samples,
            n - 1,
        ) {
            1nat
        } else {
            0nat
        }
    }
}

/// Both orders of the two systems leave the same mark: the pair is marked
/// after a tick exactly if the areas overlapped in it.
pub proof fn lemma_mark_follows_overlap(marked: bool, overlapping: bool)
    ensures
        mark_after_tick(marked, overlapping) == overlapping,
        mark_after_hit(mark_after_exit(marked, overlapping), overlapping) == overlapping,
        lands(mark_after_exit(marked, overlapping), overlapping) == lands(marked, overlapping),
{
}

proof fn lemma_begun_shift(marked: bool, samples: Seq<bool>, n: nat)
    requires
        0 < n <= samples.len(),
    ensures
        overlaps_begun(marked, samples, n) == (if lands(marked, samples[0]) {
            1nat
        } else {
            0nat
        }) + overlaps_begun(samples[0], samples.drop_first(), (n - 1) as nat),
    decreases n,
{
    let rest = samples.drop_first();
    if n == 1 {
        assert(overlaps_begun(marked, samples, 0) == 0);
        assert(overlaps_begun(samples[0], rest, 0) == 0);
    } else {
        lemma_begun_shift(marked, samples, (n - 1) as nat);
        let i = n - 1;
        assert(rest[i - 1] == samples[i]);
        if i - 1 > 0 {
            assert(rest[i - 2] == samples[i - 1]);
        }
        assert(overlap_begins(marked, samples, i) == overlap_begins(samples[0], rest, i - 1));
    }
}

/// One contact, one hit: over any run of ticks, the hits that land are as
/// many as the overlaps that begin, however long each overlap lasts.
pub proof fn lemma_one_hit_per_overlap(marked: bool, samples: Seq<bool>)
    ensures
        hits_landed(marked, samples) == overlaps_begun(marked, samples, samples.len()),
    decreases samples.len(),
{
    if samples.len() > 0 {
        lemma_begun_shift(marked, samples, samples.len());
        lemma_one_hit_per_overlap(samples[0], samples.drop_first());
    }
}

/// While the areas stay in contact, no further hit lands.
pub proof fn lemma_no_hit_while_overlapping(samples: Seq<bool>)
    requires
        forall|i: int| 0 <= i < samples.len() ==> samples[i],
    ensures
        hits_landed(true, samples) == 0,
    decreases samples.len(),
{
    if samples.len() > 0 {
        let rest = samples.drop_first();
        assert forall|i: int| 0 <= i < rest.len() implies rest[i] by {
            assert(rest[i] == samples[i + 1]);
        }
        lemma_no_hit_while_overlapping(rest);
    }
}

} // verus!
