use crate::handle::{NodeHandle, NodeTable};
use vstd::prelude::*;

verus! {

/// The area with which an entity keeps its neighbours at a distance.
#[derive(Clone, Copy, Debug, PartialEq, Eq, Structural)]
pub struct SoftCollision {
    pub owner: NodeHandle,
}

/// What becomes of the push on an entity in one tick.
#[derive(Clone, Copy, Debug, PartialEq, Eq, Structural)]
pub enum SoftPush {
    /// The entity's own area is gone: leave the push as it is.
    Keep,
    /// No neighbour overlaps: the push is zero.
    Rest,
    /// The push is the way between the entity's area and this neighbour's.
    From(NodeHandle),
}

/// The first of `areas` that is still alive.
pub open spec fn first_live(areas: Seq<NodeHandle>, live: Set<NodeHandle>) -> Option<NodeHandle>
    decreases areas.len(),
{
    if areas.len() == 0 {
        None
    } else if live.contains(areas[0]) {
        Some(areas[0])
    } else {
        first_live(areas.drop_first(), live)
    }
}

/// The push on an entity whose area overlaps `areas`, in the order in which
/// the engine reports them.
pub open spec fn push_for(
    soft_collision: SoftCollision,
    live: Set<NodeHandle>,
    areas: Seq<NodeHandle>,
) -> SoftPush {
    if !live.contains(soft_collision.owner) {
        SoftPush::Keep
    } else {
        match first_live(areas, live) {
            Some(neighbour) => SoftPush::From(neighbour),
            None => SoftPush::Rest,
        }
    }
}

/// Decides the push on an entity from the areas that overlap its own.
pub fn soft_collision_system(
    soft_collision: &SoftCollision,
    nodes: &NodeTable,
    areas: &Vec<NodeHandle>,
) -> (push: SoftPush)
    ensures
        push == push_for(*soft_collision, nodes.live(), areas@),
{
    if !nodes.is_live(soft_collision.owner) {
        return SoftPush::Keep;
    }
    let mut i: usize = 0;
    assert(areas@.skip(0) == areas@);
    while i < areas.len()
        invariant
            i <= areas@.len(),
            nodes.live().contains(soft_collision.owner),
            first_live(areas@, nodes.live()) == first_live(areas@.skip(i as int), nodes.live()),
        decreases areas@.len() - i,
    {
        proof {
            assert(areas@.skip(i as int).drop_first() == areas@.skip(i + 1));
            assert(areas@.skip(i as int)[0] == areas@[i as int]);
        }
        if nodes.is_live(areas[i]) {
            return SoftPush::From(areas[i]);
        }
        i += 1;
    }
    SoftPush::Rest
}

/// A neighbour that is pushed from is alive and among the areas reported,
/// and every area reported before it is gone.
pub proof fn lemma_first_live(areas: Seq<NodeHandle>, live: Set<NodeHandle>)
    ensures
        match first_live(areas, live) {
            Some(neighbour) => exists|i: int|
                0 <= i < areas.len() && areas[i] == neighbour && live.contains(neighbour)
                    && forall|j: int| 0 <= j < i ==> !live.contains(#[trigger] areas[j]),
            None => forall|j: int| 0 <= j < areas.len() ==> !live.contains(#[trigger] areas[j]),
        },
    decreases areas.len(),
{
    if areas.len() > 0 {
        if live.contains(areas[0]) {
            assert(areas[0] == areas[0] && forall|j: int|
                0 <= j < 0 ==> !live.contains(#[trigger] areas[j]));
        } else {
            let rest = areas.drop_first();
            lemma_first_live(rest, live);
            match first_live(rest, live) {
                Some(neighbour) => {
                    let i = choose|i: int|
                        0 <= i < rest.len() && rest[i] == neighbour && live.contains(neighbour)
                            && forall|j: int| 0 <= j < i ==> !live.contains(#[trigger] rest[j]);
                    assert(areas[i + 1] == neighbour);
                    assert forall|j: int| 0 <= j < i + 1 implies !live.contains(
                        #[trigger] areas[j],
                    ) by {
                        if j > 0 {
                            assert(areas[j] == rest[j - 1]);
                        }
                    }
                },
                None => {
                    assert forall|j: int| 0 <= j < areas.len() implies !live.contains(
                        #[trigger] areas[j],
                    ) by {
                        if j > 0 {
                            assert(areas[j] == rest[j - 1]);
                        }
                    }
                },
            }
        }
    }
}

} // verus!
