use crate::handle::NodeHandle;
use vstd::prelude::*;

verus! {

/// The area with which an entity deals damage.
#[derive(Clone, Copy, Debug, PartialEq, Eq, Structural)]
pub struct HitBox {
    pub owner: NodeHandle,
    pub damage: i32,
}

impl HitBox {
    /// A hit box over the area `owner` that deals one point of damage.
    pub fn new(owner: NodeHandle) -> (hit_box: HitBox)
        ensures
            hit_box == (HitBox { owner, damage: 1 }),
    {
        HitBox { owner, damage: 1 }
    }
}

} // verus!
