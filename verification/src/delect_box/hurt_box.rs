use crate::handle::NodeHandle;
use vstd::prelude::*;

verus! {

/// The area in which an entity can be hit.
#[derive(Clone, Copy, Debug, PartialEq, Eq, Structural)]
pub struct HurtBox {
    pub owner: NodeHandle,
}

impl HurtBox {
    /// A hurt box over the area `owner`.
    pub fn new(owner: NodeHandle) -> (hurt_box: HurtBox)
        ensures
            hurt_box == (HurtBox { owner }),
    {
        HurtBox { owner }
    }
}

} // verus!
