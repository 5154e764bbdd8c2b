use crate::factory::{spawn_bundle, spawn_result, BundleKind, FactoryError, SpawnRegistry};
use crate::handle::{NodeHandle, NodeTable};
use vstd::prelude::*;

verus! {

/// A tuft of grass that the player can cut.
#[derive(Clone, Copy, Debug, PartialEq, Eq, Structural)]
pub struct Grass {
    pub owner: NodeHandle,
}

/// What becomes of a tuft of grass in one tick.
#[derive(Clone, Copy, Debug, PartialEq, Eq, Structural)]
pub enum GrassFate {
    /// Nothing happens.
    Stands,
    /// The grass is cut: show the effect where it stood, then remove the
    /// grass and its node.
    Cut,
    /// The node is gone already: remove the grass and leave the engine alone.
    Gone,
}

/// What becomes of a tuft of grass whose node is alive or not, and whose
/// hurt box the player's hit box overlaps or not.
pub open spec fn grass_fate(alive: bool, overlapping: bool) -> GrassFate {
    if !alive {
        GrassFate::Gone
    } else if overlapping {
        GrassFate::Cut
    } else {
        GrassFate::Stands
    }
}

impl Grass {
    /// Sets the grass up as an entity, from the children found under its
    /// node.
    pub fn _ready(&self, registry: &mut SpawnRegistry, found: &Vec<bool>) -> (result: Result<
        Grass,
        FactoryError,
    >)
        ensures
            result == match spawn_result(BundleKind::Grass, self.owner, old(registry)@, found@) {
                Ok(()) => Ok::<Grass, FactoryError>(*self),
                Err(error) => Err(error),
            },
            final(registry)@ == if result is Ok {
                old(registry)@.insert(self.owner)
            } else {
                old(registry)@
            },
    {
        match spawn_bundle(BundleKind::Grass, self.owner, registry, found) {
            Ok(()) => Ok(*self),
            Err(error) => Err(error),
        }
    }
}

/// The player's hit box against the hurt box of a tuft of grass, for one
/// tick.
pub fn kill_grass_system(grass: &Grass, nodes: &NodeTable, overlapping: bool) -> (fate: GrassFate)
    ensures
        fate == grass_fate(nodes.live().contains(grass.owner), overlapping),
{
    if !nodes.is_live(grass.owner) {
        GrassFate::Gone
    } else if overlapping {
        GrassFate::Cut
    } else {
        GrassFate::Stands
    }
}

} // verus!
