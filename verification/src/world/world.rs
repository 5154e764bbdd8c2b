use crate::events::{is_teardown, spec_is_teardown};
use crate::factory::{spawn_bundle, spawn_result, BundleKind, FactoryError, SpawnRegistry};
use crate::handle::NodeHandle;
use bevy::prelude::Entity;
use vstd::prelude::*;

verus! {

/// Makes `bevy::prelude::Entity`, the name of an entity in the entity store,
/// known to the verifier as a type of which nothing is said. A level only
/// keeps the entity that stands for it and hands it out again when the level
/// ends.
#[verifier::external_type_specification]
#[verifier::external_body]
pub struct ExEntity(Entity);

/// A level, and the entity that stands for it once it is set up.
#[derive(Clone, Copy, Debug, Default)]
pub struct WorldBundle {
    pub entity: Option<Entity>,
}

impl WorldBundle {
    /// Sets the level up: `entity` stands for it from now on. A level whose
    /// node `root` has been set up before is refused and left as it is.
    pub fn _ready(
        &mut self,
        root: NodeHandle,
        registry: &mut SpawnRegistry,
        entity: Entity,
    ) -> (result: Result<(), FactoryError>)
        ensures
            result == spawn_result(BundleKind::World, root, old(registry)@, Seq::<bool>::empty()),
            final(registry)@ == old(registry)@.insert(root),
            final(self).entity == if result is Ok {
                Some(entity)
            } else {
                old(self).entity
            },
    {
        let found: Vec<bool> = Vec::new();
        let result = spawn_bundle(BundleKind::World, root, registry, &found);
        if result.is_ok() {
            self.entity = Some(entity);
        }
        result
    }

    /// Hears a notification of the engine. One that takes the level down
    /// hands out the entity that stands for it, to be removed with all that
    /// belongs to it; the level then stands for nothing. Any other
    /// notification, and any that comes when the level is not set up,
    /// changes nothing.
    pub fn _notification(&mut self, what: i64) -> (despawn: Option<Entity>)
        ensures
            despawn == if spec_is_teardown(what) {
                old(self).entity
            } else {
                None
            },
            final(self).entity == if spec_is_teardown(what) {
                None
            } else {
                old(self).entity
            },
    {
        if is_teardown(what) {
            let entity = self.entity;
            self.entity = None;
            entity
        } else {
            None
        }
    }
}

} // verus!
