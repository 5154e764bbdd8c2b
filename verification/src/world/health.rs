//! The row of hearts that shows the player's health.

use crate::factory::{spawn_bundle, spawn_result, BundleKind, FactoryError, SpawnRegistry};
use crate::handle::{NodeHandle, NodeTable};
use vstd::prelude::*;

verus! {

/// The width of one heart, in pixels.
pub const HEART_WIDTH: i64 = 15;

/// Sent when the player's health has changed.
#[derive(Clone, Copy, Debug, PartialEq, Eq, Structural)]
pub struct ChangeHealth {
    pub health: i32,
}

/// Sent when the player's greatest possible health has changed.
#[derive(Clone, Copy, Debug, PartialEq, Eq, Structural)]
pub struct ChangeMaxHealth {
    pub max_health: i32,
}

/// The row of empty hearts, as wide as the greatest possible health.
#[derive(Clone, Copy, Debug, PartialEq, Eq, Structural)]
pub struct HeartEmpty(pub NodeHandle);

/// The row of full hearts, as wide as the health that is left.
#[derive(Clone, Copy, Debug, PartialEq, Eq, Structural)]
pub struct HeartFull(pub NodeHandle);

/// Marks the entity of the health display.
#[derive(Clone, Copy, Debug, Default, PartialEq, Eq, Structural)]
pub struct Health;

/// The health display as it is placed in a scene.
#[derive(Clone, Copy, Debug, Default, PartialEq, Eq, Structural)]
pub struct HealthBundle;

/// The width, in pixels, of a row of `points` hearts.
pub open spec fn bar_width(points: i32) -> int {
    points * HEART_WIDTH
}

/// The width that a row of hearts is given in one tick: none if its node is
/// gone or no change was announced, else the width for the change that was
/// announced last.
pub open spec fn width_after(alive: bool, points: Seq<i32>) -> Option<i64> {
    if alive && points.len() > 0 {
        Some(bar_width(points.last()) as i64)
    } else {
        None
    }
}

impl HealthBundle {
    /// Sets the health display up as an entity, from the children found
    /// under its node `root`.
    pub fn _ready(
        &self,
        root: NodeHandle,
        registry: &mut SpawnRegistry,
        found: &Vec<bool>,
    ) -> (result: Result<Health, FactoryError>)
        ensures
            result == match spawn_result(BundleKind::Health, root, old(registry)@, found@) {
                Ok(()) => Ok::<Health, FactoryError>(Health),
                Err(error) => Err(error),
            },
            final(registry)@ == if result is Ok {
                old(registry)@.insert(root)
            } else {
                old(registry)@
            },
    {
        match spawn_bundle(BundleKind::Health, root, registry, found) {
            Ok(()) => Ok(Health),
            Err(error) => Err(error),
        }
    }
}

/// The width of a row of `points` hearts, in pixels.
pub fn heart_row_width(points: i32) -> (width: i64)
    ensures
        width == bar_width(points),
{
    (points as i64) * HEART_WIDTH
}

/// The new width of the row of full hearts, if it has to change this tick.
pub fn set_health_system(
    heart_full: &HeartFull,
    nodes: &NodeTable,
    events: &Vec<ChangeHealth>,
) -> (width: Option<i64>)
    ensures
        width == width_after(
            nodes.live().contains(heart_full.0),
            events@.map_values(|e: ChangeHealth| e.health),
        ),
{
    if nodes.is_live(heart_full.0) && events.len() > 0 {
        Some(heart_row_width(events[events.len() - 1].health))
    } else {
        None
    }
}

/// The new width of the row of empty hearts, if it has to change this tick.
pub fn set_max_health_system(
    heart_empty: &HeartEmpty,
    nodes: &NodeTable,
    events: &Vec<ChangeMaxHealth>,
) -> (width: Option<i64>)
    ensures
        width == width_after(
            nodes.live().contains(heart_empty.0),
            events@.map_values(|e: ChangeMaxHealth| e.max_health),
        ),
{
    if nodes.is_live(heart_empty.0) && events.len() > 0 {
        Some(heart_row_width(events[events.len() - 1].max_health))
    } else {
        None
    }
}

} // verus!
