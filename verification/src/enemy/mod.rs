//! Enemies and the zone in which they notice the player.

use crate::handle::{NodeHandle, NodeTable};
use crate::plugins::{physics, update, update_after, Registration, Stage, SystemId};
use vstd::prelude::*;

pub mod bat;
pub mod wander_controller;

verus! {

/// The area in which an enemy notices the player, and the player it has
/// noticed there, if any. The zone only refers to that player: it neither
/// owns it nor keeps it alive.
#[derive(Clone, Copy, Debug, PartialEq, Eq, Structural)]
pub struct DelectionZone {
    pub owner: NodeHandle,
    pub player: Option<NodeHandle>,
}

/// One player body as a zone saw it in one tick.
#[derive(Clone, Copy, Debug, PartialEq, Eq, Structural)]
pub struct Sighting {
    /// The player's body.
    pub body: NodeHandle,
    /// Whether the body overlapped the zone.
    pub inside: bool,
}

/// The player that a sighting puts into a zone: its body, if that is inside
/// the zone and still alive.
pub open spec fn sighted(sighting: Sighting, live: Set<NodeHandle>) -> Option<NodeHandle> {
    if sighting.inside && live.contains(sighting.body) {
        Some(sighting.body)
    } else {
        None
    }
}

/// A zone after one tick. A zone whose own area is gone is left alone.
/// Otherwise the zone forgets its player and holds what the last sighting
/// puts into it, or nobody if there was no player to see.
pub open spec fn zone_after(
    zone: DelectionZone,
    live: Set<NodeHandle>,
    sightings: Seq<Sighting>,
) -> DelectionZone {
    if !live.contains(zone.owner) {
        zone
    } else if sightings.len() == 0 {
        DelectionZone { owner: zone.owner, player: None }
    } else {
        DelectionZone { owner: zone.owner, player: sighted(sightings.last(), live) }
    }
}

impl DelectionZone {
    /// A zone over the area `owner` that has noticed nobody.
    pub fn new(owner: NodeHandle) -> (zone: DelectionZone)
        ensures
            zone == (DelectionZone { owner, player: None }),
    {
        DelectionZone { owner, player: None }
    }

    /// The player to go after: the one the zone holds, if it is still alive.
    pub open spec fn spec_target(&self, live: Set<NodeHandle>) -> Option<NodeHandle> {
        match self.player {
            Some(player) => if live.contains(player) {
                Some(player)
            } else {
                None
            },
            None => None,
        }
    }

    /// The player to go after: the one the zone holds, if it is still alive.
    pub fn target(&self, nodes: &NodeTable) -> (target: Option<NodeHandle>)
        ensures
            target == self.spec_target(nodes.live()),
    {
        match self.player {
            Some(player) => {
                if nodes.is_live(player) {
                    Some(player)
                } else {
                    None
                }
            },
            None => None,
        }
    }
}

/// Brings a zone up to date with the players seen in this tick.
pub fn zone_system(zone: &mut DelectionZone, nodes: &NodeTable, sightings: &Vec<Sighting>)
    ensures
        *final(zone) == zone_after(*old(zone), nodes.live(), sightings@),
{
    if !nodes.is_live(zone.owner) {
        return ;
    }
    if sightings.len() == 0 {
        zone.player = None;
    }
    let mut i: usize = 0;
    while i < sightings.len()
        invariant
            i <= sightings@.len(),
            zone.owner == old(zone).owner,
            nodes.live().contains(zone.owner),
            i == 0 ==> sightings@.len() > 0 ==> zone.player == old(zone).player,
            i == 0 ==> sightings@.len() == 0 ==> zone.player is None,
            i > 0 ==> zone.player == sighted(sightings@[i - 1], nodes.live()),
        decreases sightings@.len() - i,
    {
        let sighting = sightings[i];
        if sighting.inside && nodes.is_live(sighting.body) {
            zone.player = Some(sighting.body);
        } else if zone.player.is_some() {
            zone.player = None;
        }
        i += 1;
    }
}

/// The systems of the enemies.
#[derive(Clone, Copy, Debug, Default, PartialEq, Eq, Structural)]
pub struct EnemyPlugin;

impl EnemyPlugin {
    /// The registrations of the enemies. A bat decides after its zone has
    /// been brought up to date, and its body is moved in the physics stage.
    pub open spec fn registrations() -> Seq<Registration> {
        seq![
            update(SystemId::Zone),
            update_after(SystemId::Bat, SystemId::Zone),
            update(SystemId::SoftCollision),
            update(SystemId::UpdateTargetPosition),
            update(SystemId::AttackExitBat),
            update(SystemId::AttackBat),
            physics(SystemId::BatMove),
        ]
    }

    /// Adds the registrations of the enemies to `schedule`.
    pub fn build(&self, schedule: &mut Vec<Registration>)
        ensures
            final(schedule)@ == old(schedule)@ + Self::registrations(),
    {
        schedule.push(Registration { system: SystemId::Zone, stage: Stage::Update, after: None });
        schedule.push(
            Registration { system: SystemId::Bat, stage: Stage::Update, after: Some(SystemId::Zone) },
        );
        schedule.push(Registration { system: SystemId::SoftCollision, stage: Stage::Update, after: None });
        schedule.push(
            Registration { system: SystemId::UpdateTargetPosition, stage: Stage::Update, after: None },
        );
        schedule.push(Registration { system: SystemId::AttackExitBat, stage: Stage::Update, after: None });
        schedule.push(Registration { system: SystemId::AttackBat, stage: Stage::Update, after: None });
        schedule.push(Registration { system: SystemId::BatMove, stage: Stage::Physics, after: None });
        assert(schedule@ =~= old(schedule)@ + Self::registrations());
    }
}

} // verus!
