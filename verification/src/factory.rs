//! Turning a scene subtree into an entity.
//!
//! Each kind of bundle expects certain children under its root node, at
//! fixed paths. The table of those paths is here, with the routine that
//! holds a root against it. A child that is not there is a mistake in the
//! scene, and so is a root that is set up twice: neither can be recovered
//! from while the game runs, so the bundle is not built.

use crate::handle::NodeHandle;
use vstd::prelude::*;

verus! {

/// The bundles that are built from scene nodes.
#[derive(Clone, Copy, Debug, PartialEq, Eq, Hash, Structural)]
pub enum BundleKind {
    Player,
    Bat,
    Grass,
    Health,
    World,
}

/// Why a bundle was not built.
#[derive(Clone, Copy, Debug, PartialEq, Eq, Structural)]
pub enum FactoryError {
    /// The child at place `slot` of the kind's table is not under the root.
    MissingChild { kind: BundleKind, slot: usize },
    /// A bundle has been built from this root before.
    DuplicateRoot { root: NodeHandle },
}

/// How many children a bundle of the given kind expects.
pub open spec fn child_count(kind: BundleKind) -> nat {
    match kind {
        BundleKind::Player => 5,
        BundleKind::Bat => 6,
        BundleKind::Grass => 1,
        BundleKind::Health => 2,
        BundleKind::World => 0,
    }
}

/// The path, from the root, of the child at place `slot` of a kind's table.
pub open spec fn child_path(kind: BundleKind, slot: int) -> Seq<char> {
    match kind {
        BundleKind::Player => if slot == 0 {
            "AnimationTree"@
        } else if slot == 1 {
            "AnimationPlayer"@
        } else if slot == 2 {
            "HixboxPivot/SwordHitbox/CollisionShape2D"@
        } else if slot == 3 {
            "HixboxPivot/SwordHitbox"@
        } else {
            "Hurtbox"@
        },
        BundleKind::Bat => if slot == 0 {
            "Hitbox"@
        } else if slot == 1 {
            "Hurtbox"@
        } else if slot == 2 {
            "SoftCollision"@
        } else if slot == 3 {
            "WanderController"@
        } else if slot == 4 {
            "Sprite"@
        } else {
            "Zone"@
        },
        BundleKind::Grass => "HurtBox"@,
        BundleKind::Health => if slot == 0 {
            "HeartUIEmpty"@
        } else {
            "HeartUIFull"@
        },
        BundleKind::World => Seq::empty(),
    }
}

/// Whether the child at place `slot` was not found. `found` holds one answer
/// for each place, in the table's order; a place without an answer counts as
/// not found.
pub open spec fn missing(found: Seq<bool>, slot: int) -> bool {
    slot >= found.len() || !found[slot]
}

/// The first place at or after `from`, and below `count`, whose child was
/// not found.
pub open spec fn first_missing_from(count: nat, found: Seq<bool>, from: nat) -> Option<nat>
    decreases count - from,
{
    if from >= count {
        None
    } else if missing(found, from as int) {
        Some(from)
    } else {
        first_missing_from(count, found, from + 1)
    }
}

/// What holding a root against the table comes to. A root that has been set
/// up before is refused first; then the first child that is missing, if any,
/// is reported.
pub open spec fn spawn_result(
    kind: BundleKind,
    root: NodeHandle,
    spawned: Set<NodeHandle>,
    found: Seq<bool>,
) -> Result<(), FactoryError> {
    if spawned.contains(root) {
        Err(FactoryError::DuplicateRoot { root })
    } else {
        match first_missing_from(child_count(kind), found, 0) {
            Some(slot) => Err(FactoryError::MissingChild { kind, slot: slot as usize }),
            None => Ok(()),
        }
    }
}

/// The roots from which a bundle has been built.
#[derive(Debug)]
pub struct SpawnRegistry {
    roots: Vec<NodeHandle>,
}

impl View for SpawnRegistry {
    type V = Set<NodeHandle>;

    closed spec fn view(&self) -> Set<NodeHandle> {
        self.roots@.to_set()
    }
}

impl SpawnRegistry {
    /// A registry without roots.
    pub fn new() -> (registry: SpawnRegistry)
        ensures
            registry@ == Set::<NodeHandle>::empty(),
    {
        let registry = SpawnRegistry { roots: Vec::new() };
        assert(registry@ =~= Set::<NodeHandle>::empty());
        registry
    }

    /// Whether a bundle has been built from `root`.
    pub fn contains(&self, root: NodeHandle) -> (known: bool)
        ensures
            known == self@.contains(root),
    {
        let mut i: usize = 0;
        while i < self.roots.len()
            invariant
                i <= self.roots@.len(),
                forall|j: int| 0 <= j < i ==> self.roots@[j] != root,
            decreases self.roots@.len() - i,
        {
            if self.roots[i] == root {
                return true;
            }
            i += 1;
        }
        false
    }

    /// Records that a bundle is built from `root`, unless one has been
    /// before.
    pub fn register(&mut self, root: NodeHandle) -> (result: Result<(), FactoryError>)
        ensures
            result == if old(self)@.contains(root) {
                Err::<(), FactoryError>(FactoryError::DuplicateRoot { root })
            } else {
                Ok(())
            },
            final(self)@ == old(self)@.insert(root),
    {
        if self.contains(root) {
            assert(self@.insert(root) =~= self@);
            Err(FactoryError::DuplicateRoot { root })
        } else {
            self.roots.push(root);
            assert(self.roots@ == old(self).roots@.push(root));
            proof {
                lemma_push_contains(old(self).roots@, root);
            }
            assert(self@ =~= old(self)@.insert(root));
            Ok(())
        }
    }

    /// Forgets `root`, so that a bundle can be built from it again. Returns
    /// whether it was known.
    pub fn unregister(&mut self, root: NodeHandle) -> (known: bool)
        ensures
            known == old(self)@.contains(root),
            final(self)@ == old(self)@.remove(root),
    {
        let mut kept: Vec<NodeHandle> = Vec::new();
        let mut known = false;
        let mut i: usize = 0;
        while i < self.roots.len()
            invariant
                i <= self.roots@.len(),
                known == self.roots@.take(i as int).contains(root),
                forall|h: NodeHandle|
                    kept@.contains(h) <==> h != root && self.roots@.take(i as int).contains(h),
            decreases self.roots@.len() - i,
        {
            let h = self.roots[i];
            let ghost before = self.roots@.take(i as int);
            let ghost after = self.roots@.take(i + 1);
            let ghost old_kept = kept@;
            proof {
                assert(after == before.push(h));
                lemma_push_contains(before, h);
            }
            if h == root {
                known = true;
            } else {
                kept.push(h);
                proof {
                    lemma_push_contains(old_kept, h);
                }
            }
            assert forall|x: NodeHandle| kept@.contains(x) <==> x != root && after.contains(x) by {
                assert(old_kept.contains(x) <==> x != root && before.contains(x));
                assert(after.contains(x) <==> before.contains(x) || x == h);
            }
            i += 1;
        }
        assert(self.roots@.take(self.roots@.len() as int) == self.roots@);
        self.roots = kept;
        assert(self@ =~= old(self)@.remove(root));
        known
    }
}

/// The paths, from the root, of the children that a bundle of the given kind
/// expects, in the order of its table.
pub fn required_children(kind: BundleKind) -> (paths: Vec<&'static str>)
    ensures
        paths@.len() == child_count(kind),
        forall|slot: int| 0 <= slot < paths@.len() ==> paths@[slot]@ == child_path(kind, slot),
{
    let mut paths: Vec<&'static str> = Vec::new();
    match kind {
        BundleKind::Player => {
            paths.push("AnimationTree");
            paths.push("AnimationPlayer");
            paths.push("HixboxPivot/SwordHitbox/CollisionShape2D");
            paths.push("HixboxPivot/SwordHitbox");
            paths.push("Hurtbox");
        },
        BundleKind::Bat => {
            paths.push("Hitbox");
            paths.push("Hurtbox");
            paths.push("SoftCollision");
            paths.push("WanderController");
            paths.push("Sprite");
            paths.push("Zone");
        },
        BundleKind::Grass => {
            paths.push("HurtBox");
        },
        BundleKind::Health => {
            paths.push("HeartUIEmpty");
            paths.push("HeartUIFull");
        },
        BundleKind::World => {},
    }
    paths
}

/// How many children a bundle of the given kind expects.
pub fn required_count(kind: BundleKind) -> (count: usize)
    ensures
        count == child_count(kind),
{
    match kind {
        BundleKind::Player => 5,
        BundleKind::Bat => 6,
        BundleKind::Grass => 1,
        BundleKind::Health => 2,
        BundleKind::World => 0,
    }
}

/// Looks for the first child of a kind's table that was not found.
pub fn check_children(kind: BundleKind, found: &Vec<bool>) -> (result: Result<(), FactoryError>)
    ensures
        result == match first_missing_from(child_count(kind), found@, 0) {
            Some(slot) => Err::<(), FactoryError>(
                FactoryError::MissingChild { kind, slot: slot as usize },
            ),
            None => Ok(()),
        },
{
    let count = required_count(kind);
    let mut i: usize = 0;
    while i < count
        invariant
            i <= count,
            count == child_count(kind),
            first_missing_from(count as nat, found@, 0) == first_missing_from(
                count as nat,
                found@,
                i as nat,
            ),
        decreases count - i,
    {
        if i >= found.len() || !found[i] {
            return Err(FactoryError::MissingChild { kind, slot: i });
        }
        i += 1;
    }
    Ok(())
}

/// Holds a root against the table of its kind and, if nothing is wrong,
/// records that a bundle is built from it.
pub fn spawn_bundle(
    kind: BundleKind,
    root: NodeHandle,
    registry: &mut SpawnRegistry,
    found: &Vec<bool>,
) -> (result: Result<(), FactoryError>)
    ensures
        result == spawn_result(kind, root, old(registry)@, found@),
        final(registry)@ == if result is Ok {
            old(registry)@.insert(root)
        } else {
            old(registry)@
        },
{
    if registry.contains(root) {
        return Err(FactoryError::DuplicateRoot { root });
    }
    match check_children(kind, found) {
        Err(error) => Err(error),
        Ok(()) => registry.register(root),
    }
}

/// A bundle is built exactly if its root is new and every child of its table
/// was found; the slot that is reported missing is the first such one.
pub proof fn lemma_spawn_result(
    kind: BundleKind,
    root: NodeHandle,
    spawned: Set<NodeHandle>,
    found: Seq<bool>,
)
    ensures
        spawn_result(kind, root, spawned, found) is Ok <==> !spawned.contains(root) && forall|
            slot: int,
        |
            0 <= slot < child_count(kind) ==> !missing(found, slot),
        spawn_result(kind, root, spawned, found) matches Err(
            FactoryError::MissingChild { slot, .. },
        ) ==> slot < child_count(kind) && missing(found, slot as int) && forall|earlier: int|
            0 <= earlier < slot ==> !missing(found, earlier),
{
    lemma_first_missing(child_count(kind), found, 0);
}

proof fn lemma_push_contains(items: Seq<NodeHandle>, last: NodeHandle)
    ensures
        forall|x: NodeHandle| #[trigger]
            items.push(last).contains(x) <==> items.contains(x) || x == last,
{
    assert forall|x: NodeHandle| #[trigger]
        items.push(last).contains(x) <==> items.contains(x) || x == last by {
        if items.contains(x) {
            let j = choose|j: int| 0 <= j < items.len() && items[j] == x;
            assert(items.push(last)[j] == x);
        }
        if x == last {
            assert(items.push(last)[items.len() as int] == x);
        }
    }
}

proof fn lemma_first_missing(count: nat, found: Seq<bool>, from: nat)
    ensures
        match first_missing_from(count, found, from) {
            Some(slot) => from <= slot < count && missing(found, slot as int) && forall|
                earlier: int,
            |
                from <= earlier < slot ==> !missing(found, earlier),
            None => forall|slot: int| from <= slot < count ==> !missing(found, slot),
        },
    decreases count - from,
{
    if from < count && !missing(found, from as int) {
        lemma_first_missing(count, found, from + 1);
    }
}

} // verus!
