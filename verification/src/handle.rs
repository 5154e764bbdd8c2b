//! Handles to engine nodes.
//!
//! The engine owns its nodes and may free one at any time. A component
//! therefore never holds a node, only a [`NodeHandle`]: a slot number and the
//! generation of that slot at the time the handle was issued. The
//! [`NodeTable`] says which handles still name a living node; every use of a
//! handle goes through [`NodeTable::try_access`] first.

use vstd::prelude::*;

verus! {

/// Names one engine node for as long as that node lives.
#[derive(Clone, Copy, Debug, PartialEq, Eq, Hash, Structural)]
pub struct NodeHandle {
    pub index: usize,
    pub generation: u64,
}

/// What a handle is traded for when it is checked: the slot of a node that
/// was alive at the check. It is good for the use at hand and is not kept.
#[derive(Clone, Copy, Debug, PartialEq, Eq, Structural)]
pub struct LiveRef {
    pub index: usize,
}

/// What a slot of the table holds.
#[derive(Clone, Copy, Debug)]
enum SlotState {
    /// A living node, named by the slot's present generation.
    Live,
    /// No node; the present generation has not been issued yet.
    Free,
    /// No node, and no generation left to issue.
    Spent,
}

#[derive(Clone, Copy, Debug)]
struct Slot {
    generation: u64,
    state: SlotState,
}

impl Slot {
    fn is_live(&self) -> (live: bool)
        ensures
            live == (self.state is Live),
    {
        match self.state {
            SlotState::Live => true,
            _ => false,
        }
    }
}

/// The liveness of every node that was ever registered.
#[derive(Debug)]
pub struct NodeTable {
    slots: Vec<Slot>,
}

impl NodeTable {
    /// The handles that name a living node.
    pub closed spec fn live(&self) -> Set<NodeHandle> {
        Set::new(
            |h: NodeHandle|
                h.index < self.slots@.len() && self.slots@[h.index as int].state is Live
                    && self.slots@[h.index as int].generation == h.generation,
        )
    }

    /// The handles whose node has been released.
    pub closed spec fn retired(&self) -> Set<NodeHandle> {
        Set::new(
            |h: NodeHandle|
                h.index < self.slots@.len() && (h.generation
                    < self.slots@[h.index as int].generation || (h.generation
                    == self.slots@[h.index as int].generation
                    && self.slots@[h.index as int].state is Spent)),
        )
    }

    /// A table without nodes.
    pub fn new() -> (table: NodeTable)
        ensures
            table.live() == Set::<NodeHandle>::empty(),
            table.retired() == Set::<NodeHandle>::empty(),
    {
        let table = NodeTable { slots: Vec::new() };
        assert(table.live() =~= Set::<NodeHandle>::empty());
        assert(table.retired() =~= Set::<NodeHandle>::empty());
        table
    }

    /// Registers a node and returns the handle that names it from now on.
    /// The handle is new: it names no living node and no released one.
    pub fn register(&mut self) -> (handle: NodeHandle)
        ensures
            !old(self).live().contains(handle),
            !old(self).retired().contains(handle),
            final(self).live() == old(self).live().insert(handle),
            final(self).retired() == old(self).retired(),
    {
        let mut i: usize = 0;
        while i < self.slots.len()
            invariant
                i <= self.slots@.len(),
                *self == *old(self),
            decreases self.slots@.len() - i,
        {
            let slot = self.slots[i];
            if let SlotState::Free = slot.state {
                self.slots.set(i, Slot { generation: slot.generation, state: SlotState::Live });
                let handle = NodeHandle { index: i, generation: slot.generation };
                assert(self.live() =~= old(self).live().insert(handle));
                assert(self.retired() =~= old(self).retired());
                return handle;
            }
            i += 1;
        }
        let handle = NodeHandle { index: self.slots.len(), generation: 0 };
        self.slots.push(Slot { generation: 0, state: SlotState::Live });
        assert(self.live() =~= old(self).live().insert(handle));
        assert(self.retired() =~= old(self).retired());
        handle
    }

    /// Records that the node behind `handle` is gone. Returns whether the
    /// handle named a living node; if it did not, nothing changes.
    pub fn release(&mut self, handle: NodeHandle) -> (was_live: bool)
        ensures
            was_live == old(self).live().contains(handle),
            was_live ==> final(self).live() == old(self).live().remove(handle),
            was_live ==> final(self).retired() == old(self).retired().insert(handle),
            !was_live ==> *final(self) == *old(self),
    {
        if handle.index < self.slots.len() {
            let slot = self.slots[handle.index];
            if slot.is_live() && slot.generation == handle.generation {
                let next = if slot.generation < u64::MAX {
                    Slot { generation: slot.generation + 1, state: SlotState::Free }
                } else {
                    Slot { generation: slot.generation, state: SlotState::Spent }
                };
                self.slots.set(handle.index, next);
                assert(self.live() =~= old(self).live().remove(handle));
                assert(self.retired() =~= old(self).retired().insert(handle));
                return true;
            }
        }
        false
    }

    /// Checks `handle` before a use: a reference to its slot if the node
    /// still lives, nothing if it is gone or was never registered here.
    pub fn try_access(&self, handle: NodeHandle) -> (access: Option<LiveRef>)
        ensures
            access == if self.live().contains(handle) {
                Some(LiveRef { index: handle.index })
            } else {
                None
            },
    {
        if handle.index < self.slots.len() {
            let slot = self.slots[handle.index];
            if slot.is_live() && slot.generation == handle.generation {
                return Some(LiveRef { index: handle.index });
            }
        }
        None
    }

    /// Whether `handle` names a living node.
    pub fn is_live(&self, handle: NodeHandle) -> (alive: bool)
        ensures
            alive == self.live().contains(handle),
    {
        self.try_access(handle).is_some()
    }

    /// A handle names a living node or a released one, never both.
    pub proof fn lemma_retired_is_not_live(&self, handle: NodeHandle)
        ensures
            !(self.live().contains(handle) && self.retired().contains(handle)),
    {
    }
}

} // verus!
