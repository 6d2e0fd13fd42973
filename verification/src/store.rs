//! Keeping an order: one writer at a time.

use vstd::prelude::*;
use crate::order::Order;

verus! {

/// An order as it is kept, together with a version that every accepted write
/// moves on. A handler reads order and version, decides, and commits against
/// the version it read; a handler that lost the race is turned away and
/// starts over from the new state.
#[derive(Clone, Debug, PartialEq, Eq)]
pub struct Slot {
    pub order: Order,
    pub version: u64,
}

impl Slot {
    /// True when a write that read version `seen` is accepted.
    pub open spec fn accepts(&self, seen: u64) -> bool {
        seen == self.version && self.version < u64::MAX
    }

    /// The slot after an accepted write of `next`.
    pub open spec fn written(&self, next: Order) -> Slot {
        Slot { order: next, version: (self.version + 1) as u64 }
    }

    /// The slot after an attempt to write `next` by a handler that read
    /// version `seen`.
    pub open spec fn committed(&self, seen: u64, next: Order) -> Slot {
        if self.accepts(seen) {
            self.written(next)
        } else {
            *self
        }
    }

    /// A slot that holds `order` at version 0.
    pub fn new(order: Order) -> (slot: Slot)
        ensures
            slot.order == order,
            slot.version == 0,
    {
        Slot { order, version: 0 }
    }

    /// Writes `next` if the slot is still at the version `seen` that the
    /// writer read, and says whether it did.
    pub fn commit(&mut self, seen: u64, next: Order) -> (accepted: bool)
        ensures
            accepted == old(self).accepts(seen),
            *final(self) == old(self).committed(seen, next),
    {
        if seen == self.version && self.version < u64::MAX {
            self.order = next;
            self.version = self.version + 1;
            true
        } else {
            false
        }
    }
}

/// Of two handlers that read an order at the same version, only the first to
/// commit changes it: the other is turned away and the first one's order
/// stands.
pub proof fn theorem_one_writer_per_version(slot: Slot, seen: u64, first: Order, second: Order)
    requires
        slot.accepts(seen),
    ensures
        !slot.committed(seen, first).accepts(seen),
        slot.committed(seen, first).committed(seen, second) == slot.committed(seen, first),
        slot.committed(seen, first).order == first,
{
}

/// A write that is turned away changes nothing.
pub proof fn theorem_rejected_write_changes_nothing(slot: Slot, seen: u64, next: Order)
    requires
        !slot.accepts(seen),
    ensures
        slot.committed(seen, next) == slot,
{
}

} // verus!
