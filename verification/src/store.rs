//! Storage: the registry of pending work.
//!
//! A storage backend appends registered items and hands the trigger loop an
//! independent, consistently-ordered snapshot of all of them.

use crate::task::{HolderShape, RunnableHolder};
use vstd::prelude::*;

verus! {

/// The storage contract: append an item, and list a snapshot copy of all
/// items in insertion order.
pub trait Storage {
    /// The registered items, in insertion order.
    spec fn items(&self) -> Seq<HolderShape>;

    /// Appends one registered item.
    fn save_runnable(&mut self, runnable: RunnableHolder)
        ensures
            final(self).items() == old(self).items().push(runnable@),
    ;

    /// An independent snapshot of all registered items, in order.
    fn load_runnable(&self) -> (r: Vec<RunnableHolder>)
        ensures
            r@.len() == self.items().len(),
            forall|k: int| 0 <= k < r@.len() ==> (#[trigger] r@[k])@ == self.items()[k],
    ;

    /// Replaces the registry with the given items, in their order. The
    /// trigger loop writes the advanced clocks back through this.
    fn store_all(&mut self, items: Vec<RunnableHolder>)
        ensures
            final(self).items() == items@.map_values(|h: RunnableHolder| h@),
    ;
}

/// The in-memory registry.
pub struct MemoryStorage {
    runs: Vec<RunnableHolder>,
}

impl MemoryStorage {
    /// An empty registry.
    pub fn new() -> (r: MemoryStorage)
        ensures
            r.items().len() == 0,
    {
        MemoryStorage { runs: Vec::new() }
    }
}

impl Storage for MemoryStorage {
    closed spec fn items(&self) -> Seq<HolderShape> {
        self.runs@.map_values(|h: RunnableHolder| h@)
    }

    fn save_runnable(&mut self, runnable: RunnableHolder) {
        self.runs.push(runnable);
        proof {
            assert(self.items() =~= old(self).items().push(self.runs@.last()@));
        }
    }

    fn store_all(&mut self, items: Vec<RunnableHolder>) {
        self.runs = items;
    }

    fn load_runnable(&self) -> (r: Vec<RunnableHolder>) {
        let mut r: Vec<RunnableHolder> = Vec::new();
        let mut i: usize = 0;
        while i < self.runs.len()
            invariant
                i <= self.runs.len(),
                r@.len() == i,
                forall|k: int| 0 <= k < i ==> (#[trigger] r@[k])@ == self.runs@[k]@,
            decreases self.runs.len() - i,
        {
            r.push(self.runs[i].duplicate());
            i = i + 1;
        }
        r
    }
}

} // verus!
