//! The per-epoch containers: one value for each epoch that was opened.

use vstd::prelude::*;
use super::epoch::Epoch;
use super::table::{Table, TableKey};

verus! {

impl TableKey for Epoch {
    type Id = Epoch;

    open spec fn id(&self) -> Epoch {
        *self
    }

    fn same_as(&self, other: &Self) -> (same: bool) {
        self.0 == other.0
    }

    fn duplicate(&self) -> (copy: Self) {
        *self
    }
}

/// A finite map from epochs to values.
pub type EpochMap<V> = Table<Epoch, V>;

} // verus!
