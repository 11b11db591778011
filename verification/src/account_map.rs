//! Maps keyed by account identifier.

use vstd::prelude::*;
use super::account::AccountId;
use super::table::{Table, TableKey};

verus! {

impl TableKey for AccountId {
    type Id = Seq<char>;

    open spec fn id(&self) -> Seq<char> {
        self@
    }

    fn same_as(&self, other: &Self) -> (same: bool) {
        *self == *other
    }

    fn duplicate(&self) -> (copy: Self) {
        self.clone()
    }
}

/// A finite map from account names to values.
pub type AccountMap<V> = Table<AccountId, V>;

} // verus!
