//! A finite set of account identifiers.

use vstd::prelude::*;
use super::account::AccountId;
use super::account_map::AccountMap;
use super::table::TableKey;

verus! {

/// A finite set of account names.
#[derive(Debug)]
pub struct AccountSet {
    members: AccountMap<()>,
}

impl View for AccountSet {
    type V = Set<Seq<char>>;

    closed spec fn view(&self) -> Set<Seq<char>> {
        self.members@.dom()
    }
}

impl AccountSet {
    /// The empty set.
    pub fn new() -> (s: Self)
        ensures
            s@ == Set::<Seq<char>>::empty(),
    {
        let s = AccountSet { members: AccountMap::new() };
        assert(s@ =~= Set::<Seq<char>>::empty());
        s
    }

    /// Adds `id` to the set. Says whether the set lacked it before.
    pub fn insert(&mut self, id: &AccountId) -> (added: bool)
        ensures
            final(self)@ == old(self)@.insert(id@),
            added == !old(self)@.contains(id@),
    {
        let replaced = self.members.insert(id.clone(), ());
        assert(self@ =~= old(self)@.insert(id@));
        replaced.is_none()
    }

    /// Whether `id` is in the set.
    pub fn contains(&self, id: &AccountId) -> (found: bool)
        ensures
            found == self@.contains(id@),
    {
        self.members.contains_key(id)
    }

    /// Number of members.
    pub fn len(&self) -> (n: u64)
        ensures
            self@.finite(),
            n == self@.len(),
    {
        self.members.len()
    }

    /// Whether the set has no member.
    pub fn is_empty(&self) -> (empty: bool)
        ensures
            empty == (self@ == Set::<Seq<char>>::empty()),
    {
        let empty = self.members.is_empty();
        proof {
            if self@ == Set::<Seq<char>>::empty() {
                assert(self.members@ =~= Map::<Seq<char>, ()>::empty());
            }
        }
        empty
    }
}

impl AccountSet {
    /// The members of the set, each once.
    pub fn to_vec(&self) -> (list: Vec<AccountId>)
        ensures
            list@.len() == self@.len(),
            forall|i: int| 0 <= i < list@.len() ==> self@.contains(#[trigger] list@[i]@),
            forall|i: int, j: int| 0 <= i < j < list@.len() ==> list@[i]@ != list@[j]@,
            forall|name: Seq<char>|
                self@.contains(name) ==> exists|i: int|
                    0 <= i < list@.len() && #[trigger] list@[i]@ == name,
    {
        let list = self.members.keys();
        proof {
            assert forall|i: int| 0 <= i < list@.len() implies self@.contains(
                #[trigger] list@[i]@,
            ) by {
                assert(self.members@.contains_key(list@[i].id()));
            }
            assert forall|i: int, j: int| 0 <= i < j < list@.len() implies list@[i]@
                != list@[j]@ by {
                assert(list@[i].id() != list@[j].id());
            }
            assert forall|name: Seq<char>| self@.contains(name) implies exists|i: int|
                0 <= i < list@.len() && #[trigger] list@[i]@ == name by {
                assert(self.members@.contains_key(name));
                let i = choose|i: int| 0 <= i < list@.len() && #[trigger] list@[i].id() == name;
                assert(list@[i]@ == name);
            }
        }
        list
    }
}

impl Clone for AccountSet {
    fn clone(&self) -> (res: Self)
        ensures
            res@ == self@,
    {
        AccountSet { members: self.members.clone() }
    }
}

} // verus!
