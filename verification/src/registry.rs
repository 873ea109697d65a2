//! The user registry: the store of user records and the source of their
//! identifiers.

use std::collections::HashMap;
use vstd::prelude::*;
use vstd::std_specs::iter::IteratorSpec;
use crate::ids::{is_highest, lemma_max_id_is_highest, max_id, next_id};
use crate::user::User;

verus! {

broadcast use vstd::std_specs::hash::group_hash_axioms;

/// What a lookup of `id` finds in `entries`.
pub open spec fn lookup(entries: Map<u32, Seq<char>>, id: u32) -> Option<Seq<char>> {
    if entries.contains_key(id) {
        Some(entries[id])
    } else {
        None
    }
}

/// `entries` with one more record, stored under the next identifier.
pub open spec fn with_record(entries: Map<u32, Seq<char>>, record: Seq<char>) -> Map<
    u32,
    Seq<char>,
> {
    entries.insert(next_id(entries.dom()) as u32, record)
}

/// The identifiers in use are 1, 2, ... up to the number of records, and
/// that number is one that an identifier can hold.
pub open spec fn ids_are_dense(entries: Map<u32, Seq<char>>) -> bool {
    &&& entries.dom().finite()
    &&& entries.len() <= u32::MAX
    &&& forall|id: u32| entries.contains_key(id) <==> 1 <= id <= entries.len()
}

/// The names of the records of a map, each under its identifier.
spec fn names_of(entries: Map<u32, User>) -> Map<u32, Seq<char>> {
    entries.map_values(|user: User| user@)
}

proof fn lemma_names_of(entries: Map<u32, User>)
    ensures
        names_of(entries).dom() == entries.dom(),
        forall|id: u32| entries.contains_key(id) ==> names_of(entries)[id] == entries[id]@,
{
    assert(names_of(entries).dom() =~= entries.dom());
}

proof fn lemma_names_of_insert(entries: Map<u32, User>, id: u32, user: User)
    ensures
        names_of(entries.insert(id, user)) == names_of(entries).insert(id, user@),
{
    assert(names_of(entries.insert(id, user)) =~= names_of(entries).insert(id, user@));
}

/// The model of an optional record.
pub open spec fn record_view(record: Option<User>) -> Option<Seq<char>> {
    match record {
        Some(user) => Some(user@),
        None => None,
    }
}

/// The store of user records, each under the identifier that the registry
/// gave it. Records are never changed or removed.
pub struct UserRegistry {
    entries: HashMap<u32, User>,
}

impl View for UserRegistry {
    type V = Map<u32, Seq<char>>;

    /// The registry as a map from identifier to the name stored under it.
    closed spec fn view(&self) -> Map<u32, Seq<char>> {
        names_of(self.entries@)
    }
}

impl UserRegistry {
    /// Holds of every registry: only `new` and `insert` make or change one.
    #[verifier::type_invariant]
    spec fn wf(self) -> bool {
        ids_are_dense(self@)
    }

    /// An empty registry.
    pub fn new() -> (registry: Self)
        ensures
            registry@ == Map::<u32, Seq<char>>::empty(),
    {
        let entries: HashMap<u32, User> = HashMap::new();
        proof {
            lemma_names_of(entries@);
            assert(names_of(entries@) =~= Map::<u32, Seq<char>>::empty());
        }
        UserRegistry { entries }
    }

    /// The number of records. It is also the highest identifier in use:
    /// the identifiers of a registry are 1 up to this number.
    pub fn len(&self) -> (n: usize)
        ensures
            n == self@.len(),
            ids_are_dense(self@),
    {
        proof {
            use_type_invariant(self);
            lemma_names_of(self.entries@);
        }
        self.entries.len()
    }

    /// A copy of the record stored under `id`, or `None` where there is
    /// none. To find nothing is no failure.
    pub fn get(&self, id: u32) -> (found: Option<User>)
        ensures
            record_view(found) == lookup(self@, id),
            found is Some <==> 1 <= id <= self@.len(),
    {
        proof {
            use_type_invariant(self);
            lemma_names_of(self.entries@);
        }
        match self.entries.get(&id) {
            Some(user) => Some(user.clone()),
            None => None,
        }
    }

    /// The highest identifier in use, or 0 in an empty registry.
    fn highest_id(&self) -> (top: u32)
        ensures
            top == max_id(self@.dom()),
            top == self@.len(),
    {
        proof {
            use_type_invariant(self);
            lemma_names_of(self.entries@);
        }
        let ghost keys = self.entries.keys().remaining().unref();
        let mut top: u32 = 0;
        for key in iter: self.entries.keys()
            invariant
                iter.seq().unref() == keys,
                top == 0 || exists|i: int| 0 <= i < iter.index() && keys[i] == top,
                forall|i: int| 0 <= i < iter.index() ==> keys[i] <= top,
        {
            if *key > top {
                top = *key;
            }
        }
        proof {
            assert(keys.to_set() == self@.dom());
            assert forall|id: u32| self@.dom().contains(id) implies id <= top by {
                let i = keys.index_of(id);
                assert(keys[i] == id);
            }
            if top != 0 {
                let i = choose|i: int| 0 <= i < keys.len() && keys[i] == top;
                assert(keys.contains(keys[i]));
            }
            lemma_max_id_is_highest(self@.dom());
            assert(is_highest(self@.dom(), top));
            assert(is_highest(self@.dom(), self@.len() as u32));
        }
        top
    }

    /// Stores `record` under a new identifier and returns that identifier:
    /// the highest identifier in use plus one, or 1 in an empty registry.
    /// The identifier is worked out from the records held at this moment;
    /// the registry keeps no counter beside them.
    pub fn insert(&mut self, record: User) -> (id: u32)
        requires
            old(self)@.len() < u32::MAX,
        ensures
            id == next_id(old(self)@.dom()),
            id == old(self)@.len() + 1,
            final(self)@ == with_record(old(self)@, record@),
    {
        proof {
            use_type_invariant(&*self);
            lemma_names_of(self.entries@);
        }
        let id = self.highest_id() + 1;
        // The map is taken out while it grows, so that the registry is never
        // seen with a record half stored.
        let mut entries: HashMap<u32, User> = HashMap::new();
        proof {
            lemma_names_of(entries@);
            assert(names_of(entries@) =~= Map::<u32, Seq<char>>::empty());
        }
        std::mem::swap(&mut entries, &mut self.entries);
        entries.insert(id, record);
        proof {
            lemma_names_of_insert(old(self).entries@, id, record);
            lemma_names_of(entries@);
        }
        self.entries = entries;
        id
    }
}

} // verus!
