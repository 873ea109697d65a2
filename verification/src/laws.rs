//! What holds of a registry over whole runs of operations, stated over the
//! model that the contracts of the operations use.

use vstd::prelude::*;
use crate::ids::{is_highest, lemma_max_id_is_highest, max_id, next_id};
use crate::registry::{ids_are_dense, lookup, record_view, with_record, UserRegistry};
use crate::user::User;

verus! {

/// The registry that an empty one becomes when `records` are inserted one
/// after the other, in the order of the sequence.
pub open spec fn grown_from_empty(records: Seq<Seq<char>>) -> Map<u32, Seq<char>>
    decreases records.len(),
{
    if records.len() == 0 {
        Map::empty()
    } else {
        with_record(grown_from_empty(records.drop_last()), records.last())
    }
}

/// The identifier that insert number `k` of the run returns, counting the
/// inserts from 0.
pub open spec fn assigned_id(records: Seq<Seq<char>>, k: int) -> int {
    next_id(grown_from_empty(records.take(k)).dom())
}

/// The identifiers that the inserts of the run return, in order.
pub open spec fn assigned_ids(records: Seq<Seq<char>>) -> Seq<int> {
    Seq::new(records.len(), |k: int| assigned_id(records, k))
}

/// In a registry whose identifiers are 1 up to the number of records, the
/// highest identifier in use is that number.
pub proof fn lemma_dense_max_id(entries: Map<u32, Seq<char>>)
    requires
        ids_are_dense(entries),
    ensures
        max_id(entries.dom()) == entries.len(),
{
    lemma_max_id_is_highest(entries.dom());
    assert(is_highest(entries.dom(), entries.len() as u32));
}

/// A registry grown from an empty one holds as many records as were
/// inserted, under the identifiers 1 up to that number, each record under
/// the position that it had in the run.
pub proof fn lemma_grown_contents(records: Seq<Seq<char>>)
    requires
        records.len() <= u32::MAX,
    ensures
        ids_are_dense(grown_from_empty(records)),
        grown_from_empty(records).len() == records.len(),
        forall|id: u32|
            1 <= id <= records.len() ==> #[trigger] lookup(grown_from_empty(records), id) == Some(
                records[id - 1],
            ),
    decreases records.len(),
{
    if records.len() > 0 {
        let earlier = grown_from_empty(records.drop_last());
        lemma_grown_contents(records.drop_last());
        lemma_dense_max_id(earlier);
        let id = records.len() as u32;
        assert(grown_from_empty(records) == earlier.insert(id, records.last()));
        assert(grown_from_empty(records).dom() =~= earlier.dom().insert(id));
        assert forall|other: u32| 1 <= other <= records.len() implies #[trigger] lookup(
            grown_from_empty(records),
            other,
        ) == Some(records[other - 1]) by {
            if other != id {
                assert(lookup(earlier, other) == Some(records.drop_last()[other - 1]));
            }
        }
    }
}

/// Started on an empty registry, the k-th insert returns the identifier k,
/// counting the inserts from 1 (here: insert number `k`, counted from 0,
/// returns `k + 1`).
pub proof fn law_kth_insert_returns_k(records: Seq<Seq<char>>, k: int)
    requires
        records.len() <= u32::MAX,
        0 <= k < records.len(),
    ensures
        assigned_id(records, k) == k + 1,
{
    lemma_grown_contents(records.take(k));
    lemma_dense_max_id(grown_from_empty(records.take(k)));
}

/// A lookup of the identifier that an insert has just returned finds the
/// record that was inserted.
pub proof fn law_get_after_insert(entries: Map<u32, Seq<char>>, record: Seq<char>)
    requires
        next_id(entries.dom()) <= u32::MAX,
    ensures
        lookup(with_record(entries, record), next_id(entries.dom()) as u32) == Some(record),
{
}

/// An insert leaves every record that was stored before where it was:
/// a lookup of its identifier finds what it found before.
pub proof fn law_insert_keeps_records(entries: Map<u32, Seq<char>>, record: Seq<char>, id: u32)
    requires
        next_id(entries.dom()) <= u32::MAX,
        entries.contains_key(id),
    ensures
        lookup(with_record(entries, record), id) == lookup(entries, id),
{
    lemma_max_id_is_highest(entries.dom());
}

/// A lookup of an identifier that no insert of the run returned finds
/// nothing.
pub proof fn law_unassigned_id_not_found(records: Seq<Seq<char>>, id: u32)
    requires
        records.len() <= u32::MAX,
        forall|k: int| 0 <= k < records.len() ==> assigned_id(records, k) != id,
    ensures
        lookup(grown_from_empty(records), id) is None,
{
    lemma_grown_contents(records);
    if 1 <= id <= records.len() {
        law_kth_insert_returns_k(records, id - 1);
    }
}

/// Two lookups of one identifier with no insert between them find the
/// same: whatever `get` may return for a registry and an identifier, it
/// is what the registry holds under that identifier.
pub proof fn law_get_is_repeatable(
    registry: UserRegistry,
    id: u32,
    first: Option<User>,
    second: Option<User>,
)
    requires
        call_ensures(UserRegistry::get, (&registry, id), first),
        call_ensures(UserRegistry::get, (&registry, id), second),
    ensures
        record_view(first) == record_view(second),
        record_view(first) == lookup(registry@, id),
{
}

/// However many inserts reach an empty registry, and in whatever order the
/// registry takes them, the identifiers that they return are pairwise
/// distinct and are exactly 1 up to the number of inserts: none twice, none
/// left out.
pub proof fn law_assigned_ids_are_one_to_n(records: Seq<Seq<char>>)
    requires
        records.len() <= u32::MAX,
    ensures
        assigned_ids(records) == Seq::new(records.len(), |k: int| k + 1),
        assigned_ids(records).no_duplicates(),
        assigned_ids(records).to_set() == Set::new(|id: int| 1 <= id <= records.len()),
{
    let ids = assigned_ids(records);
    assert forall|k: int| 0 <= k < records.len() implies ids[k] == k + 1 by {
        law_kth_insert_returns_k(records, k);
    }
    assert(ids =~= Seq::new(records.len(), |k: int| k + 1));
    assert forall|id: int| 1 <= id <= records.len() implies ids.contains(id) by {
        assert(ids[id - 1] == id);
    }
    assert(ids.to_set() =~= Set::new(|id: int| 1 <= id <= records.len()));
}

} // verus!
