//! Putting records into the store and taking them out.

use vstd::prelude::*;
use crate::error::ComposerError;
use crate::text::same_text;
use crate::storage::models::{
    records_view, ApplicationView, PersistedApplication, StoreContents,
};
use crate::storage::read_from::{
    first_with_id, found, ids_of, lemma_found_at, lemma_found_none, lemma_found_push,
    position_of, unique_ids,
};

verus! {

/// `records` without those that have `id`; the others keep their order.
pub open spec fn without_id(records: Seq<ApplicationView>, id: Seq<char>) -> Seq<ApplicationView>
    decreases records.len(),
{
    if records.len() == 0 {
        records
    } else if records.last().id == id {
        without_id(records.drop_last(), id)
    } else {
        without_id(records.drop_last(), id).push(records.last())
    }
}

/// `records` after `application` was put in: every record with its id is
/// gone, and it stands at the end.
pub open spec fn upserted(records: Seq<ApplicationView>, application: ApplicationView) -> Seq<
    ApplicationView,
> {
    without_id(records, application.id).push(application)
}

/// How many records have `id`.
pub open spec fn occurrences(records: Seq<ApplicationView>, id: Seq<char>) -> nat
    decreases records.len(),
{
    if records.len() == 0 {
        0
    } else if records.last().id == id {
        occurrences(records.drop_last(), id) + 1
    } else {
        occurrences(records.drop_last(), id)
    }
}

/// The records that have not `id`, as a new list.
pub fn remove_id(records: &Vec<PersistedApplication>, id: &str) -> (kept: Vec<PersistedApplication>)
    ensures
        records_view(kept@) == without_id(records_view(records@), id@),
{
    let ghost all = records_view(records@);
    let mut kept: Vec<PersistedApplication> = Vec::new();
    let mut i: usize = 0;
    assert(records_view(kept@) =~= without_id(all.take(0), id@));
    while i < records.len()
        invariant
            i <= records.len(),
            all == records_view(records@),
            records_view(kept@) == without_id(all.take(i as int), id@),
        decreases records.len() - i,
    {
        let ghost before = records_view(kept@);
        assert(all.take(i + 1).drop_last() =~= all.take(i as int));
        assert(all.take(i + 1).last() == records[i as int]@);
        if !same_text(records[i].id.as_str(), id) {
            kept.push(records[i].clone());
            assert(records_view(kept@) =~= before.push(records[i as int]@));
        }
        i += 1;
    }
    assert(all.take(records.len() as int) =~= all);
    kept
}

/// Puts `application` into the store and gives back the list to write: the
/// records with other ids in their order, then `application`. A store
/// without a file counts as empty, and so does one with a blank file; one
/// whose file is no list of records fails with `StoreInvalid`.
pub fn append_to_storage(contents: StoreContents, application: &PersistedApplication) -> (written:
    Result<Vec<PersistedApplication>, ComposerError>)
    ensures
        match contents.records_to_extend() {
            Some(records) => written matches Ok(list) && records_view(list@) == upserted(
                records,
                application@,
            ),
            None => written matches Err(ComposerError::StoreInvalid),
        },
{
    match contents {
        StoreContents::Missing | StoreContents::Blank => {
            let mut list: Vec<PersistedApplication> = Vec::new();
            list.push(application.clone());
            assert(records_view(list@) =~= upserted(Seq::empty(), application@));
            Ok(list)
        },
        StoreContents::Malformed => Err(ComposerError::StoreInvalid),
        StoreContents::Records(records) => {
            let mut list = remove_id(&records, application.id.as_str());
            let ghost kept = records_view(list@);
            list.push(application.clone());
            assert(records_view(list@) =~= kept.push(application@));
            Ok(list)
        },
    }
}

/// Takes the records with `id` out of the store and gives back the list to
/// write. Fails with `NotFoundToDelete` where no record has the id, with
/// `StoreUnreadable` where the file is no list of records.
pub fn delete_application_by_id(contents: StoreContents, id: &str) -> (written: Result<
    Vec<PersistedApplication>,
    ComposerError,
>)
    ensures
        match contents.records() {
            Some(records) => if found(records, id@) is Some {
                written matches Ok(list) && records_view(list@) == without_id(records, id@)
            } else {
                written matches Err(ComposerError::NotFoundToDelete { id: missing }) && missing@
                    == id@
            },
            None => written matches Err(ComposerError::StoreUnreadable),
        },
{
    match contents {
        StoreContents::Missing => {
            proof {
                lemma_found_none(Seq::<ApplicationView>::empty(), id@);
            }
            Err(ComposerError::NotFoundToDelete { id: id.to_string() })
        },
        StoreContents::Blank => Err(ComposerError::StoreUnreadable),
        StoreContents::Malformed => Err(ComposerError::StoreUnreadable),
        StoreContents::Records(records) => match position_of(&records, id) {
            Some(i) => {
                proof {
                    lemma_found_at(records_view(records@), id@, i as int);
                }
                Ok(remove_id(&records, id))
            },
            None => {
                proof {
                    lemma_found_none(records_view(records@), id@);
                }
                Err(ComposerError::NotFoundToDelete { id: id.to_string() })
            },
        },
    }
}

/// What is left after records were taken out came from the list, in order.
pub proof fn lemma_without_id_members(records: Seq<ApplicationView>, id: Seq<char>)
    ensures
        without_id(records, id).len() <= records.len(),
        forall|k: int|
            0 <= k < without_id(records, id).len() ==> (#[trigger] without_id(records, id)[k]).id
                != id,
        forall|k: int|
            0 <= k < without_id(records, id).len() ==> exists|j: int|
                k <= j < records.len() && records[j] == #[trigger] without_id(records, id)[k],
    decreases records.len(),
{
    if records.len() > 0 {
        let front = records.drop_last();
        lemma_without_id_members(front, id);
        let kept = without_id(records, id);
        assert forall|k: int| 0 <= k < kept.len() implies exists|j: int|
            k <= j < records.len() && records[j] == #[trigger] kept[k] by {
            if k < without_id(front, id).len() {
                let j = choose|j: int|
                    k <= j < front.len() && front[j] == without_id(front, id)[k];
                assert(records[j] == kept[k]);
            } else {
                assert(records[records.len() - 1] == kept[k]);
            }
        }
    }
}

/// A list in which no record has the id is left as it is.
pub proof fn lemma_without_id_absent(records: Seq<ApplicationView>, id: Seq<char>)
    requires
        forall|j: int| 0 <= j < records.len() ==> (#[trigger] records[j]).id != id,
    ensures
        without_id(records, id) == records,
    decreases records.len(),
{
    if records.len() > 0 {
        lemma_without_id_absent(records.drop_last(), id);
        assert(records.drop_last().push(records.last()) =~= records);
    }
}

/// A record that was put in is the one that is then found under its id.
pub proof fn lemma_upsert_then_get(records: Seq<ApplicationView>, application: ApplicationView)
    ensures
        found(upserted(records, application), application.id) == Some(application),
{
    let kept = without_id(records, application.id);
    lemma_without_id_members(records, application.id);
    let after = upserted(records, application);
    assert(first_with_id(after, application.id, kept.len() as int)) by {
        assert forall|j: int| 0 <= j < kept.len() implies (#[trigger] after[j]).id
            != application.id by {
            assert(after[j] == kept[j]);
        }
    }
    lemma_found_at(after, application.id, kept.len() as int);
}

/// Putting a record in leaves exactly one record with its id.
pub proof fn lemma_upsert_once(records: Seq<ApplicationView>, application: ApplicationView)
    ensures
        occurrences(upserted(records, application), application.id) == 1,
{
    let kept = without_id(records, application.id);
    lemma_without_id_members(records, application.id);
    lemma_occurrences_absent(kept, application.id);
    assert(upserted(records, application).drop_last() =~= kept);
}

/// A list in which no record has the id holds it zero times.
pub proof fn lemma_occurrences_absent(records: Seq<ApplicationView>, id: Seq<char>)
    requires
        forall|j: int| 0 <= j < records.len() ==> (#[trigger] records[j]).id != id,
    ensures
        occurrences(records, id) == 0,
    decreases records.len(),
{
    if records.len() > 0 {
        lemma_occurrences_absent(records.drop_last(), id);
    }
}

/// Putting two records with one id in, one after the other, leaves the store
/// as if only the second had been put in: one record with that id, holding
/// the later fields.
pub proof fn lemma_upsert_twice(
    records: Seq<ApplicationView>,
    first: ApplicationView,
    second: ApplicationView,
)
    requires
        first.id == second.id,
    ensures
        upserted(upserted(records, first), second) == upserted(records, second),
        occurrences(upserted(upserted(records, first), second), second.id) == 1,
        found(upserted(upserted(records, first), second), second.id) == Some(second),
{
    let id = second.id;
    let kept = without_id(records, id);
    lemma_without_id_members(records, id);
    lemma_without_id_absent(kept, id);
    assert(upserted(records, first).drop_last() =~= kept);
    assert(without_id(upserted(records, first), id) == kept);
    lemma_upsert_once(records, second);
    lemma_upsert_then_get(records, second);
}

/// Putting a record into a store whose ids are unique leaves them unique.
pub proof fn lemma_upsert_keeps_unique(records: Seq<ApplicationView>, application: ApplicationView)
    requires
        unique_ids(records),
    ensures
        unique_ids(upserted(records, application)),
{
    lemma_without_id_unique(records, application.id);
    lemma_without_id_members(records, application.id);
    let kept = without_id(records, application.id);
    let after = upserted(records, application);
    assert forall|i: int, j: int| 0 <= i < j < after.len() implies (#[trigger] after[i]).id != (
    #[trigger] after[j]).id by {
        assert(after[i] == kept[i]);
        if j < kept.len() {
            assert(after[j] == kept[j]);
        }
    }
}

/// Taking records out of a store whose ids are unique leaves them unique.
pub proof fn lemma_without_id_unique(records: Seq<ApplicationView>, id: Seq<char>)
    requires
        unique_ids(records),
    ensures
        unique_ids(without_id(records, id)),
    decreases records.len(),
{
    if records.len() > 0 {
        let front = records.drop_last();
        assert(unique_ids(front)) by {
            assert forall|i: int, j: int| 0 <= i < j < front.len() implies (#[trigger] front[i]).id
                != (#[trigger] front[j]).id by {
                assert(front[i] == records[i] && front[j] == records[j]);
            }
        }
        lemma_without_id_unique(front, id);
        lemma_without_id_members(front, id);
        let kept = without_id(records, id);
        let inner = without_id(front, id);
        assert forall|i: int, j: int| 0 <= i < j < kept.len() implies (#[trigger] kept[i]).id != (
        #[trigger] kept[j]).id by {
            if j < inner.len() {
                assert(kept[i] == inner[i] && kept[j] == inner[j]);
            } else {
                let k = choose|k: int| i <= k < front.len() && front[k] == inner[i];
                assert(records[k] == kept[i]);
                assert(records[records.len() - 1] == kept[j]);
            }
        }
    }
}

/// After a delete no record with the id is found.
pub proof fn lemma_delete_then_get(records: Seq<ApplicationView>, id: Seq<char>)
    ensures
        found(without_id(records, id), id) is None,
{
    lemma_without_id_members(records, id);
    lemma_found_none(without_id(records, id), id);
}


/// `records` after the first `count` of `ids` were deleted, one after the other.
pub open spec fn without_ids(
    records: Seq<ApplicationView>,
    ids: Seq<Seq<char>>,
    count: nat,
) -> Seq<ApplicationView>
    decreases count,
{
    if count == 0 || count > ids.len() {
        records
    } else {
        without_id(without_ids(records, ids, (count - 1) as nat), ids[count - 1])
    }
}

/// What is left after some ids were deleted came from the store and has
/// none of those ids.
pub proof fn lemma_without_ids_members(
    records: Seq<ApplicationView>,
    ids: Seq<Seq<char>>,
    count: nat,
)
    requires
        count <= ids.len(),
    ensures
        forall|k: int|
            0 <= k < without_ids(records, ids, count).len() ==> {
                &&& exists|j: int|
                    0 <= j < records.len() && records[j] == #[trigger] without_ids(
                        records,
                        ids,
                        count,
                    )[k]
                &&& forall|m: int|
                    0 <= m < count ==> ids[m] != without_ids(records, ids, count)[k].id
            },
    decreases count,
{
    if count > 0 {
        let inner = without_ids(records, ids, (count - 1) as nat);
        let left = without_ids(records, ids, count);
        lemma_without_ids_members(records, ids, (count - 1) as nat);
        lemma_without_id_members(inner, ids[count - 1]);
        assert forall|k: int| 0 <= k < left.len() implies {
            &&& exists|j: int| 0 <= j < records.len() && records[j] == #[trigger] left[k]
            &&& forall|m: int| 0 <= m < count ==> ids[m] != left[k].id
        } by {
            let i = choose|i: int| k <= i < inner.len() && inner[i] == left[k];
            assert(inner[i] == left[k]);
            let j = choose|j: int| 0 <= j < records.len() && records[j] == inner[i];
            assert(records[j] == left[k]);
        }
    }
}

/// Deleting every id of the store, one after the other, leaves the store empty.
pub proof fn lemma_delete_all_leaves_empty(records: Seq<ApplicationView>)
    ensures
        without_ids(records, ids_of(records), records.len()) == Seq::<ApplicationView>::empty(),
{
    let ids = ids_of(records);
    let left = without_ids(records, ids, records.len());
    lemma_without_ids_members(records, ids, records.len());
    if left.len() > 0 {
        let j = choose|j: int| 0 <= j < records.len() && records[j] == left[0];
        assert(ids[j] == left[0].id);
    }
    assert(left =~= Seq::<ApplicationView>::empty());
}


/// A delete leaves the records of every other id as they were found.
pub proof fn lemma_delete_keeps_others(
    records: Seq<ApplicationView>,
    id: Seq<char>,
    other: Seq<char>,
)
    requires
        other != id,
    ensures
        found(without_id(records, id), other) == found(records, other),
    decreases records.len(),
{
    if records.len() > 0 {
        let front = records.drop_last();
        let last = records.last();
        lemma_delete_keeps_others(front, id, other);
        assert(front.push(last) =~= records);
        lemma_found_push(front, last, other);
        if last.id != id {
            lemma_found_push(without_id(front, id), last, other);
        }
    }
}

/// Putting a record in leaves the records of every other id as they were found.
pub proof fn lemma_upsert_keeps_others(
    records: Seq<ApplicationView>,
    application: ApplicationView,
    other: Seq<char>,
)
    requires
        other != application.id,
    ensures
        found(upserted(records, application), other) == found(records, other),
{
    lemma_delete_keeps_others(records, application.id, other);
    lemma_found_push(without_id(records, application.id), application, other);
}

} // verus!
