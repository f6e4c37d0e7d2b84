//! Reading the store.

use vstd::prelude::*;
use crate::error::ComposerError;
use crate::text::same_text;
use crate::storage::models::{
    clone_records, records_view, ApplicationView, PersistedApplication, StoreContents,
};

verus! {

/// `index` is the first place in `records` where a record with `id` stands.
pub open spec fn first_with_id(records: Seq<ApplicationView>, id: Seq<char>, index: int) -> bool {
    &&& 0 <= index < records.len()
    &&& records[index].id == id
    &&& forall|j: int| 0 <= j < index ==> (#[trigger] records[j]).id != id
}

/// The first record with `id`, if there is one.
pub open spec fn found(records: Seq<ApplicationView>, id: Seq<char>) -> Option<ApplicationView> {
    if exists|i: int| first_with_id(records, id, i) {
        Some(records[choose|i: int| first_with_id(records, id, i)])
    } else {
        None
    }
}

/// The ids of the records, in order.
pub open spec fn ids_of(records: Seq<ApplicationView>) -> Seq<Seq<char>> {
    Seq::new(records.len(), |i: int| records[i].id)
}

/// Whether no id stands twice in `records`.
pub open spec fn unique_ids(records: Seq<ApplicationView>) -> bool {
    forall|i: int, j: int|
        0 <= i < j < records.len() ==> (#[trigger] records[i]).id != (#[trigger] records[j]).id
}

/// A first place determines what is found.
pub proof fn lemma_found_at(records: Seq<ApplicationView>, id: Seq<char>, index: int)
    requires
        first_with_id(records, id, index),
    ensures
        found(records, id) == Some(records[index]),
{
    let chosen = choose|i: int| first_with_id(records, id, i);
    assert(first_with_id(records, id, chosen));
    if chosen < index {
        assert(records[chosen].id != id);
    }
    if index < chosen {
        assert(records[index].id != id);
    }
}

/// Where no record has the id, nothing is found.
pub proof fn lemma_found_none(records: Seq<ApplicationView>, id: Seq<char>)
    requires
        forall|j: int| 0 <= j < records.len() ==> (#[trigger] records[j]).id != id,
    ensures
        found(records, id) is None,
{
    if exists|i: int| first_with_id(records, id, i) {
        let i = choose|i: int| first_with_id(records, id, i);
        assert(records[i].id != id);
    }
}

/// What is found after one more record was put at the end: what was found
/// before, or the new record where nothing was found and it has the id.
pub proof fn lemma_found_push(records: Seq<ApplicationView>, last: ApplicationView, id: Seq<char>)
    ensures
        found(records.push(last), id) == match found(records, id) {
            Some(record) => Some(record),
            None => if last.id == id {
                Some(last)
            } else {
                None
            },
        },
{
    let longer = records.push(last);
    if exists|i: int| first_with_id(records, id, i) {
        let i = choose|i: int| first_with_id(records, id, i);
        assert(first_with_id(longer, id, i)) by {
            assert forall|j: int| 0 <= j < i implies (#[trigger] longer[j]).id != id by {
                assert(longer[j] == records[j]);
            }
        }
        lemma_found_at(longer, id, i);
    } else {
        assert forall|j: int| 0 <= j < records.len() implies (#[trigger] records[j]).id != id by {
            if records[j].id == id {
                lemma_id_somewhere(records, id, j);
            }
        }
        if last.id == id {
            assert(first_with_id(longer, id, records.len() as int)) by {
                assert forall|j: int| 0 <= j < records.len() implies (#[trigger] longer[j]).id
                    != id by {
                    assert(longer[j] == records[j]);
                }
            }
            lemma_found_at(longer, id, records.len() as int);
        } else {
            assert forall|j: int| 0 <= j < longer.len() implies (#[trigger] longer[j]).id != id by {
                if j < records.len() {
                    assert(longer[j] == records[j]);
                }
            }
            lemma_found_none(longer, id);
        }
    }
}

/// An id that stands somewhere has a first place.
pub proof fn lemma_id_somewhere(records: Seq<ApplicationView>, id: Seq<char>, place: int)
    requires
        0 <= place < records.len(),
        records[place].id == id,
    ensures
        exists|i: int| first_with_id(records, id, i),
    decreases place,
{
    if exists|j: int| 0 <= j < place && (#[trigger] records[j]).id == id {
        let j = choose|j: int| 0 <= j < place && (#[trigger] records[j]).id == id;
        lemma_id_somewhere(records, id, j);
    } else {
        assert(first_with_id(records, id, place));
    }
}

/// All records of the store. A store without a file holds none; one whose
/// file is no list of records fails with `StoreUnreadable`.
pub fn get_all_from_storage(contents: StoreContents) -> (all: Result<
    Vec<PersistedApplication>,
    ComposerError,
>)
    ensures
        match contents.records() {
            Some(records) => all matches Ok(list) && records_view(list@) == records,
            None => all matches Err(ComposerError::StoreUnreadable),
        },
{
    match contents {
        StoreContents::Missing => {
            let list: Vec<PersistedApplication> = Vec::new();
            assert(records_view(list@) =~= Seq::<ApplicationView>::empty());
            Ok(list)
        },
        StoreContents::Blank => Err(ComposerError::StoreUnreadable),
        StoreContents::Malformed => Err(ComposerError::StoreUnreadable),
        StoreContents::Records(list) => Ok(list),
    }
}

/// The place of the first record with `id`.
pub fn position_of(records: &Vec<PersistedApplication>, id: &str) -> (place: Option<usize>)
    ensures
        match place {
            Some(i) => first_with_id(records_view(records@), id@, i as int),
            None => forall|j: int| 0 <= j < records.len() ==> (#[trigger] records[j]).id@ != id@,
        },
{
    let mut i: usize = 0;
    while i < records.len()
        invariant
            i <= records.len(),
            forall|j: int| 0 <= j < i ==> (#[trigger] records[j]).id@ != id@,
        decreases records.len() - i,
    {
        if same_text(records[i].id.as_str(), id) {
            return Some(i);
        }
        i += 1;
    }
    None
}

/// The record with `id`: the first one, should the list hold several.
///
/// Fails with `NotFound` where no record has the id (so also for a store
/// without a file), with `StoreUnreadable` where the file is no list of records.
pub fn get_application_by_id(contents: &StoreContents, id: &str) -> (record: Result<
    PersistedApplication,
    ComposerError,
>)
    ensures
        match contents.records() {
            Some(records) => match found(records, id@) {
                Some(wanted) => record matches Ok(application) && application@ == wanted,
                None => record matches Err(ComposerError::NotFound { id: missing }) && missing@
                    == id@,
            },
            None => record matches Err(ComposerError::StoreUnreadable),
        },
{
    match contents {
        StoreContents::Missing => {
            proof {
                lemma_found_none(Seq::<ApplicationView>::empty(), id@);
            }
            Err(ComposerError::NotFound { id: id.to_string() })
        },
        StoreContents::Blank => Err(ComposerError::StoreUnreadable),
        StoreContents::Malformed => Err(ComposerError::StoreUnreadable),
        StoreContents::Records(list) => match position_of(list, id) {
            Some(i) => {
                proof {
                    lemma_found_at(records_view(list@), id@, i as int);
                }
                Ok(list[i].clone())
            },
            None => {
                proof {
                    lemma_found_none(records_view(list@), id@);
                }
                Err(ComposerError::NotFound { id: id.to_string() })
            },
        },
    }
}

/// Whether the store holds a record with `id`. A store that cannot be read
/// counts as holding none.
pub fn if_application_exists(contents: &StoreContents, id: &str) -> (exists: bool)
    ensures
        exists == (contents.records() matches Some(records) && found(records, id@) is Some),
{
    match get_application_by_id(contents, id) {
        Ok(_) => true,
        Err(_) => false,
    }
}

} // verus!
