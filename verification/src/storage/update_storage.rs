//! Changing records that are in the store.

use vstd::prelude::*;
use crate::error::ComposerError;
use crate::text::same_text;
use crate::storage::models::{
    records_view, ApplicationState, ApplicationView, PersistedApplication, StoreContents,
};
use crate::storage::read_from::{get_all_from_storage, ids_of, unique_ids};

verus! {

/// `records` with the state of every record that has `id` set to `state`.
pub open spec fn with_state(
    records: Seq<ApplicationView>,
    id: Seq<char>,
    state: ApplicationState,
) -> Seq<ApplicationView> {
    Seq::new(
        records.len(),
        |i: int|
            if records[i].id == id {
                ApplicationView { state: state, ..records[i] }
            } else {
                records[i]
            },
    )
}

/// A change of state leaves the ids as they are, each in its place, and so
/// leaves them unique where they were.
pub proof fn lemma_with_state_keeps_ids(
    records: Seq<ApplicationView>,
    id: Seq<char>,
    state: ApplicationState,
)
    ensures
        ids_of(with_state(records, id, state)) == ids_of(records),
        unique_ids(records) ==> unique_ids(with_state(records, id, state)),
        forall|i: int|
            0 <= i < records.len() ==> #[trigger] with_state(records, id, state)[i] == (
            ApplicationView {
                state: if records[i].id == id {
                    state
                } else {
                    records[i].state
                },
                ..records[i]
            }),
{
    assert(ids_of(with_state(records, id, state)) =~= ids_of(records));
}

/// Sets the state of the record with `id` and gives back the list to write.
/// Nothing but that state changes; a store that holds no such record is
/// given back as it is. Fails with `StoreUnreadable` where the file is no
/// list of records.
pub fn update_application_state(
    contents: StoreContents,
    id: &str,
    new_state: ApplicationState,
) -> (written: Result<Vec<PersistedApplication>, ComposerError>)
    ensures
        match contents.records() {
            Some(records) => written matches Ok(list) && records_view(list@) == with_state(
                records,
                id@,
                new_state,
            ),
            None => written matches Err(ComposerError::StoreUnreadable),
        },
{
    let mut list = match get_all_from_storage(contents) {
        Ok(list) => list,
        Err(error) => {
            return Err(error);
        },
    };
    let ghost before = records_view(list@);
    let mut i: usize = 0;
    while i < list.len()
        invariant
            i <= list.len(),
            list.len() == before.len(),
            forall|j: int| 0 <= j < i ==> (#[trigger] list[j])@ == with_state(before, id@, new_state)[j],
            forall|j: int| i <= j < list.len() ==> (#[trigger] list[j])@ == before[j],
        decreases list.len() - i,
    {
        if same_text(list[i].id.as_str(), id) {
            let mut changed = list[i].clone();
            changed.state = new_state;
            list.set(i, changed);
        }
        i += 1;
    }
    assert(records_view(list@) =~= with_state(before, id@, new_state));
    Ok(list)
}


/// Changes the records with `id` by `modify_application` and gives back the
/// list to write. Every other record stays as it is, and so do the order and
/// the number of the records. Fails with `StoreUnreadable` where the file is
/// no list of records.
pub fn update_persisted_application_by_id<F>(
    contents: StoreContents,
    id: &str,
    modify_application: F,
) -> (written: Result<Vec<PersistedApplication>, ComposerError>) where
    F: Fn(PersistedApplication) -> PersistedApplication,

    requires
        forall|application: PersistedApplication| modify_application.requires((application,)),
    ensures
        match contents.records() {
            Some(records) => {
                &&& written matches Ok(list)
                &&& list@.len() == records.len()
                &&& forall|i: int|
                    0 <= i < records.len() ==> if records[i].id == id@ {
                        exists|before: PersistedApplication|
                            before@ == records[i] && modify_application.ensures(
                                (before,),
                                #[trigger] list@[i],
                            )
                    } else {
                        list@[i]@ == records[i]
                    }
            },
            None => written matches Err(ComposerError::StoreUnreadable),
        },
{
    let applications = match get_all_from_storage(contents) {
        Ok(list) => list,
        Err(error) => {
            return Err(error);
        },
    };
    let ghost records = records_view(applications@);
    let mut new_applications: Vec<PersistedApplication> = Vec::new();
    let mut i: usize = 0;
    while i < applications.len()
        invariant
            i <= applications.len(),
            records == records_view(applications@),
            new_applications@.len() == i,
            forall|application: PersistedApplication| modify_application.requires((application,)),
            forall|j: int|
                0 <= j < i ==> if records[j].id == id@ {
                    exists|before: PersistedApplication|
                        before@ == records[j] && modify_application.ensures(
                            (before,),
                            #[trigger] new_applications@[j],
                        )
                } else {
                    new_applications@[j]@ == records[j]
                },
        decreases applications.len() - i,
    {
        let application = applications[i].clone();
        if same_text(application.id.as_str(), id) {
            let ghost before = application;
            let changed = modify_application(application);
            new_applications.push(changed);
            assert(before@ == records[i as int] && modify_application.ensures(
                (before,),
                new_applications@[i as int],
            ));
        } else {
            new_applications.push(application);
        }
        i += 1;
    }
    Ok(new_applications)
}

} // verus!
