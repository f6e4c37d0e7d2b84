//! The record kept for each application.

use vstd::prelude::*;
use vstd::std_specs::cmp::PartialEqSpecImpl;
use crate::text::{blank, clone_strings, is_blank, strings_view};

verus! {

/// Where an application stands in its lifecycle.
#[derive(Clone, Copy, Debug, PartialEq, Eq, Structural)]
pub enum ApplicationState {
    STARTING,
    RUNNING,
    ERROR,
}

impl ApplicationState {
    /// The name of the state, padded with blanks to fifteen characters.
    pub open spec fn label(self) -> Seq<char> {
        match self {
            ApplicationState::STARTING => "STARTING       "@,
            ApplicationState::RUNNING => "RUNNING        "@,
            ApplicationState::ERROR => "ERROR          "@,
        }
    }

    /// The name of the state as a listing shows it.
    pub fn to_string(&self) -> (text: String)
        ensures
            text@ == self.label(),
    {
        match self {
            ApplicationState::STARTING => String::from_str("STARTING       "),
            ApplicationState::RUNNING => String::from_str("RUNNING        "),
            ApplicationState::ERROR => String::from_str("ERROR          "),
        }
    }

    /// Whether an application may go from `self` to `next` within one
    /// install or upgrade: only from `STARTING`, and never back to it.
    pub open spec fn may_become(self, next: ApplicationState) -> bool {
        self == ApplicationState::STARTING && next != ApplicationState::STARTING
    }
}

/// The record of one application.
#[derive(Debug)]
pub struct PersistedApplication {
    pub id: String,
    pub version: String,
    pub timestamp: i64,
    pub state: ApplicationState,
    pub app_name: String,
    pub compose_path: String,
    pub value_files: Vec<String>,
}

/// What a record stands for.
pub struct ApplicationView {
    pub id: Seq<char>,
    pub version: Seq<char>,
    pub timestamp: i64,
    pub state: ApplicationState,
    pub app_name: Seq<char>,
    pub compose_path: Seq<char>,
    pub value_files: Seq<Seq<char>>,
}

impl View for PersistedApplication {
    type V = ApplicationView;

    open spec fn view(&self) -> ApplicationView {
        ApplicationView {
            id: self.id@,
            version: self.version@,
            timestamp: self.timestamp,
            state: self.state,
            app_name: self.app_name@,
            compose_path: self.compose_path@,
            value_files: strings_view(self.value_files@),
        }
    }
}

/// What a list of records stands for.
pub open spec fn records_view(records: Seq<PersistedApplication>) -> Seq<ApplicationView> {
    Seq::new(records.len(), |i: int| records[i]@)
}

impl Clone for PersistedApplication {
    fn clone(&self) -> (copy: PersistedApplication)
        ensures
            copy@ == self@,
    {
        PersistedApplication {
            id: self.id.clone(),
            version: self.version.clone(),
            timestamp: self.timestamp,
            state: self.state,
            app_name: self.app_name.clone(),
            compose_path: self.compose_path.clone(),
            value_files: clone_strings(&self.value_files),
        }
    }
}

/// Whether two lists hold the same strings in the same order.
pub fn same_strings(left: &Vec<String>, right: &Vec<String>) -> (same: bool)
    ensures
        same == (strings_view(left@) == strings_view(right@)),
{
    if left.len() != right.len() {
        assert(strings_view(left@).len() != strings_view(right@).len());
        return false;
    }
    let mut i: usize = 0;
    while i < left.len()
        invariant
            i <= left.len(),
            left.len() == right.len(),
            forall|j: int| 0 <= j < i ==> left[j]@ == right[j]@,
        decreases left.len() - i,
    {
        if left[i] != right[i] {
            assert(strings_view(left@)[i as int] != strings_view(right@)[i as int]);
            return false;
        }
        i += 1;
    }
    assert(strings_view(left@) =~= strings_view(right@));
    true
}

impl PartialEq for PersistedApplication {
    fn eq(&self, other: &PersistedApplication) -> (same: bool) {
        self.id == other.id && self.version == other.version && self.timestamp == other.timestamp
            && self.state == other.state && self.app_name == other.app_name && self.compose_path
            == other.compose_path && same_strings(&self.value_files, &other.value_files)
    }
}

impl PartialEqSpecImpl for PersistedApplication {
    open spec fn obeys_eq_spec() -> bool {
        true
    }

    open spec fn eq_spec(&self, other: &PersistedApplication) -> bool {
        self@ == other@
    }
}

/// A copy of a list of records.
pub fn clone_records(records: &Vec<PersistedApplication>) -> (copy: Vec<PersistedApplication>)
    ensures
        records_view(copy@) == records_view(records@),
{
    let mut copy: Vec<PersistedApplication> = Vec::new();
    let mut i: usize = 0;
    while i < records.len()
        invariant
            i <= records.len(),
            copy.len() == i,
            forall|j: int| 0 <= j < i ==> copy[j]@ == records[j]@,
        decreases records.len() - i,
    {
        copy.push(records[i].clone());
        i += 1;
    }
    assert(records_view(copy@) =~= records_view(records@));
    copy
}

/// The store as it was found: no file, a file with nothing but white space
/// in it, a file that is no list of records, or the records that the file holds.
#[derive(Debug)]
pub enum StoreContents {
    Missing,
    Blank,
    Malformed,
    Records(Vec<PersistedApplication>),
}

impl StoreContents {
    /// The records that a reader finds in the store, or `None` where its
    /// file is no list of records. A store without a file holds no record; a
    /// blank file is no list.
    pub open spec fn records(self) -> Option<Seq<ApplicationView>> {
        match self {
            StoreContents::Missing => Some(Seq::empty()),
            StoreContents::Blank => None,
            StoreContents::Malformed => None,
            StoreContents::Records(records) => Some(records_view(records@)),
        }
    }

    /// The records that a new record is added to, or `None` where the
    /// store's file is no list of records. Here a blank file counts as an
    /// empty store, as one without a file does.
    pub open spec fn records_to_extend(self) -> Option<Seq<ApplicationView>> {
        match self {
            StoreContents::Blank => Some(Seq::empty()),
            other => other.records(),
        }
    }

    /// Tells what was found: `text` is the text of the store's file (`None`
    /// without a file), `parsed` the records read from it (`None` where the
    /// text is no list of records).
    pub fn found(text: Option<&str>, parsed: Option<Vec<PersistedApplication>>) -> (contents:
        StoreContents)
        ensures
            contents == match text {
                None => StoreContents::Missing,
                Some(written) => if blank(written@) {
                    StoreContents::Blank
                } else {
                    match parsed {
                        Some(records) => StoreContents::Records(records),
                        None => StoreContents::Malformed,
                    }
                },
            },
    {
        match text {
            None => StoreContents::Missing,
            Some(written) => {
                if is_blank(written) {
                    StoreContents::Blank
                } else {
                    match parsed {
                        Some(records) => StoreContents::Records(records),
                        None => StoreContents::Malformed,
                    }
                }
            },
        }
    }
}

} // verus!
