//! Upgrading an application that is installed.

use vstd::prelude::*;
use crate::commands::install::{add_application, fresh, AddApplication};
use crate::error::ComposerError;
use crate::storage::models::StoreContents;
use crate::storage::read_from::{found, get_application_by_id};
use crate::text::strings_view;

verus! {

/// The arguments of an upgrade.
#[derive(Debug)]
pub struct Upgrade {
    pub directory: String,
    pub id: Option<String>,
    pub value_files: Vec<String>,
}

/// What an upgrade comes to before any work is begun.
pub enum UpgradeView {
    /// The upgrade begins, with these value sources.
    Begun(Seq<Seq<char>>),
    MissingId,
    NotInstalled,
    NoStoredValues,
    NotFound,
    StoreUnreadable,
}

impl Upgrade {
    /// What the upgrade comes to: it needs an id and a staged directory for
    /// it; its value sources are those given or, where none is given, those
    /// in the record of the last install or upgrade.
    pub open spec fn resolved(self, staged: bool, store: StoreContents) -> UpgradeView {
        match self.id {
            None => UpgradeView::MissingId,
            Some(id) => if !staged {
                UpgradeView::NotInstalled
            } else if self.value_files@.len() > 0 {
                UpgradeView::Begun(strings_view(self.value_files@))
            } else {
                match store.records() {
                    None => UpgradeView::StoreUnreadable,
                    Some(records) => match found(records, id@) {
                        None => UpgradeView::NotFound,
                        Some(record) => if record.value_files.len() == 0 {
                            UpgradeView::NoStoredValues
                        } else {
                            UpgradeView::Begun(record.value_files)
                        },
                    },
                }
            },
        }
    }

    /// Begins an upgrade. `staged` says whether a staged directory is there
    /// for the id; `store` is the store as it was found.
    ///
    /// Fails with `MissingId` without an id, with `NotInstalled` without a
    /// staged directory, and, where no value source is given, with
    /// `NoStoredValues` where the record holds none either (`NotFound` or
    /// `StoreUnreadable` where there is no record to ask).
    pub fn exec(&self, staged: bool, store: &StoreContents, always_pull: bool) -> (begun: Result<
        AddApplication,
        ComposerError,
    >)
        ensures
            match self.resolved(staged, *store) {
                UpgradeView::Begun(sources) => {
                    &&& begun matches Ok(machine)
                    &&& self.id matches Some(id)
                    &&& fresh(machine, id@, true, sources, self.directory@, always_pull)
                },
                UpgradeView::MissingId => begun matches Err(ComposerError::MissingId),
                UpgradeView::NotInstalled => {
                    &&& begun matches Err(ComposerError::NotInstalled { id: told })
                    &&& self.id matches Some(id)
                    &&& told@ == id@
                },
                UpgradeView::NoStoredValues => {
                    &&& begun matches Err(ComposerError::NoStoredValues { id: told })
                    &&& self.id matches Some(id)
                    &&& told@ == id@
                },
                UpgradeView::NotFound => {
                    &&& begun matches Err(ComposerError::NotFound { id: told })
                    &&& self.id matches Some(id)
                    &&& told@ == id@
                },
                UpgradeView::StoreUnreadable => begun matches Err(ComposerError::StoreUnreadable),
            },
    {
        let install_id = match &self.id {
            Some(id) => id,
            None => {
                return Err(ComposerError::MissingId);
            },
        };
        if !staged {
            return Err(ComposerError::NotInstalled { id: install_id.clone() });
        }
        if self.value_files.len() > 0 {
            return Ok(
                add_application(install_id, true, &self.value_files, &self.directory, always_pull),
            );
        }
        let application = match get_application_by_id(store, install_id.as_str()) {
            Ok(application) => application,
            Err(error) => {
                return Err(error);
            },
        };
        if application.value_files.len() == 0 {
            return Err(ComposerError::NoStoredValues { id: install_id.clone() });
        }
        Ok(
            add_application(
                install_id,
                true,
                &application.value_files,
                &self.directory,
                always_pull,
            ),
        )
    }
}

/// An upgrade without value sources of its own falls back on those of the
/// record, and fails where the record holds none either.
pub proof fn lemma_upgrade_falls_back(upgrade: Upgrade, store: StoreContents)
    requires
        upgrade.id is Some,
        upgrade.value_files@.len() == 0,
        store.records() is Some,
        found(store.records()->0, upgrade.id->0@) is Some,
    ensures
        ({
            let stored = found(store.records()->0, upgrade.id->0@)->0.value_files;
            upgrade.resolved(true, store) == if stored.len() == 0 {
                UpgradeView::NoStoredValues
            } else {
                UpgradeView::Begun(stored)
            }
        }),
{
}

} // verus!
