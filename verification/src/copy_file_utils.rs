//! Staging: which entries of a template tree are copied.
//!
//! Directories are always created and walked, whether or not an ignore rule
//! matches them; only files are held against the rules.

use vstd::prelude::*;

verus! {

/// What an entry of a directory is.
#[derive(Clone, Copy, Debug, PartialEq, Eq, Structural)]
pub enum EntryKind {
    Directory,
    File,
    Other,
}

/// What is done with an entry.
#[derive(Clone, Copy, Debug, PartialEq, Eq, Structural)]
pub enum CopyStep {
    /// Create the directory at the destination and stage what is in it.
    Descend,
    /// Copy the file byte for byte.
    Copy,
    /// Leave the entry out.
    Skip,
}

/// One entry of a source directory: its kind, and what the ignore rules say
/// of it (`None` where they could not say, or where there are none).
#[derive(Clone, Copy, Debug, PartialEq, Eq, Structural)]
pub struct SourceEntry {
    pub kind: EntryKind,
    pub excluded: Option<bool>,
}

/// What is done with an entry: a directory is always walked; a file is left
/// out only where rules are in use and exclude it; anything else is left out.
pub open spec fn step_for(entry: SourceEntry, use_rules: bool) -> CopyStep {
    match entry.kind {
        EntryKind::Directory => CopyStep::Descend,
        EntryKind::File => if use_rules && entry.excluded == Some(true) {
            CopyStep::Skip
        } else {
            CopyStep::Copy
        },
        EntryKind::Other => CopyStep::Skip,
    }
}

/// What is done with one entry.
pub fn copy_step(entry: &SourceEntry, use_rules: bool) -> (step: CopyStep)
    ensures
        step == step_for(*entry, use_rules),
{
    match entry.kind {
        EntryKind::Directory => CopyStep::Descend,
        EntryKind::File => {
            let should_skip = match entry.excluded {
                Some(excluded) => excluded,
                None => false,
            };
            if !use_rules || !should_skip {
                CopyStep::Copy
            } else {
                CopyStep::Skip
            }
        },
        EntryKind::Other => CopyStep::Skip,
    }
}

/// What is done with each entry of one source directory, in the order of
/// the listing. Without rules every file is copied.
pub fn copy_files_with_ignorefile(entries: &Vec<SourceEntry>, use_rules: bool) -> (steps: Vec<
    CopyStep,
>)
    ensures
        steps@.len() == entries@.len(),
        forall|i: int| 0 <= i < entries@.len() ==> steps@[i] == step_for(entries@[i], use_rules),
        !use_rules ==> forall|i: int|
            0 <= i < entries@.len() && entries@[i].kind == EntryKind::File ==> steps@[i]
                == CopyStep::Copy,
{
    let mut steps: Vec<CopyStep> = Vec::new();
    let mut i: usize = 0;
    while i < entries.len()
        invariant
            i <= entries.len(),
            steps@.len() == i,
            forall|j: int| 0 <= j < i ==> steps@[j] == step_for(entries@[j], use_rules),
        decreases entries.len() - i,
    {
        steps.push(copy_step(&entries[i], use_rules));
        i += 1;
    }
    steps
}

} // verus!
