//! Staging by patterns: every file is copied but those that a regular
//! expression matches.

use vstd::prelude::*;
use crate::copy_file_utils::{CopyStep, EntryKind};
use crate::error::ComposerError;
use crate::text::strings_view;

verus! {

/// Whether the regular expression `pattern` matches somewhere in `text`;
/// `None` where `pattern` is no regular expression.
pub uninterp spec fn regex_matches(pattern: Seq<char>, text: Seq<char>) -> Option<bool>;

/// Compiles `pattern` with `regex::Regex::new` and asks `Regex::is_match` of
/// `text`; `None` where the pattern does not compile. The contract gives the
/// result a name: a pattern and a text give the same answer every time.
#[verifier::external_body]
fn regex_is_match(pattern: &str, text: &str) -> (matched: Option<bool>)
    ensures
        matched == regex_matches(pattern@, text@),
{
    regex::Regex::new(pattern).ok().map(|compiled| compiled.is_match(text))
}

/// One entry of a source directory: its kind and its path.
#[derive(Debug)]
pub struct PathEntry {
    pub kind: EntryKind,
    pub path: String,
}

/// What holding `path` against the patterns from place `from` on comes to:
/// `Ok(true)` where none of them matches, `Ok(false)` at the first that
/// does, `Err` with the place of a pattern that is no regular expression
/// and comes before any match.
pub open spec fn passes(patterns: Seq<Seq<char>>, path: Seq<char>, from: int) -> Result<bool, int>
    decreases patterns.len() - from,
{
    if from < 0 || from >= patterns.len() {
        Ok(true)
    } else {
        match regex_matches(patterns[from], path) {
            None => Err(from),
            Some(true) => Ok(false),
            Some(false) => passes(patterns, path, from + 1),
        }
    }
}

/// Whether a file at `path` is copied: it is, unless one of the patterns
/// matches its path. Fails with `InvalidPattern` at a pattern that is no
/// regular expression.
pub fn should_copy(path: &str, regex_list: &Vec<String>) -> (copied: Result<bool, ComposerError>)
    ensures
        match passes(strings_view(regex_list@), path@, 0) {
            Ok(yes) => copied == Ok::<bool, ComposerError>(yes),
            Err(place) => {
                &&& copied matches Err(ComposerError::InvalidPattern { pattern })
                &&& 0 <= place < regex_list@.len()
                &&& pattern@ == regex_list@[place]@
            },
        },
{
    let ghost patterns = strings_view(regex_list@);
    let mut i: usize = 0;
    while i < regex_list.len()
        invariant
            i <= regex_list.len(),
            patterns == strings_view(regex_list@),
            passes(patterns, path@, 0) == passes(patterns, path@, i as int),
        decreases regex_list.len() - i,
    {
        match regex_is_match(regex_list[i].as_str(), path) {
            None => {
                return Err(ComposerError::InvalidPattern { pattern: regex_list[i].clone() });
            },
            Some(true) => {
                return Ok(false);
            },
            Some(false) => {},
        }
        i += 1;
    }
    Ok(true)
}

/// What is done with an entry when files are held against patterns.
pub open spec fn step_by_patterns(entry: PathEntry, patterns: Seq<Seq<char>>) -> Result<
    CopyStep,
    int,
> {
    match entry.kind {
        EntryKind::Directory => Ok(CopyStep::Descend),
        EntryKind::Other => Ok(CopyStep::Skip),
        EntryKind::File => match passes(patterns, entry.path@, 0) {
            Ok(true) => Ok(CopyStep::Copy),
            Ok(false) => Ok(CopyStep::Skip),
            Err(place) => Err(place),
        },
    }
}

/// What is done with the first `count` entries, in order; `Err` with the
/// place of the first entry that meets a pattern that is no regular expression.
pub open spec fn steps_by_patterns(
    entries: Seq<PathEntry>,
    patterns: Seq<Seq<char>>,
    count: nat,
) -> Result<Seq<CopyStep>, int>
    decreases count,
{
    if count == 0 || count > entries.len() {
        Ok(Seq::empty())
    } else {
        match steps_by_patterns(entries, patterns, (count - 1) as nat) {
            Ok(steps) => match step_by_patterns(entries[count - 1], patterns) {
                Ok(step) => Ok(steps.push(step)),
                Err(_) => Err(count - 1),
            },
            Err(place) => Err(place),
        }
    }
}

/// Once an entry is refused, more entries do not change the failure.
pub proof fn lemma_steps_stay_failed(
    entries: Seq<PathEntry>,
    patterns: Seq<Seq<char>>,
    count: nat,
    more: nat,
)
    requires
        count <= more <= entries.len(),
        steps_by_patterns(entries, patterns, count) is Err,
    ensures
        steps_by_patterns(entries, patterns, more) == steps_by_patterns(entries, patterns, count),
    decreases more,
{
    if more > count {
        lemma_steps_stay_failed(entries, patterns, count, (more - 1) as nat);
    }
}

/// What is done with each entry of one source directory, in the order of
/// the listing: a directory is always walked, a file is copied unless a
/// pattern matches its path. Fails with `InvalidPattern` at the first entry
/// that meets a pattern that is no regular expression.
pub fn copy_files_except_regex(entries: &Vec<PathEntry>, regex_list: &Vec<String>) -> (steps:
    Result<Vec<CopyStep>, ComposerError>)
    ensures
        match steps_by_patterns(entries@, strings_view(regex_list@), entries@.len()) {
            Ok(planned) => steps matches Ok(list) && list@ == planned,
            Err(place) => {
                &&& steps matches Err(ComposerError::InvalidPattern { pattern })
                &&& 0 <= place < entries@.len()
                &&& passes(strings_view(regex_list@), entries@[place].path@, 0) matches Err(at)
                &&& 0 <= at < regex_list@.len()
                &&& pattern@ == regex_list@[at]@
            },
        },
{
    let ghost patterns = strings_view(regex_list@);
    let mut list: Vec<CopyStep> = Vec::new();
    let mut i: usize = 0;
    while i < entries.len()
        invariant
            i <= entries.len(),
            patterns == strings_view(regex_list@),
            steps_by_patterns(entries@, patterns, i as nat) == Ok::<Seq<CopyStep>, int>(list@),
        decreases entries.len() - i,
    {
        let step = match entries[i].kind {
            EntryKind::Directory => CopyStep::Descend,
            EntryKind::Other => CopyStep::Skip,
            EntryKind::File => match should_copy(entries[i].path.as_str(), regex_list) {
                Ok(true) => CopyStep::Copy,
                Ok(false) => CopyStep::Skip,
                Err(error) => {
                    proof {
                        assert(step_by_patterns(entries@[i as int], patterns) is Err);
                        assert(steps_by_patterns(entries@, patterns, (i + 1) as nat) is Err);
                        lemma_steps_stay_failed(
                            entries@,
                            patterns,
                            (i + 1) as nat,
                            entries@.len(),
                        );
                    }
                    return Err(error);
                },
            },
        };
        list.push(step);
        i += 1;
    }
    Ok(list)
}

} // verus!
