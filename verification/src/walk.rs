//! Picking files out of a walk of a directory tree.

use vstd::prelude::*;
use crate::text::{last_char_at, same_text, strings_view};

verus! {

/// One entry that a walk came by: its path, its file name, and whether it is
/// a regular file.
#[derive(Debug)]
pub struct WalkEntry {
    pub path: String,
    pub file_name: String,
    pub is_file: bool,
}

/// The extension of a file name: what follows its last dot, unless the name
/// has no dot or its only dot stands first.
pub open spec fn extension_of(file_name: Seq<char>) -> Option<Seq<char>> {
    if exists|i: int| last_char_at(file_name, '.', i) {
        let i = choose|i: int| last_char_at(file_name, '.', i);
        if i == 0 {
            None
        } else {
            Some(file_name.subrange(i + 1, file_name.len() as int))
        }
    } else {
        None
    }
}

/// What files are looked for: those with an extension, or those with a name.
pub enum Pick {
    Extension(Seq<char>),
    Name(Seq<char>),
}

/// Whether a walk's entry is looked for: it is a regular file, and its
/// extension or its name is the one asked for.
pub open spec fn wanted(entry: WalkEntry, pick: Pick) -> bool {
    entry.is_file && match pick {
        Pick::Extension(extension) => extension_of(entry.file_name@) == Some(extension),
        Pick::Name(name) => entry.file_name@ == name,
    }
}

/// The paths among the first `count` entries that are looked for, in order.
pub open spec fn picked(entries: Seq<WalkEntry>, pick: Pick, count: nat) -> Seq<Seq<char>>
    decreases count,
{
    if count == 0 || count > entries.len() {
        Seq::empty()
    } else if wanted(entries[count - 1], pick) {
        picked(entries, pick, (count - 1) as nat).push(entries[count - 1].path@)
    } else {
        picked(entries, pick, (count - 1) as nat)
    }
}

/// Whether `file_name` has the extension `extension`.
pub fn has_extension(file_name: &str, extension: &str) -> (has: bool)
    ensures
        has == (extension_of(file_name@) == Some(extension@)),
{
    let len = file_name.unicode_len();
    let mut i: usize = len;
    while i > 0
        invariant
            i <= len,
            len == file_name@.len(),
            forall|j: int| i <= j < len ==> file_name@[j] != '.',
        decreases i,
    {
        i -= 1;
        if file_name.get_char(i) == '.' {
            proof {
                assert(last_char_at(file_name@, '.', i as int));
                let chosen = choose|k: int| last_char_at(file_name@, '.', k);
                if chosen < i {
                    assert(file_name@[i as int] != '.');
                }
                if i < chosen {
                    assert(file_name@[chosen] != '.');
                }
            }
            if i == 0 {
                return false;
            }
            return same_text(file_name.substring_char(i + 1, len), extension);
        }
    }
    proof {
        if exists|k: int| last_char_at(file_name@, '.', k) {
            let k = choose|k: int| last_char_at(file_name@, '.', k);
            assert(file_name@[k] != '.');
        }
    }
    false
}

/// The paths of the regular files with the given extension (written without
/// its dot) among what a walk came by, in the walk's order.
pub fn get_files_with_extension(entries: &Vec<WalkEntry>, extension: &str) -> (files: Vec<String>)
    ensures
        strings_view(files@) == picked(entries@, Pick::Extension(extension@), entries@.len()),
{
    let ghost pick = Pick::Extension(extension@);
    let mut files: Vec<String> = Vec::new();
    let mut i: usize = 0;
    assert(strings_view(files@) =~= picked(entries@, pick, 0));
    while i < entries.len()
        invariant
            i <= entries.len(),
            pick == Pick::Extension(extension@),
            strings_view(files@) == picked(entries@, pick, i as nat),
        decreases entries.len() - i,
    {
        let ghost before = strings_view(files@);
        if entries[i].is_file && has_extension(entries[i].file_name.as_str(), extension) {
            files.push(entries[i].path.clone());
            assert(strings_view(files@) =~= before.push(entries[i as int].path@));
        }
        i += 1;
    }
    files
}

/// The paths of the regular files with the given name among what a walk came
/// by, in the walk's order.
pub fn get_files_with_name(entries: &Vec<WalkEntry>, name: &str) -> (files: Vec<String>)
    ensures
        strings_view(files@) == picked(entries@, Pick::Name(name@), entries@.len()),
{
    let ghost pick = Pick::Name(name@);
    let mut files: Vec<String> = Vec::new();
    let mut i: usize = 0;
    assert(strings_view(files@) =~= picked(entries@, pick, 0));
    while i < entries.len()
        invariant
            i <= entries.len(),
            pick == Pick::Name(name@),
            strings_view(files@) == picked(entries@, pick, i as nat),
        decreases entries.len() - i,
    {
        let ghost before = strings_view(files@);
        if entries[i].is_file && same_text(entries[i].file_name.as_str(), name) {
            files.push(entries[i].path.clone());
            assert(strings_view(files@) =~= before.push(entries[i as int].path@));
        }
        i += 1;
    }
    files
}

} // verus!
