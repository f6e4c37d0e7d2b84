//! Consolidation of value sources: later sources are merged over earlier ones.

use vstd::prelude::*;
use crate::error::ComposerError;
use crate::text::{first_index, split};
use crate::values::{
    distinct_keys, first_at, items_view, key_index, lemma_key_index_found,
    lemma_key_index_is_first, lemma_key_index_missing, lemma_view_mapping, lemma_view_sequence,
    looked_up, Document, DocumentView, EntryView, Mapping,
};
use crate::yaml::{parse_document, yaml_parsed};
use crate::yaml_string_parser::{assignment_document, parse_yaml_string};

verus! {

/// What `incoming` makes of `existing`: two mappings merge key by key, two
/// sequences are joined, and in every other case `incoming` takes the place.
pub open spec fn merged_value(existing: DocumentView, incoming: DocumentView) -> DocumentView
    decreases incoming, 0nat,
{
    match (existing, incoming) {
        (DocumentView::Mapping(a), DocumentView::Mapping(b)) => DocumentView::Mapping(
            merged_entries(a, b, b.len()),
        ),
        (DocumentView::Sequence(a), DocumentView::Sequence(b)) => DocumentView::Sequence(a + b),
        _ => incoming,
    }
}

/// `existing` after one entry came in: a key that is there keeps its place and
/// its value is merged with `value`; a new key goes to the end.
pub open spec fn merged_entry(existing: Seq<EntryView>, key: DocumentView, value: DocumentView) -> Seq<
    EntryView,
>
    decreases value, 1nat,
{
    match key_index(existing, key) {
        Some(i) => existing.update(i, (existing[i].0, merged_value(existing[i].1, value))),
        None => existing.push((key, value)),
    }
}

/// `existing` after the first `count` entries of `incoming` came in, in order.
pub open spec fn merged_entries(
    existing: Seq<EntryView>,
    incoming: Seq<EntryView>,
    count: nat,
) -> Seq<EntryView>
    decreases incoming, count,
{
    if count == 0 || count > incoming.len() {
        existing
    } else {
        merged_entry(
            merged_entries(existing, incoming, (count - 1) as nat),
            incoming[count - 1].0,
            incoming[count - 1].1,
        )
    }
}

/// `existing` after all of `incoming` came in.
pub open spec fn merged_maps(existing: Seq<EntryView>, incoming: Seq<EntryView>) -> Seq<
    EntryView,
> {
    merged_entries(existing, incoming, incoming.len())
}

/// Merges `incoming` over `existing` and returns the result.
pub fn merge_value(existing: Document, incoming: Document) -> (merged: Document)
    ensures
        merged@ == merged_value(existing@, incoming@),
    decreases incoming@, 0nat,
{
    match (existing, incoming) {
        (Document::Mapping(mut a), Document::Mapping(b)) => {
            proof {
                lemma_view_mapping(a);
                lemma_view_mapping(b);
            }
            merge_maps(&mut a, b);
            proof {
                lemma_view_mapping(a);
            }
            Document::Mapping(a)
        },
        (Document::Sequence(mut a), Document::Sequence(mut b)) => {
            proof {
                lemma_view_sequence(a);
                lemma_view_sequence(b);
            }
            let ghost before = a@;
            let ghost added = b@;
            a.append(&mut b);
            proof {
                lemma_view_sequence(a);
                assert(items_view(a@) =~= items_view(before) + items_view(added));
            }
            Document::Sequence(a)
        },
        (_, incoming) => incoming,
    }
}

/// Merges every entry of `new_map` into `existing_map`, in order: mappings
/// merge key by key, sequences are joined, anything else is replaced.
#[verifier::loop_isolation(false)]
pub fn merge_maps(existing_map: &mut Mapping, new_map: Mapping)
    ensures
        final(existing_map)@ == merged_maps(old(existing_map)@, new_map@),
    decreases new_map@, new_map@.len(),
{
    let mut i: usize = 0;
    while i < new_map.entries.len()
        invariant
            i <= new_map.entries.len(),
            existing_map@ == merged_entries(old(existing_map)@, new_map@, i as nat),
        decreases new_map.entries.len() - i,
    {
        let key = new_map.entries[i].0.duplicate();
        let value = new_map.entries[i].1.duplicate();
        assert(new_map@[i as int] == (key@, value@));
        assert(decreases_to!(new_map@ => new_map@[i as int]));
        assert(decreases_to!(new_map@[i as int] => new_map@[i as int].1));
        merge_entry(existing_map, key, value);
        i += 1;
    }
}

/// Merges one entry into `existing_map`.
pub fn merge_entry(existing_map: &mut Mapping, key: Document, value: Document)
    ensures
        final(existing_map)@ == merged_entry(old(existing_map)@, key@, value@),
    decreases value@, 1nat,
{
    match existing_map.find(&key) {
        Some(i) => {
            let (kept, before) = existing_map.entries.remove(i);
            let merged = merge_value(before, value);
            existing_map.entries.insert(i, (kept, merged));
            assert(existing_map@ =~= merged_entry(old(existing_map)@, key@, value@));
        },
        None => {
            existing_map.entries.push((key, value));
            assert(existing_map@ =~= merged_entry(old(existing_map)@, key@, value@));
        },
    }
}


/// One value source: an assignment `x.y.z=foo`, or the path of a values file
/// together with the text read from it (`None` where it could not be read).
#[derive(Debug, Clone)]
pub struct ValueSource {
    pub source: String,
    pub contents: Option<String>,
}

/// Whether a source is an assignment: it is one as soon as it holds a `=`.
pub open spec fn is_assignment(source: Seq<char>) -> bool {
    first_index(source, '=') is Some
}

/// The sources as they were named, in order.
pub open spec fn source_names(sources: Seq<ValueSource>) -> Seq<Seq<char>> {
    Seq::new(sources.len(), |i: int| sources[i].source@)
}

/// Whether `sources` are the sources that `names` names, one for one and in
/// the same order.
pub fn sources_are(sources: &Vec<ValueSource>, names: &Vec<String>) -> (same: bool)
    ensures
        same == (source_names(sources@) == crate::text::strings_view(names@)),
{
    if sources.len() != names.len() {
        assert(source_names(sources@).len() != crate::text::strings_view(names@).len());
        return false;
    }
    let mut i: usize = 0;
    while i < sources.len()
        invariant
            i <= sources.len(),
            sources.len() == names.len(),
            forall|j: int| 0 <= j < i ==> sources@[j].source@ == names@[j]@,
        decreases sources.len() - i,
    {
        if !crate::text::same_text(sources[i].source.as_str(), names[i].as_str()) {
            assert(source_names(sources@)[i as int] != crate::text::strings_view(names@)[i as int]);
            return false;
        }
        i += 1;
    }
    assert(source_names(sources@) =~= crate::text::strings_view(names@));
    true
}

/// Whether a source is an assignment, so that no file is read for it.
pub fn source_is_assignment(source: &str) -> (assignment: bool)
    ensures
        assignment == is_assignment(source@),
{
    crate::text::contains_char(source, '=')
}

/// The top-level entries that a source contributes, or `None` where the
/// source is refused.
pub open spec fn source_entries(source: ValueSource) -> Option<Seq<EntryView>> {
    match first_index(source.source@, '=') {
        Some(i) => if i == 0 {
            None
        } else {
            Some(
                assignment_document(
                    source.source@.subrange(0, i),
                    source.source@.subrange(i + 1, source.source@.len() as int),
                )->Mapping_0,
            )
        },
        None => match source.contents {
            Some(text) => match yaml_parsed(text@) {
                Some(DocumentView::Mapping(entries)) => Some(entries),
                _ => None,
            },
            None => None,
        },
    }
}

/// Whether `error` is the failure that a refused source is answered with.
pub open spec fn source_error(source: ValueSource, error: ComposerError) -> bool {
    match first_index(source.source@, '=') {
        Some(i) => {
            &&& i == 0
            &&& error matches ComposerError::MissingKey { source: text }
            &&& text@ == source.source@
        },
        None => match source.contents {
            Some(text) => match yaml_parsed(text@) {
                Some(DocumentView::Mapping(_)) => false,
                Some(_) => error is TopLevelNotMapping,
                None => error matches ComposerError::ParseError { path } && path@
                    == source.source@,
            },
            None => error matches ComposerError::FileNotFound { path } && path@
                == source.source@,
        },
    }
}

/// The entries that the first `count` sources consolidate to, later sources
/// merged over earlier ones; `Err` with the place of the first refused source.
pub open spec fn consolidated(sources: Seq<ValueSource>, count: nat) -> Result<
    Seq<EntryView>,
    int,
>
    decreases count,
{
    if count == 0 || count > sources.len() {
        Ok(Seq::empty())
    } else {
        match consolidated(sources, (count - 1) as nat) {
            Ok(entries) => match source_entries(sources[count - 1]) {
                Some(incoming) => Ok(merged_maps(entries, incoming)),
                None => Err(count - 1),
            },
            Err(place) => Err(place),
        }
    }
}

/// An assignment stands for a mapping.
pub proof fn lemma_assignment_is_mapping(key_path: Seq<char>, value: Seq<char>)
    ensures
        assignment_document(key_path, value) is Mapping,
{
    assert(split(key_path, '.').len() > 0);
}

/// Reads one source: an assignment by itself, a values file from its text.
pub fn read_yaml_file(source: &ValueSource) -> (read: Result<Mapping, ComposerError>)
    ensures
        match source_entries(*source) {
            Some(entries) => read matches Ok(mapping) && mapping@ == entries,
            None => read matches Err(error) && source_error(*source, error),
        },
{
    if source_is_assignment(source.source.as_str()) {
        match parse_yaml_string(source.source.as_str()) {
            Ok(document) => {
                proof {
                    let i = first_index(source.source@, '=')->0;
                    lemma_assignment_is_mapping(
                        source.source@.subrange(0, i),
                        source.source@.subrange(i + 1, source.source@.len() as int),
                    );
                }
                match document {
                    Document::Mapping(mapping) => {
                        proof {
                            lemma_view_mapping(mapping);
                        }
                        Ok(mapping)
                    },
                    _ => Err(ComposerError::TopLevelNotMapping),
                }
            },
            Err(error) => Err(error),
        }
    } else {
        match &source.contents {
            None => Err(ComposerError::FileNotFound { path: source.source.clone() }),
            Some(text) => match parse_document(text.as_str()) {
                None => Err(ComposerError::ParseError { path: source.source.clone() }),
                Some(Document::Mapping(mapping)) => {
                    proof {
                        lemma_view_mapping(mapping);
                    }
                    Ok(mapping)
                },
                Some(_) => Err(ComposerError::TopLevelNotMapping),
            },
        }
    }
}

/// Consolidates the sources, in order, into one document: each source is
/// merged over what came before it, so later sources win.
///
/// Fails at the first source that is refused: `MissingKey` for an assignment
/// without a key, `FileNotFound` for a file that could not be read,
/// `ParseError` for one that is not YAML, `TopLevelNotMapping` for one whose
/// top level is no mapping.
pub fn load_yaml_files(yaml_files: &Vec<ValueSource>) -> (loaded: Result<Document, ComposerError>)
    ensures
        match consolidated(yaml_files@, yaml_files@.len()) {
            Ok(entries) => loaded matches Ok(document) && document@ == DocumentView::Mapping(
                entries,
            ),
            Err(place) => {
                &&& 0 <= place < yaml_files@.len()
                &&& loaded matches Err(error)
                &&& source_error(yaml_files@[place], error)
            },
        },
{
    let mut yaml_values = Mapping::new();
    let mut i: usize = 0;
    while i < yaml_files.len()
        invariant
            i <= yaml_files.len(),
            consolidated(yaml_files@, i as nat) == Ok::<Seq<EntryView>, int>(yaml_values@),
        decreases yaml_files.len() - i,
    {
        match read_yaml_file(&yaml_files[i]) {
            Ok(mapping) => {
                merge_maps(&mut yaml_values, mapping);
            },
            Err(error) => {
                proof {
                    lemma_consolidated_stays_failed(yaml_files@, (i + 1) as nat, yaml_files@.len());
                }
                return Err(error);
            },
        }
        i += 1;
    }
    proof {
        lemma_view_mapping(yaml_values);
    }
    Ok(Document::Mapping(yaml_values))
}

/// Once a source is refused, more sources do not change the failure.
pub proof fn lemma_consolidated_stays_failed(sources: Seq<ValueSource>, count: nat, more: nat)
    requires
        count <= more <= sources.len(),
        consolidated(sources, count) is Err,
    ensures
        consolidated(sources, more) == consolidated(sources, count),
    decreases more,
{
    if more > count {
        lemma_consolidated_stays_failed(sources, count, (more - 1) as nat);
    }
}

/// The sources as borrowed texts, in order.
pub fn get_value_files_as_refs(strings: &Vec<String>) -> (refs: Vec<&str>)
    ensures
        refs@.len() == strings@.len(),
        forall|i: int| 0 <= i < refs@.len() ==> refs@[i]@ == strings@[i]@,
{
    let mut refs: Vec<&str> = Vec::new();
    let mut i: usize = 0;
    while i < strings.len()
        invariant
            i <= strings.len(),
            refs@.len() == i,
            forall|j: int| 0 <= j < i ==> refs@[j]@ == strings@[j]@,
        decreases strings.len() - i,
    {
        refs.push(strings[i].as_str());
        i += 1;
    }
    refs
}


/// What is found under a key once an entry with that key came in: the
/// incoming value merged over the one that was there, or the incoming value
/// itself where the key is new.
pub open spec fn merged_over(before: Option<DocumentView>, incoming: DocumentView) -> DocumentView {
    match before {
        Some(existing) => merged_value(existing, incoming),
        None => incoming,
    }
}

/// After an entry came in, its key holds the merged value.
pub proof fn lemma_merged_entry_found(
    existing: Seq<EntryView>,
    key: DocumentView,
    value: DocumentView,
)
    ensures
        looked_up(merged_entry(existing, key, value), key) == Some(
            merged_over(looked_up(existing, key), value),
        ),
{
    lemma_key_index_is_first(existing, key);
    let after = merged_entry(existing, key, value);
    match key_index(existing, key) {
        Some(i) => {
            assert(first_at(after, key, i));
            lemma_key_index_found(after, key, i);
        },
        None => {
            assert(first_at(after, key, existing.len() as int)) by {
                assert forall|j: int| 0 <= j < existing.len() implies (#[trigger] after[j]).0
                    != key by {
                    assert(after[j] == existing[j]);
                }
            }
            lemma_key_index_found(after, key, existing.len() as int);
        },
    }
}

/// An entry that comes in leaves every other key as it was.
pub proof fn lemma_merged_entry_keeps_others(
    existing: Seq<EntryView>,
    key: DocumentView,
    value: DocumentView,
    other: DocumentView,
)
    requires
        other != key,
    ensures
        looked_up(merged_entry(existing, key, value), other) == looked_up(existing, other),
{
    lemma_key_index_is_first(existing, key);
    lemma_key_index_is_first(existing, other);
    let after = merged_entry(existing, key, value);
    match key_index(existing, other) {
        Some(i) => {
            assert(first_at(after, other, i)) by {
                assert forall|j: int| 0 <= j < i implies (#[trigger] after[j]).0 != other by {
                    assert(after[j].0 == existing[j].0);
                }
            }
            lemma_key_index_found(after, other, i);
        },
        None => {
            assert forall|j: int| 0 <= j < after.len() implies (#[trigger] after[j]).0
                != other by {
                if j < existing.len() {
                    assert(after[j].0 == existing[j].0);
                }
            }
            lemma_key_index_missing(after, other);
        },
    }
}

/// An entry that comes in leaves the keys distinct.
pub proof fn lemma_merged_entry_distinct(
    existing: Seq<EntryView>,
    key: DocumentView,
    value: DocumentView,
)
    requires
        distinct_keys(existing),
    ensures
        distinct_keys(merged_entry(existing, key, value)),
{
    lemma_key_index_is_first(existing, key);
    let after = merged_entry(existing, key, value);
    assert forall|i: int, j: int| 0 <= i < j < after.len() implies (#[trigger] after[i]).0 != (
    #[trigger] after[j]).0 by {
        if j < existing.len() {
            assert(after[i].0 == existing[i].0 && after[j].0 == existing[j].0);
        } else {
            assert(after[i].0 == existing[i].0);
        }
    }
}

/// Merging leaves the keys of a mapping distinct.
pub proof fn lemma_merged_entries_distinct(
    existing: Seq<EntryView>,
    incoming: Seq<EntryView>,
    count: nat,
)
    requires
        distinct_keys(existing),
    ensures
        distinct_keys(merged_entries(existing, incoming, count)),
    decreases count,
{
    if count > 0 && count <= incoming.len() {
        lemma_merged_entries_distinct(existing, incoming, (count - 1) as nat);
        lemma_merged_entry_distinct(
            merged_entries(existing, incoming, (count - 1) as nat),
            incoming[count - 1].0,
            incoming[count - 1].1,
        );
    }
}

/// A key that is not among the first `count` incoming keys is as it was
/// after they came in.
pub proof fn lemma_merged_entries_keep_others(
    existing: Seq<EntryView>,
    incoming: Seq<EntryView>,
    count: nat,
    other: DocumentView,
)
    requires
        count <= incoming.len(),
        forall|j: int| 0 <= j < count ==> (#[trigger] incoming[j]).0 != other,
    ensures
        looked_up(merged_entries(existing, incoming, count), other) == looked_up(existing, other),
    decreases count,
{
    if count > 0 {
        lemma_merged_entries_keep_others(existing, incoming, (count - 1) as nat, other);
        lemma_merged_entry_keeps_others(
            merged_entries(existing, incoming, (count - 1) as nat),
            incoming[count - 1].0,
            incoming[count - 1].1,
            other,
        );
    }
}

/// The later source wins: after a mapping with distinct keys was merged in,
/// each of its keys holds its value merged over what was there before. So a
/// scalar takes the place of what was there, a mapping is merged key by key
/// into a mapping, and a sequence is joined to a sequence.
pub proof fn lemma_later_source_wins(
    existing: Seq<EntryView>,
    incoming: Seq<EntryView>,
    place: int,
)
    requires
        distinct_keys(incoming),
        0 <= place < incoming.len(),
    ensures
        looked_up(merged_maps(existing, incoming), incoming[place].0) == Some(
            merged_over(looked_up(existing, incoming[place].0), incoming[place].1),
        ),
{
    let key = incoming[place].0;
    lemma_merged_entries_keep_others(existing, incoming, place as nat, key);
    lemma_merged_entry_found(
        merged_entries(existing, incoming, place as nat),
        key,
        incoming[place].1,
    );
    lemma_merged_later_entries_keep(existing, incoming, place, incoming.len());
}

/// Entries that come in after the one at `place` leave its key as it is.
proof fn lemma_merged_later_entries_keep(
    existing: Seq<EntryView>,
    incoming: Seq<EntryView>,
    place: int,
    count: nat,
)
    requires
        distinct_keys(incoming),
        0 <= place < count <= incoming.len(),
    ensures
        looked_up(merged_entries(existing, incoming, count), incoming[place].0) == looked_up(
            merged_entries(existing, incoming, (place + 1) as nat),
            incoming[place].0,
        ),
    decreases count,
{
    if count > place + 1 {
        lemma_merged_later_entries_keep(existing, incoming, place, (count - 1) as nat);
        lemma_merged_entry_keeps_others(
            merged_entries(existing, incoming, (count - 1) as nat),
            incoming[count - 1].0,
            incoming[count - 1].1,
            incoming[place].0,
        );
    }
}

/// What the kinds of two values make of a merge: a value that is neither a
/// mapping nor a sequence takes the place of anything, and so does any value
/// over one of another kind; two sequences are joined.
pub proof fn lemma_merge_by_kind(existing: DocumentView, incoming: DocumentView)
    ensures
        !(incoming is Mapping) && !(incoming is Sequence) ==> merged_value(existing, incoming)
            == incoming,
        incoming is Mapping && !(existing is Mapping) ==> merged_value(existing, incoming)
            == incoming,
        incoming is Sequence && !(existing is Sequence) ==> merged_value(existing, incoming)
            == incoming,
        existing is Sequence && incoming is Sequence ==> merged_value(existing, incoming)
            == DocumentView::Sequence(existing->Sequence_0 + incoming->Sequence_0),
        existing is Mapping && incoming is Mapping ==> merged_value(existing, incoming)
            == DocumentView::Mapping(merged_maps(existing->Mapping_0, incoming->Mapping_0)),
{
}


/// Whether `key` stands among the first `count` keys of `entries`.
pub open spec fn key_among(entries: Seq<EntryView>, count: int, key: DocumentView) -> bool {
    exists|j: int| 0 <= j < count && j < entries.len() && (#[trigger] entries[j]).0 == key
}

/// After an entry came in, the keys are those that were there and its own.
pub proof fn lemma_merged_entry_keys(
    existing: Seq<EntryView>,
    key: DocumentView,
    value: DocumentView,
    other: DocumentView,
)
    ensures
        looked_up(merged_entry(existing, key, value), other) is Some <==> (looked_up(
            existing,
            other,
        ) is Some || other == key),
{
    if other == key {
        lemma_merged_entry_found(existing, key, value);
    } else {
        lemma_merged_entry_keeps_others(existing, key, value, other);
    }
}

/// After a mapping was merged in, the keys are those that were there and
/// those that came in: no key is lost and none is made up.
pub proof fn lemma_merged_keys(
    existing: Seq<EntryView>,
    incoming: Seq<EntryView>,
    count: nat,
    other: DocumentView,
)
    requires
        count <= incoming.len(),
    ensures
        looked_up(merged_entries(existing, incoming, count), other) is Some <==> (looked_up(
            existing,
            other,
        ) is Some || key_among(incoming, count as int, other)),
    decreases count,
{
    if count > 0 {
        lemma_merged_keys(existing, incoming, (count - 1) as nat, other);
        lemma_merged_entry_keys(
            merged_entries(existing, incoming, (count - 1) as nat),
            incoming[count - 1].0,
            incoming[count - 1].1,
            other,
        );
        if key_among(incoming, count as int, other) {
            let j = choose|j: int|
                0 <= j < count && j < incoming.len() && (#[trigger] incoming[j]).0 == other;
            if j < count - 1 {
                assert(key_among(incoming, count - 1, other));
            }
        }
        if key_among(incoming, count - 1, other) {
            let j = choose|j: int|
                0 <= j < count - 1 && j < incoming.len() && (#[trigger] incoming[j]).0 == other;
            assert(incoming[j].0 == other);
        }
        if incoming[count - 1].0 == other {
            assert(key_among(incoming, count as int, other));
        }
    }
}

/// Whether a source has `key` at its top level.
pub open spec fn source_has_key(source: ValueSource, key: DocumentView) -> bool {
    match source_entries(source) {
        Some(entries) => key_among(entries, entries.len() as int, key),
        None => false,
    }
}

/// Whether one of the first `count` sources has `key` at its top level.
pub open spec fn key_in_sources(sources: Seq<ValueSource>, count: int, key: DocumentView) -> bool {
    exists|s: int| 0 <= s < count && s < sources.len() && source_has_key(#[trigger] sources[s], key)
}

/// The top-level keys of the consolidated document are those of its
/// sources: a key stands in the result exactly where a source has it.
pub proof fn lemma_consolidated_keys(sources: Seq<ValueSource>, count: nat, key: DocumentView)
    requires
        count <= sources.len(),
        consolidated(sources, count) is Ok,
    ensures
        looked_up(consolidated(sources, count)->Ok_0, key) is Some <==> key_in_sources(
            sources,
            count as int,
            key,
        ),
    decreases count,
{
    if count == 0 {
        lemma_key_index_missing(Seq::<EntryView>::empty(), key);
    } else {
        let before = consolidated(sources, (count - 1) as nat);
        lemma_consolidated_keys(sources, (count - 1) as nat, key);
        let incoming = source_entries(sources[count - 1])->0;
        lemma_merged_keys(before->Ok_0, incoming, incoming.len(), key);
        if key_in_sources(sources, count as int, key) {
            let s = choose|s: int|
                0 <= s < count && s < sources.len() && source_has_key(#[trigger] sources[s], key);
            if s < count - 1 {
                assert(key_in_sources(sources, count - 1, key));
            }
        }
        if key_in_sources(sources, count - 1, key) {
            let s = choose|s: int|
                0 <= s < count - 1 && s < sources.len() && source_has_key(
                    #[trigger] sources[s],
                    key,
                );
            assert(source_has_key(sources[s], key));
        }
        if key_among(incoming, incoming.len() as int, key) {
            assert(source_has_key(sources[count - 1], key));
            assert(key_in_sources(sources, count as int, key));
        }
    }
}

} // verus!
