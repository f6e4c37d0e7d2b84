//! Dotted assignments: `a.b.c=value` stands for a nested mapping with one
//! string leaf.

use vstd::prelude::*;
use crate::error::ComposerError;
use crate::text::{find_char, first_index, split, split_from, strings_view};
use crate::values::{lemma_view_mapping, Document, DocumentView, Mapping};

verus! {

/// `inner` below one single-entry mapping for each of `keys`, the first outermost.
pub open spec fn wrapped(keys: Seq<Seq<char>>, inner: DocumentView) -> DocumentView
    decreases keys.len(),
{
    if keys.len() == 0 {
        inner
    } else {
        DocumentView::Mapping(
            seq![(DocumentView::String(keys[0]), wrapped(keys.drop_first(), inner))],
        )
    }
}

/// The document that the assignment `key_path=value` stands for.
pub open spec fn assignment_document(key_path: Seq<char>, value: Seq<char>) -> DocumentView {
    wrapped(split(key_path, '.'), DocumentView::String(value))
}

/// The innermost key can be wrapped first.
pub proof fn lemma_wrapped_last(keys: Seq<Seq<char>>, last: Seq<char>, inner: DocumentView)
    ensures
        wrapped(keys.push(last), inner) == wrapped(
            keys,
            DocumentView::Mapping(seq![(DocumentView::String(last), inner)]),
        ),
    decreases keys.len(),
{
    if keys.len() == 0 {
        assert(keys.push(last).drop_first() =~= keys);
        assert(wrapped(keys.push(last), inner) == DocumentView::Mapping(
            seq![(DocumentView::String(last), wrapped(keys, inner))],
        ));
    } else {
        assert(keys.push(last).drop_first() =~= keys.drop_first().push(last));
        lemma_wrapped_last(keys.drop_first(), last, inner);
    }
}

/// Reads an assignment `x.y.z=foo`: the text before the first `=` is a path of
/// keys parted by dots, the text after it the string leaf.
///
/// Fails with `InvalidAssignment` where there is no `=`, with `MissingKey`
/// where nothing stands before it.
pub fn parse_yaml_string(yaml_str: &str) -> (parsed: Result<Document, ComposerError>)
    ensures
        match first_index(yaml_str@, '=') {
            None => parsed matches Err(ComposerError::InvalidAssignment { source })
                && source@ == yaml_str@,
            Some(i) => if i == 0 {
                parsed matches Err(ComposerError::MissingKey { source }) && source@ == yaml_str@
            } else {
                parsed matches Ok(document) && document@ == assignment_document(
                    yaml_str@.subrange(0, i),
                    yaml_str@.subrange(i + 1, yaml_str@.len() as int),
                )
            },
        },
{
    assert(yaml_str@.subrange(0, yaml_str@.len() as int) =~= yaml_str@);
    let len = yaml_str.unicode_len();
    let at = match find_char(yaml_str, 0, '=') {
        Some(at) => at,
        None => {
            return Err(ComposerError::InvalidAssignment { source: yaml_str.to_string() });
        },
    };
    if at == 0 {
        return Err(ComposerError::MissingKey { source: yaml_str.to_string() });
    }
    let key_path = yaml_str.substring_char(0, at);
    let value = yaml_str.substring_char(at + 1, len).to_string();
    assert(key_path@.subrange(0, key_path@.len() as int) =~= key_path@);
    let mut keys = split_from(key_path, 0, '.');
    let ghost all_keys = strings_view(keys@);
    let ghost leaf = DocumentView::String(value@);
    let mut document = Document::String(value);
    while keys.len() > 0
        invariant
            wrapped(strings_view(keys@), document@) == wrapped(all_keys, leaf),
        decreases keys.len(),
    {
        let ghost before = keys@;
        let ghost inner = document@;
        let key = keys.pop().unwrap();
        let mut entries: Vec<(Document, Document)> = Vec::new();
        entries.push((Document::String(key), document));
        let mapping = Mapping { entries };
        proof {
            lemma_view_mapping(mapping);
            assert(mapping@ =~= seq![(DocumentView::String(key@), inner)]);
            assert(strings_view(before) =~= strings_view(keys@).push(key@));
            lemma_wrapped_last(strings_view(keys@), key@, inner);
        }
        document = Document::Mapping(mapping);
    }
    assert(strings_view(keys@) =~= Seq::<Seq<char>>::empty());
    Ok(document)
}

} // verus!
