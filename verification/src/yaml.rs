//! The boundary to the YAML parser: text goes in, a [`Document`] comes out, and a
//! [`Document`] is handed back as the parser's own tree.
//!
//! Only single levels of a tree cross the boundary unverified; walking the
//! tree is verified on both ways.

use serde_yaml::value::{Tag, TaggedValue};
use serde_yaml::Value as Yaml;
use vstd::prelude::*;
use crate::values::{
    distinct_keys, items_view, lemma_view_mapping, lemma_view_sequence, Document, DocumentView,
    EntryView, Mapping, Number, NumberView,
};

verus! {

/// `serde_yaml::Value`, the parser's tree. Nothing is seen of its inside;
/// [`yaml_tree`] names what it holds.
#[verifier::external_type_specification]
#[verifier::external_body]
pub struct ExYamlValue(serde_yaml::Value);

/// `serde_yaml::Error`, the parser's failure. It is only passed on.
#[verifier::external_type_specification]
#[verifier::external_body]
pub struct ExYamlError(serde_yaml::Error);

/// The tree that a value of the parser holds.
pub uninterp spec fn yaml_tree(value: serde_yaml::Value) -> DocumentView;

/// The tree that the parser reads from `text`, or `None` where it rejects it.
pub uninterp spec fn yaml_parsed(text: Seq<char>) -> Option<DocumentView>;

/// One level of a parser tree, its children still in the parser's form.
pub enum YamlLevel<'a> {
    Null,
    Bool(bool),
    /// What `as_u64`, `as_i64` and `to_string` say of the number.
    Number(Option<u64>, Option<i64>, String),
    String(String),
    Sequence(Vec<&'a serde_yaml::Value>),
    Mapping(Vec<(&'a serde_yaml::Value, &'a serde_yaml::Value)>),
    Tagged(String, &'a serde_yaml::Value),
}

/// One level of a tree to build, its children already in the parser's form.
pub enum YamlParts {
    Null,
    Bool(bool),
    PosInt(u64),
    NegInt(i64),
    String(String),
    Sequence(Vec<serde_yaml::Value>),
    Mapping(Vec<(serde_yaml::Value, serde_yaml::Value)>),
    Tagged(String, serde_yaml::Value),
}

/// The tree that a level stands for.
pub open spec fn level_tree(level: YamlLevel) -> DocumentView {
    match level {
        YamlLevel::Null => DocumentView::Null,
        YamlLevel::Bool(b) => DocumentView::Bool(b),
        YamlLevel::Number(unsigned, signed, text) => DocumentView::Number(
            match (unsigned, signed) {
                (Some(u), _) => NumberView::Integer(u as int),
                (_, Some(i)) => NumberView::Integer(i as int),
                _ => NumberView::Float(text@),
            },
        ),
        YamlLevel::String(s) => DocumentView::String(s@),
        YamlLevel::Sequence(items) => DocumentView::Sequence(
            Seq::new(items@.len(), |i: int| yaml_tree(*items@[i])),
        ),
        YamlLevel::Mapping(entries) => DocumentView::Mapping(
            Seq::new(
                entries@.len(),
                |i: int| (yaml_tree(*entries@[i].0), yaml_tree(*entries@[i].1)),
            ),
        ),
        YamlLevel::Tagged(tag, inner) => DocumentView::Tagged(tag@, Box::new(yaml_tree(*inner))),
    }
}

/// The tree that a number is built to: an integer as it is, a float as the
/// parser reads its text (a null where it rejects the text).
pub open spec fn number_tree(number: NumberView) -> DocumentView {
    match number {
        NumberView::Integer(i) => DocumentView::Number(NumberView::Integer(i)),
        NumberView::Float(text) => match yaml_parsed(text) {
            Some(tree) => tree,
            None => DocumentView::Null,
        },
    }
}

/// The tree that parts stand for.
pub open spec fn parts_tree(parts: YamlParts) -> DocumentView {
    match parts {
        YamlParts::Null => DocumentView::Null,
        YamlParts::Bool(b) => DocumentView::Bool(b),
        YamlParts::PosInt(u) => DocumentView::Number(NumberView::Integer(u as int)),
        YamlParts::NegInt(i) => DocumentView::Number(NumberView::Integer(i as int)),
        YamlParts::String(s) => DocumentView::String(s@),
        YamlParts::Sequence(items) => DocumentView::Sequence(
            Seq::new(items@.len(), |i: int| yaml_tree(items@[i])),
        ),
        YamlParts::Mapping(entries) => DocumentView::Mapping(
            Seq::new(entries@.len(), |i: int| (yaml_tree(entries@[i].0), yaml_tree(entries@[i].1))),
        ),
        YamlParts::Tagged(tag, inner) => DocumentView::Tagged(tag@, Box::new(yaml_tree(inner))),
    }
}

/// A key that the parser compares as this library does: a null, a boolean, an
/// integer or a string.
pub open spec fn plain_key(key: DocumentView) -> bool {
    match key {
        DocumentView::Null => true,
        DocumentView::Bool(_) => true,
        DocumentView::Number(n) => n is Integer,
        DocumentView::String(_) => true,
        _ => false,
    }
}

/// A tag that the parser hands back as it was given: `!` and at least one more
/// character.
pub open spec fn plain_tag(tag: Seq<char>) -> bool {
    tag.len() >= 2 && tag[0] == '!'
}

/// The tag as the parser shows it: a plain tag as it is, any other with a `!`
/// put before it.
pub open spec fn shown_tag(tag: Seq<char>) -> Seq<char> {
    if plain_tag(tag) {
        tag
    } else {
        seq!['!'] + tag
    }
}

/// Entries that the parser keeps as they are: their keys are plain and distinct.
pub open spec fn kept_entries(entries: Seq<EntryView>) -> bool {
    &&& distinct_keys(entries)
    &&& forall|i: int| 0 <= i < entries.len() ==> plain_key((#[trigger] entries[i]).0)
}

/// The entries that the parser's mapping holds once these entries were put
/// into it in order: entries whose keys the parser takes for equal are
/// folded into one.
pub uninterp spec fn yaml_collected(entries: Seq<EntryView>) -> Seq<EntryView>;

/// The tree that the parser builds from parts.
pub open spec fn closed_tree(parts: YamlParts) -> DocumentView {
    match parts {
        YamlParts::Mapping(_) => DocumentView::Mapping(
            yaml_collected(parts_tree(parts)->Mapping_0),
        ),
        YamlParts::Tagged(tag, inner) => DocumentView::Tagged(
            shown_tag(tag@),
            Box::new(yaml_tree(inner)),
        ),
        _ => parts_tree(parts),
    }
}

/// `serde_yaml::from_str` at `serde_yaml::Value`. The contract gives the
/// result a name: the parser reads a text to the same tree every time, or
/// rejects it every time.
#[verifier::external_body]
fn yaml_from_str(text: &str) -> (parsed: Result<serde_yaml::Value, serde_yaml::Error>)
    ensures
        match parsed {
            Ok(value) => yaml_parsed(text@) == Some(yaml_tree(value)),
            Err(_) => yaml_parsed(text@) is None,
        },
{
    serde_yaml::from_str::<serde_yaml::Value>(text)
}

/// Takes apart one level of a `serde_yaml::Value`, variant by variant. Of a
/// number it hands on what `as_u64`, `as_i64` and `to_string` return: the
/// first two give the integer where the number is one, else the text stands
/// for the float. A tag is what `Tag`'s `to_string` writes; the children are
/// references, in order.
#[verifier::external_body]
fn yaml_open<'a>(value: &'a serde_yaml::Value) -> (level: YamlLevel<'a>)
    ensures
        level_tree(level) == yaml_tree(*value),
{
    match value {
        Yaml::Null => YamlLevel::Null,
        Yaml::Bool(b) => YamlLevel::Bool(*b),
        Yaml::Number(n) => YamlLevel::Number(n.as_u64(), n.as_i64(), n.to_string()),
        Yaml::String(s) => YamlLevel::String(s.clone()),
        Yaml::Sequence(items) => YamlLevel::Sequence(items.iter().collect()),
        Yaml::Mapping(entries) => YamlLevel::Mapping(entries.iter().collect()),
        Yaml::Tagged(t) => YamlLevel::Tagged(t.tag.to_string(), &t.value),
    }
}

/// Puts one level of a `serde_yaml::Value` together, variant by variant
/// (`Number::from` for an integer, `Mapping::from_iter`, `Tag::new`).
/// `Tag::new` stops on an empty tag, so the contract leaves that out; the tag
/// is then shown with a leading `!`. `Mapping::from_iter` folds keys that it
/// takes for equal into one: what it keeps has a name, and entries with
/// plain and distinct keys are kept as they are.
#[verifier::external_body]
fn yaml_close(parts: YamlParts) -> (value: serde_yaml::Value)
    requires
        parts matches YamlParts::Tagged(tag, _) ==> tag@.len() > 0,
    ensures
        parts is Mapping ==> yaml_tree(value) == DocumentView::Mapping(
            yaml_collected(parts_tree(parts)->Mapping_0),
        ),
        parts is Mapping && kept_entries(parts_tree(parts)->Mapping_0) ==> yaml_tree(value)
            == parts_tree(parts),
        !(parts is Mapping) ==> yaml_tree(value) == closed_tree(parts),
{
    match parts {
        YamlParts::Null => Yaml::Null,
        YamlParts::Bool(b) => Yaml::Bool(b),
        YamlParts::PosInt(u) => Yaml::Number(u.into()),
        YamlParts::NegInt(i) => Yaml::Number(i.into()),
        YamlParts::String(s) => Yaml::String(s),
        YamlParts::Sequence(items) => Yaml::Sequence(items),
        YamlParts::Mapping(entries) => Yaml::Mapping(entries.into_iter().collect()),
        YamlParts::Tagged(tag, value) => Yaml::Tagged(
            Box::new(TaggedValue { tag: Tag::new(tag), value }),
        ),
    }
}

/// The document that a value of the parser holds.
#[verifier::loop_isolation(false)]
pub fn value_from_yaml(value: &serde_yaml::Value) -> (document: Document)
    ensures
        document@ == yaml_tree(*value),
    decreases yaml_tree(*value),
{
    match yaml_open(value) {
        YamlLevel::Null => Document::Null,
        YamlLevel::Bool(b) => Document::Bool(b),
        YamlLevel::Number(unsigned, signed, text) => Document::Number(
            match (unsigned, signed) {
                (Some(u), _) => Number::PosInt(u),
                (_, Some(i)) => Number::NegInt(i),
                _ => Number::Float(text),
            },
        ),
        YamlLevel::String(s) => Document::String(s),
        YamlLevel::Sequence(items) => {
            let ghost trees = yaml_tree(*value)->Sequence_0;
            let mut converted: Vec<Document> = Vec::new();
            let mut i: usize = 0;
            while i < items.len()
                invariant
                    i <= items.len(),
                    converted.len() == i,
                    forall|j: int| 0 <= j < i ==> (#[trigger] converted[j])@ == trees[j],
                decreases items.len() - i,
            {
                assert(trees[i as int] == yaml_tree(*items@[i as int]));
                assert(decreases_to!(yaml_tree(*value) => trees));
                assert(decreases_to!(trees => trees[i as int]));
                let item = value_from_yaml(items[i]);
                converted.push(item);
                i += 1;
            }
            proof {
                lemma_view_sequence(converted);
                assert(items_view(converted@) =~= trees);
            }
            Document::Sequence(converted)
        },
        YamlLevel::Mapping(entries) => {
            let ghost trees = yaml_tree(*value)->Mapping_0;
            let mut converted: Vec<(Document, Document)> = Vec::new();
            let mut i: usize = 0;
            while i < entries.len()
                invariant
                    i <= entries.len(),
                    converted.len() == i,
                    forall|j: int|
                        0 <= j < i ==> ((#[trigger] converted[j]).0@, converted[j].1@) == trees[j],
                decreases entries.len() - i,
            {
                assert(trees[i as int] == (
                    yaml_tree(*entries@[i as int].0),
                    yaml_tree(*entries@[i as int].1),
                ));
                assert(decreases_to!(yaml_tree(*value) => trees));
                assert(decreases_to!(trees => trees[i as int]));
                assert(decreases_to!(trees[i as int] => trees[i as int].0));
                assert(decreases_to!(trees[i as int] => trees[i as int].1));
                let key = value_from_yaml(entries[i].0);
                let item = value_from_yaml(entries[i].1);
                converted.push((key, item));
                i += 1;
            }
            let mapping = Mapping { entries: converted };
            proof {
                lemma_view_mapping(mapping);
                assert(mapping@ =~= trees);
            }
            Document::Mapping(mapping)
        },
        YamlLevel::Tagged(tag, inner) => {
            assert(yaml_tree(*value) == DocumentView::Tagged(tag@, Box::new(yaml_tree(*inner))));
            let ghost whole = yaml_tree(*value);
            assert(decreases_to!(whole => whole->Tagged_1));
            assert(*whole->Tagged_1 == yaml_tree(*inner));
            let item = value_from_yaml(inner);
            Document::Tagged(tag, Box::new(item))
        },
    }
}

/// Reads a document from YAML text: `Some` document where the parser accepts
/// the text, `None` where it rejects it.
pub fn parse_document(text: &str) -> (document: Option<Document>)
    ensures
        match document {
            Some(value) => yaml_parsed(text@) == Some(value@),
            None => yaml_parsed(text@) is None,
        },
{
    match yaml_from_str(text) {
        Ok(value) => Some(value_from_yaml(&value)),
        Err(_) => None,
    }
}


/// Whether a document can be handed to the parser's form: no tag in it is empty.
pub open spec fn rebuildable(tree: DocumentView) -> bool
    decreases tree,
{
    match tree {
        DocumentView::Sequence(items) => forall|i: int|
            0 <= i < items.len() ==> rebuildable(#[trigger] items[i]),
        DocumentView::Mapping(entries) => forall|i: int|
            0 <= i < entries.len() ==> rebuildable((#[trigger] entries[i]).0) && rebuildable(
                entries[i].1,
            ),
        DocumentView::Tagged(tag, inner) => tag.len() > 0 && rebuildable(*inner),
        _ => true,
    }
}

/// The entries of a mapping, each key and value in the parser's form.
pub open spec fn rebuilt_entries(entries: Seq<EntryView>) -> Seq<EntryView>
    decreases entries, 0nat,
{
    Seq::new(
        entries.len(),
        |i: int|
            if 0 <= i < entries.len() {
                (rebuilt(entries[i].0), rebuilt(entries[i].1))
            } else {
                (DocumentView::Null, DocumentView::Null)
            },
    )
}

/// The tree that the parser's form of a document holds: the document itself,
/// but that its floats are read from their texts, its tags are shown as the
/// parser shows them, and the entries of a mapping are those that the
/// parser's mapping keeps.
pub open spec fn rebuilt(tree: DocumentView) -> DocumentView
    decreases tree, 1nat,
{
    match tree {
        DocumentView::Number(number) => number_tree(number),
        DocumentView::Sequence(items) => DocumentView::Sequence(
            Seq::new(
                items.len(),
                |i: int|
                    if 0 <= i < items.len() {
                        rebuilt(items[i])
                    } else {
                        DocumentView::Null
                    },
            ),
        ),
        DocumentView::Mapping(entries) => DocumentView::Mapping(
            yaml_collected(rebuilt_entries(entries)),
        ),
        DocumentView::Tagged(tag, inner) => DocumentView::Tagged(
            shown_tag(tag),
            Box::new(rebuilt(*inner)),
        ),
        _ => tree,
    }
}

/// Whether a document reaches the parser's form as it is: every mapping in
/// it has plain and distinct keys, no number is a float, and every tag is
/// plain.
pub open spec fn kept_as_is(tree: DocumentView) -> bool
    decreases tree,
{
    match tree {
        DocumentView::Number(number) => number is Integer,
        DocumentView::Sequence(items) => forall|i: int|
            0 <= i < items.len() ==> kept_as_is(#[trigger] items[i]),
        DocumentView::Mapping(entries) => kept_entries(entries) && forall|i: int|
            0 <= i < entries.len() ==> kept_as_is((#[trigger] entries[i]).1),
        DocumentView::Tagged(tag, inner) => plain_tag(tag) && kept_as_is(*inner),
        _ => true,
    }
}

/// A plain key is kept as it is.
pub proof fn lemma_plain_key_kept(key: DocumentView)
    requires
        plain_key(key),
    ensures
        kept_as_is(key),
        rebuildable(key),
        rebuilt(key) == key,
{
}

/// The parser's form of a document, or `None` where the document is not
/// [`rebuildable`]. A document that is [`kept_as_is`] reaches that form
/// unchanged.
#[verifier::loop_isolation(false)]
pub fn yaml_from_value(document: &Document) -> (value: Option<serde_yaml::Value>)
    ensures
        match value {
            Some(built) => rebuildable(document@) && yaml_tree(built) == rebuilt(document@),
            None => !rebuildable(document@),
        },
        kept_as_is(document@) ==> ({
            &&& value matches Some(built)
            &&& yaml_tree(built) == document@
        }),
    decreases document,
{
    match document {
        Document::Null => Some(yaml_close(YamlParts::Null)),
        Document::Bool(b) => Some(yaml_close(YamlParts::Bool(*b))),
        Document::Number(Number::PosInt(u)) => Some(yaml_close(YamlParts::PosInt(*u))),
        Document::Number(Number::NegInt(i)) => Some(yaml_close(YamlParts::NegInt(*i))),
        Document::Number(Number::Float(text)) => match yaml_from_str(text.as_str()) {
            Ok(read) => Some(read),
            Err(_) => Some(yaml_close(YamlParts::Null)),
        },
        Document::String(s) => Some(yaml_close(YamlParts::String(s.clone()))),
        Document::Sequence(items) => {
            proof {
                lemma_view_sequence(*items);
            }
            let ghost trees = items_view(items@);
            let mut built: Vec<serde_yaml::Value> = Vec::new();
            let mut i: usize = 0;
            while i < items.len()
                invariant
                    i <= items.len(),
                    built.len() == i,
                    forall|j: int| 0 <= j < i ==> rebuildable(#[trigger] trees[j]),
                    forall|j: int| 0 <= j < i ==> yaml_tree(#[trigger] built[j]) == rebuilt(trees[j]),
                    kept_as_is(document@) ==> forall|j: int|
                        0 <= j < i ==> yaml_tree(#[trigger] built[j]) == trees[j],
                decreases items.len() - i,
            {
                assert(decreases_to!(*items => items@));
                assert(decreases_to!(items@ => items@[i as int]));
                assert(trees[i as int] == items[i as int]@);
                match yaml_from_value(&items[i]) {
                    Some(item) => {
                        built.push(item);
                    },
                    None => {
                        return None;
                    },
                }
                i += 1;
            }
            let parts = YamlParts::Sequence(built);
            proof {
                assert(parts_tree(parts)->Sequence_0 =~= rebuilt(document@)->Sequence_0);
                if kept_as_is(document@) {
                    assert(parts_tree(parts)->Sequence_0 =~= trees);
                }
            }
            Some(yaml_close(parts))
        },
        Document::Mapping(mapping) => {
            proof {
                lemma_view_mapping(*mapping);
            }
            let ghost trees = mapping@;
            let mut built: Vec<(serde_yaml::Value, serde_yaml::Value)> = Vec::new();
            let mut i: usize = 0;
            while i < mapping.entries.len()
                invariant
                    i <= mapping.entries.len(),
                    built.len() == i,
                    forall|j: int|
                        0 <= j < i ==> rebuildable((#[trigger] trees[j]).0) && rebuildable(
                            trees[j].1,
                        ),
                    forall|j: int|
                        0 <= j < i ==> yaml_tree((#[trigger] built[j]).0) == rebuilt(trees[j].0)
                            && yaml_tree(built[j].1) == rebuilt(trees[j].1),
                    kept_as_is(document@) ==> forall|j: int|
                        0 <= j < i ==> yaml_tree((#[trigger] built[j]).0) == trees[j].0
                            && yaml_tree(built[j].1) == trees[j].1,
                decreases mapping.entries.len() - i,
            {
                assert(decreases_to!(mapping.entries => mapping.entries@));
                assert(decreases_to!(mapping.entries@ => mapping.entries@[i as int]));
                assert(trees[i as int] == (mapping.entries[i as int].0@, mapping.entries[i as int].1@));
                proof {
                    if kept_as_is(document@) {
                        lemma_plain_key_kept(trees[i as int].0);
                    }
                }
                let key = match yaml_from_value(&mapping.entries[i].0) {
                    Some(key) => key,
                    None => {
                        return None;
                    },
                };
                let item = match yaml_from_value(&mapping.entries[i].1) {
                    Some(item) => item,
                    None => {
                        return None;
                    },
                };
                built.push((key, item));
                i += 1;
            }
            let parts = YamlParts::Mapping(built);
            proof {
                assert(parts_tree(parts)->Mapping_0 =~= rebuilt_entries(trees));
                if kept_as_is(document@) {
                    assert(parts_tree(parts)->Mapping_0 =~= trees);
                }
            }
            Some(yaml_close(parts))
        },
        Document::Tagged(tag, inner) => {
            if tag.as_str().unicode_len() == 0 {
                return None;
            }
            match yaml_from_value(inner) {
                Some(item) => Some(yaml_close(YamlParts::Tagged(tag.clone(), item))),
                None => None,
            }
        },
    }
}

} // verus!
