//! The application descriptor: the name and the version of a template.

use vstd::prelude::*;
use crate::error::ComposerError;
use crate::text::{decimal_text, integer_digits, integer_text};
use crate::values::{
    key_index, lemma_view_mapping, Document, DocumentView, Number, NumberView,
};
use crate::yaml::{parse_document, yaml_parsed};

verus! {

/// What a descriptor says of its application.
#[derive(Debug)]
pub struct AppYaml {
    pub name: String,
    pub version: String,
}

/// The text of a scalar: a string as it is, a number by its digits (a float
/// by the text that stands for it), a boolean as `true` or `false`. A null,
/// a sequence, a mapping and a tagged value have none.
pub open spec fn scalar_text(tree: DocumentView) -> Option<Seq<char>> {
    match tree {
        DocumentView::String(text) => Some(text),
        DocumentView::Number(NumberView::Integer(value)) => Some(integer_digits(value)),
        DocumentView::Number(NumberView::Float(text)) => Some(text),
        DocumentView::Bool(value) => Some(
            if value {
                "true"@
            } else {
                "false"@
            },
        ),
        _ => None,
    }
}

/// The text of the scalar that a mapping holds under `key`, if it holds one.
pub open spec fn string_under(tree: DocumentView, key: Seq<char>) -> Option<Seq<char>> {
    match tree {
        DocumentView::Mapping(entries) => match key_index(entries, DocumentView::String(key)) {
            Some(i) => scalar_text(entries[i].1),
            None => None,
        },
        _ => None,
    }
}

/// The name and the version that a descriptor's text gives, or `None` where
/// the text is not YAML, or no mapping, or lacks a scalar under one of the
/// two keys. Other keys are passed over.
pub open spec fn descriptor(text: Seq<char>) -> Option<(Seq<char>, Seq<char>)> {
    match yaml_parsed(text) {
        Some(tree) => match (string_under(tree, "name"@), string_under(tree, "version"@)) {
            (Some(name), Some(version)) => Some((name, version)),
            _ => None,
        },
        None => None,
    }
}

/// The text of a scalar.
fn text_of(document: &Document) -> (found: Option<String>)
    ensures
        match scalar_text(document@) {
            Some(text) => found matches Some(value) && value@ == text,
            None => found is None,
        },
{
    match document {
        Document::String(text) => Some(text.clone()),
        Document::Number(Number::PosInt(value)) => Some(decimal_text(*value)),
        Document::Number(Number::NegInt(value)) => Some(integer_text(*value)),
        Document::Number(Number::Float(text)) => Some(text.clone()),
        Document::Bool(value) => Some(
            if *value {
                String::from_str("true")
            } else {
                String::from_str("false")
            },
        ),
        _ => None,
    }
}

/// The text of the scalar that `document` holds under `key`.
fn string_at(document: &Document, key: &str) -> (found: Option<String>)
    ensures
        match string_under(document@, key@) {
            Some(text) => found matches Some(value) && value@ == text,
            None => found is None,
        },
{
    match document {
        Document::Mapping(mapping) => {
            proof {
                lemma_view_mapping(*mapping);
            }
            match mapping.get(&Document::String(key.to_string())) {
                Some(value) => text_of(value),
                None => None,
            }
        },
        _ => None,
    }
}

/// Reads a descriptor from the text of its file (`None` where the file could
/// not be read). The name and the version are read from any scalar, so that
/// `version: 2` gives the version `2`. Fails with `DescriptorUnreadable`
/// without a text, with `DescriptorInvalid` where the text gives no name and
/// version.
pub fn load_app_yaml(contents: Option<&str>) -> (loaded: Result<AppYaml, ComposerError>)
    ensures
        match contents {
            None => loaded matches Err(ComposerError::DescriptorUnreadable),
            Some(text) => match descriptor(text@) {
                Some((name, version)) => loaded matches Ok(app) && app.name@ == name
                    && app.version@ == version,
                None => loaded matches Err(ComposerError::DescriptorInvalid),
            },
        },
{
    let text = match contents {
        Some(text) => text,
        None => {
            return Err(ComposerError::DescriptorUnreadable);
        },
    };
    let document = match parse_document(text) {
        Some(document) => document,
        None => {
            return Err(ComposerError::DescriptorInvalid);
        },
    };
    match (string_at(&document, "name"), string_at(&document, "version")) {
        (Some(name), Some(version)) => Ok(AppYaml { name, version }),
        _ => Err(ComposerError::DescriptorInvalid),
    }
}

} // verus!
