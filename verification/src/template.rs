//! Rendering one template against the consolidated values.
//!
//! Before a template is rendered, the directory that holds it is put into the
//! values under the reserved key `composer`, whatever stood there.

use vstd::prelude::*;
use crate::error::ComposerError;
use crate::text::{absolute, directory_of, lemma_directory_is_absolute, parent_directory};
use crate::values::{
    lemma_view_mapping, with_entry, without_key, Document, DocumentView, EntryView, Mapping,
};
use crate::yaml::{rebuildable, rebuilt, yaml_from_value, yaml_tree};

verus! {

/// `minijinja::value::Value`, a value of the template engine. Nothing is
/// seen of its inside; [`jinja_undefined`] names whether it is undefined.
#[verifier::external_type_specification]
#[verifier::external_body]
pub struct ExJinjaValue(minijinja::value::Value);

/// `minijinja::Error`, the engine's failure. It is only passed on.
#[verifier::external_type_specification]
#[verifier::external_body]
pub struct ExJinjaError(minijinja::Error);

/// `minijinja::Output`, what the engine writes rendered text into. It is
/// only passed on.
#[verifier::external_type_specification]
#[verifier::external_body]
pub struct ExJinjaOutput<'a>(minijinja::Output<'a>);

/// `minijinja::State`, the engine's state while it renders. It is only
/// passed on.
#[verifier::external_type_specification]
#[verifier::external_body]
pub struct ExJinjaState<'template, 'env>(minijinja::State<'template, 'env>);

/// Whether a value of the engine is undefined: it stands for a reference
/// that has no value.
pub uninterp spec fn jinja_undefined(value: minijinja::value::Value) -> bool;

/// `minijinja::value::Value::is_undefined`.
#[verifier::external_body]
fn jinja_is_undefined(value: &minijinja::value::Value) -> (undefined: bool)
    ensures
        undefined == jinja_undefined(*value),
{
    value.is_undefined()
}

/// The error that the engine itself gives for an undefined value:
/// `minijinja::Error::from` of `ErrorKind::UndefinedError`.
#[verifier::external_body]
fn jinja_undefined_error() -> minijinja::Error {
    minijinja::Error::from(minijinja::ErrorKind::UndefinedError)
}

/// `minijinja::escape_formatter`, the engine's own way to write a value.
/// Nothing is promised of what it writes.
#[verifier::external_body]
fn jinja_escape(
    out: &mut minijinja::Output,
    state: &minijinja::State,
    value: &minijinja::value::Value,
) -> Result<(), minijinja::Error> {
    minijinja::escape_formatter(out, state, value)
}

/// Writes a value that a template prints. A reference that has no value,
/// and for which no default stands in, is not printed as nothing: it fails
/// the render.
fn print_value(
    out: &mut minijinja::Output,
    state: &minijinja::State,
    value: &minijinja::value::Value,
) -> (printed: Result<(), minijinja::Error>)
    ensures
        jinja_undefined(*value) ==> printed is Err,
{
    if jinja_is_undefined(value) {
        Err(jinja_undefined_error())
    } else {
        jinja_escape(out, state, value)
    }
}

/// What the template engine makes of a template and a context.
pub enum JinjaOutcome {
    /// The rendered text.
    Text(Seq<char>),
    /// The template does not compile, or cannot be rendered against the
    /// context; the engine's message.
    Failed(Seq<char>),
}

/// What the template engine makes of `template` and `context`.
pub uninterp spec fn jinja_rendered(template: Seq<char>, context: DocumentView) -> JinjaOutcome;

/// Compiles `template` with `minijinja::Environment::add_template` and
/// `get_template`, and renders it with `Template::render` against the
/// context made by `Value::from_serialize`. The engine is left as
/// `Environment::new` sets it up, so that a default can stand in for the
/// last part of a dotted path that is absent, but for one thing: values are
/// written by [`print_value`] (`set_formatter`), which refuses an undefined
/// one. The contract gives the result a name: the engine, as set up here,
/// makes the same of the same template and context every time. A failure
/// carries the message that the engine's error displays.
#[verifier::external_body]
fn render_jinja(template: &str, context: &serde_yaml::Value) -> (rendered: Result<String, String>)
    ensures
        jinja_rendered(template@, yaml_tree(*context)) == match rendered {
            Ok(text) => JinjaOutcome::Text(text@),
            Err(cause) => JinjaOutcome::Failed(cause@),
        },
{
    let mut env = minijinja::Environment::new();
    env.set_formatter(print_value);
    if let Err(e) = env.add_template("template", template) {
        return Err(e.to_string());
    }
    match env.get_template("template") {
        Ok(compiled) => compiled.render(minijinja::value::Value::from_serialize(context))
            .map_err(|e| e.to_string()),
        Err(e) => Err(e.to_string()),
    }
}

/// The reserved top-level key.
pub open spec fn composer_key() -> DocumentView {
    DocumentView::String("composer"@)
}

/// What is injected under the reserved key: the directory of the template.
pub open spec fn composer_globals(template_dir: Seq<char>) -> DocumentView {
    DocumentView::Mapping(
        seq![(DocumentView::String("cwd"@), DocumentView::String(template_dir))],
    )
}

/// The context that a template is rendered against: the values without what
/// they held under the reserved key, and the injected entry in its place.
/// `None` where the values are no mapping.
pub open spec fn template_context(values: DocumentView, template_dir: Seq<char>) -> Option<
    DocumentView,
> {
    match values {
        DocumentView::Mapping(entries) => Some(
            DocumentView::Mapping(
                with_entry(
                    without_key(entries, composer_key()),
                    composer_key(),
                    composer_globals(template_dir),
                ),
            ),
        ),
        _ => None,
    }
}

/// The injected values: a mapping with the reserved key alone.
pub fn get_global_variables(template_dir: &str) -> (globals: Document)
    ensures
        globals@ == DocumentView::Mapping(
            seq![(composer_key(), composer_globals(template_dir@))],
        ),
{
    let mut composer_mapping = Mapping::new();
    composer_mapping.insert(
        Document::String(String::from_str("cwd")),
        Document::String(template_dir.to_string()),
    );
    proof {
        crate::values::lemma_key_index_missing(
            Seq::<EntryView>::empty(),
            DocumentView::String("cwd"@),
        );
        lemma_view_mapping(composer_mapping);
    }
    let mut globals = Mapping::new();
    globals.insert(
        Document::String(String::from_str("composer")),
        Document::Mapping(composer_mapping),
    );
    proof {
        crate::values::lemma_key_index_missing(Seq::<EntryView>::empty(), composer_key());
        lemma_view_mapping(globals);
        assert(globals@ =~= seq![(composer_key(), composer_globals(template_dir@))]);
    }
    Document::Mapping(globals)
}

/// The values without what they hold under the reserved key. Values that are
/// no mapping are handed back as they are.
pub fn remove_composer_key(values: Document) -> (cleansed: Document)
    ensures
        cleansed@ == match values@ {
            DocumentView::Mapping(entries) => DocumentView::Mapping(
                without_key(entries, composer_key()),
            ),
            other => other,
        },
{
    match values {
        Document::Mapping(mut mapping) => {
            proof {
                lemma_view_mapping(mapping);
            }
            let key = Document::String(String::from_str("composer"));
            mapping.remove(&key);
            proof {
                lemma_view_mapping(mapping);
            }
            Document::Mapping(mapping)
        },
        other => other,
    }
}

/// `base` with every first `count` entries of `over` put in, in order: an
/// entry replaces the one under its key, or goes to the end.
pub open spec fn overridden(base: Seq<EntryView>, over: Seq<EntryView>, count: nat) -> Seq<
    EntryView,
>
    decreases count,
{
    if count == 0 || count > over.len() {
        base
    } else {
        with_entry(overridden(base, over, (count - 1) as nat), over[count - 1].0, over[count - 1].1)
    }
}

/// Puts the entries of `override_val` over those of `base`, entry by entry
/// and without merging below the top level. Fails with `ValuesNotMapping`
/// unless both are mappings.
pub fn merge_yaml(base: Document, override_val: Document) -> (merged: Result<
    Document,
    ComposerError,
>)
    ensures
        match (base@, override_val@) {
            (DocumentView::Mapping(a), DocumentView::Mapping(b)) => merged matches Ok(document)
                && document@ == DocumentView::Mapping(overridden(a, b, b.len())),
            _ => merged matches Err(ComposerError::ValuesNotMapping),
        },
{
    match (base, override_val) {
        (Document::Mapping(mut base_map), Document::Mapping(override_map)) => {
            proof {
                lemma_view_mapping(base_map);
                lemma_view_mapping(override_map);
            }
            let ghost start = base_map@;
            let mut i: usize = 0;
            while i < override_map.entries.len()
                invariant
                    i <= override_map.entries.len(),
                    base_map@ == overridden(start, override_map@, i as nat),
                decreases override_map.entries.len() - i,
            {
                let key = override_map.entries[i].0.duplicate();
                let value = override_map.entries[i].1.duplicate();
                assert(override_map@[i as int] == (key@, value@));
                base_map.insert(key, value);
                i += 1;
            }
            proof {
                lemma_view_mapping(base_map);
            }
            Ok(Document::Mapping(base_map))
        },
        _ => Err(ComposerError::ValuesNotMapping),
    }
}

/// What rendering comes to, over texts.
pub enum RenderView {
    Rendered(Seq<char>),
    ValuesNotMapping,
    UnsupportedValues,
    Failed(Seq<char>),
}

/// What rendering `template`, found in `template_dir`, against `values` comes to.
pub open spec fn rendering(template_dir: Seq<char>, template: Seq<char>, values: DocumentView) -> RenderView {
    match template_context(values, template_dir) {
        None => RenderView::ValuesNotMapping,
        Some(context) => if !rebuildable(context) {
            RenderView::UnsupportedValues
        } else {
            match jinja_rendered(template, rebuilt(context)) {
                JinjaOutcome::Text(text) => RenderView::Rendered(text),
                JinjaOutcome::Failed(cause) => RenderView::Failed(cause),
            }
        },
    }
}

/// Whether `error` is the failure that a rendering which came to `view` is
/// answered with, for the template at `path`.
pub open spec fn render_failure(view: RenderView, path: Seq<char>, error: ComposerError) -> bool {
    match view {
        RenderView::Rendered(_) => false,
        RenderView::ValuesNotMapping => error is ValuesNotMapping,
        RenderView::UnsupportedValues => {
            &&& error matches ComposerError::UnsupportedValues { path: at }
            &&& at@ == path
        },
        RenderView::Failed(cause) => {
            &&& error matches ComposerError::Render { path: at, cause: told }
            &&& at@ == path
            &&& told@ == cause
        },
    }
}

/// Renders the template at `path`, whose text is `template`, against
/// `values_yaml`. The path is absolute, and the directory that holds the
/// template, read off the path, is injected as `composer.cwd`, in place of
/// whatever the values held under `composer`.
///
/// Fails with `ValuesNotMapping` where the values are no mapping, with
/// `UnsupportedValues` where they hold an empty tag, and with `Render`,
/// which names the path and the engine's cause, where the template does not
/// compile or cannot be rendered; no partial output is ever returned.
pub fn render_template(path: &str, template: &str, values_yaml: Document) -> (rendered: Result<
    String,
    ComposerError,
>)
    requires
        absolute(path@),
    ensures
        absolute(directory_of(path@)),
        match rendering(directory_of(path@), template@, values_yaml@) {
            RenderView::Rendered(text) => rendered matches Ok(output) && output@ == text,
            other => rendered matches Err(error) && render_failure(other, path@, error),
        },
{
    proof {
        lemma_directory_is_absolute(path@);
    }
    let directory = parent_directory(path);
    let template_dir = directory.as_str();
    let global_vars = get_global_variables(template_dir);
    let cleansed_values = remove_composer_key(values_yaml);
    let merged_values = match merge_yaml(cleansed_values, global_vars) {
        Ok(merged) => merged,
        Err(error) => {
            return Err(error);
        },
    };
    proof {
        if values_yaml@ is Mapping {
            let cleansed = without_key(values_yaml@->Mapping_0, composer_key());
            let globals = seq![(composer_key(), composer_globals(template_dir@))];
            assert(overridden(cleansed, globals, 0) == cleansed);
            assert(overridden(cleansed, globals, 1) == with_entry(
                cleansed,
                composer_key(),
                composer_globals(template_dir@),
            ));
        }
    }
    let context = match yaml_from_value(&merged_values) {
        Some(context) => context,
        None => {
            return Err(ComposerError::UnsupportedValues { path: path.to_string() });
        },
    };
    match render_jinja(template, &context) {
        Ok(text) => Ok(text),
        Err(cause) => Err(ComposerError::Render { path: path.to_string(), cause }),
    }
}

/// Rendering is a function of the template, its directory and the values:
/// the same three give the same output, or the same failure, every time.
pub proof fn lemma_render_is_deterministic(
    template_dir: Seq<char>,
    template: Seq<char>,
    values: DocumentView,
    other_dir: Seq<char>,
    other_template: Seq<char>,
    other_values: DocumentView,
)
    requires
        template_dir == other_dir,
        template == other_template,
        values == other_values,
    ensures
        rendering(template_dir, template, values) == rendering(
            other_dir,
            other_template,
            other_values,
        ),
{
}

} // verus!
