//! What to hand to the container orchestrator, and what to make of its answer.
//!
//! Nothing here starts a program: each function says which command line is
//! to be run, or what an exit code means.

use vstd::prelude::*;
use crate::error::ComposerError;
use crate::text::{blank, is_blank, strings_view};
use crate::values::{key_index, lemma_view_mapping, lemma_view_sequence, Document, DocumentView};
use crate::yaml::{parse_document, yaml_parsed};

verus! {

/// The command line that brings a compose file up.
pub open spec fn up_command(path: Seq<char>) -> Seq<Seq<char>> {
    seq!["docker-compose"@, "-f"@, path, "up"@, "-d"@]
}

/// The command line that brings a compose file down.
pub open spec fn down_command(path: Seq<char>) -> Seq<Seq<char>> {
    seq!["docker-compose"@, "-f"@, path, "down"@]
}

/// The command line that pulls the images of a compose file.
pub open spec fn pull_command(path: Seq<char>) -> Seq<Seq<char>> {
    seq!["docker-compose"@, "-f"@, path, "pull"@, "--ignore-pull-failures"@]
}

/// The command line that asks the orchestrator for its version.
pub open spec fn version_command() -> Seq<Seq<char>> {
    seq!["docker-compose"@, "version"@]
}

/// A command line on one compose file: the program, `-f`, the path, then `words`.
fn compose_command(path: &str, first: &str, second: Option<&str>) -> (argv: Vec<String>)
    ensures
        strings_view(argv@) == match second {
            Some(word) => seq!["docker-compose"@, "-f"@, path@, first@, word@],
            None => seq!["docker-compose"@, "-f"@, path@, first@],
        },
{
    let mut argv: Vec<String> = Vec::new();
    argv.push(String::from_str("docker-compose"));
    argv.push(String::from_str("-f"));
    argv.push(path.to_string());
    argv.push(first.to_string());
    match second {
        Some(word) => {
            argv.push(word.to_string());
            assert(strings_view(argv@) =~= seq![
                "docker-compose"@,
                "-f"@,
                path@,
                first@,
                word@,
            ]);
        },
        None => {
            assert(strings_view(argv@) =~= seq!["docker-compose"@, "-f"@, path@, first@]);
        },
    }
    argv
}

/// The exit code of a program that ended: its own, or -1 where it has none.
pub fn unbuffered_command(status: Option<i32>) -> (exit_code: i32)
    ensures
        exit_code == match status {
            Some(code) => code,
            None => -1i32,
        },
{
    match status {
        Some(code) => code,
        None => -1,
    }
}

/// Whether a compose document names no service: it is empty (a null), or it
/// is a mapping that under `services` holds nothing, a null or an empty
/// sequence.
pub open spec fn no_services(tree: DocumentView) -> bool {
    match tree {
        DocumentView::Null => true,
        DocumentView::Mapping(entries) => match key_index(
            entries,
            DocumentView::String("services"@),
        ) {
            None => true,
            Some(i) => entries[i].1 is Null || (entries[i].1 matches DocumentView::Sequence(items)
                && items.len() == 0),
        },
        _ => false,
    }
}

/// What bringing up a compose file with these contents comes to: a failure,
/// nothing to do, or the command line to run.
pub enum UpView {
    Missing,
    Invalid,
    Skip,
    Run,
}

/// What bringing up a compose file with these contents comes to. A file
/// that holds nothing but white space is valid and passed over, like one
/// that names no service.
pub open spec fn up_decision(contents: Option<Seq<char>>) -> UpView {
    match contents {
        None => UpView::Missing,
        Some(text) => if blank(text) {
            UpView::Skip
        } else {
            match yaml_parsed(text) {
                None => UpView::Invalid,
                Some(tree) => if no_services(tree) {
                    UpView::Skip
                } else {
                    UpView::Run
                },
            }
        },
    }
}

/// Whether `error` is the failure that a compose file at `path` is refused with.
pub open spec fn up_failure(view: UpView, path: Seq<char>, error: ComposerError) -> bool {
    match view {
        UpView::Missing => error matches ComposerError::ComposeMissing { path: at } && at@ == path,
        UpView::Invalid => error matches ComposerError::ComposeInvalid { path: at } && at@ == path,
        _ => false,
    }
}

/// Checks a compose file: it must be there, and it must be YAML unless it
/// holds nothing but white space.
pub fn check_compose_is_valid(compose_path: &str, contents: Option<&str>) -> (checked: Result<
    (),
    ComposerError,
>)
    ensures
        match contents {
            None => checked matches Err(ComposerError::ComposeMissing { path }) && path@
                == compose_path@,
            Some(text) => if blank(text@) {
                checked is Ok
            } else if yaml_parsed(text@) is None {
                checked matches Err(ComposerError::ComposeInvalid { path }) && path@
                    == compose_path@
            } else {
                checked is Ok
            },
        },
{
    match contents {
        None => Err(ComposerError::ComposeMissing { path: compose_path.to_string() }),
        Some(text) => {
            if is_blank(text) {
                return Ok(());
            }
            match parse_document(text) {
                Some(_) => Ok(()),
                None => Err(ComposerError::ComposeInvalid { path: compose_path.to_string() }),
            }
        },
    }
}

/// Whether a compose file names no service: it holds nothing but white
/// space, or its document names none. A file that is not YAML counts as
/// naming some.
pub fn compose_has_no_services(contents: &str) -> (none: bool)
    ensures
        none == (blank(contents@) || match yaml_parsed(contents@) {
            Some(tree) => no_services(tree),
            None => false,
        }),
{
    if is_blank(contents) {
        return true;
    }
    match parse_document(contents) {
        Some(Document::Null) => true,
        Some(Document::Mapping(mapping)) => {
            proof {
                lemma_view_mapping(mapping);
            }
            let key = Document::String(String::from_str("services"));
            match mapping.get(&key) {
                None => true,
                Some(Document::Null) => true,
                Some(Document::Sequence(items)) => {
                    proof {
                        lemma_view_sequence(*items);
                    }
                    items.len() == 0
                },
                Some(_) => false,
            }
        },
        _ => false,
    }
}

/// Decides what bringing up the compose file at `path` takes: `Ok(None)`
/// where it names no service and is skipped, else the command line to run.
/// Fails where the file is missing or not YAML.
pub fn compose_up(path: &str, contents: Option<&str>) -> (decided: Result<
    Option<Vec<String>>,
    ComposerError,
>)
    ensures
        match up_decision(
            match contents {
                Some(text) => Some(text@),
                None => None,
            },
        ) {
            UpView::Skip => decided matches Ok(None),
            UpView::Run => decided matches Ok(Some(argv)) && strings_view(argv@) == up_command(
                path@,
            ),
            refused => decided matches Err(error) && up_failure(refused, path@, error),
        },
{
    match check_compose_is_valid(path, contents) {
        Ok(()) => {},
        Err(error) => {
            return Err(error);
        },
    }
    let text = match contents {
        Some(text) => text,
        None => {
            return Err(ComposerError::ComposeMissing { path: path.to_string() });
        },
    };
    if compose_has_no_services(text) {
        return Ok(None);
    }
    Ok(Some(compose_command(path, "up", Some("-d"))))
}

/// The command line that brings the compose file at `path` down.
pub fn compose_down(path: &str) -> (argv: Vec<String>)
    ensures
        strings_view(argv@) == down_command(path@),
{
    compose_command(path, "down", None)
}

/// The command line that pulls the images of the compose file at `path`,
/// passing over images that cannot be pulled.
pub fn compose_pull(path: &str) -> (argv: Vec<String>)
    ensures
        strings_view(argv@) == pull_command(path@),
{
    compose_command(path, "pull", Some("--ignore-pull-failures"))
}

/// The command line that asks the orchestrator for its version.
pub fn silent_run() -> (argv: Vec<String>)
    ensures
        strings_view(argv@) == version_command(),
{
    let mut argv: Vec<String> = Vec::new();
    argv.push(String::from_str("docker-compose"));
    argv.push(String::from_str("version"));
    assert(strings_view(argv@) =~= version_command());
    argv
}

/// Whether the orchestrator is installed, by the exit code of its version
/// command: 0 says that it is.
pub fn is_compose_installed(exit_code: i32) -> (installed: bool)
    ensures
        installed == (exit_code == 0),
{
    exit_code == 0
}

} // verus!
