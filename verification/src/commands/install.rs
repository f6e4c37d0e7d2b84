//! Installing an application, step by step.
//!
//! The work outside the library (reading files, copying the tree, writing
//! the store, running the orchestrator) is not done here. [`AddApplication`]
//! says what is to be done next, is told how it went, and decides from that.

use vstd::prelude::*;
use crate::app_yaml::{descriptor, load_app_yaml};
use crate::docker_compose::{
    compose_pull, compose_up, pull_command, up_command, up_decision, up_failure, UpView,
};
use crate::error::ComposerError;
use crate::load_values::{
    consolidated, load_yaml_files, source_error, source_names, sources_are, ValueSource,
};
use crate::storage::models::{ApplicationState, PersistedApplication};
use crate::template::{render_failure, render_template, rendering, RenderView};
use crate::text::{absolute, clone_strings, directory_of, is_absolute, strings_view};
use crate::values::{Document, DocumentView};
use crate::walk::{get_files_with_extension, get_files_with_name, picked, Pick, WalkEntry};

verus! {

/// Where an install or upgrade stands: what it waits to hear of.
#[derive(Clone, Copy, Debug, PartialEq, Eq, Structural)]
pub enum Phase {
    /// Nothing was asked for yet.
    Start,
    /// The staged directory of the upgraded application is being removed.
    Removing,
    /// The values files are being read.
    Sources,
    /// The template directory is being looked at.
    Probe,
    /// The template tree is being copied.
    Staging,
    /// The descriptor is being read.
    Descriptor,
    /// The record is being written with state `STARTING`.
    Starting,
    /// The staged tree is being walked for templates.
    Templates,
    /// The template of this place is being read.
    TemplateText(usize),
    /// The template of this place is being replaced by what it rendered to.
    Replacing(usize),
    /// The staged tree is being walked for compose files.
    ComposeFiles,
    /// The images of the compose file of this place are being pulled.
    Pulling(usize),
    /// The compose file of this place is being read.
    ComposeText(usize),
    /// The compose file of this place is being brought up.
    Up(usize),
    /// The record is being set to `ERROR` after this exit code.
    Failing(i32),
    /// The record is being written with state `RUNNING`.
    Running,
    /// Nothing is left to do.
    Finished,
}

/// What was found at the template directory.
#[derive(Debug)]
pub struct TemplateProbe {
    pub exists: bool,
    pub descriptor_path: String,
    pub has_descriptor: bool,
    pub compose_path: String,
    pub has_compose: bool,
    pub has_ignore: bool,
}

/// How the last action went.
#[derive(Debug)]
pub enum Event {
    /// Nothing was asked for yet.
    Begin,
    /// It was done.
    Done,
    /// It failed.
    Failed(ComposerError),
    /// The sources, each file with the text read from it.
    Sources(Vec<ValueSource>),
    /// What was found at the template directory.
    Probed(TemplateProbe),
    /// The text of the file, or `None` where it could not be read.
    Text(Option<String>),
    /// The text of the template.
    Template { text: String },
    /// What the walk of the staged tree came by.
    Walked(Vec<WalkEntry>),
    /// The program ended with this code.
    Exit(i32),
}

/// How an install or upgrade ended.
#[derive(Debug)]
pub enum Outcome {
    Done,
    Failed(ComposerError),
    /// The orchestrator failed; the tool ends with its exit code.
    Exit(i32),
}

/// What is to be done next.
#[derive(Debug)]
pub enum Action {
    /// Remove the staged directory of the application.
    RemoveStaged,
    /// Read the files among these sources.
    ReadSources(Vec<String>),
    /// Look at the template directory.
    ProbeTemplate,
    /// Create the staged directory and copy the template tree into it, with
    /// or without the ignore file at its root.
    Stage { use_ignore: bool },
    /// Read the descriptor in the staged directory.
    ReadDescriptor,
    /// Write this record to the store, in place of any with its id.
    Persist(PersistedApplication),
    /// Walk the staged tree.
    WalkStaged,
    /// Read the template at this path. The directory that is injected into
    /// it is read off the path, so the walk is to give absolute paths: a
    /// template whose path is not absolute is not rendered.
    ReadTemplate(String),
    /// Remove the file at this path and write this content in its place.
    Replace { path: String, content: String },
    /// Read the file at this path.
    ReadFile(String),
    /// Run this command line.
    Run(Vec<String>),
    /// Set the state of the application's record.
    SetState(ApplicationState),
    /// Stop.
    Finish(Outcome),
}

impl Action {
    /// Whether the action changes the file system, the store or the containers.
    pub open spec fn mutates(self) -> bool {
        match self {
            Action::RemoveStaged => true,
            Action::Stage { .. } => true,
            Action::Persist(_) => true,
            Action::Replace { .. } => true,
            Action::Run(_) => true,
            Action::SetState(_) => true,
            _ => false,
        }
    }
}

/// An install or upgrade under way.
#[derive(Debug)]
pub struct AddApplication {
    pub phase: Phase,
    pub install_id: String,
    pub is_upgrade: bool,
    pub values_files: Vec<String>,
    pub directory: String,
    pub always_pull: bool,
    /// The consolidated values, once the sources are read.
    pub values: Document,
    /// The name and the version from the descriptor, once it is read.
    pub app_name: String,
    pub version: String,
    /// When the record was first written, in seconds since 1970.
    pub timestamp: i64,
    /// The staged templates, once the tree is walked.
    pub templates: Vec<String>,
    /// The staged compose files, once the tree is walked.
    pub compose_files: Vec<String>,
}

/// The seconds since 1970 by `std::time::SystemTime::now`, or 0 where the
/// clock stands before 1970. Nothing is promised of the result.
#[verifier::external_body]
fn get_current_timestamp() -> i64 {
    std::time::SystemTime::now().duration_since(std::time::UNIX_EPOCH).map(
        |d| d.as_secs() as i64,
    ).unwrap_or(0)
}

/// An install or upgrade that has not begun.
pub fn add_application(
    install_id: &String,
    is_upgrade: bool,
    values_files: &Vec<String>,
    directory: &String,
    always_pull: bool,
) -> (machine: AddApplication)
    ensures
        fresh(
            machine,
            install_id@,
            is_upgrade,
            strings_view(values_files@),
            directory@,
            always_pull,
        ),
{
    let machine = AddApplication {
        phase: Phase::Start,
        install_id: install_id.clone(),
        is_upgrade,
        values_files: clone_strings(values_files),
        directory: directory.clone(),
        always_pull,
        values: Document::Null,
        app_name: String::new(),
        version: String::new(),
        timestamp: 0,
        templates: Vec::new(),
        compose_files: Vec::new(),
    };
    assert(machine.app_name@ =~= Seq::<char>::empty());
    machine
}

/// Whether a machine has not begun: it holds what it was given, and
/// nothing else yet.
pub open spec fn fresh(
    machine: AddApplication,
    install_id: Seq<char>,
    is_upgrade: bool,
    values_files: Seq<Seq<char>>,
    directory: Seq<char>,
    always_pull: bool,
) -> bool {
    &&& machine.phase == Phase::Start
    &&& machine.install_id@ == install_id
    &&& machine.is_upgrade == is_upgrade
    &&& strings_view(machine.values_files@) == values_files
    &&& machine.directory@ == directory
    &&& machine.always_pull == always_pull
    &&& machine.values@ == DocumentView::Null
    &&& machine.app_name@ == Seq::<char>::empty()
    &&& machine.version@ == Seq::<char>::empty()
    &&& machine.timestamp == 0
    &&& machine.templates@.len() == 0
    &&& machine.compose_files@.len() == 0
}

/// The machine has stopped because it was told what it did not wait for.
pub open spec fn failed_with(after: AddApplication, action: Action) -> bool {
    after.phase == Phase::Finished && action == Action::Finish(
        Outcome::Failed(ComposerError::UnexpectedAnswer),
    )
}

/// What the machine was given and what it has gathered are as before.
pub open spec fn same_data(before: AddApplication, after: AddApplication) -> bool {
    &&& after.install_id == before.install_id
    &&& after.is_upgrade == before.is_upgrade
    &&& after.values_files == before.values_files
    &&& after.directory == before.directory
    &&& after.always_pull == before.always_pull
    &&& after.values == before.values
    &&& after.app_name == before.app_name
    &&& after.version == before.version
    &&& after.timestamp == before.timestamp
    &&& after.templates == before.templates
    &&& after.compose_files == before.compose_files
}

/// The record that the machine writes with `state`: the id, the descriptor's
/// name and version, the template directory, and, with `RUNNING`, the value
/// sources; before that it holds none.
pub open spec fn record_of(machine: AddApplication, state: ApplicationState) -> crate::storage::models::ApplicationView {
    crate::storage::models::ApplicationView {
        id: machine.install_id@,
        version: machine.version@,
        timestamp: machine.timestamp,
        state: state,
        app_name: machine.app_name@,
        compose_path: machine.directory@,
        value_files: if state == ApplicationState::RUNNING {
            strings_view(machine.values_files@)
        } else {
            Seq::empty()
        },
    }
}

/// The sources are asked for: without value sources the machine stops with
/// `NoValues`, else it asks for the sources to be read.
pub open spec fn reads(before: AddApplication, after: AddApplication, action: Action) -> bool {
    &&& same_data(before, after)
    &&& if before.values_files@.len() == 0 {
        &&& after.phase == Phase::Finished
        &&& action matches Action::Finish(Outcome::Failed(ComposerError::NoValues { upgrade }))
        &&& upgrade == before.is_upgrade
    } else {
        &&& after.phase == Phase::Sources
        &&& action matches Action::ReadSources(sources)
        &&& strings_view(sources@) == strings_view(before.values_files@)
    }
}

/// The check that opens the work: without value sources the machine stops
/// with `NoValues` before anything is changed. With them, an upgrade has the
/// staged directory removed, and an install asks for the sources to be read.
pub open spec fn opens(before: AddApplication, after: AddApplication, action: Action) -> bool {
    if before.is_upgrade && before.values_files@.len() > 0 {
        &&& same_data(before, after)
        &&& after.phase == Phase::Removing
        &&& action is RemoveStaged
    } else {
        reads(before, after, action)
    }
}

/// The compose files from place `next` on are brought up: where none is
/// left the record is written with `RUNNING`, else the next file is read.
pub open spec fn brings_up(
    before: AddApplication,
    next: int,
    after: AddApplication,
    action: Action,
) -> bool {
    &&& same_data(before, after)
    &&& if next >= before.compose_files@.len() {
        &&& after.phase == Phase::Running
        &&& action matches Action::Persist(record)
        &&& record@ == record_of(before, ApplicationState::RUNNING)
    } else {
        &&& after.phase == Phase::ComposeText(next as usize)
        &&& action matches Action::ReadFile(path)
        &&& path@ == before.compose_files@[next]@
    }
}

/// The templates from place `next` on are rendered: where none is left the
/// tree is walked for compose files, else the next template is read.
pub open spec fn renders(
    before: AddApplication,
    next: int,
    after: AddApplication,
    action: Action,
) -> bool {
    &&& same_data(before, after)
    &&& if next >= before.templates@.len() {
        &&& after.phase == Phase::ComposeFiles
        &&& action is WalkStaged
    } else {
        &&& after.phase == Phase::TemplateText(next as usize)
        &&& action matches Action::ReadTemplate(path)
        &&& path@ == before.templates@[next]@
    }
}

/// The sources were read: they must be the machine's own value sources, one
/// for one and in order, else the answer is not the one waited for. They are
/// consolidated, and the template directory is looked at; a refused source
/// stops the machine with its failure.
pub open spec fn after_sources(
    before: AddApplication,
    sources: Vec<ValueSource>,
    after: AddApplication,
    action: Action,
) -> bool {
    &&& after.install_id == before.install_id
    &&& after.is_upgrade == before.is_upgrade
    &&& after.values_files == before.values_files
    &&& after.directory == before.directory
    &&& after.always_pull == before.always_pull
    &&& after.app_name == before.app_name
    &&& after.version == before.version
    &&& after.timestamp == before.timestamp
    &&& after.templates == before.templates
    &&& after.compose_files == before.compose_files
    &&& if source_names(sources@) != strings_view(before.values_files@) {
        &&& after.values == before.values
        &&& failed_with(after, action)
    } else {
        match consolidated(sources@, sources@.len()) {
            Ok(entries) => {
                &&& after.phase == Phase::Probe
                &&& after.values@ == DocumentView::Mapping(entries)
                &&& action is ProbeTemplate
            },
            Err(place) => {
                &&& after.phase == Phase::Finished
                &&& after.values == before.values
                &&& action matches Action::Finish(Outcome::Failed(error))
                &&& source_error(sources@[place], error)
            },
        }
    }
}

/// The template directory was looked at: it must be there and hold the
/// descriptor and a compose file; then the tree is staged.
pub open spec fn after_probe(
    before: AddApplication,
    probe: TemplateProbe,
    after: AddApplication,
    action: Action,
) -> bool {
    &&& same_data(before, after)
    &&& if !probe.exists {
        &&& after.phase == Phase::Finished
        &&& action matches Action::Finish(
            Outcome::Failed(ComposerError::TemplateDirectoryMissing { directory }),
        )
        &&& directory@ == before.directory@
    } else if !probe.has_descriptor {
        &&& after.phase == Phase::Finished
        &&& action matches Action::Finish(
            Outcome::Failed(ComposerError::MissingFile { name, path }),
        )
        &&& name@ == "app.yaml"@
        &&& path@ == probe.descriptor_path@
    } else if !probe.has_compose {
        &&& after.phase == Phase::Finished
        &&& action matches Action::Finish(
            Outcome::Failed(ComposerError::MissingFile { name, path }),
        )
        &&& name@ == "docker-compose.jinja2"@
        &&& path@ == probe.compose_path@
    } else {
        &&& after.phase == Phase::Staging
        &&& action == (Action::Stage { use_ignore: probe.has_ignore })
    }
}

/// The descriptor was read: its name and version go into the record, which
/// is written with `STARTING`.
pub open spec fn after_descriptor(
    before: AddApplication,
    contents: Option<String>,
    after: AddApplication,
    action: Action,
) -> bool {
    &&& after.install_id == before.install_id
    &&& after.is_upgrade == before.is_upgrade
    &&& after.values_files == before.values_files
    &&& after.directory == before.directory
    &&& after.always_pull == before.always_pull
    &&& after.values == before.values
    &&& after.templates == before.templates
    &&& after.compose_files == before.compose_files
    &&& match contents {
        None => {
            &&& same_data(before, after)
            &&& after.phase == Phase::Finished
            &&& action matches Action::Finish(
                Outcome::Failed(ComposerError::DescriptorUnreadable),
            )
        },
        Some(text) => match descriptor(text@) {
            None => {
                &&& same_data(before, after)
                &&& after.phase == Phase::Finished
                &&& action matches Action::Finish(
                    Outcome::Failed(ComposerError::DescriptorInvalid),
                )
            },
            Some((name, version)) => {
                &&& after.phase == Phase::Starting
                &&& after.app_name@ == name
                &&& after.version@ == version
                &&& action matches Action::Persist(record)
                &&& record@ == record_of(after, ApplicationState::STARTING)
            },
        },
    }
}

/// The staged tree was walked for templates: those with the extension
/// `jinja2` are rendered, in the walk's order.
pub open spec fn after_templates(
    before: AddApplication,
    entries: Vec<WalkEntry>,
    after: AddApplication,
    action: Action,
) -> bool {
    &&& after.install_id == before.install_id
    &&& after.is_upgrade == before.is_upgrade
    &&& after.values_files == before.values_files
    &&& after.directory == before.directory
    &&& after.always_pull == before.always_pull
    &&& after.values == before.values
    &&& after.app_name == before.app_name
    &&& after.version == before.version
    &&& after.timestamp == before.timestamp
    &&& after.compose_files == before.compose_files
    &&& strings_view(after.templates@) == picked(
        entries@,
        Pick::Extension("jinja2"@),
        entries@.len(),
    )
    &&& if after.templates@.len() == 0 {
        &&& after.phase == Phase::ComposeFiles
        &&& action is WalkStaged
    } else {
        &&& after.phase == Phase::TemplateText(0)
        &&& action matches Action::ReadTemplate(path)
        &&& path@ == after.templates@[0]@
    }
}

/// A template was read: its path must be absolute, else the answer is not
/// one that was waited for. It is rendered against the values, with the
/// directory that its path names injected, and what it rendered to is to
/// take its place; a failure stops the machine.
pub open spec fn after_template_text(
    before: AddApplication,
    place: usize,
    text: String,
    after: AddApplication,
    action: Action,
) -> bool {
    &&& same_data(before, after)
    &&& if place >= before.templates@.len() || !absolute(before.templates@[place as int]@) {
        failed_with(after, action)
    } else {
        match rendering(
            directory_of(before.templates@[place as int]@),
            text@,
            before.values@,
        ) {
            RenderView::Rendered(output) => {
                &&& after.phase == Phase::Replacing(place)
                &&& action matches Action::Replace { path, content }
                &&& path@ == before.templates@[place as int]@
                &&& content@ == output
            },
            other => {
                &&& after.phase == Phase::Finished
                &&& action matches Action::Finish(Outcome::Failed(error))
                &&& render_failure(other, before.templates@[place as int]@, error)
            },
        }
    }
}

/// The staged tree was walked for compose files: those named
/// `docker-compose.jinja2` are pulled, where that is asked for, and brought up.
pub open spec fn after_compose_files(
    before: AddApplication,
    entries: Vec<WalkEntry>,
    after: AddApplication,
    action: Action,
) -> bool {
    &&& after.install_id == before.install_id
    &&& after.is_upgrade == before.is_upgrade
    &&& after.values_files == before.values_files
    &&& after.directory == before.directory
    &&& after.always_pull == before.always_pull
    &&& after.values == before.values
    &&& after.app_name == before.app_name
    &&& after.version == before.version
    &&& after.timestamp == before.timestamp
    &&& after.templates == before.templates
    &&& strings_view(after.compose_files@) == picked(
        entries@,
        Pick::Name("docker-compose.jinja2"@),
        entries@.len(),
    )
    &&& if before.always_pull && after.compose_files@.len() > 0 {
        &&& after.phase == Phase::Pulling(0)
        &&& action matches Action::Run(argv)
        &&& strings_view(argv@) == pull_command(after.compose_files@[0]@)
    } else {
        brings_up(after, 0, after, action)
    }
}

/// A pull ended: whatever its exit code, the next compose file is pulled,
/// and after the last one the files are brought up.
pub open spec fn after_pull(
    before: AddApplication,
    place: usize,
    after: AddApplication,
    action: Action,
) -> bool {
    if place + 1 < before.compose_files@.len() {
        &&& same_data(before, after)
        &&& after.phase == Phase::Pulling((place + 1) as usize)
        &&& action matches Action::Run(argv)
        &&& strings_view(argv@) == pull_command(before.compose_files@[place + 1]@)
    } else {
        brings_up(before, 0, after, action)
    }
}

/// A compose file was read: one that names no service is passed over, any
/// other is brought up; a file that is missing or not YAML stops the
/// machine.
pub open spec fn after_compose_text(
    before: AddApplication,
    place: usize,
    contents: Option<String>,
    after: AddApplication,
    action: Action,
) -> bool {
    if place >= before.compose_files@.len() {
        same_data(before, after) && failed_with(after, action)
    } else {
        match up_decision(
            match contents {
                Some(text) => Some(text@),
                None => None,
            },
        ) {
            UpView::Skip => brings_up(before, place + 1, after, action),
            UpView::Run => {
                &&& same_data(before, after)
                &&& after.phase == Phase::Up(place)
                &&& action matches Action::Run(argv)
                &&& strings_view(argv@) == up_command(before.compose_files@[place as int]@)
            },
            refused => {
                &&& same_data(before, after)
                &&& after.phase == Phase::Finished
                &&& action matches Action::Finish(Outcome::Failed(error))
                &&& up_failure(refused, before.compose_files@[place as int]@, error)
            },
        }
    }
}

/// A compose file was brought up: after exit code 0 the next one follows;
/// any other code has the record set to `ERROR` and nothing more brought up.
pub open spec fn after_up(
    before: AddApplication,
    place: usize,
    code: i32,
    after: AddApplication,
    action: Action,
) -> bool {
    if code == 0 {
        brings_up(before, place + 1, after, action)
    } else {
        &&& same_data(before, after)
        &&& after.phase == Phase::Failing(code)
        &&& action == Action::SetState(ApplicationState::ERROR)
    }
}

/// What one step comes to: how the machine is left and what it asks for,
/// given how it stood and what it was told.
pub open spec fn step_spec(
    before: AddApplication,
    event: Event,
    after: AddApplication,
    action: Action,
) -> bool {
    match (before.phase, event) {
        (Phase::Finished, _) => same_data(before, after) && failed_with(after, action),
        (_, Event::Failed(error)) => {
            &&& same_data(before, after)
            &&& after.phase == Phase::Finished
            &&& action == Action::Finish(Outcome::Failed(error))
        },
        (Phase::Start, Event::Begin) => opens(before, after, action),
        (Phase::Removing, Event::Done) => reads(before, after, action),
        (Phase::Sources, Event::Sources(sources)) => after_sources(
            before,
            sources,
            after,
            action,
        ),
        (Phase::Probe, Event::Probed(probe)) => after_probe(before, probe, after, action),
        (Phase::Staging, Event::Done) => {
            &&& same_data(before, after)
            &&& after.phase == Phase::Descriptor
            &&& action is ReadDescriptor
        },
        (Phase::Descriptor, Event::Text(contents)) => after_descriptor(
            before,
            contents,
            after,
            action,
        ),
        (Phase::Starting, Event::Done) => {
            &&& same_data(before, after)
            &&& after.phase == Phase::Templates
            &&& action is WalkStaged
        },
        (Phase::Templates, Event::Walked(entries)) => after_templates(
            before,
            entries,
            after,
            action,
        ),
        (Phase::TemplateText(place), Event::Template { text }) => after_template_text(
            before,
            place,
            text,
            after,
            action,
        ),
        (Phase::Replacing(place), Event::Done) => {
            if place >= before.templates@.len() {
                same_data(before, after) && failed_with(after, action)
            } else {
                renders(before, place + 1, after, action)
            }
        },
        (Phase::ComposeFiles, Event::Walked(entries)) => after_compose_files(
            before,
            entries,
            after,
            action,
        ),
        (Phase::Pulling(place), Event::Exit(_)) => after_pull(before, place, after, action),
        (Phase::ComposeText(place), Event::Text(contents)) => after_compose_text(
            before,
            place,
            contents,
            after,
            action,
        ),
        (Phase::Up(place), Event::Exit(code)) => after_up(before, place, code, after, action),
        (Phase::Failing(code), Event::Done) => {
            &&& same_data(before, after)
            &&& after.phase == Phase::Finished
            &&& action == Action::Finish(Outcome::Exit(code))
        },
        (Phase::Running, Event::Done) => {
            &&& same_data(before, after)
            &&& after.phase == Phase::Finished
            &&& action == Action::Finish(Outcome::Done)
        },
        _ => same_data(before, after) && failed_with(after, action),
    }
}

/// Checks that a file was found: `exists` says whether it was, `file_path`
/// is where it was looked for. Fails with `MissingFile` where it was not.
pub fn verify_file_exists(file_name: &str, file_path: &str, exists: bool) -> (checked: Result<
    (),
    ComposerError,
>)
    ensures
        exists ==> checked is Ok,
        !exists ==> ({
            &&& checked matches Err(ComposerError::MissingFile { name, path })
            &&& name@ == file_name@
            &&& path@ == file_path@
        }),
{
    if !exists {
        return Err(
            ComposerError::MissingFile { name: file_name.to_string(), path: file_path.to_string() },
        );
    }
    Ok(())
}

/// Checks that the template directory holds what an application needs: the
/// descriptor `app.yaml` first, then the compose file `docker-compose.jinja2`.
pub fn verify_required_files(probe: &TemplateProbe) -> (checked: Result<(), ComposerError>)
    ensures
        probe.has_descriptor && probe.has_compose ==> checked is Ok,
        !probe.has_descriptor ==> ({
            &&& checked matches Err(ComposerError::MissingFile { name, path })
            &&& name@ == "app.yaml"@
            &&& path@ == probe.descriptor_path@
        }),
        probe.has_descriptor && !probe.has_compose ==> ({
            &&& checked matches Err(ComposerError::MissingFile { name, path })
            &&& name@ == "docker-compose.jinja2"@
            &&& path@ == probe.compose_path@
        }),
{
    match verify_file_exists("app.yaml", probe.descriptor_path.as_str(), probe.has_descriptor) {
        Ok(()) => {},
        Err(error) => {
            return Err(error);
        },
    }
    verify_file_exists("docker-compose.jinja2", probe.compose_path.as_str(), probe.has_compose)
}

impl AddApplication {
    /// Stops the machine with `error`.
    fn fail(&mut self, error: ComposerError) -> (action: Action)
        ensures
            same_data(*old(self), *final(self)),
            final(self).phase == Phase::Finished,
            action == Action::Finish(Outcome::Failed(error)),
    {
        self.phase = Phase::Finished;
        Action::Finish(Outcome::Failed(error))
    }

    /// Stops the machine: it was told what it did not wait for.
    fn unexpected(&mut self) -> (action: Action)
        ensures
            same_data(*old(self), *final(self)),
            failed_with(*final(self), action),
    {
        self.fail(ComposerError::UnexpectedAnswer)
    }

    /// The record to write with `state`.
    fn record(&self, state: ApplicationState) -> (record: PersistedApplication)
        ensures
            record@ == record_of(*self, state),
    {
        let value_files: Vec<String> = match state {
            ApplicationState::RUNNING => clone_strings(&self.values_files),
            _ => Vec::new(),
        };
        proof {
            if state != ApplicationState::RUNNING {
                assert(strings_view(value_files@) =~= Seq::<Seq<char>>::empty());
            }
        }
        PersistedApplication {
            id: self.install_id.clone(),
            version: self.version.clone(),
            timestamp: self.timestamp,
            state,
            app_name: self.app_name.clone(),
            compose_path: self.directory.clone(),
            value_files,
        }
    }

    /// Asks for the sources, if there are any.
    fn read(&mut self) -> (action: Action)
        ensures
            reads(*old(self), *final(self), action),
    {
        if self.values_files.len() == 0 {
            let upgrade = self.is_upgrade;
            return self.fail(ComposerError::NoValues { upgrade });
        }
        self.phase = Phase::Sources;
        Action::ReadSources(clone_strings(&self.values_files))
    }

    /// Opens the work with the check of the value sources.
    fn open(&mut self) -> (action: Action)
        ensures
            opens(*old(self), *final(self), action),
    {
        if self.is_upgrade && self.values_files.len() > 0 {
            self.phase = Phase::Removing;
            Action::RemoveStaged
        } else {
            self.read()
        }
    }

    /// Goes on with the template at place `next`.
    fn render_from(&mut self, next: usize) -> (action: Action)
        ensures
            renders(*old(self), next as int, *final(self), action),
    {
        if next >= self.templates.len() {
            self.phase = Phase::ComposeFiles;
            Action::WalkStaged
        } else {
            self.phase = Phase::TemplateText(next);
            Action::ReadTemplate(self.templates[next].clone())
        }
    }

    /// Goes on with the compose file at place `next`.
    fn bring_up_from(&mut self, next: usize) -> (action: Action)
        ensures
            brings_up(*old(self), next as int, *final(self), action),
    {
        if next >= self.compose_files.len() {
            self.phase = Phase::Running;
            Action::Persist(self.record(ApplicationState::RUNNING))
        } else {
            self.phase = Phase::ComposeText(next);
            Action::ReadFile(self.compose_files[next].clone())
        }
    }

    /// Consolidates the sources that were read.
    fn on_sources(&mut self, sources: Vec<ValueSource>) -> (action: Action)
        ensures
            after_sources(*old(self), sources, *final(self), action),
    {
        if !sources_are(&sources, &self.values_files) {
            return self.unexpected();
        }
        match load_yaml_files(&sources) {
            Ok(values) => {
                self.values = values;
                self.phase = Phase::Probe;
                Action::ProbeTemplate
            },
            Err(error) => self.fail(error),
        }
    }

    /// Checks what was found at the template directory.
    fn on_probe(&mut self, probe: TemplateProbe) -> (action: Action)
        ensures
            after_probe(*old(self), probe, *final(self), action),
    {
        if !probe.exists {
            let directory = self.directory.clone();
            return self.fail(ComposerError::TemplateDirectoryMissing { directory });
        }
        match verify_required_files(&probe) {
            Ok(()) => {
                self.phase = Phase::Staging;
                Action::Stage { use_ignore: probe.has_ignore }
            },
            Err(error) => self.fail(error),
        }
    }

    /// Reads the descriptor and writes the first record.
    fn on_descriptor(&mut self, contents: Option<String>) -> (action: Action)
        ensures
            after_descriptor(*old(self), contents, *final(self), action),
    {
        let loaded = match &contents {
            Some(text) => load_app_yaml(Some(text.as_str())),
            None => load_app_yaml(None),
        };
        match loaded {
            Ok(app_yaml) => {
                self.app_name = app_yaml.name;
                self.version = app_yaml.version;
                self.timestamp = get_current_timestamp();
                self.phase = Phase::Starting;
                Action::Persist(self.record(ApplicationState::STARTING))
            },
            Err(error) => self.fail(error),
        }
    }

    /// Picks the templates out of the walk.
    fn on_templates(&mut self, entries: Vec<WalkEntry>) -> (action: Action)
        ensures
            after_templates(*old(self), entries, *final(self), action),
    {
        self.templates = get_files_with_extension(&entries, "jinja2");
        if self.templates.len() == 0 {
            self.phase = Phase::ComposeFiles;
            Action::WalkStaged
        } else {
            self.phase = Phase::TemplateText(0);
            Action::ReadTemplate(self.templates[0].clone())
        }
    }

    /// Renders the template that was read.
    fn on_template_text(&mut self, place: usize, text: String) -> (action: Action)
        ensures
            after_template_text(*old(self), place, text, *final(self), action),
    {
        if place >= self.templates.len() {
            return self.unexpected();
        }
        if !is_absolute(self.templates[place].as_str()) {
            return self.unexpected();
        }
        let values = self.values.clone();
        match render_template(self.templates[place].as_str(), text.as_str(), values) {
            Ok(content) => {
                self.phase = Phase::Replacing(place);
                Action::Replace { path: self.templates[place].clone(), content }
            },
            Err(error) => self.fail(error),
        }
    }

    /// Picks the compose files out of the walk.
    fn on_compose_files(&mut self, entries: Vec<WalkEntry>) -> (action: Action)
        ensures
            after_compose_files(*old(self), entries, *final(self), action),
    {
        self.compose_files = get_files_with_name(&entries, "docker-compose.jinja2");
        if self.always_pull && self.compose_files.len() > 0 {
            self.phase = Phase::Pulling(0);
            Action::Run(compose_pull(self.compose_files[0].as_str()))
        } else {
            self.bring_up_from(0)
        }
    }

    /// Goes on after a pull.
    fn on_pull(&mut self, place: usize) -> (action: Action)
        ensures
            after_pull(*old(self), place, *final(self), action),
    {
        if place < self.compose_files.len() && place + 1 < self.compose_files.len() {
            self.phase = Phase::Pulling(place + 1);
            Action::Run(compose_pull(self.compose_files[place + 1].as_str()))
        } else {
            self.bring_up_from(0)
        }
    }

    /// Decides on the compose file that was read.
    fn on_compose_text(&mut self, place: usize, contents: Option<String>) -> (action: Action)
        ensures
            after_compose_text(*old(self), place, contents, *final(self), action),
    {
        if place >= self.compose_files.len() {
            return self.unexpected();
        }
        let decided = match &contents {
            Some(text) => compose_up(self.compose_files[place].as_str(), Some(text.as_str())),
            None => compose_up(self.compose_files[place].as_str(), None),
        };
        match decided {
            Ok(None) => self.bring_up_from(place + 1),
            Ok(Some(argv)) => {
                self.phase = Phase::Up(place);
                Action::Run(argv)
            },
            Err(error) => self.fail(error),
        }
    }

    /// Goes on after a compose file was brought up.
    fn on_up(&mut self, place: usize, code: i32) -> (action: Action)
        ensures
            after_up(*old(self), place, code, *final(self), action),
    {
        if code == 0 {
            let count = self.compose_files.len();
            if place < count {
                self.bring_up_from(place + 1)
            } else {
                self.bring_up_from(count)
            }
        } else {
            self.phase = Phase::Failing(code);
            Action::SetState(ApplicationState::ERROR)
        }
    }

    /// Takes the answer to the last action and says what is to be done next.
    ///
    /// The first call is told `Event::Begin`. A failure of the work outside
    /// stops the machine at once, and so does an answer that it did not wait
    /// for; once stopped, it stays so.
    pub fn step(&mut self, event: Event) -> (action: Action)
        ensures
            step_spec(*old(self), event, *final(self), action),
    {
        let phase = self.phase;
        if let Phase::Finished = phase {
            return self.unexpected();
        }
        match (phase, event) {
            (_, Event::Failed(error)) => self.fail(error),
            (Phase::Start, Event::Begin) => self.open(),
            (Phase::Removing, Event::Done) => self.read(),
            (Phase::Sources, Event::Sources(sources)) => self.on_sources(sources),
            (Phase::Probe, Event::Probed(probe)) => self.on_probe(probe),
            (Phase::Staging, Event::Done) => {
                self.phase = Phase::Descriptor;
                Action::ReadDescriptor
            },
            (Phase::Descriptor, Event::Text(contents)) => self.on_descriptor(contents),
            (Phase::Starting, Event::Done) => {
                self.phase = Phase::Templates;
                Action::WalkStaged
            },
            (Phase::Templates, Event::Walked(entries)) => self.on_templates(entries),
            (Phase::TemplateText(place), Event::Template { text }) => self.on_template_text(
                place,
                text,
            ),
            (Phase::Replacing(place), Event::Done) => {
                if place >= self.templates.len() {
                    return self.unexpected();
                }
                self.render_from(place + 1)
            },
            (Phase::ComposeFiles, Event::Walked(entries)) => self.on_compose_files(entries),
            (Phase::Pulling(place), Event::Exit(_)) => self.on_pull(place),
            (Phase::ComposeText(place), Event::Text(contents)) => self.on_compose_text(
                place,
                contents,
            ),
            (Phase::Up(place), Event::Exit(code)) => self.on_up(place, code),
            (Phase::Failing(code), Event::Done) => {
                self.phase = Phase::Finished;
                Action::Finish(Outcome::Exit(code))
            },
            (Phase::Running, Event::Done) => {
                self.phase = Phase::Finished;
                Action::Finish(Outcome::Done)
            },
            _ => self.unexpected(),
        }
    }
}


impl Phase {
    /// Where a phase stands in the order of the work: its stage, then the
    /// place of the file it is at, then the step taken on that file.
    pub open spec fn position(self) -> (nat, nat, nat) {
        match self {
            Phase::Start => (0, 0, 0),
            Phase::Removing => (1, 0, 0),
            Phase::Sources => (2, 0, 0),
            Phase::Probe => (3, 0, 0),
            Phase::Staging => (4, 0, 0),
            Phase::Descriptor => (5, 0, 0),
            Phase::Starting => (6, 0, 0),
            Phase::Templates => (7, 0, 0),
            Phase::TemplateText(place) => (8, place as nat, 0),
            Phase::Replacing(place) => (8, place as nat, 1),
            Phase::ComposeFiles => (9, 0, 0),
            Phase::Pulling(place) => (10, place as nat, 0),
            Phase::ComposeText(place) => (11, place as nat, 0),
            Phase::Up(place) => (11, place as nat, 1),
            Phase::Failing(_) => (12, 0, 0),
            Phase::Running => (12, 0, 0),
            Phase::Finished => (13, 0, 0),
        }
    }

    /// Whether the checks that come before any change are behind: the value
    /// sources were consolidated and the template directory was looked at.
    pub open spec fn past_checks(self) -> bool {
        self.position().0 >= 4 && self != Phase::Finished
    }
}

/// Whether one position comes before another.
pub open spec fn comes_before(earlier: (nat, nat, nat), later: (nat, nat, nat)) -> bool {
    ||| earlier.0 < later.0
    ||| earlier.0 == later.0 && earlier.1 < later.1
    ||| earlier.0 == later.0 && earlier.1 == later.1 && earlier.2 < later.2
}

/// Every step takes the work forward, or stops it: the phases are gone
/// through in their order and none comes twice.
pub proof fn lemma_steps_go_forward(
    before: AddApplication,
    event: Event,
    after: AddApplication,
    action: Action,
)
    requires
        step_spec(before, event, after, action),
        before.phase != Phase::Finished,
    ensures
        comes_before(before.phase.position(), after.phase.position()),
        after.phase == Phase::Finished <==> action is Finish,
{
    assert(before.compose_files.len() == before.compose_files@.len());
    assert(before.templates.len() == before.templates@.len());
    assert(after.compose_files.len() == after.compose_files@.len());
    assert(after.templates.len() == after.templates@.len());
}

/// An install changes nothing before its checks have passed: an action that
/// changes the file system, the store or the containers is asked for only
/// once the value sources were consolidated, and the first of them, the
/// staging, only after the template directory was found with its descriptor
/// and a compose file. An upgrade differs in one thing: once it is seen to
/// have value sources, it begins by removing the staged directory.
pub proof fn lemma_no_change_before_checks(
    before: AddApplication,
    event: Event,
    after: AddApplication,
    action: Action,
)
    requires
        step_spec(before, event, after, action),
        action.mutates(),
    ensures
        before.phase == Phase::Start ==> before.is_upgrade && action is RemoveStaged
            && before.values_files@.len() > 0,
        before.phase != Phase::Start ==> after.phase.past_checks(),
        before.phase == Phase::Probe ==> ({
            &&& action is Stage
            &&& event matches Event::Probed(probe)
            &&& probe.exists
            &&& probe.has_descriptor
            &&& probe.has_compose
        }),
        before.phase != Phase::Removing && before.phase != Phase::Sources,
{
}

/// The state in a record only moves on: `STARTING` is written once, when
/// the descriptor was read, and what is written after that is `RUNNING` or
/// `ERROR`.
pub proof fn lemma_state_moves_on(
    before: AddApplication,
    event: Event,
    after: AddApplication,
    action: Action,
)
    requires
        step_spec(before, event, after, action),
    ensures
        action matches Action::Persist(record) ==> if before.phase == Phase::Descriptor {
            record.state == ApplicationState::STARTING
        } else {
            before.phase.position().0 >= 9 && record.state == ApplicationState::RUNNING
        },
        action matches Action::SetState(state) ==> before.phase is Up && state
            == ApplicationState::ERROR && ApplicationState::STARTING.may_become(state),
        action matches Action::Persist(record) ==> before.phase != Phase::Descriptor
            ==> ApplicationState::STARTING.may_become(record.state),
{
}

/// A compose file that fails to come up ends the work: the record is set to
/// `ERROR`, the machine stops with the exit code, and no other command is
/// run after it.
pub proof fn lemma_failed_up_stops(
    before: AddApplication,
    event: Event,
    after: AddApplication,
    action: Action,
)
    requires
        step_spec(before, event, after, action),
    ensures
        event matches Event::Exit(code) ==> before.phase is Up && code != 0 ==> action
            == Action::SetState(ApplicationState::ERROR) && after.phase == Phase::Failing(code),
        before.phase matches Phase::Failing(code) ==> after.phase == Phase::Finished && (action
            == Action::Finish(Outcome::Exit(code)) || action matches Action::Finish(
            Outcome::Failed(_),
        )),
        before.phase is Failing || before.phase is Finished ==> !(action is Run),
{
}

/// A compose file that names no service is passed over: no command is run
/// for it, and the work goes on with the next file or, after the last one,
/// with the record written as `RUNNING`.
pub proof fn lemma_empty_compose_is_skipped(
    before: AddApplication,
    place: usize,
    contents: Option<String>,
    after: AddApplication,
    action: Action,
)
    requires
        before.phase == Phase::ComposeText(place),
        place < before.compose_files@.len(),
        step_spec(before, Event::Text(contents), after, action),
        up_decision(
            match contents {
                Some(text) => Some(text@),
                None => None,
            },
        ) is Skip,
    ensures
        !(action is Run),
        place + 1 == before.compose_files@.len() ==> ({
            &&& after.phase == Phase::Running
            &&& action matches Action::Persist(record)
            &&& record@ == record_of(before, ApplicationState::RUNNING)
        }),
        place + 1 < before.compose_files@.len() ==> after.phase == Phase::ComposeText(
            (place + 1) as usize,
        ),
{
}

/// Three texts with a hyphen between each two.
pub open spec fn hyphenated(first: Seq<char>, second: Seq<char>, third: Seq<char>) -> Seq<char> {
    first + seq!['-'] + second + seq!['-'] + third
}

/// Whether an id is made of three words that are not empty, with a hyphen
/// between each two.
pub open spec fn three_words(id: Seq<char>) -> bool {
    exists|first: Seq<char>, second: Seq<char>, third: Seq<char>|
        first.len() > 0 && second.len() > 0 && third.len() > 0 && #[trigger] hyphenated(
            first,
            second,
            third,
        ) == id
}

/// The arguments of an install.
#[derive(Debug)]
pub struct Install {
    pub directory: String,
    pub id: Option<String>,
    pub value_files: Vec<String>,
}

impl Install {
    /// Three random words joined by hyphens, from `petname::petname`. The
    /// words are drawn by chance from the crate's own lists of adverbs,
    /// adjectives and names, none of which is empty; so what is promised is
    /// that the result is made of three words that are not empty, with a
    /// hyphen between them.
    #[verifier::external_body]
    fn get_readable_id() -> (id: String)
        ensures
            id@.len() > 0,
            three_words(id@),
    {
        petname::petname(3, "-")
    }

    /// The id that the application is installed under: the one that was
    /// given, or a readable one of three words made up for it.
    pub fn install_id(&self) -> (install_id: String)
        ensures
            self.id matches Some(given) ==> install_id@ == given@,
            self.id is None ==> install_id@.len() > 0 && three_words(install_id@),
    {
        match &self.id {
            Some(given) => given.clone(),
            None => Self::get_readable_id(),
        }
    }

    /// Begins an install under `install_id`, which is the id that was given
    /// where one was given. `staged` says whether a staged directory is
    /// there for that id already; if so, nothing is begun and the install
    /// fails with `AlreadyExists`.
    pub fn exec(&self, install_id: &String, staged: bool, always_pull: bool) -> (begun: Result<
        AddApplication,
        ComposerError,
    >)
        requires
            self.id matches Some(given) ==> install_id@ == given@,
        ensures
            staged ==> ({
                &&& begun matches Err(ComposerError::AlreadyExists { id })
                &&& id@ == install_id@
            }),
            !staged ==> ({
                &&& begun matches Ok(machine)
                &&& fresh(
                    machine,
                    install_id@,
                    false,
                    strings_view(self.value_files@),
                    self.directory@,
                    always_pull,
                )
            }),
    {
        if staged {
            return Err(ComposerError::AlreadyExists { id: install_id.clone() });
        }
        Ok(add_application(install_id, false, &self.value_files, &self.directory, always_pull))
    }
}

} // verus!
