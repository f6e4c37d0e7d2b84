//! Everything that can go wrong, and the message shown for it.

use vstd::prelude::*;

verus! {

/// A failure of one of the library's operations.
#[derive(Debug, Clone, PartialEq, Eq)]
pub enum ComposerError {
    /// A value source that should be an assignment holds no `=`.
    InvalidAssignment { source: String },
    /// An assignment with nothing before its `=`.
    MissingKey { source: String },
    /// A values file that could not be read.
    FileNotFound { path: String },
    /// A values file that is not YAML.
    ParseError { path: String },
    /// A values file whose top level is not a mapping.
    TopLevelNotMapping,
    /// An install onto an id that is staged already.
    AlreadyExists { id: String },
    /// An install (or, with `upgrade`, an upgrade) without value sources.
    NoValues { upgrade: bool },
    /// The template directory is not there.
    TemplateDirectoryMissing { directory: String },
    /// A file that the template directory must hold is not there.
    MissingFile { name: String, path: String },
    /// An upgrade without an id.
    MissingId,
    /// An upgrade of an id that is not staged.
    NotInstalled { id: String },
    /// An upgrade without value sources, given or stored.
    NoStoredValues { id: String },
    /// A delete of an id that the store does not know.
    UnknownApplication { id: String },
    /// No record with this id.
    NotFound { id: String },
    /// No record with this id to delete.
    NotFoundToDelete { id: String },
    /// The store's text could not be read as a list of records.
    StoreUnreadable,
    /// The store's text could not be read before a write.
    StoreInvalid,
    /// The template command without a template file.
    NoTemplateFile,
    /// The template command without value sources.
    NoTemplateValues,
    /// The values handed to a template are no mapping.
    ValuesNotMapping,
    /// The template does not compile or could not be rendered.
    Render { path: String, cause: String },
    /// The values hold an empty tag, which the template engine cannot be given.
    UnsupportedValues { path: String },
    /// A compose file is not there.
    ComposeMissing { path: String },
    /// A compose file is not YAML.
    ComposeInvalid { path: String },
    /// The application descriptor could not be read.
    DescriptorUnreadable,
    /// The application descriptor lacks a name or a version.
    DescriptorInvalid,
    /// A pattern that files are held against is no regular expression.
    InvalidPattern { pattern: String },
    /// A file operation failed.
    Io { context: String },
    /// The verbosity on the command line names no level.
    UnknownLogLevel,
    /// The library was told what it did not wait for.
    UnexpectedAnswer,
}

/// `first + middle + last`.
pub fn join3(first: &str, middle: &str, last: &str) -> (text: String)
    ensures
        text@ == first@ + middle@ + last@,
{
    let mut text = String::from_str(first);
    text.append(middle);
    text.append(last);
    text
}

impl ComposerError {
    /// The message of the failure.
    pub open spec fn message_text(self) -> Seq<char> {
        match self {
            ComposerError::InvalidAssignment { source } => "Failed to split YAML string: "@
                + source@ + ", must be the format x.y.z=foo"@,
            ComposerError::MissingKey { source } => "Failed to find yaml key for string "@
                + source@ + ", must be the format x.y.z=foo."@,
            ComposerError::FileNotFound { path } => "Failed to read values YAML file: "@ + path@
                + ""@,
            ComposerError::ParseError { path } => "Failed to read values YAML file: "@ + path@
                + ""@,
            ComposerError::TopLevelNotMapping => "Expected top-level YAML structure to be a mapping."@,
            ComposerError::AlreadyExists { id } => "An application with the id '"@ + id@
                + "' already exists. Did you mean to `composer upgrade "@ + id@ + "` instead?"@,
            ComposerError::NoValues { upgrade } => if upgrade {
                "You cannot upgrade an application with no values file. Use -v <values path> to specify values file."@
            } else {
                "You cannot install an application with no values file. Use -v <values path> to specify values file."@
            },
            ComposerError::TemplateDirectoryMissing { directory } => "Template directory "@
                + directory@ + " does not exist."@,
            ComposerError::MissingFile { name, path } => "Could not find "@ + name@ + " at "@
                + path@ + ""@,
            ComposerError::MissingId => "Could not get ID to upgrade."@,
            ComposerError::NotInstalled { id } => "An application with the id '"@ + id@
                + "' does not exist. Did you mean to `composer install "@ + id@ + "` instead?"@,
            ComposerError::NoStoredValues { id } => "Cannot upgrade application '"@ + id@
                + "' because no value files were provided and none were found from the previous installation. Use -v <values path> to specify value files."@,
            ComposerError::UnknownApplication { id } => "Could not find application '"@ + id@
                + "' to delete it."@,
            ComposerError::NotFound { id } => "Application with id "@ + id@ + " not found"@,
            ComposerError::NotFoundToDelete { id } => "Application with id '"@ + id@
                + "' not found, could not delete. Does it exist?"@,
            ComposerError::StoreUnreadable => "Could not parse JSON in config.json"@,
            ComposerError::StoreInvalid => "Could not parse ~/.composer/config.json. Is it valid json?"@,
            ComposerError::NoTemplateFile => "You have not provided a template file. Use -t <template path> to specify a template file."@,
            ComposerError::NoTemplateValues => "You cannot create a template with no values file. Use -v <values path> to specify values file."@,
            ComposerError::ValuesNotMapping => "Both base and override YAML values must be mappings."@,
            ComposerError::Render { path, cause } => "Failed to render template "@ + path@
                + ": due to an error in the template. Error: "@ + cause@ + ""@,
            ComposerError::UnsupportedValues { path } => "Failed to render template "@ + path@
                + ": the values hold an empty tag."@,
            ComposerError::ComposeMissing { path } => "The provided compose file path '"@ + path@
                + "' does not exist."@,
            ComposerError::ComposeInvalid { path } => "The provided compose file '"@ + path@
                + "' is not a valid YAML file"@,
            ComposerError::DescriptorUnreadable => "Failed to open YAML file"@,
            ComposerError::DescriptorInvalid => "Failed to deserialize YAML data"@,
            ComposerError::InvalidPattern { pattern } => "The pattern '"@ + pattern@
                + "' is not a regular expression."@,
            ComposerError::Io { context } => context@,
            ComposerError::UnknownLogLevel => "attempted to convert a string that doesn't match an existing log level"@,
            ComposerError::UnexpectedAnswer => "The step could not be carried out."@,
        }
    }

    /// The message of the failure, as shown to the operator.
    pub fn message(&self) -> (text: String)
        ensures
            text@ == self.message_text(),
    {
        match self {
            ComposerError::InvalidAssignment { source } => join3(
                "Failed to split YAML string: ",
                source.as_str(),
                ", must be the format x.y.z=foo",
            ),
            ComposerError::MissingKey { source } => join3(
                "Failed to find yaml key for string ",
                source.as_str(),
                ", must be the format x.y.z=foo.",
            ),
            ComposerError::FileNotFound { path } => join3(
                "Failed to read values YAML file: ",
                path.as_str(),
                "",
            ),
            ComposerError::ParseError { path } => join3(
                "Failed to read values YAML file: ",
                path.as_str(),
                "",
            ),
            ComposerError::TopLevelNotMapping => String::from_str(
                "Expected top-level YAML structure to be a mapping.",
            ),
            ComposerError::AlreadyExists { id } => {
                let mut text = join3(
                    "An application with the id '",
                    id.as_str(),
                    "' already exists. Did you mean to `composer upgrade ",
                );
                text.append(id.as_str());
                text.append("` instead?");
                text
            },
            ComposerError::NoValues { upgrade } => if *upgrade {
                String::from_str(
                    "You cannot upgrade an application with no values file. Use -v <values path> to specify values file.",
                )
            } else {
                String::from_str(
                    "You cannot install an application with no values file. Use -v <values path> to specify values file.",
                )
            },
            ComposerError::TemplateDirectoryMissing { directory } => join3(
                "Template directory ",
                directory.as_str(),
                " does not exist.",
            ),
            ComposerError::MissingFile { name, path } => {
                let mut text = join3("Could not find ", name.as_str(), " at ");
                text.append(path.as_str());
                text.append("");
                text
            },
            ComposerError::MissingId => String::from_str("Could not get ID to upgrade."),
            ComposerError::NotInstalled { id } => {
                let mut text = join3(
                    "An application with the id '",
                    id.as_str(),
                    "' does not exist. Did you mean to `composer install ",
                );
                text.append(id.as_str());
                text.append("` instead?");
                text
            },
            ComposerError::NoStoredValues { id } => join3(
                "Cannot upgrade application '",
                id.as_str(),
                "' because no value files were provided and none were found from the previous installation. Use -v <values path> to specify value files.",
            ),
            ComposerError::UnknownApplication { id } => join3(
                "Could not find application '",
                id.as_str(),
                "' to delete it.",
            ),
            ComposerError::NotFound { id } => join3(
                "Application with id ",
                id.as_str(),
                " not found",
            ),
            ComposerError::NotFoundToDelete { id } => join3(
                "Application with id '",
                id.as_str(),
                "' not found, could not delete. Does it exist?",
            ),
            ComposerError::StoreUnreadable => String::from_str(
                "Could not parse JSON in config.json",
            ),
            ComposerError::StoreInvalid => String::from_str(
                "Could not parse ~/.composer/config.json. Is it valid json?",
            ),
            ComposerError::NoTemplateFile => String::from_str(
                "You have not provided a template file. Use -t <template path> to specify a template file.",
            ),
            ComposerError::NoTemplateValues => String::from_str(
                "You cannot create a template with no values file. Use -v <values path> to specify values file.",
            ),
            ComposerError::ValuesNotMapping => String::from_str(
                "Both base and override YAML values must be mappings.",
            ),
            ComposerError::Render { path, cause } => {
                let mut text = join3(
                    "Failed to render template ",
                    path.as_str(),
                    ": due to an error in the template. Error: ",
                );
                text.append(cause.as_str());
                text.append("");
                text
            },
            ComposerError::UnsupportedValues { path } => join3(
                "Failed to render template ",
                path.as_str(),
                ": the values hold an empty tag.",
            ),
            ComposerError::ComposeMissing { path } => join3(
                "The provided compose file path '",
                path.as_str(),
                "' does not exist.",
            ),
            ComposerError::ComposeInvalid { path } => join3(
                "The provided compose file '",
                path.as_str(),
                "' is not a valid YAML file",
            ),
            ComposerError::DescriptorUnreadable => String::from_str("Failed to open YAML file"),
            ComposerError::DescriptorInvalid => String::from_str(
                "Failed to deserialize YAML data",
            ),
            ComposerError::InvalidPattern { pattern } => join3(
                "The pattern '",
                pattern.as_str(),
                "' is not a regular expression.",
            ),
            ComposerError::Io { context } => context.clone(),
            ComposerError::UnknownLogLevel => String::from_str(
                "attempted to convert a string that doesn't match an existing log level",
            ),
            ComposerError::UnexpectedAnswer => String::from_str(
                "The step could not be carried out.",
            ),
        }
    }
}

} // verus!
