//! The command line as a whole: the settings it fixes and the command it names.

use vstd::prelude::*;
use crate::commands::delete::Delete;
use crate::commands::install::Install;
use crate::commands::list::List;
use crate::commands::template::Template;
use crate::commands::test::Test;
use crate::commands::upgrade::Upgrade;
use crate::error::ComposerError;
use crate::settings::{LevelFilter, Settings};

verus! {

/// The command line: the options that hold for every command, and the command.
#[derive(Debug)]
pub struct Cli {
    pub log_level: String,
    pub always_pull: bool,
    pub cmd: Cmd,
}

/// The commands of the tool.
#[derive(Debug)]
pub enum Cmd {
    Install(Install),
    Upgrade(Upgrade),
    List(List),
    Template(Template),
    Delete(Delete),
    Test(Test),
}

impl Cli {
    /// The settings that the command line fixes: the verbosity that its
    /// level names, and whether images are always pulled. Fails with
    /// `UnknownLogLevel` where the level names none.
    pub fn settings(&self) -> (fixed: Result<Settings, ComposerError>)
        ensures
            match LevelFilter::named(self.log_level@) {
                Some(filter) => fixed == Ok::<Settings, ComposerError>(
                    Settings {
                        verbosity: Some(filter),
                        always_pull: Some(self.always_pull),
                        no_run: None,
                    },
                ),
                None => fixed matches Err(ComposerError::UnknownLogLevel),
            },
    {
        match LevelFilter::from_name(self.log_level.as_str()) {
            Some(filter) => Ok(
                Settings {
                    verbosity: Some(filter),
                    always_pull: Some(self.always_pull),
                    no_run: None,
                },
            ),
            None => Err(ComposerError::UnknownLogLevel),
        }
    }

    /// The command to carry out.
    pub fn run(&self) -> (command: &Cmd)
        ensures
            *command == self.cmd,
    {
        &self.cmd
    }
}

} // verus!
